//! The command dispatcher: a state machine that takes one event at a time
//! and answers with the next thing to do.
//!
//! A command starts in [`Phase::Idle`] and ends there again with
//! [`Action::Complete`] or [`Action::Reject`]. In between the dispatcher
//! waits for at most two answers from outside: the operator's consent and
//! one result from the secure element. Nothing is kept from one command to
//! the next.
use crate::error::AgeError;
use crate::instruction::{DecodeError, Instruction, Policy, Prompt};
use crate::message::{
    conclude_with, material_outcome, material_view, outcome_view, payload_view, Action,
    ActionView, Event, EventView,
};
use crate::path::{age_path, derivation_path};
use crate::tag::{confirm_tag, recipient_tag, sha256, tag_outcome, TAG_LEN};
use vstd::prelude::*;

verus! {

/// Where the command in flight stands.
#[derive(Debug, PartialEq, Eq)]
pub enum Phase {
    /// No command in flight.
    Idle,
    /// `GetRecipient` waits for the operator's consent.
    ConfirmingRecipient,
    /// `GetSharedKey` waits for the operator's consent; `peer` is the
    /// payload it arrived with.
    ConfirmingUnwrap { peer: Vec<u8> },
    /// `GetRecipient` waits for the public key.
    DerivingRecipient,
    /// `ConfirmRecipient` waits for the public key; `tag` is the payload it
    /// arrived with.
    DerivingForTag { tag: Vec<u8> },
    /// `GetSharedKey` waits for the shared secret.
    Unwrapping,
}

/// A [`Phase`] with its byte strings as sequences.
pub enum PhaseView {
    Idle,
    ConfirmingRecipient,
    ConfirmingUnwrap { peer: Seq<u8> },
    DerivingRecipient,
    DerivingForTag { tag: Seq<u8> },
    Unwrapping,
}

impl View for Phase {
    type V = PhaseView;

    open spec fn view(&self) -> PhaseView {
        match *self {
            Phase::Idle => PhaseView::Idle,
            Phase::ConfirmingRecipient => PhaseView::ConfirmingRecipient,
            Phase::ConfirmingUnwrap { peer } => PhaseView::ConfirmingUnwrap { peer: peer@ },
            Phase::DerivingRecipient => PhaseView::DerivingRecipient,
            Phase::DerivingForTag { tag } => PhaseView::DerivingForTag { tag: tag@ },
            Phase::Unwrapping => PhaseView::Unwrapping,
        }
    }
}

impl PhaseView {
    /// The instruction in flight, if any.
    pub open spec fn instruction(self) -> Option<Instruction> {
        match self {
            PhaseView::Idle => None,
            PhaseView::ConfirmingRecipient | PhaseView::DerivingRecipient => Some(
                Instruction::GetRecipient,
            ),
            PhaseView::DerivingForTag { .. } => Some(Instruction::ConfirmRecipient),
            PhaseView::ConfirmingUnwrap { .. } | PhaseView::Unwrapping => Some(
                Instruction::GetSharedKey,
            ),
        }
    }
}

/// Whether a payload is long enough for an instruction.
pub open spec fn payload_suffices(instruction: Instruction, payload: Option<Seq<u8>>) -> bool {
    instruction.needs_payload() ==> (payload matches Some(bytes) && bytes.len()
        >= instruction.min_payload_len())
}

/// How a command is taken up from [`Phase::Idle`]: decoded, held against the
/// policy, its payload checked, and only then passed on to the operator or
/// the secure element.
pub open spec fn accept(policy: Policy, opcode: u8, payload: Option<Seq<u8>>) -> (
    PhaseView,
    ActionView,
) {
    match Instruction::of_opcode(opcode) {
        Err(error) => (PhaseView::Idle, ActionView::Reject(error)),
        Ok(instruction) => if !policy.admits(instruction) {
            (PhaseView::Idle, ActionView::Reject(DecodeError { opcode }))
        } else if !payload_suffices(instruction, payload) {
            (PhaseView::Idle, ActionView::Complete(Err(AgeError::MalformedInput)))
        } else {
            match instruction {
                Instruction::GetRecipient => if policy.gates(instruction) {
                    (PhaseView::ConfirmingRecipient, ActionView::Ask(Prompt::SendRecipient))
                } else {
                    (
                        PhaseView::DerivingRecipient,
                        ActionView::ExportPublicKey { path: age_path() },
                    )
                },
                Instruction::ConfirmRecipient => (
                    PhaseView::DerivingForTag { tag: payload->Some_0 },
                    ActionView::ExportPublicKey { path: age_path() },
                ),
                Instruction::GetSharedKey => (
                    PhaseView::ConfirmingUnwrap { peer: payload->Some_0 },
                    ActionView::Ask(Prompt::SendDecryptionKey),
                ),
            }
        },
    }
}

/// How `ConfirmRecipient` ends once the secure element has answered: with
/// the key if the tag is its digest, with a mismatch otherwise.
pub open spec fn tag_verdict(tag: Seq<u8>, material: Result<Seq<u8>, u32>) -> Result<
    Seq<u8>,
    AgeError,
> {
    match material {
        Ok(public_key) => tag_outcome(tag, sha256(public_key), public_key),
        Err(code) => Err(AgeError::crypto(code)),
    }
}

/// The dispatcher's transition function. An event that the phase does not
/// wait for changes nothing and is answered with [`Action::Ignore`].
pub open spec fn transition(policy: Policy, phase: PhaseView, event: EventView) -> (
    PhaseView,
    ActionView,
) {
    match (phase, event) {
        (PhaseView::Idle, EventView::Command { opcode, payload }) => accept(
            policy,
            opcode,
            payload,
        ),
        (PhaseView::ConfirmingRecipient, EventView::Consent(granted)) => if granted {
            (PhaseView::DerivingRecipient, ActionView::ExportPublicKey { path: age_path() })
        } else {
            (PhaseView::Idle, ActionView::Complete(Err(AgeError::UserDenied)))
        },
        (PhaseView::ConfirmingUnwrap { peer }, EventView::Consent(granted)) => if granted {
            (PhaseView::Unwrapping, ActionView::Agree { path: age_path(), peer })
        } else {
            (PhaseView::Idle, ActionView::Complete(Err(AgeError::UserDenied)))
        },
        (PhaseView::DerivingRecipient, EventView::PublicKey(material)) => (
            PhaseView::Idle,
            ActionView::Complete(material_outcome(material)),
        ),
        (PhaseView::DerivingForTag { tag }, EventView::PublicKey(material)) => (
            PhaseView::Idle,
            ActionView::Complete(tag_verdict(tag, material)),
        ),
        (PhaseView::Unwrapping, EventView::SharedSecret(material)) => (
            PhaseView::Idle,
            ActionView::Complete(material_outcome(material)),
        ),
        _ => (phase, ActionView::Ignore),
    }
}

/// Takes up a command.
fn accept_command(policy: &Policy, opcode: u8, payload: Option<Vec<u8>>) -> (r: (Phase, Action))
    ensures
        (r.0@, r.1@) == accept(*policy, opcode, payload_view(payload)),
{
    let instruction = match Instruction::decode(opcode) {
        Ok(instruction) => instruction,
        Err(error) => {
            return (Phase::Idle, Action::Reject(error));
        },
    };
    if !policy.serves(instruction) {
        return (Phase::Idle, Action::Reject(DecodeError { opcode }));
    }
    match instruction {
        Instruction::GetRecipient => {
            if policy.requires_consent(instruction) {
                (Phase::ConfirmingRecipient, Action::Ask(Prompt::SendRecipient))
            } else {
                (Phase::DerivingRecipient, Action::ExportPublicKey { path: derivation_path() })
            }
        },
        Instruction::ConfirmRecipient => {
            match payload {
                Some(tag) if tag.len() >= TAG_LEN => (
                    Phase::DerivingForTag { tag },
                    Action::ExportPublicKey { path: derivation_path() },
                ),
                _ => (Phase::Idle, Action::Complete(Err(AgeError::MalformedInput))),
            }
        },
        Instruction::GetSharedKey => {
            match payload {
                Some(peer) if peer.len() >= 1 => (
                    Phase::ConfirmingUnwrap { peer },
                    Action::Ask(Prompt::SendDecryptionKey),
                ),
                _ => (Phase::Idle, Action::Complete(Err(AgeError::MalformedInput))),
            }
        },
    }
}

/// Settles `ConfirmRecipient` once the secure element has answered.
fn settle_tag(tag: Vec<u8>, material: Result<Vec<u8>, u32>) -> (outcome: Result<
    Vec<u8>,
    AgeError,
>)
    ensures
        outcome_view(outcome) == tag_verdict(tag@, material_view(material)),
{
    match material {
        Ok(public_key) => {
            let digest = recipient_tag(public_key.as_slice());
            confirm_tag(tag.as_slice(), digest.as_slice(), public_key)
        },
        Err(code) => Err(AgeError::from_crypto_code(code)),
    }
}

/// The dispatcher: a policy, fixed for its lifetime, and the phase of the
/// command in flight.
#[derive(Debug)]
pub struct Dispatcher {
    /// The policy in force.
    pub policy: Policy,
    /// Where the command in flight stands.
    pub phase: Phase,
}

impl Dispatcher {
    /// A dispatcher with no command in flight.
    pub fn new(policy: Policy) -> (d: Dispatcher)
        ensures
            d.policy == policy,
            d.phase@ == PhaseView::Idle,
    {
        Dispatcher { policy, phase: Phase::Idle }
    }

    /// Whether no command is in flight.
    pub fn is_idle(&self) -> (b: bool)
        ensures
            b == (self.phase@ == PhaseView::Idle),
    {
        match self.phase {
            Phase::Idle => true,
            _ => false,
        }
    }

    /// The instruction in flight, if any.
    pub fn in_flight(&self) -> (i: Option<Instruction>)
        ensures
            i == self.phase@.instruction(),
    {
        match self.phase {
            Phase::Idle => None,
            Phase::ConfirmingRecipient | Phase::DerivingRecipient => Some(
                Instruction::GetRecipient,
            ),
            Phase::DerivingForTag { .. } => Some(Instruction::ConfirmRecipient),
            Phase::ConfirmingUnwrap { .. } | Phase::Unwrapping => Some(Instruction::GetSharedKey),
        }
    }

    /// Feeds one event to the dispatcher and returns what to do next.
    pub fn step(&mut self, event: Event) -> (action: Action)
        ensures
            final(self).policy == old(self).policy,
            (final(self).phase@, action@) == transition(
                old(self).policy,
                old(self).phase@,
                event@,
            ),
    {
        let mut phase = Phase::Idle;
        core::mem::swap(&mut self.phase, &mut phase);
        let (next, action) = match phase {
            Phase::Idle => match event {
                Event::Command { opcode, payload } => accept_command(&self.policy, opcode, payload),
                _ => (Phase::Idle, Action::Ignore),
            },
            Phase::ConfirmingRecipient => match event {
                Event::Consent(true) => (
                    Phase::DerivingRecipient,
                    Action::ExportPublicKey { path: derivation_path() },
                ),
                Event::Consent(false) => (
                    Phase::Idle,
                    Action::Complete(Err(AgeError::UserDenied)),
                ),
                _ => (Phase::ConfirmingRecipient, Action::Ignore),
            },
            Phase::ConfirmingUnwrap { peer } => match event {
                Event::Consent(true) => (
                    Phase::Unwrapping,
                    Action::Agree { path: derivation_path(), peer },
                ),
                Event::Consent(false) => (
                    Phase::Idle,
                    Action::Complete(Err(AgeError::UserDenied)),
                ),
                _ => (Phase::ConfirmingUnwrap { peer }, Action::Ignore),
            },
            Phase::DerivingRecipient => match event {
                Event::PublicKey(material) => (
                    Phase::Idle,
                    Action::Complete(conclude_with(material)),
                ),
                _ => (Phase::DerivingRecipient, Action::Ignore),
            },
            Phase::DerivingForTag { tag } => match event {
                Event::PublicKey(material) => (
                    Phase::Idle,
                    Action::Complete(settle_tag(tag, material)),
                ),
                _ => (Phase::DerivingForTag { tag }, Action::Ignore),
            },
            Phase::Unwrapping => match event {
                Event::SharedSecret(material) => (
                    Phase::Idle,
                    Action::Complete(conclude_with(material)),
                ),
                _ => (Phase::Unwrapping, Action::Ignore),
            },
        };
        self.phase = next;
        action
    }
}

} // verus!
