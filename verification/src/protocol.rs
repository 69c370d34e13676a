//! What a command amounts to, end to end.
//!
//! [`transition`] says what the dispatcher does with one event. This module
//! models the other side, the operator and the secure element, as an
//! [`Environment`], lets the two play a command out, and states what comes
//! of it: the command ends as [`conclusion`] says, a function of the
//! command, the policy and the environment's answers alone.
use crate::dispatch::{payload_suffices, tag_verdict, transition, PhaseView};
use crate::error::{
    lemma_crypto_failure_range, AgeError, STATUS_MALFORMED_INPUT, STATUS_TAG_MISMATCH,
};
use crate::instruction::{
    DecodeError, Instruction, Policy, Prompt, INS_CONFIRM_RECIPIENT, INS_GET_RECIPIENT,
    INS_GET_SHARED_KEY,
};
use crate::message::{material_outcome, ActionView, EventView, ResponseView};
use crate::path::age_path;
use crate::tag::{sha256, TAG_LEN};
use vstd::prelude::*;

verus! {

/// How the world outside answers while one command is served.
pub struct Environment {
    /// What the operator answers when asked.
    pub consent: bool,
    /// What the secure element exports for the key at a path.
    pub public_key: spec_fn(Seq<u32>) -> Result<Seq<u8>, u32>,
    /// What the secure element computes from the key at a path and a peer.
    pub shared_secret: spec_fn(Seq<u32>, Seq<u8>) -> Result<Seq<u8>, u32>,
}

/// A command together with the environment it is served in.
pub struct Exchange {
    pub opcode: u8,
    pub payload: Option<Seq<u8>>,
    pub environment: Environment,
}

/// Where a run ended and what the dispatcher asked for on the way.
pub struct Run {
    pub phase: PhaseView,
    pub actions: Seq<ActionView>,
}

impl Environment {
    /// The event with which the environment answers an action, if the action
    /// waits for one.
    pub open spec fn answer(self, action: ActionView) -> Option<EventView> {
        match action {
            ActionView::Ask(_) => Some(EventView::Consent(self.consent)),
            ActionView::ExportPublicKey { path } => Some(
                EventView::PublicKey((self.public_key)(path)),
            ),
            ActionView::Agree { path, peer } => Some(
                EventView::SharedSecret((self.shared_secret)(path, peer)),
            ),
            ActionView::Ignore | ActionView::Complete(_) | ActionView::Reject(_) => None,
        }
    }
}

impl Exchange {
    /// The event that opens the exchange.
    pub open spec fn command(self) -> EventView {
        EventView::Command { opcode: self.opcode, payload: self.payload }
    }

    /// The action that ends the exchange.
    pub open spec fn conclusion(self, policy: Policy) -> ActionView {
        conclusion(policy, self.opcode, self.payload, self.environment)
    }
}

/// Feeds an event to the dispatcher and then lets the environment answer
/// each request, at most `patience` times.
pub open spec fn run(
    policy: Policy,
    phase: PhaseView,
    event: EventView,
    environment: Environment,
    patience: nat,
) -> Run
    decreases patience,
{
    let (next, action) = transition(policy, phase, event);
    match environment.answer(action) {
        Some(reply) if patience > 0 => {
            let rest = run(policy, next, reply, environment, (patience - 1) as nat);
            Run { phase: rest.phase, actions: seq![action] + rest.actions }
        },
        _ => Run { phase: next, actions: seq![action] },
    }
}

/// Serves one command from [`PhaseView::Idle`]. Two answers from outside are
/// the most a command waits for.
pub open spec fn serve(policy: Policy, exchange: Exchange) -> Run {
    run(policy, PhaseView::Idle, exchange.command(), exchange.environment, 2)
}

/// Serves commands one after the other and collects the action that ended
/// each.
pub open spec fn serve_all(policy: Policy, phase: PhaseView, exchanges: Seq<Exchange>) -> Run
    decreases exchanges.len(),
{
    if exchanges.len() == 0 {
        Run { phase, actions: Seq::empty() }
    } else {
        let first = run(policy, phase, exchanges[0].command(), exchanges[0].environment, 2);
        let rest = serve_all(policy, first.phase, exchanges.drop_first());
        Run { phase: rest.phase, actions: seq![first.actions.last()] + rest.actions }
    }
}

/// How an instruction that the policy serves ends.
///
/// The checks come in a fixed order: the payload, then the operator. Only a
/// command that passes both reaches the secure element.
pub open spec fn verdict(
    policy: Policy,
    instruction: Instruction,
    payload: Option<Seq<u8>>,
    environment: Environment,
) -> Result<Seq<u8>, AgeError> {
    if !payload_suffices(instruction, payload) {
        Err(AgeError::MalformedInput)
    } else if policy.gates(instruction) && !environment.consent {
        Err(AgeError::UserDenied)
    } else {
        match instruction {
            Instruction::GetRecipient => material_outcome((environment.public_key)(age_path())),
            Instruction::ConfirmRecipient => tag_verdict(
                payload->Some_0,
                (environment.public_key)(age_path()),
            ),
            Instruction::GetSharedKey => material_outcome(
                (environment.shared_secret)(age_path(), payload->Some_0),
            ),
        }
    }
}

/// The action that ends a command: a rejection if the opcode names no
/// instruction or one the policy does not serve, the instruction's
/// [`verdict`] otherwise.
pub open spec fn conclusion(
    policy: Policy,
    opcode: u8,
    payload: Option<Seq<u8>>,
    environment: Environment,
) -> ActionView {
    match Instruction::of_opcode(opcode) {
        Ok(instruction) if policy.admits(instruction) => ActionView::Complete(
            verdict(policy, instruction, payload, environment),
        ),
        _ => ActionView::Reject(DecodeError { opcode }),
    }
}

/// Every command is one round trip: served from idle it ends idle, its last
/// action is its conclusion, every action before that is a request to the
/// operator or the secure element, and there are at most two of those.
pub proof fn lemma_command_completes(policy: Policy, exchange: Exchange)
    ensures
        serve(policy, exchange).phase == PhaseView::Idle,
        1 <= serve(policy, exchange).actions.len() <= 3,
        serve(policy, exchange).actions.last() == exchange.conclusion(policy),
        forall|k: int|
            0 <= k < serve(policy, exchange).actions.len() - 1 ==> (#[trigger] serve(
                policy,
                exchange,
            ).actions[k]).is_request(),
{
    reveal_with_fuel(run, 3);
}

/// Every conclusion has a response, and the response is all or nothing: a
/// failure never carries a payload, and no failure looks like success.
pub proof fn lemma_response_all_or_nothing(policy: Policy, exchange: Exchange)
    ensures
        ({
            let conclusion = exchange.conclusion(policy);
            &&& conclusion.response() is Some
            &&& conclusion.response()->Some_0.well_formed()
            &&& conclusion.response()->Some_0.is_activity() <==> (conclusion
                matches ActionView::Complete(Ok(_)))
        }),
{
    match exchange.conclusion(policy) {
        ActionView::Complete(Err(error)) => lemma_crypto_failure_range(error),
        _ => {},
    }
}

/// A command in flight is never cancelled or restarted by another command:
/// the newcomer is ignored and the phase stays as it was.
pub proof fn lemma_busy_dispatcher_ignores_commands(
    policy: Policy,
    phase: PhaseView,
    opcode: u8,
    payload: Option<Seq<u8>>,
)
    requires
        phase != PhaseView::Idle,
    ensures
        transition(policy, phase, EventView::Command { opcode, payload }) == (
            phase,
            ActionView::Ignore,
        ),
{
}

/// The phase tells which instruction is in flight: the one the command's
/// opcode decoded to, from the moment the command is taken up until the
/// dispatcher concludes and is idle again.
pub proof fn lemma_phase_keeps_instruction(policy: Policy, phase: PhaseView, event: EventView)
    ensures
        phase != PhaseView::Idle ==> transition(policy, phase, event).0 == PhaseView::Idle
            || transition(policy, phase, event).0.instruction() == phase.instruction(),
        (event matches EventView::Command { opcode, .. } ==> (phase == PhaseView::Idle
            ==> transition(policy, phase, event).0 == PhaseView::Idle || Instruction::of_opcode(
            opcode,
        ) == Ok::<Instruction, DecodeError>(
            transition(policy, phase, event).0.instruction()->Some_0,
        ))),
        transition(policy, phase, event).1.response() is Some ==> transition(
            policy,
            phase,
            event,
        ).0 == PhaseView::Idle,
{
}

/// Every key operation is bound to the one fixed derivation path.
pub proof fn lemma_keys_come_from_the_fixed_path(
    policy: Policy,
    phase: PhaseView,
    event: EventView,
)
    ensures
        (transition(policy, phase, event).1 matches ActionView::ExportPublicKey { path } ==> path
            == age_path()),
        (transition(policy, phase, event).1 matches ActionView::Agree { path, .. } ==> path
            == age_path()),
{
}

/// An opcode that names no instruction, or one the policy does not serve, is
/// rejected at once, and the dispatcher is idle again, ready for the next
/// command.
pub proof fn lemma_unknown_opcode_is_rejected(policy: Policy, exchange: Exchange)
    requires
        Instruction::of_opcode(exchange.opcode) matches Ok(instruction) ==> !policy.admits(
            instruction,
        ),
    ensures
        serve(policy, exchange).actions == seq![
            ActionView::Reject(DecodeError { opcode: exchange.opcode }),
        ],
        serve(policy, exchange).phase == PhaseView::Idle,
{
    reveal_with_fuel(run, 3);
}

/// A command that needs a payload and comes with none, or with too short a
/// one, fails as malformed before the operator is asked and before any key
/// is derived: the failure is the only action.
pub proof fn lemma_missing_payload_is_malformed(policy: Policy, exchange: Exchange)
    requires
        Instruction::of_opcode(exchange.opcode) matches Ok(instruction) && policy.admits(
            instruction,
        ) && !payload_suffices(instruction, exchange.payload),
    ensures
        serve(policy, exchange).actions == seq![
            ActionView::Complete(Err(AgeError::MalformedInput)),
        ],
{
    reveal_with_fuel(run, 3);
}

/// In particular an instruction that reads its payload fails as malformed
/// whenever the payload is empty or absent, whatever the operator would have
/// said: nobody is asked and no key is derived.
pub proof fn lemma_empty_payload_is_malformed(
    policy: Policy,
    instruction: Instruction,
    exchange: Exchange,
)
    requires
        Instruction::of_opcode(exchange.opcode) == Ok::<Instruction, DecodeError>(instruction),
        policy.admits(instruction),
        instruction.needs_payload(),
        exchange.payload matches Some(bytes) ==> bytes.len() == 0,
    ensures
        serve(policy, exchange).actions == seq![
            ActionView::Complete(Err(AgeError::MalformedInput)),
        ],
        ResponseView::of_outcome(Err(AgeError::MalformedInput)) == (ResponseView {
            status: STATUS_MALFORMED_INPUT,
            payload: Seq::empty(),
        }),
{
    lemma_missing_payload_is_malformed(policy, exchange);
}

/// When the operator is asked and declines, the command ends with the
/// denial and no key is ever derived.
pub proof fn lemma_denial_derives_no_key(policy: Policy, exchange: Exchange)
    requires
        !exchange.environment.consent,
        exists|k: int|
            0 <= k < serve(policy, exchange).actions.len() && (#[trigger] serve(
                policy,
                exchange,
            ).actions[k]) is Ask,
    ensures
        serve(policy, exchange).actions.len() == 2,
        serve(policy, exchange).actions[1] == ActionView::Complete(Err(AgeError::UserDenied)),
        forall|k: int|
            0 <= k < serve(policy, exchange).actions.len() ==> !(#[trigger] serve(
                policy,
                exchange,
            ).actions[k]).derives_key(),
{
    reveal_with_fuel(run, 3);
}

/// The operator is asked exactly when the policy gates the instruction, and
/// then before anything else happens.
pub proof fn lemma_gated_commands_ask_first(
    policy: Policy,
    instruction: Instruction,
    exchange: Exchange,
)
    requires
        Instruction::of_opcode(exchange.opcode) == Ok::<Instruction, DecodeError>(instruction),
        policy.admits(instruction),
        payload_suffices(instruction, exchange.payload),
    ensures
        policy.gates(instruction) ==> serve(policy, exchange).actions[0] is Ask,
        !policy.gates(instruction) ==> forall|k: int|
            0 <= k < serve(policy, exchange).actions.len() ==> !(#[trigger] serve(
                policy,
                exchange,
            ).actions[k] is Ask),
{
    reveal_with_fuel(run, 3);
}

/// `ConfirmRecipient` with the digest of the derived key returns the key;
/// with any other tag of full length it fails as a mismatch and the host
/// gets the mismatch status and no payload. Either way the key is exported
/// once, nobody is asked and no shared secret is computed.
pub proof fn lemma_confirm_recipient(
    policy: Policy,
    tag: Seq<u8>,
    environment: Environment,
    public_key: Seq<u8>,
)
    requires
        policy.tag_confirmation,
        tag.len() >= TAG_LEN,
        (environment.public_key)(age_path()) == Ok::<Seq<u8>, u32>(public_key),
    ensures
        ({
            let exchange = Exchange {
                opcode: INS_CONFIRM_RECIPIENT,
                payload: Some(tag),
                environment,
            };
            let outcome = if tag == sha256(public_key) {
                Ok(public_key)
            } else {
                Err(AgeError::TagMismatch)
            };
            &&& serve(policy, exchange).actions == seq![
                ActionView::ExportPublicKey { path: age_path() },
                ActionView::Complete(outcome),
            ]
            &&& tag != sha256(public_key) ==> ResponseView::of_outcome(outcome) == ResponseView {
                status: STATUS_TAG_MISMATCH,
                payload: Seq::empty(),
            }
        }),
{
    reveal_with_fuel(run, 3);
}

/// `GetSharedKey` with the operator's consent asks, computes the shared
/// secret with the peer in the payload exactly once, and hands on what the
/// secure element returned. The public key is never exported on the way.
pub proof fn lemma_unwrap_agrees_once(policy: Policy, peer: Seq<u8>, environment: Environment)
    requires
        peer.len() > 0,
        environment.consent,
    ensures
        ({
            let exchange = Exchange { opcode: INS_GET_SHARED_KEY, payload: Some(peer), environment };
            serve(policy, exchange).actions == seq![
                ActionView::Ask(Prompt::SendDecryptionKey),
                ActionView::Agree { path: age_path(), peer },
                ActionView::Complete(
                    material_outcome((environment.shared_secret)(age_path(), peer)),
                ),
            ]
        }),
{
    reveal_with_fuel(run, 3);
}

/// Commands do not influence one another. In a session served from idle,
/// each command ends as it would alone, whatever came before it: an unknown
/// opcode, a refusal, a fault.
pub proof fn lemma_commands_are_independent(policy: Policy, exchanges: Seq<Exchange>)
    ensures
        serve_all(policy, PhaseView::Idle, exchanges).phase == PhaseView::Idle,
        serve_all(policy, PhaseView::Idle, exchanges).actions.len() == exchanges.len(),
        forall|i: int|
            0 <= i < exchanges.len() ==> (#[trigger] serve_all(
                policy,
                PhaseView::Idle,
                exchanges,
            ).actions[i]) == exchanges[i].conclusion(policy),
    decreases exchanges.len(),
{
    if exchanges.len() > 0 {
        let first = serve(policy, exchanges[0]);
        let rest = exchanges.drop_first();
        lemma_command_completes(policy, exchanges[0]);
        lemma_commands_are_independent(policy, rest);
        let all = serve_all(policy, PhaseView::Idle, exchanges);
        assert(all.actions == seq![first.actions.last()] + serve_all(
            policy,
            PhaseView::Idle,
            rest,
        ).actions);
        assert forall|i: int| 0 <= i < exchanges.len() implies (#[trigger] all.actions[i])
            == exchanges[i].conclusion(policy) by {
            if i > 0 {
                assert(rest[i - 1] == exchanges[i]);
                assert(all.actions[i] == serve_all(policy, PhaseView::Idle, rest).actions[i - 1]);
            }
        }
    }
}

/// `GetRecipient` is idempotent. However often it is repeated, and whatever
/// payloads the repeats carry, as long as the operator and the secure element
/// answer alike the commands end alike: with the same key, byte for byte.
pub proof fn lemma_get_recipient_is_repeatable(policy: Policy, exchanges: Seq<Exchange>)
    requires
        forall|i: int|
            0 <= i < exchanges.len() ==> (#[trigger] exchanges[i]).opcode == INS_GET_RECIPIENT,
        forall|i: int, j: int|
            0 <= i < exchanges.len() && 0 <= j < exchanges.len() ==> (
            #[trigger] exchanges[i]).environment.consent
                == (#[trigger] exchanges[j]).environment.consent && (
            exchanges[i].environment.public_key)(age_path()) == (
            exchanges[j].environment.public_key)(age_path()),
    ensures
        forall|i: int, j: int|
            0 <= i < exchanges.len() && 0 <= j < exchanges.len() ==> (#[trigger] serve_all(
                policy,
                PhaseView::Idle,
                exchanges,
            ).actions[i]) == (#[trigger] serve_all(policy, PhaseView::Idle, exchanges).actions[j]),
{
    lemma_commands_are_independent(policy, exchanges);
    let all = serve_all(policy, PhaseView::Idle, exchanges).actions;
    assert forall|i: int, j: int|
        0 <= i < exchanges.len() && 0 <= j < exchanges.len() implies (#[trigger] all[i])
        == (#[trigger] all[j]) by {
        assert(exchanges[i].environment.consent == exchanges[j].environment.consent);
        assert(exchanges[i].conclusion(policy) == exchanges[j].conclusion(policy));
    }
}

} // verus!
