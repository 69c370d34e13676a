//! What flows between the dispatcher and the session loop around it: events
//! in, actions out, and the response that goes back to the host.
use crate::error::{AgeError, STATUS_OK, STATUS_UNSUPPORTED};
use crate::instruction::{DecodeError, Prompt};
use vstd::prelude::*;

verus! {

/// Something the session loop reports to the dispatcher.
#[derive(Debug, PartialEq, Eq)]
pub enum Event {
    /// A command arrived. The payload is `None` when the transport could not
    /// delimit one.
    Command { opcode: u8, payload: Option<Vec<u8>> },
    /// The operator answered a prompt.
    Consent(bool),
    /// The secure element exported the public key, or faulted with a code.
    PublicKey(Result<Vec<u8>, u32>),
    /// The secure element computed the shared secret, or faulted with a code.
    SharedSecret(Result<Vec<u8>, u32>),
}

/// An [`Event`] with its byte strings as sequences.
pub enum EventView {
    Command { opcode: u8, payload: Option<Seq<u8>> },
    Consent(bool),
    PublicKey(Result<Seq<u8>, u32>),
    SharedSecret(Result<Seq<u8>, u32>),
}

/// What the dispatcher wants done next.
#[derive(Debug, PartialEq, Eq)]
pub enum Action {
    /// Nothing: the event did not belong to the command in flight.
    Ignore,
    /// Put a prompt before the operator and report the answer as
    /// [`Event::Consent`].
    Ask(Prompt),
    /// Derive the key at `path`, export its public half, discard the key, and
    /// report the result as [`Event::PublicKey`].
    ExportPublicKey { path: [u32; 3] },
    /// Derive the key at `path`, compute the shared secret with `peer`,
    /// discard the key, and report the result as [`Event::SharedSecret`].
    Agree { path: [u32; 3], peer: Vec<u8> },
    /// The command is over: it yielded a payload, or failed with an error.
    Complete(Result<Vec<u8>, AgeError>),
    /// The command is over before it began: its opcode is not served.
    Reject(DecodeError),
}

/// An [`Action`] with its byte strings and path as sequences.
pub enum ActionView {
    Ignore,
    Ask(Prompt),
    ExportPublicKey { path: Seq<u32> },
    Agree { path: Seq<u32>, peer: Seq<u8> },
    Complete(Result<Seq<u8>, AgeError>),
    Reject(DecodeError),
}

/// What goes back to the host: a status word and, on success only, a payload.
#[derive(Debug, PartialEq, Eq)]
pub struct Response {
    /// The status word.
    pub status: u16,
    /// The payload; empty unless the status is [`STATUS_OK`].
    pub payload: Vec<u8>,
}

/// A [`Response`] with its payload as a sequence.
pub struct ResponseView {
    pub status: u16,
    pub payload: Seq<u8>,
}

/// The bytes of an optional payload.
pub open spec fn payload_view(payload: Option<Vec<u8>>) -> Option<Seq<u8>> {
    match payload {
        Some(bytes) => Some(bytes@),
        None => None,
    }
}

/// The bytes of key material, or the fault code in its place.
pub open spec fn material_view(material: Result<Vec<u8>, u32>) -> Result<Seq<u8>, u32> {
    match material {
        Ok(bytes) => Ok(bytes@),
        Err(code) => Err(code),
    }
}

/// The bytes a command yielded, or the error in their place.
pub open spec fn outcome_view(outcome: Result<Vec<u8>, AgeError>) -> Result<Seq<u8>, AgeError> {
    match outcome {
        Ok(bytes) => Ok(bytes@),
        Err(error) => Err(error),
    }
}

/// How a command ends that hands key material on: with the material, or
/// with the fault the secure element reported.
pub open spec fn material_outcome(material: Result<Seq<u8>, u32>) -> Result<Seq<u8>, AgeError> {
    match material {
        Ok(bytes) => Ok(bytes),
        Err(code) => Err(AgeError::crypto(code)),
    }
}

impl View for Event {
    type V = EventView;

    open spec fn view(&self) -> EventView {
        match *self {
            Event::Command { opcode, payload } => EventView::Command {
                opcode,
                payload: payload_view(payload),
            },
            Event::Consent(granted) => EventView::Consent(granted),
            Event::PublicKey(material) => EventView::PublicKey(material_view(material)),
            Event::SharedSecret(material) => EventView::SharedSecret(material_view(material)),
        }
    }
}

impl View for Action {
    type V = ActionView;

    open spec fn view(&self) -> ActionView {
        match *self {
            Action::Ignore => ActionView::Ignore,
            Action::Ask(prompt) => ActionView::Ask(prompt),
            Action::ExportPublicKey { path } => ActionView::ExportPublicKey { path: path@ },
            Action::Agree { path, peer } => ActionView::Agree { path: path@, peer: peer@ },
            Action::Complete(outcome) => ActionView::Complete(outcome_view(outcome)),
            Action::Reject(error) => ActionView::Reject(error),
        }
    }
}

impl View for Response {
    type V = ResponseView;

    open spec fn view(&self) -> ResponseView {
        ResponseView { status: self.status, payload: self.payload@ }
    }
}

impl ResponseView {
    /// The response to a command that ran: the success status with the
    /// payload, or the error's status word with no payload.
    pub open spec fn of_outcome(outcome: Result<Seq<u8>, AgeError>) -> ResponseView {
        match outcome {
            Ok(payload) => ResponseView { status: STATUS_OK, payload },
            Err(error) => ResponseView { status: error.status_word(), payload: Seq::empty() },
        }
    }

    /// The response to an opcode that is not served.
    pub open spec fn unsupported() -> ResponseView {
        ResponseView { status: STATUS_UNSUPPORTED, payload: Seq::empty() }
    }

    /// All or nothing: a payload goes out with the success status only.
    pub open spec fn well_formed(self) -> bool {
        self.status != STATUS_OK ==> self.payload.len() == 0
    }

    /// Whether the response tells the session loop that the operator is
    /// active: every successful command does.
    pub open spec fn is_activity(self) -> bool {
        self.status == STATUS_OK
    }
}

impl ActionView {
    /// Whether the action asks the secure element to derive the key.
    pub open spec fn derives_key(self) -> bool {
        self is ExportPublicKey || self is Agree
    }

    /// Whether the action waits for an answer from outside.
    pub open spec fn is_request(self) -> bool {
        self is Ask || self is ExportPublicKey || self is Agree
    }

    /// The response owed to the host, if the action ends the command.
    pub open spec fn response(self) -> Option<ResponseView> {
        match self {
            ActionView::Complete(outcome) => Some(ResponseView::of_outcome(outcome)),
            ActionView::Reject(_) => Some(ResponseView::unsupported()),
            _ => None,
        }
    }
}

impl Response {
    /// Maps how a command ended to what the host is told.
    pub fn of_outcome(outcome: Result<Vec<u8>, AgeError>) -> (r: Response)
        ensures
            r@ == ResponseView::of_outcome(outcome_view(outcome)),
    {
        match outcome {
            Ok(payload) => Response { status: STATUS_OK, payload },
            Err(error) => Response { status: error.status(), payload: Vec::new() },
        }
    }

    /// Builds the response to an opcode that is not served.
    pub fn unsupported() -> (r: Response)
        ensures
            r@ == ResponseView::unsupported(),
    {
        Response { status: STATUS_UNSUPPORTED, payload: Vec::new() }
    }

    /// Whether the command succeeded, which is also the signal that the
    /// operator is active.
    pub fn signals_activity(&self) -> (b: bool)
        ensures
            b == self@.is_activity(),
    {
        self.status == STATUS_OK
    }
}

impl Action {
    /// The response owed to the host, if the action ends the command.
    pub fn into_response(self) -> (r: Option<Response>)
        ensures
            match r {
                Some(response) => self@.response() == Some(response@),
                None => self@.response() is None,
            },
    {
        match self {
            Action::Complete(outcome) => Some(Response::of_outcome(outcome)),
            Action::Reject(_) => Some(Response::unsupported()),
            _ => None,
        }
    }
}

/// Turns what the secure element returned into how the command ends.
pub fn conclude_with(material: Result<Vec<u8>, u32>) -> (outcome: Result<Vec<u8>, AgeError>)
    ensures
        outcome_view(outcome) == material_outcome(material_view(material)),
{
    match material {
        Ok(bytes) => Ok(bytes),
        Err(code) => Err(AgeError::from_crypto_code(code)),
    }
}

} // verus!
