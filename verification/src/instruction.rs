//! Instructions, their opcodes, and the policy that says which of them are
//! served and which need the operator's consent.
use vstd::prelude::*;

verus! {

/// Opcode of [`Instruction::ConfirmRecipient`].
pub const INS_CONFIRM_RECIPIENT: u8 = 1;

/// Opcode of [`Instruction::GetRecipient`].
pub const INS_GET_RECIPIENT: u8 = 2;

/// Opcode of [`Instruction::GetSharedKey`].
pub const INS_GET_SHARED_KEY: u8 = 3;

/// What the host can ask for.
#[derive(Clone, Copy, Debug, PartialEq, Eq, Structural)]
pub enum Instruction {
    /// Return the public recipient key.
    GetRecipient,
    /// Return the public recipient key to a host that already holds its tag.
    ConfirmRecipient,
    /// Return the shared secret with the peer key in the payload.
    GetSharedKey,
}

/// An opcode that names no instruction.
#[derive(Clone, Copy, Debug, PartialEq, Eq, Structural)]
pub struct DecodeError {
    /// The opcode as received.
    pub opcode: u8,
}

/// What the operator is asked before a gated instruction proceeds.
#[derive(Clone, Copy, Debug, PartialEq, Eq, Structural)]
pub enum Prompt {
    /// Disclose the recipient key.
    SendRecipient,
    /// Disclose a shared secret.
    SendDecryptionKey,
}

/// What a deployment chooses: which disclosures the operator confirms and
/// whether recipients can be confirmed by tag.
#[derive(Clone, Copy, Debug, PartialEq, Eq, Structural)]
pub struct Policy {
    /// Ask the operator before [`Instruction::GetRecipient`] discloses the key.
    pub confirm_recipient_disclosure: bool,
    /// Serve [`Instruction::ConfirmRecipient`].
    pub tag_confirmation: bool,
}

impl Instruction {
    /// The instruction an opcode stands for.
    pub open spec fn of_opcode(opcode: u8) -> Result<Instruction, DecodeError> {
        if opcode == INS_CONFIRM_RECIPIENT {
            Ok(Instruction::ConfirmRecipient)
        } else if opcode == INS_GET_RECIPIENT {
            Ok(Instruction::GetRecipient)
        } else if opcode == INS_GET_SHARED_KEY {
            Ok(Instruction::GetSharedKey)
        } else {
            Err(DecodeError { opcode })
        }
    }

    /// The opcode of an instruction.
    pub open spec fn opcode_of(self) -> u8 {
        match self {
            Instruction::ConfirmRecipient => INS_CONFIRM_RECIPIENT,
            Instruction::GetRecipient => INS_GET_RECIPIENT,
            Instruction::GetSharedKey => INS_GET_SHARED_KEY,
        }
    }

    /// Whether the instruction reads the command payload.
    pub open spec fn needs_payload(self) -> bool {
        self != Instruction::GetRecipient
    }

    /// The least payload length the instruction accepts.
    pub open spec fn min_payload_len(self) -> nat {
        match self {
            Instruction::GetRecipient => 0,
            Instruction::ConfirmRecipient => 32,
            Instruction::GetSharedKey => 1,
        }
    }

    /// Decodes an opcode. An unknown opcode is an error value, never a panic.
    pub fn decode(opcode: u8) -> (r: Result<Instruction, DecodeError>)
        ensures
            r == Instruction::of_opcode(opcode),
    {
        if opcode == INS_CONFIRM_RECIPIENT {
            Ok(Instruction::ConfirmRecipient)
        } else if opcode == INS_GET_RECIPIENT {
            Ok(Instruction::GetRecipient)
        } else if opcode == INS_GET_SHARED_KEY {
            Ok(Instruction::GetSharedKey)
        } else {
            Err(DecodeError { opcode })
        }
    }

    /// The opcode under which the instruction travels.
    pub fn opcode(&self) -> (op: u8)
        ensures
            op == self.opcode_of(),
    {
        match self {
            Instruction::ConfirmRecipient => INS_CONFIRM_RECIPIENT,
            Instruction::GetRecipient => INS_GET_RECIPIENT,
            Instruction::GetSharedKey => INS_GET_SHARED_KEY,
        }
    }
}

impl Prompt {
    /// The words shown to the operator.
    pub fn text(&self) -> (s: &'static str)
        ensures
            *self == Prompt::SendRecipient ==> s@ == "Send recipient"@,
            *self == Prompt::SendDecryptionKey ==> s@ == "Send decryption key"@,
    {
        match self {
            Prompt::SendRecipient => "Send recipient",
            Prompt::SendDecryptionKey => "Send decryption key",
        }
    }
}

impl Policy {
    /// Whether the policy serves an instruction.
    pub open spec fn admits(self, instruction: Instruction) -> bool {
        instruction == Instruction::ConfirmRecipient ==> self.tag_confirmation
    }

    /// Whether the operator must consent before the instruction proceeds.
    pub open spec fn gates(self, instruction: Instruction) -> bool {
        match instruction {
            Instruction::GetRecipient => self.confirm_recipient_disclosure,
            Instruction::ConfirmRecipient => false,
            Instruction::GetSharedKey => true,
        }
    }

    /// Whether the policy serves an instruction.
    pub fn serves(&self, instruction: Instruction) -> (b: bool)
        ensures
            b == self.admits(instruction),
    {
        match instruction {
            Instruction::ConfirmRecipient => self.tag_confirmation,
            _ => true,
        }
    }

    /// Whether the operator must consent before the instruction proceeds.
    pub fn requires_consent(&self, instruction: Instruction) -> (b: bool)
        ensures
            b == self.gates(instruction),
    {
        match instruction {
            Instruction::GetRecipient => self.confirm_recipient_disclosure,
            Instruction::ConfirmRecipient => false,
            Instruction::GetSharedKey => true,
        }
    }
}

/// Decoding inverts encoding, and only the three opcodes decode.
pub proof fn lemma_decode_inverts_opcode(instruction: Instruction, opcode: u8)
    ensures
        Instruction::of_opcode(instruction.opcode_of()) == Ok::<Instruction, DecodeError>(
            instruction,
        ),
        Instruction::of_opcode(opcode) matches Ok(i) ==> i.opcode_of() == opcode,
        Instruction::of_opcode(opcode) matches Err(e) ==> e.opcode == opcode && opcode != 1
            && opcode != 2 && opcode != 3,
{
}

} // verus!
