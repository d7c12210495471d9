use crate::address::Address;
use crate::bytes::{le_bytes_u32, read_u32_le, u32_from_le, u32_to_le};
use crate::errors::ProgramFailure;
use vstd::prelude::*;

verus! {

/// Arguments of the creation call.
#[derive(Debug, Clone, Copy)]
pub struct CreateForwardInstruction {
    /// The new forward account's id.
    pub id: u32,
    /// The bump byte that closes the forward account's seeds.
    pub bump: u8,
    /// Whose signature the quarantine release will need.
    pub authority: Address,
}

/// The protocol's entry points, as carried in the instruction data.
#[derive(Debug, Clone, Copy)]
pub enum ForwardInstruction {
    CreateForward(CreateForwardInstruction),
    Execute,
    Quarantine,
}

/// An instruction as plain values.
pub enum InstructionModel {
    CreateForward { id: u32, bump: u8, authority: Seq<u8> },
    Execute,
    Quarantine,
}

impl View for ForwardInstruction {
    type V = InstructionModel;

    open spec fn view(&self) -> InstructionModel {
        match self {
            ForwardInstruction::CreateForward(c) => InstructionModel::CreateForward {
                id: c.id,
                bump: c.bump,
                authority: c.authority@,
            },
            ForwardInstruction::Execute => InstructionModel::Execute,
            ForwardInstruction::Quarantine => InstructionModel::Quarantine,
        }
    }
}

/// Bytes of a creation instruction: tag, id, bump and authority.
pub const CREATE_INSTRUCTION_LEN: usize = 38;

/// The instruction data of `m`: a tag byte, then the variant's fields.
pub open spec fn encode_instruction(m: InstructionModel) -> Seq<u8> {
    match m {
        InstructionModel::CreateForward { id, bump, authority } => seq![0u8] + le_bytes_u32(id)
            + seq![bump] + authority,
        InstructionModel::Execute => seq![1u8],
        InstructionModel::Quarantine => seq![2u8],
    }
}

/// The instruction that `b` carries, if any: trailing bytes are refused.
pub open spec fn decode_instruction(b: Seq<u8>) -> Option<InstructionModel> {
    if b.len() == CREATE_INSTRUCTION_LEN && b[0] == 0 {
        Some(
            InstructionModel::CreateForward {
                id: u32_from_le(b.subrange(1, 5)),
                bump: b[5],
                authority: b.subrange(6, 38),
            },
        )
    } else if b.len() == 1 && b[0] == 1 {
        Some(InstructionModel::Execute)
    } else if b.len() == 1 && b[0] == 2 {
        Some(InstructionModel::Quarantine)
    } else {
        None
    }
}

impl ForwardInstruction {
    /// The instruction carried by `data`.
    pub fn unpack(data: &[u8]) -> (r: Result<ForwardInstruction, ProgramFailure>)
        ensures
            match r {
                Ok(i) => decode_instruction(data@) == Some(i@),
                Err(e) => decode_instruction(data@) is None && e == ProgramFailure::InvalidInstructionData,
            },
    {
        let n = data.len();
        if n == CREATE_INSTRUCTION_LEN && data[0] == 0 {
            let id = read_u32_le(data, 1);
            let bump = data[5];
            let mut bytes = [0u8; 32];
            let mut i: usize = 0;
            while i < 32
                invariant
                    0 <= i <= 32,
                    n == data@.len(),
                    n == CREATE_INSTRUCTION_LEN,
                    bytes@.len() == 32,
                    forall|j: int| 0 <= j < i ==> bytes@[j] == data@[6 + j],
                decreases 32 - i,
            {
                bytes[i] = data[6 + i];
                i = i + 1;
            }
            let authority = Address { bytes };
            assert(authority@ =~= data@.subrange(6, 38));
            Ok(ForwardInstruction::CreateForward(CreateForwardInstruction { id, bump, authority }))
        } else if n == 1 && data[0] == 1 {
            Ok(ForwardInstruction::Execute)
        } else if n == 1 && data[0] == 2 {
            Ok(ForwardInstruction::Quarantine)
        } else {
            Err(ProgramFailure::InvalidInstructionData)
        }
    }

    /// The instruction data that carries this instruction.
    pub fn pack(&self) -> (r: Vec<u8>)
        ensures
            r@ == encode_instruction(self@),
    {
        match self {
            ForwardInstruction::CreateForward(c) => {
                let mut r: Vec<u8> = vec![0u8];
                let mut id = u32_to_le(c.id);
                r.append(&mut id);
                r.push(c.bump);
                let mut a = c.authority.to_vec();
                r.append(&mut a);
                assert(r@ =~= encode_instruction(self@));
                r
            },
            ForwardInstruction::Execute => {
                let r: Vec<u8> = vec![1u8];
                assert(r@ =~= encode_instruction(self@));
                r
            },
            ForwardInstruction::Quarantine => {
                let r: Vec<u8> = vec![2u8];
                assert(r@ =~= encode_instruction(self@));
                r
            },
        }
    }
}

/// Decoding the data of an instruction gives the instruction back.
pub proof fn lemma_instruction_round_trip(i: ForwardInstruction)
    ensures
        decode_instruction(encode_instruction(i@)) == Some(i@),
{
    let b = encode_instruction(i@);
    match i {
        ForwardInstruction::CreateForward(c) => {
            assert(b.subrange(1, 5) =~= le_bytes_u32(c.id));
            assert(b.subrange(6, 38) =~= c.authority@);
            crate::bytes::lemma_u32_le_round_trip(c.id);
        },
        _ => {},
    }
}

} // verus!
