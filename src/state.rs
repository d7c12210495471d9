use crate::address::Address;
use crate::bytes::{le_bytes_u32, read_u32_le, u32_from_le, u32_to_le};
use crate::derivation::{forward_seeds, forward_signer_seeds};
use crate::errors::ProgramFailure;
use vstd::prelude::*;

verus! {

/// The first byte of every stored record: the layout version.
pub const RECORD_VERSION: u8 = 1;

/// Bytes of a stored record: version, id, three addresses and the bump.
pub const RECORD_LEN: usize = 102;

/// The persisted state of a forward account, written once at creation.
#[derive(Debug, Clone, Copy)]
pub struct Forward {
    /// Tells apart forward accounts that share a destination.
    pub id: u32,
    /// Where the permissionless release pays out.
    pub destination: Address,
    /// Where the authority-gated release pays out.
    pub quarantine: Address,
    /// Whose signature the quarantine release needs.
    pub authority: Address,
    /// The bump byte that, with the seeds, reproduces the account's address.
    pub bump: u8,
}

/// A record as plain values.
pub struct ForwardModel {
    pub id: u32,
    pub destination: Seq<u8>,
    pub quarantine: Seq<u8>,
    pub authority: Seq<u8>,
    pub bump: u8,
}

impl View for Forward {
    type V = ForwardModel;

    open spec fn view(&self) -> ForwardModel {
        ForwardModel {
            id: self.id,
            destination: self.destination@,
            quarantine: self.quarantine@,
            authority: self.authority@,
            bump: self.bump,
        }
    }
}

impl ForwardModel {
    /// Every address of the record is 32 bytes long.
    pub open spec fn wf(self) -> bool {
        &&& self.destination.len() == 32
        &&& self.quarantine.len() == 32
        &&& self.authority.len() == 32
    }
}

/// The stored bytes of a record.
pub open spec fn encode_record(m: ForwardModel) -> Seq<u8> {
    seq![RECORD_VERSION] + le_bytes_u32(m.id) + m.destination + m.quarantine + m.authority + seq![
        m.bump,
    ]
}

/// The record that `b` stores, if `b` has the record layout.
pub open spec fn decode_record(b: Seq<u8>) -> Option<ForwardModel> {
    if b.len() == RECORD_LEN && b[0] == RECORD_VERSION {
        Some(
            ForwardModel {
                id: u32_from_le(b.subrange(1, 5)),
                destination: b.subrange(5, 37),
                quarantine: b.subrange(37, 69),
                authority: b.subrange(69, 101),
                bump: b[101],
            },
        )
    } else {
        None
    }
}

/// The address stored at `data[at..at + 32]`.
fn address_at(data: &[u8], at: usize) -> (r: Address)
    requires
        at + 32 <= data@.len(),
    ensures
        r@ == data@.subrange(at as int, at + 32),
{
    let n = data.len();
    let mut bytes = [0u8; 32];
    let mut i: usize = 0;
    while i < 32
        invariant
            0 <= i <= 32,
            n == data@.len(),
            at + 32 <= n,
            bytes@.len() == 32,
            forall|j: int| 0 <= j < i ==> bytes@[j] == data@[at + j],
        decreases 32 - i,
    {
        bytes[i] = data[at + i];
        i = i + 1;
    }
    let r = Address { bytes };
    assert(r@ =~= data@.subrange(at as int, at + 32));
    r
}

impl Forward {
    pub fn new(id: u32, destination: Address, quarantine: Address, authority: Address, bump: u8) -> (r:
        Forward)
        ensures
            r.id == id,
            r.destination == destination,
            r.quarantine == quarantine,
            r.authority == authority,
            r.bump == bump,
    {
        Forward { id, destination, quarantine, authority, bump }
    }

    /// The seeds that reproduce this forward account's address and sign for it.
    pub fn signer_seeds(&self) -> (r: Vec<Vec<u8>>)
        ensures
            r.deep_view() == forward_seeds(self.destination@, self.id, self.bump),
    {
        forward_signer_seeds(&self.destination, self.id, self.bump)
    }

    /// The bytes that store this record.
    pub fn pack(&self) -> (r: Vec<u8>)
        ensures
            r@ == encode_record(self@),
            r@.len() == RECORD_LEN,
    {
        let mut r: Vec<u8> = Vec::new();
        r.push(RECORD_VERSION);
        let mut id = u32_to_le(self.id);
        r.append(&mut id);
        let mut d = self.destination.to_vec();
        r.append(&mut d);
        let mut q = self.quarantine.to_vec();
        r.append(&mut q);
        let mut a = self.authority.to_vec();
        r.append(&mut a);
        r.push(self.bump);
        assert(r@ =~= encode_record(self@));
        r
    }

    /// The record stored in `data`; data of any other layout is refused.
    pub fn unpack(data: &[u8]) -> (r: Result<Forward, ProgramFailure>)
        ensures
            match r {
                Ok(f) => decode_record(data@) == Some(f@),
                Err(e) => decode_record(data@) is None && e == ProgramFailure::InvalidAccountData,
            },
    {
        if data.len() != RECORD_LEN || data[0] != RECORD_VERSION {
            return Err(ProgramFailure::InvalidAccountData);
        }
        let id = read_u32_le(data, 1);
        let destination = address_at(data, 5);
        let quarantine = address_at(data, 37);
        let authority = address_at(data, 69);
        let bump = data[101];
        Ok(Forward { id, destination, quarantine, authority, bump })
    }
}

/// Decoding the stored bytes of a record gives the record back.
pub proof fn lemma_record_round_trip(m: ForwardModel)
    requires
        m.wf(),
    ensures
        encode_record(m).len() == RECORD_LEN,
        decode_record(encode_record(m)) == Some(m),
{
    let b = encode_record(m);
    assert(b.subrange(1, 5) =~= le_bytes_u32(m.id));
    assert(b.subrange(5, 37) =~= m.destination);
    assert(b.subrange(37, 69) =~= m.quarantine);
    assert(b.subrange(69, 101) =~= m.authority);
    crate::bytes::lemma_u32_le_round_trip(m.id);
}

/// A record is decoded only from its own stored bytes.
pub proof fn lemma_record_decode_exact(b: Seq<u8>)
    requires
        decode_record(b) is Some,
    ensures
        decode_record(b)->0.wf(),
        encode_record(decode_record(b)->0) == b,
{
    let m = decode_record(b)->0;
    crate::bytes::lemma_u32_le_bytes_round_trip(b.subrange(1, 5));
    assert(encode_record(m) =~= b);
}

} // verus!
