use solana_program::pubkey::Pubkey;
use vstd::prelude::*;

verus! {

/// A 32-byte account address.
#[derive(Debug, Clone, Copy)]
pub struct Address {
    pub bytes: [u8; 32],
}

impl View for Address {
    type V = Seq<u8>;

    open spec fn view(&self) -> Seq<u8> {
        self.bytes@
    }
}

impl Address {
    pub fn new(bytes: [u8; 32]) -> (r: Address)
        ensures
            r.bytes == bytes,
    {
        Address { bytes }
    }

    pub fn to_bytes(&self) -> (r: [u8; 32])
        ensures
            r == self.bytes,
    {
        self.bytes
    }

    /// Byte-wise comparison of two addresses.
    pub fn same(&self, other: &Address) -> (r: bool)
        ensures
            r == (self@ == other@),
    {
        let mut i: usize = 0;
        while i < 32
            invariant
                0 <= i <= 32,
                self@.len() == 32,
                other@.len() == 32,
                forall|j: int| 0 <= j < i ==> self@[j] == other@[j],
            decreases 32 - i,
        {
            if self.bytes[i] != other.bytes[i] {
                return false;
            }
            i = i + 1;
        }
        assert(self@ =~= other@);
        true
    }

    /// The bytes of the address as a vector.
    pub fn to_vec(&self) -> (r: Vec<u8>)
        ensures
            r@ == self@,
    {
        let mut v: Vec<u8> = Vec::new();
        let mut i: usize = 0;
        while i < 32
            invariant
                0 <= i <= 32,
                self@.len() == 32,
                v@ =~= self@.subrange(0, i as int),
            decreases 32 - i,
        {
            v.push(self.bytes[i]);
            i = i + 1;
        }
        assert(v@ =~= self@);
        v
    }
}

impl PartialEq for Address {
    fn eq(&self, other: &Address) -> (r: bool) {
        self.same(other)
    }
}

impl vstd::std_specs::cmp::PartialEqSpecImpl for Address {
    open spec fn obeys_eq_spec() -> bool {
        true
    }

    open spec fn eq_spec(&self, other: &Address) -> bool {
        self@ == other@
    }
}

impl Eq for Address {
}

/// The system program's address: thirty-two zero bytes.
pub open spec fn system_program_id() -> Seq<u8> {
    Seq::new(32, |i: int| 0u8)
}

/// The address of the classic token program.
pub open spec fn token_program_id() -> Seq<u8> {
    seq![
        6u8, 221, 246, 225, 215, 101, 161, 147, 217, 203, 225, 70, 206, 235, 121, 172,
        28, 180, 133, 237, 95, 91, 55, 145, 58, 140, 245, 133, 126, 255, 0, 169,
    ]
}

/// The address of the token program with extensions.
pub open spec fn token_2022_program_id() -> Seq<u8> {
    seq![
        6u8, 221, 246, 225, 238, 117, 143, 222, 24, 66, 93, 188, 228, 108, 205, 218,
        182, 26, 252, 77, 131, 185, 13, 39, 254, 189, 249, 40, 216, 161, 139, 252,
    ]
}

/// Either of the two token programs.
pub open spec fn is_token_program(key: Seq<u8>) -> bool {
    key == token_program_id() || key == token_2022_program_id()
}

/// Relies on solana_program's system_program::check_id: true exactly for the
/// system program's address, which is all zero bytes.
#[verifier::external_body]
pub(crate) fn is_system_program(key: &Address) -> (r: bool)
    ensures
        r == (key@ == system_program_id()),
{
    solana_program::system_program::check_id(&Pubkey::new_from_array(key.bytes))
}

/// Relies on spl_token_2022's check_spl_token_program_account: success exactly
/// for the token program's and the token-2022 program's addresses.
#[verifier::external_body]
pub(crate) fn is_spl_token_program(key: &Address) -> (r: bool)
    ensures
        r == is_token_program(key@),
{
    spl_token_2022::check_spl_token_program_account(&Pubkey::new_from_array(key.bytes)).is_ok()
}

/// The program-derived address of `seeds` under `program_id`, or none when the
/// hash of the seeds lands on the curve or the seeds are too long.
pub uninterp spec fn program_address_of(seeds: Seq<Seq<u8>>, program_id: Seq<u8>) -> Option<
    Seq<u8>,
>;

/// Relies on solana_program's Pubkey::create_program_address, which hashes the
/// seeds with the program id and rejects results on the curve.
#[verifier::external_body]
pub(crate) fn create_program_address(seeds: &Vec<Vec<u8>>, program_id: &Address) -> (r: Option<
    Address,
>)
    ensures
        match r {
            Some(a) => program_address_of(seeds.deep_view(), program_id@) == Some(a@),
            None => program_address_of(seeds.deep_view(), program_id@) is None,
        },
{
    let refs: Vec<&[u8]> = seeds.iter().map(|s| s.as_slice()).collect();
    let program = Pubkey::new_from_array(program_id.bytes);
    Pubkey::create_program_address(&refs, &program).ok().map(|k| Address { bytes: k.to_bytes() })
}

/// The associated token account of `wallet` for `mint` under `token_program`.
pub uninterp spec fn associated_address_of(
    wallet: Seq<u8>,
    mint: Seq<u8>,
    token_program: Seq<u8>,
) -> Seq<u8>;

/// Relies on spl_associated_token_account's
/// get_associated_token_address_with_program_id. It searches bump seeds for an
/// off-curve address and panics only when none of 255 candidates is off the
/// curve, an event of probability about 2^-255 with no input known to cause it.
#[verifier::external_body]
pub(crate) fn associated_token_address(
    wallet: &Address,
    mint: &Address,
    token_program: &Address,
) -> (r: Address)
    ensures
        r@ == associated_address_of(wallet@, mint@, token_program@),
{
    let k = spl_associated_token_account::get_associated_token_address_with_program_id(
        &Pubkey::new_from_array(wallet.bytes),
        &Pubkey::new_from_array(mint.bytes),
        &Pubkey::new_from_array(token_program.bytes),
    );
    Address { bytes: k.to_bytes() }
}

} // verus!
