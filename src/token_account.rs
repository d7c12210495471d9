use crate::bytes::u64_from_le;
use crate::errors::ProgramFailure;
use solana_program::program_error::ProgramError;
use solana_program::program_pack::Pack;
use vstd::prelude::*;

verus! {

/// Bytes of a token account without extensions.
pub const TOKEN_ACCOUNT_LEN: usize = 165;

/// Bytes of a mint without extensions.
pub const MINT_LEN: usize = 82;

/// The four-byte tag of an optional field at `at` is `None` or `Some`.
pub open spec fn option_tag_ok(data: Seq<u8>, at: int) -> bool {
    &&& (data[at] == 0 || data[at] == 1)
    &&& data[at + 1] == 0
    &&& data[at + 2] == 0
    &&& data[at + 3] == 0
}

/// The balance held by the token account stored in `data`: bytes 64..72,
/// little-endian. Refused unless `data` is an initialised (or frozen) token
/// account with well-formed optional fields.
pub open spec fn token_account_amount(data: Seq<u8>) -> Result<u64, ProgramFailure> {
    if data.len() != TOKEN_ACCOUNT_LEN || !option_tag_ok(data, 72) || data[108] > 2
        || !option_tag_ok(data, 109) || !option_tag_ok(data, 129) {
        Err(ProgramFailure::InvalidAccountData)
    } else if data[108] == 0 {
        Err(ProgramFailure::UninitializedAccount)
    } else {
        Ok(u64_from_le(data.subrange(64, 72)))
    }
}

/// The decimal precision of the mint stored in `data`: byte 44. Refused
/// unless `data` is an initialised mint with well-formed optional fields.
pub open spec fn mint_decimals(data: Seq<u8>) -> Result<u8, ProgramFailure> {
    if data.len() != MINT_LEN || !option_tag_ok(data, 0) || data[45] > 1 || !option_tag_ok(data, 46) {
        Err(ProgramFailure::InvalidAccountData)
    } else if data[45] == 0 {
        Err(ProgramFailure::UninitializedAccount)
    } else {
        Ok(data[44])
    }
}

/// Relies on spl_token_2022's state::Account::unpack: the packed 165-byte
/// layout, its optional-field tags and state byte, then the initialised check.
#[verifier::external_body]
pub(crate) fn unpack_token_2022_amount(data: &[u8]) -> (r: Result<u64, ProgramFailure>)
    ensures
        r == token_account_amount(data@),
{
    match spl_token_2022::state::Account::unpack(data) {
        Ok(account) => Ok(account.amount),
        Err(ProgramError::UninitializedAccount) => Err(ProgramFailure::UninitializedAccount),
        Err(_) => Err(ProgramFailure::InvalidAccountData),
    }
}

/// Relies on spl_token's state::Account::unpack, which reads the same
/// 165-byte layout as the token-2022 program's base account.
#[verifier::external_body]
pub(crate) fn unpack_token_amount(data: &[u8]) -> (r: Result<u64, ProgramFailure>)
    ensures
        r == token_account_amount(data@),
{
    match spl_token::state::Account::unpack(data) {
        Ok(account) => Ok(account.amount),
        Err(ProgramError::UninitializedAccount) => Err(ProgramFailure::UninitializedAccount),
        Err(_) => Err(ProgramFailure::InvalidAccountData),
    }
}

/// Relies on spl_token_2022's state::Mint::unpack: the packed 82-byte layout,
/// its optional-field tags and initialised flag.
#[verifier::external_body]
pub(crate) fn unpack_mint_decimals(data: &[u8]) -> (r: Result<u8, ProgramFailure>)
    ensures
        r == mint_decimals(data@),
{
    match spl_token_2022::state::Mint::unpack(data) {
        Ok(mint) => Ok(mint.decimals),
        Err(ProgramError::UninitializedAccount) => Err(ProgramFailure::UninitializedAccount),
        Err(_) => Err(ProgramFailure::InvalidAccountData),
    }
}

/// Whether `data` holds a token account of either token program: a forward
/// account's destination and quarantine must not.
pub fn is_token_account(data: &[u8]) -> (r: bool)
    ensures
        r == token_account_amount(data@) is Ok,
{
    unpack_token_2022_amount(data).is_ok() || unpack_token_amount(data).is_ok()
}

/// The balance of the token account stored in `data`.
pub fn token_balance(data: &[u8]) -> (r: Result<u64, ProgramFailure>)
    ensures
        r == token_account_amount(data@),
{
    unpack_token_2022_amount(data)
}

} // verus!
