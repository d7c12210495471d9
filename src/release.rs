use crate::accounts::AccountSnapshot;
use crate::address::{
    associated_address_of, associated_token_address, is_spl_token_program, is_system_program,
    is_token_program, system_program_id, Address,
};
use crate::errors::{ForwardError, ProgramFailure};
use crate::state::{decode_record, Forward, ForwardModel};
use crate::token_account::{mint_decimals, token_account_amount, token_balance, unpack_mint_decimals};
use vstd::prelude::*;

verus! {

/// The accounts that precede the token triples when tokens are released:
/// payer, system program, token program, associated token program.
pub const TOKEN_CONTEXT_LEN: usize = 4;

/// The accounts that token transfers share.
#[derive(Debug, Clone, Copy)]
pub struct TokenContext {
    /// Signs and pays for destination token accounts that do not exist yet.
    pub payer: Address,
    pub system_program: Address,
    pub token_program: Address,
    pub ata_program: Address,
}

/// A release that passed its checks: what the host then sweeps.
#[derive(Debug, Clone, Copy)]
pub struct Release {
    /// The forward account's record.
    pub forward: Forward,
    /// The forward account's address.
    pub forward_key: Address,
    /// Where the balances go.
    pub target: Address,
    /// Present when token triples follow.
    pub tokens: Option<TokenContext>,
    /// Index of the first (mint, source, destination) triple.
    pub first_triple: usize,
    /// How many triples follow.
    pub triples: usize,
}

/// One token transfer to perform: create the destination token account if
/// absent, then move `amount` from `source`, signed for by the forward account.
#[derive(Debug, Clone, Copy)]
pub struct TokenTransfer {
    pub token_program: Address,
    pub mint: Address,
    pub source: Address,
    pub destination: Address,
    /// The wallet that owns `destination`.
    pub destination_owner: Address,
    /// The forward account, whose seeds sign the transfer.
    pub authority: Address,
    pub payer: Address,
    pub amount: u64,
    pub decimals: u8,
}

/// A list of `n` accounts is `lead` fixed accounts, optionally followed by the
/// token context and at least one whole (mint, source, destination) triple.
pub open spec fn account_count_ok(lead: int, n: int) -> bool {
    n == lead || (n >= lead + TOKEN_CONTEXT_LEN + 3 && (n - lead - TOKEN_CONTEXT_LEN) % 3 == 0)
}

/// Checks the shape of an account list for a release.
pub fn valid_account_count(lead: usize, n: usize) -> (r: bool)
    requires
        lead <= 3,
    ensures
        r == account_count_ok(lead as int, n as int),
{
    n == lead || (n >= lead + TOKEN_CONTEXT_LEN + 3 && (n - lead - TOKEN_CONTEXT_LEN) % 3 == 0)
}

/// The record of a forward account, if this program owns it and it holds one.
pub open spec fn forward_record(program_id: Seq<u8>, account: AccountSnapshot) -> Result<
    ForwardModel,
    ProgramFailure,
> {
    if account.owner@ != program_id {
        Err(ProgramFailure::IncorrectProgramId)
    } else {
        match decode_record(account.data@) {
            Some(m) => Ok(m),
            None => Err(ProgramFailure::InvalidAccountData),
        }
    }
}

/// The record of a forward account owned by `program_id`.
pub fn validate_and_get_forward(program_id: &Address, account: &AccountSnapshot) -> (r: Result<
    Forward,
    ProgramFailure,
>)
    ensures
        match forward_record(program_id@, *account) {
            Ok(m) => r is Ok && r->Ok_0@ == m,
            Err(e) => r == Err::<Forward, ProgramFailure>(e),
        },
{
    if !account.owner.same(program_id) {
        return Err(ProgramFailure::IncorrectProgramId);
    }
    Forward::unpack(account.data.as_slice())
}

/// The failure of the token context that follows `lead` accounts, if any.
pub open spec fn token_context_failure(accounts: Seq<AccountSnapshot>, lead: int) -> Option<
    ProgramFailure,
> {
    if accounts.len() < lead + TOKEN_CONTEXT_LEN {
        None
    } else if !is_token_program(accounts[lead + 2].key@) {
        Some(ProgramFailure::IncorrectProgramId)
    } else if accounts[lead + 1].key@ != system_program_id() {
        Some(ProgramFailure::IncorrectProgramId)
    } else if !accounts[lead].is_signer {
        Some(ProgramFailure::MissingRequiredSignature)
    } else {
        None
    }
}

/// The token context that follows the `lead` fixed accounts, when present:
/// a known token program, the system program, and a payer that signed.
pub fn maybe_forward_tokens(accounts: &[AccountSnapshot], lead: usize) -> (r: Result<
    Option<TokenContext>,
    ProgramFailure,
>)
    requires
        lead <= 3,
    ensures
        match token_context_failure(accounts@, lead as int) {
            Some(e) => r == Err::<Option<TokenContext>, ProgramFailure>(e),
            None => r is Ok && (r->Ok_0 is Some <==> accounts@.len() >= lead + TOKEN_CONTEXT_LEN),
        },
        r matches Ok(Some(c)) ==> c.payer == accounts@[lead as int].key && c.system_program
            == accounts@[lead + 1].key && c.token_program == accounts@[lead + 2].key
            && c.ata_program == accounts@[lead + 3].key,
{
    if accounts.len() < lead + TOKEN_CONTEXT_LEN {
        return Ok(None);
    }
    let payer = &accounts[lead];
    let system_program = &accounts[lead + 1];
    let token_program = &accounts[lead + 2];
    let ata_program = &accounts[lead + 3];
    if !is_spl_token_program(&token_program.key) {
        return Err(ProgramFailure::IncorrectProgramId);
    }
    if !is_system_program(&system_program.key) {
        return Err(ProgramFailure::IncorrectProgramId);
    }
    if !payer.is_signer {
        return Err(ProgramFailure::MissingRequiredSignature);
    }
    Ok(
        Some(
            TokenContext {
                payer: payer.key,
                system_program: system_program.key,
                token_program: token_program.key,
                ata_program: ata_program.key,
            },
        ),
    )
}

/// The first failure of a release call, in the order checked; `None` when it
/// may proceed. The accounts are the forward account, the target, and for a
/// quarantine the authority, then the optional token context and triples.
pub open spec fn release_failure(
    program_id: Seq<u8>,
    accounts: Seq<AccountSnapshot>,
    quarantine: bool,
) -> Option<ProgramFailure> {
    let lead: int = if quarantine {
        3
    } else {
        2
    };
    if !account_count_ok(lead, accounts.len() as int) {
        Some(ProgramFailure::Forward(ForwardError::InvalidNumberOfAccounts))
    } else if forward_record(program_id, accounts[0]) is Err {
        Some(forward_record(program_id, accounts[0])->Err_0)
    } else if accounts[1].key@ != (if quarantine {
        forward_record(program_id, accounts[0])->Ok_0.quarantine
    } else {
        forward_record(program_id, accounts[0])->Ok_0.destination
    }) {
        Some(ProgramFailure::Forward(ForwardError::InvalidDestination))
    } else if quarantine && !(accounts[2].key@ == forward_record(program_id, accounts[0])->Ok_0.authority
        && accounts[2].is_signer) {
        Some(ProgramFailure::Forward(ForwardError::InvalidAuthority))
    } else {
        token_context_failure(accounts, lead)
    }
}

/// What a release that passed its checks carries.
pub open spec fn release_fields(
    program_id: Seq<u8>,
    accounts: Seq<AccountSnapshot>,
    quarantine: bool,
    r: Release,
) -> bool {
    let lead: int = if quarantine {
        3
    } else {
        2
    };
    &&& r.forward@ == forward_record(program_id, accounts[0])->Ok_0
    &&& r.forward_key == accounts[0].key
    &&& r.target == accounts[1].key
    &&& (r.tokens is Some <==> accounts.len() > lead)
    &&& r.first_triple == lead + TOKEN_CONTEXT_LEN
    &&& (r.tokens is Some ==> r.triples * 3 == accounts.len() - lead - TOKEN_CONTEXT_LEN)
    &&& (r.tokens is None ==> r.triples == 0)
    &&& (r.tokens matches Some(c) ==> c.payer == accounts[lead].key && c.token_program
        == accounts[lead + 2].key && c.system_program == accounts[lead + 1].key && c.ata_program
        == accounts[lead + 3].key)
}

fn release(program_id: &Address, accounts: &[AccountSnapshot], quarantine: bool) -> (r: Result<
    Release,
    ProgramFailure,
>)
    ensures
        match release_failure(program_id@, accounts@, quarantine) {
            Some(e) => r == Err::<Release, ProgramFailure>(e),
            None => r is Ok && release_fields(program_id@, accounts@, quarantine, r->Ok_0),
        },
{
    let lead: usize = if quarantine {
        3
    } else {
        2
    };
    let n = accounts.len();
    if !valid_account_count(lead, n) {
        return Err(ProgramFailure::Forward(ForwardError::InvalidNumberOfAccounts));
    }
    let forward_account = &accounts[0];
    let target_account = &accounts[1];
    let forward = validate_and_get_forward(program_id, forward_account)?;
    let expected = if quarantine {
        forward.quarantine
    } else {
        forward.destination
    };
    if !target_account.key.same(&expected) {
        return Err(ProgramFailure::Forward(ForwardError::InvalidDestination));
    }
    if quarantine {
        let authority_account = &accounts[2];
        if !(authority_account.key.same(&forward.authority) && authority_account.is_signer) {
            return Err(ProgramFailure::Forward(ForwardError::InvalidAuthority));
        }
    }
    let tokens = maybe_forward_tokens(accounts, lead)?;
    let triples: usize = if n > lead {
        (n - lead - TOKEN_CONTEXT_LEN) / 3
    } else {
        0
    };
    Ok(
        Release {
            forward,
            forward_key: forward_account.key,
            target: target_account.key,
            tokens,
            first_triple: lead + TOKEN_CONTEXT_LEN,
            triples,
        },
    )
}

/// Checks a permissionless release to the record's destination. The accounts
/// are: forward, destination, then optionally payer, system program, token
/// program, associated token program and (mint, source, destination) triples.
pub fn execute(program_id: &Address, accounts: &[AccountSnapshot]) -> (r: Result<
    Release,
    ProgramFailure,
>)
    ensures
        match release_failure(program_id@, accounts@, false) {
            Some(e) => r == Err::<Release, ProgramFailure>(e),
            None => r is Ok && release_fields(program_id@, accounts@, false, r->Ok_0),
        },
{
    release(program_id, accounts, false)
}

/// Checks an authority-gated release to the record's quarantine address. The
/// accounts are: forward, quarantine, authority (which must sign), then
/// optionally the token context and triples as for `execute`.
pub fn quarantine(program_id: &Address, accounts: &[AccountSnapshot]) -> (r: Result<
    Release,
    ProgramFailure,
>)
    ensures
        match release_failure(program_id@, accounts@, true) {
            Some(e) => r == Err::<Release, ProgramFailure>(e),
            None => r is Ok && release_fields(program_id@, accounts@, true, r->Ok_0),
        },
{
    release(program_id, accounts, true)
}

/// The outcome of one token triple: its failure, no transfer, or the amount
/// and decimals of the transfer.
pub open spec fn token_step(
    forward_key: Seq<u8>,
    target: Seq<u8>,
    token_program: Seq<u8>,
    mint: AccountSnapshot,
    source: AccountSnapshot,
    destination: Seq<u8>,
) -> Result<Option<(u64, u8)>, ProgramFailure> {
    if source.key@ != associated_address_of(forward_key, mint.key@, token_program) {
        Err(ProgramFailure::Forward(ForwardError::InvalidTokenSource))
    } else if destination != associated_address_of(target, mint.key@, token_program) {
        Err(ProgramFailure::Forward(ForwardError::InvalidTokenDestination))
    } else if token_account_amount(source.data@) is Err {
        Err(token_account_amount(source.data@)->Err_0)
    } else if token_account_amount(source.data@)->Ok_0 == 0 {
        Ok(None)
    } else if mint_decimals(mint.data@) is Err {
        Err(mint_decimals(mint.data@)->Err_0)
    } else {
        Ok(Some((token_account_amount(source.data@)->Ok_0, mint_decimals(mint.data@)->Ok_0)))
    }
}

/// Checks one (mint, source, destination) triple against the derived token
/// accounts of the forward account and of the target, and returns the
/// transfer of the whole source balance; nothing when that balance is zero.
pub fn forward_token(
    release: &Release,
    context: &TokenContext,
    mint: &AccountSnapshot,
    source: &AccountSnapshot,
    destination: &Address,
) -> (r: Result<Option<TokenTransfer>, ProgramFailure>)
    ensures
        match token_step(
            release.forward_key@,
            release.target@,
            context.token_program@,
            *mint,
            *source,
            destination@,
        ) {
            Err(e) => r == Err::<Option<TokenTransfer>, ProgramFailure>(e),
            Ok(None) => r == Ok::<Option<TokenTransfer>, ProgramFailure>(None),
            Ok(Some((amount, decimals))) => r is Ok && r->Ok_0 is Some && ({
                let t = r->Ok_0->Some_0;
                &&& t.amount == amount
                &&& t.decimals == decimals
                &&& t.token_program == context.token_program
                &&& t.mint == mint.key
                &&& t.source == source.key
                &&& t.destination == *destination
                &&& t.destination_owner == release.target
                &&& t.authority == release.forward_key
                &&& t.payer == context.payer
            }),
        },
{
    let expected_source = associated_token_address(
        &release.forward_key,
        &mint.key,
        &context.token_program,
    );
    if !source.key.same(&expected_source) {
        return Err(ProgramFailure::Forward(ForwardError::InvalidTokenSource));
    }
    let expected_destination = associated_token_address(
        &release.target,
        &mint.key,
        &context.token_program,
    );
    if !destination.same(&expected_destination) {
        return Err(ProgramFailure::Forward(ForwardError::InvalidTokenDestination));
    }
    let amount = token_balance(source.data.as_slice())?;
    if amount == 0 {
        return Ok(None);
    }
    let decimals = unpack_mint_decimals(mint.data.as_slice())?;
    Ok(
        Some(
            TokenTransfer {
                token_program: context.token_program,
                mint: mint.key,
                source: source.key,
                destination: *destination,
                destination_owner: release.target,
                authority: release.forward_key,
                payer: context.payer,
                amount,
                decimals,
            },
        ),
    )
}

/// A triple whose source token account holds nothing is skipped: no
/// transfer and no error.
pub proof fn lemma_zero_balance_skipped(
    forward_key: Seq<u8>,
    target: Seq<u8>,
    token_program: Seq<u8>,
    mint: AccountSnapshot,
    source: AccountSnapshot,
    destination: Seq<u8>,
)
    requires
        source.key@ == associated_address_of(forward_key, mint.key@, token_program),
        destination == associated_address_of(target, mint.key@, token_program),
        token_account_amount(source.data@) == Ok::<u64, ProgramFailure>(0),
    ensures
        token_step(forward_key, target, token_program, mint, source, destination) == Ok::<
            Option<(u64, u8)>,
            ProgramFailure,
        >(None),
{
}

/// A quarantine release proceeds only when the third account is the record's
/// authority and signed; a well-formed call to the right quarantine address
/// that lacks either fails with `InvalidAuthority`.
pub proof fn lemma_quarantine_authority_gated(program_id: Seq<u8>, accounts: Seq<AccountSnapshot>)
    ensures
        release_failure(program_id, accounts, true) is None ==> {
            &&& accounts.len() >= 3
            &&& accounts[2].key@ == forward_record(program_id, accounts[0])->Ok_0.authority
            &&& accounts[2].is_signer
        },
        ({
            &&& account_count_ok(3, accounts.len() as int)
            &&& forward_record(program_id, accounts[0]) is Ok
            &&& accounts[1].key@ == forward_record(program_id, accounts[0])->Ok_0.quarantine
            &&& !(accounts[2].key@ == forward_record(program_id, accounts[0])->Ok_0.authority
                && accounts[2].is_signer)
        }) ==> release_failure(program_id, accounts, true) == Some(
            ProgramFailure::Forward(ForwardError::InvalidAuthority),
        ),
{
}

/// A release proceeds only to the address that the record names for it: the
/// destination for `execute`, the quarantine address for `quarantine`.
pub proof fn lemma_release_target_is_recorded(
    program_id: Seq<u8>,
    accounts: Seq<AccountSnapshot>,
    quarantine: bool,
)
    requires
        release_failure(program_id, accounts, quarantine) is None,
    ensures
        accounts.len() >= 2,
        forward_record(program_id, accounts[0]) is Ok,
        accounts[1].key@ == (if quarantine {
            forward_record(program_id, accounts[0])->Ok_0.quarantine
        } else {
            forward_record(program_id, accounts[0])->Ok_0.destination
        }),
{
}

} // verus!
