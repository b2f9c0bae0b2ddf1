//! The accounts an instruction works on, and the two operations of the
//! runtime's system program that the handlers request: allocation and transfer.
use vstd::prelude::*;
use crate::address::seed_views;
use crate::error::MarketError;
use crate::layout::{overwrite, splice, write_u64, zero_fill, zeros};
use vstd::bytes::spec_u64_to_le_bytes;

verus! {

/// One account as the runtime hands it to the program.
#[derive(Clone, Debug)]
pub struct Account {
    pub key: [u8; 32],
    pub owner: [u8; 32],
    pub is_signer: bool,
    pub lamports: u64,
    pub data: Vec<u8>,
}

/// What an account holds, as plain values.
pub struct AccountView {
    pub key: Seq<u8>,
    pub owner: Seq<u8>,
    pub is_signer: bool,
    pub lamports: int,
    pub data: Seq<u8>,
}

impl View for Account {
    type V = AccountView;

    open spec fn view(&self) -> AccountView {
        AccountView {
            key: self.key@,
            owner: self.owner@,
            is_signer: self.is_signer,
            lamports: self.lamports as int,
            data: self.data@,
        }
    }
}

impl AccountView {
    pub open spec fn with_lamports(self, n: int) -> AccountView {
        AccountView { lamports: n, ..self }
    }

    pub open spec fn with_data(self, d: Seq<u8>) -> AccountView {
        AccountView { data: d, ..self }
    }

    /// The account once the system program has allocated it.
    pub open spec fn allocated(self, owner: Seq<u8>, lamports: int, space: nat) -> AccountView {
        AccountView { owner: owner, lamports: lamports, data: zeros(space), ..self }
    }

    /// Owned by the system program, with neither funds nor data: the system
    /// program may allocate it.
    pub open spec fn is_free(self) -> bool {
        self.lamports == 0 && self.data.len() == 0 && self.owner == system_program_id()
    }
}

/// A request to the runtime's system program, naming accounts by position.
pub enum SystemCall {
    /// Allocate `target` with `space` bytes and `lamports` taken from `payer`;
    /// the program signs for `target` with `signer_seeds`.
    CreateAccount { payer: usize, target: usize, lamports: u64, space: u64, signer_seeds: Vec<Vec<u8>> },
    /// Move `lamports` from `from` to `to`.
    Transfer { from: usize, to: usize, lamports: u64 },
}

/// A system program request, as plain values.
pub enum CallView {
    CreateAccount { payer: int, target: int, lamports: int, space: int, signer_seeds: Seq<Seq<u8>> },
    Transfer { from: int, to: int, lamports: int },
}

impl View for SystemCall {
    type V = CallView;

    open spec fn view(&self) -> CallView {
        match self {
            SystemCall::CreateAccount { payer, target, lamports, space, signer_seeds } => {
                CallView::CreateAccount {
                    payer: *payer as int,
                    target: *target as int,
                    lamports: *lamports as int,
                    space: *space as int,
                    signer_seeds: seed_views(signer_seeds@),
                }
            },
            SystemCall::Transfer { from, to, lamports } => CallView::Transfer {
                from: *from as int,
                to: *to as int,
                lamports: *lamports as int,
            },
        }
    }
}

/// The views of a list of requests.
pub open spec fn call_views(calls: Seq<SystemCall>) -> Seq<CallView> {
    calls.map_values(|c: SystemCall| c@)
}

/// The system program's address: all zero bytes.
pub open spec fn system_program_id() -> Seq<u8> {
    zeros(32)
}

/// Whether `k` is the system program's address.
pub fn is_system_program(k: &[u8; 32]) -> (r: bool)
    ensures
        r == (k@ == system_program_id()),
{
    let mut i: usize = 0;
    while i < 32
        invariant
            0 <= i <= 32,
            k@.len() == 32,
            forall|j: int| 0 <= j < i ==> k@[j] == 0u8,
        decreases 32 - i,
    {
        if k[i] != 0u8 {
            return false;
        }
        i = i + 1;
    }
    assert(k@ =~= system_program_id());
    true
}

/// The views of a list of accounts.
pub open spec fn views(accs: Seq<Account>) -> Seq<AccountView> {
    accs.map_values(|a: Account| a@)
}

/// Whether two keys are equal.
pub fn same_key(a: &[u8; 32], b: &[u8; 32]) -> (r: bool)
    ensures
        r == (a@ == b@),
{
    let mut i: usize = 0;
    while i < 32
        invariant
            0 <= i <= 32,
            a@.len() == 32,
            b@.len() == 32,
            forall|j: int| 0 <= j < i ==> a@[j] == b@[j],
        decreases 32 - i,
    {
        if a[i] != b[i] {
            return false;
        }
        i = i + 1;
    }
    assert(a@ =~= b@);
    true
}

/// A key as a byte vector.
pub fn key_bytes(k: &[u8; 32]) -> (r: Vec<u8>)
    ensures
        r@ == k@,
{
    let mut r: Vec<u8> = Vec::new();
    let mut i: usize = 0;
    while i < 32
        invariant
            0 <= i <= 32,
            k@.len() == 32,
            r@ == k@.subrange(0, i as int),
        decreases 32 - i,
    {
        r.push(k[i]);
        assert(r@ =~= k@.subrange(0, i + 1));
        i = i + 1;
    }
    assert(r@ =~= k@);
    r
}

/// Sets the balance of account `i`.
pub fn set_lamports(accounts: &mut Vec<Account>, i: usize, n: u64)
    requires
        i < old(accounts)@.len(),
    ensures
        views(final(accounts)@) == views(old(accounts)@).update(
            i as int,
            views(old(accounts)@)[i as int].with_lamports(n as int),
        ),
        final(accounts)@.len() == old(accounts)@.len(),
{
    accounts[i].lamports = n;
    assert(views(accounts@) =~= views(old(accounts)@).update(
        i as int,
        views(old(accounts)@)[i as int].with_lamports(n as int),
    ));
}

/// Overwrites the bytes of account `i`'s data from `at` on with `src`.
pub fn write_bytes(accounts: &mut Vec<Account>, i: usize, at: usize, src: &[u8])
    requires
        i < old(accounts)@.len(),
        at + src@.len() <= old(accounts)@[i as int].data@.len(),
    ensures
        views(final(accounts)@) == views(old(accounts)@).update(
            i as int,
            views(old(accounts)@)[i as int].with_data(splice(old(accounts)@[i as int].data@, at as int, src@)),
        ),
        final(accounts)@.len() == old(accounts)@.len(),
        final(accounts)@[i as int].data@ == splice(old(accounts)@[i as int].data@, at as int, src@),
{
    overwrite(&mut accounts[i].data, at, src);
    assert(views(accounts@) =~= views(old(accounts)@).update(
        i as int,
        views(old(accounts)@)[i as int].with_data(splice(old(accounts)@[i as int].data@, at as int, src@)),
    ));
}

/// Overwrites the eight bytes of account `i`'s data at `at` with the encoding of `n`.
pub fn write_u64_at(accounts: &mut Vec<Account>, i: usize, at: usize, n: u64)
    requires
        i < old(accounts)@.len(),
        at + 8 <= old(accounts)@[i as int].data@.len(),
    ensures
        views(final(accounts)@) == views(old(accounts)@).update(
            i as int,
            views(old(accounts)@)[i as int].with_data(
                splice(old(accounts)@[i as int].data@, at as int, spec_u64_to_le_bytes(n)),
            ),
        ),
        final(accounts)@.len() == old(accounts)@.len(),
        final(accounts)@[i as int].data@ == splice(old(accounts)@[i as int].data@, at as int, spec_u64_to_le_bytes(n)),
{
    write_u64(&mut accounts[i].data, at, n);
    assert(views(accounts@) =~= views(old(accounts)@).update(
        i as int,
        views(old(accounts)@)[i as int].with_data(
            splice(old(accounts)@[i as int].data@, at as int, spec_u64_to_le_bytes(n)),
        ),
    ));
}

/// Sets every byte of account `i`'s data to zero.
pub fn clear_data(accounts: &mut Vec<Account>, i: usize)
    requires
        i < old(accounts)@.len(),
    ensures
        views(final(accounts)@) == views(old(accounts)@).update(
            i as int,
            views(old(accounts)@)[i as int].with_data(zeros(old(accounts)@[i as int].data@.len())),
        ),
        final(accounts)@.len() == old(accounts)@.len(),
{
    zero_fill(&mut accounts[i].data);
    assert(views(accounts@) =~= views(old(accounts)@).update(
        i as int,
        views(old(accounts)@)[i as int].with_data(zeros(old(accounts)@[i as int].data@.len())),
    ));
}

/// The system program's transfer: moves `amount` from `from` to `to`.
pub fn transfer(
    accounts: &mut Vec<Account>,
    from: usize,
    to: usize,
    amount: u64,
    calls: &mut Vec<SystemCall>,
) -> (r: Result<(), MarketError>)
    requires
        from < old(accounts)@.len(),
        to < old(accounts)@.len(),
        from != to,
    ensures
        ({
            let v = views(old(accounts)@);
            &&& (v[from as int].lamports < amount) ==> r == Err::<(), MarketError>(
                MarketError::InsufficientFunds,
            )
            &&& (v[from as int].lamports >= amount && v[to as int].lamports + amount > u64::MAX)
                ==> r == Err::<(), MarketError>(MarketError::ArithmeticOverflow)
            &&& r is Ok <==> (v[from as int].lamports >= amount && v[to as int].lamports + amount
                <= u64::MAX)
            &&& r is Err ==> final(accounts)@ == old(accounts)@
            &&& r is Ok ==> views(final(accounts)@) == v.update(
                from as int,
                v[from as int].with_lamports((v[from as int].lamports - amount)),
            ).update(to as int, v[to as int].with_lamports(v[to as int].lamports + amount))
        }),
        final(accounts)@.len() == old(accounts)@.len(),
        r is Err ==> final(calls)@ == old(calls)@,
        r is Ok ==> call_views(final(calls)@) == call_views(old(calls)@).push(
            CallView::Transfer { from: from as int, to: to as int, lamports: amount as int },
        ),
{
    let have = accounts[from].lamports;
    if have < amount {
        return Err(MarketError::InsufficientFunds);
    }
    let dest = accounts[to].lamports;
    if dest > u64::MAX - amount {
        return Err(MarketError::ArithmeticOverflow);
    }
    set_lamports(accounts, from, have - amount);
    set_lamports(accounts, to, dest + amount);
    calls.push(SystemCall::Transfer { from, to, lamports: amount });
    assert(call_views(calls@) =~= call_views(old(calls)@).push(
        CallView::Transfer { from: from as int, to: to as int, lamports: amount as int },
    ));
    Ok(())
}

/// The system program's allocation: `target` gets `lamports` from `payer`,
/// `space` zero bytes of data and `owner` as its owner.
pub fn create_account(
    accounts: &mut Vec<Account>,
    payer: usize,
    target: usize,
    lamports: u64,
    space: usize,
    owner: &[u8; 32],
    signer_seeds: Vec<Vec<u8>>,
    calls: &mut Vec<SystemCall>,
) -> (r: Result<(), MarketError>)
    requires
        payer < old(accounts)@.len(),
        target < old(accounts)@.len(),
        payer != target,
    ensures
        ({
            let v = views(old(accounts)@);
            &&& !v[target as int].is_free() ==> r == Err::<(), MarketError>(
                MarketError::AccountAlreadyInUse,
            )
            &&& (v[target as int].is_free() && v[payer as int].lamports < lamports) ==> r == Err::<
                (),
                MarketError,
            >(MarketError::InsufficientFunds)
            &&& r is Ok <==> (v[target as int].is_free() && v[payer as int].lamports >= lamports)
            &&& r is Err ==> final(accounts)@ == old(accounts)@
            &&& r is Ok ==> views(final(accounts)@) == v.update(
                payer as int,
                v[payer as int].with_lamports((v[payer as int].lamports - lamports)),
            ).update(target as int, v[target as int].allocated(owner@, lamports as int, space as nat))
        }),
        r is Ok ==> final(accounts)@[target as int].data@ == zeros(space as nat),
        r is Err ==> final(calls)@ == old(calls)@,
        r is Ok ==> call_views(final(calls)@) == call_views(old(calls)@).push(
            CallView::CreateAccount {
                payer: payer as int,
                target: target as int,
                lamports: lamports as int,
                space: space as int,
                signer_seeds: seed_views(signer_seeds@),
            },
        ),
        final(accounts)@.len() == old(accounts)@.len(),
{
    if accounts[target].lamports != 0 || accounts[target].data.len() != 0 || !is_system_program(
        &accounts[target].owner,
    ) {
        return Err(MarketError::AccountAlreadyInUse);
    }
    let have = accounts[payer].lamports;
    if have < lamports {
        return Err(MarketError::InsufficientFunds);
    }
    let ghost v = views(old(accounts)@);
    assert(v[payer as int] == old(accounts)@[payer as int]@);
    set_lamports(accounts, payer, have - lamports);
    assert(views(accounts@)[payer as int] == accounts@[payer as int]@);
    assert(views(accounts@)[payer as int] == v[payer as int].with_lamports((v[payer as int].lamports - lamports)));
    assert(views(accounts@)[target as int] == accounts@[target as int]@);
    let key = accounts[target].key;
    let is_signer = accounts[target].is_signer;
    let data = vec![0u8; space];
    assert(data@ =~= zeros(space as nat));
    accounts[target] = Account { key, owner: *owner, is_signer, lamports, data };
    let ghost seeds = seed_views(signer_seeds@);
    calls.push(SystemCall::CreateAccount { payer, target, lamports, space: space as u64, signer_seeds });
    assert(call_views(calls@) =~= call_views(old(calls)@).push(
        CallView::CreateAccount {
            payer: payer as int,
            target: target as int,
            lamports: lamports as int,
            space: space as int,
            signer_seeds: seeds,
        },
    ));
    assert(accounts@[target as int]@ == v[target as int].allocated(owner@, lamports as int, space as nat));
    assert(accounts@[payer as int]@ == v[payer as int].with_lamports((v[payer as int].lamports - lamports)));
    assert(views(accounts@) =~= v.update(
        payer as int,
        v[payer as int].with_lamports((v[payer as int].lamports - lamports)),
    ).update(target as int, v[target as int].allocated(owner@, lamports as int, space as nat)));
    Ok(())
}

/// Moves the whole balance of `from` onto `to`, leaving `from` at zero.
pub fn drain_into(accounts: &mut Vec<Account>, from: usize, to: usize) -> (r: Result<
    (),
    MarketError,
>)
    requires
        from < old(accounts)@.len(),
        to < old(accounts)@.len(),
        from != to,
    ensures
        ({
            let v = views(old(accounts)@);
            &&& r is Ok <==> v[to as int].lamports + v[from as int].lamports <= u64::MAX
            &&& r is Err ==> r == Err::<(), MarketError>(MarketError::InvalidArgument)
                && final(accounts)@ == old(accounts)@
            &&& r is Ok ==> views(final(accounts)@) == v.update(
                to as int,
                v[to as int].with_lamports(v[to as int].lamports + v[from as int].lamports),
            ).update(from as int, v[from as int].with_lamports(0))
        }),
        final(accounts)@.len() == old(accounts)@.len(),
{
    let add = accounts[from].lamports;
    let dest = accounts[to].lamports;
    if dest > u64::MAX - add {
        return Err(MarketError::InvalidArgument);
    }
    set_lamports(accounts, to, dest + add);
    set_lamports(accounts, from, 0);
    Ok(())
}

} // verus!
