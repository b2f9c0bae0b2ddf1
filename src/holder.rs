//! Bootstrap of the records that trades rely on: the per-item pool, the
//! per-trade fee pool, and a pre-allocated registry record.
use vstd::prelude::*;
use crate::address::{
    check_signer, derives_to, seed_views, signer_seeds, holder_seed_list, holder_seeds, registry_seed_list, registry_seeds,
    temp_seed_list, temp_seeds,
};
use crate::error::MarketError;
use crate::layout::REGISTRY_SIZE;
use crate::ledger::{
    call_views, create_account, key_bytes, views, Account, AccountView, CallView, SystemCall,
};
use crate::payload::{Info, MoneyHolder, TempMoneyHolder};

verus! {

/// The outcome of allocating `target` with `space` bytes, funded by `payer`.
pub open spec fn allocation_step(
    program_id: Seq<u8>,
    v: Seq<AccountView>,
    payer: int,
    target: int,
    deposit: u64,
    space: nat,
) -> (Result<(), MarketError>, Seq<AccountView>) {
    if !v[target].is_free() {
        (Err(MarketError::AccountAlreadyInUse), v)
    } else if v[payer].lamports < deposit {
        (Err(MarketError::InsufficientFunds), v)
    } else {
        (
            Ok(()),
            v.update(payer, v[payer].with_lamports(v[payer].lamports - deposit)).update(
                target,
                v[target].allocated(program_id, deposit as int, space),
            ),
        )
    }
}

/// The system program request of a successful bootstrap: one allocation.
pub open spec fn allocation_calls(
    payer: int,
    target: int,
    deposit: u64,
    space: nat,
    seeds: Seq<Seq<u8>>,
) -> Seq<CallView> {
    seq![
        CallView::CreateAccount {
            payer: payer,
            target: target,
            lamports: deposit as int,
            space: space as int,
            signer_seeds: seeds,
        },
    ]
}

/// What MoneyHolder does to the accounts `[payer, pool, system program]`.
pub open spec fn money_holder_step(
    program_id: Seq<u8>,
    v: Seq<AccountView>,
    item_id: Seq<u8>,
    deposit: u64,
) -> (Result<(), MarketError>, Seq<AccountView>) {
    if v.len() < 3 {
        (Err(MarketError::NotEnoughAccountKeys), v)
    } else if !v[0].is_signer {
        (Err(MarketError::InvalidArgument), v)
    } else if !derives_to(holder_seeds(item_id), program_id, v[1].key) {
        (Err(MarketError::InvalidArgument), v)
    } else {
        allocation_step(program_id, v, 0, 1, deposit, 0)
    }
}

/// What TempMoneyHolder does to the accounts `[payer, fee pool, system program]`.
pub open spec fn temp_holder_step(
    program_id: Seq<u8>,
    v: Seq<AccountView>,
    item_id: Seq<u8>,
    buyer: Seq<u8>,
    seller: Seq<u8>,
    deposit: u64,
) -> (Result<(), MarketError>, Seq<AccountView>) {
    if v.len() < 3 {
        (Err(MarketError::NotEnoughAccountKeys), v)
    } else if !v[0].is_signer {
        (Err(MarketError::InvalidArgument), v)
    } else if !derives_to(temp_seeds(buyer, seller, item_id), program_id, v[1].key) {
        (Err(MarketError::InvalidArgument), v)
    } else {
        allocation_step(program_id, v, 0, 1, deposit, 0)
    }
}

/// What InfoAccount does to the accounts `[seller, buyer, registry, system program]`.
pub open spec fn info_step(program_id: Seq<u8>, v: Seq<AccountView>, item_id: Seq<u8>, deposit: u64) -> (
    Result<(), MarketError>,
    Seq<AccountView>,
) {
    if v.len() < 4 {
        (Err(MarketError::NotEnoughAccountKeys), v)
    } else if !v[0].is_signer && !v[1].is_signer {
        (Err(MarketError::InvalidArgument), v)
    } else if !derives_to(registry_seeds(item_id, v[1].key, v[0].key), program_id, v[2].key) {
        (Err(MarketError::InvalidArgument), v)
    } else {
        allocation_step(program_id, v, 1, 2, deposit, REGISTRY_SIZE as nat)
    }
}

/// Creates the item's pool, with no data, funded by the payer.
pub fn money_holder(program_id: &[u8; 32], accounts: &mut Vec<Account>, data: &MoneyHolder, deposit: u64, calls: &mut Vec<SystemCall>) -> (r:
    Result<(), MarketError>)
    ensures
        (r, views(final(accounts)@)) == money_holder_step(
            program_id@,
            views(old(accounts)@),
            data.title@,
            deposit,
        ),
        r is Err ==> final(accounts)@ == old(accounts)@,
        r is Err ==> final(calls)@ == old(calls)@,
        r is Ok ==> call_views(final(calls)@) == call_views(old(calls)@) + allocation_calls(
            0,
            1,
            deposit,
            0,
            signer_seeds(holder_seeds(data.title@), program_id@),
        ),
{
    let ghost v = views(accounts@);
    if accounts.len() < 3 {
        return Err(MarketError::NotEnoughAccountKeys);
    }
    if !accounts[0].is_signer {
        return Err(MarketError::InvalidArgument);
    }
    let seeds = holder_seed_list(&data.title);
    let signer = match check_signer(seeds, program_id, &accounts[1].key) {
        Some(s) => s,
        None => return Err(MarketError::InvalidArgument),
    };
    let ghost signed = seed_views(signer@);
    create_account(accounts, 0, 1, deposit, 0, program_id, signer, calls)?;
    assert(call_views(calls@) =~= call_views(old(calls)@) + allocation_calls(0, 1, deposit, 0, signed));
    Ok(())
}

/// Creates the fee pool of the trade of `title` between `buyer` and `seller`,
/// with no data, funded by the payer.
pub fn temp_money_holder(
    program_id: &[u8; 32],
    accounts: &mut Vec<Account>,
    data: &TempMoneyHolder,
    deposit: u64,
    calls: &mut Vec<SystemCall>,
) -> (r: Result<(), MarketError>)
    ensures
        (r, views(final(accounts)@)) == temp_holder_step(
            program_id@,
            views(old(accounts)@),
            data.title@,
            data.buyer@,
            data.seller@,
            deposit,
        ),
        r is Err ==> final(accounts)@ == old(accounts)@,
        r is Err ==> final(calls)@ == old(calls)@,
        r is Ok ==> call_views(final(calls)@) == call_views(old(calls)@) + allocation_calls(
            0,
            1,
            deposit,
            0,
            signer_seeds(temp_seeds(data.buyer@, data.seller@, data.title@), program_id@),
        ),
{
    let ghost v = views(accounts@);
    if accounts.len() < 3 {
        return Err(MarketError::NotEnoughAccountKeys);
    }
    if !accounts[0].is_signer {
        return Err(MarketError::InvalidArgument);
    }
    let seeds = temp_seed_list(&data.buyer, &data.seller, &data.title);
    let signer = match check_signer(seeds, program_id, &accounts[1].key) {
        Some(s) => s,
        None => return Err(MarketError::InvalidArgument),
    };
    let ghost signed = seed_views(signer@);
    create_account(accounts, 0, 1, deposit, 0, program_id, signer, calls)?;
    assert(call_views(calls@) =~= call_views(old(calls)@) + allocation_calls(0, 1, deposit, 0, signed));
    Ok(())
}

/// Allocates a registry-sized record at the registry address of the trade,
/// funded by the buyer; either party's signature suffices.
pub fn info_account(program_id: &[u8; 32], accounts: &mut Vec<Account>, data: &Info, deposit: u64, calls: &mut Vec<SystemCall>) -> (r:
    Result<(), MarketError>)
    ensures
        (r, views(final(accounts)@)) == info_step(
            program_id@,
            views(old(accounts)@),
            data.title@,
            deposit,
        ),
        r is Err ==> final(accounts)@ == old(accounts)@,
        r is Err ==> final(calls)@ == old(calls)@,
        r is Ok ==> call_views(final(calls)@) == call_views(old(calls)@) + allocation_calls(
            1,
            2,
            deposit,
            REGISTRY_SIZE as nat,
            signer_seeds(
                registry_seeds(data.title@, old(accounts)@[1].key@, old(accounts)@[0].key@),
                program_id@,
            ),
        ),
{
    let ghost v = views(accounts@);
    if accounts.len() < 4 {
        return Err(MarketError::NotEnoughAccountKeys);
    }
    if !accounts[0].is_signer && !accounts[1].is_signer {
        return Err(MarketError::InvalidArgument);
    }
    let buyer = key_bytes(&accounts[1].key);
    let seller = key_bytes(&accounts[0].key);
    let seeds = registry_seed_list(&data.title, &buyer, &seller);
    let signer = match check_signer(seeds, program_id, &accounts[2].key) {
        Some(s) => s,
        None => return Err(MarketError::InvalidArgument),
    };
    let ghost signed = seed_views(signer@);
    create_account(accounts, 1, 2, deposit, REGISTRY_SIZE, program_id, signer, calls)?;
    assert(call_views(calls@) =~= call_views(old(calls)@) + allocation_calls(1, 2, deposit, REGISTRY_SIZE as nat, signed));
    Ok(())
}

} // verus!
