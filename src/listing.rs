//! Creating, rewriting and deleting listings.
use vstd::prelude::*;
use vstd::bytes::spec_u64_to_le_bytes;
use crate::address::{
    check_address, check_signer, derives_to, listing_seed_list, listing_seeds, signer_seeds,
};
use crate::error::MarketError;
use crate::layout::{
    splice, zeros, DESC_LEN, LISTING_DESC, LISTING_ITEM_ID, LISTING_PAYER, LISTING_PRICE,
    LISTING_SIZE, LISTING_TITLE, TITLE_LEN,
};
use crate::ledger::{
    clear_data, create_account, drain_into, key_bytes, same_key, views, write_bytes,
    write_u64_at, Account, AccountView, CallView, SystemCall, call_views,
};
use crate::payload::{DeleteData, InitData, UpdateData};

verus! {

/// The bytes of a listing record.
pub open spec fn listing_bytes(
    item_id: Seq<u8>,
    title: Seq<u8>,
    description: Seq<u8>,
    price: u64,
    payer: Seq<u8>,
) -> Seq<u8> {
    item_id + title + description + spec_u64_to_le_bytes(price) + payer
}

/// What Init does to the accounts `[payer, listing, system program]`.
pub open spec fn init_step(
    program_id: Seq<u8>,
    v: Seq<AccountView>,
    item_id: Seq<u8>,
    title: Seq<u8>,
    description: Seq<u8>,
    price: u64,
    seed: Seq<u8>,
    deposit: u64,
) -> (Result<(), MarketError>, Seq<AccountView>) {
    if v.len() < 3 {
        (Err(MarketError::NotEnoughAccountKeys), v)
    } else if !v[0].is_signer {
        (Err(MarketError::InvalidArgument), v)
    } else if !v[1].is_signer {
        (Err(MarketError::InvalidArgument), v)
    } else if !derives_to(listing_seeds(seed, v[0].key), program_id, v[1].key) {
        (Err(MarketError::InvalidArgument), v)
    } else if !v[1].is_free() {
        (Err(MarketError::AccountAlreadyInUse), v)
    } else if v[0].lamports < deposit {
        (Err(MarketError::InsufficientFunds), v)
    } else {
        (
            Ok(()),
            v.update(0, v[0].with_lamports(v[0].lamports - deposit)).update(
                1,
                v[1].allocated(program_id, deposit as int, LISTING_SIZE as nat).with_data(
                    listing_bytes(item_id, title, description, price, v[0].key),
                ),
            ),
        )
    }
}

/// The system program requests of a successful Init.
pub open spec fn init_calls(program_id: Seq<u8>, v: Seq<AccountView>, seed: Seq<u8>, deposit: u64) -> Seq<
    CallView,
> {
    seq![
        CallView::CreateAccount {
            payer: 0,
            target: 1,
            lamports: deposit as int,
            space: LISTING_SIZE as int,
            signer_seeds: signer_seeds(listing_seeds(seed, v[0].key), program_id),
        },
    ]
}

/// The checks that Update and Delete share on `[payer, listing]`: the first
/// that fails, if any.
pub open spec fn owner_check(program_id: Seq<u8>, v: Seq<AccountView>, seed: Seq<u8>) -> Option<
    MarketError,
> {
    if v.len() < 2 {
        Some(MarketError::NotEnoughAccountKeys)
    } else if !v[0].is_signer {
        Some(MarketError::InvalidArgument)
    } else if v[1].owner != program_id {
        Some(MarketError::MissingRequiredSignature)
    } else if !derives_to(listing_seeds(seed, v[0].key), program_id, v[1].key) {
        Some(MarketError::InvalidArgument)
    } else {
        None
    }
}

/// What Update does to the accounts `[payer, listing]`.
pub open spec fn update_step(
    program_id: Seq<u8>,
    v: Seq<AccountView>,
    title: Seq<u8>,
    description: Seq<u8>,
    price: u64,
    seed: Seq<u8>,
) -> (Result<(), MarketError>, Seq<AccountView>) {
    match owner_check(program_id, v, seed) {
        Some(e) => (Err(e), v),
        None => if v[1].data.len() != LISTING_SIZE {
            (Err(MarketError::InvalidAccountData), v)
        } else {
            (
                Ok(()),
                v.update(
                    1,
                    v[1].with_data(
                        splice(
                            v[1].data,
                            LISTING_TITLE as int,
                            title + description + spec_u64_to_le_bytes(price),
                        ),
                    ),
                ),
            )
        },
    }
}

/// What Delete does to the accounts `[payer, listing]`.
pub open spec fn delete_step(program_id: Seq<u8>, v: Seq<AccountView>, seed: Seq<u8>) -> (Result<
    (),
    MarketError,
>, Seq<AccountView>) {
    match owner_check(program_id, v, seed) {
        Some(e) => (Err(e), v),
        None => if v[0].lamports + v[1].lamports > u64::MAX {
            (Err(MarketError::InvalidArgument), v)
        } else {
            (
                Ok(()),
                v.update(0, v[0].with_lamports(v[0].lamports + v[1].lamports)).update(
                    1,
                    v[1].with_lamports(0).with_data(zeros(v[1].data.len())),
                ),
            )
        },
    }
}

/// Creates the listing record of `payer` at the address derived from the
/// caller's seed and the payer, and fills it from the payload.
pub fn process_init(
    program_id: &[u8; 32],
    accounts: &mut Vec<Account>,
    data: &InitData,
    deposit: u64,
    calls: &mut Vec<SystemCall>,
) -> (r: Result<(), MarketError>)
    requires
        data.item_id@.len() == 32,
        data.title@.len() == TITLE_LEN,
        data.description@.len() == DESC_LEN,
    ensures
        (r, views(final(accounts)@)) == init_step(
            program_id@,
            views(old(accounts)@),
            data.item_id@,
            data.title@,
            data.description@,
            data.price,
            data.seed@,
            deposit,
        ),
        r is Err ==> final(accounts)@ == old(accounts)@,
        r is Err ==> final(calls)@ == old(calls)@,
        r is Ok ==> call_views(final(calls)@) == call_views(old(calls)@) + init_calls(
            program_id@,
            views(old(accounts)@),
            data.seed@,
            deposit,
        ),
{
    let ghost v = views(accounts@);
    if accounts.len() < 3 {
        return Err(MarketError::NotEnoughAccountKeys);
    }
    if !accounts[0].is_signer {
        return Err(MarketError::InvalidArgument);
    }
    if !accounts[1].is_signer {
        return Err(MarketError::InvalidArgument);
    }
    let payer = accounts[0].key;
    let target = accounts[1].key;
    let seeds = listing_seed_list(&data.seed, &payer);
    let signer = match check_signer(seeds, program_id, &target) {
        Some(s) => s,
        None => return Err(MarketError::InvalidArgument),
    };
    create_account(accounts, 0, 1, deposit, LISTING_SIZE, program_id, signer, calls)?;
    assert(call_views(calls@) =~= call_views(old(calls)@) + init_calls(program_id@, v, data.seed@, deposit));
    write_bytes(accounts, 1, LISTING_ITEM_ID, data.item_id.as_slice());
    write_bytes(accounts, 1, LISTING_TITLE, data.title.as_slice());
    write_bytes(accounts, 1, LISTING_DESC, data.description.as_slice());
    write_u64_at(accounts, 1, LISTING_PRICE, data.price);
    let payer_bytes = key_bytes(&payer);
    write_bytes(accounts, 1, LISTING_PAYER, payer_bytes.as_slice());
    proof {
        vstd::bytes::lemma_auto_spec_u64_to_from_le_bytes();
        assert(spec_u64_to_le_bytes(data.price).len() == 8);
        assert(payer@.len() == 32);
        assert(accounts@[1].data@ =~= listing_bytes(
            data.item_id@,
            data.title@,
            data.description@,
            data.price,
            v[0].key,
        ));
        assert(views(accounts@) =~= init_step(
            program_id@,
            v,
            data.item_id@,
            data.title@,
            data.description@,
            data.price,
            data.seed@,
            deposit,
        ).1);
    }
    Ok(())
}

/// Checks the payer's signature, the program's ownership of the listing and
/// the listing's address; returns the first check that fails.
fn check_owner(program_id: &[u8; 32], accounts: &Vec<Account>, seed: &Vec<u8>) -> (r: Option<
    MarketError,
>)
    ensures
        r == owner_check(program_id@, views(accounts@), seed@),
{
    if accounts.len() < 2 {
        return Some(MarketError::NotEnoughAccountKeys);
    }
    if !accounts[0].is_signer {
        return Some(MarketError::InvalidArgument);
    }
    if !same_key(&accounts[1].owner, program_id) {
        return Some(MarketError::MissingRequiredSignature);
    }
    let seeds = listing_seed_list(seed, &accounts[0].key);
    if check_address(&seeds, program_id, &accounts[1].key).is_none() {
        return Some(MarketError::InvalidArgument);
    }
    None
}

/// Rewrites title, description and price of the payer's listing in place.
pub fn update_account_data(program_id: &[u8; 32], accounts: &mut Vec<Account>, data: &UpdateData) -> (r:
    Result<(), MarketError>)
    requires
        data.title@.len() == TITLE_LEN,
        data.description@.len() == DESC_LEN,
    ensures
        (r, views(final(accounts)@)) == update_step(
            program_id@,
            views(old(accounts)@),
            data.title@,
            data.description@,
            data.price,
            data.seed@,
        ),
        r is Err ==> final(accounts)@ == old(accounts)@,
{
    let ghost v = views(accounts@);
    match check_owner(program_id, accounts, &data.seed) {
        Some(e) => return Err(e),
        None => {},
    }
    if accounts[1].data.len() != LISTING_SIZE {
        return Err(MarketError::InvalidAccountData);
    }
    write_bytes(accounts, 1, LISTING_TITLE, data.title.as_slice());
    write_bytes(accounts, 1, LISTING_DESC, data.description.as_slice());
    write_u64_at(accounts, 1, LISTING_PRICE, data.price);
    proof {
        vstd::bytes::lemma_auto_spec_u64_to_from_le_bytes();
        assert(spec_u64_to_le_bytes(data.price).len() == 8);
        assert(accounts@[1].data@ =~= splice(
            v[1].data,
            LISTING_TITLE as int,
            data.title@ + data.description@ + spec_u64_to_le_bytes(data.price),
        ));
        assert(views(accounts@) =~= update_step(
            program_id@,
            v,
            data.title@,
            data.description@,
            data.price,
            data.seed@,
        ).1);
    }
    Ok(())
}

/// Deletes the payer's listing: its whole balance goes to the payer and its
/// bytes are zeroed.
pub fn delete_account_data(program_id: &[u8; 32], accounts: &mut Vec<Account>, data: &DeleteData) -> (r:
    Result<(), MarketError>)
    ensures
        (r, views(final(accounts)@)) == delete_step(program_id@, views(old(accounts)@), data.seed@),
        r is Err ==> final(accounts)@ == old(accounts)@,
{
    let ghost v = views(accounts@);
    match check_owner(program_id, accounts, &data.seed) {
        Some(e) => return Err(e),
        None => {},
    }
    drain_into(accounts, 1, 0)?;
    clear_data(accounts, 1);
    proof {
        assert(views(accounts@) =~= delete_step(program_id@, v, data.seed@).1);
    }
    Ok(())
}

} // verus!
