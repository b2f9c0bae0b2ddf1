//! Settlement: the write-once registry record of a trade and the release of
//! the escrowed funds.
use vstd::prelude::*;
use vstd::bytes::spec_u64_to_le_bytes;
use crate::address::{
    check_address, check_signer, derives_to, signer_seeds, holder_seed_list, holder_seeds, listing_seed_list, listing_seeds,
    order_seed_list, order_seeds, registry_seed_list, registry_seeds, temp_seed_list, temp_seeds,
};
use crate::error::MarketError;
use crate::escrow::release_escrow;
use crate::layout::{
    copy_range, field, zeros, DESC_LEN, LISTING_DESC, LISTING_PAYER, LISTING_PRICE, LISTING_SIZE,
    LISTING_TITLE, ORDER_BUYER, ORDER_ITEM_ID, ORDER_SIZE, REGISTRY_BUYER, REGISTRY_DESC,
    REGISTRY_ITEM_ID, REGISTRY_PRICE, REGISTRY_SELLER, REGISTRY_SIZE, REGISTRY_TIME,
    REGISTRY_TITLE, TITLE_LEN,
};
use crate::ledger::{
    call_views, create_account, key_bytes, same_key, transfer, views, write_bytes, write_u64_at,
    Account, AccountView, CallView, SystemCall,
};
use crate::payload::SellData;

verus! {

/// The bytes of a registry record.
pub open spec fn registry_bytes(
    item_id: Seq<u8>,
    buyer: Seq<u8>,
    seller: Seq<u8>,
    price: Seq<u8>,
    title: Seq<u8>,
    description: Seq<u8>,
    time: u64,
) -> Seq<u8> {
    item_id + buyer + seller + price + title + description + spec_u64_to_le_bytes(time)
}

/// What each party pays towards the registry record's storage deposit: half
/// of it, plus one unit for the remainder of the division.
pub open spec fn fee_share(deposit: u64) -> int {
    deposit / 2 + 1
}

/// The address checks of Sell on `[seller, buyer, order, listing, holder,
/// system program, registry, temp]`: the first that fails, if any.
pub open spec fn sell_check(
    program_id: Seq<u8>,
    v: Seq<AccountView>,
    seed_post: Seq<u8>,
    seed_buy: Seq<u8>,
) -> Option<MarketError> {
    if v.len() < 8 {
        Some(MarketError::NotEnoughAccountKeys)
    } else if !v[0].is_signer && !v[1].is_signer {
        Some(MarketError::InvalidArgument)
    } else if !derives_to(listing_seeds(seed_post, v[0].key), program_id, v[3].key) {
        Some(MarketError::InvalidArgument)
    } else if v[3].owner != program_id {
        Some(MarketError::MissingRequiredSignature)
    } else if !derives_to(order_seeds(seed_buy, v[1].key), program_id, v[2].key) {
        Some(MarketError::InvalidArgument)
    } else if v[2].owner != program_id {
        Some(MarketError::MissingRequiredSignature)
    } else if v[2].data.len() != ORDER_SIZE {
        Some(MarketError::InvalidAccountData)
    } else if !derives_to(
        holder_seeds(field(v[2].data, ORDER_ITEM_ID as int, 32)),
        program_id,
        v[4].key,
    ) {
        Some(MarketError::InvalidArgument)
    } else if v[4].owner != program_id {
        Some(MarketError::MissingRequiredSignature)
    } else if !derives_to(
        temp_seeds(v[1].key, v[0].key, field(v[2].data, ORDER_ITEM_ID as int, 32)),
        program_id,
        v[7].key,
    ) {
        Some(MarketError::InvalidArgument)
    } else if !derives_to(
        registry_seeds(field(v[2].data, ORDER_ITEM_ID as int, 32), v[1].key, v[0].key),
        program_id,
        v[6].key,
    ) {
        Some(MarketError::InvalidArgument)
    } else if v[3].data.len() != LISTING_SIZE {
        Some(MarketError::InvalidAccountData)
    } else {
        None
    }
}

/// The balance checks of Sell, in the order its transfers run: the first
/// that fails, if any.
pub open spec fn sell_funds_check(v: Seq<AccountView>, deposit: u64) -> Option<MarketError> {
    let split = fee_share(deposit);
    if v[0].lamports < split {
        Some(MarketError::InsufficientFunds)
    } else if v[7].lamports + split > u64::MAX {
        Some(MarketError::ArithmeticOverflow)
    } else if v[1].lamports < split {
        Some(MarketError::InsufficientFunds)
    } else if v[7].lamports + 2 * split > u64::MAX {
        Some(MarketError::ArithmeticOverflow)
    } else if !v[6].is_free() {
        Some(MarketError::AccountAlreadyInUse)
    } else if v[0].lamports - split + v[4].lamports > u64::MAX {
        Some(MarketError::InvalidArgument)
    } else if v[1].lamports - split + v[2].lamports > u64::MAX {
        Some(MarketError::InvalidArgument)
    } else {
        None
    }
}

/// The accounts after a successful Sell.
pub open spec fn sell_result(program_id: Seq<u8>, v: Seq<AccountView>, deposit: u64, time: u64) -> Seq<
    AccountView,
> {
    let split = fee_share(deposit);
    v.update(0, v[0].with_lamports(v[0].lamports - split + v[4].lamports)).update(
        1,
        v[1].with_lamports(v[1].lamports - split + v[2].lamports),
    ).update(2, v[2].with_lamports(0).with_data(zeros(ORDER_SIZE as nat))).update(
        4,
        v[4].with_lamports(0),
    ).update(
        6,
        v[6].allocated(program_id, deposit as int, REGISTRY_SIZE as nat).with_data(
            registry_bytes(
                field(v[2].data, ORDER_ITEM_ID as int, 32),
                field(v[2].data, ORDER_BUYER as int, 32),
                field(v[3].data, LISTING_PAYER as int, 32),
                field(v[3].data, LISTING_PRICE as int, 8),
                field(v[3].data, LISTING_TITLE as int, TITLE_LEN as int),
                field(v[3].data, LISTING_DESC as int, DESC_LEN as int),
                time,
            ),
        ),
    ).update(7, v[7].with_lamports(v[7].lamports + 2 * split - deposit))
}

/// The system program requests of a successful Sell.
pub open spec fn sell_calls(program_id: Seq<u8>, v: Seq<AccountView>, deposit: u64) -> Seq<CallView> {
    seq![
        CallView::Transfer { from: 0, to: 7, lamports: fee_share(deposit) },
        CallView::Transfer { from: 1, to: 7, lamports: fee_share(deposit) },
        CallView::CreateAccount {
            payer: 7,
            target: 6,
            lamports: deposit as int,
            space: REGISTRY_SIZE as int,
            signer_seeds: signer_seeds(
                registry_seeds(field(v[2].data, ORDER_ITEM_ID as int, 32), v[1].key, v[0].key),
                program_id,
            ),
        },
    ]
}

/// What Sell does to the accounts `[seller, buyer, order, listing, holder,
/// system program, registry, temp]`.
pub open spec fn sell_step(
    program_id: Seq<u8>,
    v: Seq<AccountView>,
    seed_post: Seq<u8>,
    seed_buy: Seq<u8>,
    deposit: u64,
    time: u64,
) -> (Result<(), MarketError>, Seq<AccountView>) {
    match sell_check(program_id, v, seed_post, seed_buy) {
        Some(e) => (Err(e), v),
        None => match sell_funds_check(v, deposit) {
            Some(e) => (Err(e), v),
            None => (Ok(()), sell_result(program_id, v, deposit, time)),
        },
    }
}

/// Checks every address Sell touches; returns the first check that fails.
fn check_sell(program_id: &[u8; 32], accounts: &Vec<Account>, data: &SellData) -> (r: Option<
    MarketError,
>)
    ensures
        r == sell_check(program_id@, views(accounts@), data.seed_post@, data.seed_buy@),
{
    let ghost v = views(accounts@);
    if accounts.len() < 8 {
        return Some(MarketError::NotEnoughAccountKeys);
    }
    if !accounts[0].is_signer && !accounts[1].is_signer {
        return Some(MarketError::InvalidArgument);
    }
    let listing_seeds = listing_seed_list(&data.seed_post, &accounts[0].key);
    if check_address(&listing_seeds, program_id, &accounts[3].key).is_none() {
        return Some(MarketError::InvalidArgument);
    }
    if !same_key(&accounts[3].owner, program_id) {
        return Some(MarketError::MissingRequiredSignature);
    }
    let order_seeds = order_seed_list(&data.seed_buy, &accounts[1].key);
    if check_address(&order_seeds, program_id, &accounts[2].key).is_none() {
        return Some(MarketError::InvalidArgument);
    }
    if !same_key(&accounts[2].owner, program_id) {
        return Some(MarketError::MissingRequiredSignature);
    }
    if accounts[2].data.len() != ORDER_SIZE {
        return Some(MarketError::InvalidAccountData);
    }
    let item_id = copy_range(accounts[2].data.as_slice(), ORDER_ITEM_ID, ORDER_ITEM_ID + 32);
    let holder_seeds = holder_seed_list(&item_id);
    if check_address(&holder_seeds, program_id, &accounts[4].key).is_none() {
        return Some(MarketError::InvalidArgument);
    }
    if !same_key(&accounts[4].owner, program_id) {
        return Some(MarketError::MissingRequiredSignature);
    }
    let seller = key_bytes(&accounts[0].key);
    let buyer = key_bytes(&accounts[1].key);
    let temp_seeds = temp_seed_list(&buyer, &seller, &item_id);
    if check_address(&temp_seeds, program_id, &accounts[7].key).is_none() {
        return Some(MarketError::InvalidArgument);
    }
    let registry_seeds = registry_seed_list(&item_id, &buyer, &seller);
    if check_address(&registry_seeds, program_id, &accounts[6].key).is_none() {
        return Some(MarketError::InvalidArgument);
    }
    if accounts[3].data.len() != LISTING_SIZE {
        return Some(MarketError::InvalidAccountData);
    }
    None
}

/// Settles an escrow order. Either party's signature suffices. Seller and
/// buyer each pay their fee share into the trade's fee pool, which funds the
/// registry record; the record is filled from the order and the listing and
/// stamped with `time`; then the item's pool goes to the seller and the
/// order's balance to the buyer.
pub fn sell_item(
    program_id: &[u8; 32],
    accounts: &mut Vec<Account>,
    data: &SellData,
    deposit: u64,
    time: u64,
    calls: &mut Vec<SystemCall>,
) -> (r: Result<(), MarketError>)
    ensures
        (r, views(final(accounts)@)) == sell_step(
            program_id@,
            views(old(accounts)@),
            data.seed_post@,
            data.seed_buy@,
            deposit,
            time,
        ),
        r is Err ==> final(accounts)@ == old(accounts)@,
        r is Err ==> final(calls)@ == old(calls)@,
        r is Ok ==> call_views(final(calls)@) == call_views(old(calls)@) + sell_calls(
            program_id@,
            views(old(accounts)@),
            deposit,
        ),
{
    let ghost v = views(accounts@);
    match check_sell(program_id, accounts, data) {
        Some(e) => return Err(e),
        None => {},
    }
    let item_id = copy_range(accounts[2].data.as_slice(), ORDER_ITEM_ID, ORDER_ITEM_ID + 32);
    let buyer = copy_range(accounts[2].data.as_slice(), ORDER_BUYER, ORDER_BUYER + 32);
    let payer = copy_range(accounts[3].data.as_slice(), LISTING_PAYER, LISTING_PAYER + 32);
    let price = copy_range(accounts[3].data.as_slice(), LISTING_PRICE, LISTING_PRICE + 8);
    let title = copy_range(accounts[3].data.as_slice(), LISTING_TITLE, LISTING_TITLE + TITLE_LEN);
    let description = copy_range(accounts[3].data.as_slice(), LISTING_DESC, LISTING_DESC + DESC_LEN);
    let seller_key = key_bytes(&accounts[0].key);
    let buyer_key = key_bytes(&accounts[1].key);
    let signer = match check_signer(registry_seed_list(&item_id, &buyer_key, &seller_key), program_id, &accounts[6].key) {
        Some(s) => s,
        None => return Err(MarketError::InvalidArgument),
    };
    let split: u64 = deposit / 2 + 1;
    if accounts[0].lamports < split {
        return Err(MarketError::InsufficientFunds);
    }
    if accounts[7].lamports > u64::MAX - split {
        return Err(MarketError::ArithmeticOverflow);
    }
    if accounts[1].lamports < split {
        return Err(MarketError::InsufficientFunds);
    }
    if accounts[7].lamports + split > u64::MAX - split {
        return Err(MarketError::ArithmeticOverflow);
    }
    if accounts[6].lamports != 0 || accounts[6].data.len() != 0
        || !crate::ledger::is_system_program(&accounts[6].owner) {
        return Err(MarketError::AccountAlreadyInUse);
    }
    if accounts[0].lamports - split > u64::MAX - accounts[4].lamports {
        return Err(MarketError::InvalidArgument);
    }
    if accounts[1].lamports - split > u64::MAX - accounts[2].lamports {
        return Err(MarketError::InvalidArgument);
    }
    transfer(accounts, 0, 7, split, calls)?;
    transfer(accounts, 1, 7, split, calls)?;
    create_account(accounts, 7, 6, deposit, REGISTRY_SIZE, program_id, signer, calls)?;
    assert(call_views(calls@) =~= call_views(old(calls)@) + sell_calls(program_id@, v, deposit));
    write_bytes(accounts, 6, REGISTRY_ITEM_ID, item_id.as_slice());
    write_bytes(accounts, 6, REGISTRY_BUYER, buyer.as_slice());
    write_bytes(accounts, 6, REGISTRY_SELLER, payer.as_slice());
    write_bytes(accounts, 6, REGISTRY_PRICE, price.as_slice());
    write_bytes(accounts, 6, REGISTRY_TITLE, title.as_slice());
    write_bytes(accounts, 6, REGISTRY_DESC, description.as_slice());
    write_u64_at(accounts, 6, REGISTRY_TIME, time);
    proof {
        vstd::bytes::lemma_auto_spec_u64_to_from_le_bytes();
        assert(spec_u64_to_le_bytes(time).len() == 8);
        assert(accounts@[6].data@ =~= registry_bytes(
            item_id@,
            buyer@,
            payer@,
            price@,
            title@,
            description@,
            time,
        ));
    }
    release_escrow(accounts, 0, 1, 2, 4)?;
    proof {
        assert(views(accounts@) =~= sell_result(program_id@, v, deposit, time));
    }
    Ok(())
}

} // verus!
