//! Escrow orders: opening one against a listing, cancelling it, and settling
//! it into a registry record while releasing the escrowed funds.
use vstd::prelude::*;
use vstd::bytes::spec_u64_to_le_bytes;
use crate::address::{
    check_address, check_signer, derives_to, holder_seed_list, holder_seeds, order_seed_list,
    order_seeds, signer_seeds,
};
use crate::error::MarketError;
use crate::layout::{
    copy_range, field, read_u64, u64_at, zeros, LISTING_PAYER, LISTING_PRICE, LISTING_SIZE,
    ORDER_BUYER, ORDER_ITEM_ID, ORDER_PRICE, ORDER_SELLER, ORDER_SIZE,
};
use crate::ledger::{
    call_views, clear_data, create_account, drain_into, same_key, transfer, views, write_bytes,
    Account, AccountView, CallView, SystemCall,
};
use crate::payload::{BuyInit, CancelBuy};

verus! {

/// The bytes of an escrow order record.
pub open spec fn order_bytes(item_id: Seq<u8>, buyer: Seq<u8>, seller: Seq<u8>, price: Seq<u8>) -> Seq<
    u8,
> {
    item_id + buyer + seller + price
}

/// The price stored in a listing record.
pub open spec fn listing_price(d: Seq<u8>) -> u64 {
    u64_at(d, LISTING_PRICE as int)
}

/// What Buy does to the accounts `[buyer, listing, order, holder, system program]`.
pub open spec fn buy_step(
    program_id: Seq<u8>,
    v: Seq<AccountView>,
    item_id: Seq<u8>,
    buyer: Seq<u8>,
    seed: Seq<u8>,
    deposit: u64,
) -> (Result<(), MarketError>, Seq<AccountView>) {
    if v.len() < 5 {
        (Err(MarketError::NotEnoughAccountKeys), v)
    } else if !v[0].is_signer {
        (Err(MarketError::InvalidArgument), v)
    } else if !derives_to(order_seeds(seed, v[0].key), program_id, v[2].key) {
        (Err(MarketError::InvalidArgument), v)
    } else if !derives_to(holder_seeds(item_id), program_id, v[3].key) {
        (Err(MarketError::InvalidArgument), v)
    } else if v[3].owner != program_id {
        (Err(MarketError::MissingRequiredSignature), v)
    } else if v[1].owner != program_id {
        (Err(MarketError::MissingRequiredSignature), v)
    } else if v[1].data.len() != LISTING_SIZE {
        (Err(MarketError::InvalidAccountData), v)
    } else if !v[2].is_free() {
        (Err(MarketError::AccountAlreadyInUse), v)
    } else if v[0].lamports < deposit {
        (Err(MarketError::InsufficientFunds), v)
    } else if v[0].lamports - deposit < listing_price(v[1].data) {
        (Err(MarketError::InsufficientFunds), v)
    } else if v[3].lamports + listing_price(v[1].data) > u64::MAX {
        (Err(MarketError::ArithmeticOverflow), v)
    } else {
        let price = listing_price(v[1].data);
        (
            Ok(()),
            v.update(0, v[0].with_lamports(v[0].lamports - deposit - price)).update(
                2,
                v[2].allocated(program_id, deposit as int, ORDER_SIZE as nat).with_data(
                    order_bytes(
                        item_id,
                        buyer,
                        field(v[1].data, LISTING_PAYER as int, 32),
                        field(v[1].data, LISTING_PRICE as int, 8),
                    ),
                ),
            ).update(3, v[3].with_lamports(v[3].lamports + price)),
        )
    }
}

/// The system program requests of a successful Buy.
pub open spec fn buy_calls(program_id: Seq<u8>, v: Seq<AccountView>, seed: Seq<u8>, deposit: u64) -> Seq<
    CallView,
> {
    seq![
        CallView::CreateAccount {
            payer: 0,
            target: 2,
            lamports: deposit as int,
            space: ORDER_SIZE as int,
            signer_seeds: signer_seeds(order_seeds(seed, v[0].key), program_id),
        },
        CallView::Transfer { from: 0, to: 3, lamports: listing_price(v[1].data) as int },
    ]
}

/// Opens an escrow order: allocates the order record at the address derived
/// from the caller's seed and the buyer, copies item, buyer, seller and price
/// into it, and moves the listing's price from the buyer into the item's pool.
pub fn buy_item(
    program_id: &[u8; 32],
    accounts: &mut Vec<Account>,
    data: &BuyInit,
    deposit: u64,
    calls: &mut Vec<SystemCall>,
) -> (r: Result<(), MarketError>)
    requires
        data.item_id@.len() == 32,
        data.buyer@.len() == 32,
    ensures
        (r, views(final(accounts)@)) == buy_step(
            program_id@,
            views(old(accounts)@),
            data.item_id@,
            data.buyer@,
            data.seed@,
            deposit,
        ),
        r is Err ==> final(accounts)@ == old(accounts)@,
        r is Err ==> final(calls)@ == old(calls)@,
        r is Ok ==> call_views(final(calls)@) == call_views(old(calls)@) + buy_calls(
            program_id@,
            views(old(accounts)@),
            data.seed@,
            deposit,
        ),
{
    let ghost v = views(accounts@);
    if accounts.len() < 5 {
        return Err(MarketError::NotEnoughAccountKeys);
    }
    if !accounts[0].is_signer {
        return Err(MarketError::InvalidArgument);
    }
    let order_seeds = order_seed_list(&data.seed, &accounts[0].key);
    let signer = match check_signer(order_seeds, program_id, &accounts[2].key) {
        Some(s) => s,
        None => return Err(MarketError::InvalidArgument),
    };
    let holder_seeds = holder_seed_list(&data.item_id);
    if check_address(&holder_seeds, program_id, &accounts[3].key).is_none() {
        return Err(MarketError::InvalidArgument);
    }
    if !same_key(&accounts[3].owner, program_id) {
        return Err(MarketError::MissingRequiredSignature);
    }
    if !same_key(&accounts[1].owner, program_id) {
        return Err(MarketError::MissingRequiredSignature);
    }
    if accounts[1].data.len() != LISTING_SIZE {
        return Err(MarketError::InvalidAccountData);
    }
    let seller = copy_range(accounts[1].data.as_slice(), LISTING_PAYER, LISTING_PAYER + 32);
    let price_bytes = copy_range(accounts[1].data.as_slice(), LISTING_PRICE, LISTING_PRICE + 8);
    let price = read_u64(accounts[1].data.as_slice(), LISTING_PRICE);
    if accounts[2].lamports != 0 || accounts[2].data.len() != 0
        || !crate::ledger::is_system_program(&accounts[2].owner) {
        return Err(MarketError::AccountAlreadyInUse);
    }
    if accounts[0].lamports < deposit {
        return Err(MarketError::InsufficientFunds);
    }
    if accounts[0].lamports - deposit < price {
        return Err(MarketError::InsufficientFunds);
    }
    if accounts[3].lamports > u64::MAX - price {
        return Err(MarketError::ArithmeticOverflow);
    }
    create_account(accounts, 0, 2, deposit, ORDER_SIZE, program_id, signer, calls)?;
    write_bytes(accounts, 2, ORDER_ITEM_ID, data.item_id.as_slice());
    write_bytes(accounts, 2, ORDER_BUYER, data.buyer.as_slice());
    write_bytes(accounts, 2, ORDER_SELLER, seller.as_slice());
    write_bytes(accounts, 2, ORDER_PRICE, price_bytes.as_slice());
    assert(accounts@[2].data@ =~= order_bytes(
        data.item_id@,
        data.buyer@,
        field(v[1].data, LISTING_PAYER as int, 32),
        field(v[1].data, LISTING_PRICE as int, 8),
    ));
    transfer(accounts, 0, 3, price, calls)?;
    assert(call_views(calls@) =~= call_views(old(calls)@) + buy_calls(program_id@, v, data.seed@, deposit));
    proof {
        assert(views(accounts@) =~= buy_step(
            program_id@,
            v,
            data.item_id@,
            data.buyer@,
            data.seed@,
            deposit,
        ).1);
    }
    Ok(())
}

/// What Cancel does to the accounts `[buyer, order, holder]`.
pub open spec fn cancel_step(program_id: Seq<u8>, v: Seq<AccountView>, seed: Seq<u8>) -> (Result<
    (),
    MarketError,
>, Seq<AccountView>) {
    if v.len() < 3 {
        (Err(MarketError::NotEnoughAccountKeys), v)
    } else if !v[0].is_signer {
        (Err(MarketError::InvalidArgument), v)
    } else if !derives_to(order_seeds(seed, v[0].key), program_id, v[1].key) {
        (Err(MarketError::InvalidArgument), v)
    } else if v[1].owner != program_id {
        (Err(MarketError::MissingRequiredSignature), v)
    } else if v[1].data.len() != ORDER_SIZE {
        (Err(MarketError::InvalidAccountData), v)
    } else if field(v[1].data, ORDER_BUYER as int, 32) != v[0].key {
        (Err(MarketError::InvalidArgument), v)
    } else if !derives_to(
        holder_seeds(field(v[1].data, ORDER_ITEM_ID as int, 32)),
        program_id,
        v[2].key,
    ) {
        (Err(MarketError::InvalidArgument), v)
    } else if v[2].owner != program_id {
        (Err(MarketError::MissingRequiredSignature), v)
    } else if v[0].lamports + v[2].lamports + v[1].lamports > u64::MAX {
        (Err(MarketError::InvalidArgument), v)
    } else {
        (
            Ok(()),
            v.update(0, v[0].with_lamports(v[0].lamports + v[2].lamports + v[1].lamports)).update(
                2,
                v[2].with_lamports(0),
            ).update(1, v[1].with_lamports(0).with_data(zeros(ORDER_SIZE as nat))),
        )
    }
}

/// Cancels the escrow order that the buyer opened with the payload's seed:
/// the item's pool and the order's own balance go back to the buyer, and the
/// order's bytes are zeroed.
pub fn cancel_buy(program_id: &[u8; 32], accounts: &mut Vec<Account>, data: &CancelBuy) -> (r: Result<
    (),
    MarketError,
>)
    ensures
        (r, views(final(accounts)@)) == cancel_step(program_id@, views(old(accounts)@), data.seed@),
        r is Err ==> final(accounts)@ == old(accounts)@,
        r is Ok ==> final(accounts)@[2].lamports + final(accounts)@[1].lamports == 0
            && final(accounts)@[0].lamports == old(accounts)@[0].lamports + old(accounts)@[2].lamports
            + old(accounts)@[1].lamports,
{
    let ghost v = views(accounts@);
    if accounts.len() < 3 {
        return Err(MarketError::NotEnoughAccountKeys);
    }
    if !accounts[0].is_signer {
        return Err(MarketError::InvalidArgument);
    }
    let order_seeds = order_seed_list(&data.seed, &accounts[0].key);
    if check_address(&order_seeds, program_id, &accounts[1].key).is_none() {
        return Err(MarketError::InvalidArgument);
    }
    if !same_key(&accounts[1].owner, program_id) {
        return Err(MarketError::MissingRequiredSignature);
    }
    if accounts[1].data.len() != ORDER_SIZE {
        return Err(MarketError::InvalidAccountData);
    }
    let stored_buyer = copy_range(accounts[1].data.as_slice(), ORDER_BUYER, ORDER_BUYER + 32);
    let buyer_key = crate::ledger::key_bytes(&accounts[0].key);
    if !bytes_equal(&stored_buyer, &buyer_key) {
        return Err(MarketError::InvalidArgument);
    }
    let item_id = copy_range(accounts[1].data.as_slice(), ORDER_ITEM_ID, ORDER_ITEM_ID + 32);
    let seeds = holder_seed_list(&item_id);
    if check_address(&seeds, program_id, &accounts[2].key).is_none() {
        return Err(MarketError::InvalidArgument);
    }
    if !same_key(&accounts[2].owner, program_id) {
        return Err(MarketError::MissingRequiredSignature);
    }
    let b = accounts[0].lamports;
    let h = accounts[2].lamports;
    let o = accounts[1].lamports;
    if b > u64::MAX - h || b + h > u64::MAX - o {
        return Err(MarketError::InvalidArgument);
    }
    drain_into(accounts, 2, 0)?;
    drain_into(accounts, 1, 0)?;
    clear_data(accounts, 1);
    proof {
        assert(views(accounts@) =~= cancel_step(program_id@, v, data.seed@).1);
        assert(views(accounts@)[0] == accounts@[0]@);
        assert(views(accounts@)[1] == accounts@[1]@);
        assert(views(accounts@)[2] == accounts@[2]@);
    }
    Ok(())
}

/// Whether two byte vectors are equal.
pub fn bytes_equal(a: &Vec<u8>, b: &Vec<u8>) -> (r: bool)
    ensures
        r == (a@ == b@),
{
    if a.len() != b.len() {
        return false;
    }
    let mut i: usize = 0;
    while i < a.len()
        invariant
            0 <= i <= a@.len(),
            a@.len() == b@.len(),
            forall|j: int| 0 <= j < i ==> a@[j] == b@[j],
        decreases a@.len() - i,
    {
        if a[i] != b[i] {
            return false;
        }
        i = i + 1;
    }
    assert(a@ =~= b@);
    true
}

/// The fund release that ends a settlement: the pool's whole balance goes to
/// the seller, the order's whole balance to the buyer, and the order's bytes
/// are zeroed.
pub fn release_escrow(
    accounts: &mut Vec<Account>,
    seller: usize,
    buyer: usize,
    order: usize,
    holder: usize,
) -> (r: Result<(), MarketError>)
    requires
        seller < old(accounts)@.len(),
        buyer < old(accounts)@.len(),
        order < old(accounts)@.len(),
        holder < old(accounts)@.len(),
        seller != buyer,
        seller != order,
        seller != holder,
        buyer != order,
        buyer != holder,
        order != holder,
    ensures
        ({
            let v = views(old(accounts)@);
            let s = v[seller as int].lamports + v[holder as int].lamports;
            let b = v[buyer as int].lamports + v[order as int].lamports;
            &&& r is Ok <==> (s <= u64::MAX && b <= u64::MAX)
            &&& r is Err ==> r == Err::<(), MarketError>(MarketError::InvalidArgument)
                && final(accounts)@ == old(accounts)@
            &&& r is Ok ==> views(final(accounts)@) == v.update(
                seller as int,
                v[seller as int].with_lamports(s),
            ).update(holder as int, v[holder as int].with_lamports(0)).update(
                buyer as int,
                v[buyer as int].with_lamports(b),
            ).update(
                order as int,
                v[order as int].with_lamports(0).with_data(zeros(v[order as int].data.len())),
            )
        }),
        r is Ok ==> {
            &&& final(accounts)@[holder as int].lamports == 0
            &&& final(accounts)@[order as int].lamports == 0
            &&& final(accounts)@[seller as int].lamports == old(accounts)@[seller as int].lamports
                + old(accounts)@[holder as int].lamports
            &&& final(accounts)@[buyer as int].lamports == old(accounts)@[buyer as int].lamports
                + old(accounts)@[order as int].lamports
        },
        final(accounts)@.len() == old(accounts)@.len(),
{
    let ghost v = views(accounts@);
    let s = accounts[seller].lamports;
    let h = accounts[holder].lamports;
    let b = accounts[buyer].lamports;
    let o = accounts[order].lamports;
    if s > u64::MAX - h || b > u64::MAX - o {
        return Err(MarketError::InvalidArgument);
    }
    drain_into(accounts, holder, seller)?;
    drain_into(accounts, order, buyer)?;
    clear_data(accounts, order);
    proof {
        let s2 = v[seller as int].lamports + v[holder as int].lamports;
        let b2 = v[buyer as int].lamports + v[order as int].lamports;
        assert(views(accounts@) =~= v.update(seller as int, v[seller as int].with_lamports(s2)).update(
            holder as int,
            v[holder as int].with_lamports(0),
        ).update(buyer as int, v[buyer as int].with_lamports(b2)).update(
            order as int,
            v[order as int].with_lamports(0).with_data(zeros(v[order as int].data.len())),
        ));
        assert(views(accounts@)[seller as int] == accounts@[seller as int]@);
        assert(views(accounts@)[buyer as int] == accounts@[buyer as int]@);
        assert(views(accounts@)[order as int] == accounts@[order as int]@);
        assert(views(accounts@)[holder as int] == accounts@[holder as int]@);
    }
    Ok(())
}

} // verus!
