//! Properties of the marketplace that hold for every input.
use vstd::prelude::*;
use vstd::bytes::{spec_u64_to_le_bytes, lemma_auto_spec_u64_to_from_le_bytes};
use crate::address::{derives_to, holder_seeds, listing_seeds, order_seeds};
use crate::error::MarketError;
use crate::escrow::{buy_step, cancel_step, listing_price, order_bytes};
use crate::layout::{
    field, u64_at, DESC_LEN, LISTING_DESC, LISTING_ITEM_ID, LISTING_PAYER, LISTING_PRICE,
    LISTING_TITLE, ORDER_BUYER, ORDER_ITEM_ID, ORDER_PRICE, ORDER_SIZE, REGISTRY_BUYER, REGISTRY_DESC,
    REGISTRY_ITEM_ID, REGISTRY_PRICE, REGISTRY_SELLER, REGISTRY_SIZE, REGISTRY_TITLE, TITLE_LEN,
};
use crate::ledger::{views, Account, AccountView};
use crate::listing::{delete_step, init_step, listing_bytes, update_step};
use crate::settle::{fee_share, registry_bytes, sell_step};

verus! {

/// A listing created by Init holds exactly the item id, title, description
/// and price of the payload, and the caller's key as its payer.
pub proof fn lemma_init_stores_fields(
    program_id: Seq<u8>,
    accounts: Seq<Account>,
    item_id: Seq<u8>,
    title: Seq<u8>,
    description: Seq<u8>,
    price: u64,
    seed: Seq<u8>,
    deposit: u64,
)
    requires
        item_id.len() == 32,
        title.len() == TITLE_LEN,
        description.len() == DESC_LEN,
    ensures
        ({
            let v = views(accounts);
            let (r, w) = init_step(program_id, v, item_id, title, description, price, seed, deposit);
            r is Ok ==> {
                &&& field(w[1].data, LISTING_ITEM_ID as int, 32) == item_id
                &&& field(w[1].data, LISTING_TITLE as int, TITLE_LEN as int) == title
                &&& field(w[1].data, LISTING_DESC as int, DESC_LEN as int) == description
                &&& u64_at(w[1].data, LISTING_PRICE as int) == price
                &&& field(w[1].data, LISTING_PAYER as int, 32) == v[0].key
            }
        }),
{
    let v = views(accounts);
    let (r, w) = init_step(program_id, v, item_id, title, description, price, seed, deposit);
    if r is Ok {
        assert(v[0] == accounts[0]@);
        lemma_auto_spec_u64_to_from_le_bytes();
        assert(spec_u64_to_le_bytes(price).len() == 8);
        let d = listing_bytes(item_id, title, description, price, v[0].key);
        assert(w[1].data == d);
        assert(field(d, LISTING_ITEM_ID as int, 32) =~= item_id);
        assert(field(d, LISTING_TITLE as int, TITLE_LEN as int) =~= title);
        assert(field(d, LISTING_DESC as int, DESC_LEN as int) =~= description);
        assert(field(d, LISTING_PRICE as int, 8) =~= spec_u64_to_le_bytes(price));
        assert(field(d, LISTING_PAYER as int, 32) =~= v[0].key);
    }
}

/// Update and Delete refuse a listing address that is not the one derived
/// from the seed and the payer, and change nothing; once the signature and
/// ownership checks have passed, the refusal is an argument error.
pub proof fn lemma_listing_address_checked(
    program_id: Seq<u8>,
    v: Seq<AccountView>,
    title: Seq<u8>,
    description: Seq<u8>,
    price: u64,
    seed: Seq<u8>,
)
    requires
        v.len() >= 2 ==> !derives_to(listing_seeds(seed, v[0].key), program_id, v[1].key),
    ensures
        update_step(program_id, v, title, description, price, seed).0 is Err,
        update_step(program_id, v, title, description, price, seed).1 == v,
        delete_step(program_id, v, seed).0 is Err,
        delete_step(program_id, v, seed).1 == v,
        (v.len() >= 2 && v[0].is_signer && v[1].owner == program_id) ==> {
            &&& update_step(program_id, v, title, description, price, seed).0 == Err::<(), MarketError>(
                MarketError::InvalidArgument,
            )
            &&& delete_step(program_id, v, seed).0 == Err::<(), MarketError>(
                MarketError::InvalidArgument,
            )
        },
{
}

/// Buy refuses an order address not derived from the seed and the buyer, and
/// a pool address not derived from the item id, and changes nothing; once
/// the checks before them have passed, the refusal is an argument error.
pub proof fn lemma_buy_addresses_checked(
    program_id: Seq<u8>,
    v: Seq<AccountView>,
    item_id: Seq<u8>,
    buyer: Seq<u8>,
    seed: Seq<u8>,
    deposit: u64,
)
    requires
        v.len() >= 5 ==> (!derives_to(order_seeds(seed, v[0].key), program_id, v[2].key)
            || !derives_to(holder_seeds(item_id), program_id, v[3].key)),
    ensures
        buy_step(program_id, v, item_id, buyer, seed, deposit).0 is Err,
        buy_step(program_id, v, item_id, buyer, seed, deposit).1 == v,
        (v.len() >= 5 && v[0].is_signer) ==> buy_step(
            program_id,
            v,
            item_id,
            buyer,
            seed,
            deposit,
        ).0 == Err::<(), MarketError>(MarketError::InvalidArgument),
{
}

/// After Cancel the pool and the order hold nothing, and the buyer gained
/// exactly what the two held before.
pub proof fn lemma_cancel_conserves(program_id: Seq<u8>, v: Seq<AccountView>, seed: Seq<u8>)
    ensures
        ({
            let (r, w) = cancel_step(program_id, v, seed);
            r is Ok ==> {
                &&& w[2].lamports + w[1].lamports == 0
                &&& w[0].lamports == v[0].lamports + (v[2].lamports + v[1].lamports)
            }
        }),
{
}

/// After Sell the pool and the order hold nothing; the seller gained the
/// pool's balance and the buyer the order's, each less the fee share paid
/// towards the registry record.
pub proof fn lemma_sell_conserves(
    program_id: Seq<u8>,
    v: Seq<AccountView>,
    seed_post: Seq<u8>,
    seed_buy: Seq<u8>,
    deposit: u64,
    time: u64,
)
    ensures
        ({
            let (r, w) = sell_step(program_id, v, seed_post, seed_buy, deposit, time);
            r is Ok ==> {
                &&& w[4].lamports == 0
                &&& w[2].lamports == 0
                &&& w[0].lamports == v[0].lamports - fee_share(deposit) + v[4].lamports
                &&& w[1].lamports == v[1].lamports - fee_share(deposit) + v[2].lamports
                &&& w[7].lamports + w[6].lamports == v[7].lamports + 2 * fee_share(deposit)
            }
        }),
{
}

/// A registry record is written once: after a Sell, any further Sell whose
/// registry slot is that record fails and leaves every account as it was.
pub proof fn lemma_registry_write_once(
    program_id: Seq<u8>,
    v: Seq<AccountView>,
    seed_post: Seq<u8>,
    seed_buy: Seq<u8>,
    deposit: u64,
    time: u64,
    u: Seq<AccountView>,
    seed_post2: Seq<u8>,
    seed_buy2: Seq<u8>,
    deposit2: u64,
    time2: u64,
)
    requires
        sell_step(program_id, v, seed_post, seed_buy, deposit, time).0 is Ok,
        u.len() >= 8,
        u[6] == sell_step(program_id, v, seed_post, seed_buy, deposit, time).1[6],
    ensures
        sell_step(program_id, u, seed_post2, seed_buy2, deposit2, time2).0 is Err,
        sell_step(program_id, u, seed_post2, seed_buy2, deposit2, time2).1 == u,
{
    let w = sell_step(program_id, v, seed_post, seed_buy, deposit, time).1;
    lemma_auto_spec_u64_to_from_le_bytes();
    assert(spec_u64_to_le_bytes(time).len() == 8);
    assert(w[6].data.len() == REGISTRY_SIZE);
    assert(!u[6].is_free());
}

/// A trade carried through: Buy moves the listing's price from the buyer into
/// the item's pool, and a Sell of the order that Buy wrote, against the same
/// listing, creates a registry record holding the item, the buyer that the
/// Buy payload named (here the buying account), the listing's payer, price,
/// title and description, and pays the pool out to the seller.
pub proof fn lemma_trade_registry(
    program_id: Seq<u8>,
    v: Seq<AccountView>,
    item_id: Seq<u8>,
    buyer: Seq<u8>,
    seed: Seq<u8>,
    order_deposit: u64,
    u: Seq<AccountView>,
    seed_post: Seq<u8>,
    seed_buy: Seq<u8>,
    registry_deposit: u64,
    time: u64,
)
    requires
        item_id.len() == 32,
        buyer.len() == 32,
        buyer == v[0].key,
        buy_step(program_id, v, item_id, buyer, seed, order_deposit).0 is Ok,
        u.len() >= 8,
        u[1].key == v[0].key,
        u[2] == buy_step(program_id, v, item_id, buyer, seed, order_deposit).1[2],
        u[3].data == v[1].data,
        sell_step(program_id, u, seed_post, seed_buy, registry_deposit, time).0 is Ok,
    ensures
        ({
            let w = buy_step(program_id, v, item_id, buyer, seed, order_deposit).1;
            let x = sell_step(program_id, u, seed_post, seed_buy, registry_deposit, time).1;
            let reg = x[6].data;
            &&& w[3].lamports == v[3].lamports + listing_price(v[1].data)
            &&& w[0].lamports == v[0].lamports - order_deposit - listing_price(v[1].data)
            &&& u64_at(w[2].data, ORDER_PRICE as int) == listing_price(v[1].data)
            &&& field(reg, REGISTRY_ITEM_ID as int, 32) == item_id
            &&& field(reg, REGISTRY_BUYER as int, 32) == v[0].key
            &&& field(reg, REGISTRY_SELLER as int, 32) == field(v[1].data, LISTING_PAYER as int, 32)
            &&& u64_at(reg, REGISTRY_PRICE as int) == listing_price(v[1].data)
            &&& field(reg, REGISTRY_TITLE as int, TITLE_LEN as int) == field(
                v[1].data,
                LISTING_TITLE as int,
                TITLE_LEN as int,
            )
            &&& field(reg, REGISTRY_DESC as int, DESC_LEN as int) == field(
                v[1].data,
                LISTING_DESC as int,
                DESC_LEN as int,
            )
            &&& x[4].lamports == 0
            &&& x[2].lamports == 0
            &&& x[0].lamports == u[0].lamports - fee_share(registry_deposit) + u[4].lamports
        }),
{
    lemma_auto_spec_u64_to_from_le_bytes();
    assert(spec_u64_to_le_bytes(time).len() == 8);
    let w = buy_step(program_id, v, item_id, buyer, seed, order_deposit).1;
    let x = sell_step(program_id, u, seed_post, seed_buy, registry_deposit, time).1;
    let l = v[1].data;
    let o = order_bytes(
        item_id,
        buyer,
        field(l, LISTING_PAYER as int, 32),
        field(l, LISTING_PRICE as int, 8),
    );
    assert(w[2].data == o);
    assert(field(o, ORDER_ITEM_ID as int, 32) =~= item_id);
    assert(field(o, ORDER_BUYER as int, 32) =~= buyer);
    assert(field(o, ORDER_PRICE as int, 8) =~= field(l, LISTING_PRICE as int, 8));
    let reg = registry_bytes(
        item_id,
        buyer,
        field(l, LISTING_PAYER as int, 32),
        field(l, LISTING_PRICE as int, 8),
        field(l, LISTING_TITLE as int, TITLE_LEN as int),
        field(l, LISTING_DESC as int, DESC_LEN as int),
        time,
    );
    assert(x[6].data == reg);
    assert(field(reg, REGISTRY_ITEM_ID as int, 32) =~= item_id);
    assert(field(reg, REGISTRY_BUYER as int, 32) =~= buyer);
    assert(field(reg, REGISTRY_SELLER as int, 32) =~= field(l, LISTING_PAYER as int, 32));
    assert(field(reg, REGISTRY_PRICE as int, 8) =~= field(l, LISTING_PRICE as int, 8));
    assert(field(reg, REGISTRY_TITLE as int, TITLE_LEN as int) =~= field(
        l,
        LISTING_TITLE as int,
        TITLE_LEN as int,
    ));
    assert(field(reg, REGISTRY_DESC as int, DESC_LEN as int) =~= field(
        l,
        LISTING_DESC as int,
        DESC_LEN as int,
    ));
}

/// Cancel right after Buy, with the same seed, succeeds: the pool and the
/// order end empty and the buyer holds what it held before Buy plus what the
/// pool held before Buy; with an empty pool, exactly its balance before Buy.
pub proof fn lemma_buy_then_cancel(
    program_id: Seq<u8>,
    v: Seq<AccountView>,
    item_id: Seq<u8>,
    buyer: Seq<u8>,
    seed: Seq<u8>,
    deposit: u64,
)
    requires
        item_id.len() == 32,
        buyer.len() == 32,
        buyer == v[0].key,
        buy_step(program_id, v, item_id, buyer, seed, deposit).0 is Ok,
        v[0].lamports + v[3].lamports <= u64::MAX,
    ensures
        ({
            let w = buy_step(program_id, v, item_id, buyer, seed, deposit).1;
            let (r, x) = cancel_step(program_id, seq![w[0], w[2], w[3]], seed);
            &&& r is Ok
            &&& x[2].lamports == 0
            &&& x[1].lamports == 0
            &&& x[0].lamports == v[0].lamports + v[3].lamports
            &&& v[3].lamports == 0 ==> x[0].lamports == v[0].lamports
        }),
{
    let w = buy_step(program_id, v, item_id, buyer, seed, deposit).1;
    let l = v[1].data;
    let o = order_bytes(
        item_id,
        buyer,
        field(l, LISTING_PAYER as int, 32),
        field(l, LISTING_PRICE as int, 8),
    );
    assert(w[2].data == o);
    assert(field(o, ORDER_ITEM_ID as int, 32) =~= item_id);
    assert(field(o, ORDER_BUYER as int, 32) =~= buyer);
    let u = seq![w[0], w[2], w[3]];
    assert(u[1].data.len() == ORDER_SIZE);
}

} // verus!
