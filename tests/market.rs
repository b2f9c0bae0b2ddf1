use p2p_market::address::{
    derive_address, holder_seed_list, listing_seed_list, order_seed_list, registry_seed_list,
    temp_seed_list,
};
use p2p_market::dispatch::{process_instruction, Env, HoldState, State};
use p2p_market::error::MarketError;
use p2p_market::layout::{read_u64, LISTING_SIZE, ORDER_SIZE, REGISTRY_SIZE};
use p2p_market::ledger::{Account, SystemCall};
use p2p_market::payload::InitData;

const PROGRAM: [u8; 32] = [7u8; 32];
const SYSTEM: [u8; 32] = [0u8; 32];
const SELLER: [u8; 32] = [1u8; 32];
const BUYER: [u8; 32] = [2u8; 32];
const START: u64 = 1_000_000;

fn env() -> Env {
    Env { listing_deposit: 500, order_deposit: 300, registry_deposit: 401, pool_deposit: 100, time: 1234 }
}

fn item() -> Vec<u8> {
    vec![5u8; 32]
}

fn listing_seed() -> Vec<u8> {
    vec![9u8; 32]
}

fn order_seed() -> Vec<u8> {
    vec![11u8; 32]
}

fn title() -> Vec<u8> {
    let mut t = vec![0u8; 128];
    t[..4].copy_from_slice(b"lamp");
    t
}

fn description() -> Vec<u8> {
    let mut d = vec![0u8; 1024];
    d[..9].copy_from_slice(b"old brass");
    d
}

fn account(key: [u8; 32], owner: [u8; 32], is_signer: bool, lamports: u64) -> Account {
    Account { key, owner, is_signer, lamports, data: Vec::new() }
}

fn address(seeds: &Vec<Vec<u8>>) -> [u8; 32] {
    derive_address(seeds, &PROGRAM).expect("a program address exists").0
}

fn listing_key() -> [u8; 32] {
    address(&listing_seed_list(&listing_seed(), &SELLER))
}

fn order_key() -> [u8; 32] {
    address(&order_seed_list(&order_seed(), &BUYER))
}

fn holder_key() -> [u8; 32] {
    address(&holder_seed_list(&item()))
}

fn temp_key() -> [u8; 32] {
    address(&temp_seed_list(&BUYER.to_vec(), &SELLER.to_vec(), &item()))
}

fn registry_key() -> [u8; 32] {
    address(&registry_seed_list(&item(), &BUYER.to_vec(), &SELLER.to_vec()))
}

fn init_ix(price: u64) -> Vec<u8> {
    let mut d = vec![0u8];
    d.extend_from_slice(&[3u8; 16]);
    d.extend_from_slice(&item());
    d.extend_from_slice(&title());
    d.extend_from_slice(&description());
    d.extend_from_slice(&price.to_le_bytes());
    d.extend_from_slice(&listing_seed());
    d
}

fn update_ix(price: u64, seed: &[u8]) -> Vec<u8> {
    let mut d = vec![1u8];
    d.extend_from_slice(&[b'n'; 128]);
    d.extend_from_slice(&[b'd'; 1024]);
    d.extend_from_slice(&price.to_le_bytes());
    d.extend_from_slice(seed);
    d
}

fn delete_ix(seed: &[u8]) -> Vec<u8> {
    let mut d = vec![2u8];
    d.extend_from_slice(seed);
    d
}

fn buy_ix(seed: &[u8]) -> Vec<u8> {
    let mut d = vec![3u8];
    d.extend_from_slice(&item());
    d.extend_from_slice(&BUYER);
    d.extend_from_slice(seed);
    d
}

fn sell_ix() -> Vec<u8> {
    let mut d = vec![4u8];
    d.extend_from_slice(&listing_seed());
    d.extend_from_slice(&order_seed());
    d
}

fn cancel_ix() -> Vec<u8> {
    let mut d = vec![5u8];
    d.extend_from_slice(&item());
    d.extend_from_slice(&order_seed());
    d
}

/// Every account of one trade, kept between instructions.
struct World {
    seller: Account,
    buyer: Account,
    listing: Account,
    order: Account,
    holder: Account,
    temp: Account,
    registry: Account,
    system: Account,
}

impl World {
    fn new() -> World {
        World {
            seller: account(SELLER, SYSTEM, true, START),
            buyer: account(BUYER, SYSTEM, true, START),
            listing: account(listing_key(), SYSTEM, true, 0),
            order: account(order_key(), SYSTEM, false, 0),
            holder: account(holder_key(), SYSTEM, false, 0),
            temp: account(temp_key(), SYSTEM, false, 0),
            registry: account(registry_key(), SYSTEM, false, 0),
            system: account(SYSTEM, SYSTEM, false, 1),
        }
    }

    fn init(&mut self, price: u64) -> Result<(), MarketError> {
        let mut accs = vec![self.seller.clone(), self.listing.clone(), self.system.clone()];
        let r = run(&mut accs, &init_ix(price));
        self.seller = accs[0].clone();
        self.listing = accs[1].clone();
        r
    }

    fn make_pools(&mut self) {
        let mut d = vec![6u8, 0u8];
        d.extend_from_slice(&item());
        let mut accs = vec![self.seller.clone(), self.holder.clone(), self.system.clone()];
        assert_eq!(run(&mut accs, &d), Ok(()));
        self.seller = accs[0].clone();
        self.holder = accs[1].clone();

        let mut d = vec![6u8, 1u8];
        d.extend_from_slice(&item());
        d.extend_from_slice(&BUYER);
        d.extend_from_slice(&SELLER);
        let mut accs = vec![self.seller.clone(), self.temp.clone(), self.system.clone()];
        assert_eq!(run(&mut accs, &d), Ok(()));
        self.seller = accs[0].clone();
        self.temp = accs[1].clone();
    }

    fn buy(&mut self) -> Result<(), MarketError> {
        let mut accs = vec![
            self.buyer.clone(),
            self.listing.clone(),
            self.order.clone(),
            self.holder.clone(),
            self.system.clone(),
        ];
        let r = run(&mut accs, &buy_ix(&order_seed()));
        self.buyer = accs[0].clone();
        self.listing = accs[1].clone();
        self.order = accs[2].clone();
        self.holder = accs[3].clone();
        r
    }

    fn cancel(&mut self) -> Result<(), MarketError> {
        let mut accs = vec![self.buyer.clone(), self.order.clone(), self.holder.clone()];
        let r = run(&mut accs, &cancel_ix());
        self.buyer = accs[0].clone();
        self.order = accs[1].clone();
        self.holder = accs[2].clone();
        r
    }

    fn sell_accounts(&self) -> Vec<Account> {
        vec![
            self.seller.clone(),
            self.buyer.clone(),
            self.order.clone(),
            self.listing.clone(),
            self.holder.clone(),
            self.system.clone(),
            self.registry.clone(),
            self.temp.clone(),
        ]
    }

    fn sell(&mut self) -> Result<(), MarketError> {
        let mut accs = self.sell_accounts();
        let r = run(&mut accs, &sell_ix());
        self.seller = accs[0].clone();
        self.buyer = accs[1].clone();
        self.order = accs[2].clone();
        self.listing = accs[3].clone();
        self.holder = accs[4].clone();
        self.registry = accs[6].clone();
        self.temp = accs[7].clone();
        r
    }
}

fn run(accs: &mut Vec<Account>, ix: &[u8]) -> Result<(), MarketError> {
    let mut calls = Vec::new();
    process_instruction(&PROGRAM, accs, ix, &env(), &mut calls)
}

fn lamports(accs: &[Account]) -> Vec<u64> {
    accs.iter().map(|a| a.lamports).collect()
}

fn datas(accs: &[Account]) -> Vec<Vec<u8>> {
    accs.iter().map(|a| a.data.clone()).collect()
}

#[test]
fn init_stores_payload_and_payer() {
    let mut w = World::new();
    assert_eq!(w.init(1000), Ok(()));
    let d = &w.listing.data;
    assert_eq!(d.len(), LISTING_SIZE);
    assert_eq!(&d[0..32], item().as_slice());
    assert_eq!(&d[32..160], title().as_slice());
    assert_eq!(&d[160..1184], description().as_slice());
    assert_eq!(read_u64(d, 1184), 1000);
    assert_eq!(&d[1192..1224], &SELLER);
    assert_eq!(w.listing.owner, PROGRAM);
    assert_eq!(w.listing.lamports, 500);
    assert_eq!(w.seller.lamports, START - 500);
}

#[test]
fn init_requires_signatures_and_address() {
    let mut w = World::new();
    w.seller.is_signer = false;
    assert_eq!(w.init(1000), Err(MarketError::InvalidArgument));

    let mut w = World::new();
    w.listing.is_signer = false;
    assert_eq!(w.init(1000), Err(MarketError::InvalidArgument));

    let mut w = World::new();
    w.listing.key = [42u8; 32];
    assert_eq!(w.init(1000), Err(MarketError::InvalidArgument));
    assert_eq!(w.seller.lamports, START);
}

#[test]
fn init_twice_fails_allocation() {
    let mut w = World::new();
    assert_eq!(w.init(1000), Ok(()));
    let before = w.listing.data.clone();
    assert_eq!(w.init(2000), Err(MarketError::AccountAlreadyInUse));
    assert_eq!(w.listing.data, before);
}

#[test]
fn init_without_funds_fails() {
    let mut w = World::new();
    w.seller.lamports = 499;
    assert_eq!(w.init(1000), Err(MarketError::InsufficientFunds));
    assert_eq!(w.seller.lamports, 499);
    assert!(w.listing.data.is_empty());
}

#[test]
fn update_rewrites_in_place() {
    let mut w = World::new();
    w.init(1000).unwrap();
    let mut accs = vec![w.seller.clone(), w.listing.clone()];
    let r = run(&mut accs, &update_ix(77, &listing_seed()));
    assert_eq!(r, Ok(()));
    let d = &accs[1].data;
    assert_eq!(&d[0..32], item().as_slice());
    assert_eq!(&d[32..160], &[b'n'; 128][..]);
    assert_eq!(&d[160..1184], &[b'd'; 1024][..]);
    assert_eq!(read_u64(d, 1184), 77);
    assert_eq!(&d[1192..1224], &SELLER);
}

#[test]
fn update_with_wrong_seed_changes_nothing() {
    let mut w = World::new();
    w.init(1000).unwrap();
    let mut accs = vec![w.seller.clone(), w.listing.clone()];
    let r = run(&mut accs, &update_ix(77, &[8u8; 32]));
    assert_eq!(r, Err(MarketError::InvalidArgument));
    assert_eq!(accs[1].data, w.listing.data);
}

#[test]
fn update_by_another_payer_fails() {
    let mut w = World::new();
    w.init(1000).unwrap();
    let mut accs = vec![w.buyer.clone(), w.listing.clone()];
    let r = run(&mut accs, &update_ix(1, &listing_seed()));
    assert_eq!(r, Err(MarketError::InvalidArgument));
    assert_eq!(accs[1].data, w.listing.data);
}

#[test]
fn update_of_foreign_record_fails() {
    let mut w = World::new();
    w.init(1000).unwrap();
    w.listing.owner = [3u8; 32];
    let mut accs = vec![w.seller.clone(), w.listing.clone()];
    let r = run(&mut accs, &update_ix(1, &listing_seed()));
    assert_eq!(r, Err(MarketError::MissingRequiredSignature));
}

#[test]
fn delete_refunds_and_zeroes() {
    let mut w = World::new();
    w.init(1000).unwrap();
    let mut accs = vec![w.seller.clone(), w.listing.clone()];
    let r = run(&mut accs, &delete_ix(&listing_seed()));
    assert_eq!(r, Ok(()));
    assert_eq!(accs[0].lamports, START);
    assert_eq!(accs[1].lamports, 0);
    assert_eq!(accs[1].data, vec![0u8; LISTING_SIZE]);
}

#[test]
fn delete_with_wrong_seed_changes_nothing() {
    let mut w = World::new();
    w.init(1000).unwrap();
    let mut accs = vec![w.seller.clone(), w.listing.clone()];
    let r = run(&mut accs, &delete_ix(&[8u8; 32]));
    assert_eq!(r, Err(MarketError::InvalidArgument));
    assert_eq!(lamports(&accs), vec![START - 500, 500]);
    assert_eq!(accs[1].data, w.listing.data);
}

#[test]
fn delete_overflow_is_an_argument_error() {
    let mut w = World::new();
    w.init(1000).unwrap();
    w.seller.lamports = u64::MAX;
    let mut accs = vec![w.seller.clone(), w.listing.clone()];
    let r = run(&mut accs, &delete_ix(&listing_seed()));
    assert_eq!(r, Err(MarketError::InvalidArgument));
    assert_eq!(accs[1].lamports, 500);
}

#[test]
fn buy_escrows_the_price() {
    let mut w = World::new();
    w.init(1000).unwrap();
    w.make_pools();
    let holder_before = w.holder.lamports;
    assert_eq!(w.buy(), Ok(()));
    assert_eq!(w.buyer.lamports, START - 300 - 1000);
    assert_eq!(w.holder.lamports, holder_before + 1000);
    assert_eq!(w.order.lamports, 300);
    let d = &w.order.data;
    assert_eq!(d.len(), ORDER_SIZE);
    assert_eq!(&d[0..32], item().as_slice());
    assert_eq!(&d[32..64], &BUYER);
    assert_eq!(&d[64..96], &SELLER);
    assert_eq!(read_u64(d, 96), 1000);
}

#[test]
fn buy_with_wrong_order_address_changes_nothing() {
    let mut w = World::new();
    w.init(1000).unwrap();
    w.make_pools();
    let mut accs = vec![
        w.buyer.clone(),
        w.listing.clone(),
        w.order.clone(),
        w.holder.clone(),
        w.system.clone(),
    ];
    let r = run(&mut accs, &buy_ix(&[8u8; 32]));
    assert_eq!(r, Err(MarketError::InvalidArgument));
    assert_eq!(lamports(&accs), vec![START, 500, 0, 100, 1]);
    assert!(accs[2].data.is_empty());
}

#[test]
fn buy_with_wrong_holder_address_changes_nothing() {
    let mut w = World::new();
    w.init(1000).unwrap();
    w.make_pools();
    w.holder.key = [44u8; 32];
    let before = w.buyer.lamports;
    assert_eq!(w.buy(), Err(MarketError::InvalidArgument));
    assert_eq!(w.buyer.lamports, before);
    assert!(w.order.data.is_empty());
}

#[test]
fn buy_without_enough_for_price_fails() {
    let mut w = World::new();
    w.init(1000).unwrap();
    w.make_pools();
    w.buyer.lamports = 1299;
    assert_eq!(w.buy(), Err(MarketError::InsufficientFunds));
    assert_eq!(w.buyer.lamports, 1299);
    assert!(w.order.data.is_empty());
}

#[test]
fn buy_needs_a_fresh_order_slot() {
    let mut w = World::new();
    w.init(1000).unwrap();
    w.make_pools();
    w.order.owner = PROGRAM;
    assert_eq!(w.buy(), Err(MarketError::AccountAlreadyInUse));
    assert!(w.order.data.is_empty());
    assert_eq!(w.buyer.lamports, START);
}

#[test]
fn buy_with_malformed_listing_fails() {
    let mut w = World::new();
    w.init(1000).unwrap();
    w.make_pools();
    w.listing.data.pop();
    assert_eq!(w.buy(), Err(MarketError::InvalidAccountData));
}

#[test]
fn cancel_returns_pool_and_order_to_buyer() {
    let mut w = World::new();
    w.init(1000).unwrap();
    w.make_pools();
    w.buy().unwrap();
    let sum = w.buyer.lamports + w.holder.lamports + w.order.lamports;
    assert_eq!(w.cancel(), Ok(()));
    assert_eq!(w.holder.lamports + w.order.lamports, 0);
    assert_eq!(w.buyer.lamports, sum);
    assert_eq!(w.order.data, vec![0u8; ORDER_SIZE]);
}

#[test]
fn buy_then_cancel_restores_buyer() {
    let mut w = World::new();
    w.init(1000).unwrap();
    w.make_pools();
    let before = w.buyer.lamports;
    let pool = w.holder.lamports;
    w.buy().unwrap();
    w.cancel().unwrap();
    assert_eq!(w.holder.lamports, 0);
    // The pool's own deposit goes to the buyer along with the refund.
    assert_eq!(w.buyer.lamports, before + pool);
}

#[test]
fn cancel_by_someone_else_fails() {
    let mut w = World::new();
    w.init(1000).unwrap();
    w.make_pools();
    w.buy().unwrap();
    let mut accs = vec![w.seller.clone(), w.order.clone(), w.holder.clone()];
    let r = run(&mut accs, &cancel_ix());
    assert_eq!(r, Err(MarketError::InvalidArgument));
    assert_eq!(lamports(&accs), vec![w.seller.lamports, 300, 1100]);
}

#[test]
fn cancel_of_malformed_order_fails() {
    let mut w = World::new();
    w.order.owner = PROGRAM;
    w.order.data = vec![0u8; 10];
    assert_eq!(w.cancel(), Err(MarketError::InvalidAccountData));
}

#[test]
fn full_trade_settles() {
    let mut w = World::new();
    assert_eq!(w.init(1000), Ok(()));
    w.make_pools();
    let seller0 = w.seller.lamports;
    let buyer0 = w.buyer.lamports;
    assert_eq!(w.buy(), Ok(()));
    assert_eq!(w.buyer.lamports, buyer0 - 300 - 1000);
    assert_eq!(w.holder.lamports, 1100);
    assert_eq!(read_u64(&w.order.data, 96), 1000);
    let temp0 = w.temp.lamports;

    assert_eq!(w.sell(), Ok(()));
    let split = 401 / 2 + 1;
    assert_eq!(w.holder.lamports, 0);
    assert_eq!(w.order.lamports, 0);
    assert_eq!(w.order.data, vec![0u8; ORDER_SIZE]);
    assert_eq!(w.seller.lamports, seller0 - split + 1100);
    assert_eq!(w.buyer.lamports, buyer0 - 1000 - split);
    assert_eq!(w.temp.lamports, temp0 + 2 * split - 401);
    assert_eq!(w.registry.lamports, 401);
    assert_eq!(w.registry.owner, PROGRAM);
    let d = &w.registry.data;
    assert_eq!(d.len(), REGISTRY_SIZE);
    assert_eq!(&d[0..32], item().as_slice());
    assert_eq!(&d[32..64], &BUYER);
    assert_eq!(&d[64..96], &SELLER);
    assert_eq!(read_u64(d, 96), 1000);
    assert_eq!(&d[104..232], title().as_slice());
    assert_eq!(&d[232..1256], description().as_slice());
    assert_eq!(read_u64(d, 1256), 1234);
}

#[test]
fn second_sell_does_not_overwrite_registry() {
    let mut w = World::new();
    w.init(1000).unwrap();
    w.make_pools();
    w.buy().unwrap();
    w.sell().unwrap();
    let registry = w.registry.data.clone();
    // A fresh order for the same trade, as if bought again.
    w.order = account(order_key(), SYSTEM, false, 0);
    w.buy().unwrap();
    let mut accs = w.sell_accounts();
    let before = lamports(&accs);
    let r = run(&mut accs, &sell_ix());
    assert_eq!(r, Err(MarketError::AccountAlreadyInUse));
    assert_eq!(accs[6].data, registry);
    assert_eq!(lamports(&accs), before);
    assert_eq!(datas(&accs)[2], w.order.data);
}

#[test]
fn sell_by_buyer_alone_is_accepted() {
    let mut w = World::new();
    w.init(1000).unwrap();
    w.make_pools();
    w.buy().unwrap();
    w.seller.is_signer = false;
    assert_eq!(w.sell(), Ok(()));
}

#[test]
fn sell_without_any_signer_fails() {
    let mut w = World::new();
    w.init(1000).unwrap();
    w.make_pools();
    w.buy().unwrap();
    w.seller.is_signer = false;
    w.buyer.is_signer = false;
    assert_eq!(w.sell(), Err(MarketError::InvalidArgument));
    assert_eq!(w.holder.lamports, 1100);
}

#[test]
fn sell_with_wrong_registry_address_fails() {
    let mut w = World::new();
    w.init(1000).unwrap();
    w.make_pools();
    w.buy().unwrap();
    w.registry.key = [45u8; 32];
    assert_eq!(w.sell(), Err(MarketError::InvalidArgument));
    assert!(w.registry.data.is_empty());
}

#[test]
fn sell_with_wrong_temp_address_fails() {
    let mut w = World::new();
    w.init(1000).unwrap();
    w.make_pools();
    w.buy().unwrap();
    w.temp.key = [46u8; 32];
    assert_eq!(w.sell(), Err(MarketError::InvalidArgument));
}

#[test]
fn sell_with_foreign_pool_fails() {
    let mut w = World::new();
    w.init(1000).unwrap();
    w.make_pools();
    w.buy().unwrap();
    w.holder.owner = SYSTEM;
    assert_eq!(w.sell(), Err(MarketError::MissingRequiredSignature));
}

#[test]
fn sell_with_too_few_accounts_fails() {
    let w = World::new();
    let mut accs = w.sell_accounts();
    accs.pop();
    let r = run(&mut accs, &sell_ix());
    assert_eq!(r, Err(MarketError::NotEnoughAccountKeys));
}

#[test]
fn info_account_preallocates_registry() {
    let w = World::new();
    let mut d = vec![6u8, 2u8];
    d.extend_from_slice(&item());
    let mut accs = vec![w.seller.clone(), w.buyer.clone(), w.registry.clone(), w.system.clone()];
    assert_eq!(run(&mut accs, &d), Ok(()));
    assert_eq!(accs[2].data, vec![0u8; REGISTRY_SIZE]);
    assert_eq!(accs[2].lamports, 401);
    assert_eq!(accs[1].lamports, START - 401);
}

#[test]
fn pool_bootstrap_checks_address() {
    let w = World::new();
    let mut d = vec![6u8, 0u8];
    d.extend_from_slice(&[6u8; 32]);
    let mut accs = vec![w.seller.clone(), w.holder.clone(), w.system.clone()];
    let r = run(&mut accs, &d);
    assert_eq!(r, Err(MarketError::InvalidArgument));
    assert_eq!(lamports(&accs), vec![START, 0, 1]);
}

#[test]
fn pool_bootstrap_needs_signer() {
    let mut w = World::new();
    w.seller.is_signer = false;
    let mut d = vec![6u8, 0u8];
    d.extend_from_slice(&item());
    let mut accs = vec![w.seller.clone(), w.holder.clone(), w.system.clone()];
    let r = run(&mut accs, &d);
    assert_eq!(r, Err(MarketError::InvalidArgument));
}

#[test]
fn pool_bootstrap_allocates_empty_record() {
    let mut w = World::new();
    w.make_pools();
    assert_eq!(w.holder.lamports, 100);
    assert!(w.holder.data.is_empty());
    assert_eq!(w.holder.owner, PROGRAM);
    assert_eq!(w.temp.lamports, 100);
    assert_eq!(w.seller.lamports, START - 200);
}

#[test]
fn dispatch_rejects_bad_shapes() {
    let w = World::new();
    let mut accs = vec![w.seller.clone(), w.listing.clone(), w.system.clone()];
    assert_eq!(run(&mut accs, &[]), Err(MarketError::InvalidInstructionData));
    assert_eq!(run(&mut accs, &[7u8]), Err(MarketError::InvalidInstructionData));
    let mut short = init_ix(1000);
    short.pop();
    assert_eq!(run(&mut accs, &short), Err(MarketError::InvalidInstructionData));
    let mut long = init_ix(1000);
    long.push(0);
    assert_eq!(run(&mut accs, &long), Err(MarketError::InvalidInstructionData));
    assert_eq!(run(&mut accs, &[4u8; 10]), Err(MarketError::InvalidInstructionData));
    assert_eq!(run(&mut accs, &[5u8; 3]), Err(MarketError::InvalidInstructionData));
    assert_eq!(lamports(&accs), vec![START, 0, 1]);
}

#[test]
fn dispatch_rejects_bad_bootstrap_shapes() {
    let w = World::new();
    let mut accs = vec![w.seller.clone(), w.holder.clone(), w.system.clone()];
    assert_eq!(run(&mut accs, &[6u8]), Err(MarketError::InvalidInstructionData));
    assert_eq!(run(&mut accs, &[6u8, 3u8]), Err(MarketError::InvalidInstructionData));
    assert_eq!(run(&mut accs, &[6u8, 0u8, 1u8]), Err(MarketError::InvalidArgument));
    assert_eq!(run(&mut accs, &[6u8, 1u8, 1u8]), Err(MarketError::InvalidArgument));
    assert_eq!(run(&mut accs, &[6u8, 2u8, 1u8]), Err(MarketError::InvalidArgument));
}

#[test]
fn opcodes_decode() {
    assert_eq!(State::from_u8(0), Ok(State(0)));
    assert_eq!(State::from_u8(6), Ok(State(6)));
    assert_eq!(State::from_u8(7), Err(MarketError::InvalidInstructionData));
    assert_eq!(HoldState::from_u8(2), Ok(HoldState(2)));
    assert_eq!(HoldState::from_u8(3), Err(MarketError::InvalidInstructionData));
}

#[test]
fn init_payload_decodes_by_offset() {
    let ix = init_ix(0x0102030405060708);
    let d = InitData::decode(&ix[1..]);
    assert_eq!(d.uuid, vec![3u8; 16]);
    assert_eq!(d.item_id, item());
    assert_eq!(d.title, title());
    assert_eq!(d.description, description());
    assert_eq!(d.price, 0x0102030405060708);
    assert_eq!(d.seed, listing_seed());
}

#[test]
fn read_u64_is_little_endian() {
    let b = [1u8, 0, 0, 0, 0, 0, 0, 0, 0xff, 0, 0, 0, 0, 0, 0, 0x80];
    assert_eq!(read_u64(&b, 0), 1);
    assert_eq!(read_u64(&b, 8), 0x8000_0000_0000_00ff);
}

#[test]
fn derived_addresses_depend_on_every_seed() {
    let a = derive_address(&listing_seed_list(&listing_seed(), &SELLER), &PROGRAM).unwrap();
    let b = derive_address(&listing_seed_list(&listing_seed(), &SELLER), &PROGRAM).unwrap();
    let c = derive_address(&listing_seed_list(&listing_seed(), &BUYER), &PROGRAM).unwrap();
    let d = derive_address(&order_seed_list(&listing_seed(), &SELLER), &PROGRAM).unwrap();
    assert_eq!(a, b);
    assert_ne!(a.0, c.0);
    assert_ne!(a.0, d.0);
    assert_ne!(a.0, SELLER);
    assert_ne!(a.0, PROGRAM);
}

#[test]
fn too_many_seeds_find_no_address() {
    let seeds: Vec<Vec<u8>> = (0..17).map(|i| vec![i as u8]).collect();
    assert_eq!(derive_address(&seeds, &PROGRAM), None);
    let long = vec![vec![0u8; 33]];
    assert_eq!(derive_address(&long, &PROGRAM), None);
}

#[test]
fn buy_requests_allocation_then_transfer() {
    let mut w = World::new();
    w.init(1000).unwrap();
    w.make_pools();
    let mut accs = vec![
        w.buyer.clone(),
        w.listing.clone(),
        w.order.clone(),
        w.holder.clone(),
        w.system.clone(),
    ];
    let mut calls = Vec::new();
    let r = process_instruction(&PROGRAM, &mut accs, &buy_ix(&order_seed()), &env(), &mut calls);
    assert_eq!(r, Ok(()));
    assert_eq!(calls.len(), 2);
    let seeds = order_seed_list(&order_seed(), &BUYER);
    let (key, bump) = derive_address(&seeds, &PROGRAM).unwrap();
    assert_eq!(key, order_key());
    match &calls[0] {
        SystemCall::CreateAccount { payer, target, lamports, space, signer_seeds } => {
            assert_eq!((*payer, *target, *lamports, *space), (0, 2, 300, ORDER_SIZE as u64));
            let mut expected = seeds.clone();
            expected.push(vec![bump]);
            assert_eq!(signer_seeds, &expected);
        }
        _ => panic!("allocation expected first"),
    }
    match &calls[1] {
        SystemCall::Transfer { from, to, lamports } => assert_eq!((*from, *to, *lamports), (0, 3, 1000)),
        _ => panic!("transfer expected second"),
    }
}

#[test]
fn failed_instruction_requests_nothing() {
    let mut w = World::new();
    w.seller.is_signer = false;
    let mut accs = vec![w.seller.clone(), w.listing.clone(), w.system.clone()];
    let mut calls = Vec::new();
    let r = process_instruction(&PROGRAM, &mut accs, &init_ix(5), &env(), &mut calls);
    assert_eq!(r, Err(MarketError::InvalidArgument));
    assert!(calls.is_empty());
}

#[test]
fn sell_requests_fee_shares_then_registry() {
    let mut w = World::new();
    w.init(1000).unwrap();
    w.make_pools();
    w.buy().unwrap();
    let mut accs = w.sell_accounts();
    let mut calls = Vec::new();
    assert_eq!(process_instruction(&PROGRAM, &mut accs, &sell_ix(), &env(), &mut calls), Ok(()));
    assert_eq!(calls.len(), 3);
    let split = 401 / 2 + 1;
    match (&calls[0], &calls[1], &calls[2]) {
        (
            SystemCall::Transfer { from: 0, to: 7, lamports: a },
            SystemCall::Transfer { from: 1, to: 7, lamports: b },
            SystemCall::CreateAccount { payer: 7, target: 6, lamports: c, space, .. },
        ) => {
            assert_eq!((*a, *b, *c, *space), (split, split, 401, REGISTRY_SIZE as u64));
        }
        _ => panic!("unexpected requests"),
    }
}

#[test]
fn buy_then_cancel_restores_buyer_with_empty_pool() {
    let mut w = World::new();
    w.init(1000).unwrap();
    w.make_pools();
    w.holder.lamports = 0;
    let before = w.buyer.lamports;
    w.buy().unwrap();
    assert_eq!(w.buyer.lamports, before - 1300);
    w.cancel().unwrap();
    assert_eq!(w.buyer.lamports, before);
    assert_eq!(w.holder.lamports, 0);
    assert_eq!(w.order.lamports, 0);
}

#[test]
fn init_into_foreign_slot_fails_allocation() {
    let mut w = World::new();
    w.listing.owner = PROGRAM;
    assert_eq!(w.init(1000), Err(MarketError::AccountAlreadyInUse));
    assert_eq!(w.seller.lamports, START);
}

#[test]
fn buy_copies_payload_buyer() {
    let mut w = World::new();
    w.init(1000).unwrap();
    w.make_pools();
    let mut ix = buy_ix(&order_seed());
    ix[33..65].copy_from_slice(&SELLER);
    let mut accs = vec![
        w.buyer.clone(),
        w.listing.clone(),
        w.order.clone(),
        w.holder.clone(),
        w.system.clone(),
    ];
    assert_eq!(run(&mut accs, &ix), Ok(()));
    assert_eq!(lamports(&accs), vec![START - 1300, 500, 300, 1100, 1]);
    assert_eq!(&accs[2].data[32..64], &SELLER);
    // The order names another buyer, so the signing buyer cannot cancel it.
    w.buyer = accs[0].clone();
    w.order = accs[2].clone();
    w.holder = accs[3].clone();
    assert_eq!(w.cancel(), Err(MarketError::InvalidArgument));
}

#[test]
fn buy_against_foreign_listing_fails() {
    let mut w = World::new();
    w.init(1000).unwrap();
    w.make_pools();
    w.listing.owner = [3u8; 32];
    assert_eq!(w.buy(), Err(MarketError::MissingRequiredSignature));
    assert_eq!(w.buyer.lamports, START);
}

#[test]
fn cancel_with_wrong_seed_changes_nothing() {
    let mut w = World::new();
    w.init(1000).unwrap();
    w.make_pools();
    w.buy().unwrap();
    let mut ix = cancel_ix();
    ix[33..65].copy_from_slice(&[8u8; 32]);
    let mut accs = vec![w.buyer.clone(), w.order.clone(), w.holder.clone()];
    assert_eq!(run(&mut accs, &ix), Err(MarketError::InvalidArgument));
    assert_eq!(lamports(&accs), vec![w.buyer.lamports, 300, 1100]);
    assert_eq!(accs[1].data, w.order.data);
}

#[test]
fn cancel_of_foreign_order_fails() {
    let mut w = World::new();
    w.init(1000).unwrap();
    w.make_pools();
    w.buy().unwrap();
    w.order.owner = [3u8; 32];
    assert_eq!(w.cancel(), Err(MarketError::MissingRequiredSignature));
    assert_eq!(w.holder.lamports, 1100);
}
