//! Instruction payloads, decoded field by field from their fixed layouts.
use vstd::prelude::*;
use crate::layout::{
    copy_range, field, read_u64, u64_at, BUY_SIZE, CANCEL_SIZE, DELETE_SIZE, INFO_SIZE, INIT_SIZE,
    MONEY_HOLDER_SIZE, SELL_SIZE, TEMP_HOLDER_SIZE, UPDATE_SIZE,
};

verus! {

/// Creates a listing.
pub struct InitData {
    pub uuid: Vec<u8>,
    pub item_id: Vec<u8>,
    pub title: Vec<u8>,
    pub description: Vec<u8>,
    pub price: u64,
    pub seed: Vec<u8>,
}

/// Rewrites a listing's title, description and price.
pub struct UpdateData {
    pub title: Vec<u8>,
    pub description: Vec<u8>,
    pub price: u64,
    pub seed: Vec<u8>,
}

/// Deletes a listing.
pub struct DeleteData {
    pub seed: Vec<u8>,
}

/// Opens an escrow order.
pub struct BuyInit {
    pub item_id: Vec<u8>,
    pub buyer: Vec<u8>,
    pub seed: Vec<u8>,
}

/// Settles an escrow order.
pub struct SellData {
    pub seed_post: Vec<u8>,
    pub seed_buy: Vec<u8>,
}

/// Cancels an escrow order.
pub struct CancelBuy {
    pub item_id: Vec<u8>,
    pub seed: Vec<u8>,
}

/// Creates the per-item pool; `title` is the item id.
pub struct MoneyHolder {
    pub title: Vec<u8>,
}

/// Creates the per-trade fee pool; `title` is the item id.
pub struct TempMoneyHolder {
    pub title: Vec<u8>,
    pub buyer: Vec<u8>,
    pub seller: Vec<u8>,
}

/// Pre-allocates a registry record; `title` is the item id.
pub struct Info {
    pub title: Vec<u8>,
}

impl InitData {
    pub open spec fn decodes(self, b: Seq<u8>) -> bool {
        &&& self.uuid@ == field(b, 0, 16)
        &&& self.item_id@ == field(b, 16, 32)
        &&& self.title@ == field(b, 48, 128)
        &&& self.description@ == field(b, 176, 1024)
        &&& self.price == u64_at(b, 1200)
        &&& self.seed@ == field(b, 1208, 32)
    }

    pub fn decode(b: &[u8]) -> (r: Self)
        requires
            b@.len() == INIT_SIZE,
        ensures
            r.decodes(b@),
    {
        InitData {
            uuid: copy_range(b, 0, 16),
            item_id: copy_range(b, 16, 48),
            title: copy_range(b, 48, 176),
            description: copy_range(b, 176, 1200),
            price: read_u64(b, 1200),
            seed: copy_range(b, 1208, 1240),
        }
    }
}

impl UpdateData {
    pub open spec fn decodes(self, b: Seq<u8>) -> bool {
        &&& self.title@ == field(b, 0, 128)
        &&& self.description@ == field(b, 128, 1024)
        &&& self.price == u64_at(b, 1152)
        &&& self.seed@ == field(b, 1160, 32)
    }

    pub fn decode(b: &[u8]) -> (r: Self)
        requires
            b@.len() == UPDATE_SIZE,
        ensures
            r.decodes(b@),
    {
        UpdateData {
            title: copy_range(b, 0, 128),
            description: copy_range(b, 128, 1152),
            price: read_u64(b, 1152),
            seed: copy_range(b, 1160, 1192),
        }
    }
}

impl DeleteData {
    pub open spec fn decodes(self, b: Seq<u8>) -> bool {
        self.seed@ == field(b, 0, 32)
    }

    pub fn decode(b: &[u8]) -> (r: Self)
        requires
            b@.len() == DELETE_SIZE,
        ensures
            r.decodes(b@),
    {
        DeleteData { seed: copy_range(b, 0, 32) }
    }
}

impl BuyInit {
    pub open spec fn decodes(self, b: Seq<u8>) -> bool {
        &&& self.item_id@ == field(b, 0, 32)
        &&& self.buyer@ == field(b, 32, 32)
        &&& self.seed@ == field(b, 64, 32)
    }

    pub fn decode(b: &[u8]) -> (r: Self)
        requires
            b@.len() == BUY_SIZE,
        ensures
            r.decodes(b@),
    {
        BuyInit {
            item_id: copy_range(b, 0, 32),
            buyer: copy_range(b, 32, 64),
            seed: copy_range(b, 64, 96),
        }
    }
}

impl SellData {
    pub open spec fn decodes(self, b: Seq<u8>) -> bool {
        &&& self.seed_post@ == field(b, 0, 32)
        &&& self.seed_buy@ == field(b, 32, 32)
    }

    pub fn decode(b: &[u8]) -> (r: Self)
        requires
            b@.len() == SELL_SIZE,
        ensures
            r.decodes(b@),
    {
        SellData { seed_post: copy_range(b, 0, 32), seed_buy: copy_range(b, 32, 64) }
    }
}

impl CancelBuy {
    pub open spec fn decodes(self, b: Seq<u8>) -> bool {
        &&& self.item_id@ == field(b, 0, 32)
        &&& self.seed@ == field(b, 32, 32)
    }

    pub fn decode(b: &[u8]) -> (r: Self)
        requires
            b@.len() == CANCEL_SIZE,
        ensures
            r.decodes(b@),
    {
        CancelBuy { item_id: copy_range(b, 0, 32), seed: copy_range(b, 32, 64) }
    }
}

impl MoneyHolder {
    pub open spec fn decodes(self, b: Seq<u8>) -> bool {
        self.title@ == field(b, 0, 32)
    }

    pub fn decode(b: &[u8]) -> (r: Self)
        requires
            b@.len() == MONEY_HOLDER_SIZE,
        ensures
            r.decodes(b@),
    {
        MoneyHolder { title: copy_range(b, 0, 32) }
    }
}

impl TempMoneyHolder {
    pub open spec fn decodes(self, b: Seq<u8>) -> bool {
        &&& self.title@ == field(b, 0, 32)
        &&& self.buyer@ == field(b, 32, 32)
        &&& self.seller@ == field(b, 64, 32)
    }

    pub fn decode(b: &[u8]) -> (r: Self)
        requires
            b@.len() == TEMP_HOLDER_SIZE,
        ensures
            r.decodes(b@),
    {
        TempMoneyHolder {
            title: copy_range(b, 0, 32),
            buyer: copy_range(b, 32, 64),
            seller: copy_range(b, 64, 96),
        }
    }
}

impl Info {
    pub open spec fn decodes(self, b: Seq<u8>) -> bool {
        self.title@ == field(b, 0, 32)
    }

    pub fn decode(b: &[u8]) -> (r: Self)
        requires
            b@.len() == INFO_SIZE,
        ensures
            r.decodes(b@),
    {
        Info { title: copy_range(b, 0, 32) }
    }
}

} // verus!
