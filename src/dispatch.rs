//! Instruction decoding and routing: an opcode byte, then a fixed-size payload.
use vstd::prelude::*;
use vstd::slice::slice_subrange;
use crate::error::MarketError;
use crate::escrow::{buy_calls, buy_item, buy_step, cancel_buy, cancel_step};
use crate::holder::{
    allocation_calls, info_account, info_step, money_holder, money_holder_step, temp_holder_step,
    temp_money_holder,
};
use crate::address::{holder_seeds, registry_seeds, signer_seeds, temp_seeds};
use crate::layout::{
    field, u64_at, REGISTRY_SIZE, BUY_SIZE, CANCEL_SIZE, DELETE_SIZE, INFO_SIZE, INIT_SIZE, MONEY_HOLDER_SIZE,
    SELL_SIZE, TEMP_HOLDER_SIZE, UPDATE_SIZE,
};
use crate::ledger::{call_views, views, Account, AccountView, CallView, SystemCall};
use crate::listing::{
    delete_account_data, delete_step, init_calls, init_step, process_init, update_account_data,
    update_step,
};
use crate::payload::{
    BuyInit, CancelBuy, DeleteData, Info, InitData, MoneyHolder, SellData, TempMoneyHolder,
    UpdateData,
};
use crate::settle::{sell_calls, sell_item, sell_step};

verus! {

pub const INIT: u8 = 0;
pub const UPDATE: u8 = 1;
pub const DELETE: u8 = 2;
pub const BUY: u8 = 3;
pub const SELL: u8 = 4;
pub const CANCEL: u8 = 5;
pub const HOLD_ACCOUNT: u8 = 6;

pub const MONEY_HOLDER: u8 = 0;
pub const TEMP_MONEY_HOLDER: u8 = 1;
pub const BUY_INFO_HOLDER: u8 = 2;

/// A recognised opcode.
#[derive(Clone, Copy, Debug, PartialEq, Eq, Structural)]
pub struct State(pub u8);

impl State {
    pub fn from_u8(value: u8) -> (r: Result<State, MarketError>)
        ensures
            r is Ok <==> value <= HOLD_ACCOUNT,
            r matches Ok(s) ==> s.0 == value,
            r is Err ==> r == Err::<State, MarketError>(MarketError::InvalidInstructionData),
    {
        if value <= HOLD_ACCOUNT {
            Ok(State(value))
        } else {
            Err(MarketError::InvalidInstructionData)
        }
    }
}

/// A recognised kind of record to bootstrap.
#[derive(Clone, Copy, Debug, PartialEq, Eq, Structural)]
pub struct HoldState(pub u8);

impl HoldState {
    pub fn from_u8(value: u8) -> (r: Result<HoldState, MarketError>)
        ensures
            r is Ok <==> value <= BUY_INFO_HOLDER,
            r matches Ok(s) ==> s.0 == value,
            r is Err ==> r == Err::<HoldState, MarketError>(MarketError::InvalidInstructionData),
    {
        if value <= BUY_INFO_HOLDER {
            Ok(HoldState(value))
        } else {
            Err(MarketError::InvalidInstructionData)
        }
    }
}

/// What the surrounding runtime supplies to an instruction: the storage
/// deposit of each kind of record, and the settlement time.
pub struct Env {
    pub listing_deposit: u64,
    pub order_deposit: u64,
    pub registry_deposit: u64,
    pub pool_deposit: u64,
    pub time: u64,
}

/// What the bootstrap instruction does, given the bytes after its opcode.
pub open spec fn hold_step(program_id: Seq<u8>, v: Seq<AccountView>, p: Seq<u8>, env: Env) -> (Result<
    (),
    MarketError,
>, Seq<AccountView>) {
    if p.len() < 1 {
        (Err(MarketError::InvalidInstructionData), v)
    } else {
        let q = p.subrange(1, p.len() as int);
        if p[0] == MONEY_HOLDER {
            if q.len() != MONEY_HOLDER_SIZE {
                (Err(MarketError::InvalidArgument), v)
            } else {
                money_holder_step(program_id, v, field(q, 0, 32), env.pool_deposit)
            }
        } else if p[0] == TEMP_MONEY_HOLDER {
            if q.len() != TEMP_HOLDER_SIZE {
                (Err(MarketError::InvalidArgument), v)
            } else {
                temp_holder_step(
                    program_id,
                    v,
                    field(q, 0, 32),
                    field(q, 32, 32),
                    field(q, 64, 32),
                    env.pool_deposit,
                )
            }
        } else if p[0] == BUY_INFO_HOLDER {
            if q.len() != INFO_SIZE {
                (Err(MarketError::InvalidArgument), v)
            } else {
                info_step(program_id, v, field(q, 0, 32), env.registry_deposit)
            }
        } else {
            (Err(MarketError::InvalidInstructionData), v)
        }
    }
}

/// The system program requests of a successful bootstrap instruction.
pub open spec fn hold_calls(program_id: Seq<u8>, v: Seq<AccountView>, p: Seq<u8>, env: Env) -> Seq<
    CallView,
> {
    let q = p.subrange(1, p.len() as int);
    if p[0] == MONEY_HOLDER {
        allocation_calls(0, 1, env.pool_deposit, 0, signer_seeds(holder_seeds(field(q, 0, 32)), program_id))
    } else if p[0] == TEMP_MONEY_HOLDER {
        allocation_calls(
            0,
            1,
            env.pool_deposit,
            0,
            signer_seeds(temp_seeds(field(q, 32, 32), field(q, 64, 32), field(q, 0, 32)), program_id),
        )
    } else {
        allocation_calls(
            1,
            2,
            env.registry_deposit,
            REGISTRY_SIZE as nat,
            signer_seeds(registry_seeds(field(q, 0, 32), v[1].key, v[0].key), program_id),
        )
    }
}

/// The system program requests of a successful instruction.
pub open spec fn instruction_calls(program_id: Seq<u8>, v: Seq<AccountView>, d: Seq<u8>, env: Env) -> Seq<
    CallView,
> {
    let p = d.subrange(1, d.len() as int);
    if d[0] == INIT {
        init_calls(program_id, v, field(p, 1208, 32), env.listing_deposit)
    } else if d[0] == BUY {
        buy_calls(program_id, v, field(p, 64, 32), env.order_deposit)
    } else if d[0] == SELL {
        sell_calls(program_id, v, env.registry_deposit)
    } else if d[0] == HOLD_ACCOUNT {
        hold_calls(program_id, v, p, env)
    } else {
        Seq::empty()
    }
}

/// What an instruction does to the accounts.
pub open spec fn instruction_step(program_id: Seq<u8>, v: Seq<AccountView>, d: Seq<u8>, env: Env) -> (
    Result<(), MarketError>,
    Seq<AccountView>,
) {
    if d.len() == 0 {
        (Err(MarketError::InvalidInstructionData), v)
    } else {
        let op = d[0];
        let p = d.subrange(1, d.len() as int);
        if op == INIT {
            if p.len() != INIT_SIZE {
                (Err(MarketError::InvalidInstructionData), v)
            } else {
                init_step(
                    program_id,
                    v,
                    field(p, 16, 32),
                    field(p, 48, 128),
                    field(p, 176, 1024),
                    u64_at(p, 1200),
                    field(p, 1208, 32),
                    env.listing_deposit,
                )
            }
        } else if op == UPDATE {
            if p.len() != UPDATE_SIZE {
                (Err(MarketError::InvalidInstructionData), v)
            } else {
                update_step(
                    program_id,
                    v,
                    field(p, 0, 128),
                    field(p, 128, 1024),
                    u64_at(p, 1152),
                    field(p, 1160, 32),
                )
            }
        } else if op == DELETE {
            if p.len() != DELETE_SIZE {
                (Err(MarketError::InvalidInstructionData), v)
            } else {
                delete_step(program_id, v, field(p, 0, 32))
            }
        } else if op == BUY {
            if p.len() != BUY_SIZE {
                (Err(MarketError::InvalidInstructionData), v)
            } else {
                buy_step(
                    program_id,
                    v,
                    field(p, 0, 32),
                    field(p, 32, 32),
                    field(p, 64, 32),
                    env.order_deposit,
                )
            }
        } else if op == SELL {
            if p.len() != SELL_SIZE {
                (Err(MarketError::InvalidInstructionData), v)
            } else {
                sell_step(
                    program_id,
                    v,
                    field(p, 0, 32),
                    field(p, 32, 32),
                    env.registry_deposit,
                    env.time,
                )
            }
        } else if op == CANCEL {
            if p.len() != CANCEL_SIZE {
                (Err(MarketError::InvalidInstructionData), v)
            } else {
                cancel_step(program_id, v, field(p, 32, 32))
            }
        } else if op == HOLD_ACCOUNT {
            hold_step(program_id, v, p, env)
        } else {
            (Err(MarketError::InvalidInstructionData), v)
        }
    }
}

/// Runs the bootstrap instruction on the bytes after its opcode.
fn process_hold(
    program_id: &[u8; 32],
    accounts: &mut Vec<Account>,
    p: &[u8],
    env: &Env,
    calls: &mut Vec<SystemCall>,
) -> (r: Result<(), MarketError>)
    ensures
        (r, views(final(accounts)@)) == hold_step(program_id@, views(old(accounts)@), p@, *env),
        r is Err ==> final(accounts)@ == old(accounts)@,
        r is Err ==> final(calls)@ == old(calls)@,
        r is Ok ==> call_views(final(calls)@) == call_views(old(calls)@) + hold_calls(
            program_id@,
            views(old(accounts)@),
            p@,
            *env,
        ),
{
    if p.len() < 1 {
        return Err(MarketError::InvalidInstructionData);
    }
    let kind = HoldState::from_u8(p[0])?;
    let q = slice_subrange(p, 1, p.len());
    if kind.0 == MONEY_HOLDER {
        if q.len() != MONEY_HOLDER_SIZE {
            return Err(MarketError::InvalidArgument);
        }
        let data = MoneyHolder::decode(q);
        money_holder(program_id, accounts, &data, env.pool_deposit, calls)
    } else if kind.0 == TEMP_MONEY_HOLDER {
        if q.len() != TEMP_HOLDER_SIZE {
            return Err(MarketError::InvalidArgument);
        }
        let data = TempMoneyHolder::decode(q);
        temp_money_holder(program_id, accounts, &data, env.pool_deposit, calls)
    } else {
        if q.len() != INFO_SIZE {
            return Err(MarketError::InvalidArgument);
        }
        let data = Info::decode(q);
        info_account(program_id, accounts, &data, env.registry_deposit, calls)
    }
}

/// Decodes an instruction and runs its handler. Nothing runs unless the
/// opcode is known and the payload has exactly the size its layout gives.
pub fn process_instruction(
    program_id: &[u8; 32],
    accounts: &mut Vec<Account>,
    instruction_data: &[u8],
    env: &Env,
    calls: &mut Vec<SystemCall>,
) -> (r: Result<(), MarketError>)
    ensures
        (r, views(final(accounts)@)) == instruction_step(
            program_id@,
            views(old(accounts)@),
            instruction_data@,
            *env,
        ),
        r is Err ==> final(accounts)@ == old(accounts)@,
        r is Err ==> final(calls)@ == old(calls)@,
        r is Ok ==> call_views(final(calls)@) == call_views(old(calls)@) + instruction_calls(
            program_id@,
            views(old(accounts)@),
            instruction_data@,
            *env,
        ),
{
    if instruction_data.len() == 0 {
        return Err(MarketError::InvalidInstructionData);
    }
    let op = State::from_u8(instruction_data[0])?;
    let p = slice_subrange(instruction_data, 1, instruction_data.len());
    if op.0 == INIT {
        if p.len() != INIT_SIZE {
            return Err(MarketError::InvalidInstructionData);
        }
        let data = InitData::decode(p);
        process_init(program_id, accounts, &data, env.listing_deposit, calls)
    } else if op.0 == UPDATE {
        if p.len() != UPDATE_SIZE {
            return Err(MarketError::InvalidInstructionData);
        }
        let data = UpdateData::decode(p);
        let r = update_account_data(program_id, accounts, &data);
        assert(call_views(calls@) =~= call_views(old(calls)@) + Seq::<CallView>::empty());
        r
    } else if op.0 == DELETE {
        if p.len() != DELETE_SIZE {
            return Err(MarketError::InvalidInstructionData);
        }
        let data = DeleteData::decode(p);
        let r = delete_account_data(program_id, accounts, &data);
        assert(call_views(calls@) =~= call_views(old(calls)@) + Seq::<CallView>::empty());
        r
    } else if op.0 == BUY {
        if p.len() != BUY_SIZE {
            return Err(MarketError::InvalidInstructionData);
        }
        let data = BuyInit::decode(p);
        buy_item(program_id, accounts, &data, env.order_deposit, calls)
    } else if op.0 == SELL {
        if p.len() != SELL_SIZE {
            return Err(MarketError::InvalidInstructionData);
        }
        let data = SellData::decode(p);
        sell_item(program_id, accounts, &data, env.registry_deposit, env.time, calls)
    } else if op.0 == CANCEL {
        if p.len() != CANCEL_SIZE {
            return Err(MarketError::InvalidInstructionData);
        }
        let data = CancelBuy::decode(p);
        let r = cancel_buy(program_id, accounts, &data);
        assert(call_views(calls@) =~= call_views(old(calls)@) + Seq::<CallView>::empty());
        r
    } else {
        process_hold(program_id, accounts, p, env, calls)
    }
}

} // verus!
