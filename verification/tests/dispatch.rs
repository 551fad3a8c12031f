//! End to end through the dispatcher: payloads built by the builders,
//! decoded once at the boundary and routed to the right transition.

use yoyo_bet::error::BetError;
use yoyo_bet::ids::AccountId;
use yoyo_bet::instruction::{accept_bet, create_bet, init_betting_market};
use yoyo_bet::ledger::{Account, AccountData, Env, Ledger, Rent};
use yoyo_bet::processor::process_instruction;
use yoyo_bet::state::{
    CancelCondition, Direction, OraclePrice, OracleProduct, ORACLE_MAGIC, ORACLE_PRODUCT_KIND,
    ORACLE_VERSION,
};

fn id(n: u64) -> AccountId {
    AccountId::new(n, 0, 0, 0)
}

fn env() -> Env {
    Env {
        program_id: id(1),
        system_program_id: id(2),
        token_program_id: id(3),
        rent_sysvar_id: id(4),
        clock_sysvar_id: id(5),
    }
}

fn rent() -> Rent {
    Rent { lamports_per_byte: 1 }
}

fn wallet(lamports: u64) -> Account {
    Account { owner: id(2), lamports, data: AccountData::Empty { size: 0 } }
}

fn fresh_ledger() -> Ledger {
    let mut l = Ledger::new();
    l.put(id(10), Account { owner: id(1), lamports: 200, data: AccountData::Empty { size: 130 } });
    l.put(id(11), wallet(10));
    l.put(
        id(13),
        Account {
            owner: id(12),
            lamports: 1000,
            data: AccountData::OracleProduct(
                OracleProduct {
                    magic: ORACLE_MAGIC,
                    ver: ORACLE_VERSION,
                    atype: ORACLE_PRODUCT_KIND,
                    px_acc: id(14),
                },
            ),
        },
    );
    l.put(
        id(14),
        Account {
            owner: id(12),
            lamports: 5000,
            data: AccountData::OraclePrice(
                OraclePrice { has_current: true, price: 105, conf: 3 },
            ),
        },
    );
    l.put(id(21), wallet(500));
    l.put(id(22), Account { owner: id(1), lamports: 1000, data: AccountData::Empty { size: 276 } });
    l.put(id(23), Account { owner: id(1), lamports: 1000, data: AccountData::Empty { size: 0 } });
    l.put(id(31), wallet(10_000));
    l.put(id(32), Account { owner: id(1), lamports: 1000, data: AccountData::Empty { size: 145 } });
    l.put(id(33), Account { owner: id(1), lamports: 100, data: AccountData::Empty { size: 0 } });
    l
}

#[test]
fn dispatcher_runs_the_whole_life_cycle() {
    let mut l = fresh_ledger();
    let e = env();

    let init = init_betting_market(id(1), id(20), id(10), id(11), id(12), true, None);
    assert_eq!(
        process_instruction(&mut l, &e, &rent(), 0, &init.accounts, &init.data),
        Ok(())
    );

    let create = create_bet(
        &e,
        id(20),
        id(21),
        id(22),
        id(23),
        id(10),
        id(13),
        id(14),
        600,
        150,
        1000,
        Direction::Above,
        100,
        CancelCondition { below_price: 50, above_price: 200, time: 900 },
        None,
    );
    assert_eq!(
        process_instruction(&mut l, &e, &rent(), 0, &create.accounts, &create.data),
        Ok(())
    );
    match l.get(&id(22)).unwrap().data {
        AccountData::BetState(b) => assert_eq!(b.start_price, 105),
        _ => panic!("bet record expected"),
    }

    let accept = accept_bet(&e, id(30), id(31), id(22), id(23), id(32), id(33), id(10), id(14), 200);
    assert_eq!(
        process_instruction(&mut l, &e, &rent(), 500, &accept.accounts, &accept.data),
        Ok(())
    );
    assert_eq!(l.get(&id(23)).unwrap().lamports, 800);
    assert_eq!(l.get(&id(33)).unwrap().lamports, 400);
}

#[test]
fn dispatcher_rejects_undecodable_payload() {
    let mut l = fresh_ledger();
    let accounts = Vec::new();
    let r = process_instruction(&mut l, &env(), &rent(), 0, &accounts, &[1, 2, 3]);
    assert_eq!(r, Err(BetError::InvalidInstruction));
}

#[test]
fn dispatcher_rejects_short_account_list() {
    let mut l = fresh_ledger();
    let init = init_betting_market(id(1), id(20), id(10), id(11), id(12), true, None);
    let mut accounts = init.accounts.clone();
    accounts.truncate(2);
    let r = process_instruction(&mut l, &env(), &rent(), 0, &accounts, &init.data);
    assert_eq!(r, Err(BetError::InvalidAccountInput));
}
