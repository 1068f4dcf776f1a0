use sorotask::engine::{after_condition, SoroTaskContract};
use sorotask::model::{is_listed, Address, Error, Notification, Step, TaskConfig};

fn addr(s: &str) -> Address {
    Address::new(s.to_string())
}

fn task(interval: u64, gas_balance: i128) -> TaskConfig {
    TaskConfig {
        creator: addr("GCREATOR"),
        target: addr("CTARGET"),
        function: "ping".to_string(),
        args: Vec::new(),
        resolver: None,
        interval,
        last_run: 0,
        gas_balance,
        whitelist: Vec::new(),
    }
}

#[test]
fn ids_stay_sequential_across_failed_registrations() {
    let mut engine = SoroTaskContract::new();
    assert_eq!(engine.register(task(10, 0)), Ok(1));
    assert_eq!(engine.register(task(0, 0)), Err(Error::InvalidInterval));
    assert_eq!(engine.register(task(0, 0)), Err(Error::InvalidInterval));
    assert_eq!(engine.register(task(10, 0)), Ok(2));
    assert_eq!(engine.register(task(0, 0)), Err(Error::InvalidInterval));
    assert_eq!(engine.register(task(10, 0)), Ok(3));
    assert_eq!(engine.task_count(), 3);
}

#[test]
fn zero_interval_leaves_counter_and_events_unchanged() {
    let mut engine = SoroTaskContract::new();
    engine.register(task(10, 0)).unwrap();
    engine.take_events();
    assert_eq!(engine.register(task(0, 0)), Err(Error::InvalidInterval));
    assert_eq!(engine.task_count(), 1);
    assert!(engine.take_events().is_empty());
    assert!(engine.get_task(2).is_none());
}

#[test]
fn get_task_zero_is_none() {
    let mut engine = SoroTaskContract::new();
    engine.register(task(10, 0)).unwrap();
    assert!(engine.get_task(0).is_none());
}

#[test]
fn last_run_only_moves_forward_on_committed_runs() {
    let mut engine = SoroTaskContract::new();
    let id = engine.register(task(100, 0)).unwrap();
    let keeper = addr("GKEEPER");
    assert_eq!(engine.record_run(&keeper, id, 99), Ok(false));
    assert_eq!(engine.get_task(id).unwrap().last_run, 0);
    assert_eq!(engine.record_run(&keeper, id, 100), Ok(true));
    assert_eq!(engine.get_task(id).unwrap().last_run, 100);
    // Deposits and withdrawals leave last_run alone.
    engine.init(addr("CTOKEN")).unwrap();
    engine.deposit_gas(id, addr("GFUNDER"), 7).unwrap();
    engine.withdraw_gas(id, 3).unwrap();
    assert_eq!(engine.get_task(id).unwrap().last_run, 100);
    assert_eq!(engine.record_run(&keeper, id, 150), Ok(false));
    assert_eq!(engine.get_task(id).unwrap().last_run, 100);
}

#[test]
fn early_execute_is_a_noop_without_notification() {
    let mut engine = SoroTaskContract::new();
    let mut cfg = task(100, 0);
    cfg.last_run = 1_000;
    let id = engine.register(cfg).unwrap();
    engine.take_events();
    let keeper = addr("GKEEPER");
    assert_eq!(engine.execute(&keeper, id, 1_099), Ok(Step::Skip));
    assert_eq!(engine.record_run(&keeper, id, 1_099), Ok(false));
    assert_eq!(engine.get_task(id).unwrap().last_run, 1_000);
    assert!(engine.take_events().is_empty());
    assert_eq!(engine.execute(&keeper, id, 1_100), Ok(Step::Invoke));
}

#[test]
fn interval_sum_past_u64_is_never_due() {
    let mut engine = SoroTaskContract::new();
    let mut cfg = task(10, 0);
    cfg.last_run = u64::MAX - 5;
    let id = engine.register(cfg).unwrap();
    assert_eq!(engine.execute(&addr("GKEEPER"), id, u64::MAX), Ok(Step::Skip));
}

#[test]
fn resolver_reply_mapping() {
    assert_eq!(after_condition(Some(true)), Step::Invoke);
    assert_eq!(after_condition(Some(false)), Step::Skip);
    assert_eq!(after_condition(None), Step::Skip);
}

#[test]
fn resolver_false_keeps_last_run_at_every_time() {
    let mut engine = SoroTaskContract::new();
    let mut cfg = task(100, 0);
    cfg.resolver = Some(addr("CRESOLVER"));
    let id = engine.register(cfg).unwrap();
    let keeper = addr("GKEEPER");
    for now in [100u64, 5_000, 77_777, u64::MAX] {
        assert_eq!(engine.execute(&keeper, id, now), Ok(Step::CheckCondition));
        assert_eq!(after_condition(Some(false)), Step::Skip);
        assert_eq!(after_condition(None), Step::Skip);
        assert_eq!(engine.get_task(id).unwrap().last_run, 0);
    }
}

#[test]
fn execute_unknown_task_fails() {
    let engine = SoroTaskContract::new();
    assert_eq!(engine.execute(&addr("GKEEPER"), 1, 10), Err(Error::TaskNotFound));
}

#[test]
fn whitelist_admits_members_only() {
    let mut engine = SoroTaskContract::new();
    let mut cfg = task(10, 0);
    cfg.whitelist = vec![addr("GONE"), addr("GTWO")];
    let id = engine.register(cfg).unwrap();
    assert_eq!(engine.execute(&addr("GTWO"), id, 10), Ok(Step::Invoke));
    assert_eq!(engine.execute(&addr("GTHREE"), id, 10), Err(Error::Unauthorized));
    assert_eq!(engine.record_run(&addr("GTHREE"), id, 10), Err(Error::Unauthorized));
    assert_eq!(engine.get_task(id).unwrap().last_run, 0);
    assert_eq!(engine.execute(&addr("GTHREE"), id, 5), Err(Error::Unauthorized));
}

#[test]
fn listed_compares_strkeys() {
    let list = vec![addr("GONE"), addr("GTWO")];
    assert!(is_listed(&list, &addr("GONE")));
    assert!(!is_listed(&list, &addr("GON")));
    assert!(!is_listed(&Vec::new(), &addr("GONE")));
}

#[test]
fn deposit_adds_exact_amount_and_announces() {
    let mut engine = SoroTaskContract::new();
    engine.init(addr("CTOKEN")).unwrap();
    let id = engine.register(task(10, 40)).unwrap();
    engine.take_events();
    engine.deposit_gas(id, addr("GFUNDER"), 2).unwrap();
    assert_eq!(engine.get_task(id).unwrap().gas_balance, 42);
    let events = engine.take_events();
    assert_eq!(events.len(), 1);
    match &events[0] {
        Notification::GasDeposited { task_id, from, amount } => {
            assert_eq!(*task_id, id);
            assert!(from.same_as(&addr("GFUNDER")));
            assert_eq!(*amount, 2);
        }
        other => panic!("unexpected notification {:?}", other),
    }
}

#[test]
fn deposit_errors_leave_balance() {
    let mut engine = SoroTaskContract::new();
    let id = engine.register(task(10, i128::MAX - 1)).unwrap();
    assert_eq!(engine.deposit_gas(id, addr("GFUNDER"), 1), Err(Error::NotInitialized));
    engine.init(addr("CTOKEN")).unwrap();
    assert_eq!(engine.deposit_gas(9, addr("GFUNDER"), 1), Err(Error::TaskNotFound));
    assert_eq!(engine.deposit_gas(id, addr("GFUNDER"), 2), Err(Error::BalanceOverflow));
    assert_eq!(engine.get_task(id).unwrap().gas_balance, i128::MAX - 1);
    engine.deposit_gas(id, addr("GFUNDER"), 1).unwrap();
    assert_eq!(engine.get_task(id).unwrap().gas_balance, i128::MAX);
}

#[test]
fn withdraw_checks_and_announces_creator() {
    let mut engine = SoroTaskContract::new();
    let id = engine.register(task(10, 100)).unwrap();
    assert_eq!(engine.withdraw_gas(id, 101), Err(Error::InsufficientBalance));
    assert_eq!(engine.withdraw_gas(id, 100), Err(Error::NotInitialized));
    assert_eq!(engine.withdraw_gas(2, 1), Err(Error::TaskNotFound));
    engine.init(addr("CTOKEN")).unwrap();
    engine.take_events();
    engine.withdraw_gas(id, 100).unwrap();
    assert_eq!(engine.get_task(id).unwrap().gas_balance, 0);
    let events = engine.take_events();
    match &events[0] {
        Notification::GasWithdrawn { task_id, creator, amount } => {
            assert_eq!(*task_id, id);
            assert!(creator.same_as(&addr("GCREATOR")));
            assert_eq!(*amount, 100);
        }
        other => panic!("unexpected notification {:?}", other),
    }
}

#[test]
fn withdraw_negative_past_max_overflows() {
    let mut engine = SoroTaskContract::new();
    engine.init(addr("CTOKEN")).unwrap();
    let id = engine.register(task(10, i128::MAX)).unwrap();
    assert_eq!(engine.withdraw_gas(id, -1), Err(Error::BalanceOverflow));
    assert_eq!(engine.get_task(id).unwrap().gas_balance, i128::MAX);
}

#[test]
fn deposit_then_withdraw_from_zero() {
    let mut engine = SoroTaskContract::new();
    engine.init(addr("CTOKEN")).unwrap();
    let id = engine.register(task(10, 0)).unwrap();
    let creator_before: i128 = 2_000;
    let mut creator_balance = creator_before;
    engine.deposit_gas(id, addr("GCREATOR"), 2000).unwrap();
    creator_balance -= 2000;
    engine.withdraw_gas(id, 500).unwrap();
    creator_balance += 500;
    assert_eq!(engine.get_task(id).unwrap().gas_balance, 1500);
    assert_eq!(creator_balance - creator_before, -1500);
}

#[test]
fn token_is_set_once() {
    let mut engine = SoroTaskContract::new();
    assert_eq!(engine.get_token().err(), Some(Error::NotInitialized));
    assert_eq!(engine.init(addr("CTOKEN")), Ok(()));
    assert_eq!(engine.init(addr("COTHER")), Err(Error::AlreadyInitialized));
    assert!(engine.get_token().unwrap().same_as(&addr("CTOKEN")));
}

#[test]
fn restore_checks_intervals() {
    let engine = SoroTaskContract::restore(vec![task(5, 1), task(7, 2)], Some(addr("CTOKEN"))).unwrap();
    assert_eq!(engine.task_count(), 2);
    assert_eq!(engine.get_task(2).unwrap().interval, 7);
    assert!(engine.get_token().unwrap().same_as(&addr("CTOKEN")));
    assert_eq!(
        SoroTaskContract::restore(vec![task(5, 1), task(0, 2)], None).err(),
        Some(Error::InvalidInterval)
    );
}

#[test]
fn copies_are_exact() {
    let mut cfg = task(9, -4);
    cfg.args = vec![1, 2, 3];
    cfg.resolver = Some(addr("CRES"));
    cfg.whitelist = vec![addr("GA"), addr("GB")];
    let c = cfg.copy();
    assert_eq!(c.args, vec![1, 2, 3]);
    assert!(c.resolver.as_ref().unwrap().same_as(&addr("CRES")));
    assert!(c.whitelist[1].same_as(&addr("GB")));
    assert_eq!(c.gas_balance, -4);
    assert!(c.admits(&addr("GA")));
    assert!(!c.admits(&addr("GC")));
}
