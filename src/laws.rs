//! Properties that hold across the engine's operations.
use crate::engine::{condition_step, EngineModel};
use crate::model::{listed, Address, Error, Step, TaskModel};
use vstd::prelude::*;

verus! {

/// An operation that may change the engine's state.
pub enum Op {
    Register(TaskModel),
    Run(Address, u64, u64),
    Init(Address),
    Deposit(u64, Address, i128),
    Withdraw(u64, i128),
    TakeEvents,
}

/// The state after `op`.
pub open spec fn apply(m: EngineModel, op: Op) -> EngineModel {
    match op {
        Op::Register(c) => m.register_next(c).1,
        Op::Run(keeper, id, now) => m.run_next(keeper, id, now).1,
        Op::Init(token) => m.init_next(token).1,
        Op::Deposit(id, from, amount) => m.deposit_next(id, from, amount).1,
        Op::Withdraw(id, amount) => m.withdraw_next(id, amount).1,
        Op::TakeEvents => EngineModel { events: Seq::empty(), ..m },
    }
}

/// Registers each of `cs` in turn: the results and the final state.
pub open spec fn register_all(m: EngineModel, cs: Seq<TaskModel>) -> (
    Seq<Result<u64, Error>>,
    EngineModel,
)
    decreases cs.len(),
{
    if cs.len() == 0 {
        (Seq::empty(), m)
    } else {
        let (r, m1) = m.register_next(cs[0]);
        let (rs, m2) = register_all(m1, cs.drop_first());
        (seq![r] + rs, m2)
    }
}

/// The ids handed out among `rs`, in order.
pub open spec fn granted(rs: Seq<Result<u64, Error>>) -> Seq<u64>
    decreases rs.len(),
{
    if rs.len() == 0 {
        Seq::empty()
    } else {
        let rest = granted(rs.drop_first());
        match rs[0] {
            Ok(id) => seq![id] + rest,
            Err(_) => rest,
        }
    }
}

/// The engine with no task, no gas token and no notification.
pub open spec fn empty_model() -> EngineModel {
    EngineModel { tasks: Seq::empty(), token: None, events: Seq::empty() }
}

/// Every operation keeps the state valid.
pub proof fn lemma_apply_valid(m: EngineModel, op: Op)
    requires
        m.valid(),
    ensures
        apply(m, op).valid(),
{
    let m2 = apply(m, op);
    assert forall|i: int| 0 <= i < m2.tasks.len() implies (#[trigger] m2.tasks[i]).interval > 0 by {
        if i < m.tasks.len() {
            assert(m.tasks[i].interval > 0);
        }
    }
}

/// Over any run of registrations, failed ones included, the ids handed
/// out are consecutive, starting at the state's next id, and each success
/// adds exactly one task.
pub proof fn lemma_ids_sequential(m: EngineModel, cs: Seq<TaskModel>)
    requires
        m.valid(),
    ensures
        register_all(m, cs).1.valid(),
        register_all(m, cs).1.tasks.len() == m.tasks.len() + granted(register_all(m, cs).0).len(),
        forall|j: int|
            0 <= j < granted(register_all(m, cs).0).len() ==> #[trigger] granted(
                register_all(m, cs).0,
            )[j] == m.next_id() + j,
    decreases cs.len(),
{
    if cs.len() > 0 {
        let (r, m1) = m.register_next(cs[0]);
        lemma_apply_valid(m, Op::Register(cs[0]));
        lemma_ids_sequential(m1, cs.drop_first());
        let (rs, m2) = register_all(m1, cs.drop_first());
        assert((seq![r] + rs).drop_first() =~= rs);
        assert((seq![r] + rs)[0] == r);
        let g = granted(seq![r] + rs);
        match r {
            Ok(id) => {
                assert(g =~= seq![id] + granted(rs));
                assert forall|j: int| 0 <= j < g.len() implies #[trigger] g[j] == m.next_id() + j by {
                    if j > 0 {
                        assert(g[j] == granted(rs)[j - 1]);
                    }
                }
            },
            Err(_) => {
                assert(g =~= granted(rs));
            },
        }
    }
}

/// Starting from an empty engine, the ids handed out are 1, 2, 3, ...
/// whatever registrations fail in between.
pub proof fn lemma_ids_start_at_one(cs: Seq<TaskModel>)
    ensures
        forall|j: int|
            0 <= j < granted(register_all(empty_model(), cs).0).len() ==> #[trigger] granted(
                register_all(empty_model(), cs).0,
            )[j] == j + 1,
{
    lemma_ids_sequential(empty_model(), cs);
}

/// A zero interval is refused and leaves the state, and so the next id,
/// unchanged.
pub proof fn lemma_zero_interval_refused(m: EngineModel, c: TaskModel)
    requires
        c.interval == 0,
    ensures
        m.register_next(c) == (Err::<u64, Error>(Error::InvalidInterval), m),
{
}

/// A task's `last_run` never decreases, and it changes only through a
/// committed run of that task, which sets it to the run's time.
pub proof fn lemma_last_run_monotone(m: EngineModel, op: Op, id: u64)
    requires
        m.valid(),
        m.task(id) is Some,
    ensures
        apply(m, op).task(id) is Some,
        apply(m, op).task(id)->0.last_run >= m.task(id)->0.last_run,
        apply(m, op).task(id)->0.last_run != m.task(id)->0.last_run ==> {
            &&& op is Run
            &&& op->Run_1 == id
            &&& m.run_next(op->Run_0, id, op->Run_2).0 == Ok::<bool, Error>(true)
            &&& apply(m, op).task(id)->0.last_run == op->Run_2
            &&& op->Run_2 > m.task(id)->0.last_run
        },
{
    assert(m.tasks[id - 1].interval > 0);
}

/// An `execute` before `last_run + interval` is a no-op: it is refused or
/// skipped, and committing a run at that time changes nothing, announces
/// nothing.
pub proof fn lemma_early_execute_is_noop(m: EngineModel, keeper: Address, id: u64, now: u64)
    requires
        m.task(id) is Some,
        now < m.task(id)->0.last_run + m.task(id)->0.interval,
    ensures
        m.execute_step(keeper, id, now) == Ok::<Step, Error>(Step::Skip) || m.execute_step(
            keeper,
            id,
            now,
        ) == Err::<Step, Error>(Error::Unauthorized),
        m.run_next(keeper, id, now).1 == m,
{
}

/// One keeper round on a task: the guard, the resolver's reply when one is
/// asked, and the commit once the target call has returned.
pub open spec fn keeper_round(
    m: EngineModel,
    keeper: Address,
    id: u64,
    now: u64,
    reply: Option<bool>,
) -> EngineModel {
    match m.execute_step(keeper, id, now) {
        Ok(Step::Invoke) => m.run_next(keeper, id, now).1,
        Ok(Step::CheckCondition) => if condition_step(reply) == Step::Invoke {
            m.run_next(keeper, id, now).1
        } else {
            m
        },
        _ => m,
    }
}

/// When the guard is open, a resolver that declines or fails leaves the
/// state unchanged, and a resolver that approves, or no resolver, sets
/// `last_run` to the time of the round.
pub proof fn lemma_resolver_decides(
    m: EngineModel,
    keeper: Address,
    id: u64,
    now: u64,
    reply: Option<bool>,
)
    requires
        m.task(id) is Some,
        m.task(id)->0.admits(keeper),
        m.task(id)->0.due(now),
    ensures
        m.task(id)->0.resolver is Some && reply != Some(true) ==> keeper_round(
            m,
            keeper,
            id,
            now,
            reply,
        ) == m,
        m.task(id)->0.resolver is None || reply == Some(true) ==> keeper_round(
            m,
            keeper,
            id,
            now,
            reply,
        ) == m.with_task(id, m.task(id)->0.with_last_run(now)),
{
}

/// A non-empty whitelist refuses a keeper outside it with `Unauthorized`,
/// at the guard and at the commit, and lets a member through.
pub proof fn lemma_whitelist_guard(m: EngineModel, keeper: Address, id: u64, now: u64)
    requires
        m.task(id) is Some,
        m.task(id)->0.whitelist.len() > 0,
    ensures
        !listed(m.task(id)->0.whitelist, keeper) ==> m.execute_step(keeper, id, now) == Err::<
            Step,
            Error,
        >(Error::Unauthorized) && m.run_next(keeper, id, now) == (Err::<bool, Error>(
            Error::Unauthorized,
        ), m),
        listed(m.task(id)->0.whitelist, keeper) ==> m.execute_step(keeper, id, now) is Ok
            && m.run_next(keeper, id, now).0 is Ok,
{
}

/// A deposit that succeeds raises the task's balance by exactly the amount
/// and changes no other field or task; one that fails changes nothing.
pub proof fn lemma_deposit_exact(m: EngineModel, id: u64, from: Address, amount: i128)
    requires
        m.task(id) is Some,
    ensures
        m.deposit_next(id, from, amount).0 is Ok ==> {
            &&& m.deposit_next(id, from, amount).1.task(id)->0.gas_balance == m.task(id)->0.gas_balance
                + amount
            &&& m.deposit_next(id, from, amount).1.task(id)->0 == m.task(id)->0.with_gas(
                m.deposit_next(id, from, amount).1.task(id)->0.gas_balance,
            )
            &&& forall|j: u64|
                j != id ==> #[trigger] m.deposit_next(id, from, amount).1.task(j) == m.task(j)
        },
        m.deposit_next(id, from, amount).0 is Err ==> m.deposit_next(id, from, amount).1 == m,
{
}

/// A withdrawal above the task's balance fails with `InsufficientBalance`
/// and changes nothing.
pub proof fn lemma_overdraft_refused(m: EngineModel, id: u64, amount: i128)
    requires
        m.task(id) is Some,
        amount > m.task(id)->0.gas_balance,
    ensures
        m.withdraw_next(id, amount) == (Err::<(), Error>(Error::InsufficientBalance), m),
{
}

} // verus!
