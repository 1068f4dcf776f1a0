use crate::model::{Address, Error, Notification, Step, TaskConfig, TaskModel};
use vstd::prelude::*;

verus! {

/// The engine's state as a mathematical value.
pub struct EngineModel {
    /// The registered tasks; the task with id `i` stands at index `i - 1`.
    pub tasks: Seq<TaskModel>,
    /// The gas token, once configured.
    pub token: Option<Address>,
    /// Notifications announced and not yet taken.
    pub events: Seq<Notification>,
}

impl EngineModel {
    /// The task registered under `id`, if any.
    pub open spec fn task(self, id: u64) -> Option<TaskModel> {
        if 1 <= id && id <= self.tasks.len() {
            Some(self.tasks[id - 1])
        } else {
            None
        }
    }

    /// The same state with the task under `id` replaced by `t`.
    pub open spec fn with_task(self, id: u64, t: TaskModel) -> EngineModel {
        EngineModel { tasks: self.tasks.update(id - 1, t), ..self }
    }

    /// The same state with `n` announced.
    pub open spec fn announce(self, n: Notification) -> EngineModel {
        EngineModel { events: self.events.push(n), ..self }
    }

    /// The id that the next successful registration hands out.
    pub open spec fn next_id(self) -> nat {
        self.tasks.len() + 1
    }

    /// The state invariant: every task has a positive interval and every
    /// id fits in 64 bits.
    pub open spec fn valid(self) -> bool {
        &&& self.tasks.len() <= u64::MAX
        &&& all_intervals_positive(self.tasks)
    }

    /// What a keeper's `execute` call on task `id` at time `now` does next.
    pub open spec fn execute_step(self, keeper: Address, id: u64, now: u64) -> Result<Step, Error> {
        match self.task(id) {
            None => Err(Error::TaskNotFound),
            Some(t) => if !t.admits(keeper) {
                Err(Error::Unauthorized)
            } else if !t.due(now) {
                Ok(Step::Skip)
            } else if t.resolver is Some {
                Ok(Step::CheckCondition)
            } else {
                Ok(Step::Invoke)
            },
        }
    }

    /// Whether a run of task `id` by `keeper` at time `now` may be
    /// committed: `Ok(true)` when the keeper is admitted and the interval
    /// has elapsed.
    pub open spec fn run_guard(self, keeper: Address, id: u64, now: u64) -> Result<bool, Error> {
        match self.task(id) {
            None => Err(Error::TaskNotFound),
            Some(t) => if !t.admits(keeper) {
                Err(Error::Unauthorized)
            } else {
                Ok(t.due(now))
            },
        }
    }

    /// Whether `amount` can be deposited to task `id`.
    pub open spec fn deposit_check(self, id: u64, amount: i128) -> Result<(), Error> {
        match self.task(id) {
            None => Err(Error::TaskNotFound),
            Some(t) => if self.token is None {
                Err(Error::NotInitialized)
            } else if t.gas_balance + amount > i128::MAX || t.gas_balance + amount < i128::MIN {
                Err(Error::BalanceOverflow)
            } else {
                Ok(())
            },
        }
    }

    /// Whether `amount` can be withdrawn from task `id`.
    pub open spec fn withdraw_check(self, id: u64, amount: i128) -> Result<(), Error> {
        match self.task(id) {
            None => Err(Error::TaskNotFound),
            Some(t) => if amount > t.gas_balance {
                Err(Error::InsufficientBalance)
            } else if self.token is None {
                Err(Error::NotInitialized)
            } else if t.gas_balance - amount > i128::MAX {
                Err(Error::BalanceOverflow)
            } else {
                Ok(())
            },
        }
    }

    /// Registration of `c`: the result and the next state.
    pub open spec fn register_next(self, c: TaskModel) -> (Result<u64, Error>, EngineModel) {
        if c.interval == 0 {
            (Err(Error::InvalidInterval), self)
        } else if self.tasks.len() >= u64::MAX {
            (Err(Error::IdsExhausted), self)
        } else {
            let id = self.next_id() as u64;
            (
                Ok(id),
                EngineModel {
                    tasks: self.tasks.push(c),
                    ..self.announce((Notification::TaskRegistered { task_id: id, creator: c.creator }))
                },
            )
        }
    }

    /// Committing a run of task `id` by `keeper` at time `now`.
    pub open spec fn run_next(self, keeper: Address, id: u64, now: u64) -> (Result<bool, Error>, EngineModel) {
        let r = self.run_guard(keeper, id, now);
        if r == Ok::<bool, Error>(true) {
            (r, self.with_task(id, self.task(id)->0.with_last_run(now)))
        } else {
            (r, self)
        }
    }

    /// Configuring the gas token.
    pub open spec fn init_next(self, token: Address) -> (Result<(), Error>, EngineModel) {
        if self.token is Some {
            (Err(Error::AlreadyInitialized), self)
        } else {
            (Ok(()), EngineModel { token: Some(token), ..self })
        }
    }

    /// Depositing `amount` from `from` to task `id`.
    pub open spec fn deposit_next(self, id: u64, from: Address, amount: i128) -> (Result<(), Error>, EngineModel) {
        let r = self.deposit_check(id, amount);
        if r is Ok {
            let t = self.task(id)->0;
            (
                r,
                self.with_task(id, t.with_gas((t.gas_balance + amount) as i128)).announce(
                    (Notification::GasDeposited { task_id: id, from, amount }),
                ),
            )
        } else {
            (r, self)
        }
    }

    /// Withdrawing `amount` from task `id` to its creator.
    pub open spec fn withdraw_next(self, id: u64, amount: i128) -> (Result<(), Error>, EngineModel) {
        let r = self.withdraw_check(id, amount);
        if r is Ok {
            let t = self.task(id)->0;
            (
                r,
                self.with_task(id, t.with_gas((t.gas_balance - amount) as i128)).announce(
                    (Notification::GasWithdrawn { task_id: id, creator: t.creator, amount }),
                ),
            )
        } else {
            (r, self)
        }
    }
}

/// Whether every task in `tasks` has a positive interval.
pub open spec fn all_intervals_positive(tasks: Seq<TaskModel>) -> bool {
    forall|i: int| 0 <= i < tasks.len() ==> (#[trigger] tasks[i]).interval > 0
}

/// The step that follows a resolver's reply: only a clean `true` lets the
/// task fire. A reply that failed or did not decode is `None`.
pub open spec fn condition_step(reply: Option<bool>) -> Step {
    if reply == Some(true) {
        Step::Invoke
    } else {
        Step::Skip
    }
}

/// The step that follows a resolver's reply.
pub fn after_condition(reply: Option<bool>) -> (r: Step)
    ensures
        r == condition_step(reply),
{
    match reply {
        Some(true) => Step::Invoke,
        _ => Step::Skip,
    }
}

/// The task registry, execution guard and gas ledger.
pub struct SoroTaskContract {
    counter: u64,
    tasks: Vec<TaskConfig>,
    token: Option<Address>,
    events: Vec<Notification>,
}

impl View for SoroTaskContract {
    type V = EngineModel;

    closed spec fn view(&self) -> EngineModel {
        EngineModel {
            tasks: self.tasks@.map_values(|t: TaskConfig| t@),
            token: self.token,
            events: self.events@,
        }
    }
}

impl SoroTaskContract {
    /// The internal invariant: the counter is the number of tasks, and the
    /// state is valid.
    pub closed spec fn wf(&self) -> bool {
        &&& self.counter == self.tasks@.len()
        &&& self@.valid()
    }

    /// A well-formed engine is in a valid state.
    pub proof fn lemma_wf_valid(&self)
        requires
            self.wf(),
        ensures
            self@.valid(),
    {
    }

    /// An engine with no task, no gas token and no notification.
    pub fn new() -> (r: SoroTaskContract)
        ensures
            r.wf(),
            r@.tasks == Seq::<TaskModel>::empty(),
            r@.token is None,
            r@.events == Seq::<Notification>::empty(),
    {
        let r = SoroTaskContract { counter: 0, tasks: Vec::new(), token: None, events: Vec::new() };
        assert(r@.tasks =~= Seq::<TaskModel>::empty());
        r
    }

    /// Rebuilds an engine from persisted tasks (the task with id `i` at
    /// index `i - 1`) and the gas token. Refused when a task has a zero
    /// interval, or when there are more tasks than 64-bit ids.
    pub fn restore(tasks: Vec<TaskConfig>, token: Option<Address>) -> (r: Result<
        SoroTaskContract,
        Error,
    >)
        ensures
            match r {
                Ok(e) => {
                    &&& e.wf()
                    &&& e@.valid()
                    &&& e@ == (EngineModel {
                        tasks: tasks@.map_values(|t: TaskConfig| t@),
                        token,
                        events: Seq::empty(),
                    })
                },
                Err(err) => {
                    ||| err == Error::InvalidInterval && !all_intervals_positive(
                        tasks@.map_values(|t: TaskConfig| t@),
                    )
                    ||| err == Error::IdsExhausted && all_intervals_positive(
                        tasks@.map_values(|t: TaskConfig| t@),
                    ) && tasks@.len() > u64::MAX
                },
            },
    {
        let n = tasks.len();
        let mut i: usize = 0;
        while i < n
            invariant
                n == tasks.len(),
                i <= n,
                forall|j: int| 0 <= j < i ==> (#[trigger] tasks@[j]).interval > 0,
            decreases n - i,
        {
            if tasks[i].interval == 0 {
                assert(tasks@.map_values(|t: TaskConfig| t@)[i as int].interval == 0);
                return Err(Error::InvalidInterval);
            }
            i = i + 1;
        }
        assert(all_intervals_positive(tasks@.map_values(|t: TaskConfig| t@)));
        if n as u128 > u64::MAX as u128 {
            return Err(Error::IdsExhausted);
        }
        let r = SoroTaskContract { counter: n as u64, tasks, token, events: Vec::new() };
        assert(r@.events =~= Seq::<Notification>::empty());
        Ok(r)
    }

    /// Registers a task and returns its id. Ids start at 1 and grow by one
    /// with each successful registration; a failed one changes nothing.
    pub fn register(&mut self, config: TaskConfig) -> (r: Result<u64, Error>)
        requires
            old(self).wf(),
        ensures
            final(self).wf(),
            (r, final(self)@) == old(self)@.register_next(config@),
    {
        if config.interval == 0 {
            return Err(Error::InvalidInterval);
        }
        if self.counter == u64::MAX {
            return Err(Error::IdsExhausted);
        }
        let id = self.counter + 1;
        let creator = config.creator.copy();
        self.tasks.push(config);
        self.counter = id;
        self.events.push(Notification::TaskRegistered { task_id: id, creator });
        proof {
            let o = old(self)@;
            assert(self@.tasks =~= o.tasks.push(config@));
        }
        Ok(id)
    }

    /// A copy of the task registered under `task_id`, or `None`.
    pub fn get_task(&self, task_id: u64) -> (r: Option<TaskConfig>)
        requires
            self.wf(),
        ensures
            match r {
                Some(t) => self@.task(task_id) == Some(t@),
                None => self@.task(task_id) is None,
            },
    {
        if task_id == 0 || task_id > self.counter {
            None
        } else {
            let n = self.tasks.len();
            assert(task_id - 1 < n);
            let i = (task_id - 1) as usize;
            let t = self.tasks[i].copy();
            assert(self@.tasks[i as int] == self.tasks@[i as int]@);
            Some(t)
        }
    }

    /// The number of registered tasks, which is also the last id handed out.
    pub fn task_count(&self) -> (r: u64)
        requires
            self.wf(),
        ensures
            r == self@.tasks.len(),
    {
        self.counter
    }

    /// What a keeper's `execute` call on `task_id` at time `now` does next.
    /// The engine is not changed: a run is committed by `record_run` once
    /// the target call has returned.
    pub fn execute(&self, keeper: &Address, task_id: u64, now: u64) -> (r: Result<Step, Error>)
        requires
            self.wf(),
        ensures
            r == self@.execute_step(*keeper, task_id, now),
    {
        match self.run_guard(keeper, task_id, now) {
            Err(e) => Err(e),
            Ok(false) => Ok(Step::Skip),
            Ok(true) => {
                let i = (task_id - 1) as usize;
                assert(self@.tasks[i as int] == self.tasks@[i as int]@);
                if self.tasks[i].resolver.is_some() {
                    Ok(Step::CheckCondition)
                } else {
                    Ok(Step::Invoke)
                }
            },
        }
    }

    fn run_guard(&self, keeper: &Address, task_id: u64, now: u64) -> (r: Result<bool, Error>)
        requires
            self.wf(),
        ensures
            r == self@.run_guard(*keeper, task_id, now),
            r is Ok ==> 1 <= task_id <= self.tasks.len(),
    {
        let n = self.tasks.len();
        if task_id == 0 || task_id > self.counter {
            return Err(Error::TaskNotFound);
        }
        assert(task_id - 1 < n);
        let i = (task_id - 1) as usize;
        let t = &self.tasks[i];
        assert(self@.tasks[i as int] == t@);
        if !t.admits(keeper) {
            return Err(Error::Unauthorized);
        }
        match t.last_run.checked_add(t.interval) {
            None => Ok(false),
            Some(due_at) => Ok(now >= due_at),
        }
    }

    /// Commits a run of `task_id` at time `now`, after the target call has
    /// returned: `last_run` becomes `now` when the keeper is admitted and
    /// the interval has elapsed (`Ok(true)`); otherwise nothing changes.
    pub fn record_run(&mut self, keeper: &Address, task_id: u64, now: u64) -> (r: Result<
        bool,
        Error,
    >)
        requires
            old(self).wf(),
        ensures
            final(self).wf(),
            (r, final(self)@) == old(self)@.run_next(*keeper, task_id, now),
    {
        let g = self.run_guard(keeper, task_id, now);
        if let Ok(true) = g {
            let i = (task_id - 1) as usize;
            self.tasks[i].last_run = now;
            proof {
                let o = old(self)@;
                assert(self@.tasks =~= o.tasks.update(i as int, o.tasks[i as int].with_last_run(now)));
            }
        }
        g
    }

    /// Configures the gas token, once.
    pub fn init(&mut self, token: Address) -> (r: Result<(), Error>)
        requires
            old(self).wf(),
        ensures
            final(self).wf(),
            (r, final(self)@) == old(self)@.init_next(token),
    {
        if self.token.is_some() {
            return Err(Error::AlreadyInitialized);
        }
        self.token = Some(token);
        Ok(())
    }

    /// The gas token's address.
    pub fn get_token(&self) -> (r: Result<Address, Error>)
        requires
            self.wf(),
        ensures
            match r {
                Ok(a) => self@.token == Some(a),
                Err(e) => self@.token is None && e == Error::NotInitialized,
            },
    {
        match &self.token {
            Some(a) => Ok(a.copy()),
            None => Err(Error::NotInitialized),
        }
    }

    /// Credits `amount`, transferred by `from`, to the gas balance of
    /// `task_id`, and announces it.
    pub fn deposit_gas(&mut self, task_id: u64, from: Address, amount: i128) -> (r: Result<
        (),
        Error,
    >)
        requires
            old(self).wf(),
        ensures
            final(self).wf(),
            (r, final(self)@) == old(self)@.deposit_next(task_id, from, amount),
    {
        let n = self.tasks.len();
        if task_id == 0 || task_id > self.counter {
            return Err(Error::TaskNotFound);
        }
        assert(task_id - 1 < n);
        let i = (task_id - 1) as usize;
        assert(old(self)@.tasks[i as int] == self.tasks@[i as int]@);
        if self.token.is_none() {
            return Err(Error::NotInitialized);
        }
        let g = match self.tasks[i].gas_balance.checked_add(amount) {
            Some(g) => g,
            None => return Err(Error::BalanceOverflow),
        };
        self.tasks[i].gas_balance = g;
        self.events.push(Notification::GasDeposited { task_id, from, amount });
        proof {
            let o = old(self)@;
            assert(self@.tasks =~= o.tasks.update(i as int, o.tasks[i as int].with_gas(g)));
        }
        Ok(())
    }

    /// Debits `amount` from the gas balance of `task_id`, to be paid out to
    /// the task's creator, and announces it.
    pub fn withdraw_gas(&mut self, task_id: u64, amount: i128) -> (r: Result<(), Error>)
        requires
            old(self).wf(),
        ensures
            final(self).wf(),
            (r, final(self)@) == old(self)@.withdraw_next(task_id, amount),
    {
        let n = self.tasks.len();
        if task_id == 0 || task_id > self.counter {
            return Err(Error::TaskNotFound);
        }
        assert(task_id - 1 < n);
        let i = (task_id - 1) as usize;
        assert(old(self)@.tasks[i as int] == self.tasks@[i as int]@);
        if amount > self.tasks[i].gas_balance {
            return Err(Error::InsufficientBalance);
        }
        if self.token.is_none() {
            return Err(Error::NotInitialized);
        }
        let g = match self.tasks[i].gas_balance.checked_sub(amount) {
            Some(g) => g,
            None => return Err(Error::BalanceOverflow),
        };
        let creator = self.tasks[i].creator.copy();
        self.tasks[i].gas_balance = g;
        self.events.push(Notification::GasWithdrawn { task_id, creator, amount });
        proof {
            let o = old(self)@;
            assert(self@.tasks =~= o.tasks.update(i as int, o.tasks[i as int].with_gas(g)));
        }
        Ok(())
    }

    /// Hands out the notifications announced so far, oldest first, and
    /// forgets them.
    pub fn take_events(&mut self) -> (r: Vec<Notification>)
        requires
            old(self).wf(),
        ensures
            final(self).wf(),
            r@ == old(self)@.events,
            final(self)@ == (EngineModel { events: Seq::empty(), ..old(self)@ }),
    {
        let mut r: Vec<Notification> = Vec::new();
        std::mem::swap(&mut r, &mut self.events);
        assert(self@.events =~= Seq::<Notification>::empty());
        r
    }
}

} // verus!
