use vstd::prelude::*;

verus! {

/// Typed failures of the engine's operations.
#[derive(Copy, Clone, Debug, PartialEq, Eq, Structural)]
pub enum Error {
    /// A task was registered with a zero interval.
    InvalidInterval,
    /// The keeper is not on the task's non-empty whitelist.
    Unauthorized,
    /// A withdrawal asked for more than the task's gas balance.
    InsufficientBalance,
    /// A token operation ran before the gas token was configured.
    NotInitialized,
    /// No task is registered under the given id.
    TaskNotFound,
    /// The gas token was already configured.
    AlreadyInitialized,
    /// A gas balance would leave the range of `i128`.
    BalanceOverflow,
    /// Every 64-bit task id has been handed out.
    IdsExhausted,
}

/// An account or component identifier, held as its textual strkey.
#[derive(Debug)]
pub struct Address {
    pub strkey: String,
}

impl Address {
    /// Builds an address from its strkey text.
    pub fn new(strkey: String) -> (r: Address)
        ensures
            r.strkey == strkey,
    {
        Address { strkey }
    }

    /// Two addresses are the same account when their strkeys agree.
    pub open spec fn same(self, other: Address) -> bool {
        self.strkey@ == other.strkey@
    }

    /// Whether `self` and `other` name the same account.
    pub fn same_as(&self, other: &Address) -> (r: bool)
        ensures
            r == self.same(*other),
    {
        self.strkey == other.strkey
    }

    /// An exact copy.
    pub fn copy(&self) -> (r: Address)
        ensures
            r == *self,
    {
        Address { strkey: self.strkey.clone() }
    }
}

/// A registered task, as stored by the engine.
#[derive(Debug)]
pub struct TaskConfig {
    /// The account that registered the task; it alone may withdraw gas.
    pub creator: Address,
    /// The component invoked when the task fires.
    pub target: Address,
    /// The name of the operation invoked on `target`.
    pub function: String,
    /// The call arguments, each as its 64-bit host value encoding; the
    /// engine passes them on untouched.
    pub args: Vec<u64>,
    /// A component consulted before each run; `None` means always eligible.
    pub resolver: Option<Address>,
    /// Minimum time between two successful runs.
    pub interval: u64,
    /// Time of the latest successful run; 0 before the first one.
    pub last_run: u64,
    /// Prepaid balance funding the task's executions.
    pub gas_balance: i128,
    /// Keepers allowed to execute the task; empty means anyone.
    pub whitelist: Vec<Address>,
}

/// The mathematical value of a [`TaskConfig`]: its sequences as `Seq`.
pub struct TaskModel {
    pub creator: Address,
    pub target: Address,
    pub function: String,
    pub args: Seq<u64>,
    pub resolver: Option<Address>,
    pub interval: u64,
    pub last_run: u64,
    pub gas_balance: i128,
    pub whitelist: Seq<Address>,
}

impl TaskModel {
    /// The same task with `last_run` replaced.
    pub open spec fn with_last_run(self, t: u64) -> TaskModel {
        TaskModel { last_run: t, ..self }
    }

    /// The same task with `gas_balance` replaced.
    pub open spec fn with_gas(self, g: i128) -> TaskModel {
        TaskModel { gas_balance: g, ..self }
    }

    /// Whether `keeper` may execute the task: an empty whitelist admits
    /// everyone, a non-empty one only its members.
    pub open spec fn admits(self, keeper: Address) -> bool {
        self.whitelist.len() == 0 || listed(self.whitelist, keeper)
    }

    /// Whether the interval has elapsed at time `now`.
    pub open spec fn due(self, now: u64) -> bool {
        now >= self.last_run + self.interval
    }
}

/// Whether `a` names the same account as some member of `list`.
pub open spec fn listed(list: Seq<Address>, a: Address) -> bool {
    exists|i: int| 0 <= i < list.len() && (#[trigger] list[i]).same(a)
}

impl View for TaskConfig {
    type V = TaskModel;

    open spec fn view(&self) -> TaskModel {
        TaskModel {
            creator: self.creator,
            target: self.target,
            function: self.function,
            args: self.args@,
            resolver: self.resolver,
            interval: self.interval,
            last_run: self.last_run,
            gas_balance: self.gas_balance,
            whitelist: self.whitelist@,
        }
    }
}

/// Copies a sequence of argument encodings.
fn copy_args(v: &Vec<u64>) -> (r: Vec<u64>)
    ensures
        r@ == v@,
{
    let mut r: Vec<u64> = Vec::new();
    let n = v.len();
    let mut i: usize = 0;
    while i < n
        invariant
            n == v.len(),
            i <= n,
            r@ == v@.subrange(0, i as int),
        decreases n - i,
    {
        r.push(v[i]);
        i = i + 1;
    }
    assert(v@.subrange(0, n as int) =~= v@);
    r
}

/// Copies a list of addresses.
fn copy_addresses(v: &Vec<Address>) -> (r: Vec<Address>)
    ensures
        r@ == v@,
{
    let mut r: Vec<Address> = Vec::new();
    let n = v.len();
    let mut i: usize = 0;
    while i < n
        invariant
            n == v.len(),
            i <= n,
            r@ == v@.subrange(0, i as int),
        decreases n - i,
    {
        r.push(v[i].copy());
        i = i + 1;
    }
    assert(v@.subrange(0, n as int) =~= v@);
    r
}

/// Whether `keeper` is a member of `list`.
pub fn is_listed(list: &Vec<Address>, keeper: &Address) -> (r: bool)
    ensures
        r == listed(list@, *keeper),
{
    let n = list.len();
    let mut i: usize = 0;
    while i < n
        invariant
            n == list.len(),
            i <= n,
            forall|j: int| 0 <= j < i ==> !(#[trigger] list@[j]).same(*keeper),
        decreases n - i,
    {
        if list[i].same_as(keeper) {
            return true;
        }
        i = i + 1;
    }
    false
}

impl TaskConfig {
    /// An exact copy.
    pub fn copy(&self) -> (r: TaskConfig)
        ensures
            r@ == self@,
    {
        let resolver = match &self.resolver {
            Some(a) => Some(a.copy()),
            None => None,
        };
        TaskConfig {
            creator: self.creator.copy(),
            target: self.target.copy(),
            function: self.function.clone(),
            args: copy_args(&self.args),
            resolver,
            interval: self.interval,
            last_run: self.last_run,
            gas_balance: self.gas_balance,
            whitelist: copy_addresses(&self.whitelist),
        }
    }

    /// Whether `keeper` may execute the task.
    pub fn admits(&self, keeper: &Address) -> (r: bool)
        ensures
            r == self@.admits(*keeper),
    {
        self.whitelist.len() == 0 || is_listed(&self.whitelist, keeper)
    }
}

/// The keys under which the engine's state is persisted.
#[derive(Copy, Clone, Debug, PartialEq, Eq, Structural)]
pub enum DataKey {
    /// One task record, by id.
    Task(u64),
    /// The last id handed out.
    Counter,
    /// The gas token's address.
    Token,
}

/// What an operation announces once it has taken effect.
#[derive(Debug)]
pub enum Notification {
    TaskRegistered { task_id: u64, creator: Address },
    GasDeposited { task_id: u64, from: Address, amount: i128 },
    GasWithdrawn { task_id: u64, creator: Address, amount: i128 },
}

/// What a keeper's `execute` call does next.
#[derive(Copy, Clone, Debug, PartialEq, Eq, Structural)]
pub enum Step {
    /// Nothing: too early, or the condition declined.
    Skip,
    /// Ask the task's resolver, then pass its reply to `after_condition`.
    CheckCondition,
    /// Invoke the target, then commit the run with `record_run`.
    Invoke,
}

} // verus!
