//! Bringing up the user store: the statements it runs, the order of the
//! steps, what a failed step leads to, and what a run does to the table.
//! The host performs each step against the database and reports whether it
//! succeeded.
use vstd::prelude::*;

verus! {

/// The database file, inside the application's data directory.
pub fn database_file_name() -> (r: &'static str)
    ensures
        r@ == "userdata.db"@,
{
    "userdata.db"
}

/// Creates the table unless it exists; it leaves existing rows alone.
pub fn create_table_sql() -> (r: &'static str)
    ensures
        r@ == "CREATE TABLE IF NOT EXISTS users (id INTEGER PRIMARY KEY, name TEXT NOT NULL)"@,
{
    "CREATE TABLE IF NOT EXISTS users (id INTEGER PRIMARY KEY, name TEXT NOT NULL)"
}

/// Appends one row, whose id the database assigns; its one parameter is the name.
pub fn insert_user_sql() -> (r: &'static str)
    ensures
        r@ == "INSERT INTO users (name) VALUES (?)"@,
{
    "INSERT INTO users (name) VALUES (?)"
}

/// Reads the name of the user with id 1.
pub fn first_user_sql() -> (r: &'static str)
    ensures
        r@ == "SELECT name FROM users WHERE id = 1"@,
{
    "SELECT name FROM users WHERE id = 1"
}

/// The name of the row that a seeding run appends.
pub open spec fn seed_name() -> Seq<char> {
    "Test User"@
}

pub fn seed_user_name() -> (r: &'static str)
    ensures
        r@ == seed_name(),
{
    "Test User"
}

/// What happens when a step of the initialization fails.
#[derive(Debug, Clone, Copy, PartialEq, Eq)]
pub enum FailurePolicy {
    /// Stop the process.
    Abort,
    /// Go on without a store; `/hello` then answers without one.
    ContinueDegraded,
}

/// How the store is brought up.
#[derive(Debug, Clone, Copy, PartialEq, Eq)]
pub struct StoreOptions {
    /// Whether each run appends a `Test User` row.
    pub seed: bool,
    pub on_failure: FailurePolicy,
}

/// A step of the initialization, or the state in which it ended.
#[derive(Debug, Clone, Copy, PartialEq, Eq)]
pub enum InitStep {
    /// Create the data directory and its parents, where missing.
    CreateDirectory,
    /// Open the database file, creating it where missing.
    OpenDatabase,
    /// Run `create_table_sql`.
    CreateTable,
    /// Run `insert_user_sql` with `seed_user_name`.
    InsertSeed,
    /// Done: the store is ready to be shared with the service.
    Ready,
    /// A step failed and the policy is to stop the process.
    Abort,
    /// A step failed and the service goes on without a store.
    Degraded,
}

/// The states in which the initialization has ended.
pub open spec fn is_final(s: InitStep) -> bool {
    s is Ready || s is Abort || s is Degraded
}

/// The step after `s`, given whether `s` succeeded.
pub open spec fn init_next(o: StoreOptions, s: InitStep, ok: bool) -> InitStep {
    if is_final(s) {
        s
    } else if !ok {
        match o.on_failure {
            FailurePolicy::Abort => InitStep::Abort,
            FailurePolicy::ContinueDegraded => InitStep::Degraded,
        }
    } else {
        match s {
            InitStep::CreateDirectory => InitStep::OpenDatabase,
            InitStep::OpenDatabase => InitStep::CreateTable,
            InitStep::CreateTable => if o.seed {
                InitStep::InsertSeed
            } else {
                InitStep::Ready
            },
            _ => InitStep::Ready,
        }
    }
}

/// The first step of every initialization.
pub fn first_init_step() -> (r: InitStep)
    ensures
        r == InitStep::CreateDirectory,
{
    InitStep::CreateDirectory
}

/// Decides the step after `current`, from whether it succeeded. A final
/// state stays as it is.
pub fn next_init_step(options: &StoreOptions, current: InitStep, succeeded: bool) -> (r: InitStep)
    ensures
        r == init_next(*options, current, succeeded),
{
    match current {
        InitStep::Ready | InitStep::Abort | InitStep::Degraded => current,
        _ => if !succeeded {
            match options.on_failure {
                FailurePolicy::Abort => InitStep::Abort,
                FailurePolicy::ContinueDegraded => InitStep::Degraded,
            }
        } else {
            match current {
                InitStep::CreateDirectory => InitStep::OpenDatabase,
                InitStep::OpenDatabase => InitStep::CreateTable,
                InitStep::CreateTable => if options.seed {
                    InitStep::InsertSeed
                } else {
                    InitStep::Ready
                },
                _ => InitStep::Ready,
            }
        },
    }
}

/// Whether a final state leaves the service a store to read.
pub fn has_store(s: InitStep) -> (r: bool)
    ensures
        r == (s is Ready),
{
    match s {
        InitStep::Ready => true,
        _ => false,
    }
}

/// The `users` table: whether it exists, and the names of its rows in the
/// order in which they were appended.
pub struct UsersTable {
    pub exists: bool,
    pub names: Seq<Seq<char>>,
}

/// What performing step `s` does to the table.
pub open spec fn apply_step(t: UsersTable, s: InitStep) -> UsersTable {
    match s {
        InitStep::CreateTable => UsersTable { exists: true, names: t.names },
        InitStep::InsertSeed => UsersTable { exists: t.exists, names: t.names.push(seed_name()) },
        _ => t,
    }
}

/// The steps that a run goes through from `s` when every step succeeds,
/// for at most `fuel` steps.
pub open spec fn steps_from(o: StoreOptions, s: InitStep, fuel: nat) -> Seq<InitStep>
    decreases fuel,
{
    if is_final(s) || fuel == 0 {
        seq![s]
    } else {
        seq![s] + steps_from(o, init_next(o, s, true), (fuel - 1) as nat)
    }
}

/// The steps of a run in which every step succeeds.
pub open spec fn successful_run(o: StoreOptions) -> Seq<InitStep> {
    steps_from(o, InitStep::CreateDirectory, 5)
}

/// The table after performing `steps` in order.
pub open spec fn apply_steps(t: UsersTable, steps: Seq<InitStep>) -> UsersTable
    decreases steps.len(),
{
    if steps.len() == 0 {
        t
    } else {
        apply_steps(apply_step(t, steps[0]), steps.drop_first())
    }
}

/// The table after `n` successful runs.
pub open spec fn after_runs(o: StoreOptions, t: UsersTable, n: nat) -> UsersTable
    decreases n,
{
    if n == 0 {
        t
    } else {
        apply_steps(after_runs(o, t, (n - 1) as nat), successful_run(o))
    }
}

/// A run in which every step succeeds creates the directory, opens the file,
/// creates the table, appends the seed row where the options ask for it,
/// and ends ready.
pub proof fn lemma_successful_run_steps(o: StoreOptions)
    ensures
        successful_run(o) == if o.seed {
            seq![
                InitStep::CreateDirectory,
                InitStep::OpenDatabase,
                InitStep::CreateTable,
                InitStep::InsertSeed,
                InitStep::Ready,
            ]
        } else {
            seq![
                InitStep::CreateDirectory,
                InitStep::OpenDatabase,
                InitStep::CreateTable,
                InitStep::Ready,
            ]
        },
{
    reveal_with_fuel(steps_from, 6);
    if o.seed {
        assert(successful_run(o) =~= seq![
            InitStep::CreateDirectory,
            InitStep::OpenDatabase,
            InitStep::CreateTable,
            InitStep::InsertSeed,
            InitStep::Ready,
        ]);
    } else {
        assert(successful_run(o) =~= seq![
            InitStep::CreateDirectory,
            InitStep::OpenDatabase,
            InitStep::CreateTable,
            InitStep::Ready,
        ]);
    }
}

/// One successful run leaves the table existing, keeps every row it held,
/// and appends the seed row where the options ask for it.
pub proof fn lemma_one_run(o: StoreOptions, t: UsersTable)
    ensures
        apply_steps(t, successful_run(o)) == (UsersTable {
            exists: true,
            names: if o.seed {
                t.names.push(seed_name())
            } else {
                t.names
            },
        }),
{
    lemma_successful_run_steps(o);
    reveal_with_fuel(apply_steps, 6);
}

/// Creating the schema is idempotent: after any number of successful runs
/// the table exists, every row that it held before is still there in its
/// place, and without seeding the rows are exactly those it held before.
pub proof fn lemma_schema_idempotent(o: StoreOptions, t: UsersTable, n: nat)
    requires
        n >= 1,
    ensures
        after_runs(o, t, n).exists,
        after_runs(o, t, n).names.len() >= t.names.len(),
        after_runs(o, t, n).names.subrange(0, t.names.len() as int) == t.names,
        !o.seed ==> after_runs(o, t, n).names == t.names,
    decreases n,
{
    let prev = after_runs(o, t, (n - 1) as nat);
    lemma_one_run(o, prev);
    if n > 1 {
        lemma_schema_idempotent(o, t, (n - 1) as nat);
        let k = t.names.len() as int;
        if o.seed {
            assert(prev.names.push(seed_name()).subrange(0, k) =~= prev.names.subrange(0, k));
        }
    } else {
        assert(t.names.subrange(0, t.names.len() as int) =~= t.names);
        if o.seed {
            assert(t.names.push(seed_name()).subrange(0, t.names.len() as int) =~= t.names);
        }
    }
}

/// With seeding, `n` successful runs append exactly `n` seed rows after the
/// rows that the table held: duplicates are kept.
pub proof fn lemma_seed_rows_accumulate(o: StoreOptions, t: UsersTable, n: nat)
    requires
        o.seed,
    ensures
        after_runs(o, t, n).names == t.names + Seq::new(n, |i: int| seed_name()),
    decreases n,
{
    if n == 0 {
        assert(t.names + Seq::new(0, |i: int| seed_name()) =~= t.names);
    } else {
        let prev = after_runs(o, t, (n - 1) as nat);
        lemma_seed_rows_accumulate(o, t, (n - 1) as nat);
        lemma_one_run(o, prev);
        assert((t.names + Seq::new((n - 1) as nat, |i: int| seed_name())).push(seed_name())
            =~= t.names + Seq::new(n, |i: int| seed_name()));
    }
}

} // verus!
