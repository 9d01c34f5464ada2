//! The order of steps in which a database is set up, opened, served, and extended by a block.
//!
//! Each procedure is a machine: it names the step that is to be performed, and is told whether the
//! step succeeded.

use vstd::prelude::*;

verus! {

// SETUP
// ------------------------------------------------------------------------------------------------

/// A step of the setup of a new database.
#[derive(Debug, Clone, Copy, PartialEq, Eq, Structural)]
pub enum SetupStep {
    /// Turn the path of the database file into text.
    ReadPath,
    /// Open a connection. This creates the file if there is none.
    Connect,
    /// Configure the connection.
    Configure,
    /// Bring the schema up to date.
    Migrate,
    /// Insert the genesis block in one transaction. This fails if there is one already.
    InsertGenesis,
}

/// What follows from a step.
#[derive(Debug, Clone, Copy, PartialEq, Eq)]
pub enum SetupProgress {
    /// Perform this step.
    Next(SetupStep),
    /// The database is set up.
    Done,
    /// The setup failed. The error of the step is to be explained by these words, if there are any.
    Failed(Option<&'static str>),
}

/// The steps of the setup, in order.
pub open spec fn setup_steps() -> Seq<SetupStep> {
    seq![
        SetupStep::ReadPath,
        SetupStep::Connect,
        SetupStep::Configure,
        SetupStep::Migrate,
        SetupStep::InsertGenesis,
    ]
}

/// The words that explain the failure of a step. A failure to configure the connection is reported
/// as it is.
pub open spec fn setup_context(step: SetupStep) -> Option<Seq<char>> {
    match step {
        SetupStep::ReadPath => Some("database filepath is invalid"@),
        SetupStep::Connect => Some("failed to open a database connection"@),
        SetupStep::Configure => None,
        SetupStep::Migrate => Some("failed to apply database migrations"@),
        SetupStep::InsertGenesis => Some("failed to insert genesis block"@),
    }
}

impl SetupStep {
    /// The place of the step among all steps.
    pub open spec fn place(self) -> int {
        match self {
            SetupStep::ReadPath => 0,
            SetupStep::Connect => 1,
            SetupStep::Configure => 2,
            SetupStep::Migrate => 3,
            SetupStep::InsertGenesis => 4,
        }
    }

    /// The first step.
    pub fn first() -> (step: Self)
        ensures
            step == setup_steps()[0],
            step == SetupStep::ReadPath,
    {
        SetupStep::ReadPath
    }

    /// The words that explain the failure of this step.
    pub fn context(self) -> (context: Option<&'static str>)
        ensures
            match context {
                Some(words) => setup_context(self) == Some(words@),
                None => setup_context(self) is None,
            },
            context is None <==> self == SetupStep::Configure,
            context matches Some(words) ==> words@ == (match self {
                SetupStep::ReadPath => "database filepath is invalid"@,
                SetupStep::Connect => "failed to open a database connection"@,
                SetupStep::Migrate => "failed to apply database migrations"@,
                _ => "failed to insert genesis block"@,
            }),
    {
        match self {
            SetupStep::ReadPath => Some("database filepath is invalid"),
            SetupStep::Connect => Some("failed to open a database connection"),
            SetupStep::Configure => None,
            SetupStep::Migrate => Some("failed to apply database migrations"),
            SetupStep::InsertGenesis => Some("failed to insert genesis block"),
        }
    }

    /// What follows from this step: the next one if it succeeded and there is one. The first failure
    /// ends the setup.
    pub fn on_result(self, succeeded: bool) -> (progress: SetupProgress)
        ensures
            succeeded && self.place() < 4 ==> progress == SetupProgress::Next(
                setup_steps()[self.place() + 1],
            ),
            succeeded && self.place() == 4 ==> progress is Done,
            !succeeded ==> (progress matches SetupProgress::Failed(context) && match context {
                Some(words) => setup_context(self) == Some(words@),
                None => setup_context(self) is None,
            }),
            succeeded ==> progress == (match self {
                SetupStep::ReadPath => SetupProgress::Next(SetupStep::Connect),
                SetupStep::Connect => SetupProgress::Next(SetupStep::Configure),
                SetupStep::Configure => SetupProgress::Next(SetupStep::Migrate),
                SetupStep::Migrate => SetupProgress::Next(SetupStep::InsertGenesis),
                SetupStep::InsertGenesis => SetupProgress::Done,
            }),
    {
        if !succeeded {
            return SetupProgress::Failed(self.context());
        }
        match self {
            SetupStep::ReadPath => SetupProgress::Next(SetupStep::Connect),
            SetupStep::Connect => SetupProgress::Next(SetupStep::Configure),
            SetupStep::Configure => SetupProgress::Next(SetupStep::Migrate),
            SetupStep::Migrate => SetupProgress::Next(SetupStep::InsertGenesis),
            SetupStep::InsertGenesis => SetupProgress::Done,
        }
    }
}

// LOADING
// ------------------------------------------------------------------------------------------------

/// A step of opening an existing database.
#[derive(Debug, Clone, Copy, PartialEq, Eq, Structural)]
pub enum LoadStep {
    /// Open a connection.
    Connect,
    /// Bring the schema up to date.
    Migrate,
}

/// What follows from a step.
#[derive(Debug, Clone, Copy, PartialEq, Eq, Structural)]
pub enum LoadProgress {
    /// Perform this step.
    Next(LoadStep),
    /// The database can be used.
    Done,
    /// The database cannot be opened. The error of the step is reported as it is.
    Failed,
}

impl LoadStep {
    /// The first step.
    pub fn first() -> (step: Self)
        ensures
            step == LoadStep::Connect,
    {
        LoadStep::Connect
    }

    /// The label of the transaction in which this step is made, if it is made in one.
    pub fn label(self) -> (label: Option<&'static str>)
        ensures
            label is Some <==> self == LoadStep::Migrate,
            label matches Some(words) ==> words@ == "migrations"@,
    {
        match self {
            LoadStep::Connect => None,
            LoadStep::Migrate => Some("migrations"),
        }
    }

    /// What follows from this step. A database is used only if its schema is up to date.
    pub fn on_result(self, succeeded: bool) -> (progress: LoadProgress)
        ensures
            progress == (if !succeeded {
                LoadProgress::Failed
            } else if self == LoadStep::Connect {
                LoadProgress::Next(LoadStep::Migrate)
            } else {
                LoadProgress::Done
            }),
    {
        if !succeeded {
            return LoadProgress::Failed;
        }
        match self {
            LoadStep::Connect => LoadProgress::Next(LoadStep::Migrate),
            LoadStep::Migrate => LoadProgress::Done,
        }
    }
}

// SERVING
// ------------------------------------------------------------------------------------------------

/// A step of starting the store.
#[derive(Debug, Clone, Copy, PartialEq, Eq, Structural)]
pub enum StartStep {
    /// Take the socket address from the URL.
    ResolveAddress,
    /// Listen on the address.
    Bind,
    /// Load the data.
    Load,
    /// Serve requests until the store is shut down.
    Serve,
}

/// What follows from a step.
#[derive(Debug, Clone, Copy, PartialEq, Eq)]
pub enum StartProgress {
    /// Perform this step.
    Next(StartStep),
    /// The store was shut down.
    Done,
    /// The store cannot be served. The error of the step is to be explained by these words.
    Failed(&'static str),
}

/// The words that explain the failure of a step.
pub open spec fn start_context(step: StartStep) -> Seq<char> {
    match step {
        StartStep::ResolveAddress => "Failed to extract socket address from store URL"@,
        StartStep::Bind => "Failed to bind to store's gRPC URL"@,
        StartStep::Load => "Loading store"@,
        StartStep::Serve => "Serving store"@,
    }
}

impl StartStep {
    /// The first step.
    pub fn first() -> (step: Self)
        ensures
            step == StartStep::ResolveAddress,
    {
        StartStep::ResolveAddress
    }

    /// The words that explain the failure of this step.
    pub fn context(self) -> (context: &'static str)
        ensures
            context@ == start_context(self),
            context@ == (match self {
                StartStep::ResolveAddress => "Failed to extract socket address from store URL"@,
                StartStep::Bind => "Failed to bind to store's gRPC URL"@,
                StartStep::Load => "Loading store"@,
                StartStep::Serve => "Serving store"@,
            }),
    {
        match self {
            StartStep::ResolveAddress => "Failed to extract socket address from store URL",
            StartStep::Bind => "Failed to bind to store's gRPC URL",
            StartStep::Load => "Loading store",
            StartStep::Serve => "Serving store",
        }
    }

    /// What follows from this step. Nothing is loaded before the address is taken, and nothing is
    /// served before the data is loaded.
    pub fn on_result(self, succeeded: bool) -> (progress: StartProgress)
        ensures
            succeeded ==> progress == (match self {
                StartStep::ResolveAddress => StartProgress::Next(StartStep::Bind),
                StartStep::Bind => StartProgress::Next(StartStep::Load),
                StartStep::Load => StartProgress::Next(StartStep::Serve),
                StartStep::Serve => StartProgress::Done,
            }),
            !succeeded ==> (progress matches StartProgress::Failed(context) && context@
                == start_context(self)),
    {
        if !succeeded {
            return StartProgress::Failed(self.context());
        }
        match self {
            StartStep::ResolveAddress => StartProgress::Next(StartStep::Bind),
            StartStep::Bind => StartProgress::Next(StartStep::Load),
            StartStep::Load => StartProgress::Next(StartStep::Serve),
            StartStep::Serve => StartProgress::Done,
        }
    }
}

// BLOCKS
// ------------------------------------------------------------------------------------------------

/// What is written to the database for a block, with a header of type `H`, a signature of type `S`,
/// notes of type `N`, nullifiers of type `L`, accounts of type `A` and transactions of type `T`.
#[derive(Debug, PartialEq, Eq)]
pub struct BlockUpdate<H, S, N, L, A, T> {
    pub header: H,
    pub signature: S,
    pub notes: Vec<N>,
    pub created_nullifiers: Vec<L>,
    pub updated_accounts: A,
    pub transactions: T,
}

/// What is written for a block.
pub fn block_update<H, S, N, L, A, T>(
    header: H,
    signature: S,
    notes: Vec<N>,
    created_nullifiers: Vec<L>,
    updated_accounts: A,
    transactions: T,
) -> (update: BlockUpdate<H, S, N, L, A, T>)
    ensures
        update == (BlockUpdate {
            header,
            signature,
            notes,
            created_nullifiers,
            updated_accounts,
            transactions,
        }),
{
    BlockUpdate { header, signature, notes, created_nullifiers, updated_accounts, transactions }
}

/// What is written for the genesis block: it has neither notes nor nullifiers.
pub fn genesis_update<H, S, N, L, A, T>(
    header: H,
    signature: S,
    updated_accounts: A,
    transactions: T,
) -> (update: BlockUpdate<H, S, N, L, A, T>)
    ensures
        update.header == header,
        update.signature == signature,
        update.notes@ == Seq::<N>::empty(),
        update.created_nullifiers@ == Seq::<L>::empty(),
        update.updated_accounts == updated_accounts,
        update.transactions == transactions,
{
    block_update(header, signature, Vec::new(), Vec::new(), updated_accounts, transactions)
}

/// A step of the transaction that extends the database by a block.
#[derive(Debug, Clone, Copy, PartialEq, Eq, Structural)]
pub enum ApplyStep {
    /// Write the block.
    ApplyBlock,
    /// Tell the holder of the in-memory trees that the block is written.
    AllowAcquire,
    /// Prune what has become history with this block.
    PruneHistory { block_num: u32 },
    /// Wait until the in-memory trees are locked.
    AwaitAcquire,
}

/// What follows from a step.
#[derive(Debug, Clone, Copy, PartialEq, Eq, Structural)]
pub enum ApplyProgress {
    /// Perform this step.
    Next(ApplyStep),
    /// Commit the transaction.
    Commit,
    /// Roll the transaction back. The error of the step is reported as it is.
    RollBack,
}

/// The transaction that extends the database by a block.
#[derive(Debug, Clone, Copy, PartialEq, Eq, Structural)]
pub struct BlockApplication {
    pub block_num: u32,
}

/// The steps of a block's transaction, in order.
pub open spec fn apply_steps(block_num: u32) -> Seq<ApplyStep> {
    seq![
        ApplyStep::ApplyBlock,
        ApplyStep::AllowAcquire,
        ApplyStep::PruneHistory { block_num },
        ApplyStep::AwaitAcquire,
    ]
}

/// Whether the failure of a step is only worth a warning. That nobody waits for the notification
/// does not make the block less valid.
pub open spec fn is_optional(step: ApplyStep) -> bool {
    step is AllowAcquire
}

impl ApplyStep {
    /// The place of the step among all steps.
    pub open spec fn place(self) -> int {
        match self {
            ApplyStep::ApplyBlock => 0,
            ApplyStep::AllowAcquire => 1,
            ApplyStep::PruneHistory { .. } => 2,
            ApplyStep::AwaitAcquire => 3,
        }
    }

    /// The warning for the failure of this step, if it is only worth a warning.
    pub fn warning(self) -> (warning: Option<&'static str>)
        ensures
            warning is Some <==> is_optional(self),
            warning is Some <==> self is AllowAcquire,
            warning matches Some(words) ==> words@
                == "failed to send notification for successful block application, potential deadlock"@,
    {
        match self {
            ApplyStep::AllowAcquire => Some(
                "failed to send notification for successful block application, potential deadlock",
            ),
            _ => None,
        }
    }
}

impl BlockApplication {
    /// The label of the transaction.
    pub fn label(self) -> (label: &'static str)
        ensures
            label@ == "apply block"@,
    {
        "apply block"
    }

    /// The first step.
    pub fn first(self) -> (step: ApplyStep)
        ensures
            step == apply_steps(self.block_num)[0],
            step == ApplyStep::ApplyBlock,
    {
        ApplyStep::ApplyBlock
    }

    /// What follows from a step.
    pub fn on_result(self, step: ApplyStep, succeeded: bool) -> (progress: ApplyProgress)
        ensures
            progress == after_step(self.block_num, step.place(), succeeded),
            progress == ApplyProgress::Next(ApplyStep::AllowAcquire) <==> step is ApplyBlock
                && succeeded,
            progress == ApplyProgress::Next(
                ApplyStep::PruneHistory { block_num: self.block_num },
            ) <==> step is AllowAcquire,
            progress == ApplyProgress::Next(ApplyStep::AwaitAcquire) <==> step is PruneHistory
                && succeeded,
            progress is Commit <==> step is AwaitAcquire && succeeded,
            progress is RollBack <==> !succeeded && !(step is AllowAcquire),
    {
        match step {
            ApplyStep::ApplyBlock => if succeeded {
                ApplyProgress::Next(ApplyStep::AllowAcquire)
            } else {
                ApplyProgress::RollBack
            },
            ApplyStep::AllowAcquire => ApplyProgress::Next(
                ApplyStep::PruneHistory { block_num: self.block_num },
            ),
            ApplyStep::PruneHistory { .. } => if succeeded {
                ApplyProgress::Next(ApplyStep::AwaitAcquire)
            } else {
                ApplyProgress::RollBack
            },
            ApplyStep::AwaitAcquire => if succeeded {
                ApplyProgress::Commit
            } else {
                ApplyProgress::RollBack
            },
        }
    }
}

/// What follows from the step in a place: the next one, or the commit after the last one, unless the
/// step failed and is not optional.
pub open spec fn after_step(block_num: u32, place: int, succeeded: bool) -> ApplyProgress {
    if !succeeded && !is_optional(apply_steps(block_num)[place]) {
        ApplyProgress::RollBack
    } else if place < 3 {
        ApplyProgress::Next(apply_steps(block_num)[place + 1])
    } else {
        ApplyProgress::Commit
    }
}

// LAWS
// ------------------------------------------------------------------------------------------------

/// Where a block's transaction ends up after the given results of its steps from a place on.
pub open spec fn after_results(block_num: u32, place: int, results: Seq<bool>) -> ApplyProgress
    decreases results.len(),
{
    if results.len() == 0 {
        ApplyProgress::Next(apply_steps(block_num)[place])
    } else {
        match after_step(block_num, place, results[0]) {
            ApplyProgress::Next(step) => after_results(block_num, step.place(), results.skip(1)),
            end => end,
        }
    }
}

/// A block is committed exactly if it was written, its history was pruned and the in-memory trees
/// were locked, in this order. Whether the notification arrived does not matter.
pub proof fn law_block_is_committed_if_every_step_succeeds(block_num: u32, results: Seq<bool>)
    requires
        results.len() == 4,
    ensures
        after_results(block_num, 0, results) == ApplyProgress::Commit <==> results[0] && results[2]
            && results[3],
        after_results(block_num, 0, results) == ApplyProgress::RollBack <==> !(results[0]
            && results[2] && results[3]),
{
    reveal_with_fuel(after_results, 5);
    let rest = results.skip(1);
    assert(rest.skip(1) =~= results.skip(2));
    assert(results.skip(2).skip(1) =~= results.skip(3));
    assert(results.skip(3).skip(1) =~= results.skip(4));
}

/// Nobody is told of a block that was not written, and nothing is pruned before that.
pub proof fn law_unwritten_block_is_not_announced(block_num: u32, rest: Seq<bool>)
    ensures
        after_results(block_num, 0, seq![false] + rest) == ApplyProgress::RollBack,
{
    assert((seq![false] + rest)[0] == false);
}

/// The block is written first. Once it is written, and not before, the holder of the in-memory trees
/// is told; after that, whether the word arrived or not, the history as of the same block is pruned;
/// once it is pruned, and not before, the in-memory trees are awaited; and only when they are locked
/// is the transaction committed. The failure of any step but the telling rolls it back.
pub proof fn law_block_is_written_announced_pruned_and_locked(block_num: u32, step: ApplyStep)
    ensures
        after_results(block_num, 0, Seq::empty()) == ApplyProgress::Next(ApplyStep::ApplyBlock),
        after_step(block_num, step.place(), true) == (match step {
            ApplyStep::ApplyBlock => ApplyProgress::Next(ApplyStep::AllowAcquire),
            ApplyStep::AllowAcquire => ApplyProgress::Next(ApplyStep::PruneHistory { block_num }),
            ApplyStep::PruneHistory { .. } => ApplyProgress::Next(ApplyStep::AwaitAcquire),
            ApplyStep::AwaitAcquire => ApplyProgress::Commit,
        }),
        after_step(block_num, step.place(), false) == (if step is AllowAcquire {
            ApplyProgress::Next(ApplyStep::PruneHistory { block_num })
        } else {
            ApplyProgress::RollBack
        }),
{
}

/// Which step a block's transaction has come to tells what has happened so far: the word is sent only
/// of a block that was written, the trees are awaited only after the word was sent and the history
/// was pruned, and the transaction is committed only after the trees were locked. It is rolled back
/// only after one of these three failed.
pub proof fn law_each_step_follows_from_those_before(block_num: u32, results: Seq<bool>)
    ensures
        match after_results(block_num, 0, results) {
            ApplyProgress::Next(ApplyStep::ApplyBlock) => results.len() == 0,
            ApplyProgress::Next(ApplyStep::AllowAcquire) => results.len() == 1 && results[0],
            ApplyProgress::Next(ApplyStep::PruneHistory { block_num: pruned }) => pruned
                == block_num && results.len() == 2 && results[0],
            ApplyProgress::Next(ApplyStep::AwaitAcquire) => results.len() == 3 && results[0]
                && results[2],
            ApplyProgress::Commit => results.len() >= 4 && results[0] && results[2] && results[3],
            ApplyProgress::RollBack => results.len() >= 1 && (!results[0] || (results.len() >= 3 && (
            !results[2] || (results.len() >= 4 && !results[3])))),
        },
{
    reveal_with_fuel(after_results, 5);
    if results.len() >= 2 {
        assert(results.skip(1).skip(1) =~= results.skip(2));
    }
    if results.len() >= 3 {
        assert(results.skip(2).skip(1) =~= results.skip(3));
    }
    if results.len() >= 4 {
        assert(results.skip(3).skip(1) =~= results.skip(4));
    }
}

/// Where the setup ends up after the given results of its steps from a step on: the step that is to
/// be performed next, if the setup neither failed nor is done.
pub open spec fn setup_after(place: int, results: Seq<bool>) -> Option<SetupStep>
    decreases results.len(),
{
    if !(0 <= place < setup_steps().len()) {
        None
    } else if results.len() == 0 {
        Some(setup_steps()[place])
    } else if results[0] {
        setup_after(place + 1, results.skip(1))
    } else {
        None
    }
}

/// Each step of the setup is performed only after all those before it succeeded: the path is read,
/// the connection opened and configured, the schema brought up to date, and the genesis block
/// inserted, in this order.
pub proof fn law_setup_steps_follow_each_other(results: Seq<bool>)
    ensures
        match setup_after(0, results) {
            Some(SetupStep::ReadPath) => results.len() == 0,
            Some(SetupStep::Connect) => results == seq![true],
            Some(SetupStep::Configure) => results == seq![true, true],
            Some(SetupStep::Migrate) => results == seq![true, true, true],
            Some(SetupStep::InsertGenesis) => results == seq![true, true, true, true],
            None => results.contains(false) || results.len() >= 5,
        },
{
    reveal_with_fuel(setup_after, 6);
    if results.len() >= 2 {
        assert(results.skip(1).skip(1) =~= results.skip(2));
    }
    if results.len() >= 3 {
        assert(results.skip(2).skip(1) =~= results.skip(3));
    }
    if results.len() >= 4 {
        assert(results.skip(3).skip(1) =~= results.skip(4));
    }
    if results.len() >= 5 {
        assert(results.skip(4).skip(1) =~= results.skip(5));
    }
}

/// Each step of the setup that fails is explained by its own words, but for the configuration of the
/// connection, whose error is reported as it is.
pub proof fn law_setup_failures_are_told_apart(a: SetupStep, b: SetupStep)
    requires
        setup_context(a) == setup_context(b),
    ensures
        a == b,
        setup_context(a) is None <==> a == SetupStep::Configure,
{
    reveal_strlit("database filepath is invalid");
    reveal_strlit("failed to open a database connection");
    reveal_strlit("failed to apply database migrations");
    reveal_strlit("failed to insert genesis block");
    assert("database filepath is invalid"@.len() == 28);
    assert("failed to open a database connection"@.len() == 36);
    assert("failed to apply database migrations"@.len() == 35);
    assert("failed to insert genesis block"@.len() == 30);
}

/// The place of a setup step tells which step it is.
pub proof fn law_setup_steps_are_in_place(step: SetupStep)
    ensures
        0 <= step.place() < setup_steps().len(),
        setup_steps()[step.place()] == step,
{
}

} // verus!
