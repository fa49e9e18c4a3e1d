//! Lifecycle operations as resumable sequences of commands.
//!
//! An [`Operation`] is one lifecycle operation under way. It names the
//! command it waits for ([`Operation::pending`]), takes the host's reply
//! ([`Operation::resume`]) and ends in an outcome ([`Operation::outcome`]).
//! What an operation does is laid down by its model, [`OperationView`]:
//! the executable operation is proved to follow it step by step.

use std::collections::VecDeque;
use vstd::prelude::*;
use crate::error::{outcome_view, KpmError, KpmErrorView};
use crate::helper::{
    check_kpm_configured, check_version, probe_is_configured, version_fault, HelperExit,
    HelperExitView,
};
use crate::protocol::{
    Command, CommandView, IoOutcome, IoOutcomeView, Listing, ListingView, Reply, ReplyView,
};
use crate::store::{
    enumerate_module_files, find_kpm_file, find_module, module_files, ModuleFile, ModuleFileView,
};

verus! {

/// The work on all module files of the directory that an operation is for.
#[derive(Debug, Clone, Copy, PartialEq, Eq)]
pub enum Batch {
    /// Unload and delete every module; failure to reach the directory is an error.
    Purge,
    /// The same at a start in safe mode, where no failure is reported.
    SafePurge,
    /// Load every module.
    BulkLoad,
}

/// What is to follow once the helper is known to work and the directory exists.
#[derive(Debug, Clone, Copy, PartialEq, Eq)]
pub enum Goal {
    /// Nothing: the directory was all that was asked for.
    Directory,
    /// The startup sequence goes on to ask for safe mode.
    Boot,
    /// The directory is listed for a batch.
    Batch(Batch),
}

/// How far the check of the helper and of the directory has come.
#[derive(Debug, Clone, Copy, PartialEq, Eq)]
pub enum EnsureStage {
    /// Waiting for the helper's version.
    Version,
    /// Waiting for a look at the helper's file.
    Probe,
    /// Waiting to hear whether the directory exists.
    Exists,
    /// Waiting for the directory to be created.
    Create,
}

/// How far the unloading of one module has come.
#[derive(Debug, Clone, PartialEq, Eq)]
pub enum UnloadStage {
    /// Waiting for the helper to unload the module.
    Helper,
    /// The helper succeeded; waiting to hear whether the directory exists.
    Exists,
    /// Waiting for the directory listing in which to find the module's file.
    Listing,
    /// Waiting for the module's file, found at this path, to be deleted.
    Deleting(String),
}

/// The mathematical counterpart of [`UnloadStage`].
pub enum UnloadStageView {
    Helper,
    Exists,
    Listing,
    Deleting(Seq<char>),
}

impl View for UnloadStage {
    type V = UnloadStageView;

    open spec fn view(&self) -> UnloadStageView {
        match self {
            UnloadStage::Helper => UnloadStageView::Helper,
            UnloadStage::Exists => UnloadStageView::Exists,
            UnloadStage::Listing => UnloadStageView::Listing,
            UnloadStage::Deleting(path) => UnloadStageView::Deleting(path@),
        }
    }
}

/// What one step of an unloading leads to.
pub enum UnloadProgress {
    /// The unloading goes on at this stage.
    Next(UnloadStage),
    /// The unloading has ended.
    Done(Result<(), KpmError>),
}

/// The mathematical counterpart of [`UnloadProgress`].
pub enum UnloadProgressView {
    Next(UnloadStageView),
    Done(Result<(), KpmErrorView>),
}

impl View for UnloadProgress {
    type V = UnloadProgressView;

    open spec fn view(&self) -> UnloadProgressView {
        match self {
            UnloadProgress::Next(stage) => UnloadProgressView::Next(stage@),
            UnloadProgress::Done(outcome) => UnloadProgressView::Done(outcome_view(*outcome)),
        }
    }
}

/// Where the handling of one file stands while a series of modules is
/// unloaded and their files are deleted.
#[derive(Debug, Clone, PartialEq, Eq)]
pub enum SweepStage {
    /// The module is being unloaded.
    Unloading(UnloadStage),
    /// The unloading has ended, well or not; waiting for the file itself to
    /// be deleted.
    Deleting,
}

/// The mathematical counterpart of [`SweepStage`].
pub enum SweepStageView {
    Unloading(UnloadStageView),
    Deleting,
}

impl View for SweepStage {
    type V = SweepStageView;

    open spec fn view(&self) -> SweepStageView {
        match self {
            SweepStage::Unloading(stage) => SweepStageView::Unloading(stage@),
            SweepStage::Deleting => SweepStageView::Deleting,
        }
    }
}

/// A lifecycle operation under way.
#[derive(Debug, PartialEq, Eq)]
pub enum Operation {
    /// Making sure that the helper works and that the directory exists.
    Ensuring { check: EnsureStage, goal: Goal },
    /// The startup sequence waits to hear whether the device is in safe mode.
    AwaitingSafeMode,
    /// The startup sequence waits for the subscription to directory changes.
    Subscribing,
    /// Waiting for the directory listing that a batch works through.
    Listing { batch: Batch },
    /// Loading one module, whose failure is the operation's failure.
    Loading { path: String },
    /// Loading a series of modules: the one at `path` now, those in `queue`
    /// after it, whatever comes of each.
    BatchLoading { path: String, queue: VecDeque<String> },
    /// Unloading one module, whose failure is the operation's failure.
    Unloading { name: String, stage: UnloadStage },
    /// Unloading a series of modules and deleting their files: `file` now,
    /// those in `rest` after it, whatever comes of each.
    Sweeping { file: ModuleFile, turn: SweepStage, rest: VecDeque<ModuleFile> },
    /// The operation has ended with this outcome.
    Finished(Result<(), KpmError>),
}

/// The model of an operation: its state as mathematical data, and the rules
/// by which it moves.
pub enum OperationView {
    Ensuring { check: EnsureStage, goal: Goal },
    AwaitingSafeMode,
    Subscribing,
    Listing { batch: Batch },
    Loading { path: Seq<char> },
    BatchLoading { path: Seq<char>, queue: Seq<Seq<char>> },
    Unloading { name: Seq<char>, stage: UnloadStageView },
    Sweeping { file: ModuleFileView, turn: SweepStageView, rest: Seq<ModuleFileView> },
    Finished(Result<(), KpmErrorView>),
}

impl View for Operation {
    type V = OperationView;

    open spec fn view(&self) -> OperationView {
        match self {
            Operation::Ensuring { check, goal } => OperationView::Ensuring {
                check: *check,
                goal: *goal,
            },
            Operation::AwaitingSafeMode => OperationView::AwaitingSafeMode,
            Operation::Subscribing => OperationView::Subscribing,
            Operation::Listing { batch } => OperationView::Listing { batch: *batch },
            Operation::Loading { path } => OperationView::Loading { path: path@ },
            Operation::BatchLoading { path, queue } => OperationView::BatchLoading {
                path: path@,
                queue: queue.deep_view(),
            },
            Operation::Unloading { name, stage } => OperationView::Unloading {
                name: name@,
                stage: stage@,
            },
            Operation::Sweeping { file, turn, rest } => OperationView::Sweeping {
                file: file@,
                turn: turn@,
                rest: rest.deep_view(),
            },
            Operation::Finished(outcome) => OperationView::Finished(outcome_view(*outcome)),
        }
    }
}

/// The error for a helper whose file is missing or may not be executed.
pub open spec fn not_executable() -> KpmErrorView {
    KpmErrorView::HelperUnavailable("the helper is missing or not executable"@)
}

/// What loading one module comes to: success is an exit status of zero and
/// nothing else.
pub open spec fn load_outcome(exit: HelperExitView) -> Result<(), KpmErrorView> {
    match exit {
        HelperExitView::NotStarted(message) => Err(KpmErrorView::HelperExecution(message)),
        HelperExitView::Exited(success) => if success {
            Ok(())
        } else {
            Err(KpmErrorView::HelperReported(Seq::<char>::empty()))
        },
    }
}

/// The command that an unloading of the module `name` waits for at a stage.
pub open spec fn unload_pending(name: Seq<char>, stage: UnloadStageView) -> CommandView {
    match stage {
        UnloadStageView::Helper => CommandView::Unload(name),
        UnloadStageView::Exists => CommandView::ProbeDirectory,
        UnloadStageView::Listing => CommandView::ListDirectory,
        UnloadStageView::Deleting(path) => CommandView::Delete(path),
    }
}

/// One step of unloading the module `name`.
///
/// A helper that cannot be started is an error. A helper that refuses ends
/// the unloading without error and without touching any file. After a helper
/// that succeeded, the module's file is looked for by name and deleted; that
/// there is no directory or no such file is no error, and neither is a
/// deletion that fails. Only a directory that cannot be read is one. A reply
/// that does not answer the pending command changes nothing.
pub open spec fn unload_step(
    name: Seq<char>,
    stage: UnloadStageView,
    reply: ReplyView,
) -> UnloadProgressView {
    match (stage, reply) {
        (UnloadStageView::Helper, ReplyView::Exited(HelperExitView::NotStarted(message))) => {
            UnloadProgressView::Done(Err(KpmErrorView::HelperExecution(message)))
        },
        (UnloadStageView::Helper, ReplyView::Exited(HelperExitView::Exited(success))) => {
            if success {
                UnloadProgressView::Next(UnloadStageView::Exists)
            } else {
                UnloadProgressView::Done(Ok(()))
            }
        },
        (UnloadStageView::Exists, ReplyView::DirectoryExists(exists)) => {
            if exists {
                UnloadProgressView::Next(UnloadStageView::Listing)
            } else {
                UnloadProgressView::Done(Ok(()))
            }
        },
        (UnloadStageView::Listing, ReplyView::Listed(ListingView::Failed(message))) => {
            UnloadProgressView::Done(Err(KpmErrorView::DirectoryAccess(message)))
        },
        (UnloadStageView::Listing, ReplyView::Listed(ListingView::Entries(entries))) => {
            match find_module(name, entries) {
                Some(path) => UnloadProgressView::Next(UnloadStageView::Deleting(path)),
                None => UnloadProgressView::Done(Ok(())),
            }
        },
        (UnloadStageView::Deleting(_), ReplyView::Deleted(_)) => UnloadProgressView::Done(Ok(())),
        _ => UnloadProgressView::Next(stage),
    }
}

impl OperationView {
    /// The state in which the helper and the directory are checked on the
    /// way to a goal.
    pub open spec fn ensuring(goal: Goal) -> OperationView {
        OperationView::Ensuring { check: EnsureStage::Version, goal }
    }

    /// Where an operation goes when it cannot reach its goal: it ends with
    /// the error, except at a start in safe mode, which reports none.
    pub open spec fn give_up(goal: Goal, error: KpmErrorView) -> OperationView {
        if goal == Goal::Batch(Batch::SafePurge) {
            OperationView::Finished(Ok(()))
        } else {
            OperationView::Finished(Err(error))
        }
    }

    /// Where an operation goes once the helper works and the directory exists.
    pub open spec fn ensured(goal: Goal) -> OperationView {
        match goal {
            Goal::Directory => OperationView::Finished(Ok(())),
            Goal::Boot => OperationView::AwaitingSafeMode,
            Goal::Batch(batch) => OperationView::Listing { batch },
        }
    }

    /// Loading the modules at these paths one after the other.
    pub open spec fn begin_loading(paths: Seq<Seq<char>>) -> OperationView {
        if paths.len() == 0 {
            OperationView::Finished(Ok(()))
        } else {
            OperationView::BatchLoading { path: paths[0], queue: paths.drop_first() }
        }
    }

    /// Unloading these modules and deleting their files one after the other.
    pub open spec fn begin_sweep(files: Seq<ModuleFileView>) -> OperationView {
        if files.len() == 0 {
            OperationView::Finished(Ok(()))
        } else {
            OperationView::Sweeping {
                file: files[0],
                turn: SweepStageView::Unloading(UnloadStageView::Helper),
                rest: files.drop_first(),
            }
        }
    }

    /// The batch that works through a directory listing.
    pub open spec fn begin_batch(batch: Batch, entries: Seq<Seq<char>>) -> OperationView {
        match batch {
            Batch::BulkLoad => Self::begin_loading(
                module_files(entries).map_values(|file: ModuleFileView| file.path),
            ),
            _ => Self::begin_sweep(module_files(entries)),
        }
    }

    /// The command that the operation waits for; none once it has ended.
    pub open spec fn pending(self) -> Option<CommandView> {
        match self {
            OperationView::Ensuring { check, goal } => Some(
                match check {
                    EnsureStage::Version => CommandView::QueryVersion,
                    EnsureStage::Probe => CommandView::ProbeHelper,
                    EnsureStage::Exists => CommandView::ProbeDirectory,
                    EnsureStage::Create => CommandView::CreateDirectory,
                },
            ),
            OperationView::AwaitingSafeMode => Some(CommandView::QuerySafeMode),
            OperationView::Subscribing => Some(CommandView::Subscribe),
            OperationView::Listing { batch } => Some(CommandView::ListDirectory),
            OperationView::Loading { path } => Some(CommandView::Load(path)),
            OperationView::BatchLoading { path, queue } => Some(CommandView::Load(path)),
            OperationView::Unloading { name, stage } => Some(unload_pending(name, stage)),
            OperationView::Sweeping { file, turn, rest } => Some(
                match turn {
                    SweepStageView::Unloading(stage) => unload_pending(file.name, stage),
                    SweepStageView::Deleting => CommandView::Delete(file.path),
                },
            ),
            OperationView::Finished(_) => None,
        }
    }

    /// Whether the operation has ended.
    pub open spec fn finished(self) -> bool {
        self is Finished
    }

    /// The state that follows when the host hands in a reply.
    ///
    /// The helper is given up, before anything is done to the directory,
    /// when its version query fails or answers with an error text, and when
    /// its file is missing or not executable. The directory is created only
    /// where it does not exist. In safe mode the startup sequence purges the
    /// directory and reports no failure; otherwise it subscribes to changes.
    /// Within a batch every module gets its turn, whatever came of the ones
    /// before; after each unloading of a sweep the file itself is deleted,
    /// whatever came of the unloading and whatever comes of the deletion.
    /// A reply that does not answer the pending command changes nothing.
    pub open spec fn resume(self, reply: ReplyView) -> OperationView {
        match (self, reply) {
            (
                OperationView::Ensuring { check: EnsureStage::Version, goal },
                ReplyView::Version(output),
            ) => match version_fault(output) {
                Some(error) => Self::give_up(goal, error),
                None => OperationView::Ensuring { check: EnsureStage::Probe, goal },
            },
            (
                OperationView::Ensuring { check: EnsureStage::Probe, goal },
                ReplyView::Probe(probe),
            ) => if probe_is_configured(probe) {
                OperationView::Ensuring { check: EnsureStage::Exists, goal }
            } else {
                Self::give_up(goal, not_executable())
            },
            (
                OperationView::Ensuring { check: EnsureStage::Exists, goal },
                ReplyView::DirectoryExists(exists),
            ) => if exists {
                Self::ensured(goal)
            } else {
                OperationView::Ensuring { check: EnsureStage::Create, goal }
            },
            (
                OperationView::Ensuring { check: EnsureStage::Create, goal },
                ReplyView::DirectoryCreated(outcome),
            ) => match outcome {
                IoOutcomeView::Done => Self::ensured(goal),
                IoOutcomeView::Failed(message) => Self::give_up(
                    goal,
                    KpmErrorView::DirectoryCreation(message),
                ),
            },
            (OperationView::AwaitingSafeMode, ReplyView::SafeMode(safe)) => if safe {
                Self::ensuring(Goal::Batch(Batch::SafePurge))
            } else {
                OperationView::Subscribing
            },
            (OperationView::Subscribing, ReplyView::Subscribed(outcome)) => match outcome {
                IoOutcomeView::Done => OperationView::Finished(Ok(())),
                IoOutcomeView::Failed(message) => OperationView::Finished(
                    Err(KpmErrorView::WatchFailed(message)),
                ),
            },
            (OperationView::Listing { batch }, ReplyView::Listed(listing)) => match listing {
                ListingView::Entries(entries) => Self::begin_batch(batch, entries),
                ListingView::Failed(message) => Self::give_up(
                    Goal::Batch(batch),
                    KpmErrorView::DirectoryAccess(message),
                ),
            },
            (OperationView::Loading { path }, ReplyView::Exited(exit)) => OperationView::Finished(
                load_outcome(exit),
            ),
            (OperationView::BatchLoading { path, queue }, ReplyView::Exited(_)) => {
                Self::begin_loading(queue)
            },
            (OperationView::Unloading { name, stage }, _) => match unload_step(
                name,
                stage,
                reply,
            ) {
                UnloadProgressView::Next(stage) => OperationView::Unloading { name, stage },
                UnloadProgressView::Done(outcome) => OperationView::Finished(outcome),
            },
            (
                OperationView::Sweeping { file, turn: SweepStageView::Unloading(stage), rest },
                _,
            ) => match unload_step(file.name, stage, reply) {
                UnloadProgressView::Next(stage) => OperationView::Sweeping {
                    file,
                    turn: SweepStageView::Unloading(stage),
                    rest,
                },
                UnloadProgressView::Done(_) => OperationView::Sweeping {
                    file,
                    turn: SweepStageView::Deleting,
                    rest,
                },
            },
            (
                OperationView::Sweeping { file, turn: SweepStageView::Deleting, rest },
                ReplyView::Deleted(_),
            ) => Self::begin_sweep(rest),
            _ => self,
        }
    }
}

/// Moves the items of a list into a queue, keeping their order.
fn into_queue<T>(items: Vec<T>) -> (queue: VecDeque<T>)
    ensures
        queue@ == items@,
{
    let mut items = items;
    let mut queue: VecDeque<T> = VecDeque::new();
    let ghost all = items@;
    while items.len() > 0
        invariant
            items@ + queue@ == all,
        decreases items.len(),
    {
        let ghost before = items@;
        let ghost behind = queue@;
        let item = items.pop().unwrap();
        queue.push_front(item);
        assert(items@ + queue@ =~= before + behind);
    }
    assert(queue@ =~= items@ + queue@);
    queue
}

/// The paths of module files, in their order.
fn paths_of(files: Vec<ModuleFile>) -> (paths: VecDeque<String>)
    ensures
        paths.deep_view() == files.deep_view().map_values(|file: ModuleFileView| file.path),
{
    let mut paths: VecDeque<String> = VecDeque::new();
    let mut i: usize = 0;
    while i < files.len()
        invariant
            i <= files.len(),
            paths.deep_view() == files.deep_view().take(i as int).map_values(
                |file: ModuleFileView| file.path,
            ),
        decreases files.len() - i,
    {
        let ghost before = paths.deep_view();
        paths.push_back(files[i].path.clone());
        assert(paths.deep_view() =~= before.push(files[i as int].path@));
        assert(files.deep_view().take(i + 1).map_values(|file: ModuleFileView| file.path)
            =~= before.push(files[i as int].path@));
        i += 1;
    }
    assert(files.deep_view().take(i as int) == files.deep_view());
    paths
}

/// Reads the helper's exit status as the outcome of loading one module.
pub fn load_result(exit: HelperExit) -> (outcome: Result<(), KpmError>)
    ensures
        outcome_view(outcome) == load_outcome(exit@),
{
    match exit {
        HelperExit::NotStarted(message) => Err(KpmError::HelperExecution(message)),
        HelperExit::Exited(success) => {
            if success {
                Ok(())
            } else {
                Err(KpmError::HelperReported(String::new()))
            }
        },
    }
}

/// Takes one step of unloading the module `name`.
pub fn advance_unload(name: &str, stage: UnloadStage, reply: Reply) -> (progress: UnloadProgress)
    ensures
        progress@ == unload_step(name@, stage@, reply@),
{
    match (stage, reply) {
        (UnloadStage::Helper, Reply::Exited(HelperExit::NotStarted(message))) => {
            UnloadProgress::Done(Err(KpmError::HelperExecution(message)))
        },
        (UnloadStage::Helper, Reply::Exited(HelperExit::Exited(success))) => {
            if success {
                UnloadProgress::Next(UnloadStage::Exists)
            } else {
                UnloadProgress::Done(Ok(()))
            }
        },
        (UnloadStage::Exists, Reply::DirectoryExists(exists)) => {
            if exists {
                UnloadProgress::Next(UnloadStage::Listing)
            } else {
                UnloadProgress::Done(Ok(()))
            }
        },
        (UnloadStage::Listing, Reply::Listed(Listing::Failed(message))) => {
            UnloadProgress::Done(Err(KpmError::DirectoryAccess(message)))
        },
        (UnloadStage::Listing, Reply::Listed(Listing::Entries(entries))) => {
            match find_kpm_file(name, &entries) {
                Some(path) => UnloadProgress::Next(UnloadStage::Deleting(path)),
                None => UnloadProgress::Done(Ok(())),
            }
        },
        (UnloadStage::Deleting(_), Reply::Deleted(_)) => UnloadProgress::Done(Ok(())),
        (stage, _) => UnloadProgress::Next(stage),
    }
}

impl UnloadStage {
    /// The command that an unloading of the module `name` waits for at this stage.
    pub fn pending(&self, name: &String) -> (command: Command)
        ensures
            command@ == unload_pending(name@, self@),
    {
        match self {
            UnloadStage::Helper => Command::Unload(name.clone()),
            UnloadStage::Exists => Command::ProbeDirectory,
            UnloadStage::Listing => Command::ListDirectory,
            UnloadStage::Deleting(path) => Command::Delete(path.clone()),
        }
    }
}

impl Operation {
    fn give_up(goal: Goal, error: KpmError) -> (next: Operation)
        ensures
            next@ == OperationView::give_up(goal, error@),
    {
        match goal {
            Goal::Batch(Batch::SafePurge) => Operation::Finished(Ok(())),
            _ => Operation::Finished(Err(error)),
        }
    }

    fn ensured(goal: Goal) -> (next: Operation)
        ensures
            next@ == OperationView::ensured(goal),
    {
        match goal {
            Goal::Directory => Operation::Finished(Ok(())),
            Goal::Boot => Operation::AwaitingSafeMode,
            Goal::Batch(batch) => Operation::Listing { batch },
        }
    }

    /// Begins to load the modules at these paths one after the other.
    pub fn begin_loading(paths: VecDeque<String>) -> (next: Operation)
        ensures
            next@ == OperationView::begin_loading(paths.deep_view()),
    {
        let mut queue = paths;
        let ghost all = queue.deep_view();
        match queue.pop_front() {
            Some(path) => {
                assert(queue.deep_view() =~= all.drop_first());
                Operation::BatchLoading { path, queue }
            },
            None => Operation::Finished(Ok(())),
        }
    }

    /// Begins to unload these modules and delete their files one after the other.
    pub fn begin_sweep(files: VecDeque<ModuleFile>) -> (next: Operation)
        ensures
            next@ == OperationView::begin_sweep(files.deep_view()),
    {
        let mut rest = files;
        let ghost all = rest.deep_view();
        match rest.pop_front() {
            Some(file) => {
                assert(rest.deep_view() =~= all.drop_first());
                Operation::Sweeping {
                    file,
                    turn: SweepStage::Unloading(UnloadStage::Helper),
                    rest,
                }
            },
            None => Operation::Finished(Ok(())),
        }
    }

    fn begin_batch(batch: Batch, entries: &Vec<String>) -> (next: Operation)
        ensures
            next@ == OperationView::begin_batch(batch, entries.deep_view()),
    {
        let files = enumerate_module_files(entries);
        match batch {
            Batch::BulkLoad => Operation::begin_loading(paths_of(files)),
            _ => {
                let queue = into_queue(files);
                assert(queue.deep_view() =~= files.deep_view());
                Operation::begin_sweep(queue)
            },
        }
    }

    /// The command that the operation waits for; none once it has ended.
    pub fn pending(&self) -> (command: Option<Command>)
        ensures
            match command {
                Some(command) => self@.pending() == Some(command@),
                None => self@.pending() is None,
            },
    {
        match self {
            Operation::Ensuring { check, goal } => Some(
                match check {
                    EnsureStage::Version => Command::QueryVersion,
                    EnsureStage::Probe => Command::ProbeHelper,
                    EnsureStage::Exists => Command::ProbeDirectory,
                    EnsureStage::Create => Command::CreateDirectory,
                },
            ),
            Operation::AwaitingSafeMode => Some(Command::QuerySafeMode),
            Operation::Subscribing => Some(Command::Subscribe),
            Operation::Listing { batch } => Some(Command::ListDirectory),
            Operation::Loading { path } => Some(Command::Load(path.clone())),
            Operation::BatchLoading { path, queue } => Some(Command::Load(path.clone())),
            Operation::Unloading { name, stage } => Some(stage.pending(name)),
            Operation::Sweeping { file, turn, rest } => Some(
                match turn {
                    SweepStage::Unloading(stage) => stage.pending(&file.name),
                    SweepStage::Deleting => Command::Delete(file.path.clone()),
                },
            ),
            Operation::Finished(_) => None,
        }
    }

    /// Tells whether the operation has ended.
    pub fn is_finished(&self) -> (yes: bool)
        ensures
            yes == self@.finished(),
    {
        match self {
            Operation::Finished(_) => true,
            _ => false,
        }
    }

    /// The outcome of the operation, once it has ended.
    pub fn outcome(&self) -> (outcome: Option<&Result<(), KpmError>>)
        ensures
            match outcome {
                Some(outcome) => self@ == OperationView::Finished(outcome_view(*outcome)),
                None => !self@.finished(),
            },
    {
        match self {
            Operation::Finished(outcome) => Some(outcome),
            _ => None,
        }
    }

    /// Takes the host's reply to the pending command and moves on.
    pub fn resume(self, reply: Reply) -> (next: Operation)
        ensures
            next@ == self@.resume(reply@),
    {
        match self {
            Operation::Ensuring { check, goal } => match (check, reply) {
                (EnsureStage::Version, Reply::Version(output)) => match check_version(&output) {
                    Some(error) => Operation::give_up(goal, error),
                    None => Operation::Ensuring { check: EnsureStage::Probe, goal },
                },
                (EnsureStage::Probe, Reply::Probe(probe)) => {
                    if check_kpm_configured(&probe) {
                        Operation::Ensuring { check: EnsureStage::Exists, goal }
                    } else {
                        Operation::give_up(
                            goal,
                            KpmError::HelperUnavailable(
                                "the helper is missing or not executable".to_owned(),
                            ),
                        )
                    }
                },
                (EnsureStage::Exists, Reply::DirectoryExists(exists)) => {
                    if exists {
                        Operation::ensured(goal)
                    } else {
                        Operation::Ensuring { check: EnsureStage::Create, goal }
                    }
                },
                (EnsureStage::Create, Reply::DirectoryCreated(outcome)) => match outcome {
                    IoOutcome::Done => Operation::ensured(goal),
                    IoOutcome::Failed(message) => Operation::give_up(
                        goal,
                        KpmError::DirectoryCreation(message),
                    ),
                },
                (check, _) => Operation::Ensuring { check, goal },
            },
            Operation::AwaitingSafeMode => match reply {
                Reply::SafeMode(safe) => {
                    if safe {
                        Operation::Ensuring {
                            check: EnsureStage::Version,
                            goal: Goal::Batch(Batch::SafePurge),
                        }
                    } else {
                        Operation::Subscribing
                    }
                },
                _ => Operation::AwaitingSafeMode,
            },
            Operation::Subscribing => match reply {
                Reply::Subscribed(IoOutcome::Done) => Operation::Finished(Ok(())),
                Reply::Subscribed(IoOutcome::Failed(message)) => Operation::Finished(
                    Err(KpmError::WatchFailed(message)),
                ),
                _ => Operation::Subscribing,
            },
            Operation::Listing { batch } => match reply {
                Reply::Listed(Listing::Entries(entries)) => Operation::begin_batch(
                    batch,
                    &entries,
                ),
                Reply::Listed(Listing::Failed(message)) => Operation::give_up(
                    Goal::Batch(batch),
                    KpmError::DirectoryAccess(message),
                ),
                _ => Operation::Listing { batch },
            },
            Operation::Loading { path } => match reply {
                Reply::Exited(exit) => Operation::Finished(load_result(exit)),
                _ => Operation::Loading { path },
            },
            Operation::BatchLoading { path, queue } => match reply {
                Reply::Exited(_) => Operation::begin_loading(queue),
                _ => Operation::BatchLoading { path, queue },
            },
            Operation::Unloading { name, stage } => {
                match advance_unload(name.as_str(), stage, reply) {
                    UnloadProgress::Next(stage) => Operation::Unloading { name, stage },
                    UnloadProgress::Done(outcome) => Operation::Finished(outcome),
                }
            },
            Operation::Sweeping { file, turn, rest } => match turn {
                SweepStage::Unloading(stage) => {
                    match advance_unload(file.name.as_str(), stage, reply) {
                        UnloadProgress::Next(stage) => Operation::Sweeping {
                            file,
                            turn: SweepStage::Unloading(stage),
                            rest,
                        },
                        UnloadProgress::Done(_) => Operation::Sweeping {
                            file,
                            turn: SweepStage::Deleting,
                            rest,
                        },
                    }
                },
                SweepStage::Deleting => match reply {
                    Reply::Deleted(_) => Operation::begin_sweep(rest),
                    _ => Operation::Sweeping { file, turn: SweepStage::Deleting, rest },
                },
            },
            Operation::Finished(outcome) => Operation::Finished(outcome),
        }
    }
}

/// Begins the check that the helper works, followed by the creation of the
/// module directory where it does not exist.
pub fn ensure_kpm_dir() -> (operation: Operation)
    ensures
        operation@ == OperationView::ensuring(Goal::Directory),
{
    Operation::Ensuring { check: EnsureStage::Version, goal: Goal::Directory }
}

/// Begins to load the module file at `path`. The outcome is that of the
/// helper: an error where it could not be started or exited with a failure.
pub fn load_kpm(path: &str) -> (operation: Operation)
    ensures
        operation@ == (OperationView::Loading { path: path@ }),
{
    Operation::Loading { path: path.to_owned() }
}

/// Begins to unload the module `name` and, where the helper succeeds, to
/// delete the module's file.
pub fn unload_kpm(name: &str) -> (operation: Operation)
    ensures
        operation@ == (OperationView::Unloading { name: name@, stage: UnloadStageView::Helper }),
{
    Operation::Unloading { name: name.to_owned(), stage: UnloadStage::Helper }
}

/// Begins to unload every module of the directory and to delete its file.
pub fn remove_all_kpms() -> (operation: Operation)
    ensures
        operation@ == OperationView::ensuring(Goal::Batch(Batch::Purge)),
{
    Operation::Ensuring { check: EnsureStage::Version, goal: Goal::Batch(Batch::Purge) }
}

/// Begins to load every module of the directory.
pub fn load_kpm_modules() -> (operation: Operation)
    ensures
        operation@ == OperationView::ensuring(Goal::Batch(Batch::BulkLoad)),
{
    Operation::Ensuring { check: EnsureStage::Version, goal: Goal::Batch(Batch::BulkLoad) }
}

} // verus!
