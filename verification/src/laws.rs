//! What holds of every run of an operation, whatever the host answers.

use vstd::prelude::*;
use crate::helper::{probe_is_configured, version_fault, HelperExitView, HelperOutputView, HelperProbe};
use crate::operation::{
    unload_step, Batch, Goal, OperationView, SweepStageView, UnloadProgressView, UnloadStageView,
};
use crate::protocol::{CommandView, ListingView, Removal, ReplyView};
use crate::store::{find_module, module_files, module_paths, named_files, ModuleFileView};
use crate::watcher::{on_create, on_event, on_remove, KpmEventView};

verus! {

/// The state that an operation has reached when the host has handed in
/// these replies one after the other.
pub open spec fn run(operation: OperationView, replies: Seq<ReplyView>) -> OperationView
    decreases replies.len(),
{
    if replies.len() == 0 {
        operation
    } else {
        run(operation.resume(replies[0]), replies.drop_first())
    }
}

/// The commands that the host has carried out in the course of these
/// replies: each pending command that was answered, in order.
pub open spec fn performed(operation: OperationView, replies: Seq<ReplyView>) -> Seq<CommandView>
    decreases replies.len(),
{
    if replies.len() == 0 {
        Seq::empty()
    } else {
        let later = performed(operation.resume(replies[0]), replies.drop_first());
        match operation.pending() {
            Some(command) => if replies[0].answers(command) {
                seq![command] + later
            } else {
                later
            },
            None => later,
        }
    }
}

/// A reply that does not answer the pending command changes nothing, and
/// neither does any reply to an operation that has ended.
pub proof fn unanswering_reply_is_ignored(operation: OperationView, reply: ReplyView)
    requires
        operation.pending() matches Some(command) ==> !reply.answers(command),
    ensures
        operation.resume(reply) == operation,
{
}

/// The deletion of a file that is no longer there counts like a deletion
/// that removed it, and no answer to a deletion makes an operation fail.
pub proof fn deleting_absent_file_is_success(operation: OperationView, removal: Removal)
    requires
        operation.pending() matches Some(CommandView::Delete(_)),
    ensures
        operation.resume(ReplyView::Deleted(Removal::Absent)) == operation.resume(
            ReplyView::Deleted(Removal::Removed),
        ),
        operation.resume(ReplyView::Deleted(removal)) == operation.resume(
            ReplyView::Deleted(Removal::Removed),
        ),
        !(operation.resume(ReplyView::Deleted(removal)) matches OperationView::Finished(Err(_))),
{
}

/// Unloading a module whose file is not there is no error. Whether the
/// directory is missing or holds no module file of that name, the
/// unloading ends well once the helper has run, and no file is deleted.
pub proof fn unload_without_file_succeeds(
    name: Seq<char>,
    success: bool,
    entries: Seq<Seq<char>>,
)
    requires
        find_module(name, entries) is None,
    ensures
        ({
            let start = OperationView::Unloading { name, stage: UnloadStageView::Helper };
            let exited = ReplyView::Exited(HelperExitView::Exited(success));
            let missing = seq![exited, ReplyView::DirectoryExists(false)];
            let listed = seq![
                exited,
                ReplyView::DirectoryExists(true),
                ReplyView::Listed(ListingView::Entries(entries)),
            ];
            &&& run(start, missing) == OperationView::Finished(Ok(()))
            &&& run(start, listed) == OperationView::Finished(Ok(()))
            &&& forall|i: int|
                0 <= i < performed(start, missing).len() ==> !(#[trigger] performed(
                    start,
                    missing,
                )[i] is Delete)
            &&& forall|i: int|
                0 <= i < performed(start, listed).len() ==> !(#[trigger] performed(
                    start,
                    listed,
                )[i] is Delete)
        }),
{
    let start = OperationView::Unloading { name, stage: UnloadStageView::Helper };
    let exited = ReplyView::Exited(HelperExitView::Exited(success));
    let missing = seq![exited, ReplyView::DirectoryExists(false)];
    let listed = seq![
        exited,
        ReplyView::DirectoryExists(true),
        ReplyView::Listed(ListingView::Entries(entries)),
    ];
    reveal_with_fuel(run, 4);
    reveal_with_fuel(performed, 4);
    assert(missing.drop_first() =~= seq![ReplyView::DirectoryExists(false)]);
    assert(missing.drop_first().drop_first() =~= Seq::<ReplyView>::empty());
    assert(listed.drop_first() =~= seq![
        ReplyView::DirectoryExists(true),
        ReplyView::Listed(ListingView::Entries(entries)),
    ]);
    assert(listed.drop_first().drop_first() =~= seq![
        ReplyView::Listed(ListingView::Entries(entries)),
    ]);
    assert(listed.drop_first().drop_first().drop_first() =~= Seq::<ReplyView>::empty());
}

/// An operation that has ended stays as it is and has nothing more carried out.
pub proof fn finished_operation_rests(operation: OperationView, replies: Seq<ReplyView>)
    requires
        operation.finished(),
    ensures
        run(operation, replies) == operation,
        performed(operation, replies) == Seq::<CommandView>::empty(),
    decreases replies.len(),
{
    if replies.len() > 0 {
        finished_operation_rests(operation, replies.drop_first());
    }
}

/// Where the helper is unavailable, nothing is done to the directory and
/// nothing to any module. Whatever an operation is for (the directory
/// alone, the startup sequence, a purge or a bulk load), it ends when the
/// version query fails or answers with an error text, or when the helper's
/// file is missing or not executable; all that the host has carried out by
/// then is the version query and, where that went well, the look at the
/// helper's file. The operation ends with `HelperUnavailable`; only the
/// purge within a start in safe mode, which reports no failure, ends well.
pub proof fn unavailable_helper_stops_everything(
    goal: Goal,
    output: HelperOutputView,
    probe: HelperProbe,
    later: Seq<ReplyView>,
)
    requires
        version_fault(output) is Some || !probe_is_configured(probe),
    ensures
        ({
            let start = OperationView::ensuring(goal);
            let replies = seq![ReplyView::Version(output), ReplyView::Probe(probe)] + later;
            &&& goal != Goal::Batch(Batch::SafePurge) ==> (run(start, replies)
                matches OperationView::Finished(Err(error)) && error is HelperUnavailable)
            &&& goal == Goal::Batch(Batch::SafePurge) ==> run(start, replies)
                == OperationView::Finished(Ok(()))
            &&& performed(start, replies) == if version_fault(output) is Some {
                seq![CommandView::QueryVersion]
            } else {
                seq![CommandView::QueryVersion, CommandView::ProbeHelper]
            }
        }),
{
    let start = OperationView::ensuring(goal);
    let replies = seq![ReplyView::Version(output), ReplyView::Probe(probe)] + later;
    let second = start.resume(replies[0]);
    let third = second.resume(replies[1]);
    reveal_with_fuel(run, 3);
    reveal_with_fuel(performed, 3);
    assert(replies.drop_first().drop_first() =~= later);
    assert(replies.drop_first()[0] == replies[1]);
    if version_fault(output) is Some {
        finished_operation_rests(second, replies.drop_first());
        assert(performed(start, replies) =~= seq![CommandView::QueryVersion]);
    } else {
        finished_operation_rests(third, later);
        assert(performed(start, replies) =~= seq![
            CommandView::QueryVersion,
            CommandView::ProbeHelper,
        ]);
    }
}

/// The load commands for a series of paths, one for each, in order.
pub open spec fn loads_of(paths: Seq<Seq<char>>) -> Seq<CommandView> {
    paths.map_values(|path: Seq<char>| CommandView::Load(path))
}

/// A series of loads that has come to its end has tried every path exactly
/// once, in order, and nothing else; it ends well whatever the helper made
/// of any of them.
pub proof fn batch_load_tries_each_path_once(paths: Seq<Seq<char>>, replies: Seq<ReplyView>)
    requires
        run(OperationView::begin_loading(paths), replies).finished(),
    ensures
        performed(OperationView::begin_loading(paths), replies) == loads_of(paths),
        run(OperationView::begin_loading(paths), replies) == OperationView::Finished(Ok(())),
    decreases replies.len(),
{
    let start = OperationView::begin_loading(paths);
    if paths.len() == 0 {
        finished_operation_rests(start, replies);
        assert(loads_of(paths) =~= Seq::<CommandView>::empty());
    } else if replies.len() > 0 {
        let next = start.resume(replies[0]);
        if replies[0] is Exited {
            batch_load_tries_each_path_once(paths.drop_first(), replies.drop_first());
            assert(loads_of(paths) =~= seq![CommandView::Load(paths[0])] + loads_of(
                paths.drop_first(),
            ));
        } else {
            assert(next == start);
            batch_load_tries_each_path_once(paths, replies.drop_first());
        }
    }
}

/// For every creation notice, each path with the module extension is
/// loaded exactly once: when the handling of the notice has ended, the
/// host has carried out one load for each such path, in the order of the
/// notice, and nothing else.
pub proof fn create_event_loads_each_module_once(paths: Seq<Seq<char>>, replies: Seq<ReplyView>)
    requires
        run(on_create(paths), replies).finished(),
    ensures
        performed(on_create(paths), replies) == loads_of(module_paths(paths)),
        run(on_create(paths), replies) == OperationView::Finished(Ok(())),
{
    batch_load_tries_each_path_once(module_paths(paths), replies);
}

/// The names of the modules that the commands unload, in order.
pub open spec fn unloads_in(commands: Seq<CommandView>) -> Seq<Seq<char>>
    decreases commands.len(),
{
    if commands.len() == 0 {
        Seq::empty()
    } else {
        let later = unloads_in(commands.drop_first());
        match commands[0] {
            CommandView::Unload(name) => seq![name] + later,
            _ => later,
        }
    }
}

/// The logical names of a series of module files, in order.
pub open spec fn names_of(files: Seq<ModuleFileView>) -> Seq<Seq<char>> {
    files.map_values(|file: ModuleFileView| file.name)
}

/// What a sweep that stands at `file` still has to unload: the module of
/// that file, unless its unloading is already past the helper, and the
/// modules of the files that wait.
pub open spec fn unloads_ahead(
    file: ModuleFileView,
    turn: SweepStageView,
    rest: Seq<ModuleFileView>,
) -> Seq<Seq<char>> {
    if turn == SweepStageView::Unloading(UnloadStageView::Helper) {
        seq![file.name] + names_of(rest)
    } else {
        names_of(rest)
    }
}

/// A sweep that has come to its end from a state in its midst has unloaded
/// exactly what lay ahead of it there.
proof fn sweep_unloads_what_lies_ahead(
    file: ModuleFileView,
    turn: SweepStageView,
    rest: Seq<ModuleFileView>,
    replies: Seq<ReplyView>,
)
    requires
        run(OperationView::Sweeping { file, turn, rest }, replies).finished(),
    ensures
        unloads_in(performed(OperationView::Sweeping { file, turn, rest }, replies))
            == unloads_ahead(file, turn, rest),
        run(OperationView::Sweeping { file, turn, rest }, replies) == OperationView::Finished(
            Ok(()),
        ),
    decreases replies.len(),
{
    let here = OperationView::Sweeping { file, turn, rest };
    assert(replies.len() > 0);
    let command = here.pending().unwrap();
    let reply = replies[0];
    let next = here.resume(reply);
    let later = replies.drop_first();
    if !reply.answers(command) {
        unanswering_reply_is_ignored(here, reply);
        sweep_unloads_what_lies_ahead(file, turn, rest, later);
    } else {
        let trace = performed(here, replies);
        let tail = performed(next, later);
        assert(trace == seq![command] + tail);
        assert(trace[0] == command);
        assert(trace.drop_first() =~= tail);
        assert(unloads_in(trace) == match command {
            CommandView::Unload(name) => seq![name] + unloads_in(tail),
            _ => unloads_in(tail),
        });
        match turn {
            SweepStageView::Unloading(stage) => {
                let moved = match unload_step(file.name, stage, reply) {
                    UnloadProgressView::Next(stage) => SweepStageView::Unloading(stage),
                    UnloadProgressView::Done(_) => SweepStageView::Deleting,
                };
                assert(next == OperationView::Sweeping { file, turn: moved, rest });
                assert(moved != SweepStageView::Unloading(UnloadStageView::Helper));
                sweep_unloads_what_lies_ahead(file, moved, rest, later);
            },
            SweepStageView::Deleting => {
                assert(next == OperationView::begin_sweep(rest));
                if rest.len() == 0 {
                    finished_operation_rests(next, later);
                    assert(names_of(rest) =~= Seq::<Seq<char>>::empty());
                } else {
                    sweep_unloads_what_lies_ahead(
                        rest[0],
                        SweepStageView::Unloading(UnloadStageView::Helper),
                        rest.drop_first(),
                        later,
                    );
                    assert(names_of(rest) =~= seq![rest[0].name] + names_of(rest.drop_first()));
                }
            },
        }
    }
}

/// A sweep attempts every unloading: when it has come to its end, the host
/// has been asked to unload the module of each file exactly once, in
/// order, whatever came of the unloadings and deletions before; and the
/// sweep ends well.
pub proof fn sweep_unloads_every_module(files: Seq<ModuleFileView>, replies: Seq<ReplyView>)
    requires
        run(OperationView::begin_sweep(files), replies).finished(),
    ensures
        unloads_in(performed(OperationView::begin_sweep(files), replies)) == names_of(files),
        run(OperationView::begin_sweep(files), replies) == OperationView::Finished(Ok(())),
{
    if files.len() == 0 {
        finished_operation_rests(OperationView::begin_sweep(files), replies);
        assert(names_of(files) =~= Seq::<Seq<char>>::empty());
    } else {
        sweep_unloads_what_lies_ahead(
            files[0],
            SweepStageView::Unloading(UnloadStageView::Helper),
            files.drop_first(),
            replies,
        );
        assert(names_of(files) =~= seq![files[0].name] + names_of(files.drop_first()));
    }
}

/// A purge attempts exactly as many unloadings as the directory holds
/// module files. When a purge, at startup in safe mode or on its own, has
/// been handed the listing of the directory and has come to its end, the
/// host has been asked to unload the module of each module file of the
/// listing exactly once, in order, even where some of them failed.
pub proof fn purge_unloads_every_module(
    batch: Batch,
    entries: Seq<Seq<char>>,
    later: Seq<ReplyView>,
)
    requires
        batch != Batch::BulkLoad,
        run(
            OperationView::Listing { batch },
            seq![ReplyView::Listed(ListingView::Entries(entries))] + later,
        ).finished(),
    ensures
        unloads_in(
            performed(
                OperationView::Listing { batch },
                seq![ReplyView::Listed(ListingView::Entries(entries))] + later,
            ),
        ) == names_of(module_files(entries)),
        run(
            OperationView::Listing { batch },
            seq![ReplyView::Listed(ListingView::Entries(entries))] + later,
        ) == OperationView::Finished(Ok(())),
{
    let start = OperationView::Listing { batch };
    let replies = seq![ReplyView::Listed(ListingView::Entries(entries))] + later;
    let files = module_files(entries);
    assert(replies.drop_first() =~= later);
    assert(start.resume(replies[0]) == OperationView::begin_sweep(files));
    sweep_unloads_every_module(files, later);
    let trace = performed(start, replies);
    assert(trace == seq![CommandView::ListDirectory] + performed(
        OperationView::begin_sweep(files),
        later,
    ));
    assert(trace.drop_first() =~= performed(OperationView::begin_sweep(files), later));
}

/// The same from the first step of a purge. Where the helper is available
/// and the directory exists, a purge that has come to its end has asked
/// for the unloading of every module file of the listing exactly once.
pub proof fn purge_from_the_start_unloads_every_module(
    output: HelperOutputView,
    probe: HelperProbe,
    entries: Seq<Seq<char>>,
    later: Seq<ReplyView>,
)
    requires
        version_fault(output) is None,
        probe_is_configured(probe),
        run(
            OperationView::ensuring(Goal::Batch(Batch::Purge)),
            seq![
                ReplyView::Version(output),
                ReplyView::Probe(probe),
                ReplyView::DirectoryExists(true),
                ReplyView::Listed(ListingView::Entries(entries)),
            ] + later,
        ).finished(),
    ensures
        unloads_in(
            performed(
                OperationView::ensuring(Goal::Batch(Batch::Purge)),
                seq![
                    ReplyView::Version(output),
                    ReplyView::Probe(probe),
                    ReplyView::DirectoryExists(true),
                    ReplyView::Listed(ListingView::Entries(entries)),
                ] + later,
            ),
        ) == names_of(module_files(entries)),
{
    let start = OperationView::ensuring(Goal::Batch(Batch::Purge));
    let listed = ReplyView::Listed(ListingView::Entries(entries));
    let replies = seq![
        ReplyView::Version(output),
        ReplyView::Probe(probe),
        ReplyView::DirectoryExists(true),
        listed,
    ] + later;
    let from_listing = seq![listed] + later;
    let listing = OperationView::Listing { batch: Batch::Purge };
    reveal_with_fuel(run, 4);
    reveal_with_fuel(performed, 4);
    reveal_with_fuel(unloads_in, 4);
    assert(replies.drop_first().drop_first().drop_first() =~= from_listing);
    assert(replies.drop_first()[0] == replies[1]);
    assert(replies.drop_first().drop_first()[0] == replies[2]);
    assert(run(start, replies) == run(listing, from_listing));
    purge_unloads_every_module(Batch::Purge, entries, later);
    let tail = performed(listing, from_listing);
    let trace = performed(start, replies);
    assert(trace == seq![CommandView::QueryVersion] + (seq![CommandView::ProbeHelper] + (
        seq![CommandView::ProbeDirectory] + tail)));
    let t1 = seq![CommandView::ProbeHelper] + (seq![CommandView::ProbeDirectory] + tail);
    let t2 = seq![CommandView::ProbeDirectory] + tail;
    assert(trace.drop_first() =~= t1);
    assert(t1.drop_first() =~= t2);
    assert(t2.drop_first() =~= tail);
}

/// A bulk load tries every module file of the directory. When a bulk load
/// has been handed the listing of the directory and has come to its end,
/// the host has been asked to load each module file of the listing exactly
/// once, in order, whatever the helper made of the ones before.
pub proof fn bulk_load_tries_every_module(entries: Seq<Seq<char>>, later: Seq<ReplyView>)
    requires
        run(
            OperationView::Listing { batch: Batch::BulkLoad },
            seq![ReplyView::Listed(ListingView::Entries(entries))] + later,
        ).finished(),
    ensures
        performed(
            OperationView::Listing { batch: Batch::BulkLoad },
            seq![ReplyView::Listed(ListingView::Entries(entries))] + later,
        ) == seq![CommandView::ListDirectory] + loads_of(
            module_files(entries).map_values(|file: ModuleFileView| file.path),
        ),
        run(
            OperationView::Listing { batch: Batch::BulkLoad },
            seq![ReplyView::Listed(ListingView::Entries(entries))] + later,
        ) == OperationView::Finished(Ok(())),
{
    let start = OperationView::Listing { batch: Batch::BulkLoad };
    let replies = seq![ReplyView::Listed(ListingView::Entries(entries))] + later;
    let paths = module_files(entries).map_values(|file: ModuleFileView| file.path);
    assert(replies.drop_first() =~= later);
    assert(start.resume(replies[0]) == OperationView::begin_loading(paths));
    batch_load_tries_each_path_once(paths, later);
}

/// For every removal notice, the module named by each path with a file
/// stem is unloaded exactly once, in the order of the notice, and the
/// handling ends well whatever came of the unloadings and deletions.
pub proof fn remove_event_unloads_each_name(paths: Seq<Seq<char>>, replies: Seq<ReplyView>)
    requires
        run(on_remove(paths), replies).finished(),
    ensures
        unloads_in(performed(on_remove(paths), replies)) == names_of(named_files(paths)),
        run(on_remove(paths), replies) == OperationView::Finished(Ok(())),
{
    sweep_unloads_every_module(named_files(paths), replies);
}

/// A command that is carried out later in a run is among those carried out.
proof fn later_command_is_performed(
    first: CommandView,
    later: Seq<CommandView>,
    command: CommandView,
)
    requires
        later.contains(command),
    ensures
        (seq![first] + later).contains(command),
{
    let at = choose|i: int| 0 <= i < later.len() && later[i] == command;
    assert((seq![first] + later)[at + 1] == command);
}

/// A sweep that has come to its end from a state in its midst has had the
/// file it stood at deleted, and every file that waited.
proof fn sweep_deletes_what_lies_ahead(
    file: ModuleFileView,
    turn: SweepStageView,
    rest: Seq<ModuleFileView>,
    replies: Seq<ReplyView>,
)
    requires
        run(OperationView::Sweeping { file, turn, rest }, replies).finished(),
    ensures
        performed(OperationView::Sweeping { file, turn, rest }, replies).contains(
            CommandView::Delete(file.path),
        ),
        forall|i: int|
            0 <= i < rest.len() ==> performed(
                OperationView::Sweeping { file, turn, rest },
                replies,
            ).contains(CommandView::Delete(#[trigger] rest[i].path)),
    decreases replies.len(),
{
    let here = OperationView::Sweeping { file, turn, rest };
    assert(replies.len() > 0);
    let command = here.pending().unwrap();
    let reply = replies[0];
    let next = here.resume(reply);
    let later = replies.drop_first();
    if !reply.answers(command) {
        unanswering_reply_is_ignored(here, reply);
        sweep_deletes_what_lies_ahead(file, turn, rest, later);
    } else {
        let trace = performed(here, replies);
        let tail = performed(next, later);
        assert(trace == seq![command] + tail);
        match turn {
            SweepStageView::Unloading(stage) => {
                let moved = match unload_step(file.name, stage, reply) {
                    UnloadProgressView::Next(stage) => SweepStageView::Unloading(stage),
                    UnloadProgressView::Done(_) => SweepStageView::Deleting,
                };
                assert(next == OperationView::Sweeping { file, turn: moved, rest });
                sweep_deletes_what_lies_ahead(file, moved, rest, later);
                later_command_is_performed(command, tail, CommandView::Delete(file.path));
                assert forall|i: int| 0 <= i < rest.len() implies trace.contains(
                    CommandView::Delete(#[trigger] rest[i].path),
                ) by {
                    later_command_is_performed(command, tail, CommandView::Delete(rest[i].path));
                }
            },
            SweepStageView::Deleting => {
                assert(trace[0] == CommandView::Delete(file.path));
                assert(next == OperationView::begin_sweep(rest));
                if rest.len() > 0 {
                    sweep_deletes_what_lies_ahead(
                        rest[0],
                        SweepStageView::Unloading(UnloadStageView::Helper),
                        rest.drop_first(),
                        later,
                    );
                    assert forall|i: int| 0 <= i < rest.len() implies trace.contains(
                        CommandView::Delete(#[trigger] rest[i].path),
                    ) by {
                        if i > 0 {
                            assert(rest[i] == rest.drop_first()[i - 1]);
                        }
                        later_command_is_performed(
                            command,
                            tail,
                            CommandView::Delete(rest[i].path),
                        );
                    }
                }
            },
        }
    }
}

/// A sweep attempts every deletion: when it has come to its end, the host
/// has been asked to delete the path of each of its files, whatever came of
/// the unloading of that module or of any other.
pub proof fn sweep_deletes_every_file(
    files: Seq<ModuleFileView>,
    replies: Seq<ReplyView>,
    i: int,
)
    requires
        run(OperationView::begin_sweep(files), replies).finished(),
        0 <= i < files.len(),
    ensures
        performed(OperationView::begin_sweep(files), replies).contains(
            CommandView::Delete(files[i].path),
        ),
{
    sweep_deletes_what_lies_ahead(
        files[0],
        SweepStageView::Unloading(UnloadStageView::Helper),
        files.drop_first(),
        replies,
    );
    if i > 0 {
        assert(files[i] == files.drop_first()[i - 1]);
    }
}

/// Whether an operation is in a state from which it cannot end in an error:
/// a purge at a start in safe mode, or the work through a batch.
pub open spec fn cannot_fail(operation: OperationView) -> bool {
    match operation {
        OperationView::Ensuring { check, goal } => goal == Goal::Batch(Batch::SafePurge),
        OperationView::Listing { batch } => batch == Batch::SafePurge,
        OperationView::BatchLoading { path, queue } => true,
        OperationView::Sweeping { file, turn, rest } => true,
        OperationView::Finished(outcome) => outcome is Ok,
        _ => false,
    }
}

/// Failures within a batch, and any failure of a purge in safe mode, are
/// never reported: from a state that cannot fail, every run leads to states
/// that cannot fail, so that the operation, if it ends, ends well.
pub proof fn tolerant_operation_never_fails(operation: OperationView, replies: Seq<ReplyView>)
    requires
        cannot_fail(operation),
    ensures
        cannot_fail(run(operation, replies)),
        run(operation, replies).finished() ==> run(operation, replies) == OperationView::Finished(
            Ok(()),
        ),
    decreases replies.len(),
{
    if replies.len() > 0 {
        tolerant_operation_never_fails(operation.resume(replies[0]), replies.drop_first());
    }
    if let OperationView::Finished(Ok(unit)) = run(operation, replies) {
        assert(unit == ());
    }
}

/// The handling of an event never reports a failure, and neither does what
/// a start in safe mode does after it has learnt of the safe mode.
pub proof fn events_and_safe_mode_are_tolerant(event: KpmEventView)
    ensures
        cannot_fail(on_event(event)),
        cannot_fail(OperationView::AwaitingSafeMode.resume(ReplyView::SafeMode(true))),
{
}

} // verus!
