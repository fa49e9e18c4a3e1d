//! The event watcher and the startup sequence: how a change in the module
//! directory becomes a lifecycle operation.

use std::collections::VecDeque;
use vstd::prelude::*;
use crate::operation::{EnsureStage, Goal, Operation, OperationView};
use crate::store::{
    has_module_extension, has_name, is_module_path, module_name, module_paths, named_file,
    named_files, ModuleFile,
};

verus! {

/// The kinds of change that the watcher tells apart.
#[derive(Debug, Clone, Copy, PartialEq, Eq)]
pub enum EventKind {
    /// Something was created.
    Create,
    /// Something was removed.
    Remove,
    /// The content, name or metadata of something changed.
    Modify,
    /// Anything else.
    Other,
}

/// A change in the module directory: its kind and the paths it is about.
#[derive(Debug, Clone, PartialEq, Eq)]
pub struct KpmEvent {
    pub kind: EventKind,
    pub paths: Vec<String>,
}

/// The mathematical counterpart of [`KpmEvent`].
pub struct KpmEventView {
    pub kind: EventKind,
    pub paths: Seq<Seq<char>>,
}

impl View for KpmEvent {
    type V = KpmEventView;

    open spec fn view(&self) -> KpmEventView {
        KpmEventView { kind: self.kind, paths: self.paths.deep_view() }
    }
}

/// What a creation brings about: every path with the module extension is
/// loaded, in the order of the event.
pub open spec fn on_create(paths: Seq<Seq<char>>) -> OperationView {
    OperationView::begin_loading(module_paths(paths))
}

/// What a removal brings about: for every path with a file stem, whatever
/// its extension, the module of that name is unloaded and the path deleted.
pub open spec fn on_remove(paths: Seq<Seq<char>>) -> OperationView {
    OperationView::begin_sweep(named_files(paths))
}

/// What an event brings about. Modifications and events of other kinds
/// bring about nothing.
pub open spec fn on_event(event: KpmEventView) -> OperationView {
    match event.kind {
        EventKind::Create => on_create(event.paths),
        EventKind::Remove => on_remove(event.paths),
        EventKind::Modify => OperationView::Finished(Ok(())),
        EventKind::Other => OperationView::Finished(Ok(())),
    }
}

/// Begins to load the module files among the created paths.
pub fn handle_create_event(paths: &Vec<String>) -> (operation: Operation)
    ensures
        operation@ == on_create(paths.deep_view()),
{
    let ghost all = paths.deep_view();
    let ghost wanted = |path: Seq<char>| is_module_path(path);
    let mut queue: VecDeque<String> = VecDeque::new();
    let mut i: usize = 0;
    proof {
        reveal(Seq::filter);
        assert(queue.deep_view() =~= all.take(0).filter(wanted));
    }
    while i < paths.len()
        invariant
            i <= paths.len(),
            all == paths.deep_view(),
            wanted == |path: Seq<char>| is_module_path(path),
            queue.deep_view() == all.take(i as int).filter(wanted),
        decreases paths.len() - i,
    {
        let path = &paths[i];
        let ghost before = queue.deep_view();
        proof {
            reveal(Seq::filter);
            assert(all.take(i + 1).drop_last() == all.take(i as int));
            assert(all.take(i + 1).last() == path@);
        }
        if has_module_extension(path.as_str()) {
            queue.push_back(path.clone());
            assert(queue.deep_view() =~= before.push(path@));
        }
        i += 1;
    }
    assert(all.take(i as int) == all);
    Operation::begin_loading(queue)
}

/// Begins to unload the modules named by the removed paths and to delete
/// what may be left of the paths.
pub fn handle_remove_event(paths: &Vec<String>) -> (operation: Operation)
    ensures
        operation@ == on_remove(paths.deep_view()),
{
    let ghost all = paths.deep_view();
    let ghost wanted = |path: Seq<char>| has_name(path);
    let mut queue: VecDeque<ModuleFile> = VecDeque::new();
    let mut i: usize = 0;
    proof {
        reveal(Seq::filter);
        assert(all.take(0).filter(wanted) =~= Seq::<Seq<char>>::empty());
        assert(queue.deep_view() =~= named_files(all.take(0)));
    }
    while i < paths.len()
        invariant
            i <= paths.len(),
            all == paths.deep_view(),
            wanted == |path: Seq<char>| has_name(path),
            queue.deep_view() == named_files(all.take(i as int)),
        decreases paths.len() - i,
    {
        let path = &paths[i];
        let ghost before = queue.deep_view();
        proof {
            reveal(Seq::filter);
            assert(all.take(i + 1).drop_last() == all.take(i as int));
            assert(all.take(i + 1).last() == path@);
        }
        match module_name(path.as_str()) {
            Some(name) => {
                queue.push_back(ModuleFile { path: path.clone(), name });
                assert(queue.deep_view() =~= before.push(named_file(path@)));
                assert(named_files(all.take(i + 1)) =~= named_files(all.take(i as int)).push(
                    named_file(path@),
                ));
            },
            None => {},
        }
        assert(queue.deep_view() == named_files(all.take(i + 1)));
        i += 1;
    }
    assert(all.take(i as int) == all);
    Operation::begin_sweep(queue)
}

/// A modification is only taken note of: the operation has ended before it
/// began, and asks nothing of the host.
pub fn handle_modify_event(paths: &Vec<String>) -> (operation: Operation)
    ensures
        operation@ == OperationView::Finished(Ok(())),
{
    Operation::Finished(Ok(()))
}

/// Turns an event of the module directory into the operation that answers it.
pub fn handle_kpm_event(event: &KpmEvent) -> (operation: Operation)
    ensures
        operation@ == on_event(event@),
{
    match event.kind {
        EventKind::Create => handle_create_event(&event.paths),
        EventKind::Remove => handle_remove_event(&event.paths),
        EventKind::Modify => handle_modify_event(&event.paths),
        EventKind::Other => Operation::Finished(Ok(())),
    }
}

/// Begins the startup sequence: the helper is checked and the directory
/// made sure of; in safe mode every module is purged, otherwise the
/// directory is subscribed to.
pub fn start_kpm_watcher() -> (operation: Operation)
    ensures
        operation@ == OperationView::ensuring(Goal::Boot),
{
    Operation::Ensuring { check: EnsureStage::Version, goal: Goal::Boot }
}

} // verus!
