use kpm::{
    ensure_kpm_dir, handle_kpm_event, load_kpm, load_kpm_modules, remove_all_kpms,
    start_kpm_watcher, unload_kpm, Command, EventKind, HelperExit, HelperOutput, HelperProbe,
    IoOutcome, KpmError, KpmEvent, Listing, Operation, Removal, Reply,
};

/// A host that keeps the module directory in memory and notes every command.
struct Host {
    version: HelperOutput,
    probe: HelperProbe,
    directory: Option<Vec<String>>,
    creatable: bool,
    readable: bool,
    safe_mode: bool,
    subscribable: bool,
    helper_starts: bool,
    refused: Vec<String>,
    undeletable: Vec<String>,
    done: Vec<Command>,
}

impl Host {
    fn with_files(files: &[&str]) -> Host {
        Host {
            version: HelperOutput::Exited {
                success: true,
                stdout: b"1.0.0\n".to_vec(),
                stderr: Vec::new(),
            },
            probe: HelperProbe { exists: true, mode: Some(0o755) },
            directory: Some(files.iter().map(|file| file.to_string()).collect()),
            creatable: true,
            readable: true,
            safe_mode: false,
            subscribable: true,
            helper_starts: true,
            refused: Vec::new(),
            undeletable: Vec::new(),
            done: Vec::new(),
        }
    }

    fn run_helper(&self, subject: &str) -> Reply {
        if !self.helper_starts {
            Reply::Exited(HelperExit::NotStarted("cannot start".to_string()))
        } else {
            Reply::Exited(HelperExit::Exited(!self.refused.iter().any(|name| name == subject)))
        }
    }

    fn perform(&mut self, command: &Command) -> Reply {
        self.done.push(command.clone());
        match command {
            Command::QueryVersion => Reply::Version(self.version.clone()),
            Command::ProbeHelper => Reply::Probe(self.probe),
            Command::ProbeDirectory => Reply::DirectoryExists(self.directory.is_some()),
            Command::CreateDirectory => {
                if self.creatable {
                    self.directory = Some(Vec::new());
                    Reply::DirectoryCreated(IoOutcome::Done)
                } else {
                    Reply::DirectoryCreated(IoOutcome::Failed("read-only".to_string()))
                }
            }
            Command::ListDirectory => match &self.directory {
                Some(files) if self.readable => Reply::Listed(Listing::Entries(files.clone())),
                _ => Reply::Listed(Listing::Failed("cannot read".to_string())),
            },
            Command::QuerySafeMode => Reply::SafeMode(self.safe_mode),
            Command::Subscribe => {
                if self.subscribable {
                    Reply::Subscribed(IoOutcome::Done)
                } else {
                    Reply::Subscribed(IoOutcome::Failed("no watches left".to_string()))
                }
            }
            Command::Load(path) => self.run_helper(path),
            Command::Unload(name) => self.run_helper(name),
            Command::Delete(path) => {
                if self.undeletable.iter().any(|file| file == path) {
                    return Reply::Deleted(Removal::Failed);
                }
                let files = self.directory.get_or_insert_with(Vec::new);
                match files.iter().position(|file| file == path) {
                    Some(at) => {
                        files.remove(at);
                        Reply::Deleted(Removal::Removed)
                    }
                    None => Reply::Deleted(Removal::Absent),
                }
            }
        }
    }

    fn drive(&mut self, operation: Operation) -> Result<(), KpmError> {
        let mut operation = operation;
        let mut steps = 0;
        while let Some(command) = operation.pending() {
            steps += 1;
            assert!(steps < 1000);
            let reply = self.perform(&command);
            assert!(reply.answers(&command));
            operation = operation.resume(reply);
        }
        assert!(operation.is_finished());
        match operation {
            Operation::Finished(outcome) => outcome,
            _ => unreachable!(),
        }
    }

    fn files(&self) -> Vec<String> {
        self.directory.clone().unwrap_or_default()
    }

    fn count(&self, wanted: impl Fn(&Command) -> bool) -> usize {
        self.done.iter().filter(|command| wanted(command)).count()
    }
}

fn unload(name: &str) -> Command {
    Command::Unload(name.to_string())
}

fn load(path: &str) -> Command {
    Command::Load(path.to_string())
}

fn delete(path: &str) -> Command {
    Command::Delete(path.to_string())
}

fn event(kind: EventKind, paths: &[&str]) -> KpmEvent {
    KpmEvent { kind, paths: paths.iter().map(|path| path.to_string()).collect() }
}

fn is_unload(command: &Command) -> bool {
    matches!(command, Command::Unload(_))
}

#[test]
fn safe_mode_purges_every_module() {
    let mut host = Host::with_files(&["/m/a.kpm", "/m/b.kpm"]);
    host.safe_mode = true;
    assert_eq!(host.drive(start_kpm_watcher()), Ok(()));
    assert_eq!(host.count(is_unload), 2);
    assert!(host.done.contains(&unload("a")));
    assert!(host.done.contains(&unload("b")));
    assert!(host.done.contains(&delete("/m/a.kpm")));
    assert!(host.done.contains(&delete("/m/b.kpm")));
    assert!(host.files().is_empty());
    assert!(!host.done.contains(&Command::Subscribe));
}

#[test]
fn safe_mode_command_sequence() {
    let mut host = Host::with_files(&["/m/a.kpm"]);
    host.safe_mode = true;
    assert_eq!(host.drive(start_kpm_watcher()), Ok(()));
    assert_eq!(
        host.done,
        vec![
            Command::QueryVersion,
            Command::ProbeHelper,
            Command::ProbeDirectory,
            Command::QuerySafeMode,
            Command::QueryVersion,
            Command::ProbeHelper,
            Command::ProbeDirectory,
            Command::ListDirectory,
            unload("a"),
            Command::ProbeDirectory,
            Command::ListDirectory,
            delete("/m/a.kpm"),
            delete("/m/a.kpm"),
        ]
    );
}

#[test]
fn create_event_loads_the_module_once() {
    let mut host = Host::with_files(&["/m/a.kpm"]);
    assert_eq!(host.drive(start_kpm_watcher()), Ok(()));
    assert_eq!(host.done.last(), Some(&Command::Subscribe));
    host.done.clear();
    let operation = handle_kpm_event(&event(EventKind::Create, &["/m/a.kpm"]));
    assert_eq!(host.drive(operation), Ok(()));
    assert_eq!(host.done, vec![load("/m/a.kpm")]);
    assert_eq!(host.files(), vec!["/m/a.kpm".to_string()]);
}

#[test]
fn remove_event_for_a_file_already_gone() {
    let mut host = Host::with_files(&[]);
    let operation = handle_kpm_event(&event(EventKind::Remove, &["/m/a.kpm"]));
    assert_eq!(host.drive(operation), Ok(()));
    assert_eq!(
        host.done,
        vec![unload("a"), Command::ProbeDirectory, Command::ListDirectory, delete("/m/a.kpm")]
    );
    assert!(host.files().is_empty());
}

#[test]
fn startup_fails_without_helper() {
    let mut host = Host::with_files(&["/m/a.kpm"]);
    host.directory = None;
    host.version = HelperOutput::NotStarted("No such file or directory".to_string());
    host.probe = HelperProbe { exists: false, mode: None };
    host.helper_starts = false;
    assert_eq!(
        host.drive(start_kpm_watcher()),
        Err(KpmError::HelperUnavailable("No such file or directory".to_string()))
    );
    assert_eq!(host.done, vec![Command::QueryVersion]);
    assert_eq!(host.directory, None);
}

#[test]
fn startup_fails_when_helper_is_not_executable() {
    let mut host = Host::with_files(&["/m/a.kpm"]);
    host.probe = HelperProbe { exists: true, mode: Some(0o644) };
    host.safe_mode = true;
    assert_eq!(
        host.drive(start_kpm_watcher()),
        Err(KpmError::HelperUnavailable("the helper is missing or not executable".to_string()))
    );
    assert_eq!(host.done, vec![Command::QueryVersion, Command::ProbeHelper]);
    assert_eq!(host.files(), vec!["/m/a.kpm".to_string()]);
}

#[test]
fn batches_refuse_to_work_without_helper() {
    for begin in [ensure_kpm_dir, remove_all_kpms, load_kpm_modules] {
        let mut host = Host::with_files(&["/m/a.kpm"]);
        host.version = HelperOutput::Exited {
            success: true,
            stdout: b"Error: unsupported kernel\n".to_vec(),
            stderr: Vec::new(),
        };
        assert_eq!(
            host.drive(begin()),
            Err(KpmError::HelperUnavailable("Error: unsupported kernel".to_string()))
        );
        assert_eq!(host.done, vec![Command::QueryVersion]);
    }
}

#[test]
fn ensure_creates_a_missing_directory() {
    let mut host = Host::with_files(&[]);
    host.directory = None;
    assert_eq!(host.drive(ensure_kpm_dir()), Ok(()));
    assert_eq!(
        host.done,
        vec![
            Command::QueryVersion,
            Command::ProbeHelper,
            Command::ProbeDirectory,
            Command::CreateDirectory,
        ]
    );
    assert_eq!(host.directory, Some(Vec::new()));
}

#[test]
fn ensure_leaves_an_existing_directory_alone() {
    let mut host = Host::with_files(&["/m/a.kpm"]);
    assert_eq!(host.drive(ensure_kpm_dir()), Ok(()));
    assert_eq!(
        host.done,
        vec![Command::QueryVersion, Command::ProbeHelper, Command::ProbeDirectory]
    );
}

#[test]
fn ensure_reports_a_directory_that_cannot_be_created() {
    let mut host = Host::with_files(&[]);
    host.directory = None;
    host.creatable = false;
    assert_eq!(
        host.drive(ensure_kpm_dir()),
        Err(KpmError::DirectoryCreation("read-only".to_string()))
    );
}

#[test]
fn startup_subscribes_outside_safe_mode() {
    let mut host = Host::with_files(&["/m/a.kpm"]);
    assert_eq!(host.drive(start_kpm_watcher()), Ok(()));
    assert_eq!(
        host.done,
        vec![
            Command::QueryVersion,
            Command::ProbeHelper,
            Command::ProbeDirectory,
            Command::QuerySafeMode,
            Command::Subscribe,
        ]
    );
    assert_eq!(host.files(), vec!["/m/a.kpm".to_string()]);
}

#[test]
fn startup_reports_a_failed_subscription() {
    let mut host = Host::with_files(&[]);
    host.subscribable = false;
    assert_eq!(
        host.drive(start_kpm_watcher()),
        Err(KpmError::WatchFailed("no watches left".to_string()))
    );
}

#[test]
fn safe_mode_startup_succeeds_though_the_purge_cannot_list() {
    let mut host = Host::with_files(&["/m/a.kpm"]);
    host.safe_mode = true;
    host.readable = false;
    assert_eq!(host.drive(start_kpm_watcher()), Ok(()));
    assert_eq!(host.count(is_unload), 0);
}

#[test]
fn purge_goes_on_after_failures() {
    let mut host = Host::with_files(&["/m/a.kpm", "/m/notes.txt", "/m/b.kpm", "/m/c.kpm"]);
    host.refused = vec!["a".to_string(), "c".to_string()];
    host.undeletable = vec!["/m/b.kpm".to_string()];
    assert_eq!(host.drive(remove_all_kpms()), Ok(()));
    let unloads: Vec<Command> = host.done.iter().filter(|c| is_unload(c)).cloned().collect();
    assert_eq!(unloads, vec![unload("a"), unload("b"), unload("c")]);
    assert_eq!(host.files(), vec!["/m/notes.txt".to_string(), "/m/b.kpm".to_string()]);
}

#[test]
fn purge_goes_on_when_the_helper_cannot_start() {
    let mut host = Host::with_files(&["/m/a.kpm", "/m/b.kpm"]);
    host.helper_starts = false;
    assert_eq!(host.drive(remove_all_kpms()), Ok(()));
    assert_eq!(host.count(is_unload), 2);
    assert!(host.files().is_empty());
}

#[test]
fn purge_reports_a_directory_that_cannot_be_read() {
    let mut host = Host::with_files(&["/m/a.kpm"]);
    host.readable = false;
    assert_eq!(
        host.drive(remove_all_kpms()),
        Err(KpmError::DirectoryAccess("cannot read".to_string()))
    );
}

#[test]
fn bulk_load_tries_every_module() {
    let mut host = Host::with_files(&["/m/a.kpm", "/m/readme", "/m/b.kpm", "/m/.kpm"]);
    host.refused = vec!["/m/a.kpm".to_string()];
    assert_eq!(host.drive(load_kpm_modules()), Ok(()));
    assert_eq!(
        host.done,
        vec![
            Command::QueryVersion,
            Command::ProbeHelper,
            Command::ProbeDirectory,
            Command::ListDirectory,
            load("/m/a.kpm"),
            load("/m/b.kpm"),
        ]
    );
    assert_eq!(host.files().len(), 4);
}

#[test]
fn load_reports_helper_failures() {
    let mut host = Host::with_files(&["/m/a.kpm"]);
    assert_eq!(host.drive(load_kpm("/m/a.kpm")), Ok(()));
    host.refused = vec!["/m/a.kpm".to_string()];
    assert_eq!(host.drive(load_kpm("/m/a.kpm")), Err(KpmError::HelperReported(String::new())));
    host.helper_starts = false;
    assert_eq!(
        host.drive(load_kpm("/m/a.kpm")),
        Err(KpmError::HelperExecution("cannot start".to_string()))
    );
    assert_eq!(host.files(), vec!["/m/a.kpm".to_string()]);
}

#[test]
fn unload_deletes_the_module_file() {
    let mut host = Host::with_files(&["/m/b.kpm", "/m/a.txt", "/m/a.kpm"]);
    assert_eq!(host.drive(unload_kpm("a")), Ok(()));
    assert_eq!(
        host.done,
        vec![unload("a"), Command::ProbeDirectory, Command::ListDirectory, delete("/m/a.kpm")]
    );
    assert_eq!(host.files(), vec!["/m/b.kpm".to_string(), "/m/a.txt".to_string()]);
}

#[test]
fn unload_without_file_is_no_error() {
    let mut host = Host::with_files(&["/m/b.kpm"]);
    assert_eq!(host.drive(unload_kpm("a")), Ok(()));
    assert_eq!(host.done, vec![unload("a"), Command::ProbeDirectory, Command::ListDirectory]);
    let mut host = Host::with_files(&[]);
    host.directory = None;
    assert_eq!(host.drive(unload_kpm("a")), Ok(()));
    assert_eq!(host.done, vec![unload("a"), Command::ProbeDirectory]);
}

#[test]
fn refused_unload_keeps_the_file() {
    let mut host = Host::with_files(&["/m/a.kpm"]);
    host.refused = vec!["a".to_string()];
    assert_eq!(host.drive(unload_kpm("a")), Ok(()));
    assert_eq!(host.done, vec![unload("a")]);
    assert_eq!(host.files(), vec!["/m/a.kpm".to_string()]);
}

#[test]
fn unload_reports_helper_and_directory_failures() {
    let mut host = Host::with_files(&["/m/a.kpm"]);
    host.helper_starts = false;
    assert_eq!(
        host.drive(unload_kpm("a")),
        Err(KpmError::HelperExecution("cannot start".to_string()))
    );
    let mut host = Host::with_files(&["/m/a.kpm"]);
    host.readable = false;
    assert_eq!(
        host.drive(unload_kpm("a")),
        Err(KpmError::DirectoryAccess("cannot read".to_string()))
    );
}

#[test]
fn failed_deletion_after_unload_is_not_escalated() {
    let mut host = Host::with_files(&["/m/a.kpm"]);
    host.undeletable = vec!["/m/a.kpm".to_string()];
    assert_eq!(host.drive(unload_kpm("a")), Ok(()));
    assert!(host.done.contains(&delete("/m/a.kpm")));
    assert_eq!(host.files(), vec!["/m/a.kpm".to_string()]);
}

#[test]
fn two_handlers_of_one_removal_both_succeed() {
    let mut host = Host::with_files(&["/m/a.kpm"]);
    let notice = event(EventKind::Remove, &["/m/a.kpm"]);
    let mut first = handle_kpm_event(&notice);
    let mut second = handle_kpm_event(&notice);
    while !(first.is_finished() && second.is_finished()) {
        if let Some(command) = first.pending() {
            let reply = host.perform(&command);
            first = first.resume(reply);
        }
        if let Some(command) = second.pending() {
            let reply = host.perform(&command);
            second = second.resume(reply);
        }
    }
    assert_eq!(first.outcome(), Some(&Ok(())));
    assert_eq!(second.outcome(), Some(&Ok(())));
    assert_eq!(host.count(is_unload), 2);
    assert!(host.files().is_empty());
}

#[test]
fn create_event_skips_other_files() {
    let mut host = Host::with_files(&[]);
    host.refused = vec!["/m/a.kpm".to_string()];
    let notice = event(EventKind::Create, &["/m/a.kpm", "/m/a.txt", "/m/b.kpm", "/m/a.kpm"]);
    assert_eq!(host.drive(handle_kpm_event(&notice)), Ok(()));
    assert_eq!(host.done, vec![load("/m/a.kpm"), load("/m/b.kpm"), load("/m/a.kpm")]);
}

#[test]
fn remove_event_goes_by_the_file_stem() {
    let mut host = Host::with_files(&["/m/a.kpm", "/m/b.kpm"]);
    host.helper_starts = false;
    let notice = event(EventKind::Remove, &["/m/a.txt", "/", "/m/b.kpm"]);
    assert_eq!(host.drive(handle_kpm_event(&notice)), Ok(()));
    assert_eq!(
        host.done,
        vec![unload("a"), delete("/m/a.txt"), unload("b"), delete("/m/b.kpm")]
    );
    assert_eq!(host.files(), vec!["/m/a.kpm".to_string()]);
}

#[test]
fn modify_and_other_events_ask_nothing() {
    for kind in [EventKind::Modify, EventKind::Other] {
        let operation = handle_kpm_event(&event(kind, &["/m/a.kpm"]));
        assert_eq!(operation.pending(), None);
        assert_eq!(operation.outcome(), Some(&Ok(())));
    }
    let operation = kpm::handle_modify_event(&vec!["/m/a.kpm".to_string()]);
    assert_eq!(operation, Operation::Finished(Ok(())));
}

#[test]
fn reply_of_the_wrong_kind_changes_nothing() {
    let operation = unload_kpm("a");
    let operation = operation.resume(Reply::Deleted(Removal::Removed));
    assert_eq!(operation.pending(), Some(unload("a")));
    let operation = operation.resume(Reply::Exited(HelperExit::Exited(true)));
    assert_eq!(operation.pending(), Some(Command::ProbeDirectory));
    let operation = operation.resume(Reply::SafeMode(true));
    assert_eq!(operation.pending(), Some(Command::ProbeDirectory));
    let finished = load_kpm("/m/a.kpm").resume(Reply::Exited(HelperExit::Exited(true)));
    assert_eq!(finished.outcome(), Some(&Ok(())));
    let finished = finished.resume(Reply::Exited(HelperExit::Exited(false)));
    assert_eq!(finished.outcome(), Some(&Ok(())));
    assert!(!Reply::SafeMode(true).answers(&Command::Subscribe));
    assert!(Reply::Exited(HelperExit::Exited(false)).answers(&load("x")));
}
