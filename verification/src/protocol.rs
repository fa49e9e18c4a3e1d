//! What an operation asks of its host, and what the host answers.
//!
//! The library touches neither processes nor files. An operation names the
//! next thing to be done as a [`Command`]; the host does it and hands back
//! the matching [`Reply`].

use vstd::prelude::*;
use crate::helper::{HelperExit, HelperExitView, HelperOutput, HelperOutputView, HelperProbe};

verus! {

/// One thing for the host to do.
#[derive(Debug, Clone, PartialEq, Eq)]
pub enum Command {
    /// Run the helper for its version, capturing what it prints.
    QueryVersion,
    /// Look at the helper's file: does it exist, and with which permissions.
    ProbeHelper,
    /// Tell whether the module directory exists.
    ProbeDirectory,
    /// Create the module directory with its parents.
    CreateDirectory,
    /// List the paths of the entries of the module directory.
    ListDirectory,
    /// Tell whether the device has started in safe mode.
    QuerySafeMode,
    /// Subscribe to changes of the module directory, without its subdirectories.
    Subscribe,
    /// Run the helper to load the module file at this path.
    Load(String),
    /// Run the helper to unload the module of this name.
    Unload(String),
    /// Delete the file at this path.
    Delete(String),
}

/// The mathematical counterpart of [`Command`].
pub enum CommandView {
    QueryVersion,
    ProbeHelper,
    ProbeDirectory,
    CreateDirectory,
    ListDirectory,
    QuerySafeMode,
    Subscribe,
    Load(Seq<char>),
    Unload(Seq<char>),
    Delete(Seq<char>),
}

impl View for Command {
    type V = CommandView;

    open spec fn view(&self) -> CommandView {
        match self {
            Command::QueryVersion => CommandView::QueryVersion,
            Command::ProbeHelper => CommandView::ProbeHelper,
            Command::ProbeDirectory => CommandView::ProbeDirectory,
            Command::CreateDirectory => CommandView::CreateDirectory,
            Command::ListDirectory => CommandView::ListDirectory,
            Command::QuerySafeMode => CommandView::QuerySafeMode,
            Command::Subscribe => CommandView::Subscribe,
            Command::Load(path) => CommandView::Load(path@),
            Command::Unload(name) => CommandView::Unload(name@),
            Command::Delete(path) => CommandView::Delete(path@),
        }
    }
}

impl DeepView for Command {
    type V = CommandView;

    open spec fn deep_view(&self) -> CommandView {
        self@
    }
}

impl CommandView {
    /// The arguments with which the helper is run for this command, where the
    /// command is one for the helper. Loading takes the path and one empty
    /// argument, the slot that the helper reserves; unloading takes the name.
    pub open spec fn helper_arguments(self) -> Option<Seq<Seq<char>>> {
        match self {
            CommandView::QueryVersion => Some(seq!["version"@]),
            CommandView::Load(path) => Some(seq!["load"@, path, Seq::<char>::empty()]),
            CommandView::Unload(name) => Some(seq!["unload"@, name]),
            _ => None,
        }
    }
}

impl Command {
    /// The arguments with which the helper is to be run for this command, or
    /// `None` where the command is not one for the helper.
    pub fn helper_arguments(&self) -> (arguments: Option<Vec<String>>)
        ensures
            match arguments {
                Some(list) => self@.helper_arguments() == Some(list.deep_view()),
                None => self@.helper_arguments() is None,
            },
    {
        match self {
            Command::QueryVersion => {
                let mut list: Vec<String> = Vec::new();
                list.push("version".to_owned());
                assert(list.deep_view() =~= seq!["version"@]);
                Some(list)
            },
            Command::Load(path) => {
                let mut list: Vec<String> = Vec::new();
                list.push("load".to_owned());
                list.push(path.clone());
                list.push(String::new());
                assert(list.deep_view() =~= seq!["load"@, path@, Seq::<char>::empty()]);
                Some(list)
            },
            Command::Unload(name) => {
                let mut list: Vec<String> = Vec::new();
                list.push("unload".to_owned());
                list.push(name.clone());
                assert(list.deep_view() =~= seq!["unload"@, name@]);
                Some(list)
            },
            _ => None,
        }
    }
}

/// How an action on the file system ended that either works or fails.
#[derive(Debug, Clone, PartialEq, Eq)]
pub enum IoOutcome {
    Done,
    /// The operating system's message.
    Failed(String),
}

/// The mathematical counterpart of [`IoOutcome`].
pub enum IoOutcomeView {
    Done,
    Failed(Seq<char>),
}

impl View for IoOutcome {
    type V = IoOutcomeView;

    open spec fn view(&self) -> IoOutcomeView {
        match self {
            IoOutcome::Done => IoOutcomeView::Done,
            IoOutcome::Failed(message) => IoOutcomeView::Failed(message@),
        }
    }
}

/// What reading the module directory gave.
#[derive(Debug, Clone, PartialEq, Eq)]
pub enum Listing {
    /// The paths of the entries, in the order in which they were read.
    Entries(Vec<String>),
    /// The directory could not be read; the operating system's message.
    Failed(String),
}

/// The mathematical counterpart of [`Listing`].
pub enum ListingView {
    Entries(Seq<Seq<char>>),
    Failed(Seq<char>),
}

impl View for Listing {
    type V = ListingView;

    open spec fn view(&self) -> ListingView {
        match self {
            Listing::Entries(entries) => ListingView::Entries(entries.deep_view()),
            Listing::Failed(message) => ListingView::Failed(message@),
        }
    }
}

/// How the deletion of a file ended.
#[derive(Debug, Clone, Copy, PartialEq, Eq)]
pub enum Removal {
    /// The file was there and is gone.
    Removed,
    /// There was no such file.
    Absent,
    /// The file could not be deleted.
    Failed,
}

/// The host's answer to a command.
#[derive(Debug, Clone, PartialEq, Eq)]
pub enum Reply {
    /// Answers `QueryVersion`.
    Version(HelperOutput),
    /// Answers `ProbeHelper`.
    Probe(HelperProbe),
    /// Answers `ProbeDirectory`.
    DirectoryExists(bool),
    /// Answers `CreateDirectory`.
    DirectoryCreated(IoOutcome),
    /// Answers `ListDirectory`.
    Listed(Listing),
    /// Answers `QuerySafeMode`.
    SafeMode(bool),
    /// Answers `Subscribe`.
    Subscribed(IoOutcome),
    /// Answers `Load` and `Unload`.
    Exited(HelperExit),
    /// Answers `Delete`.
    Deleted(Removal),
}

/// The mathematical counterpart of [`Reply`].
pub enum ReplyView {
    Version(HelperOutputView),
    Probe(HelperProbe),
    DirectoryExists(bool),
    DirectoryCreated(IoOutcomeView),
    Listed(ListingView),
    SafeMode(bool),
    Subscribed(IoOutcomeView),
    Exited(HelperExitView),
    Deleted(Removal),
}

impl View for Reply {
    type V = ReplyView;

    open spec fn view(&self) -> ReplyView {
        match self {
            Reply::Version(output) => ReplyView::Version(output@),
            Reply::Probe(probe) => ReplyView::Probe(*probe),
            Reply::DirectoryExists(exists) => ReplyView::DirectoryExists(*exists),
            Reply::DirectoryCreated(outcome) => ReplyView::DirectoryCreated(outcome@),
            Reply::Listed(listing) => ReplyView::Listed(listing@),
            Reply::SafeMode(safe) => ReplyView::SafeMode(*safe),
            Reply::Subscribed(outcome) => ReplyView::Subscribed(outcome@),
            Reply::Exited(exit) => ReplyView::Exited(exit@),
            Reply::Deleted(removal) => ReplyView::Deleted(*removal),
        }
    }
}

impl ReplyView {
    /// Whether this reply is of the kind that answers the command.
    pub open spec fn answers(self, command: CommandView) -> bool {
        match (command, self) {
            (CommandView::QueryVersion, ReplyView::Version(_)) => true,
            (CommandView::ProbeHelper, ReplyView::Probe(_)) => true,
            (CommandView::ProbeDirectory, ReplyView::DirectoryExists(_)) => true,
            (CommandView::CreateDirectory, ReplyView::DirectoryCreated(_)) => true,
            (CommandView::ListDirectory, ReplyView::Listed(_)) => true,
            (CommandView::QuerySafeMode, ReplyView::SafeMode(_)) => true,
            (CommandView::Subscribe, ReplyView::Subscribed(_)) => true,
            (CommandView::Load(_), ReplyView::Exited(_)) => true,
            (CommandView::Unload(_), ReplyView::Exited(_)) => true,
            (CommandView::Delete(_), ReplyView::Deleted(_)) => true,
            _ => false,
        }
    }
}

impl Reply {
    /// Tells whether this reply is of the kind that answers the command.
    pub fn answers(&self, command: &Command) -> (yes: bool)
        ensures
            yes == self@.answers(command@),
    {
        match (command, self) {
            (Command::QueryVersion, Reply::Version(_)) => true,
            (Command::ProbeHelper, Reply::Probe(_)) => true,
            (Command::ProbeDirectory, Reply::DirectoryExists(_)) => true,
            (Command::CreateDirectory, Reply::DirectoryCreated(_)) => true,
            (Command::ListDirectory, Reply::Listed(_)) => true,
            (Command::QuerySafeMode, Reply::SafeMode(_)) => true,
            (Command::Subscribe, Reply::Subscribed(_)) => true,
            (Command::Load(_), Reply::Exited(_)) => true,
            (Command::Unload(_), Reply::Exited(_)) => true,
            (Command::Delete(_), Reply::Deleted(_)) => true,
            _ => false,
        }
    }
}

} // verus!
