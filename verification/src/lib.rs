//! Lifecycle management for loadable kernel plugin modules.
//!
//! Module files lie in one directory and are loaded into the kernel, and
//! unloaded from it, by a privileged helper program. This library decides
//! what is to be done and in which order: at startup, when the directory
//! changes, and when all modules are to be loaded or purged. It runs no
//! process and touches no file itself. Every lifecycle operation is an
//! [`Operation`] that names one [`Command`] at a time for its host to carry
//! out and moves on when it is handed the [`Reply`].

pub mod error;
pub mod helper;
pub mod laws;
pub mod operation;
pub mod protocol;
pub mod store;
pub mod text;
pub mod watcher;

pub use crate::error::KpmError;
pub use crate::helper::{
    check_kpm_configured, check_version, get_kpm_version, is_executable, version_reports_error,
    HelperExit, HelperOutput, HelperProbe,
};
pub use crate::operation::{
    advance_unload, ensure_kpm_dir, load_kpm, load_kpm_modules, load_result, remove_all_kpms,
    unload_kpm, Batch, EnsureStage, Goal, Operation, SweepStage, UnloadProgress, UnloadStage,
};
pub use crate::protocol::{Command, IoOutcome, Listing, Removal, Reply};
pub use crate::store::{
    enumerate_module_files, find_kpm_file, has_module_extension, module_name, ModuleFile,
};
pub use crate::text::starts_with;
pub use crate::watcher::{
    handle_create_event, handle_kpm_event, handle_modify_event, handle_remove_event,
    start_kpm_watcher, EventKind, KpmEvent,
};
