//! File-watcher adapter: reads a target file on a fixed interval, or watches
//! a directory for create and modify events, forwards file contents to the
//! broker, and cleans the watched directory up after a read according to the
//! configured policy.
//!
//! The filesystem itself — the watcher, the reads, the removals — is
//! transport work done by the surrounding process. What stands here is every
//! decision: which monitoring mode runs, what a filesystem event leads to,
//! which cleanup the dispatched event demands, and what happens to each
//! directory entry under a cleanup strategy.

use vstd::prelude::*;
use vstd::string::{StrSliceExecFns, StringExecFns};

use crate::collectors::{Collector, CollectorFactory};
use crate::collectors::grpc::ForwardRequest;
use crate::config::CollectorCfg;
use crate::text::str_eq;

verus! {

/// How the adapter watches for data.
#[derive(Debug, Clone, Copy, PartialEq, Eq, Structural)]
pub enum MonitoringMode {
    /// Read the target file on a fixed interval.
    TimeInterval,
    /// React to directory events.
    EventDriven,
}

/// The monitoring mode named by the configuration: `time_interval` selects
/// the interval mode, anything else the event-driven mode.
pub fn monitoring_mode_of(mode: &str) -> (m: MonitoringMode)
    ensures
        (m == MonitoringMode::TimeInterval) == (mode@ == "time_interval"@),
{
    if str_eq(mode, "time_interval") {
        MonitoringMode::TimeInterval
    } else {
        MonitoringMode::EventDriven
    }
}

/// Whether a file of this name is hidden: it starts with a dot.
pub fn is_hidden_name(name: &str) -> (r: bool)
    ensures
        r == (name@.len() > 0 && name@[0] == '.'),
{
    if name.unicode_len() == 0 {
        false
    } else {
        name.get_char(0) == '.'
    }
}

/// Which create and modify events the configuration lets through.
#[derive(Debug, Clone, Copy, PartialEq, Eq, Structural)]
pub struct FileOptions {
    pub allow_create: bool,
    pub allow_modify: bool,
}

/// What to remove from the watched directory after a read.
#[derive(Debug, Clone, Copy, PartialEq, Eq, Structural)]
pub struct CleanupOptions {
    pub remove_created_file_after_read: bool,
    pub remove_files_except_modified_after_read: bool,
    pub remove_all_files_after_read: bool,
    pub remove_all_folders: bool,
}

/// The filesystem event classes the watcher reacts to.
#[derive(Debug, Clone, Copy, PartialEq, Eq, Structural)]
pub enum FsEventKind {
    /// A file appeared.
    CreateFile,
    /// A directory appeared.
    CreateFolder,
    /// A file's data changed.
    ModifyData,
    /// A file was closed after access.
    AccessClose,
    /// Anything else.
    Other,
}

/// The event tag a dispatch carries; close events reuse the tag left by the
/// preceding create or modify.
#[derive(Debug, Clone, Copy, PartialEq, Eq, Structural)]
pub enum EventTag {
    Create,
    Modify,
    Unknown,
}

/// What the watcher does with one event on one path.
#[derive(Debug, Clone, Copy, PartialEq, Eq, Structural)]
pub enum WatchAction {
    /// Read the file and run the cleanup the tag demands.
    Dispatch(EventTag),
    /// Remove all folders from the watched directory.
    CleanFolders,
    /// Nothing.
    Ignore,
}

/// One step of the watcher over one event on one path: the next pending tag
/// and the action taken. A create or modify on a visible file dispatches
/// under its own tag and clears the pending tag; a close dispatches under
/// whatever tag is pending and clears it; a new folder triggers a folder
/// sweep when configured; everything else is ignored.
pub open spec fn spec_watch_step(
    tag: EventTag,
    kind: FsEventKind,
    options: FileOptions,
    remove_all_folders: bool,
    hidden: bool,
) -> (EventTag, WatchAction) {
    match kind {
        FsEventKind::CreateFile => {
            if options.allow_create && !hidden {
                (EventTag::Unknown, WatchAction::Dispatch(EventTag::Create))
            } else {
                (tag, WatchAction::Ignore)
            }
        },
        FsEventKind::CreateFolder => {
            if remove_all_folders {
                (tag, WatchAction::CleanFolders)
            } else {
                (tag, WatchAction::Ignore)
            }
        },
        FsEventKind::ModifyData => {
            if options.allow_modify && !hidden {
                (EventTag::Unknown, WatchAction::Dispatch(EventTag::Modify))
            } else {
                (tag, WatchAction::Ignore)
            }
        },
        FsEventKind::AccessClose => {
            if !hidden {
                (EventTag::Unknown, WatchAction::Dispatch(tag))
            } else {
                (tag, WatchAction::Ignore)
            }
        },
        FsEventKind::Other => (tag, WatchAction::Ignore),
    }
}

/// The sticky per-watcher state: the tag the next close event dispatches
/// under.
pub struct DirWatcher {
    tag: EventTag,
    options: FileOptions,
    remove_all_folders: bool,
}

impl DirWatcher {
    /// A fresh watcher with no pending tag.
    pub fn new(options: FileOptions, remove_all_folders: bool) -> (w: DirWatcher)
        ensures
            w.pending_tag() == EventTag::Unknown,
            w.spec_options() == options,
            w.spec_remove_all_folders() == remove_all_folders,
    {
        DirWatcher { tag: EventTag::Unknown, options, remove_all_folders }
    }

    /// The tag the next close event dispatches under.
    pub closed spec fn pending_tag(&self) -> EventTag {
        self.tag
    }

    /// The configured file options.
    pub closed spec fn spec_options(&self) -> FileOptions {
        self.options
    }

    /// Whether folder sweeps are configured.
    pub closed spec fn spec_remove_all_folders(&self) -> bool {
        self.remove_all_folders
    }

    /// Reacts to one event on one path whose hiddenness the caller already
    /// determined.
    pub fn on_event(&mut self, kind: FsEventKind, hidden: bool) -> (a: WatchAction)
        ensures
            (final(self).pending_tag(), a) == spec_watch_step(
                old(self).pending_tag(),
                kind,
                old(self).spec_options(),
                old(self).spec_remove_all_folders(),
                hidden,
            ),
            final(self).spec_options() == old(self).spec_options(),
            final(self).spec_remove_all_folders() == old(self).spec_remove_all_folders(),
    {
        match kind {
            FsEventKind::CreateFile => {
                if self.options.allow_create && !hidden {
                    self.tag = EventTag::Unknown;
                    WatchAction::Dispatch(EventTag::Create)
                } else {
                    WatchAction::Ignore
                }
            },
            FsEventKind::CreateFolder => {
                if self.remove_all_folders {
                    WatchAction::CleanFolders
                } else {
                    WatchAction::Ignore
                }
            },
            FsEventKind::ModifyData => {
                if self.options.allow_modify && !hidden {
                    self.tag = EventTag::Unknown;
                    WatchAction::Dispatch(EventTag::Modify)
                } else {
                    WatchAction::Ignore
                }
            },
            FsEventKind::AccessClose => {
                if !hidden {
                    let tag = self.tag;
                    self.tag = EventTag::Unknown;
                    WatchAction::Dispatch(tag)
                } else {
                    WatchAction::Ignore
                }
            },
            FsEventKind::Other => WatchAction::Ignore,
        }
    }
}

/// The cleanup a dispatched event demands.
#[derive(Debug, Clone, Copy, PartialEq, Eq, Structural)]
pub enum CleanupChoice {
    /// Remove all visible files and all folders.
    Everything,
    /// Remove all visible files.
    AllFiles,
    /// Remove all visible files except the one just modified.
    AllExceptModified,
    /// Remove the file just created.
    RemoveCreatedFile,
    /// Nothing to clean.
    NoCleanup,
}

/// The cleanup demanded after dispatching an event with the given tag: a
/// create removes everything, all files or just the created file as
/// configured; a modify removes everything, all files or all but the
/// modified file; an unknown tag cleans nothing.
pub open spec fn spec_cleanup_plan(tag: EventTag, options: CleanupOptions) -> CleanupChoice {
    match tag {
        EventTag::Create => {
            if options.remove_all_files_after_read {
                if options.remove_all_folders {
                    CleanupChoice::Everything
                } else {
                    CleanupChoice::AllFiles
                }
            } else if options.remove_created_file_after_read {
                CleanupChoice::RemoveCreatedFile
            } else {
                CleanupChoice::NoCleanup
            }
        },
        EventTag::Modify => {
            if options.remove_all_files_after_read {
                if options.remove_all_folders {
                    CleanupChoice::Everything
                } else {
                    CleanupChoice::AllFiles
                }
            } else if options.remove_files_except_modified_after_read {
                CleanupChoice::AllExceptModified
            } else {
                CleanupChoice::NoCleanup
            }
        },
        EventTag::Unknown => CleanupChoice::NoCleanup,
    }
}

/// Decides the cleanup after dispatching an event with the given tag.
pub fn cleanup_plan(tag: EventTag, options: CleanupOptions) -> (c: CleanupChoice)
    ensures
        c == spec_cleanup_plan(tag, options),
{
    match tag {
        EventTag::Create => {
            if options.remove_all_files_after_read {
                if options.remove_all_folders {
                    CleanupChoice::Everything
                } else {
                    CleanupChoice::AllFiles
                }
            } else if options.remove_created_file_after_read {
                CleanupChoice::RemoveCreatedFile
            } else {
                CleanupChoice::NoCleanup
            }
        },
        EventTag::Modify => {
            if options.remove_all_files_after_read {
                if options.remove_all_folders {
                    CleanupChoice::Everything
                } else {
                    CleanupChoice::AllFiles
                }
            } else if options.remove_files_except_modified_after_read {
                CleanupChoice::AllExceptModified
            } else {
                CleanupChoice::NoCleanup
            }
        },
        EventTag::Unknown => CleanupChoice::NoCleanup,
    }
}

/// A directory sweep strategy.
#[derive(Debug, Clone, Copy, PartialEq, Eq, Structural)]
pub enum CleanupStrategy {
    /// Remove every visible file.
    AllFiles,
    /// Remove every folder.
    AllFolders,
    /// Remove every visible file but the kept one.
    AllExcept,
    /// Remove every visible file and every folder.
    Everything,
}

/// What happens to one directory entry under a sweep.
#[derive(Debug, Clone, Copy, PartialEq, Eq, Structural)]
pub enum EntryAction {
    /// Remove the entry as a file.
    RemoveFile,
    /// Remove the entry as a folder, recursively.
    RemoveDir,
    /// Leave the entry alone.
    Keep,
}

/// The fate of one directory entry under a sweep strategy. Hidden files are
/// always kept; `matches_kept` says whether the entry is the file an
/// `AllExcept` sweep preserves.
pub open spec fn spec_entry_action(
    strategy: CleanupStrategy,
    is_file: bool,
    is_dir: bool,
    hidden: bool,
    matches_kept: bool,
) -> EntryAction {
    match strategy {
        CleanupStrategy::AllFiles => {
            if is_file && !hidden {
                EntryAction::RemoveFile
            } else {
                EntryAction::Keep
            }
        },
        CleanupStrategy::AllFolders => {
            if is_dir {
                EntryAction::RemoveDir
            } else {
                EntryAction::Keep
            }
        },
        CleanupStrategy::AllExcept => {
            if is_file && !hidden && !matches_kept {
                EntryAction::RemoveFile
            } else {
                EntryAction::Keep
            }
        },
        CleanupStrategy::Everything => {
            if is_file && !hidden {
                EntryAction::RemoveFile
            } else if is_dir {
                EntryAction::RemoveDir
            } else {
                EntryAction::Keep
            }
        },
    }
}

/// Decides the fate of one directory entry under a sweep strategy.
pub fn entry_action(
    strategy: CleanupStrategy,
    is_file: bool,
    is_dir: bool,
    hidden: bool,
    matches_kept: bool,
) -> (a: EntryAction)
    ensures
        a == spec_entry_action(strategy, is_file, is_dir, hidden, matches_kept),
{
    match strategy {
        CleanupStrategy::AllFiles => {
            if is_file && !hidden {
                EntryAction::RemoveFile
            } else {
                EntryAction::Keep
            }
        },
        CleanupStrategy::AllFolders => {
            if is_dir {
                EntryAction::RemoveDir
            } else {
                EntryAction::Keep
            }
        },
        CleanupStrategy::AllExcept => {
            if is_file && !hidden && !matches_kept {
                EntryAction::RemoveFile
            } else {
                EntryAction::Keep
            }
        },
        CleanupStrategy::Everything => {
            if is_file && !hidden {
                EntryAction::RemoveFile
            } else if is_dir {
                EntryAction::RemoveDir
            } else {
                EntryAction::Keep
            }
        },
    }
}

/// The forward call for the contents of one read file.
pub fn textfile_forward_request(payload: Vec<u8>) -> (r: ForwardRequest)
    ensures
        r.collector_name@ == "textfile"@,
        r.content_type@ == "text/plain"@,
        r.metadata@ == "{}"@,
        r.payload == payload,
{
    ForwardRequest {
        collector_name: String::from_str("textfile"),
        content_type: String::from_str("text/plain"),
        metadata: String::from_str("{}"),
        payload,
    }
}

/// The file-watcher adapter.
pub struct Textfile {
    pub config: CollectorCfg,
}

/// Builds the file-watcher adapter from a captured configuration.
pub struct TextfileFactory {
    pub config: CollectorCfg,
}

impl TextfileFactory {
    /// Captures the configuration the adapter will run with.
    pub fn new(config: CollectorCfg) -> (f: Self)
        ensures
            f.config == config,
    {
        Self { config }
    }
}

impl CollectorFactory for TextfileFactory {
    type Created = Textfile;

    open spec fn spec_created_name(&self) -> Seq<char> {
        "textfile"@
    }

    open spec fn spec_created_enabled(&self) -> bool {
        self.config.text_file.enable
    }

    fn create(&self) -> (c: Textfile) {
        Textfile { config: self.config.clone() }
    }
}

impl Collector for Textfile {
    open spec fn spec_name(&self) -> Seq<char> {
        "textfile"@
    }

    open spec fn spec_enabled(&self) -> bool {
        self.config.text_file.enable
    }

    fn name(&self) -> (r: &'static str) {
        "textfile"
    }

    fn is_enable(&self) -> (r: bool) {
        self.config.text_file.enable
    }
}

} // verus!
