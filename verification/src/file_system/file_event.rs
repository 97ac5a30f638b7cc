//! What the watcher reports: one event per change seen on disk.

use vstd::prelude::*;

verus! {

/// What a `stat` of a path tells.
#[derive(Clone, Copy, Debug, PartialEq, Eq, Structural)]
pub struct FileMetadata {
    pub size: u64,
    pub is_directory: bool,
    pub is_symlink: bool,
    pub created_at: Option<u64>,
    pub modified_at: Option<u64>,
    pub readonly: bool,
}

/// What about a file was modified.
#[derive(Clone, Copy, Debug, PartialEq, Eq, Structural)]
pub enum ModificationType {
    /// The content of the file.
    Content,
    /// Its permissions or timestamps.
    Metadata,
    /// Its name.
    Name,
    /// Anything else.
    Other,
}

/// The kind of a raw event, as the native watcher classifies it.
#[derive(Clone, Copy, Debug, PartialEq, Eq, Structural)]
pub enum NotifyKind {
    /// Something was created.
    Create,
    /// The data of a file changed.
    ModifyData,
    /// The metadata of a file changed.
    ModifyMetadata,
    /// A file was renamed.
    ModifyName,
    /// A modification of another or unknown sort.
    ModifyOther,
    /// Something was removed.
    Remove,
    /// An access, or an event that the watcher could not classify.
    Other,
}

/// A raw event of the native watcher: its kind and the paths it concerns.
#[derive(Clone, Debug, PartialEq, Eq)]
pub struct NotifyEvent {
    pub kind: NotifyKind,
    pub paths: Vec<String>,
}

/// A change on disk, stamped with the wall-clock milliseconds at which it was
/// observed.
#[derive(Clone, Debug, PartialEq, Eq)]
pub enum FileEvent {
    Created { path: String, timestamp_ms: u128, metadata: FileMetadata },
    Modified {
        path: String,
        timestamp_ms: u128,
        modification_type: ModificationType,
        new_metadata: FileMetadata,
    },
    Deleted { path: String, timestamp_ms: u128 },
}

/// The event that a raw event of kind `kind` on `path` stands for, given what a
/// fresh `stat` of the path gave (`None` where it failed).
///
/// A creation or a modification whose `stat` fails is dropped; a rename whose
/// `stat` fails means that the file is gone; a removal needs no `stat`.
pub open spec fn event_for(
    kind: NotifyKind,
    path: String,
    timestamp_ms: u128,
    metadata: Option<FileMetadata>,
) -> Option<FileEvent> {
    match kind {
        NotifyKind::Create => match metadata {
            Some(m) => Some(FileEvent::Created { path, timestamp_ms, metadata: m }),
            None => None,
        },
        NotifyKind::ModifyName => match metadata {
            Some(m) => Some(
                FileEvent::Modified {
                    path,
                    timestamp_ms,
                    modification_type: ModificationType::Name,
                    new_metadata: m,
                },
            ),
            None => Some(FileEvent::Deleted { path, timestamp_ms }),
        },
        NotifyKind::ModifyData => match metadata {
            Some(m) => Some(
                FileEvent::Modified {
                    path,
                    timestamp_ms,
                    modification_type: ModificationType::Content,
                    new_metadata: m,
                },
            ),
            None => None,
        },
        NotifyKind::ModifyMetadata => match metadata {
            Some(m) => Some(
                FileEvent::Modified {
                    path,
                    timestamp_ms,
                    modification_type: ModificationType::Metadata,
                    new_metadata: m,
                },
            ),
            None => None,
        },
        NotifyKind::ModifyOther => match metadata {
            Some(m) => Some(
                FileEvent::Modified {
                    path,
                    timestamp_ms,
                    modification_type: ModificationType::Other,
                    new_metadata: m,
                },
            ),
            None => None,
        },
        NotifyKind::Remove => Some(FileEvent::Deleted { path, timestamp_ms }),
        NotifyKind::Other => None,
    }
}

/// The event to report for a raw event: that of its kind on its first path. A
/// raw event that names no path is dropped.
pub open spec fn reported(
    event: NotifyEvent,
    timestamp_ms: u128,
    metadata: Option<FileMetadata>,
) -> Option<FileEvent> {
    if event.paths.len() == 0 {
        None
    } else {
        event_for(event.kind, event.paths[0], timestamp_ms, metadata)
    }
}

impl FileEvent {
    /// The path that the event is about.
    pub open spec fn spec_path(&self) -> String {
        match *self {
            FileEvent::Created { path, .. } => path,
            FileEvent::Modified { path, .. } => path,
            FileEvent::Deleted { path, .. } => path,
        }
    }

    /// The path that the event is about.
    pub fn path(&self) -> (r: &String)
        ensures
            *r == self.spec_path(),
    {
        match self {
            FileEvent::Created { path, .. } => path,
            FileEvent::Modified { path, .. } => path,
            FileEvent::Deleted { path, .. } => path,
        }
    }

    /// Turns a raw event into the event to report, if any.
    ///
    /// `metadata` is what a `stat` of the event's first path gave at
    /// `timestamp_ms`. An event that names no path is dropped.
    pub fn from_notify_event(
        event: &NotifyEvent,
        timestamp_ms: u128,
        metadata: Option<FileMetadata>,
    ) -> (r: Option<FileEvent>)
        ensures
            r == reported(*event, timestamp_ms, metadata),
    {
        if event.paths.len() == 0 {
            return None;
        }
        let path = event.paths[0].clone();
        match event.kind {
            NotifyKind::Create => match metadata {
                Some(m) => Some(FileEvent::Created { path, timestamp_ms, metadata: m }),
                None => None,
            },
            NotifyKind::ModifyName => match metadata {
                Some(m) => Some(
                    FileEvent::Modified {
                        path,
                        timestamp_ms,
                        modification_type: ModificationType::Name,
                        new_metadata: m,
                    },
                ),
                None => Some(FileEvent::Deleted { path, timestamp_ms }),
            },
            NotifyKind::ModifyData | NotifyKind::ModifyMetadata | NotifyKind::ModifyOther => {
                let modification_type = match event.kind {
                    NotifyKind::ModifyData => ModificationType::Content,
                    NotifyKind::ModifyMetadata => ModificationType::Metadata,
                    _ => ModificationType::Other,
                };
                match metadata {
                    Some(m) => Some(
                        FileEvent::Modified {
                            path,
                            timestamp_ms,
                            modification_type,
                            new_metadata: m,
                        },
                    ),
                    None => None,
                }
            },
            NotifyKind::Remove => Some(FileEvent::Deleted { path, timestamp_ms }),
            NotifyKind::Other => None,
        }
    }
}

} // verus!
