//! The file-system side of the editor: directory listings, documents and the
//! events that report changes on disk.

pub mod directory_manager;
pub mod document_manager;
pub mod event_batcher;
pub mod file_event;
pub mod watcher_manager;
pub mod line_ending;
pub mod encoding;
pub mod diff;
pub mod content_cache;
