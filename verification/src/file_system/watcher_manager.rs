//! The watch loop's decisions: what a raw event does to the directory cache
//! and to the batch that goes out to subscribers.

use vstd::prelude::*;
use crate::file_system::directory_manager::DirectoryManager;
use crate::file_system::directory_manager::FileNode;
use crate::file_system::event_batcher::EventBatcher;
use crate::file_system::file_event::reported;
use crate::file_system::file_event::FileEvent;
use crate::file_system::file_event::FileMetadata;
use crate::file_system::file_event::NotifyEvent;
use crate::utils::path_utils::parent_directory;
use crate::utils::path_utils::parent_of;

verus! {

/// The number of events after which a batch goes out.
pub const DEFAULT_BATCH_SIZE: usize = 100;

/// The milliseconds after which a batch goes out.
pub const DEFAULT_BATCH_TIMEOUT_MS: u64 = 100;

/// The capacity of the bus on which events are broadcast.
pub const EVENT_BUS_CAPACITY: usize = 100;

/// Turns the raw events of the native watcher into batches of file events.
/// The caller runs the native watch, stats the paths and broadcasts what this
/// hands back.
#[derive(Debug)]
pub struct WatcherManager {
    event_batcher: EventBatcher,
}

/// The cache after the listing of the directory that holds `path` was dropped.
pub open spec fn without_parent(
    cache: Map<Seq<char>, Seq<FileNode>>,
    path: Seq<char>,
) -> Map<Seq<char>, Seq<FileNode>> {
    match parent_of(path) {
        Some(parent) => cache.remove(parent),
        None => cache,
    }
}

impl WatcherManager {
    /// The batcher that collects the events.
    pub closed spec fn batcher(&self) -> EventBatcher {
        self.event_batcher
    }

    /// A watcher whose batches hold at most `batch_size` events and wait at most
    /// `batch_timeout_ms`.
    pub fn new(batch_size: usize, batch_timeout_ms: u64, now_ms: u64) -> (r: Self)
        ensures
            r.batcher().pending() == Seq::<FileEvent>::empty(),
            r.batcher().batch_size() == batch_size,
            r.batcher().batch_timeout() == batch_timeout_ms,
            r.batcher().last_emit() == now_ms,
    {
        WatcherManager { event_batcher: EventBatcher::new(batch_size, batch_timeout_ms, now_ms) }
    }

    /// Takes in one raw event.
    ///
    /// `metadata` is what a `stat` of the event's first path gave. Where the raw
    /// event stands for a file event, the listing of the directory that holds
    /// its path leaves the cache, and only then the event joins the buffer; the
    /// result is the batch that is due, if one is. Where the raw event stands
    /// for nothing, nothing changes.
    pub fn process_event(
        &mut self,
        directory_manager: &mut DirectoryManager,
        event: &NotifyEvent,
        timestamp_ms: u128,
        metadata: Option<FileMetadata>,
        now_ms: u64,
    ) -> (r: Option<Vec<FileEvent>>)
        ensures
            final(self).batcher().batch_size() == old(self).batcher().batch_size(),
            final(self).batcher().batch_timeout() == old(self).batcher().batch_timeout(),
            final(directory_manager).workspace() == old(directory_manager).workspace(),
            final(directory_manager).root_node() == old(directory_manager).root_node(),
            old(directory_manager).wf() ==> final(directory_manager).wf(),
            match reported(*event, timestamp_ms, metadata) {
                None => {
                    &&& r is None
                    &&& final(self).batcher() == old(self).batcher()
                    &&& final(directory_manager)@ == old(directory_manager)@
                },
                Some(file_event) => {
                    let held = old(self).batcher().pending().push(file_event);
                    &&& final(directory_manager)@ == without_parent(
                        old(directory_manager)@,
                        file_event.spec_path()@,
                    )
                    &&& parent_of(file_event.spec_path()@) matches Some(parent) ==> !final(directory_manager)@.contains_key(parent)
                    &&& if old(self).batcher().due(held.len(), now_ms) {
                        &&& r is Some
                        &&& r->Some_0@ == held
                        &&& final(self).batcher().pending() == Seq::<FileEvent>::empty()
                        &&& final(self).batcher().last_emit() == now_ms
                    } else {
                        &&& r is None
                        &&& final(self).batcher().pending() == held
                        &&& final(self).batcher().last_emit() == old(self).batcher().last_emit()
                    }
                },
            },
    {
        match FileEvent::from_notify_event(event, timestamp_ms, metadata) {
            None => None,
            Some(file_event) => {
                match parent_directory(file_event.path().as_str()) {
                    Some(parent) => {
                        directory_manager.invalidate_cache(parent.as_str());
                    },
                    None => {},
                }
                self.event_batcher.add_event(file_event, now_ms)
            },
        }
    }

    /// The periodic check: the batch that has waited out the timeout, if any.
    pub fn check_timeout(&mut self, now_ms: u64) -> (r: Option<Vec<FileEvent>>)
        ensures
            final(self).batcher().batch_size() == old(self).batcher().batch_size(),
            final(self).batcher().batch_timeout() == old(self).batcher().batch_timeout(),
            r is Some <==> old(self).batcher().pending().len() > 0 && old(self).batcher().timed_out(
                now_ms,
            ),
            r is Some ==> r->Some_0@ == old(self).batcher().pending() && final(self).batcher().pending() == Seq::<FileEvent>::empty() && final(self).batcher().last_emit()
                == now_ms,
            r is None ==> final(self).batcher().pending() == old(self).batcher().pending()
                && final(self).batcher().last_emit() == old(self).batcher().last_emit(),
    {
        self.event_batcher.check_timeout(now_ms)
    }
}

} // verus!
