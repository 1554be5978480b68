//! Fetching media: which entry's media to fetch next, and what to do with
//! what comes back.
//!
//! Display handles of the days looked at last are held in a bounded cache.
//! For a day without one, the persistent store is asked first; an entry
//! whose media is in neither is queued, and the queue is worked off one
//! fetch at a time.

use crate::client::ClientError;
use crate::date::ApodDate;
use crate::media::handles::after_put;
use crate::media::handles::displaced;
use crate::media::handles::distinct_keys;
use crate::media::handles::index_of_key;
use crate::media::handles::promoted;
use crate::media::handles::HandleCache;
use crate::media::handles::HandleCacheView;
use crate::media::handles::DEFAULT_HANDLE_CAPACITY;
use crate::media::MediaEntry;
use crate::task::accepts;
use crate::task::idle;
use crate::task::poll_result;
use crate::task::shown_status;
use crate::task::started;
use crate::task::stopped;
use crate::task::TaskHandler;
use crate::task::TaskView;
use crate::ApodEntry;
use crate::ApodEntryView;
use std::collections::VecDeque;
use vstd::prelude::*;

verus! {

/// What is to be done now.
pub enum MediaStep {
    /// Nothing is under way and nothing is waiting.
    Idle,
    /// Fetch the media of `entry`, and hand in what comes back under
    /// `ticket`.
    Fetch { ticket: u64, entry: ApodEntry },
    /// A fetch is under way and has not ended.
    Waiting,
    /// The fetch for `date` gave this media: store it, and keep its
    /// display handle.
    Fetched { date: ApodDate, media: MediaEntry },
    /// The media for `date` does not exist.
    NotFound { date: ApodDate },
    /// The fetch for `date` failed.
    Failed { date: ApodDate, error: ClientError },
}

/// What to do for the display handle of a day.
#[derive(Debug, Clone, Copy, PartialEq, Eq, Structural)]
pub enum TextureStep {
    /// The handle is held: show it.
    Show(u64),
    /// No handle is held: ask the persistent store for the day's media.
    AskStore,
}

/// What became of the display handle of an entry once the persistent store
/// has answered.
#[derive(Debug, Clone, Copy, PartialEq, Eq)]
pub enum TextureAnswer {
    /// The store had the media: its handle is held now, and the pair that
    /// left the cache for it is handed out so that its handle can be freed.
    Show { handle: u64, displaced: Option<(ApodDate, u64)> },
    /// The store had nothing: the media is to be fetched, and the entry
    /// waits for that, since now or since before.
    Wait { queued: bool },
}

/// The state of media fetching, as values.
pub struct ApodMediaView {
    pub handles: HandleCacheView,
    pub task: TaskView<Result<Option<MediaEntry>, ClientError>>,
    pub current: Option<ApodEntryView>,
    pub queue: Seq<ApodEntryView>,
}

/// The display handles held, the entries whose media is waiting to be
/// fetched, and the one whose media is being fetched.
pub struct ApodMedia {
    texture_cache: HandleCache,
    fetch_task: TaskHandler<Result<Option<MediaEntry>, ClientError>>,
    current_fetch: Option<ApodEntry>,
    queue: VecDeque<ApodEntry>,
}

/// The values of a queue of entries.
pub open spec fn queue_view(queue: Seq<ApodEntry>) -> Seq<ApodEntryView> {
    Seq::new(queue.len(), |i: int| queue[i]@)
}

impl View for ApodMedia {
    type V = ApodMediaView;

    closed spec fn view(&self) -> ApodMediaView {
        ApodMediaView {
            handles: self.texture_cache@,
            task: self.fetch_task@,
            current: match self.current_fetch {
                Some(entry) => Some(entry@),
                None => None,
            },
            queue: queue_view(self.queue@),
        }
    }
}

/// Whether the media of an entry is waiting to be fetched or being
/// fetched.
pub open spec fn is_requested(media: ApodMediaView, entry: ApodEntryView) -> bool {
    media.queue.contains(entry) || media.current == Some(entry)
}

/// Whether `update` may have told to do `step`, given what was held before
/// and what is held after.
pub open spec fn media_transition(
    before: ApodMediaView,
    step: MediaStep,
    after: ApodMediaView,
) -> bool {
    let busy = before.task.running is Some;
    match step {
        MediaStep::Idle => after == before && ((!busy && before.queue.len() == 0) || (busy
            && before.current is None)),
        MediaStep::Fetch { ticket, entry } => {
            &&& !busy
            &&& before.queue.len() > 0
            &&& entry@ == before.queue[0]
            &&& ticket == before.task.next
            &&& after == ApodMediaView {
                handles: before.handles,
                task: started(before.task),
                current: Some(entry@),
                queue: before.queue.drop_first(),
            }
        },
        MediaStep::Waiting => {
            &&& busy
            &&& before.current is Some
            &&& poll_result(before.task) is None
            &&& after == before
        },
        MediaStep::Fetched { date, media } => {
            &&& busy
            &&& before.current matches Some(entry)
            &&& date == entry.date
            &&& poll_result(before.task) == Some(
                Ok::<Option<MediaEntry>, ClientError>(Some(media)),
            )
            &&& after == ApodMediaView { task: stopped(before.task), current: None, ..before }
        },
        MediaStep::NotFound { date } => {
            &&& busy
            &&& before.current matches Some(entry)
            &&& date == entry.date
            &&& poll_result(before.task) == Some(Ok::<Option<MediaEntry>, ClientError>(None))
            &&& after == ApodMediaView { task: stopped(before.task), current: None, ..before }
        },
        MediaStep::Failed { date, error } => {
            &&& busy
            &&& before.current matches Some(entry)
            &&& date == entry.date
            &&& poll_result(before.task) == Some(Err::<Option<MediaEntry>, ClientError>(error))
            &&& after == ApodMediaView { task: stopped(before.task), current: None, ..before }
        },
    }
}

impl ApodMedia {
    /// Nothing held, nothing waiting, and room for the usual number of
    /// display handles.
    pub fn new() -> (r: Self)
        ensures
            r@ == (ApodMediaView {
                handles: HandleCacheView {
                    entries: Seq::empty(),
                    capacity: DEFAULT_HANDLE_CAPACITY as nat,
                },
                task: idle(),
                current: None,
                queue: Seq::empty(),
            }),
    {
        Self::with_capacity(DEFAULT_HANDLE_CAPACITY)
    }

    /// Nothing held, nothing waiting, and room for `capacity` display
    /// handles.
    pub fn with_capacity(capacity: usize) -> (r: Self)
        requires
            capacity > 0,
        ensures
            r@ == (ApodMediaView {
                handles: HandleCacheView { entries: Seq::empty(), capacity: capacity as nat },
                task: idle(),
                current: None,
                queue: Seq::empty(),
            }),
    {
        let r = ApodMedia {
            texture_cache: HandleCache::new(capacity),
            fetch_task: TaskHandler::new(),
            current_fetch: None,
            queue: VecDeque::new(),
        };
        assert(r@.queue =~= Seq::<ApodEntryView>::empty());
        r
    }

    /// The display handle held for `date`. Getting it counts as use.
    pub fn get_texture(&mut self, date: ApodDate) -> (r: Option<u64>)
        ensures
            final(self)@.task == old(self)@.task,
            final(self)@.current == old(self)@.current,
            final(self)@.queue == old(self)@.queue,
            final(self)@.handles.capacity == old(self)@.handles.capacity,
            final(self)@.handles.entries.len() <= final(self)@.handles.capacity,
            distinct_keys(final(self)@.handles.entries),
            match index_of_key(old(self)@.handles.entries, date.0) {
                Some(i) => r == Some(old(self)@.handles.entries[i].1) && final(self)@.handles.entries
                    == promoted(old(self)@.handles.entries, i),
                None => r is None && final(self)@.handles == old(self)@.handles,
            },
    {
        self.texture_cache.get(date)
    }

    /// Holds the display handle of `date`, and hands out the day and the
    /// handle that left the cache for it, so that the handle can be freed.
    pub fn keep_texture(&mut self, date: ApodDate, handle: u64) -> (r: Option<(ApodDate, u64)>)
        ensures
            final(self)@.task == old(self)@.task,
            final(self)@.current == old(self)@.current,
            final(self)@.queue == old(self)@.queue,
            final(self)@.handles.capacity == old(self)@.handles.capacity,
            final(self)@.handles.entries == after_put(
                old(self)@.handles.entries,
                old(self)@.handles.capacity,
                date.0,
                handle,
            ),
            index_of_key(final(self)@.handles.entries, date.0) == Some(0int),
            final(self)@.handles.entries[0] == (date.0, handle),
            final(self)@.handles.entries.len() <= final(self)@.handles.capacity,
            distinct_keys(final(self)@.handles.entries),
            match r {
                Some((d, h)) => displaced(
                    old(self)@.handles.entries,
                    old(self)@.handles.capacity,
                    date.0,
                ) == Some((d.0, h)),
                None => displaced(
                    old(self)@.handles.entries,
                    old(self)@.handles.capacity,
                    date.0,
                ) is None,
            },
    {
        self.texture_cache.put(date, handle)
    }

    /// The first step towards the display handle of a day: the volatile
    /// tier comes first. A handle held there is shown, and counts as used;
    /// only where none is held is the persistent store to be asked.
    pub fn find_texture(&mut self, date: ApodDate) -> (r: TextureStep)
        ensures
            final(self)@.task == old(self)@.task,
            final(self)@.current == old(self)@.current,
            final(self)@.queue == old(self)@.queue,
            final(self)@.handles.capacity == old(self)@.handles.capacity,
            match index_of_key(old(self)@.handles.entries, date.0) {
                Some(i) => r == TextureStep::Show(old(self)@.handles.entries[i].1)
                    && final(self)@.handles.entries == promoted(old(self)@.handles.entries, i),
                None => r == TextureStep::AskStore && final(self)@.handles == old(self)@.handles,
            },
    {
        match self.get_texture(date) {
            Some(handle) => TextureStep::Show(handle),
            None => TextureStep::AskStore,
        }
    }

    /// The second step, once the persistent store has answered for the
    /// day of `entry`: with the handle of what the store had, that handle
    /// is held and shown; where the store had nothing, the media is asked
    /// to be fetched, unless it is waiting or being fetched already.
    pub fn store_answered(&mut self, entry: &ApodEntry, stored: Option<u64>) -> (r: TextureAnswer)
        ensures
            final(self)@.task == old(self)@.task,
            final(self)@.current == old(self)@.current,
            match stored {
                Some(handle) => {
                    &&& final(self)@.queue == old(self)@.queue
                    &&& final(self)@.handles.capacity == old(self)@.handles.capacity
                    &&& final(self)@.handles.entries == after_put(
                        old(self)@.handles.entries,
                        old(self)@.handles.capacity,
                        entry.date.0,
                        handle,
                    )
                    &&& final(self)@.handles.entries.len() <= final(self)@.handles.capacity
                    &&& distinct_keys(final(self)@.handles.entries)
                    &&& r matches TextureAnswer::Show { handle: shown, displaced: gone }
                    &&& shown == handle
                    &&& match gone {
                        Some((d, h)) => displaced(
                            old(self)@.handles.entries,
                            old(self)@.handles.capacity,
                            entry.date.0,
                        ) == Some((d.0, h)),
                        None => displaced(
                            old(self)@.handles.entries,
                            old(self)@.handles.capacity,
                            entry.date.0,
                        ) is None,
                    }
                },
                None => {
                    &&& final(self)@.handles == old(self)@.handles
                    &&& r == (TextureAnswer::Wait { queued: !is_requested(old(self)@, entry@) })
                    &&& final(self)@.queue == if is_requested(old(self)@, entry@) {
                        old(self)@.queue
                    } else {
                        old(self)@.queue.push(entry@)
                    }
                },
            },
    {
        match stored {
            Some(handle) => {
                let displaced = self.keep_texture(entry.date, handle);
                TextureAnswer::Show { handle, displaced }
            },
            None => {
                let queued = self.request(entry);
                TextureAnswer::Wait { queued }
            },
        }
    }

    /// Whether the media of `entry` is waiting to be fetched.
    fn is_queued(&self, entry: &ApodEntry) -> (r: bool)
        ensures
            r == self@.queue.contains(entry@),
    {
        let mut i: usize = 0;
        while i < self.queue.len()
            invariant
                i <= self.queue.len(),
                forall|k: int| 0 <= k < i ==> self@.queue[k] != entry@,
            decreases self.queue.len() - i,
        {
            if self.queue[i].same_as(entry) {
                assert(self@.queue[i as int] == entry@);
                return true;
            }
            i += 1;
        }
        false
    }

    /// Asks for the media of `entry` to be fetched, unless it is waiting
    /// or being fetched already; `true` where it was queued now.
    pub fn request(&mut self, entry: &ApodEntry) -> (queued: bool)
        ensures
            queued == !is_requested(old(self)@, entry@),
            final(self)@ == if queued {
                ApodMediaView { queue: old(self)@.queue.push(entry@), ..old(self)@ }
            } else {
                old(self)@
            },
    {
        let current = match &self.current_fetch {
            Some(fetching) => fetching.same_as(entry),
            None => false,
        };
        if !self.is_queued(entry) && !current {
            self.queue.push_back(entry.clone());
            assert(self@.queue =~= old(self)@.queue.push(entry@));
            true
        } else {
            false
        }
    }

    /// How many entries wait for their media to be fetched.
    pub fn queue_len(&self) -> (r: usize)
        ensures
            r == self@.queue.len(),
    {
        self.queue.len()
    }

    /// Whether a fetch is under way or has ended unseen.
    pub fn is_busy(&self) -> (r: bool)
        ensures
            r == self@.task.running is Some,
    {
        self.fetch_task.is_busy()
    }

    /// The progress of the fetch under way.
    pub fn status(&self) -> (r: Option<String>)
        ensures
            r.deep_view() == shown_status(self@.task),
    {
        self.fetch_task.status()
    }

    /// Publishes progress of the fetch `ticket`.
    pub fn set_status(&mut self, ticket: u64, text: String) -> (accepted: bool)
        ensures
            accepted == accepts(old(self)@.task, ticket),
            final(self)@ == (ApodMediaView {
                task: if accepted {
                    TaskView { status: Some(text@), ..old(self)@.task }
                } else {
                    old(self)@.task
                },
                ..old(self)@
            }),
    {
        self.fetch_task.set_status(ticket, text)
    }

    /// Hands in what the fetch `ticket` gave. It is taken in only where
    /// that fetch is the one under way.
    pub fn complete(&mut self, ticket: u64, fetched: Result<Option<MediaEntry>, ClientError>) -> (accepted:
        bool)
        ensures
            accepted == accepts(old(self)@.task, ticket),
            final(self)@ == (ApodMediaView {
                task: if accepted {
                    TaskView { result: Some(fetched), ..old(self)@.task }
                } else {
                    old(self)@.task
                },
                ..old(self)@
            }),
    {
        self.fetch_task.complete(ticket, fetched)
    }

    /// Reports that the fetch `ticket` has ended without giving anything.
    /// Where that fetch is the one under way, nothing is being fetched any
    /// more, so that the entry can be asked for again; the entries that
    /// wait stay in the queue.
    pub fn lose(&mut self, ticket: u64) -> (accepted: bool)
        ensures
            accepted == accepts(old(self)@.task, ticket),
            final(self)@ == if accepted {
                ApodMediaView { task: stopped(old(self)@.task), current: None, ..old(self)@ }
            } else {
                old(self)@
            },
    {
        let accepted = self.fetch_task.lose(ticket);
        if accepted {
            self.current_fetch = None;
        }
        accepted
    }

    /// What is to be done now. With nothing under way, the entry at the
    /// front of the queue is taken and a fetch of its media begins; with a
    /// fetch under way, what it gave is handed out once it is there.
    pub fn update(&mut self) -> (r: MediaStep)
        ensures
            media_transition(old(self)@, r, final(self)@),
    {
        if !self.is_busy() && self.queue.len() == 0 {
            return MediaStep::Idle;
        }
        if !self.is_busy() {
            match self.queue.pop_front() {
                Some(entry) => {
                    self.current_fetch = Some(entry.clone());
                    let ticket = self.fetch_task.spawn();
                    assert(self@.queue =~= old(self)@.queue.drop_first());
                    return MediaStep::Fetch { ticket, entry };
                },
                None => {
                    return MediaStep::Idle;
                },
            }
        }
        let date = match &self.current_fetch {
            Some(entry) => entry.date,
            None => {
                return MediaStep::Idle;
            },
        };
        match self.fetch_task.poll() {
            Some(Ok(Some(media))) => {
                self.current_fetch = None;
                MediaStep::Fetched { date, media }
            },
            Some(Ok(None)) => {
                self.current_fetch = None;
                MediaStep::NotFound { date }
            },
            Some(Err(error)) => {
                self.current_fetch = None;
                MediaStep::Failed { date, error }
            },
            None => MediaStep::Waiting,
        }
    }
}

} // verus!
