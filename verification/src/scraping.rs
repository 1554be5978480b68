//! Scraping: which days to fetch, in which order, and what to do with what
//! comes back.
//!
//! Fetching and waiting happen elsewhere. A `DayRange` says which day is
//! next; a `ScrapeQueue` says, each time it is asked, what is to be done
//! now.

use crate::client::ClientError;
use crate::date::ApodDate;
use crate::task::accepts;
use crate::task::idle;
use crate::task::poll_result;
use crate::task::shown_status;
use crate::task::started;
use crate::task::stopped;
use crate::task::TaskHandler;
use crate::task::TaskView;
use std::collections::VecDeque;
use vstd::prelude::*;
use vstd::string::StringExecFns;

verus! {

/// The milliseconds to wait after each fetch unless told otherwise.
pub const DEFAULT_DELAY_MILLIS: u64 = 1000;

/// The days from `from` to `to`, both included, in ascending order.
pub open spec fn days_between(from: int, to: int) -> Seq<ApodDate>
    decreases to - from + 1,
{
    if from > to {
        Seq::empty()
    } else {
        seq![ApodDate(from as i32)] + days_between(from + 1, to)
    }
}

/// The days of a range that are still to come, first to last. It can only
/// be walked forward, and whoever walks it may stop at any day.
pub struct DayRange {
    next: ApodDate,
    end: ApodDate,
    done: bool,
}

impl View for DayRange {
    type V = Seq<ApodDate>;

    /// The days still to come.
    closed spec fn view(&self) -> Seq<ApodDate> {
        if self.done {
            Seq::empty()
        } else {
            days_between(self.next.0 as int, self.end.0 as int)
        }
    }
}

impl DayRange {
    /// The days from `start` to `end`, both included.
    pub fn new(start: ApodDate, end: ApodDate) -> (r: Self)
        ensures
            r@ == days_between(start.0 as int, end.0 as int),
    {
        DayRange { next: start, end, done: start.0 > end.0 }
    }

    /// The next day of the range; `None` where none is left.
    pub fn next_day(&mut self) -> (r: Option<ApodDate>)
        ensures
            match r {
                Some(day) => old(self)@.len() > 0 && day == old(self)@[0] && final(self)@ == old(self)@.drop_first(),
                None => old(self)@.len() == 0 && final(self)@ == old(self)@,
            },
    {
        if self.done || self.next.0 > self.end.0 {
            return None;
        }
        let day = self.next;
        proof {
            let rest = days_between(day.0 as int + 1, self.end.0 as int);
            assert(old(self)@ == seq![day] + rest);
            assert(old(self)@.drop_first() =~= rest);
        }
        if day.0 == self.end.0 {
            self.done = true;
            assert(days_between(day.0 as int + 1, self.end.0 as int) =~= Seq::<ApodDate>::empty());
        } else {
            self.next = ApodDate(day.0 + 1);
        }
        Some(day)
    }

    /// How many days are still to come.
    pub fn remaining(&self) -> (r: u64)
        ensures
            r == self@.len(),
    {
        proof {
            lemma_days_between_len(self.next.0 as int, self.end.0 as int);
        }
        if self.done || self.next.0 > self.end.0 {
            0
        } else {
            (self.end.0 as i64 - self.next.0 as i64 + 1) as u64
        }
    }
}

/// A range holds as many days as lie between its ends.
pub proof fn lemma_days_between_len(from: int, to: int)
    ensures
        days_between(from, to).len() == if from > to {
            0
        } else {
            to - from + 1
        },
    decreases to - from + 1,
{
    if from <= to {
        lemma_days_between_len(from + 1, to);
    }
}

/// How to pace fetches: how long to wait after each.
#[derive(Debug, Clone, Copy, PartialEq, Eq, Structural)]
pub struct Scraper {
    pub delay_millis: u64,
}

impl Scraper {
    pub fn new() -> (r: Self)
        ensures
            r.delay_millis == DEFAULT_DELAY_MILLIS,
    {
        Scraper { delay_millis: DEFAULT_DELAY_MILLIS }
    }

    pub fn with_delay(self, delay_millis: u64) -> (r: Self)
        ensures
            r.delay_millis == delay_millis,
    {
        Scraper { delay_millis }
    }

    /// The days to fetch for a range, first to last.
    pub fn iter_html(&self, start: ApodDate, end: ApodDate) -> (r: DayRange)
        ensures
            r@ == days_between(start.0 as int, end.0 as int),
    {
        DayRange::new(start, end)
    }
}

/// What the fetch of a day's page gave: the day, with its text or with the
/// fact that it has none, or the day with the error.
pub enum PageFetch {
    Found { date: ApodDate, html: String },
    Absent { date: ApodDate },
    Failed { date: ApodDate, error: ClientError },
}

/// What is to be done now.
pub enum ScrapeStep {
    /// Nothing is under way and nothing is waiting.
    Idle,
    /// Fetch the page of `date`, and hand in what comes back under
    /// `ticket`.
    Fetch { ticket: u64, date: ApodDate },
    /// A fetch is under way and has not ended.
    Waiting,
    /// A fetch has ended: this is what it gave.
    Done(PageFetch),
}

/// The days waiting to be fetched, and the fetch under way, as values.
pub struct ScrapeQueueView {
    pub task: TaskView<PageFetch>,
    pub queue: Seq<ApodDate>,
}

/// The days waiting to be fetched, first in first out, and at most one
/// fetch under way.
pub struct ScrapeQueue {
    fetch_task: TaskHandler<PageFetch>,
    queue: VecDeque<ApodDate>,
}

impl View for ScrapeQueue {
    type V = ScrapeQueueView;

    closed spec fn view(&self) -> ScrapeQueueView {
        ScrapeQueueView { task: self.fetch_task@, queue: self.queue@ }
    }
}

impl Default for ScrapeQueue {
    fn default() -> (r: Self)
        ensures
            r@ == (ScrapeQueueView { task: idle(), queue: Seq::empty() }),
    {
        ScrapeQueue::new()
    }
}

impl ScrapeQueue {
    pub fn new() -> (r: Self)
        ensures
            r@ == (ScrapeQueueView { task: idle(), queue: Seq::empty() }),
    {
        ScrapeQueue { fetch_task: TaskHandler::new(), queue: VecDeque::new() }
    }

    /// Puts a day at the end of the queue.
    pub fn enqueue(&mut self, date: ApodDate)
        ensures
            final(self)@ == (ScrapeQueueView { queue: old(self)@.queue.push(date), ..old(self)@ }),
    {
        self.queue.push_back(date);
    }

    /// Takes the day at the front of the queue.
    pub fn dequeue(&mut self) -> (r: Option<ApodDate>)
        ensures
            match r {
                Some(date) => old(self)@.queue.len() > 0 && date == old(self)@.queue[0] && final(self)@ == (ScrapeQueueView { queue: old(self)@.queue.drop_first(), ..old(self)@ }),
                None => old(self)@.queue.len() == 0 && final(self)@ == old(self)@,
            },
    {
        let r = self.queue.pop_front();
        proof {
            if r is Some {
                assert(self.queue@ =~= old(self).queue@.drop_first());
            }
        }
        r
    }

    pub fn queue_len(&self) -> (r: usize)
        ensures
            r == self@.queue.len(),
    {
        self.queue.len()
    }

    /// Empties the queue and drops the fetch under way; what that fetch
    /// gives later is discarded.
    pub fn abort(&mut self)
        ensures
            final(self)@ == (ScrapeQueueView {
                task: stopped(old(self)@.task),
                queue: Seq::empty(),
            }),
    {
        self.queue.clear();
        self.fetch_task.abort();
    }

    /// Whether a fetch is under way or has ended unseen.
    pub fn is_busy(&self) -> (r: bool)
        ensures
            r == self@.task.running is Some,
    {
        self.fetch_task.is_busy()
    }

    /// The progress of the fetch under way.
    pub fn status(&self) -> (r: Option<String>)
        ensures
            r.deep_view() == shown_status(self@.task),
    {
        self.fetch_task.status()
    }

    /// Publishes progress of the fetch `ticket`.
    pub fn set_status(&mut self, ticket: u64, text: String) -> (accepted: bool)
        ensures
            accepted == accepts(old(self)@.task, ticket),
            final(self)@.queue == old(self)@.queue,
            final(self)@.task == if accepted {
                TaskView { status: Some(text@), ..old(self)@.task }
            } else {
                old(self)@.task
            },
    {
        self.fetch_task.set_status(ticket, text)
    }

    /// Hands in what the fetch `ticket` gave. It is taken in only where
    /// that fetch is the one under way.
    pub fn complete(&mut self, ticket: u64, fetched: PageFetch) -> (accepted: bool)
        ensures
            accepted == accepts(old(self)@.task, ticket),
            final(self)@.queue == old(self)@.queue,
            final(self)@.task == if accepted {
                TaskView { result: Some(fetched), ..old(self)@.task }
            } else {
                old(self)@.task
            },
    {
        self.fetch_task.complete(ticket, fetched)
    }

    /// Reports that the fetch `ticket` has ended without giving anything.
    /// Where that fetch is the one under way, the queue is free for the
    /// next day; the days that wait stay in the queue.
    pub fn lose(&mut self, ticket: u64) -> (accepted: bool)
        ensures
            accepted == accepts(old(self)@.task, ticket),
            final(self)@.queue == old(self)@.queue,
            final(self)@.task == if accepted {
                stopped(old(self)@.task)
            } else {
                old(self)@.task
            },
    {
        self.fetch_task.lose(ticket)
    }

    /// What is to be done now. With nothing under way, the day at the
    /// front of the queue is taken and a fetch of it begins; with a fetch
    /// under way, its result is handed out once it is there.
    pub fn update(&mut self) -> (r: ScrapeStep)
        ensures
            r == scrape_step(old(self)@, final(self)@),
            final(self)@ == after_update(old(self)@, r),
    {
        if !self.is_busy() && self.queue.len() == 0 {
            return ScrapeStep::Idle;
        }
        if !self.is_busy() {
            match self.dequeue() {
                Some(date) => {
                    let ticket = self.fetch_task.spawn();
                    return ScrapeStep::Fetch { ticket, date };
                },
                None => {
                    return ScrapeStep::Idle;
                },
            }
        }
        match self.fetch_task.poll() {
            Some(fetched) => ScrapeStep::Done(fetched),
            None => ScrapeStep::Waiting,
        }
    }
}

/// What `update` tells to do, given what the queue held before and holds
/// after.
pub open spec fn scrape_step(before: ScrapeQueueView, after: ScrapeQueueView) -> ScrapeStep {
    if before.task.running is None {
        if before.queue.len() == 0 {
            ScrapeStep::Idle
        } else {
            ScrapeStep::Fetch { ticket: before.task.next, date: before.queue[0] }
        }
    } else {
        match poll_result(before.task) {
            Some(fetched) => ScrapeStep::Done(fetched),
            None => ScrapeStep::Waiting,
        }
    }
}

/// What the queue holds after `update` told to do `step`.
pub open spec fn after_update(before: ScrapeQueueView, step: ScrapeStep) -> ScrapeQueueView {
    match step {
        ScrapeStep::Idle => before,
        ScrapeStep::Fetch { ticket, date } => ScrapeQueueView {
            task: started(before.task),
            queue: before.queue.drop_first(),
        },
        ScrapeStep::Waiting => before,
        ScrapeStep::Done(_) => ScrapeQueueView { task: stopped(before.task), queue: before.queue },
    }
}

/// The progress to publish when the fetch of a page begins, given the day
/// in print.
pub fn fetch_status(day: &str) -> (r: String)
    ensures
        r@ == "Fetching page for "@ + day@ + "..."@,
{
    let mut r = String::from_str("Fetching page for ");
    r.append(day);
    r.append("...");
    r
}

} // verus!
