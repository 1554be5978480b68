//! Background tasks: one unit of work at a time, watched without waiting.
//!
//! A handler does not run anything. Whoever runs the work asks it for a
//! ticket, hands in progress and the result under that ticket, and polls.
//! The handler decides what is still wanted.

use vstd::prelude::*;

verus! {

/// What a handler holds.
pub struct TaskView<T> {
    /// The ticket of the unit that is under way or has ended unpolled.
    pub running: Option<u64>,
    /// The result of that unit, once it has ended.
    pub result: Option<T>,
    /// The progress that unit published last.
    pub status: Option<Seq<char>>,
    /// The ticket that the next unit will get.
    pub next: u64,
}

/// The handler of one line of work: idle, or busy with one unit.
pub struct TaskHandler<T> {
    live: Option<u64>,
    issued: u64,
    result: Option<T>,
    status: Option<String>,
}

impl<T> View for TaskHandler<T> {
    type V = TaskView<T>;

    closed spec fn view(&self) -> TaskView<T> {
        TaskView {
            running: self.live,
            result: self.result,
            status: self.status.deep_view(),
            next: self.issued,
        }
    }
}

/// A new handler: nothing under way, and the first ticket still to come.
pub open spec fn idle<T>() -> TaskView<T> {
    TaskView { running: None, result: None, status: None, next: 0 }
}

/// The ticket after `ticket`. Tickets are counted up; after the last one
/// the count begins again.
pub open spec fn successor(ticket: u64) -> u64 {
    if ticket == u64::MAX {
        0
    } else {
        (ticket + 1) as u64
    }
}

/// A handler after its unit has been dropped or polled: nothing under way,
/// and the tickets go on where they were.
pub open spec fn stopped<T>(task: TaskView<T>) -> TaskView<T> {
    TaskView { running: None, result: None, status: None, next: task.next }
}

/// A handler after a new unit has begun: the unit has the ticket that was
/// next, nothing of an earlier unit is left, and the next ticket is the
/// one after.
pub open spec fn started<T>(task: TaskView<T>) -> TaskView<T> {
    TaskView { running: Some(task.next), result: None, status: None, next: successor(task.next) }
}

/// Whether a unit's result is taken in: the unit is the one under way and
/// has not ended yet.
pub open spec fn accepts<T>(task: TaskView<T>, ticket: u64) -> bool {
    task.running == Some(ticket) && task.result is None
}

/// What a poll hands out: the result of the unit, once, when it has ended.
pub open spec fn poll_result<T>(task: TaskView<T>) -> Option<T> {
    if task.running is Some {
        task.result
    } else {
        None
    }
}

/// What a handler holds after a poll: nothing, where the poll handed out a
/// result; else what it held.
pub open spec fn after_poll<T>(task: TaskView<T>) -> TaskView<T> {
    if poll_result(task) is Some {
        stopped(task)
    } else {
        task
    }
}

/// The progress that a handler shows: what was published last, unless it
/// is empty.
pub open spec fn shown_status<T>(task: TaskView<T>) -> Option<Seq<char>> {
    match task.status {
        Some(text) => if task.running is Some && text.len() > 0 {
            Some(text)
        } else {
            None
        },
        None => None,
    }
}

impl<T> Default for TaskHandler<T> {
    fn default() -> (r: Self)
        ensures
            r@ == idle::<T>(),
    {
        TaskHandler::new()
    }
}

impl<T> TaskHandler<T> {
    /// The next ticket is never that of the unit under way.
    #[verifier::type_invariant]
    spec fn fresh_ticket(self) -> bool {
        self.live != Some(self.issued)
    }

    pub fn new() -> (r: Self)
        ensures
            r@ == idle::<T>(),
    {
        TaskHandler { live: None, issued: 0, result: None, status: None }
    }

    /// Empties the handler and hands out what it held.
    fn take_parts(&mut self) -> (parts: (Option<u64>, u64, Option<T>, Option<String>))
        ensures
            parts.0 == old(self).live,
            parts.1 == old(self).issued,
            parts.2 == old(self).result,
            parts.3 == old(self).status,
            parts.0 != Some(parts.1),
            final(self).live is None,
            final(self).issued == old(self).issued,
            final(self).result is None,
            final(self).status is None,
    {
        proof {
            use_type_invariant(&*self);
        }
        let mut held = TaskHandler { live: None, issued: self.issued, result: None, status: None };
        std::mem::swap(self, &mut held);
        let TaskHandler { live, issued, result, status } = held;
        (live, issued, result, status)
    }

    /// Starts a new unit and hands out its ticket, the one that was next.
    /// A unit that was under way is dropped with its result and its
    /// progress: its ticket is not the new one, so nothing handed in under
    /// it is taken in any more.
    pub fn spawn(&mut self) -> (ticket: u64)
        ensures
            ticket == old(self)@.next,
            final(self)@ == started(old(self)@),
            old(self)@.running matches Some(previous) ==> !accepts(final(self)@, previous),
    {
        let (_, issued, _, _) = self.take_parts();
        let next = if issued == u64::MAX {
            0
        } else {
            issued + 1
        };
        *self = TaskHandler { live: Some(issued), issued: next, result: None, status: None };
        issued
    }

    /// Drops the unit under way, with its result and its progress. Its
    /// ticket is not handed out again for the next unit.
    pub fn abort(&mut self)
        ensures
            final(self)@ == stopped(old(self)@),
    {
        let _ = self.take_parts();
    }

    /// Hands in the result of the unit `ticket`. It is taken in only where
    /// that unit is the one under way and has not ended yet; else it is
    /// discarded and nothing changes.
    pub fn complete(&mut self, ticket: u64, value: T) -> (accepted: bool)
        ensures
            accepted == accepts(old(self)@, ticket),
            final(self)@ == if accepted {
                TaskView { result: Some(value), ..old(self)@ }
            } else {
                old(self)@
            },
    {
        let (live, issued, result, status) = self.take_parts();
        let accepted = match live {
            Some(t) => t == ticket && result.is_none(),
            None => false,
        };
        if accepted {
            *self = TaskHandler { live, issued, result: Some(value), status };
        } else {
            *self = TaskHandler { live, issued, result, status };
        }
        accepted
    }

    /// Reports that the unit `ticket` has ended without a result. Where
    /// that unit is the one under way, the handler becomes idle.
    pub fn lose(&mut self, ticket: u64) -> (accepted: bool)
        ensures
            accepted == accepts(old(self)@, ticket),
            final(self)@ == if accepted {
                stopped(old(self)@)
            } else {
                old(self)@
            },
    {
        let (live, issued, result, status) = self.take_parts();
        let accepted = match live {
            Some(t) => t == ticket && result.is_none(),
            None => false,
        };
        if !accepted {
            *self = TaskHandler { live, issued, result, status };
        }
        accepted
    }

    /// Publishes progress of the unit `ticket`, in place of what it
    /// published before. It is taken in only where that unit is the one
    /// under way and has not ended yet.
    pub fn set_status(&mut self, ticket: u64, text: String) -> (accepted: bool)
        ensures
            accepted == accepts(old(self)@, ticket),
            final(self)@ == if accepted {
                TaskView { status: Some(text@), ..old(self)@ }
            } else {
                old(self)@
            },
    {
        let (live, issued, result, status) = self.take_parts();
        let accepted = match live {
            Some(t) => t == ticket && result.is_none(),
            None => false,
        };
        if accepted {
            *self = TaskHandler { live, issued, result, status: Some(text) };
        } else {
            *self = TaskHandler { live, issued, result, status };
        }
        accepted
    }

    /// The result of the unit, where it has ended. A result is handed out
    /// once; with it the handler becomes idle.
    pub fn poll(&mut self) -> (r: Option<T>)
        ensures
            r == poll_result(old(self)@),
            final(self)@ == after_poll(old(self)@),
    {
        let (live, issued, result, status) = self.take_parts();
        if live.is_some() && result.is_some() {
            result
        } else {
            *self = TaskHandler { live, issued, result, status };
            None
        }
    }

    /// Whether a unit is under way or has ended unpolled.
    pub fn is_busy(&self) -> (r: bool)
        ensures
            r == self@.running is Some,
    {
        self.live.is_some()
    }

    /// The progress that the unit published last; `None` where nothing is
    /// under way or nothing but an empty text was published.
    pub fn status(&self) -> (r: Option<String>)
        ensures
            r.deep_view() == shown_status(self@),
    {
        if self.live.is_none() {
            return None;
        }
        match &self.status {
            Some(text) => {
                if text.as_str().is_empty() {
                    None
                } else {
                    Some(text.clone())
                }
            },
            None => None,
        }
    }
}

/// A result is handed out exactly once: whatever a handler holds, a poll
/// right after a poll hands out nothing.
pub proof fn law_poll_delivers_once<T>(task: TaskView<T>)
    ensures
        poll_result(after_poll(task)) is None || poll_result(task) is None,
        poll_result(task) is Some ==> after_poll(task) == stopped(task),
{
}

/// The unit that begins on a handler never has the ticket of the unit
/// that began there just before it, whether that one was dropped, lost or
/// polled in between: what the earlier unit hands in late is not taken in.
pub proof fn law_late_result_is_discarded<T>(task: TaskView<T>)
    ensures
        started(task).running == Some(task.next),
        !accepts(started(stopped(started(task))), task.next),
        !accepts(started(started(task)), task.next),
        !accepts(stopped(started(task)), task.next),
{
}

} // verus!
