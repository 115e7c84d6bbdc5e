use futures::task::Task;
use vstd::prelude::*;

verus! {

/// Declares `futures::task::Task` as an opaque type: a task is only stored and
/// handed back to be woken, never inspected.
#[verifier::external_type_specification]
#[verifier::external_body]
pub struct ExTask(Task);

/// What the notification logic reads of the spawner: whether a polling task
/// has been recorded, and whether a future was pushed that the task has not
/// yet been told about.
pub struct SpawnView {
    pub registered: bool,
    pub needs_notify: bool,
}

/// The state after a future is pushed onto the spawner.
pub open spec fn after_push(v: SpawnView) -> SpawnView {
    SpawnView { registered: v.registered, needs_notify: true }
}

/// Whether `notify` hands back the polling task to be woken.
pub open spec fn notify_wakes(v: SpawnView) -> bool {
    v.registered
}

/// The state after `notify`.
pub open spec fn after_notify(v: SpawnView) -> SpawnView {
    if v.registered {
        SpawnView { registered: true, needs_notify: false }
    } else {
        v
    }
}

/// Whether `notify_if_needed` hands back the polling task to be woken.
pub open spec fn notify_if_needed_wakes(v: SpawnView) -> bool {
    v.needs_notify && v.registered
}

/// The state after `notify_if_needed`.
pub open spec fn after_notify_if_needed(v: SpawnView) -> SpawnView {
    if v.needs_notify {
        after_notify(v)
    } else {
        v
    }
}

/// The state after the polling task starts a round of polling.
pub open spec fn after_poll(v: SpawnView) -> SpawnView {
    SpawnView { registered: true, needs_notify: false }
}

/// One operation on the spawner, as the executor performs them.
pub enum SpawnEvent {
    /// A future is pushed without waking the task.
    Push,
    /// The recorded task is handed back to be woken, if there is one.
    Notify,
    /// The recorded task is handed back to be woken if a push is still
    /// unannounced.
    NotifyIfNeeded,
    /// A future is pushed and the task is handed back to be woken at once.
    Spawn,
    /// The task starts a round of polling the spawned futures.
    Poll,
}

/// The state after one event.
pub open spec fn step(v: SpawnView, e: SpawnEvent) -> SpawnView {
    match e {
        SpawnEvent::Push => after_push(v),
        SpawnEvent::Notify => after_notify(v),
        SpawnEvent::NotifyIfNeeded => after_notify_if_needed(v),
        SpawnEvent::Spawn => after_notify(after_push(v)),
        SpawnEvent::Poll => after_poll(v),
    }
}

/// Whether one event hands back the recorded task to be woken.
pub open spec fn wakes(v: SpawnView, e: SpawnEvent) -> bool {
    match e {
        SpawnEvent::Push => false,
        SpawnEvent::Notify => notify_wakes(v),
        SpawnEvent::NotifyIfNeeded => notify_if_needed_wakes(v),
        SpawnEvent::Spawn => notify_wakes(v),
        SpawnEvent::Poll => false,
    }
}

/// The state after a sequence of events, applied from first to last.
pub open spec fn run(v: SpawnView, es: Seq<SpawnEvent>) -> SpawnView
    decreases es.len(),
{
    if es.len() == 0 {
        v
    } else {
        step(run(v, es.drop_last()), es.last())
    }
}

/// Whether the event at index `k` of `es`, started from `v`, hands back the
/// task to be woken: the executor wakes exactly the tasks handed back.
pub open spec fn woke_at(v: SpawnView, es: Seq<SpawnEvent>, k: int) -> bool {
    wakes(run(v, es.take(k)), es[k])
}

/// Notification state of the set of spawned futures: the task that last
/// polled them, and whether futures were pushed since it was last handed
/// back to be woken or last polled.
#[derive(Debug)]
pub struct SpawnState {
    poll_task: Option<Task>,
    needs_notify: bool,
}

impl View for SpawnState {
    type V = SpawnView;

    closed spec fn view(&self) -> SpawnView {
        SpawnView { registered: self.poll_task is Some, needs_notify: self.needs_notify }
    }
}

impl SpawnState {
    /// The task recorded by the last poll, if any.
    pub closed spec fn task(&self) -> Option<Task> {
        self.poll_task
    }

    /// A state with no recorded task and nothing pushed.
    pub fn new() -> (s: Self)
        ensures
            s@ == (SpawnView { registered: false, needs_notify: false }),
            s.task() is None,
    {
        SpawnState { poll_task: None, needs_notify: false }
    }

    /// Records that a future was pushed; no task is handed back to wake.
    pub fn push(&mut self)
        ensures
            final(self)@ == after_push(old(self)@),
            final(self).task() == old(self).task(),
    {
        self.needs_notify = true;
    }

    /// Decides a wake now: hands back the recorded task, if there is one, for
    /// the caller to wake with `Task::notify`, and counts the pushed futures
    /// as announced to it. Hands back nothing, and changes nothing, before the
    /// first poll.
    pub fn notify(&mut self) -> (wake: Option<&Task>)
        ensures
            wake is Some <==> notify_wakes(old(self)@),
            wake matches Some(t) ==> old(self).task() == Some(*t),
            final(self)@ == after_notify(old(self)@),
            final(self).task() == old(self).task(),
    {
        if self.poll_task.is_some() {
            self.needs_notify = false;
        }
        self.poll_task.as_ref()
    }

    /// Decides a wake only when a future was pushed since the last wake or
    /// poll: hands back the recorded task to wake in that case, and nothing
    /// otherwise.
    pub fn notify_if_needed(&mut self) -> (wake: Option<&Task>)
        ensures
            wake is Some <==> notify_if_needed_wakes(old(self)@),
            wake matches Some(t) ==> old(self).task() == Some(*t),
            final(self)@ == after_notify_if_needed(old(self)@),
            final(self).task() == old(self).task(),
    {
        if self.needs_notify {
            self.notify()
        } else {
            None
        }
    }

    /// Records a pushed future and decides a wake at once: hands back the
    /// recorded task to wake, if there is one.
    pub fn spawn(&mut self) -> (wake: Option<&Task>)
        ensures
            wake is Some <==> notify_wakes(old(self)@),
            wake matches Some(t) ==> old(self).task() == Some(*t),
            final(self)@ == after_notify(after_push(old(self)@)),
            final(self).task() == old(self).task(),
    {
        self.push();
        self.notify()
    }

    /// Starts a round of polling by `task`: it becomes the task to wake, and
    /// nothing is left to notify it about.
    pub fn begin_poll(&mut self, task: Task)
        ensures
            final(self)@ == after_poll(old(self)@),
            final(self).task() == Some(task),
    {
        self.needs_notify = false;
        self.poll_task = Some(task);
    }

    /// The task recorded by the last poll, if any.
    pub fn poll_task(&self) -> (r: Option<&Task>)
        ensures
            r is Some <==> self@.registered,
            r matches Some(t) ==> self.task() == Some(*t),
    {
        self.poll_task.as_ref()
    }

    /// Whether a future was pushed since the task was last handed back to be
    /// woken or last polled.
    pub fn needs_notify(&self) -> (r: bool)
        ensures
            r == self@.needs_notify,
    {
        self.needs_notify
    }
}

} // verus!
