//! The state that the reactor's sources fill and that each loop iteration
//! drains, and the order in which the application sees it.
//!
//! Sources append user events to one queue and every other event to the sink.
//! An iteration takes both out at once (the sink by exchanging it with an empty
//! buffer), so callbacks run while nothing of the loop's state is borrowed.
use crate::control::{control_flow_after, ControlFlow, StartCause};
use std::collections::VecDeque;
use vstd::prelude::*;

verus! {

/// One call of the application's callback.
#[derive(Debug, Clone, PartialEq, Eq)]
pub enum LoopEvent<T, W> {
    NewEvents(StartCause),
    UserEvent(T),
    /// An event that a source appended to the sink.
    Window(W),
    /// The redraw that the loop asks for once, before its first iteration.
    RedrawRequested,
    MainEventsCleared,
    RedrawEventsCleared,
    LoopDestroyed,
}

/// Whether an exit requested before this event survives the callback: it does
/// for every event delivered from within an iteration after its notice.
pub open spec fn keeps_exit<T, W>(e: LoopEvent<T, W>) -> bool {
    match e {
        LoopEvent::UserEvent(_) => true,
        LoopEvent::Window(_) => true,
        LoopEvent::MainEventsCleared => true,
        LoopEvent::RedrawEventsCleared => true,
        _ => false,
    }
}

impl<T, W> LoopEvent<T, W> {
    pub fn keeps_exit(&self) -> (r: bool)
        ensures
            r == keeps_exit(*self),
    {
        match self {
            LoopEvent::UserEvent(_) => true,
            LoopEvent::Window(_) => true,
            LoopEvent::MainEventsCleared => true,
            LoopEvent::RedrawEventsCleared => true,
            _ => false,
        }
    }
}

pub open spec fn user_events<T, W>(us: Seq<T>) -> Seq<LoopEvent<T, W>> {
    us.map_values(|u: T| LoopEvent::UserEvent(u))
}

pub open spec fn window_events<T, W>(ws: Seq<W>) -> Seq<LoopEvent<T, W>> {
    ws.map_values(|w: W| LoopEvent::Window(w))
}

/// The events of one iteration, in delivery order: the notice, the user events
/// in the order they were queued, the sink's events in the order they were
/// appended, then the two cleared notices.
pub open spec fn iteration_events<T, W>(cause: StartCause, us: Seq<T>, ws: Seq<W>) -> Seq<
    LoopEvent<T, W>,
> {
    seq![LoopEvent::NewEvents(cause)] + user_events(us) + window_events(ws) + seq![
        LoopEvent::MainEventsCleared,
        LoopEvent::RedrawEventsCleared,
    ]
}

/// The events delivered once, before the first iteration.
pub open spec fn startup_events<T, W>() -> Seq<LoopEvent<T, W>> {
    seq![LoopEvent::NewEvents(StartCause::Init), LoopEvent::RedrawRequested]
}

/// The loop's queues and its control-flow directive.
pub struct LoopState<T, W> {
    control_flow: ControlFlow,
    pending_user_events: VecDeque<T>,
    event_sink: VecDeque<W>,
}

impl<T, W> LoopState<T, W> {
    pub closed spec fn control_flow_spec(&self) -> ControlFlow {
        self.control_flow
    }

    /// The user events queued since the last iteration, oldest first.
    pub closed spec fn pending(&self) -> Seq<T> {
        self.pending_user_events@
    }

    /// The events appended to the sink since the last iteration, oldest first.
    pub closed spec fn sink(&self) -> Seq<W> {
        self.event_sink@
    }

    /// A loop that polls and has nothing queued.
    pub fn new() -> (r: Self)
        ensures
            r.control_flow_spec() == ControlFlow::Poll,
            r.pending() == Seq::<T>::empty(),
            r.sink() == Seq::<W>::empty(),
    {
        LoopState {
            control_flow: ControlFlow::Poll,
            pending_user_events: VecDeque::new(),
            event_sink: VecDeque::new(),
        }
    }

    pub fn control_flow(&self) -> (r: ControlFlow)
        ensures
            r == self.control_flow_spec(),
    {
        self.control_flow
    }

    pub fn pending_len(&self) -> (r: usize)
        ensures
            r == self.pending().len(),
    {
        self.pending_user_events.len()
    }

    pub fn sink_len(&self) -> (r: usize)
        ensures
            r == self.sink().len(),
    {
        self.event_sink.len()
    }

    /// Queues a user event that the channel delivered.
    pub fn push_user_event(&mut self, event: T)
        ensures
            final(self).pending() == old(self).pending().push(event),
            final(self).sink() == old(self).sink(),
            final(self).control_flow_spec() == old(self).control_flow_spec(),
    {
        self.pending_user_events.push_back(event);
    }

    /// Appends an event that a source produced to the sink.
    pub fn push_event(&mut self, event: W)
        ensures
            final(self).sink() == old(self).sink().push(event),
            final(self).pending() == old(self).pending(),
            final(self).control_flow_spec() == old(self).control_flow_spec(),
    {
        self.event_sink.push_back(event);
    }

    /// Records the directive that a callback for an event left: an exit that
    /// was already requested stays for the events that keep it.
    pub fn callback_returned(&mut self, keeps_exit: bool, requested: ControlFlow)
        ensures
            final(self).control_flow_spec() == control_flow_after(
                old(self).control_flow_spec(),
                keeps_exit,
                requested,
            ),
            final(self).pending() == old(self).pending(),
            final(self).sink() == old(self).sink(),
    {
        self.control_flow = self.control_flow.after_callback(keeps_exit, requested);
    }

    /// The events delivered before the first iteration.
    pub fn startup_events() -> (r: Vec<LoopEvent<T, W>>)
        ensures
            r@ == startup_events::<T, W>(),
    {
        let mut out: Vec<LoopEvent<T, W>> = Vec::new();
        out.push(LoopEvent::NewEvents(StartCause::Init));
        out.push(LoopEvent::RedrawRequested);
        assert(out@ =~= startup_events::<T, W>());
        out
    }

    /// Takes everything queued and returns the iteration's events in delivery
    /// order; both queues are left empty.
    pub fn take_iteration(&mut self, cause: StartCause) -> (r: Vec<LoopEvent<T, W>>)
        ensures
            r@ == iteration_events(cause, old(self).pending(), old(self).sink()),
            final(self).pending() == Seq::<T>::empty(),
            final(self).sink() == Seq::<W>::empty(),
            final(self).control_flow_spec() == old(self).control_flow_spec(),
    {
        let ghost us = self.pending_user_events@;
        let ghost ws = self.event_sink@;
        let mut out: Vec<LoopEvent<T, W>> = Vec::new();
        out.push(LoopEvent::NewEvents(cause));

        let mut users: VecDeque<T> = VecDeque::new();
        std::mem::swap(&mut users, &mut self.pending_user_events);
        let ghost k: int = 0;
        while users.len() > 0
            invariant
                0 <= k <= us.len(),
                users@ == us.subrange(k, us.len() as int),
                out@.len() == 1 + k,
                out@[0] == LoopEvent::<T, W>::NewEvents(cause),
                forall|j: int| 0 <= j < k ==> out@[1 + j] == LoopEvent::<T, W>::UserEvent(us[j]),
            decreases users@.len(),
        {
            match users.pop_front() {
                Some(u) => {
                    out.push(LoopEvent::UserEvent(u));
                    proof {
                        k = k + 1;
                    }
                },
                None => {},
            }
        }
        assert(out@ =~= seq![LoopEvent::NewEvents(cause)] + user_events::<T, W>(us));

        let mut back_buffer: VecDeque<W> = VecDeque::new();
        std::mem::swap(&mut back_buffer, &mut self.event_sink);
        let ghost head = out@;
        let ghost m: int = 0;
        while back_buffer.len() > 0
            invariant
                0 <= m <= ws.len(),
                back_buffer@ == ws.subrange(m, ws.len() as int),
                out@.len() == head.len() + m,
                forall|j: int| 0 <= j < head.len() ==> out@[j] == head[j],
                forall|j: int| 0 <= j < m ==> out@[head.len() + j] == LoopEvent::<T, W>::Window(ws[j]),
            decreases back_buffer@.len(),
        {
            match back_buffer.pop_front() {
                Some(w) => {
                    out.push(LoopEvent::Window(w));
                    proof {
                        m = m + 1;
                    }
                },
                None => {},
            }
        }
        assert(out@ =~= head + window_events::<T, W>(ws));
        out.push(LoopEvent::MainEventsCleared);
        out.push(LoopEvent::RedrawEventsCleared);
        assert(out@ =~= iteration_events(cause, us, ws));
        out
    }
}

/// Events appended to the sink during one dispatch reach the application in
/// the order they were appended, one for one, after the iteration's notice and
/// user events and before its cleared notices.
pub proof fn lemma_sink_order_kept<T, W>(cause: StartCause, us: Seq<T>, ws: Seq<W>)
    ensures
        iteration_events(cause, us, ws).len() == us.len() + ws.len() + 3,
        forall|k: int|
            0 <= k < ws.len() ==> iteration_events(cause, us, ws)[1 + us.len() + k]
                == LoopEvent::<T, W>::Window(#[trigger] ws[k]),
        forall|i: int|
            0 <= i < iteration_events(cause, us, ws).len() && (#[trigger] iteration_events(
                cause,
                us,
                ws,
            )[i]) is Window ==> 1 + us.len() <= i < 1 + us.len() + ws.len(),
{
    let batch = iteration_events(cause, us, ws);
    assert forall|i: int| 0 <= i < batch.len() && (#[trigger] batch[i]) is Window implies 1
        + us.len() <= i < 1 + us.len() + ws.len() by {
        if i == 0 {
        } else if i < 1 + us.len() {
            assert(batch[i] == LoopEvent::<T, W>::UserEvent(us[i - 1]));
        } else if i >= 1 + us.len() + ws.len() {
            assert(batch[i] is MainEventsCleared || batch[i] is RedrawEventsCleared);
        }
    }
}

/// User events reach the application in the order the channel received them,
/// each once, right after the iteration's notice and before every event of the
/// sink.
pub proof fn lemma_user_events_first_in_order<T, W>(cause: StartCause, us: Seq<T>, ws: Seq<W>)
    ensures
        iteration_events(cause, us, ws)[0] == LoopEvent::<T, W>::NewEvents(cause),
        forall|k: int|
            0 <= k < us.len() ==> iteration_events(cause, us, ws)[1 + k]
                == LoopEvent::<T, W>::UserEvent(#[trigger] us[k]),
        forall|i: int, j: int|
            0 <= i < j < iteration_events(cause, us, ws).len() && (#[trigger] iteration_events(
                cause,
                us,
                ws,
            )[i]) is Window ==> !((#[trigger] iteration_events(cause, us, ws)[j]) is UserEvent),
{
    let batch = iteration_events(cause, us, ws);
    lemma_sink_order_kept(cause, us, ws);
    assert forall|i: int, j: int|
        0 <= i < j < batch.len() && (#[trigger] batch[i]) is Window implies !((
        #[trigger] batch[j]) is UserEvent) by {
        if j < 1 + us.len() + ws.len() {
            assert(batch[j] == LoopEvent::<T, W>::Window(ws[j - 1 - us.len()]));
        } else {
            assert(batch[j] is MainEventsCleared || batch[j] is RedrawEventsCleared);
        }
    }
}

} // verus!
