//! The part of the macOS view that decides when the window handler runs.
//!
//! The native view forwards every callback that reaches the window handler
//! through a `ViewState`: it asks for an `Action`, performs it (calls the
//! handler, closes the window, stops the application) and, while the action
//! is not terminal, calls `resume` to get the next one. The handler may only
//! run one call at a time; events that arrive while it runs are queued and
//! handed out, in the order in which they came, before the handler is freed.

use std::collections::VecDeque;

use vstd::prelude::*;

verus! {

/// What the window handler is doing on behalf of the view.
#[derive(Debug)]
pub enum Phase<E> {
    /// The handler is free.
    Idle,
    /// A deferrable event was handed straight to the handler.
    Deferrable,
    /// A triggered event waits while the queued events are handed out.
    Draining { main: E, closing: bool },
    /// The triggered event is with the handler.
    Triggered { closing: bool },
    /// A frame requested during the triggered event is with the handler.
    TriggeredFrame { closing: bool },
    /// The events queued while the handler ran are handed out before the
    /// handler is freed.
    Settling { closing: bool },
    /// A frame, then the events queued meanwhile, are with the handler.
    Frame,
}

/// What the native view has to do next.
#[derive(Debug, PartialEq, Eq)]
pub enum Action<E> {
    /// Hand the event to the handler's `on_event`, then resume.
    Deliver(E),
    /// Hand the triggered event to the handler's `on_event`, keep the status
    /// it returns as the result of the trigger, then resume.
    DeliverTriggered(E),
    /// Call the handler's `on_frame`, then resume.
    RunFrame,
    /// Close the window that the view created, then resume.
    CloseWindow,
    /// Stop the application that the view created; nothing follows.
    StopApp,
    /// Nothing to do; the handler is free.
    Done,
}

impl<E> Action<E> {
    /// No `resume` follows this action.
    pub open spec fn is_terminal(self) -> bool {
        self is StopApp || self is Done
    }
}

/// The state of a view, as the contracts speak of it.
#[verifier::ext_equal]
pub struct ViewModel<E> {
    pub open: bool,
    pub handler_installed: bool,
    pub phase: Phase<E>,
    /// Events waiting for the handler, oldest first.
    pub deferred: Seq<E>,
    /// A frame was requested while the handler was busy.
    pub pending_frame: bool,
    /// The view created its own window (parentless mode).
    pub owns_window: bool,
    /// The view created its own application (parentless mode).
    pub owns_app: bool,
    /// The window is being closed as the last step of closing the view.
    pub closing_window: bool,
}

impl<E> ViewModel<E> {
    pub open spec fn wf(self) -> bool {
        &&& !(self.phase is Idle) ==> self.handler_installed
        &&& !self.open ==> !self.owns_window && !self.owns_app && !self.closing_window
        &&& self.closing_window ==> !self.owns_window
    }
}

pub open spec fn initial_model<E>(parentless: bool) -> ViewModel<E> {
    ViewModel {
        open: true,
        handler_installed: false,
        phase: Phase::Idle,
        deferred: Seq::empty(),
        pending_frame: false,
        owns_window: parentless,
        owns_app: parentless,
        closing_window: false,
    }
}

/// Hand out the next queued event, or the triggered event once none is left.
pub open spec fn drain_step<E>(m: ViewModel<E>, main: E, closing: bool) -> (ViewModel<E>, Action<E>) {
    if m.deferred.len() > 0 {
        (
            ViewModel { phase: Phase::Draining { main, closing }, deferred: m.deferred.drop_first(), ..m },
            Action::Deliver(m.deferred[0]),
        )
    } else {
        (ViewModel { phase: Phase::Triggered { closing }, ..m }, Action::DeliverTriggered(main))
    }
}

/// After the window of the view is closed: the view is closed, and the
/// application it created is stopped.
pub open spec fn after_window_closed_step<E>(m: ViewModel<E>) -> (ViewModel<E>, Action<E>) {
    if m.owns_app {
        (ViewModel { open: false, owns_app: false, closing_window: false, ..m }, Action::StopApp)
    } else {
        (ViewModel { open: false, closing_window: false, ..m }, Action::Done)
    }
}

/// The end of a triggered event: the handler is free again, and when the
/// event was the one that closes the view, the closing goes on.
pub open spec fn finish_step<E>(m: ViewModel<E>, closing: bool) -> (ViewModel<E>, Action<E>) {
    let idle = ViewModel { phase: Phase::Idle, ..m };
    if !closing {
        (idle, Action::Done)
    } else if m.owns_window {
        (ViewModel { owns_window: false, closing_window: true, ..idle }, Action::CloseWindow)
    } else {
        after_window_closed_step(idle)
    }
}

/// At the end of a handler call: hand out the events that were queued
/// meanwhile, one by one, and free the handler once none is left.
pub open spec fn settle_step<E>(m: ViewModel<E>, closing: bool) -> (ViewModel<E>, Action<E>) {
    if m.deferred.len() > 0 {
        (
            ViewModel { phase: Phase::Settling { closing }, deferred: m.deferred.drop_first(), ..m },
            Action::Deliver(m.deferred[0]),
        )
    } else {
        finish_step(m, closing)
    }
}

/// After a frame: hand out the queued events, then free the handler.
pub open spec fn frame_drain_step<E>(m: ViewModel<E>) -> (ViewModel<E>, Action<E>) {
    if m.deferred.len() > 0 {
        (
            ViewModel { phase: Phase::Frame, deferred: m.deferred.drop_first(), ..m },
            Action::Deliver(m.deferred[0]),
        )
    } else {
        (ViewModel { phase: Phase::Idle, pending_frame: false, ..m }, Action::Done)
    }
}

pub open spec fn deferrable_step<E>(m: ViewModel<E>, event: E) -> (ViewModel<E>, Action<E>) {
    if m.handler_installed && m.phase is Idle {
        (ViewModel { phase: Phase::Deferrable, ..m }, Action::Deliver(event))
    } else {
        (ViewModel { deferred: m.deferred.push(event), ..m }, Action::Done)
    }
}

pub open spec fn trigger_step<E>(m: ViewModel<E>, event: E, closing: bool) -> (ViewModel<E>, Action<E>) {
    drain_step(m, event, closing)
}

pub open spec fn frame_step<E>(m: ViewModel<E>) -> (ViewModel<E>, Action<E>) {
    if m.phase is Idle {
        (ViewModel { phase: Phase::Frame, ..m }, Action::RunFrame)
    } else {
        (ViewModel { pending_frame: true, ..m }, Action::Done)
    }
}

pub open spec fn close_step<E>(m: ViewModel<E>, will_close: E) -> (ViewModel<E>, Action<E>) {
    if !m.open {
        (m, Action::Done)
    } else {
        trigger_step(m, will_close, true)
    }
}

pub open spec fn resume_step<E>(m: ViewModel<E>) -> (ViewModel<E>, Action<E>) {
    match m.phase {
        Phase::Idle => if m.closing_window {
            after_window_closed_step(m)
        } else {
            (m, Action::Done)
        },
        Phase::Deferrable => settle_step(m, false),
        Phase::Draining { main, closing } => drain_step(m, main, closing),
        Phase::Triggered { closing } => if m.pending_frame {
            (ViewModel { phase: Phase::TriggeredFrame { closing }, ..m }, Action::RunFrame)
        } else {
            settle_step(m, closing)
        },
        Phase::TriggeredFrame { closing } => settle_step(
            ViewModel { pending_frame: false, ..m },
            closing,
        ),
        Phase::Settling { closing } => settle_step(m, closing),
        Phase::Frame => frame_drain_step(m),
    }
}

/// The state of the macOS view that decides when the window handler runs.
pub struct ViewState<E> {
    open: bool,
    handler_installed: bool,
    phase: Phase<E>,
    deferred_events: VecDeque<E>,
    pending_frame: bool,
    owns_window: bool,
    owns_app: bool,
    closing_window: bool,
}

impl<E> View for ViewState<E> {
    type V = ViewModel<E>;

    closed spec fn view(&self) -> ViewModel<E> {
        ViewModel {
            open: self.open,
            handler_installed: self.handler_installed,
            phase: self.phase,
            deferred: self.deferred_events@,
            pending_frame: self.pending_frame,
            owns_window: self.owns_window,
            owns_app: self.owns_app,
            closing_window: self.closing_window,
        }
    }
}

impl<E> ViewState<E> {
    /// A new, open view with no window handler yet. A parentless view owns
    /// the window and the application it runs in.
    pub fn new(parentless: bool) -> (v: Self)
        ensures
            v@ == initial_model::<E>(parentless),
            v@.wf(),
    {
        let v = ViewState {
            open: true,
            handler_installed: false,
            phase: Phase::Idle,
            deferred_events: VecDeque::new(),
            pending_frame: false,
            owns_window: parentless,
            owns_app: parentless,
            closing_window: false,
        };
        assert(v@ =~= initial_model::<E>(parentless));
        v
    }

    /// Record that the window handler is in place.
    pub fn set_window_handler(&mut self)
        requires
            old(self)@.wf(),
            old(self)@.phase is Idle,
        ensures
            final(self)@ == (ViewModel { handler_installed: true, ..old(self)@ }),
            final(self)@.wf(),
    {
        self.handler_installed = true;
        assert(self@ =~= ViewModel { handler_installed: true, ..old(self)@ });
    }

    pub fn is_open(&self) -> (r: bool)
        ensures
            r == self@.open,
    {
        self.open
    }

    /// No handler call is under way.
    pub fn handler_idle(&self) -> (r: bool)
        ensures
            r == self@.phase is Idle,
    {
        matches!(self.phase, Phase::Idle)
    }

    /// The handler is in place and no call of it is under way: an event
    /// can be triggered.
    pub fn handler_free(&self) -> (r: bool)
        ensures
            r == (self@.phase is Idle && self@.handler_installed),
    {
        self.handler_installed && matches!(self.phase, Phase::Idle)
    }

    fn drain(&mut self, main: E, closing: bool) -> (a: Action<E>)
        ensures
            (final(self)@, a) == drain_step(old(self)@, main, closing),
    {
        match self.deferred_events.pop_front() {
            Some(event) => {
                self.phase = Phase::Draining { main, closing };
                Action::Deliver(event)
            },
            None => {
                self.phase = Phase::Triggered { closing };
                Action::DeliverTriggered(main)
            },
        }
    }

    fn after_window_closed(&mut self) -> (a: Action<E>)
        ensures
            (final(self)@, a) == after_window_closed_step(old(self)@),
    {
        self.open = false;
        self.closing_window = false;
        if self.owns_app {
            self.owns_app = false;
            Action::StopApp
        } else {
            Action::Done
        }
    }

    fn finish(&mut self, closing: bool) -> (a: Action<E>)
        ensures
            (final(self)@, a) == finish_step(old(self)@, closing),
    {
        self.phase = Phase::Idle;
        if !closing {
            Action::Done
        } else if self.owns_window {
            self.owns_window = false;
            self.closing_window = true;
            Action::CloseWindow
        } else {
            self.after_window_closed()
        }
    }

    fn settle(&mut self, closing: bool) -> (a: Action<E>)
        ensures
            (final(self)@, a) == settle_step(old(self)@, closing),
    {
        match self.deferred_events.pop_front() {
            Some(event) => {
                self.phase = Phase::Settling { closing };
                Action::Deliver(event)
            },
            None => self.finish(closing),
        }
    }

    fn frame_drain(&mut self) -> (a: Action<E>)
        ensures
            (final(self)@, a) == frame_drain_step(old(self)@),
    {
        match self.deferred_events.pop_front() {
            Some(event) => {
                self.phase = Phase::Frame;
                Action::Deliver(event)
            },
            None => {
                self.phase = Phase::Idle;
                self.pending_frame = false;
                Action::Done
            },
        }
    }

    /// Hand the event to the handler now if it is free, or queue it until
    /// the handler is done with what it is doing. The status the handler
    /// returns for a deferrable event is not reported.
    pub fn trigger_deferrable_event(&mut self, event: E) -> (a: Action<E>)
        requires
            old(self)@.wf(),
        ensures
            (final(self)@, a) == deferrable_step(old(self)@, event),
            final(self)@.wf(),
    {
        if self.handler_installed && matches!(self.phase, Phase::Idle) {
            self.phase = Phase::Deferrable;
            Action::Deliver(event)
        } else {
            self.deferred_events.push_back(event);
            Action::Done
        }
    }

    /// Hand out the queued events, then the event itself, then a frame that
    /// was requested meanwhile, then the events queued while the handler ran.
    /// The handler must be in place and free.
    pub fn trigger_event(&mut self, event: E) -> (a: Action<E>)
        requires
            old(self)@.wf(),
            old(self)@.phase is Idle,
            old(self)@.handler_installed,
        ensures
            (final(self)@, a) == trigger_step(old(self)@, event, false),
            final(self)@.wf(),
    {
        self.drain(event, false)
    }

    /// Run a frame now if the handler is free, and once it is done otherwise.
    pub fn trigger_frame(&mut self) -> (a: Action<E>)
        requires
            old(self)@.wf(),
            old(self)@.phase is Idle ==> old(self)@.handler_installed,
        ensures
            (final(self)@, a) == frame_step(old(self)@),
            final(self)@.wf(),
    {
        if matches!(self.phase, Phase::Idle) {
            self.phase = Phase::Frame;
            Action::RunFrame
        } else {
            self.pending_frame = true;
            Action::Done
        }
    }

    /// Close the view: trigger `will_close`, close the window and stop the
    /// application if the view created them. A closed view stays closed.
    pub fn close(&mut self, will_close: E) -> (a: Action<E>)
        requires
            old(self)@.wf(),
            old(self)@.open ==> old(self)@.phase is Idle && old(self)@.handler_installed,
        ensures
            (final(self)@, a) == close_step(old(self)@, will_close),
            final(self)@.wf(),
    {
        if !self.open {
            Action::Done
        } else {
            self.drain(will_close, true)
        }
    }

    /// The last action that was not terminal has been performed: the next one.
    pub fn resume(&mut self) -> (a: Action<E>)
        requires
            old(self)@.wf(),
        ensures
            (final(self)@, a) == resume_step(old(self)@),
            final(self)@.wf(),
    {
        let mut phase = Phase::Idle;
        std::mem::swap(&mut phase, &mut self.phase);
        match phase {
            Phase::Idle => {
                if self.closing_window {
                    self.after_window_closed()
                } else {
                    Action::Done
                }
            },
            Phase::Deferrable => self.settle(false),
            Phase::Draining { main, closing } => self.drain(main, closing),
            Phase::Triggered { closing } => {
                if self.pending_frame {
                    self.phase = Phase::TriggeredFrame { closing };
                    Action::RunFrame
                } else {
                    self.settle(closing)
                }
            },
            Phase::TriggeredFrame { closing } => {
                self.pending_frame = false;
                self.settle(closing)
            },
            Phase::Settling { closing } => self.settle(closing),
            Phase::Frame => self.frame_drain(),
        }
    }
}

/// The actions that follow `a` when the native view resumes after each one
/// that is not terminal, with no other call in between; at most `fuel`
/// resumes. Returns the state at the end and the actions, `a` first.
pub open spec fn run<E>(m: ViewModel<E>, a: Action<E>, fuel: nat) -> (ViewModel<E>, Seq<Action<E>>)
    decreases fuel,
{
    if a.is_terminal() || fuel == 0 {
        (m, seq![a])
    } else {
        let (m2, a2) = resume_step(m);
        let (mf, rest) = run(m2, a2, (fuel - 1) as nat);
        (mf, seq![a] + rest)
    }
}

/// Each queued event, as the action that hands it to the handler.
pub open spec fn deliveries<E>(events: Seq<E>) -> Seq<Action<E>> {
    events.map_values(|e: E| Action::Deliver(e))
}

/// The frame that a pending frame request gives.
pub open spec fn frame_if<E>(pending: bool) -> Seq<Action<E>> {
    if pending {
        seq![Action::RunFrame]
    } else {
        seq![]
    }
}

proof fn lemma_deliveries_first<E>(q: Seq<E>)
    requires
        q.len() > 0,
    ensures
        deliveries(q) == seq![Action::Deliver(q[0])] + deliveries(q.drop_first()),
{
    assert(deliveries(q) =~= seq![Action::Deliver(q[0])] + deliveries(q.drop_first()));
}

/// The state in which the triggered event is handed out, once the queued
/// events are.
pub open spec fn triggered_state<E>(m: ViewModel<E>, closing: bool) -> ViewModel<E> {
    ViewModel { phase: Phase::Triggered { closing }, deferred: Seq::<E>::empty(), ..m }
}

proof fn lemma_drain_run<E>(m: ViewModel<E>, main: E, closing: bool, k: nat)
    ensures
        ({
            let (m1, a) = drain_step(m, main, closing);
            let (mf, acts) = run(m1, a, m.deferred.len() + k);
            let (mt, tail) = run(
                triggered_state(m, closing),
                Action::DeliverTriggered(main),
                k,
            );
            &&& acts == deliveries(m.deferred) + tail
            &&& mf == mt
        }),
    decreases m.deferred.len(),
{
    let (m1, a) = drain_step(m, main, closing);
    if m.deferred.len() > 0 {
        let m2 = ViewModel { phase: Phase::Draining { main, closing }, ..m1 };
        assert(m1 == m2);
        lemma_drain_run(m1, main, closing, k);
        lemma_deliveries_first(m.deferred);
        assert(triggered_state(m1, closing) == triggered_state(m, closing));
        let (mf, acts) = run(m1, a, m.deferred.len() + k);
        let (mt, tail) = run(triggered_state(m, closing), Action::DeliverTriggered(main), k);
        assert(resume_step(m1) == drain_step(m1, main, closing));
        assert(acts =~= deliveries(m.deferred) + tail);
    } else {
        assert(m.deferred =~= Seq::<E>::empty());
        assert(m1 == triggered_state(m, closing));
        assert(deliveries(m.deferred) =~= Seq::<Action<E>>::empty());
        let (mt, tail) = run(triggered_state(m, closing), Action::DeliverTriggered(main), k);
        assert(deliveries(m.deferred) + tail =~= tail);
    }
}

/// A triggered event reaches the handler after every event that was
/// waiting, which go first in the order in which they came; a frame
/// requested meanwhile runs after it, and then the handler is free, with
/// nothing waiting and no frame pending.
pub proof fn lemma_trigger_event_cycle<E>(m: ViewModel<E>, event: E)
    requires
        m.wf(),
        m.phase is Idle,
        m.handler_installed,
    ensures
        ({
            let (m1, a) = trigger_step(m, event, false);
            let (mf, acts) = run(m1, a, m.deferred.len() + 3);
            &&& acts == deliveries(m.deferred) + seq![Action::DeliverTriggered(event)] + frame_if::<E>(
                m.pending_frame,
            ) + seq![Action::Done]
            &&& mf == ViewModel {
                phase: Phase::Idle,
                deferred: Seq::<E>::empty(),
                pending_frame: false,
                ..m
            }
        }),
{
    lemma_drain_run(m, event, false, 3);
    reveal_with_fuel(run, 4);
    let mt = triggered_state(m, false);
    let (mf, tail) = run(mt, Action::DeliverTriggered(event), 3);
    if m.pending_frame {
        assert(tail =~= seq![Action::DeliverTriggered(event), Action::RunFrame, Action::Done]);
    } else {
        assert(tail =~= seq![Action::DeliverTriggered(event), Action::Done]);
    }
    assert(deliveries(m.deferred) + tail =~= deliveries(m.deferred) + seq![Action::DeliverTriggered(event)]
        + frame_if::<E>(m.pending_frame) + seq![Action::Done]);
}

proof fn lemma_frame_drain_run<E>(m: ViewModel<E>)
    ensures
        ({
            let (m1, a) = frame_drain_step(m);
            let (mf, acts) = run(m1, a, m.deferred.len());
            &&& acts == deliveries(m.deferred) + seq![Action::<E>::Done]
            &&& mf == ViewModel {
                phase: Phase::Idle,
                deferred: Seq::<E>::empty(),
                pending_frame: false,
                ..m
            }
        }),
    decreases m.deferred.len(),
{
    let (m1, a) = frame_drain_step(m);
    if m.deferred.len() > 0 {
        lemma_frame_drain_run(m1);
        lemma_deliveries_first(m.deferred);
        assert(resume_step(m1) == frame_drain_step(m1));
        let (mf, acts) = run(m1, a, m.deferred.len());
        assert(acts =~= deliveries(m.deferred) + seq![Action::<E>::Done]);
    } else {
        assert(m.deferred =~= Seq::<E>::empty());
        assert(deliveries(m.deferred) =~= Seq::<Action<E>>::empty());
        assert(deliveries(m.deferred) + seq![Action::<E>::Done] =~= seq![Action::<E>::Done]);
    }
}

/// A frame on a free handler runs first, then the events that came in
/// meanwhile, oldest first; then the handler is free, with nothing waiting
/// and no frame pending.
pub proof fn lemma_frame_cycle<E>(m: ViewModel<E>)
    requires
        m.wf(),
        m.phase is Idle,
        m.handler_installed,
    ensures
        ({
            let (m1, a) = frame_step(m);
            let (mf, acts) = run(m1, a, m.deferred.len() + 1);
            &&& acts == seq![Action::<E>::RunFrame] + deliveries(m.deferred) + seq![Action::<E>::Done]
            &&& mf == ViewModel {
                phase: Phase::Idle,
                deferred: Seq::<E>::empty(),
                pending_frame: false,
                ..m
            }
        }),
{
    let (m1, a) = frame_step(m);
    lemma_frame_drain_run(m1);
    assert(resume_step(m1) == frame_drain_step(m1));
    let (mf, acts) = run(m1, a, m.deferred.len() + 1);
    assert(acts =~= seq![Action::<E>::RunFrame] + deliveries(m.deferred) + seq![Action::<E>::Done]);
}

/// A frame requested while the handler is busy is kept for later, and
/// nothing else changes.
pub proof fn lemma_busy_frame_is_kept<E>(m: ViewModel<E>)
    requires
        !(m.phase is Idle),
    ensures
        frame_step(m).0 == (ViewModel { pending_frame: true, ..m }),
        frame_step(m).1 is Done,
{
}

/// An event that comes while the handler is busy waits behind the events
/// that came before it.
pub proof fn lemma_busy_event_waits_last<E>(m: ViewModel<E>, event: E)
    requires
        !(m.phase is Idle) || !m.handler_installed,
    ensures
        deferrable_step(m, event).0 == (ViewModel { deferred: m.deferred.push(event), ..m }),
        deferrable_step(m, event).1 is Done,
{
}

/// The parts of a close that follow its triggered event.
pub open spec fn close_tail<E>(m: ViewModel<E>) -> Seq<Action<E>> {
    frame_if::<E>(m.pending_frame) + (if m.owns_window {
        seq![Action::CloseWindow]
    } else {
        seq![]
    }) + seq![if m.owns_app { Action::StopApp } else { Action::Done }]
}

/// Closing an open view hands the waiting events, then the closing event,
/// then a pending frame to the handler; then it closes the window and stops
/// the application that the view created. The view ends closed and free.
pub proof fn lemma_close_cycle<E>(m: ViewModel<E>, will_close: E)
    requires
        m.wf(),
        m.open,
        m.phase is Idle,
        m.handler_installed,
        !m.closing_window,
    ensures
        ({
            let (m1, a) = close_step(m, will_close);
            let (mf, acts) = run(m1, a, m.deferred.len() + 4);
            &&& acts == deliveries(m.deferred) + seq![Action::DeliverTriggered(will_close)]
                + close_tail(m)
            &&& mf == ViewModel {
                open: false,
                phase: Phase::Idle,
                deferred: Seq::<E>::empty(),
                pending_frame: false,
                owns_window: false,
                owns_app: false,
                closing_window: false,
                ..m
            }
        }),
{
    lemma_drain_run(m, will_close, true, 4);
    reveal_with_fuel(run, 5);
    let mt = triggered_state(m, true);
    let (mf, tail) = run(mt, Action::DeliverTriggered(will_close), 4);
    assert(tail =~= seq![Action::DeliverTriggered(will_close)] + close_tail(m));
    assert(deliveries(m.deferred) + tail =~= deliveries(m.deferred) + seq![
        Action::DeliverTriggered(will_close),
    ] + close_tail(m));
}

/// Closing a closed view does nothing, and no step opens a closed view.
pub proof fn lemma_closed_view_stays_closed<E>(m: ViewModel<E>, event: E)
    requires
        m.wf(),
        !m.open,
    ensures
        close_step(m, event) == (m, Action::<E>::Done),
        !deferrable_step(m, event).0.open,
        !trigger_step(m, event, false).0.open,
        !frame_step(m).0.open,
        !resume_step(m).0.open,
        !close_step(m, event).0.open,
{
}

/// The waiting events after an action: the one that a `Deliver` hands out
/// leaves the front of the queue.
pub open spec fn queue_after<E>(before: Seq<E>, a: Action<E>) -> Seq<E> {
    match a {
        Action::Deliver(e) => if before.len() > 0 && before[0] == e {
            before.drop_first()
        } else {
            before
        },
        _ => before,
    }
}

/// Waiting events leave the queue only from its front, each in the
/// `Deliver` action that hands it out, and an event that cannot be handed
/// out joins the queue at its back: no step drops, duplicates or reorders
/// them.
pub proof fn lemma_queue_discipline<E>(m: ViewModel<E>, event: E)
    ensures
        ({
            let (m2, a) = resume_step(m);
            &&& a is Deliver ==> m.deferred.len() > 0 && a == Action::Deliver(m.deferred[0])
            &&& m2.deferred == queue_after(m.deferred, a)
        }),
        ({
            let (m2, a) = trigger_step(m, event, false);
            &&& a is Deliver ==> m.deferred.len() > 0 && a == Action::Deliver(m.deferred[0])
            &&& m2.deferred == queue_after(m.deferred, a)
        }),
        ({
            let (m2, a) = deferrable_step(m, event);
            &&& a is Deliver ==> a == Action::Deliver(event) && m2.deferred == m.deferred
            &&& a is Done ==> m2.deferred == m.deferred.push(event)
        }),
        frame_step(m).0.deferred == m.deferred,
        close_step(m, event).0.deferred == queue_after(m.deferred, close_step(m, event).1),
{
}

proof fn lemma_settle_run<E>(m: ViewModel<E>, k: nat)
    ensures
        ({
            let (m1, a) = settle_step(m, false);
            let (mf, acts) = run(m1, a, m.deferred.len() + k);
            &&& acts == deliveries(m.deferred) + seq![Action::<E>::Done]
            &&& mf == ViewModel { phase: Phase::Idle, deferred: Seq::<E>::empty(), ..m }
        }),
    decreases m.deferred.len(),
{
    let (m1, a) = settle_step(m, false);
    if m.deferred.len() > 0 {
        lemma_settle_run(m1, k);
        lemma_deliveries_first(m.deferred);
        assert(resume_step(m1) == settle_step(m1, false));
        let (mf, acts) = run(m1, a, m.deferred.len() + k);
        assert(acts =~= deliveries(m.deferred) + seq![Action::<E>::Done]);
    } else {
        assert(m.deferred =~= Seq::<E>::empty());
        assert(deliveries(m.deferred) =~= Seq::<Action<E>>::empty());
        assert(deliveries(m.deferred) + seq![Action::<E>::Done] =~= seq![Action::<E>::Done]);
    }
}

/// Events queued while the handler runs a triggered event are handed out
/// before the trigger ends, oldest first, after a frame requested meanwhile;
/// the trigger ends with the handler free and nothing waiting.
pub proof fn lemma_trigger_hands_out_events_queued_meanwhile<E>(m: ViewModel<E>)
    requires
        m.phase == (Phase::<E>::Triggered { closing: false }),
    ensures
        ({
            let (m1, a) = resume_step(m);
            let (mf, acts) = run(m1, a, m.deferred.len() + 1);
            &&& acts == frame_if::<E>(m.pending_frame) + deliveries(m.deferred) + seq![Action::<E>::Done]
            &&& mf == ViewModel {
                phase: Phase::Idle,
                deferred: Seq::<E>::empty(),
                pending_frame: false,
                ..m
            }
        }),
{
    let (m1, a) = resume_step(m);
    if m.pending_frame {
        let m2 = ViewModel { pending_frame: false, ..m1 };
        assert(resume_step(m1) == settle_step(m2, false));
        lemma_settle_run(m2, 0);
        let (mf, acts) = run(m1, a, m.deferred.len() + 1);
        assert(acts =~= frame_if::<E>(m.pending_frame) + deliveries(m.deferred) + seq![Action::<E>::Done]);
    } else {
        lemma_settle_run(m, 1);
        let (mf, acts) = run(m1, a, m.deferred.len() + 1);
        assert(acts =~= frame_if::<E>(m.pending_frame) + deliveries(m.deferred) + seq![Action::<E>::Done]);
    }
}

/// Events queued while the handler runs a deferrable event are handed out
/// when it returns, oldest first; then the handler is free and nothing
/// waits.
pub proof fn lemma_deferrable_hands_out_events_queued_meanwhile<E>(m: ViewModel<E>)
    requires
        m.phase is Deferrable,
    ensures
        ({
            let (m1, a) = resume_step(m);
            let (mf, acts) = run(m1, a, m.deferred.len());
            &&& acts == deliveries(m.deferred) + seq![Action::<E>::Done]
            &&& mf == ViewModel { phase: Phase::Idle, deferred: Seq::<E>::empty(), ..m }
        }),
{
    lemma_settle_run(m, 0);
}

/// The handler is freed only once nothing waits for it: a step that ends a
/// handler call leaves the queue empty.
pub proof fn lemma_handler_freed_with_empty_queue<E>(m: ViewModel<E>)
    requires
        !(m.phase is Idle),
        resume_step(m).0.phase is Idle,
    ensures
        resume_step(m).0.deferred.len() == 0,
{
}

/// What a close does once the handler is done with the closing event and
/// the events queued meanwhile: close the window the view created, then stop
/// the application it created.
pub open spec fn closing_actions<E>(m: ViewModel<E>) -> Seq<Action<E>> {
    (if m.owns_window {
        seq![Action::CloseWindow]
    } else {
        seq![]
    }) + seq![if m.owns_app { Action::StopApp } else { Action::Done }]
}

/// A closed view: not open, owning no window or application, the handler
/// free and nothing waiting.
pub open spec fn is_closed_and_free<E>(m: ViewModel<E>) -> bool {
    &&& !m.open
    &&& !m.owns_window
    &&& !m.owns_app
    &&& !m.closing_window
    &&& m.phase is Idle
    &&& m.deferred.len() == 0
}

proof fn lemma_settle_closing_run<E>(m: ViewModel<E>, k: nat)
    requires
        m.wf(),
        m.handler_installed,
    ensures
        ({
            let (m1, a) = settle_step(m, true);
            let (mf, acts) = run(m1, a, m.deferred.len() + 1 + k);
            &&& acts == deliveries(m.deferred) + closing_actions(m)
            &&& is_closed_and_free(mf)
        }),
    decreases m.deferred.len(),
{
    let (m1, a) = settle_step(m, true);
    if m.deferred.len() > 0 {
        lemma_settle_closing_run(m1, k);
        lemma_deliveries_first(m.deferred);
        assert(resume_step(m1) == settle_step(m1, true));
        assert(closing_actions(m1) == closing_actions(m));
        let (mf, acts) = run(m1, a, m.deferred.len() + 1 + k);
        assert(acts =~= deliveries(m.deferred) + closing_actions(m));
    } else {
        reveal_with_fuel(run, 3);
        assert(m.deferred =~= Seq::<E>::empty());
        assert(deliveries(m.deferred) =~= Seq::<Action<E>>::empty());
        let (mf, acts) = run(m1, a, m.deferred.len() + 1 + k);
        assert(acts =~= deliveries(m.deferred) + closing_actions(m));
    }
}

/// Once the closing event is with the handler, a close always completes:
/// the events queued meanwhile are handed out (after a frame requested
/// meanwhile), then the window the view created is closed and the
/// application it created is stopped, and the view ends closed. Handing
/// out queued events never drops the close.
pub proof fn lemma_close_is_never_dropped<E>(m: ViewModel<E>)
    requires
        m.wf(),
        m.phase == (Phase::<E>::Triggered { closing: true }) || m.phase == (Phase::<E>::TriggeredFrame {
            closing: true,
        }) || m.phase == (Phase::<E>::Settling { closing: true }),
    ensures
        ({
            let (m1, a) = resume_step(m);
            let (mf, acts) = run(m1, a, m.deferred.len() + 2);
            &&& acts == (if m.phase is Triggered && m.pending_frame {
                seq![Action::<E>::RunFrame]
            } else {
                seq![]
            }) + deliveries(m.deferred) + closing_actions(m)
            &&& is_closed_and_free(mf)
            &&& m.owns_window ==> acts.contains(Action::<E>::CloseWindow)
            &&& acts.last() == (if m.owns_app { Action::<E>::StopApp } else { Action::<E>::Done })
        }),
{
    let (m1, a) = resume_step(m);
    let frame = if m.phase is Triggered && m.pending_frame {
        seq![Action::<E>::RunFrame]
    } else {
        seq![]
    };
    if m.phase is Triggered && m.pending_frame {
        let m2 = ViewModel { pending_frame: false, ..m1 };
        assert(resume_step(m1) == settle_step(m2, true));
        lemma_settle_closing_run(m2, 0);
        assert(closing_actions(m2) == closing_actions(m));
        let (mf, acts) = run(m1, a, m.deferred.len() + 2);
        assert(acts =~= frame + deliveries(m.deferred) + closing_actions(m));
    } else if m.phase is TriggeredFrame {
        let m2 = ViewModel { pending_frame: false, ..m };
        lemma_settle_closing_run(m2, 1);
        assert(closing_actions(m2) == closing_actions(m));
        let (mf, acts) = run(m1, a, m.deferred.len() + 2);
        assert(acts =~= frame + deliveries(m.deferred) + closing_actions(m));
    } else {
        lemma_settle_closing_run(m, 1);
        let (mf, acts) = run(m1, a, m.deferred.len() + 2);
        assert(acts =~= frame + deliveries(m.deferred) + closing_actions(m));
    }
    let (mf, acts) = run(m1, a, m.deferred.len() + 2);
    if m.owns_window {
        let i: int = (frame.len() + deliveries(m.deferred).len()) as int;
        assert(acts[i] == Action::<E>::CloseWindow);
    }
}

/// A close whose closing event still waits behind queued events completes
/// too: the queued events go first, then the closing event, then a frame
/// requested meanwhile; then the window the view created is closed and the
/// application it created is stopped, and the view ends closed.
pub proof fn lemma_waiting_close_completes<E>(m: ViewModel<E>)
    requires
        m.wf(),
        m.phase matches Phase::Draining { closing: true, .. },
    ensures
        ({
            let (m1, a) = resume_step(m);
            let (mf, acts) = run(m1, a, m.deferred.len() + 3);
            &&& acts == deliveries(m.deferred) + seq![Action::DeliverTriggered(m.phase->Draining_main)]
                + frame_if::<E>(m.pending_frame) + closing_actions(m)
            &&& is_closed_and_free(mf)
        }),
{
    let main = m.phase->Draining_main;
    lemma_drain_run(m, main, true, 3);
    let ts = triggered_state(m, true);
    lemma_close_is_never_dropped(ts);
    assert(closing_actions(ts) == closing_actions(m));
    assert(ts.deferred.len() == 0);
    assert(deliveries(ts.deferred) =~= Seq::<Action<E>>::empty());
    let (m1, a) = resume_step(ts);
    let (mt, tail) = run(ts, Action::DeliverTriggered(main), 3);
    assert(tail == seq![Action::DeliverTriggered(main)] + run(m1, a, 2).1);
    let (mf, acts) = run(resume_step(m).0, resume_step(m).1, m.deferred.len() + 3);
    assert(acts =~= deliveries(m.deferred) + seq![Action::DeliverTriggered(main)] + frame_if::<E>(
        m.pending_frame,
    ) + closing_actions(m));
}

} // verus!
