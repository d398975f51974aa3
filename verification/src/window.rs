//! The window front end: it holds the native window once the application
//! has been resumed, the callbacks the engine registers, and the event loop
//! until the application runs; and it decides what each window event leads
//! to.
//!
//! A resize of the window is not handled at once: it is remembered, and the
//! next redraw first hands the window to the resize callback and then runs
//! the redraw callback.  The handles are kept generic: the caller picks the
//! window, callback and event-loop types.

use vstd::prelude::*;

verus! {

/// The window events that the front end tells apart.
#[derive(Clone, Copy, PartialEq, Eq, Structural, Debug)]
pub enum WindowEventKind {
    CloseRequested,
    Resized,
    RedrawRequested,
    /// Any other event; it is ignored.
    Other,
}

/// What the caller has to do after an event.
#[derive(Clone, Copy, PartialEq, Eq, Structural, Debug)]
pub enum EventAction {
    /// Nothing.
    Ignore,
    /// Leave the event loop.
    Exit,
    /// Redraw: first, when `resize` holds, call the resize callback with
    /// the window; then, when `redraw` holds, call the redraw callback.
    Redraw { resize: bool, redraw: bool },
}

/// The contents of a [`Window`].
pub struct WindowModel<W, D, R, L> {
    pub window: Option<W>,
    /// A resize is pending: the resize callback has not seen it yet.
    pub resized: bool,
    pub redraw_callback: Option<D>,
    pub resize_callback: Option<R>,
    pub event_loop: Option<L>,
}

/// The effect of one window event: the contents afterwards, and the action.
pub open spec fn step<W, D, R, L>(m: WindowModel<W, D, R, L>, event: WindowEventKind) -> (
    WindowModel<W, D, R, L>,
    EventAction,
) {
    match event {
        WindowEventKind::CloseRequested => (m, EventAction::Exit),
        WindowEventKind::Resized => (WindowModel { resized: true, ..m }, EventAction::Ignore),
        WindowEventKind::RedrawRequested => {
            let resize = m.resized && m.resize_callback is Some && m.window is Some;
            (
                WindowModel { resized: m.resized && !resize, ..m },
                EventAction::Redraw { resize, redraw: m.redraw_callback is Some },
            )
        },
        WindowEventKind::Other => (m, EventAction::Ignore),
    }
}

/// The window front end.  `W` is the native window handle, `D` the redraw
/// callback, `R` the resize callback and `L` the event loop.
pub struct Window<W, D, R, L> {
    window: Option<W>,
    resized: bool,
    redraw_callback: Option<D>,
    resize_callback: Option<R>,
    event_loop: Option<L>,
}

impl<W, D, R, L> View for Window<W, D, R, L> {
    type V = WindowModel<W, D, R, L>;

    closed spec fn view(&self) -> WindowModel<W, D, R, L> {
        WindowModel {
            window: self.window,
            resized: self.resized,
            redraw_callback: self.redraw_callback,
            resize_callback: self.resize_callback,
            event_loop: self.event_loop,
        }
    }
}

impl<W, D, R, L> Window<W, D, R, L> {
    /// A front end that owns `event_loop`, with no window and no callbacks.
    pub fn new(event_loop: L) -> (w: Self)
        ensures
            w@ == (WindowModel::<W, D, R, L> {
                window: None,
                resized: false,
                redraw_callback: None,
                resize_callback: None,
                event_loop: Some(event_loop),
            }),
    {
        Window {
            window: None,
            resized: false,
            redraw_callback: None,
            resize_callback: None,
            event_loop: Some(event_loop),
        }
    }

    /// A copy of the native window handle, if the window exists.
    pub fn get_window(&self) -> (res: Option<W>) where W: Clone
        ensures
            res is Some <==> self@.window is Some,
            res is Some ==> cloned::<W>(self@.window.unwrap(), res.unwrap()),
    {
        self.window.clone()
    }

    /// Registers the callback that draws a frame, replacing any earlier one.
    pub fn set_redraw_callback(&mut self, f: D)
        ensures
            final(self)@ == (WindowModel { redraw_callback: Some(f), ..old(self)@ }),
    {
        self.redraw_callback = Some(f);
    }

    /// Registers the callback that adapts to a new window size, replacing
    /// any earlier one.
    pub fn set_resize_callback(&mut self, f: R)
        ensures
            final(self)@ == (WindowModel { resize_callback: Some(f), ..old(self)@ }),
    {
        self.resize_callback = Some(f);
    }

    /// The event loop, while the application has not been run.
    pub fn get_eventloop(&self) -> (res: Option<&L>)
        ensures
            res is Some <==> self@.event_loop is Some,
            res matches Some(l) ==> self@.event_loop == Some(*l),
    {
        self.event_loop.as_ref()
    }

    /// Hands out the event loop so that the application can be run on it;
    /// the front end no longer holds one afterwards.
    pub fn take_eventloop(&mut self) -> (l: L)
        requires
            old(self)@.event_loop is Some,
        ensures
            l == old(self)@.event_loop.unwrap(),
            final(self)@ == (WindowModel { event_loop: None, ..old(self)@ }),
    {
        let l = self.event_loop.take();
        l.unwrap()
    }

    /// The redraw callback, if one is registered.
    pub fn redraw_callback(&self) -> (res: Option<&D>)
        ensures
            res is Some <==> self@.redraw_callback is Some,
            res matches Some(f) ==> self@.redraw_callback == Some(*f),
    {
        self.redraw_callback.as_ref()
    }

    /// The resize callback, if one is registered.
    pub fn resize_callback(&self) -> (res: Option<&R>)
        ensures
            res is Some <==> self@.resize_callback is Some,
            res matches Some(f) ==> self@.resize_callback == Some(*f),
    {
        self.resize_callback.as_ref()
    }

    /// The application was resumed and `window` created: it becomes the
    /// front end's window, and a resize is pending so that the first
    /// redraw sets up for its size.
    pub fn resumed(&mut self, window: W)
        ensures
            final(self)@ == (WindowModel { window: Some(window), resized: true, ..old(self)@ }),
    {
        self.window = Some(window);
        self.resized = true;
    }

    /// The event loop is about to wait: the window to ask for a redraw,
    /// if there is one.
    pub fn about_to_wait(&self) -> (res: Option<&W>)
        ensures
            res is Some <==> self@.window is Some,
            res matches Some(w) ==> self@.window == Some(*w),
    {
        self.window.as_ref()
    }

    /// Takes in one window event and says what to do about it.
    pub fn window_event(&mut self, event: WindowEventKind) -> (action: EventAction)
        ensures
            (final(self)@, action) == step(old(self)@, event),
    {
        match event {
            WindowEventKind::CloseRequested => EventAction::Exit,
            WindowEventKind::Resized => {
                self.resized = true;
                EventAction::Ignore
            },
            WindowEventKind::RedrawRequested => {
                let resize = self.resized && self.resize_callback.is_some()
                    && self.window.is_some();
                if resize {
                    self.resized = false;
                }
                EventAction::Redraw { resize, redraw: self.redraw_callback.is_some() }
            },
            WindowEventKind::Other => EventAction::Ignore,
        }
    }
}

/// No event replaces the window, a callback or the event loop: only the
/// pending-resize flag changes.
pub proof fn lemma_events_keep_handles<W, D, R, L>(
    m: WindowModel<W, D, R, L>,
    event: WindowEventKind,
)
    ensures
        step(m, event).0.window == m.window,
        step(m, event).0.redraw_callback == m.redraw_callback,
        step(m, event).0.resize_callback == m.resize_callback,
        step(m, event).0.event_loop == m.event_loop,
{
}

/// A close request asks to exit and leaves everything as it was; an
/// unrecognised event changes nothing and asks for nothing.
pub proof fn lemma_close_and_other_are_inert<W, D, R, L>(m: WindowModel<W, D, R, L>)
    ensures
        step(m, WindowEventKind::CloseRequested) == (m, EventAction::Exit),
        step(m, WindowEventKind::Other) == (m, EventAction::Ignore),
{
}

/// Every redraw request runs the redraw callback exactly when one is
/// registered, and runs the resize callback only for a pending resize
/// while a window and a resize callback exist.
pub proof fn lemma_redraw_actions<W, D, R, L>(m: WindowModel<W, D, R, L>)
    ensures
        step(m, WindowEventKind::RedrawRequested).1 == (EventAction::Redraw {
            resize: m.resized && m.resize_callback is Some && m.window is Some,
            redraw: m.redraw_callback is Some,
        }),
        !(m.resize_callback is Some && m.window is Some) ==> step(
            m,
            WindowEventKind::RedrawRequested,
        ).0 == m,
{
}

/// Once a window and a resize callback exist, a resize reaches the resize
/// callback at the next redraw, and only once: the redraw after that does
/// not call it again.
pub proof fn lemma_resize_handled_once<W, D, R, L>(m: WindowModel<W, D, R, L>)
    requires
        m.window is Some,
        m.resize_callback is Some,
    ensures
        step(step(m, WindowEventKind::Resized).0, WindowEventKind::RedrawRequested).1
            == (EventAction::Redraw { resize: true, redraw: m.redraw_callback is Some }),
        step(
            step(step(m, WindowEventKind::Resized).0, WindowEventKind::RedrawRequested).0,
            WindowEventKind::RedrawRequested,
        ).1 == (EventAction::Redraw { resize: false, redraw: m.redraw_callback is Some }),
{
}

/// After the application is resumed with a new window, the first redraw
/// hands that window to the resize callback, when one is registered.
pub proof fn lemma_first_redraw_after_resume_resizes<W, D, R, L>(
    m: WindowModel<W, D, R, L>,
    window: W,
)
    requires
        m.resize_callback is Some,
    ensures
        step(
            WindowModel { window: Some(window), resized: true, ..m },
            WindowEventKind::RedrawRequested,
        ).1 == (EventAction::Redraw { resize: true, redraw: m.redraw_callback is Some }),
{
}

/// Several resize reports before a redraw count as one.
pub proof fn lemma_resized_idempotent<W, D, R, L>(m: WindowModel<W, D, R, L>)
    ensures
        step(step(m, WindowEventKind::Resized).0, WindowEventKind::Resized) == step(
            m,
            WindowEventKind::Resized,
        ),
{
}

/// What the front end is told: a window event, or that the application
/// was resumed with a new window.
pub enum WindowInput<W> {
    Event(WindowEventKind),
    Resumed(W),
}

/// The effect of one input: an event goes through [`step`]; a resume
/// installs the window and marks a resize pending, and asks for nothing.
pub open spec fn apply_input<W, D, R, L>(m: WindowModel<W, D, R, L>, input: WindowInput<W>) -> (
    WindowModel<W, D, R, L>,
    EventAction,
) {
    match input {
        WindowInput::Event(event) => step(m, event),
        WindowInput::Resumed(w) => (
            WindowModel { window: Some(w), resized: true, ..m },
            EventAction::Ignore,
        ),
    }
}

/// The contents after the inputs, in order.
pub open spec fn state_after_inputs<W, D, R, L>(
    m: WindowModel<W, D, R, L>,
    inputs: Seq<WindowInput<W>>,
) -> WindowModel<W, D, R, L>
    decreases inputs.len(),
{
    if inputs.len() == 0 {
        m
    } else {
        apply_input(state_after_inputs(m, inputs.drop_last()), inputs.last()).0
    }
}

/// The action asked for by input `j` of the run.
pub open spec fn action_at<W, D, R, L>(
    m: WindowModel<W, D, R, L>,
    inputs: Seq<WindowInput<W>>,
    j: int,
) -> EventAction {
    apply_input(state_after_inputs(m, inputs.take(j)), inputs[j]).1
}

/// The action runs the resize callback.
pub open spec fn calls_resize(action: EventAction) -> bool {
    action matches EventAction::Redraw { resize: true, .. }
}

/// The input reports a new size: a resize event or a resume.
pub open spec fn reports_resize<W>(input: WindowInput<W>) -> bool {
    input matches WindowInput::Event(WindowEventKind::Resized) || input is Resumed
}

/// Before input `j`, the resize is either the one pending at the start,
/// with no resize callback run since, or one reported by an input after
/// which no resize callback has run.
pub open spec fn resize_fresh_before<W, D, R, L>(
    m: WindowModel<W, D, R, L>,
    inputs: Seq<WindowInput<W>>,
    j: int,
) -> bool {
    ||| m.resized && forall|i: int| 0 <= i < j ==> !calls_resize(#[trigger] action_at(m, inputs, i))
    ||| exists|k: int|
        0 <= k < j && #[trigger] reports_resize(inputs[k]) && forall|i: int|
            k < i < j ==> !calls_resize(#[trigger] action_at(m, inputs, i))
}

/// A pending resize after the first `j` inputs is a fresh one.
proof fn lemma_pending_resize_is_fresh<W, D, R, L>(
    m: WindowModel<W, D, R, L>,
    inputs: Seq<WindowInput<W>>,
    j: int,
)
    requires
        0 <= j <= inputs.len(),
        state_after_inputs(m, inputs.take(j)).resized,
    ensures
        resize_fresh_before(m, inputs, j),
    decreases j,
{
    if j == 0 {
        assert(inputs.take(0) =~= Seq::<WindowInput<W>>::empty());
    } else {
        let prev = inputs.take(j - 1);
        assert(inputs.take(j).drop_last() =~= prev);
        assert(inputs.take(j).last() == inputs[j - 1]);
        let x = inputs[j - 1];
        if reports_resize(x) {
            assert(resize_fresh_before(m, inputs, j));
        } else {
            assert(!calls_resize(action_at(m, inputs, j - 1)));
            lemma_pending_resize_is_fresh(m, inputs, j - 1);
            if m.resized && forall|i: int|
                0 <= i < j - 1 ==> !calls_resize(#[trigger] action_at(m, inputs, i)) {
                assert forall|i: int| 0 <= i < j implies !calls_resize(
                    #[trigger] action_at(m, inputs, i),
                ) by {}
            } else {
                let k = choose|k: int|
                    0 <= k < j - 1 && #[trigger] reports_resize(inputs[k]) && forall|i: int|
                        k < i < j - 1 ==> !calls_resize(#[trigger] action_at(m, inputs, i));
                assert forall|i: int| k < i < j implies !calls_resize(
                    #[trigger] action_at(m, inputs, i),
                ) by {}
                assert(reports_resize(inputs[k]));
            }
        }
    }
}

/// Over any run of events and resumes, the resize callback runs only for
/// a resize that is new: one pending at the start with no resize callback
/// run since, or one reported (by a resize event or a resume) after the
/// last run of the resize callback.  So it runs at most once per reported
/// resize.
pub proof fn lemma_resize_call_needs_new_resize<W, D, R, L>(
    m: WindowModel<W, D, R, L>,
    inputs: Seq<WindowInput<W>>,
    j: int,
)
    requires
        0 <= j < inputs.len(),
        calls_resize(action_at(m, inputs, j)),
    ensures
        resize_fresh_before(m, inputs, j),
{
    lemma_pending_resize_is_fresh(m, inputs, j);
}

/// A run of `k` resize events.
pub open spec fn resize_events<W>(k: nat) -> Seq<WindowInput<W>> {
    Seq::new(k, |i: int| WindowInput::Event(WindowEventKind::Resized))
}

/// After a run of resize events only the pending-resize flag has changed,
/// and it is set when the run is not empty.
pub proof fn lemma_after_resize_events<W, D, R, L>(m: WindowModel<W, D, R, L>, k: nat)
    ensures
        state_after_inputs(m, resize_events::<W>(k)) == (if k == 0 {
            m
        } else {
            WindowModel { resized: true, ..m }
        }),
    decreases k,
{
    if k > 0 {
        assert(resize_events::<W>(k).drop_last() =~= resize_events::<W>((k - 1) as nat));
        lemma_after_resize_events(m, (k - 1) as nat);
    }
}

/// With a window and a resize callback in place, one or more resize events
/// followed by a redraw request run the resize callback exactly once: not
/// during the resize events, and once at the redraw.
pub proof fn lemma_resizes_then_redraw<W, D, R, L>(m: WindowModel<W, D, R, L>, k: nat)
    requires
        k >= 1,
        m.window is Some,
        m.resize_callback is Some,
    ensures
        ({
            let inputs = resize_events::<W>(k).push(
                WindowInput::Event(WindowEventKind::RedrawRequested),
            );
            &&& forall|i: int| 0 <= i < k ==> #[trigger] action_at(m, inputs, i) == EventAction::Ignore
            &&& action_at(m, inputs, k as int) == (EventAction::Redraw {
                resize: true,
                redraw: m.redraw_callback is Some,
            })
        }),
{
    let inputs = resize_events::<W>(k).push(WindowInput::Event(WindowEventKind::RedrawRequested));
    assert forall|i: int| 0 <= i < k implies #[trigger] action_at(m, inputs, i)
        == EventAction::Ignore by {
        assert(inputs.take(i) =~= resize_events::<W>(i as nat));
        lemma_after_resize_events(m, i as nat);
        assert(inputs[i] == WindowInput::<W>::Event(WindowEventKind::Resized));
    }
    assert(inputs.take(k as int) =~= resize_events::<W>(k));
    lemma_after_resize_events(m, k);
}

/// A resize event never asks for anything, whatever the front end holds;
/// only a close request makes the application leave its event loop.
pub proof fn lemma_only_close_exits<W, D, R, L>(m: WindowModel<W, D, R, L>, event: WindowEventKind)
    ensures
        step(m, WindowEventKind::Resized).1 == EventAction::Ignore,
        step(m, WindowEventKind::Resized).0.resized,
        (step(m, event).1 == EventAction::Exit) <==> (event == WindowEventKind::CloseRequested),
{
}

} // verus!
