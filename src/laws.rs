use vstd::prelude::*;
use crate::controller::{
    delivered, event_outcome, pixel_count, Action, ControllerState, FrameError, FrameEvent,
};
use crate::properties::WindowProperties;

verus! {

/// The final state and all the actions that a sequence of events leads to,
/// one `handle_event` after another, or the first error.
pub open spec fn run_events(s: ControllerState, events: Seq<FrameEvent>) -> Result<
    (ControllerState, Seq<Action>),
    FrameError,
>
    decreases events.len(),
{
    if events.len() == 0 {
        Ok((s, seq![]))
    } else {
        match event_outcome(s, events[0]) {
            Err(e) => Err(e),
            Ok((s1, a1)) => match run_events(s1, events.drop_first()) {
                Err(e) => Err(e),
                Ok((s2, a2)) => Ok((s2, a1 + a2)),
            },
        }
    }
}

/// How often `x` occurs in `a`.
pub open spec fn count(a: Seq<Action>, x: Action) -> nat
    decreases a.len(),
{
    if a.len() == 0 {
        0
    } else {
        (if a[0] == x {
            1nat
        } else {
            0nat
        }) + count(a.drop_first(), x)
    }
}

/// The events handed to the user callback, in order.
pub open spec fn deliveries(a: Seq<Action>) -> Seq<FrameEvent>
    decreases a.len(),
{
    if a.len() == 0 {
        seq![]
    } else {
        (match a[0] {
            Action::Deliver(e) => seq![e],
            _ => seq![],
        }) + deliveries(a.drop_first())
    }
}

proof fn lemma_count_concat(a: Seq<Action>, b: Seq<Action>, x: Action)
    ensures
        count(a + b, x) == count(a, x) + count(b, x),
    decreases a.len(),
{
    if a.len() > 0 {
        assert((a + b).drop_first() =~= a.drop_first() + b);
        lemma_count_concat(a.drop_first(), b, x);
    } else {
        assert(a + b =~= b);
    }
}

proof fn lemma_deliveries_concat(a: Seq<Action>, b: Seq<Action>)
    ensures
        deliveries(a + b) == deliveries(a) + deliveries(b),
    decreases a.len(),
{
    if a.len() > 0 {
        assert((a + b).drop_first() =~= a.drop_first() + b);
        lemma_deliveries_concat(a.drop_first(), b);
        assert(deliveries(a + b) =~= deliveries(a) + deliveries(b));
    } else {
        assert(a + b =~= b);
        assert(deliveries(a) + deliveries(b) =~= deliveries(b));
    }
}

proof fn lemma_count_absent(a: Seq<Action>, x: Action)
    requires
        forall|i: int| 0 <= i < a.len() ==> a[i] != x,
    ensures
        count(a, x) == 0,
    decreases a.len(),
{
    if a.len() > 0 {
        lemma_count_absent(a.drop_first(), x);
    }
}

/// Once the exit signal has been given, no event gives it again, and the
/// controller stays exiting.
pub proof fn lemma_exit_not_repeated(s: ControllerState, events: Seq<FrameEvent>)
    requires
        s.exiting,
        run_events(s, events) is Ok,
    ensures
        run_events(s, events)->Ok_0.0.exiting,
        count(run_events(s, events)->Ok_0.1, Action::Exit) == 0,
    decreases events.len(),
{
    if events.len() == 0 {
        reveal_with_fuel(count, 1);
    } else {
        let (s1, a1) = event_outcome(s, events[0])->Ok_0;
        let a2 = run_events(s1, events.drop_first())->Ok_0.1;
        lemma_exit_not_repeated(s1, events.drop_first());
        assert forall|i: int| 0 <= i < a1.len() implies a1[i] != Action::Exit by {
            if events[0] is CloseRequested {
                assert(a1 =~= delivered(s, events[0]));
            }
        }
        lemma_count_absent(a1, Action::Exit);
        lemma_count_concat(a1, a2, Action::Exit);
    }
}

/// Properties built from a width, a height and a title read back exactly
/// those values.
pub proof fn lemma_properties_read_back(
    p: WindowProperties,
    width: u32,
    height: u32,
    title: &'static str,
)
    requires
        p.width == width,
        p.height == height,
        p.title@ == title@,
    ensures
        p.spec_size() == (width, height),
        p.title@ == title@,
{
}

/// The first close request gives the exit signal, and it is given exactly
/// once, however many events come after it.
pub proof fn lemma_close_exits_once(s: ControllerState, rest: Seq<FrameEvent>)
    requires
        !s.exiting,
        run_events(s, seq![FrameEvent::CloseRequested] + rest) is Ok,
    ensures
        ({
            let r = run_events(s, seq![FrameEvent::CloseRequested] + rest)->Ok_0;
            &&& r.0.exiting
            &&& count(r.1, Action::Exit) == 1
        }),
{
    let events = seq![FrameEvent::CloseRequested] + rest;
    assert(events[0] == FrameEvent::CloseRequested);
    assert(events.drop_first() =~= rest);
    let t = ControllerState { exiting: true, ..s };
    let a1 = seq![Action::Exit] + delivered(s, FrameEvent::CloseRequested);
    lemma_exit_not_repeated(t, rest);
    lemma_count_concat(a1, run_events(t, rest)->Ok_0.1, Action::Exit);
    lemma_count_concat(seq![Action::Exit], delivered(s, FrameEvent::CloseRequested), Action::Exit);
    reveal_with_fuel(count, 2);
}

/// A resize of a bound controller to non-zero sides gives the surface that
/// size, so a buffer acquired next holds `width * height` pixels; a zero
/// side is refused and changes nothing.
pub proof fn lemma_resize_sets_surface(s: ControllerState, width: u32, height: u32)
    requires
        s.phase is Bound,
    ensures
        ({
            let r = event_outcome(s, FrameEvent::Resized { width, height });
            &&& width > 0 && height > 0 ==> {
                &&& r is Ok
                &&& r->Ok_0.0.surface == Some((width, height))
                &&& pixel_count(r->Ok_0.0) == Some((width * height) as nat)
            }
            &&& width == 0 || height == 0 ==> r == Err::<(ControllerState, Seq<Action>), FrameError>(
                FrameError::ZeroDimension,
            )
        }),
{
}

/// A redraw of a bound controller presents the buffer exactly once and then
/// asks for exactly one more redraw, after the callback has run.
pub proof fn lemma_redraw_presents_once(s: ControllerState)
    requires
        s.phase is Bound,
    ensures
        ({
            let r = event_outcome(s, FrameEvent::RedrawRequested);
            let a = r->Ok_0.1;
            &&& r is Ok
            &&& r->Ok_0.0 == s
            &&& count(a, Action::Present) == 1
            &&& count(a, Action::RequestRedraw) == 1
            &&& a.len() >= 2
            &&& a[a.len() - 2] == Action::Present
            &&& a[a.len() - 1] == Action::RequestRedraw
        }),
{
    let d = delivered(s, FrameEvent::RedrawRequested);
    let tail = seq![Action::Present, Action::RequestRedraw];
    lemma_count_concat(d, tail, Action::Present);
    lemma_count_concat(d, tail, Action::RequestRedraw);
    reveal_with_fuel(count, 3);
}

/// With a callback installed, default handling of a close or a resize comes
/// before the callback sees the event, and presenting comes after it.
pub proof fn lemma_callback_order(s: ControllerState, e: FrameEvent)
    requires
        s.has_callback,
        event_outcome(s, e) is Ok,
    ensures
        ({
            let a = event_outcome(s, e)->Ok_0.1;
            &&& e is CloseRequested && !s.exiting ==> a == seq![Action::Exit, Action::Deliver(e)]
            &&& e is CloseRequested && s.exiting ==> a == seq![Action::Deliver(e)]
            &&& e matches FrameEvent::Resized { width, height } ==> a == seq![
                Action::ResizeSurface { width, height },
                Action::Deliver(e),
            ]
            &&& e is RedrawRequested ==> a == seq![
                Action::Deliver(e),
                Action::Present,
                Action::RequestRedraw,
            ]
            &&& e is Other ==> a == seq![Action::Deliver(e)]
        }),
{
    let a = event_outcome(s, e)->Ok_0.1;
    match e {
        FrameEvent::CloseRequested => {
            if s.exiting {
                assert(a =~= seq![Action::Deliver(e)]);
            } else {
                assert(a =~= seq![Action::Exit, Action::Deliver(e)]);
            }
        },
        FrameEvent::Resized { width, height } => assert(a =~= seq![
            Action::ResizeSurface { width, height },
            Action::Deliver(e),
        ]),
        FrameEvent::RedrawRequested => assert(a =~= seq![
            Action::Deliver(e),
            Action::Present,
            Action::RequestRedraw,
        ]),
        FrameEvent::Other => {},
    }
}

/// With a callback installed, the callback sees every event in the order the
/// controller received it: none dropped, repeated or added.
pub proof fn lemma_callback_sees_events_in_order(s: ControllerState, events: Seq<FrameEvent>)
    requires
        s.has_callback,
        run_events(s, events) is Ok,
    ensures
        deliveries(run_events(s, events)->Ok_0.1) == events,
    decreases events.len(),
{
    if events.len() == 0 {
        reveal_with_fuel(deliveries, 1);
    } else {
        let e = events[0];
        lemma_callback_order(s, e);
        let (s1, a1) = event_outcome(s, e)->Ok_0;
        let a2 = run_events(s1, events.drop_first())->Ok_0.1;
        lemma_deliveries_concat(a1, a2);
        reveal_with_fuel(deliveries, 4);
        assert(deliveries(a1) =~= seq![e]);
        lemma_callback_sees_events_in_order(s1, events.drop_first());
        assert(seq![e] + events.drop_first() =~= events);
    }
}

} // verus!
