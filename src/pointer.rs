//! Merges mouse and touch input into one pointer, following a single touch
//! at a time.

use vstd::prelude::*;

verus! {

/// The phase of a touch event.
#[derive(Clone, Copy, Debug, PartialEq, Eq, Structural)]
pub enum TouchPhase {
    Started,
    Moved,
    Ended,
    Canceled,
}

/// A touch event: which touch, and what it did.
#[derive(Clone, Copy, Debug, PartialEq, Eq, Structural)]
pub struct TouchInput {
    pub id: u64,
    pub phase: TouchPhase,
}

/// The touch being followed, and whether its drag has given its start signal.
#[derive(Clone, Copy, Debug, PartialEq, Eq, Structural)]
pub struct TouchTracker {
    pub id: Option<u64>,
    pub started: bool,
}

/// The pointer signals of one tick. Either input source can raise either
/// signal; the two are independent.
#[derive(Clone, Copy, Debug, PartialEq, Eq, Structural)]
pub struct PointerSignals {
    pub started: bool,
    pub ended: bool,
}

impl TouchTracker {
    /// No touch is followed.
    pub open spec fn idle() -> TouchTracker {
        TouchTracker { id: None, started: false }
    }

    /// A tracker that follows no touch.
    pub fn new() -> (r: TouchTracker)
        ensures
            r == TouchTracker::idle(),
    {
        TouchTracker { id: None, started: false }
    }
}

/// Whether a touch event belongs to the followed touch; with none followed,
/// every event does.
pub open spec fn accepts(id: Option<u64>, ev: TouchInput) -> bool {
    match id {
        None => true,
        Some(i) => i == ev.id,
    }
}

/// One touch event applied to the tracker and to the signals so far.
///
/// A start adopts the touch. The first move of a drag gives the start signal
/// (the surface under a touch is known only once it moves). An end or a
/// cancel of the followed touch gives the end signal and frees the tracker.
/// Events of other touches change nothing.
pub open spec fn track(t: TouchTracker, s: PointerSignals, ev: TouchInput) -> (TouchTracker, PointerSignals) {
    if !accepts(t.id, ev) {
        (t, s)
    } else {
        match ev.phase {
            TouchPhase::Started => (TouchTracker { id: Some(ev.id), started: t.started }, s),
            TouchPhase::Moved => (
                TouchTracker { id: t.id, started: true },
                PointerSignals { started: s.started || !t.started, ended: s.ended },
            ),
            _ => if t.id is Some {
                (TouchTracker::idle(), PointerSignals { started: s.started, ended: true })
            } else {
                (t, s)
            },
        }
    }
}

/// The events applied one after the other.
pub open spec fn track_all(t: TouchTracker, s: PointerSignals, evs: Seq<TouchInput>) -> (TouchTracker, PointerSignals)
    decreases evs.len(),
{
    if evs.len() == 0 {
        (t, s)
    } else {
        let prev = track_all(t, s, evs.drop_last());
        track(prev.0, prev.1, evs.last())
    }
}

/// Whether some touch event of the tick belongs to the followed touch.
pub open spec fn touch_continues(id: Option<u64>, evs: Seq<TouchInput>) -> bool {
    exists|k: int| 0 <= k < evs.len() && accepts(id, #[trigger] evs[k])
}

/// The tick's pointer signals: the mouse button's own, raised further by the
/// touch events, which also move the tracker on.
pub fn unify(
    tracker: &mut TouchTracker,
    just_pressed: bool,
    just_released: bool,
    events: &Vec<TouchInput>,
) -> (r: PointerSignals)
    ensures
        (*final(tracker), r) == track_all(
            *old(tracker),
            PointerSignals { started: just_pressed, ended: just_released },
            events@,
        ),
{
    let ghost s0 = PointerSignals { started: just_pressed, ended: just_released };
    let mut signals = PointerSignals { started: just_pressed, ended: just_released };
    let n = events.len();
    let mut i: usize = 0;
    while i < n
        invariant
            n == events@.len(),
            i <= n,
            (*tracker, signals) == track_all(*old(tracker), s0, events@.take(i as int)),
        decreases n - i,
    {
        let ev = events[i];
        let accepted = match tracker.id {
            None => true,
            Some(id) => id == ev.id,
        };
        if accepted {
            match ev.phase {
                TouchPhase::Started => {
                    tracker.id = Some(ev.id);
                },
                TouchPhase::Moved => {
                    signals.started = signals.started || !tracker.started;
                    tracker.started = true;
                },
                TouchPhase::Ended | TouchPhase::Canceled => {
                    if tracker.id.is_some() {
                        signals.ended = true;
                        tracker.started = false;
                        tracker.id = None;
                    }
                },
            }
        }
        proof {
            assert(events@.take(i + 1).drop_last() =~= events@.take(i as int));
            assert(events@.take(i + 1).last() == ev);
        }
        i = i + 1;
    }
    assert(events@.take(n as int) =~= events@);
    signals
}

/// Whether a drag goes on this tick: the button is held, or the followed
/// touch (any touch, with none followed) sent an event.
pub fn continues_drag(pressed: bool, id: Option<u64>, events: &Vec<TouchInput>) -> (r: bool)
    ensures
        r == (pressed || touch_continues(id, events@)),
{
    if pressed {
        return true;
    }
    let n = events.len();
    let mut i: usize = 0;
    while i < n
        invariant
            n == events@.len(),
            i <= n,
            forall|k: int| 0 <= k < i ==> !accepts(id, #[trigger] events@[k]),
        decreases n - i,
    {
        let accepted = match id {
            None => true,
            Some(t) => t == events[i].id,
        };
        if accepted {
            assert(accepts(id, events@[i as int]));
            return true;
        }
        i = i + 1;
    }
    false
}

/// One touch event applied to the touch that steers the ray into the scene.
/// It yields the tracker after it, and whether the event's position becomes
/// the ray's screen position.
///
/// While the camera does not know the size of its target, events of the
/// followed touch are passed over whole, phase included.
pub open spec fn steer(current: Option<u64>, ev: TouchInput, target_known: bool) -> (Option<u64>, bool) {
    if !accepts(current, ev) || !target_known {
        (current, false)
    } else {
        match ev.phase {
            TouchPhase::Started => (Some(ev.id), true),
            TouchPhase::Moved => (current, true),
            _ => (None, true),
        }
    }
}

/// The events applied in order: the tracker after them, and the index of the
/// last one whose position steers the ray.
pub open spec fn steer_all(current: Option<u64>, evs: Seq<TouchInput>, target_known: bool) -> (Option<u64>, Option<int>)
    decreases evs.len(),
{
    if evs.len() == 0 {
        (current, None)
    } else {
        let prev = steer_all(current, evs.drop_last(), target_known);
        let (next, used) = steer(prev.0, evs.last(), target_known);
        (next, if used { Some(evs.len() - 1) } else { prev.1 })
    }
}

/// Follows the touch that steers the ray, and picks the event whose position
/// the ray takes this tick, by index, if any.
pub fn steering_touch(current: &mut Option<u64>, events: &Vec<TouchInput>, target_known: bool) -> (r: Option<usize>)
    ensures
        *final(current) == steer_all(*old(current), events@, target_known).0,
        r matches Some(k) ==> k < events@.len(),
        (match r {
            Some(k) => Some(k as int),
            None => None,
        }) == steer_all(*old(current), events@, target_known).1,
{
    let mut chosen: Option<usize> = None;
    let n = events.len();
    let mut i: usize = 0;
    while i < n
        invariant
            n == events@.len(),
            i <= n,
            chosen matches Some(k) ==> k < i,
            *current == steer_all(*old(current), events@.take(i as int), target_known).0,
            (match chosen {
                Some(k) => Some(k as int),
                None => None,
            }) == steer_all(*old(current), events@.take(i as int), target_known).1,
        decreases n - i,
    {
        let ev = events[i];
        let accepted = match *current {
            None => true,
            Some(id) => id == ev.id,
        };
        if accepted && target_known {
            chosen = Some(i);
            match ev.phase {
                TouchPhase::Started => {
                    *current = Some(ev.id);
                },
                TouchPhase::Moved => {},
                TouchPhase::Ended | TouchPhase::Canceled => {
                    *current = None;
                },
            }
        }
        proof {
            assert(events@.take(i + 1).drop_last() =~= events@.take(i as int));
            assert(events@.take(i + 1).last() == ev);
        }
        i = i + 1;
    }
    assert(events@.take(n as int) =~= events@);
    chosen
}

} // verus!
