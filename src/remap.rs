use vstd::prelude::*;

use crate::event::{
    InputEvent, EV_KEY, KEY_CAPSLOCK, KEY_DOWN, KEY_H, KEY_J, KEY_K, KEY_L, KEY_LEFT,
    KEY_LEFTCTRL, KEY_RIGHT, KEY_UP, VALUE_PRESS, VALUE_RELEASE,
};

verus! {

/// The arrow key that Ctrl plus `code` stands for: H is Left, J is Down,
/// K is Up and L is Right; no other key has one.
pub open spec fn arrow_for(code: u16) -> Option<u16> {
    if code == KEY_H {
        Some(KEY_LEFT)
    } else if code == KEY_J {
        Some(KEY_DOWN)
    } else if code == KEY_K {
        Some(KEY_UP)
    } else if code == KEY_L {
        Some(KEY_RIGHT)
    } else {
        None
    }
}

/// The event with a Capslock key code rewritten to left Ctrl; any other
/// event as it is.
pub open spec fn substituted(e: InputEvent) -> InputEvent {
    if e.is_key_with(KEY_CAPSLOCK) {
        InputEvent { kind: e.kind, code: KEY_LEFTCTRL, value: e.value }
    } else {
        e
    }
}

/// Whether Ctrl is logically held after `e`, given whether it was before:
/// a left Ctrl key event (Capslock counts as one) sets it to `value != 0`,
/// every other event leaves it.
pub open spec fn held_after(held: bool, e: InputEvent) -> bool {
    if substituted(e).is_key_with(KEY_LEFTCTRL) {
        e.value != 0
    } else {
        held
    }
}

/// Whether `e` is a press or autorepeat of H, J, K or L while Ctrl is held.
pub open spec fn is_combo(held: bool, e: InputEvent) -> bool {
    &&& held
    &&& e.kind == EV_KEY
    &&& e.value >= 1
    &&& arrow_for(e.code) is Some
}

/// Release Ctrl, press and release the arrow, press Ctrl again.
pub open spec fn combo_events(arrow: u16) -> Seq<InputEvent> {
    seq![
        InputEvent { kind: EV_KEY, code: KEY_LEFTCTRL, value: 0 },
        InputEvent { kind: EV_KEY, code: arrow, value: 1 },
        InputEvent { kind: EV_KEY, code: arrow, value: 0 },
        InputEvent { kind: EV_KEY, code: KEY_LEFTCTRL, value: 1 },
    ]
}

/// The events emitted for `e` when Ctrl was held (`held`) or not before it.
pub open spec fn emitted(held: bool, e: InputEvent) -> Seq<InputEvent> {
    if is_combo(held, e) {
        combo_events(arrow_for(e.code)->0)
    } else {
        seq![substituted(e)]
    }
}

/// Whether Ctrl is logically held after the whole stream `s`.
pub open spec fn held_after_all(held: bool, s: Seq<InputEvent>) -> bool
    decreases s.len(),
{
    if s.len() == 0 {
        held
    } else {
        held_after(held_after_all(held, s.drop_last()), s.last())
    }
}

/// The events emitted for the stream `s`, in order.
pub open spec fn emitted_all(held: bool, s: Seq<InputEvent>) -> Seq<InputEvent>
    decreases s.len(),
{
    if s.len() == 0 {
        Seq::empty()
    } else {
        emitted_all(held, s.drop_last()) + emitted(held_after_all(held, s.drop_last()), s.last())
    }
}

/// Whether `e` is emitted as it is: neither a Capslock event nor a combo.
pub open spec fn passes_through(held: bool, e: InputEvent) -> bool {
    !e.is_key_with(KEY_CAPSLOCK) && !is_combo(held, e)
}

/// The arrow key that Ctrl plus `code` stands for, if any.
pub fn arrow_target(code: u16) -> (r: Option<u16>)
    ensures
        r == arrow_for(code),
{
    if code == KEY_H {
        Some(KEY_LEFT)
    } else if code == KEY_J {
        Some(KEY_DOWN)
    } else if code == KEY_K {
        Some(KEY_UP)
    } else if code == KEY_L {
        Some(KEY_RIGHT)
    } else {
        None
    }
}

/// Rewrites a Capslock key event to a left Ctrl key event.
pub fn substitute_capslock(e: InputEvent) -> (r: InputEvent)
    ensures
        r == substituted(e),
{
    if e.is_key_event_with(KEY_CAPSLOCK) {
        InputEvent { kind: e.kind, code: KEY_LEFTCTRL, value: e.value }
    } else {
        e
    }
}

/// The translation state of one device: whether Ctrl is logically held.
pub struct Remapper {
    ctrl_held: bool,
}

impl View for Remapper {
    type V = bool;

    closed spec fn view(&self) -> bool {
        self.ctrl_held
    }
}

impl Remapper {
    /// A remapper with Ctrl released.
    pub fn new() -> (r: Remapper)
        ensures
            !r@,
    {
        Remapper { ctrl_held: false }
    }

    pub fn is_ctrl_held(&self) -> (r: bool)
        ensures
            r == self@,
    {
        self.ctrl_held
    }

    /// Translates one input event into the events to emit, in order, and
    /// updates the Ctrl state.
    pub fn process(&mut self, input: InputEvent) -> (out: Vec<InputEvent>)
        ensures
            out@ == emitted(old(self)@, input),
            final(self)@ == held_after(old(self)@, input),
    {
        let ev = substitute_capslock(input);
        if ev.is_key_event_with(KEY_LEFTCTRL) {
            self.ctrl_held = ev.value != 0;
        }
        let mut out: Vec<InputEvent> = Vec::new();
        if ev.kind == EV_KEY && ev.value >= 1 && self.ctrl_held {
            if let Some(arrow) = arrow_target(ev.code) {
                out.push(InputEvent::key(KEY_LEFTCTRL, VALUE_RELEASE));
                out.push(InputEvent::key(arrow, VALUE_PRESS));
                out.push(InputEvent::key(arrow, VALUE_RELEASE));
                out.push(InputEvent::key(KEY_LEFTCTRL, VALUE_PRESS));
                assert(out@ =~= combo_events(arrow));
                return out;
            }
        }
        out.push(ev);
        assert(out@ =~= seq![ev]);
        out
    }

    /// Translates a stream of input events, one after another, and returns
    /// everything emitted, in order.
    pub fn process_all(&mut self, events: &Vec<InputEvent>) -> (out: Vec<InputEvent>)
        ensures
            out@ == emitted_all(old(self)@, events@),
            final(self)@ == held_after_all(old(self)@, events@),
    {
        let mut out: Vec<InputEvent> = Vec::new();
        let mut i: usize = 0;
        while i < events.len()
            invariant
                i <= events@.len(),
                out@ == emitted_all(old(self)@, events@.take(i as int)),
                self@ == held_after_all(old(self)@, events@.take(i as int)),
            decreases events@.len() - i,
        {
            let ghost before = events@.take(i as int);
            let mut step = self.process(events[i]);
            out.append(&mut step);
            proof {
                let next = events@.take(i + 1);
                assert(next.drop_last() =~= before);
            }
            i = i + 1;
        }
        assert(events@.take(i as int) =~= events@);
        out
    }
}

/// A Capslock key event is emitted as a left Ctrl key event with the same
/// value, and never as Capslock; it sets the Ctrl state to `value != 0`.
pub proof fn lemma_capslock_is_ctrl(held: bool, e: InputEvent)
    requires
        e.is_key_with(KEY_CAPSLOCK),
    ensures
        emitted(held, e) == seq![InputEvent { kind: EV_KEY, code: KEY_LEFTCTRL, value: e.value }],
        forall|i: int| 0 <= i < emitted(held, e).len() ==> #[trigger] emitted(held, e)[i].code != KEY_CAPSLOCK,
        held_after(held, e) == (e.value != 0),
{
}

/// After an event, Ctrl is held exactly when the event, with Capslock read as
/// left Ctrl, is a left Ctrl key event with a nonzero value; any other event
/// leaves the state as it was.
pub proof fn lemma_ctrl_state(held: bool, e: InputEvent)
    ensures
        substituted(e).is_key_with(KEY_LEFTCTRL) ==> held_after(held, e) == (e.value != 0),
        !substituted(e).is_key_with(KEY_LEFTCTRL) ==> held_after(held, e) == held,
{
}

/// While Ctrl is held, a press or autorepeat of H, J, K or L is emitted as
/// exactly four events: Ctrl released, the arrow pressed, the arrow released,
/// Ctrl pressed; the key event itself is not among them, and Ctrl stays held.
pub proof fn lemma_combo_emits_arrow(held: bool, e: InputEvent)
    requires
        held,
        e.kind == EV_KEY,
        e.value >= 1,
        e.code == KEY_H || e.code == KEY_J || e.code == KEY_K || e.code == KEY_L,
    ensures
        arrow_for(e.code) is Some,
        emitted(held, e) == seq![
            InputEvent { kind: EV_KEY, code: KEY_LEFTCTRL, value: 0 },
            InputEvent { kind: EV_KEY, code: arrow_for(e.code)->0, value: 1 },
            InputEvent { kind: EV_KEY, code: arrow_for(e.code)->0, value: 0 },
            InputEvent { kind: EV_KEY, code: KEY_LEFTCTRL, value: 1 },
        ],
        !emitted(held, e).contains(e),
        held_after(held, e),
{
    let out = emitted(held, e);
    assert(out.len() == 4);
    assert forall|i: int| 0 <= i < out.len() implies out[i] != e by {
        assert(out[i].code == KEY_LEFTCTRL || out[i].code == arrow_for(e.code)->0);
    }
}

/// An event that is neither a Capslock event nor a combo is emitted once and
/// unchanged.
pub proof fn lemma_passthrough(held: bool, e: InputEvent)
    requires
        passes_through(held, e),
    ensures
        emitted(held, e) == seq![e],
{
}

/// A release of H, J, K or L is emitted unchanged, whether or not Ctrl is
/// held, and leaves the Ctrl state as it was.
pub proof fn lemma_release_passes_through(held: bool, e: InputEvent)
    requires
        e.kind == EV_KEY,
        e.value == 0,
        e.code == KEY_H || e.code == KEY_J || e.code == KEY_K || e.code == KEY_L,
    ensures
        emitted(held, e) == seq![e],
        held_after(held, e) == held,
{
}

/// What a stream emits is what its first part emits followed by what the rest
/// emits from the Ctrl state that the first part left.
pub proof fn lemma_stream_split(held: bool, s1: Seq<InputEvent>, s2: Seq<InputEvent>)
    ensures
        emitted_all(held, s1 + s2) == emitted_all(held, s1) + emitted_all(held_after_all(held, s1), s2),
        held_after_all(held, s1 + s2) == held_after_all(held_after_all(held, s1), s2),
    decreases s2.len(),
{
    let h1 = held_after_all(held, s1);
    if s2.len() == 0 {
        assert(s1 + s2 =~= s1);
        assert(emitted_all(held, s1) + emitted_all(h1, s2) =~= emitted_all(held, s1));
    } else {
        let s = s1 + s2;
        assert(s.drop_last() =~= s1 + s2.drop_last());
        assert(s.last() == s2.last());
        lemma_stream_split(held, s1, s2.drop_last());
        assert(emitted_all(held, s) =~= emitted_all(held, s1) + emitted_all(h1, s2));
    }
}

/// A stream in which every event passes through is emitted as it is: each
/// event exactly once, in the order received.
pub proof fn lemma_stream_passthrough(held: bool, s: Seq<InputEvent>)
    requires
        forall|i: int| #![trigger s[i]] 0 <= i < s.len() ==> passes_through(held_after_all(held, s.take(i)), s[i]),
    ensures
        emitted_all(held, s) == s,
    decreases s.len(),
{
    if s.len() > 0 {
        let p = s.drop_last();
        assert forall|i: int| #![trigger p[i]] 0 <= i < p.len() implies passes_through(held_after_all(held, p.take(i)), p[i]) by {
            assert(p.take(i) =~= s.take(i));
            assert(p[i] == s[i]);
        }
        lemma_stream_passthrough(held, p);
        assert(s.take(p.len() as int) =~= p);
        assert(passes_through(held_after_all(held, s.take(p.len() as int)), s[p.len() as int]));
        assert(emitted_all(held, s) =~= s);
    }
}

} // verus!
