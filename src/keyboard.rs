//! Keyboard state: the keys held down and the modifiers.
use vstd::prelude::*;

verus! {

#[derive(Clone, Copy, Debug, PartialEq, Eq, Structural)]
pub enum Key {
    A, B, C, D, E, F, G, H, I, J, K, L, M,
    N, O, P, Q, R, S, T, U, V, W, X, Y, Z,
    Digit0, Digit1, Digit2, Digit3, Digit4,
    Digit5, Digit6, Digit7, Digit8, Digit9,
    Space, Enter, Backspace, Tab, Escape,
    LeftShift, RightShift, LeftCtrl, RightCtrl,
    LeftAlt, RightAlt, LeftCmd, RightCmd,
    ArrowUp, ArrowDown, ArrowLeft, ArrowRight,
    F1, F2, F3, F4, F5, F6, F7, F8, F9, F10, F11, F12,
}

#[derive(Clone, Copy, Debug, PartialEq, Eq, Structural)]
pub struct KeyEvent {
    pub key: Key,
    pub pressed: bool,
    pub shift: bool,
    pub ctrl: bool,
    pub alt: bool,
    pub cmd: bool,
}

pub open spec fn is_shift(k: Key) -> bool {
    k == Key::LeftShift || k == Key::RightShift
}

pub open spec fn is_ctrl(k: Key) -> bool {
    k == Key::LeftCtrl || k == Key::RightCtrl
}

pub open spec fn is_alt(k: Key) -> bool {
    k == Key::LeftAlt || k == Key::RightAlt
}

pub open spec fn is_cmd(k: Key) -> bool {
    k == Key::LeftCmd || k == Key::RightCmd
}

/// The keys held down, in the order they went down, and the modifier flags.
pub struct KeyboardView {
    pub pressed: Seq<Key>,
    pub shift: bool,
    pub ctrl: bool,
    pub alt: bool,
    pub cmd: bool,
}

pub struct Keyboard {
    pressed_keys: Vec<Key>,
    shift_pressed: bool,
    ctrl_pressed: bool,
    alt_pressed: bool,
    cmd_pressed: bool,
}

impl View for Keyboard {
    type V = KeyboardView;

    closed spec fn view(&self) -> KeyboardView {
        KeyboardView {
            pressed: self.pressed_keys@,
            shift: self.shift_pressed,
            ctrl: self.ctrl_pressed,
            alt: self.alt_pressed,
            cmd: self.cmd_pressed,
        }
    }
}

impl Keyboard {
    /// No key is listed twice.
    pub open spec fn wf(&self) -> bool {
        self@.pressed.no_duplicates()
    }

    pub fn new() -> (k: Self)
        ensures
            k@.pressed == Seq::<Key>::empty(),
            !k@.shift && !k@.ctrl && !k@.alt && !k@.cmd,
            k.wf(),
    {
        Keyboard {
            pressed_keys: Vec::new(),
            shift_pressed: false,
            ctrl_pressed: false,
            alt_pressed: false,
            cmd_pressed: false,
        }
    }

    fn holds(&self, key: Key) -> (r: bool)
        ensures
            r == self@.pressed.contains(key),
    {
        let mut i: usize = 0;
        while i < self.pressed_keys.len()
            invariant
                0 <= i <= self.pressed_keys@.len(),
                forall|j: int| 0 <= j < i ==> self.pressed_keys@[j] != key,
            decreases self.pressed_keys@.len() - i,
        {
            if self.pressed_keys[i] == key {
                return true;
            }
            i = i + 1;
        }
        false
    }

    /// Records `key` as held and returns the event with the modifiers now in
    /// force.
    pub fn key_down(&mut self, key: Key) -> (e: KeyEvent)
        requires
            old(self).wf(),
        ensures
            final(self)@.pressed == if old(self)@.pressed.contains(key) {
                old(self)@.pressed
            } else {
                old(self)@.pressed.push(key)
            },
            final(self)@.shift == (old(self)@.shift || is_shift(key)),
            final(self)@.ctrl == (old(self)@.ctrl || is_ctrl(key)),
            final(self)@.alt == (old(self)@.alt || is_alt(key)),
            final(self)@.cmd == (old(self)@.cmd || is_cmd(key)),
            e == (KeyEvent {
                key,
                pressed: true,
                shift: final(self)@.shift,
                ctrl: final(self)@.ctrl,
                alt: final(self)@.alt,
                cmd: final(self)@.cmd,
            }),
            final(self).wf(),
    {
        if !self.holds(key) {
            self.pressed_keys.push(key);
        }
        match key {
            Key::LeftShift | Key::RightShift => self.shift_pressed = true,
            Key::LeftCtrl | Key::RightCtrl => self.ctrl_pressed = true,
            Key::LeftAlt | Key::RightAlt => self.alt_pressed = true,
            Key::LeftCmd | Key::RightCmd => self.cmd_pressed = true,
            _ => {},
        }
        KeyEvent {
            key,
            pressed: true,
            shift: self.shift_pressed,
            ctrl: self.ctrl_pressed,
            alt: self.alt_pressed,
            cmd: self.cmd_pressed,
        }
    }

    /// Records `key` as released and returns the event with the modifiers now
    /// in force.
    pub fn key_up(&mut self, key: Key) -> (e: KeyEvent)
        requires
            old(self).wf(),
        ensures
            final(self)@.pressed == old(self)@.pressed.filter(|k: Key| k != key),
            final(self)@.shift == (old(self)@.shift && !is_shift(key)),
            final(self)@.ctrl == (old(self)@.ctrl && !is_ctrl(key)),
            final(self)@.alt == (old(self)@.alt && !is_alt(key)),
            final(self)@.cmd == (old(self)@.cmd && !is_cmd(key)),
            e == (KeyEvent {
                key,
                pressed: false,
                shift: final(self)@.shift,
                ctrl: final(self)@.ctrl,
                alt: final(self)@.alt,
                cmd: final(self)@.cmd,
            }),
            final(self).wf(),
    {
        let ghost orig = self.pressed_keys@;
        let mut kept: Vec<Key> = Vec::new();
        let mut i: usize = 0;
        while i < self.pressed_keys.len()
            invariant
                self.pressed_keys@ == orig,
                0 <= i <= orig.len(),
                kept@ == orig.take(i as int).filter(|k: Key| k != key),
            decreases orig.len() - i,
        {
            let k = self.pressed_keys[i];
            proof {
                assert(orig.take(i + 1) =~= orig.take(i as int).push(k));
                orig.take(i as int).lemma_filter_push(k, |k: Key| k != key);
            }
            if k != key {
                kept.push(k);
            }
            i = i + 1;
        }
        assert(orig.take(orig.len() as int) =~= orig);
        self.pressed_keys = kept;
        proof {
            lemma_filter_keeps_distinct(orig, |k: Key| k != key);
        }
        match key {
            Key::LeftShift | Key::RightShift => self.shift_pressed = false,
            Key::LeftCtrl | Key::RightCtrl => self.ctrl_pressed = false,
            Key::LeftAlt | Key::RightAlt => self.alt_pressed = false,
            Key::LeftCmd | Key::RightCmd => self.cmd_pressed = false,
            _ => {},
        }
        KeyEvent {
            key,
            pressed: false,
            shift: self.shift_pressed,
            ctrl: self.ctrl_pressed,
            alt: self.alt_pressed,
            cmd: self.cmd_pressed,
        }
    }

    pub fn is_key_pressed(&self, key: Key) -> (r: bool)
        ensures
            r == self@.pressed.contains(key),
    {
        self.holds(key)
    }
}

/// Filtering a sequence without duplicates leaves none.
proof fn lemma_filter_keeps_distinct(s: Seq<Key>, p: spec_fn(Key) -> bool)
    requires
        s.no_duplicates(),
    ensures
        s.filter(p).no_duplicates(),
    decreases s.len(),
{
    reveal(Seq::filter);
    if s.len() > 0 {
        let rest = s.drop_last();
        assert(rest.no_duplicates());
        lemma_filter_keeps_distinct(rest, p);
        if p(s.last()) {
            let f = rest.filter(p);
            assert(!f.contains(s.last())) by {
                if f.contains(s.last()) {
                    rest.lemma_filter_contains_rev(p, s.last());
                }
            }
            assert forall|i: int, j: int|
                0 <= i < f.push(s.last()).len() && 0 <= j < f.push(s.last()).len() && i != j
                implies f.push(s.last())[i] != f.push(s.last())[j] by {
                if i < f.len() && j == f.len() {
                    assert(f.contains(f[i]));
                } else if j < f.len() && i == f.len() {
                    assert(f.contains(f[j]));
                }
            }
        }
    }
}

} // verus!
