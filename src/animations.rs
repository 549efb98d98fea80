//! Timed scalar interpolation, alone and bundled for window transitions.
use vstd::prelude::*;
use crate::easing::{EasingType, UNIT, ease, ease_spec, interpolate, interpolate_value, lemma_ease_in_range};

verus! {

/// A value moving from `start_value` to `end_value` over `duration` ticks.
#[derive(Clone, Copy, Debug)]
pub struct Animation {
    pub start_value: i32,
    pub end_value: i32,
    pub duration: u32,
    pub current_time: u32,
    pub easing: EasingType,
    pub is_complete: bool,
}

/// The tick that the next advance reaches would end the animation.
pub open spec fn finishes_next(a: Animation) -> bool {
    a.duration == 0 || a.current_time + 1 >= a.duration
}

/// The state after one advance.
pub open spec fn step(a: Animation) -> Animation {
    if a.is_complete {
        a
    } else if finishes_next(a) {
        Animation { current_time: a.duration, is_complete: true, ..a }
    } else {
        Animation { current_time: (a.current_time + 1) as u32, ..a }
    }
}

/// The value that one advance returns.
pub open spec fn step_value(a: Animation) -> int {
    if a.is_complete || finishes_next(a) {
        a.end_value as int
    } else {
        let t = (a.current_time + 1) * (UNIT as int) / (a.duration as int);
        interpolate(a.start_value as int, a.end_value as int, ease_spec(a.easing, t))
    }
}

/// The state after `n` advances.
pub open spec fn advanced(a: Animation, n: nat) -> Animation
    decreases n,
{
    if n == 0 {
        a
    } else {
        advanced(step(a), (n - 1) as nat)
    }
}

/// Once enough ticks have passed to cover the duration, every advance returns
/// exactly the end value and the animation reports completion.
pub proof fn lemma_settles_at_end(a: Animation, n: nat)
    requires
        n >= 1,
        n >= a.duration - a.current_time,
    ensures
        step_value(advanced(a, (n - 1) as nat)) == a.end_value,
        advanced(a, n).is_complete,
        advanced(a, n).end_value == a.end_value,
    decreases n,
{
    if a.is_complete {
        lemma_complete_stays(a, n);
        lemma_complete_stays(a, (n - 1) as nat);
    } else if finishes_next(a) {
        lemma_complete_stays(step(a), (n - 1) as nat);
        if n >= 2 {
            lemma_complete_stays(step(a), (n - 2) as nat);
        }
    } else {
        lemma_settles_at_end(step(a), (n - 1) as nat);
    }
}

/// A completed animation no longer changes.
pub proof fn lemma_complete_stays(a: Animation, n: nat)
    requires
        a.is_complete,
    ensures
        advanced(a, n) == a,
    decreases n,
{
    if n > 0 {
        lemma_complete_stays(step(a), (n - 1) as nat);
    }
}

/// An animation of zero duration completes on its first advance, returning its
/// end value.
pub proof fn lemma_zero_duration_immediate(a: Animation)
    requires
        a.duration == 0,
    ensures
        step_value(a) == a.end_value,
        step(a).is_complete,
{
}

impl Animation {
    /// The elapsed ticks never pass the duration, and a completed animation has
    /// used all of them.
    pub open spec fn wf(&self) -> bool {
        &&& self.current_time <= self.duration
        &&& self.is_complete ==> self.current_time == self.duration
    }

    pub fn new(start: i32, end: i32, duration: u32, easing: EasingType) -> (r: Self)
        ensures
            r.wf(),
            r == (Animation {
                start_value: start,
                end_value: end,
                duration,
                current_time: 0,
                easing,
                is_complete: false,
            }),
    {
        Animation {
            start_value: start,
            end_value: end,
            duration,
            current_time: 0,
            easing,
            is_complete: false,
        }
    }

    /// Advances by one tick and returns the current value.
    pub fn update(&mut self) -> (v: i32)
        ensures
            *final(self) == step(*old(self)),
            v == step_value(*old(self)),
            old(self).wf() ==> final(self).wf(),
    {
        if self.is_complete {
            return self.end_value;
        }
        if self.duration == 0 || self.current_time >= self.duration - 1 {
            self.current_time = self.duration;
            self.is_complete = true;
            return self.end_value;
        }
        self.current_time = self.current_time + 1;
        let now: u64 = self.current_time as u64;
        let d: u64 = self.duration as u64;
        assert((now as int) * 1000 < (d as int) * 1000) by (nonlinear_arith)
            requires now < d;
        assert((now as int) * 1000 / (d as int) < 1000) by (nonlinear_arith)
            requires (now as int) * 1000 < (d as int) * 1000, d > 0;
        let t: u32 = (now * (UNIT as u64) / d) as u32;
        proof {
            lemma_ease_in_range(self.easing, t as int);
        }
        let p = ease(self.easing, t);
        interpolate_value(self.start_value, self.end_value, p)
    }
}

/// Position, size and opacity of a window moving as one transition. Opacity is
/// in thousandths.
#[derive(Clone, Copy, Debug)]
pub struct WindowAnimation {
    pub x: Animation,
    pub y: Animation,
    pub width: Animation,
    pub height: Animation,
    pub alpha: Animation,
}

/// Opacity of a fully opaque window, in thousandths.
pub const OPAQUE: i32 = 1000;
/// Side of a window's icon once it rests in the dock.
pub const DOCK_ICON_SIZE: i32 = 64;
/// Ticks that minimizing into the dock takes.
pub const MINIMIZE_TICKS: u32 = 30;
/// Ticks that opening a window takes.
pub const OPEN_TICKS: u32 = 20;

impl WindowAnimation {
    pub open spec fn complete_spec(&self) -> bool {
        &&& self.x.is_complete
        &&& self.y.is_complete
        &&& self.width.is_complete
        &&& self.height.is_complete
        &&& self.alpha.is_complete
    }

    /// Shrinks a window from its rectangle to an icon at the dock position,
    /// fading it slightly.
    pub fn minimize_to_dock(
        start_x: i32,
        start_y: i32,
        start_w: i32,
        start_h: i32,
        dock_x: i32,
        dock_y: i32,
    ) -> (r: Self)
        ensures
            r.x == Animation::new_spec(start_x, dock_x, MINIMIZE_TICKS, EasingType::EaseInOut),
            r.y == Animation::new_spec(start_y, dock_y, MINIMIZE_TICKS, EasingType::EaseInOut),
            r.width == Animation::new_spec(
                start_w,
                DOCK_ICON_SIZE,
                MINIMIZE_TICKS,
                EasingType::EaseInOut,
            ),
            r.height == Animation::new_spec(
                start_h,
                DOCK_ICON_SIZE,
                MINIMIZE_TICKS,
                EasingType::EaseInOut,
            ),
            r.alpha == Animation::new_spec(OPAQUE, 800, MINIMIZE_TICKS, EasingType::EaseOut),
    {
        WindowAnimation {
            x: Animation::new(start_x, dock_x, MINIMIZE_TICKS, EasingType::EaseInOut),
            y: Animation::new(start_y, dock_y, MINIMIZE_TICKS, EasingType::EaseInOut),
            width: Animation::new(start_w, DOCK_ICON_SIZE, MINIMIZE_TICKS, EasingType::EaseInOut),
            height: Animation::new(start_h, DOCK_ICON_SIZE, MINIMIZE_TICKS, EasingType::EaseInOut),
            alpha: Animation::new(OPAQUE, 800, MINIMIZE_TICKS, EasingType::EaseOut),
        }
    }

    /// Grows a window from nothing to its full size in place, fading it in.
    pub fn spring_open(start_x: i32, start_y: i32, end_w: i32, end_h: i32) -> (r: Self)
        ensures
            r.x == Animation::new_spec(start_x, start_x, OPEN_TICKS, EasingType::EaseOut),
            r.y == Animation::new_spec(start_y, start_y, OPEN_TICKS, EasingType::EaseOut),
            r.width == Animation::new_spec(0, end_w, OPEN_TICKS, EasingType::EaseOut),
            r.height == Animation::new_spec(0, end_h, OPEN_TICKS, EasingType::EaseOut),
            r.alpha == Animation::new_spec(0, OPAQUE, OPEN_TICKS, EasingType::EaseOut),
    {
        WindowAnimation {
            x: Animation::new(start_x, start_x, OPEN_TICKS, EasingType::EaseOut),
            y: Animation::new(start_y, start_y, OPEN_TICKS, EasingType::EaseOut),
            width: Animation::new(0, end_w, OPEN_TICKS, EasingType::EaseOut),
            height: Animation::new(0, end_h, OPEN_TICKS, EasingType::EaseOut),
            alpha: Animation::new(0, OPAQUE, OPEN_TICKS, EasingType::EaseOut),
        }
    }

    /// Advances every member by one tick; returns (x, y, width, height, alpha).
    pub fn update(&mut self) -> (r: (i32, i32, i32, i32, i32))
        ensures
            final(self).x == step(old(self).x),
            final(self).y == step(old(self).y),
            final(self).width == step(old(self).width),
            final(self).height == step(old(self).height),
            final(self).alpha == step(old(self).alpha),
            r.0 == step_value(old(self).x),
            r.1 == step_value(old(self).y),
            r.2 == step_value(old(self).width),
            r.3 == step_value(old(self).height),
            r.4 == step_value(old(self).alpha),
    {
        let x = self.x.update();
        let y = self.y.update();
        let w = self.width.update();
        let h = self.height.update();
        let a = self.alpha.update();
        (x, y, w, h, a)
    }

    /// The transition is done once every member is.
    pub fn is_complete(&self) -> (r: bool)
        ensures
            r == self.complete_spec(),
    {
        self.x.is_complete && self.y.is_complete && self.width.is_complete
            && self.height.is_complete && self.alpha.is_complete
    }
}

impl Animation {
    pub open spec fn new_spec(start: i32, end: i32, duration: u32, easing: EasingType) -> Animation {
        Animation {
            start_value: start,
            end_value: end,
            duration,
            current_time: 0,
            easing,
            is_complete: false,
        }
    }
}

} // verus!
