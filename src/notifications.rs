//! Transient notifications that slide in, stack vertically and expire.
use vstd::prelude::*;
use crate::animations::{Animation, step, step_value};
use crate::easing::EasingType;
use crate::graphics::{
    Color, DrawOp, Shape, push_outline, push_rounded_rect, push_text, rgb, shapes,
};

verus! {

/// Where a notification starts, off the right edge of the screen.
pub const NOTIFICATION_START_X: i32 = 640;
/// Where a notification comes to rest.
pub const NOTIFICATION_REST_X: i32 = 320;
/// Ticks that sliding in takes.
pub const NOTIFICATION_SLIDE_TICKS: u32 = 30;
/// Ticks that a notification stays before it expires.
pub const NOTIFICATION_LIFETIME: u32 = 300;
/// Vertical position of the first notification of a stack.
pub const NOTIFICATION_TOP: usize = 50;
/// Vertical distance between stacked notifications.
pub const NOTIFICATION_SPACING: usize = 90;

pub struct Notification {
    pub title: String,
    pub message: String,
    pub x: i32,
    pub y: usize,
    pub width: usize,
    pub height: usize,
    pub animation: Animation,
    pub lifetime: u32,
    pub age: u32,
}

/// The notification after one tick: it moves along its slide and ages.
pub open spec fn note_step(n: Notification) -> Notification {
    Notification {
        x: step_value(n.animation) as i32,
        animation: step(n.animation),
        age: (n.age + 1) as u32,
        ..n
    }
}

/// The notification after `k` ticks.
pub open spec fn note_steps(n: Notification, k: nat) -> Notification
    decreases k,
{
    if k == 0 {
        n
    } else {
        note_steps(note_step(n), (k - 1) as nat)
    }
}

pub open spec fn alive(n: Notification) -> bool {
    n.age <= n.lifetime
}

/// The queue after one update: every member ticks, then the expired ones go.
pub open spec fn aged(s: Seq<Notification>) -> Seq<Notification> {
    s.map_values(|n: Notification| note_step(n)).filter(|n: Notification| alive(n))
}

/// Vertical position of the notification that arrives when `k` are queued.
/// (Positions past the largest `usize` are held at it.)
pub open spec fn stack_y(k: usize) -> usize {
    if k * NOTIFICATION_SPACING + NOTIFICATION_TOP <= usize::MAX {
        (k * NOTIFICATION_SPACING + NOTIFICATION_TOP) as usize
    } else {
        usize::MAX
    }
}

impl Notification {
    pub fn new(title: String, message: String) -> (n: Self)
        ensures
            n.title == title,
            n.message == message,
            n.x == NOTIFICATION_START_X,
            n.y == NOTIFICATION_TOP,
            n.width == 300,
            n.height == 80,
            n.animation == Animation::new_spec(
                NOTIFICATION_START_X,
                NOTIFICATION_REST_X,
                NOTIFICATION_SLIDE_TICKS,
                EasingType::EaseOut,
            ),
            n.lifetime == NOTIFICATION_LIFETIME,
            n.age == 0,
    {
        Notification {
            title,
            message,
            x: NOTIFICATION_START_X,
            y: NOTIFICATION_TOP,
            width: 300,
            height: 80,
            animation: Animation::new(
                NOTIFICATION_START_X,
                NOTIFICATION_REST_X,
                NOTIFICATION_SLIDE_TICKS,
                EasingType::EaseOut,
            ),
            lifetime: NOTIFICATION_LIFETIME,
            age: 0,
        }
    }

    /// Moves one tick along the slide and ages by one.
    pub fn update(&mut self)
        requires
            old(self).age < u32::MAX,
        ensures
            *final(self) == note_step(*old(self)),
    {
        self.x = self.animation.update();
        self.age = self.age + 1;
    }

    pub fn is_expired(&self) -> (r: bool)
        ensures
            r == !alive(*self),
    {
        self.age > self.lifetime
    }

    /// Appends the panel at its current position.
    pub fn draw(&self, ops: &mut Vec<DrawOp>)
        ensures
            shapes(final(ops)@) == shapes(old(ops)@) + note_shapes(*self),
    {
        let x: usize = if self.x < 0 {
            0
        } else {
            self.x as usize
        };
        let y = self.y;
        let w = self.width;
        let h = self.height;
        push_rounded_rect(ops, x, y, w, h, Color::new(248, 248, 248));
        push_outline(ops, x, y, w, h, Color::new(200, 200, 200));
        push_text(ops, self.title.as_str(), x.saturating_add(15), y.saturating_add(15), Color::black());
        push_text(ops, self.message.as_str(), x.saturating_add(15), y.saturating_add(35), Color::dark_gray());
        push_rounded_rect(ops, x.saturating_add(w).saturating_sub(50), y.saturating_add(15), 30, 30, Color::blue());
        assert(shapes(ops@) =~= shapes(old(ops)@) + note_shapes(*self));
    }
}

/// A notification's panel: frame, border, title, message and icon, at its
/// current position (a position left of the screen is drawn at its edge).
pub open spec fn note_shapes(n: Notification) -> Seq<Shape> {
    let x: usize = if n.x < 0 {
        0
    } else {
        n.x as usize
    };
    seq![
        Shape::RoundedRect { x, y: n.y, width: n.width, height: n.height, color: rgb(248, 248, 248) },
        Shape::Outline { x, y: n.y, width: n.width, height: n.height, color: rgb(200, 200, 200) },
        Shape::Text { text: n.title@, x: x.saturating_add(15), y: n.y.saturating_add(15), color: rgb(0, 0, 0) },
        Shape::Text { text: n.message@, x: x.saturating_add(15), y: n.y.saturating_add(35), color: rgb(60, 60, 60) },
        Shape::RoundedRect {
            x: x.saturating_add(n.width).saturating_sub(50),
            y: n.y.saturating_add(15),
            width: 30,
            height: 30,
            color: rgb(0, 122, 255),
        },
    ]
}

/// The panels of `s`, oldest first.
pub open spec fn queue_shapes(s: Seq<Notification>) -> Seq<Shape>
    decreases s.len(),
{
    if s.len() == 0 {
        Seq::empty()
    } else {
        queue_shapes(s.drop_last()) + note_shapes(s.last())
    }
}

pub struct NotificationCenter {
    notifications: Vec<Notification>,
}

impl View for NotificationCenter {
    type V = Seq<Notification>;

    closed spec fn view(&self) -> Seq<Notification> {
        self.notifications@
    }
}

/// Every member has the standard lifetime and has not outlived it.
pub open spec fn queue_wf(s: Seq<Notification>) -> bool {
    forall|i: int|
        0 <= i < s.len() ==> (#[trigger] s[i]).lifetime == NOTIFICATION_LIFETIME && s[i].age
            <= s[i].lifetime
}

impl NotificationCenter {
    pub open spec fn wf(&self) -> bool {
        queue_wf(self@)
    }

    pub fn new() -> (r: Self)
        ensures
            r@ == Seq::<Notification>::empty(),
            r.wf(),
    {
        NotificationCenter { notifications: Vec::new() }
    }

    pub fn len(&self) -> (n: usize)
        ensures
            n == self@.len(),
    {
        self.notifications.len()
    }

    pub fn get(&self, index: usize) -> (n: &Notification)
        requires
            index < self@.len(),
        ensures
            *n == self@[index as int],
    {
        &self.notifications[index]
    }

    /// Queues a new notification below those already queued: its vertical
    /// position is fixed now from the current length of the queue.
    pub fn show_notification(&mut self, title: String, message: String)
        requires
            old(self).wf(),
        ensures
            final(self).wf(),
            final(self)@.len() == old(self)@.len() + 1,
            final(self)@.drop_last() == old(self)@,
            ({
                let n = final(self)@.last();
                &&& n.title == title
                &&& n.message == message
                &&& n.x == NOTIFICATION_START_X
                &&& n.y == stack_y(old(self)@.len() as usize)
                &&& n.width == 300
                &&& n.height == 80
                &&& n.animation == Animation::new_spec(
                    NOTIFICATION_START_X,
                    NOTIFICATION_REST_X,
                    NOTIFICATION_SLIDE_TICKS,
                    EasingType::EaseOut,
                )
                &&& n.lifetime == NOTIFICATION_LIFETIME
                &&& n.age == 0
            }),
    {
        let mut notification = Notification::new(title, message);
        let k = self.notifications.len();
        notification.y = if k <= (usize::MAX - NOTIFICATION_TOP) / NOTIFICATION_SPACING {
            k * NOTIFICATION_SPACING + NOTIFICATION_TOP
        } else {
            usize::MAX
        };
        self.notifications.push(notification);
        assert(self@.drop_last() =~= old(self)@);
    }

    /// Ticks every member, then drops those that have outlived their lifetime;
    /// the survivors keep their order and positions.
    pub fn update(&mut self)
        requires
            old(self).wf(),
        ensures
            final(self)@ == aged(old(self)@),
            final(self).wf(),
    {
        let ghost orig = self.notifications@;
        let mut rest: Vec<Notification> = Vec::new();
        std::mem::swap(&mut self.notifications, &mut rest);
        let n = rest.len();
        let mut i: usize = 0;
        while i < n
            invariant
                0 <= i <= n,
                n == orig.len(),
                queue_wf(orig),
                rest@ == orig.subrange(i as int, n as int),
                self.notifications@ == aged(orig.take(i as int)),
            decreases n - i,
        {
            let mut note = rest.remove(0);
            assert(note == orig[i as int]);
            note.update();
            let ghost prefix = orig.take(i as int);
            proof {
                let f = |m: Notification| note_step(m);
                let p = |m: Notification| alive(m);
                assert(orig.take(i + 1).map_values(f) =~= prefix.map_values(f).push(f(orig[i as int])));
                prefix.map_values(f).lemma_filter_push(f(orig[i as int]), p);
            }
            if !note.is_expired() {
                self.notifications.push(note);
            }
            i = i + 1;
            assert(rest@ =~= orig.subrange(i as int, n as int));
        }
        assert(orig.take(n as int) =~= orig);
        proof {
            lemma_aged_wf(orig);
        }
    }

    /// Appends every queued notification's panel, oldest first.
    pub fn draw(&self, ops: &mut Vec<DrawOp>)
        ensures
            shapes(final(ops)@) == shapes(old(ops)@) + queue_shapes(self@),
    {
        let mut i: usize = 0;
        assert(self@.take(0) =~= Seq::<Notification>::empty());
        assert(shapes(ops@) =~= shapes(old(ops)@) + queue_shapes(self@.take(0)));
        while i < self.notifications.len()
            invariant
                0 <= i <= self@.len(),
                self@ == self.notifications@,
                shapes(ops@) == shapes(old(ops)@) + queue_shapes(self@.take(i as int)),
            decreases self@.len() - i,
        {
            self.notifications[i].draw(ops);
            assert(self@.take(i + 1).drop_last() =~= self@.take(i as int));
            assert(shapes(ops@) =~= shapes(old(ops)@) + queue_shapes(self@.take(i + 1)));
            i = i + 1;
        }
        assert(self@.take(self@.len() as int) =~= self@);
    }
}

/// Updating keeps the queue well formed.
pub proof fn lemma_aged_wf(s: Seq<Notification>)
    requires
        queue_wf(s),
    ensures
        queue_wf(aged(s)),
{
    let f = |m: Notification| note_step(m);
    let p = |m: Notification| alive(m);
    let t = s.map_values(f);
    assert forall|i: int| 0 <= i < aged(s).len() implies (#[trigger] aged(s)[i]).lifetime
        == NOTIFICATION_LIFETIME && aged(s)[i].age <= aged(s)[i].lifetime by {
        t.lemma_filter_pred(p, i);
        let m = aged(s)[i];
        assert(t.filter(p).contains(m));
        t.lemma_filter_contains_rev(p, m);
        let j = choose|j: int| 0 <= j < t.len() && t[j] == m;
        assert(m == note_step(s[j]));
    }
}

/// A fresh notification stays through `lifetime` ticks and is expired after
/// one more.
pub proof fn lemma_lifetime_then_expired(n: Notification, k: nat)
    requires
        n.age == 0,
        n.lifetime < u32::MAX,
        k <= n.lifetime + 1,
    ensures
        note_steps(n, k).age == k,
        note_steps(n, k).y == n.y,
        alive(note_steps(n, k)) <==> k <= n.lifetime,
    decreases k,
{
    if k > 0 {
        lemma_steps_age(n, k);
    }
}

/// Each tick adds one to the age and leaves the position in the stack alone.
pub proof fn lemma_steps_age(n: Notification, k: nat)
    requires
        n.age + k <= u32::MAX,
    ensures
        note_steps(n, k).age == n.age + k,
        note_steps(n, k).y == n.y,
        note_steps(n, k).lifetime == n.lifetime,
    decreases k,
{
    if k > 0 {
        lemma_steps_age(note_step(n), (k - 1) as nat);
    }
}

/// When exactly one member reaches the end of its lifetime, an update removes
/// that one alone: the queue shrinks by one and the others keep their order
/// and vertical positions.
pub proof fn lemma_single_expiry(s: Seq<Notification>, i: int)
    requires
        0 <= i < s.len(),
        s[i].age == s[i].lifetime,
        s[i].lifetime < u32::MAX,
        forall|j: int| 0 <= j < s.len() && j != i ==> (#[trigger] s[j]).age < s[j].lifetime,
    ensures
        aged(s) == s.remove(i).map_values(|m: Notification| note_step(m)),
        aged(s).len() == s.len() - 1,
        forall|j: int| 0 <= j < aged(s).len() ==> (#[trigger] aged(s)[j]).y == s.remove(i)[j].y,
{
    let f = |m: Notification| note_step(m);
    let p = |m: Notification| alive(m);
    let t = s.map_values(f);
    let a = t.take(i);
    let b = t.skip(i + 1);
    let mid = seq![t[i]];
    assert(t =~= (a + mid) + b);
    assert forall|j: int| 0 <= j < a.len() implies p(#[trigger] a[j]) by {
        assert(a[j] == note_step(s[j]));
    }
    assert forall|j: int| 0 <= j < b.len() implies p(#[trigger] b[j]) by {
        assert(b[j] == note_step(s[j + i + 1]));
    }
    lemma_filter_all(a, p);
    lemma_filter_all(b, p);
    assert(!p(t[i]));
    assert(mid.filter(p) =~= Seq::<Notification>::empty()) by {
        reveal(Seq::filter);
        assert(mid.drop_last() =~= Seq::<Notification>::empty());
    }
    Seq::filter_distributes_over_add(a + mid, b, p);
    Seq::filter_distributes_over_add(a, mid, p);
    assert(t.filter(p) =~= a + b);
    assert(s.remove(i).map_values(f) =~= a + b);
}

/// An update keeps, in their order, exactly the notifications that survive
/// their tick, and each keeps its vertical position: nothing is re-stacked.
pub proof fn lemma_survivors_keep_place(s: Seq<Notification>)
    ensures
        aged(s).map_values(|n: Notification| n.y) == s.filter(|n: Notification| alive(note_step(n))).map_values(
            |n: Notification| n.y,
        ),
    decreases s.len(),
{
    let f = |m: Notification| note_step(m);
    let p = |m: Notification| alive(m);
    let q = |n: Notification| alive(note_step(n));
    let gy = |n: Notification| n.y;
    if s.len() == 0 {
        assert(aged(s) =~= Seq::<Notification>::empty()) by {
            reveal(Seq::filter);
            assert(s.map_values(f) =~= Seq::<Notification>::empty());
        }
        assert(s.filter(q) =~= Seq::<Notification>::empty()) by {
            reveal(Seq::filter);
        }
        assert(aged(s).map_values(gy) =~= s.filter(q).map_values(gy));
    } else {
        let rest = s.drop_last();
        let x = s.last();
        lemma_survivors_keep_place(rest);
        assert(s =~= rest.push(x));
        assert(s.map_values(f) =~= rest.map_values(f).push(f(x)));
        rest.map_values(f).lemma_filter_push(f(x), p);
        rest.lemma_filter_push(x, q);
        if q(x) {
            assert(aged(s) == aged(rest).push(note_step(x)));
            assert(s.filter(q) == rest.filter(q).push(x));
            assert(aged(s).map_values(gy) =~= aged(rest).map_values(gy).push(x.y));
            assert(s.filter(q).map_values(gy) =~= rest.filter(q).map_values(gy).push(x.y));
        } else {
            assert(aged(s) == aged(rest));
            assert(s.filter(q) == rest.filter(q));
        }
    }
}

/// Filtering a sequence all of whose members pass leaves it unchanged.
proof fn lemma_filter_all(s: Seq<Notification>, p: spec_fn(Notification) -> bool)
    requires
        forall|j: int| 0 <= j < s.len() ==> p(#[trigger] s[j]),
    ensures
        s.filter(p) == s,
    decreases s.len(),
{
    reveal(Seq::filter);
    if s.len() > 0 {
        lemma_filter_all(s.drop_last(), p);
        assert(s.drop_last().push(s.last()) =~= s);
    }
}

} // verus!
