//! The workspace switcher: a row of desktops and a cursor that stops at both
//! ends.
use vstd::prelude::*;
use crate::graphics::{
    Color, DrawOp, Shape, clamp_usize, push_outline, push_rect, push_text, rgb, shapes,
};

verus! {

/// Entry progress of a fully shown switcher, in hundredths.
pub const PROGRESS_FULL: u32 = 100;
/// Entry progress gained on each update, in hundredths.
pub const PROGRESS_STEP: u32 = 5;

pub struct DesktopSpace {
    pub id: usize,
    pub windows: Vec<usize>,
    pub wallpaper_color: Color,
}

pub struct MissionControl {
    pub is_visible: bool,
    /// Entry progress in hundredths, from 0 to [`PROGRESS_FULL`].
    pub animation_progress: u32,
    pub desktop_spaces: Vec<DesktopSpace>,
    pub current_space: usize,
}

/// The cursor after a switch in `direction` among `len` desktops: one step
/// forward for a positive direction and back for a negative one, never past
/// either end.
pub open spec fn switched(current: usize, len: nat, direction: i32) -> usize {
    if direction > 0 && current + 1 < len {
        (current + 1) as usize
    } else if direction < 0 && current > 0 {
        (current - 1) as usize
    } else {
        current
    }
}

/// The cursor after `n` switches in the same direction.
pub open spec fn switched_n(current: usize, len: nat, direction: i32, n: nat) -> usize
    decreases n,
{
    if n == 0 {
        current
    } else {
        switched_n(switched(current, len, direction), len, direction, (n - 1) as nat)
    }
}

/// Switching backward at the first desktop stays there; switching forward
/// again and again walks up to the last desktop and stops.
pub proof fn lemma_switch_clamps(current: usize, len: nat, back: i32, forward: i32, n: nat)
    requires
        current < len,
        len <= usize::MAX,
        back < 0,
        forward > 0,
    ensures
        switched(0, len, back) == 0,
        switched_n(current, len, forward, n) == if current + n < len {
            current + n
        } else {
            len - 1
        },
    decreases n,
{
    if n > 0 {
        lemma_switch_clamps(switched(current, len, forward), len, back, forward, (n - 1) as nat);
    }
}

impl MissionControl {
    /// The cursor points at one of the desktops.
    pub open spec fn wf(&self) -> bool {
        self.current_space < self.desktop_spaces@.len()
    }

    pub fn new() -> (m: Self)
        ensures
            m.wf(),
            !m.is_visible,
            m.animation_progress == 0,
            m.current_space == 0,
            m.desktop_spaces@.len() == 2,
            m.desktop_spaces@[0].id == 0,
            m.desktop_spaces@[0].wallpaper_color == (Color { r: 30, g: 130, b: 180 }),
            m.desktop_spaces@[0].windows@.len() == 0,
            m.desktop_spaces@[1].id == 1,
            m.desktop_spaces@[1].wallpaper_color == (Color { r: 180, g: 30, b: 130 }),
            m.desktop_spaces@[1].windows@.len() == 0,
    {
        let mut spaces: Vec<DesktopSpace> = Vec::new();
        spaces.push(
            DesktopSpace { id: 0, windows: Vec::new(), wallpaper_color: Color::new(30, 130, 180) },
        );
        spaces.push(
            DesktopSpace { id: 1, windows: Vec::new(), wallpaper_color: Color::new(180, 30, 130) },
        );
        MissionControl {
            is_visible: false,
            animation_progress: 0,
            desktop_spaces: spaces,
            current_space: 0,
        }
    }

    /// Opens the switcher and restarts its entry transition.
    pub fn show(&mut self)
        ensures
            final(self).is_visible,
            final(self).animation_progress == 0,
            final(self).current_space == old(self).current_space,
            final(self).desktop_spaces@ == old(self).desktop_spaces@,
    {
        self.is_visible = true;
        self.animation_progress = 0;
    }

    /// Closes the switcher; the rest of its state stays.
    pub fn close(&mut self)
        ensures
            !final(self).is_visible,
            final(self).animation_progress == old(self).animation_progress,
            final(self).current_space == old(self).current_space,
            final(self).desktop_spaces@ == old(self).desktop_spaces@,
    {
        self.is_visible = false;
    }

    /// While shown, moves the entry transition one step toward full, capped
    /// there.
    pub fn update(&mut self)
        ensures
            final(self).is_visible == old(self).is_visible,
            final(self).animation_progress == if old(self).is_visible
                && old(self).animation_progress < PROGRESS_FULL {
                if old(self).animation_progress + PROGRESS_STEP > PROGRESS_FULL {
                    PROGRESS_FULL
                } else {
                    (old(self).animation_progress + PROGRESS_STEP) as u32
                }
            } else {
                old(self).animation_progress
            },
            final(self).current_space == old(self).current_space,
            final(self).desktop_spaces@ == old(self).desktop_spaces@,
    {
        if self.is_visible && self.animation_progress < PROGRESS_FULL {
            self.animation_progress = self.animation_progress + PROGRESS_STEP;
            if self.animation_progress > PROGRESS_FULL {
                self.animation_progress = PROGRESS_FULL;
            }
        }
    }

    /// Moves the cursor one desktop forward (positive direction) or back
    /// (negative), stopping at the ends.
    pub fn switch_space(&mut self, direction: i32)
        ensures
            final(self).current_space == switched(
                old(self).current_space,
                old(self).desktop_spaces@.len(),
                direction,
            ),
            old(self).wf() ==> final(self).wf(),
            final(self).is_visible == old(self).is_visible,
            final(self).animation_progress == old(self).animation_progress,
            final(self).desktop_spaces@ == old(self).desktop_spaces@,
    {
        let n = self.desktop_spaces.len();
        if direction > 0 && n > 0 && self.current_space < n - 1 {
            self.current_space = self.current_space + 1;
        } else if direction < 0 && self.current_space > 0 {
            self.current_space = self.current_space - 1;
        }
    }

    /// Appends the switcher, which covers the whole screen; a hidden switcher
    /// draws nothing. Only the current desktop gets the blue border and the
    /// "Current Desktop" label.
    pub fn draw(&self, ops: &mut Vec<DrawOp>)
        ensures
            shapes(final(ops)@) == shapes(old(ops)@) + switcher_shapes(*self),
    {
        if !self.is_visible {
            assert(shapes(ops@) =~= shapes(old(ops)@) + switcher_shapes(*self));
            return;
        }
        push_rect(ops, 0, 0, 640, 480, Color::new(20, 20, 20));
        let n = self.desktop_spaces.len();
        let row: usize = if n == 0 {
            0
        } else if n <= 2 {
            n * 220 - 20
        } else {
            640
        };
        let start_x = (640 - row) / 2;
        assert(start_x == row_start(n as int));
        let mut i: usize = 0;
        let mut x = start_x;
        let ghost head = shapes(ops@);
        assert(head =~= shapes(old(ops)@) + seq![Shape::Rect { x: 0, y: 0, width: 640, height: 480, color: rgb(20, 20, 20) }]);
        while i < n
            invariant
                n == self.desktop_spaces@.len(),
                0 <= i <= n,
                start_x == row_start(n as int),
                x == clamp_usize(start_x + 220 * i),
                shapes(ops@) == head + spaces_shapes(*self, i as int),
            decreases n - i,
        {
            let space = &self.desktop_spaces[i];
            let current = i == self.current_space;
            let border = if current {
                Color::blue()
            } else {
                Color::gray()
            };
            push_outline(ops, x.saturating_sub(2), 98, 204, 154, border);
            push_rect(ops, x, 100, 200, 150, space.wallpaper_color);
            push_rect(ops, x.saturating_add(20), 120, 60, 40, Color::white());
            push_rect(ops, x.saturating_add(90), 130, 80, 50, Color::black());
            if current {
                push_text(ops, "Current Desktop", x.saturating_add(40), 260, Color::white());
            } else {
                push_text(ops, "Desktop", x.saturating_add(70), 260, Color::white());
            }
            assert(shapes(ops@) =~= head + spaces_shapes(*self, i + 1));
            x = x.saturating_add(220);
            i = i + 1;
        }
        push_text(ops, "Use arrow keys to switch spaces, ESC to exit", 140, 400, Color::light_gray());
        assert(shapes(ops@) =~= shapes(old(ops)@) + switcher_shapes(*self));
    }
}

/// Left edge of the first desktop when `n` desktops are laid out centred.
pub open spec fn row_start(n: int) -> usize {
    let row: int = if n == 0 {
        0
    } else if n <= 2 {
        n * 220 - 20
    } else {
        640
    };
    ((640 - row) / 2) as usize
}

/// Desktop `i`'s thumbnail: border (blue for the current one, gray for the
/// others), wallpaper, two sample windows and its label.
pub open spec fn space_shapes(m: MissionControl, i: int) -> Seq<Shape> {
    let x = clamp_usize(row_start(m.desktop_spaces@.len() as int) + 220 * i);
    let current = i == m.current_space;
    seq![
        Shape::Outline {
            x: x.saturating_sub(2),
            y: 98,
            width: 204,
            height: 154,
            color: if current {
                rgb(0, 122, 255)
            } else {
                rgb(128, 128, 128)
            },
        },
        Shape::Rect { x, y: 100, width: 200, height: 150, color: m.desktop_spaces@[i].wallpaper_color },
        Shape::Rect { x: x.saturating_add(20), y: 120, width: 60, height: 40, color: rgb(255, 255, 255) },
        Shape::Rect { x: x.saturating_add(90), y: 130, width: 80, height: 50, color: rgb(0, 0, 0) },
        if current {
            Shape::Text { text: "Current Desktop"@, x: x.saturating_add(40), y: 260, color: rgb(255, 255, 255) }
        } else {
            Shape::Text { text: "Desktop"@, x: x.saturating_add(70), y: 260, color: rgb(255, 255, 255) }
        },
    ]
}

/// The thumbnails of the first `n` desktops, left to right.
pub open spec fn spaces_shapes(m: MissionControl, n: int) -> Seq<Shape>
    decreases n,
{
    if n <= 0 {
        Seq::empty()
    } else {
        spaces_shapes(m, n - 1) + space_shapes(m, n - 1)
    }
}

/// Everything the switcher draws: nothing while hidden, else a dark backdrop,
/// every desktop's thumbnail and a hint line.
pub open spec fn switcher_shapes(m: MissionControl) -> Seq<Shape> {
    if !m.is_visible {
        Seq::empty()
    } else {
        seq![Shape::Rect { x: 0, y: 0, width: 640, height: 480, color: rgb(20, 20, 20) }] + spaces_shapes(
            m,
            m.desktop_spaces@.len() as int,
        ) + seq![
            Shape::Text {
                text: "Use arrow keys to switch spaces, ESC to exit"@,
                x: 140,
                y: 400,
                color: rgb(240, 240, 245),
            },
        ]
    }
}

/// Of the desktops' borders, only the current one's is blue.
pub proof fn lemma_only_current_highlighted(m: MissionControl, i: int)
    requires
        0 <= i < m.desktop_spaces@.len(),
    ensures
        (space_shapes(m, i)[0] matches Shape::Outline { color, .. } && color == rgb(0, 122, 255))
            <==> i == m.current_space,
        (space_shapes(m, i)[4] matches Shape::Text { text, .. } && text == "Current Desktop"@)
            <==> i == m.current_space,
{
    if i != m.current_space {
        assert("Desktop"@.len() != "Current Desktop"@.len()) by {
            reveal_strlit("Desktop");
            reveal_strlit("Current Desktop");
        }
    }
}

} // verus!
