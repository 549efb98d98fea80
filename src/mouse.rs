//! Pointer state.
use vstd::prelude::*;

verus! {

#[derive(Clone, Copy, Debug, PartialEq, Eq, Structural)]
pub enum MouseButton {
    Left,
    Right,
    Middle,
}

pub struct Mouse {
    pub x: usize,
    pub y: usize,
    pub left_button: bool,
    pub right_button: bool,
    pub middle_button: bool,
    pub scroll_delta: i32,
    pub click_count: u32,
    pub last_click_time: u32,
}

impl Mouse {
    /// A pointer at the centre of the screen with no button held.
    pub fn new() -> (m: Self)
        ensures
            m.x == 320,
            m.y == 240,
            !m.left_button,
            !m.right_button,
            !m.middle_button,
            m.scroll_delta == 0,
            m.click_count == 0,
            m.last_click_time == 0,
    {
        Mouse {
            x: 320,
            y: 240,
            left_button: false,
            right_button: false,
            middle_button: false,
            scroll_delta: 0,
            click_count: 0,
            last_click_time: 0,
        }
    }

    pub fn button_down(&mut self, button: MouseButton)
        ensures
            final(self).left_button == (old(self).left_button || button == MouseButton::Left),
            final(self).right_button == (old(self).right_button || button == MouseButton::Right),
            final(self).middle_button == (old(self).middle_button || button == MouseButton::Middle),
            final(self).x == old(self).x,
            final(self).y == old(self).y,
            final(self).scroll_delta == old(self).scroll_delta,
            final(self).click_count == old(self).click_count,
            final(self).last_click_time == old(self).last_click_time,
    {
        match button {
            MouseButton::Left => self.left_button = true,
            MouseButton::Right => self.right_button = true,
            MouseButton::Middle => self.middle_button = true,
        }
    }

    pub fn button_up(&mut self, button: MouseButton)
        ensures
            final(self).left_button == (old(self).left_button && button != MouseButton::Left),
            final(self).right_button == (old(self).right_button && button != MouseButton::Right),
            final(self).middle_button == (old(self).middle_button && button != MouseButton::Middle),
            final(self).x == old(self).x,
            final(self).y == old(self).y,
            final(self).scroll_delta == old(self).scroll_delta,
            final(self).click_count == old(self).click_count,
            final(self).last_click_time == old(self).last_click_time,
    {
        match button {
            MouseButton::Left => self.left_button = false,
            MouseButton::Right => self.right_button = false,
            MouseButton::Middle => self.middle_button = false,
        }
    }

    pub fn move_to(&mut self, x: usize, y: usize)
        ensures
            *final(self) == (Mouse { x, y, ..*old(self) }),
    {
        self.x = x;
        self.y = y;
    }

    /// Records the latest scroll amount.
    pub fn scroll(&mut self, delta: i32)
        ensures
            *final(self) == (Mouse { scroll_delta: delta, ..*old(self) }),
    {
        self.scroll_delta = delta;
    }
}

} // verus!
