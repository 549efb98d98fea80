//! Windows and the window stack: z-order, focus, hit-testing and draw order.
use vstd::prelude::*;
use crate::animations::WindowAnimation;
use crate::graphics::{
    Color, DrawOp, SCREEN_HEIGHT, SCREEN_WIDTH, Shape, push_outline, push_rect, push_rounded_rect,
    push_text, rgb, shapes,
};

verus! {

/// Height of the menu bar band at the top of the screen.
pub const MENU_BAR_HEIGHT: usize = 24;
/// Height of the dock band at the bottom of the screen.
pub const DOCK_HEIGHT: usize = 60;
/// Height of a window's title bar.
pub const TITLE_BAR_HEIGHT: usize = 36;

/// What a window shows below its title bar, chosen when it is created.
#[derive(Clone, Copy, Debug, PartialEq, Eq, Structural)]
pub enum ContentKind {
    Finder,
    Terminal,
    Preferences,
    Browser,
    Generic,
}

#[derive(Clone, Debug)]
pub struct Window {
    pub title: String,
    pub content: ContentKind,
    pub x: usize,
    pub y: usize,
    pub width: usize,
    pub height: usize,
    pub background_color: Color,
    pub is_focused: bool,
    pub is_minimized: bool,
    pub is_maximized: bool,
    pub animation: Option<WindowAnimation>,
    pub shadow_offset: usize,
}

/// The point lies inside the window's rectangle.
pub open spec fn contains_point(w: Window, x: int, y: int) -> bool {
    &&& w.x <= x < w.x + w.width
    &&& w.y <= y < w.y + w.height
}

/// The window is shown and the point lies inside it.
pub open spec fn hits(w: Window, x: int, y: int) -> bool {
    !w.is_minimized && contains_point(w, x, y)
}

/// The window after the maximize control is used on it: the flag flips, and a
/// window that becomes maximized covers the screen between the menu bar and
/// the dock.
pub open spec fn toggled_maximized(w: Window) -> Window {
    if w.is_maximized {
        Window { is_maximized: false, ..w }
    } else {
        Window {
            is_maximized: true,
            x: 0,
            y: MENU_BAR_HEIGHT,
            width: SCREEN_WIDTH,
            height: (SCREEN_HEIGHT - MENU_BAR_HEIGHT - DOCK_HEIGHT) as usize,
            ..w
        }
    }
}

impl Window {
    pub open spec fn fresh(
        title: String,
        content: ContentKind,
        x: usize,
        y: usize,
        width: usize,
        height: usize,
        background_color: Color,
    ) -> Window {
        Window {
            title,
            content,
            x,
            y,
            width,
            height,
            background_color,
            is_focused: false,
            is_minimized: false,
            is_maximized: false,
            animation: None,
            shadow_offset: 4,
        }
    }

    /// A window showing generic content.
    pub fn new(
        title: String,
        x: usize,
        y: usize,
        width: usize,
        height: usize,
        background_color: Color,
    ) -> (w: Self)
        ensures
            w == Window::fresh(title, ContentKind::Generic, x, y, width, height, background_color),
    {
        Window::with_content(title, ContentKind::Generic, x, y, width, height, background_color)
    }

    pub fn with_content(
        title: String,
        content: ContentKind,
        x: usize,
        y: usize,
        width: usize,
        height: usize,
        background_color: Color,
    ) -> (w: Self)
        ensures
            w == Window::fresh(title, content, x, y, width, height, background_color),
    {
        Window {
            title,
            content,
            x,
            y,
            width,
            height,
            background_color,
            is_focused: false,
            is_minimized: false,
            is_maximized: false,
            animation: None,
            shadow_offset: 4,
        }
    }

    /// Whether the point lies inside this window's rectangle.
    pub fn contains(&self, x: usize, y: usize) -> (r: bool)
        ensures
            r == contains_point(*self, x as int, y as int),
    {
        x >= self.x && x - self.x < self.width && y >= self.y && y - self.y < self.height
    }

    /// Appends this window's primitives; a minimized window draws nothing.
    pub fn draw(&self, ops: &mut Vec<DrawOp>)
        ensures
            shapes(final(ops)@) == shapes(old(ops)@) + window_shapes(*self),
    {
        if self.is_minimized {
            assert(shapes(ops@) =~= shapes(old(ops)@) + window_shapes(*self));
            return;
        }
        let x = self.x;
        let y = self.y;
        let w = self.width;
        let h = self.height;
        let mut i: usize = 0;
        while i < self.shadow_offset
            invariant
                i <= self.shadow_offset,
                x == self.x,
                y == self.y,
                w == self.width,
                h == self.height,
                shapes(ops@) == shapes(old(ops)@) + shadow_shapes(*self).take(i as int),
            decreases self.shadow_offset - i,
        {
            push_rounded_rect(
                ops,
                x.saturating_add(i).saturating_add(2),
                y.saturating_add(i).saturating_add(2),
                w,
                h,
                Color::black(),
            );
            assert(shadow_shapes(*self).take(i + 1) =~= shadow_shapes(*self).take(i as int).push(
                shadow_shapes(*self)[i as int],
            ));
            i = i + 1;
        }
        let ghost mid = shapes(ops@);
        push_rounded_rect(ops, x, y, w, h, self.background_color);
        let bar = if self.is_focused {
            Color::new(235, 235, 235)
        } else {
            Color::new(245, 245, 245)
        };
        push_rect(ops, x, y, w, TITLE_BAR_HEIGHT, bar);
        let button_y = y.saturating_add(12);
        push_rounded_rect(ops, x.saturating_add(12), button_y, 12, 12, Color::red());
        push_rounded_rect(ops, x.saturating_add(32), button_y, 12, 12, Color::yellow());
        push_rounded_rect(ops, x.saturating_add(52), button_y, 12, 12, Color::green());
        push_text(ops, self.title.as_str(), x.saturating_add(80), y.saturating_add(14), Color::black());
        push_outline(ops, x, y, w, h, Color::gray());
        assert(shapes(ops@) =~= mid + chrome_shapes(*self));
        let ghost chrome = shapes(ops@);
        self.draw_content(ops);
        assert(shadow_shapes(*self).take(self.shadow_offset as int) =~= shadow_shapes(*self));
        assert(shapes(ops@) =~= shapes(old(ops)@) + window_shapes(*self));
    }

    fn draw_content(&self, ops: &mut Vec<DrawOp>)
        ensures
            shapes(final(ops)@) == shapes(old(ops)@) + content_shapes(*self),
    {
        let cx = self.x;
        let cy = self.y.saturating_add(TITLE_BAR_HEIGHT);
        let ch = self.height.saturating_sub(TITLE_BAR_HEIGHT);
        match self.content {
            ContentKind::Finder => {
                push_rect(ops, cx.saturating_add(1), cy, 120, ch.saturating_sub(1), Color::new(246, 246, 246));
                push_text(ops, "FAVORITES", cx.saturating_add(10), cy.saturating_add(12), Color::dark_gray());
                push_text(ops, "Desktop", cx.saturating_add(10), cy.saturating_add(32), Color::black());
                push_text(ops, "Documents", cx.saturating_add(10), cy.saturating_add(52), Color::black());
                push_text(ops, "Downloads", cx.saturating_add(10), cy.saturating_add(72), Color::black());
                push_text(ops, "RustOS Files", cx.saturating_add(140), cy.saturating_add(20), Color::black());
            },
            ContentKind::Terminal => {
                push_text(ops, "RustOS Terminal v1.0", cx.saturating_add(10), cy.saturating_add(20), Color::green());
                push_text(ops, "$ ls -la", cx.saturating_add(10), cy.saturating_add(40), Color::white());
                push_text(ops, "drwxr-xr-x  kernel", cx.saturating_add(10), cy.saturating_add(60), Color::white());
                push_text(ops, "drwxr-xr-x  drivers", cx.saturating_add(10), cy.saturating_add(80), Color::white());
                push_text(ops, "$ _", cx.saturating_add(10), cy.saturating_add(100), Color::green());
            },
            ContentKind::Preferences => {
                push_text(ops, "System Preferences", cx.saturating_add(10), cy.saturating_add(20), Color::black());
                push_rounded_rect(ops, cx.saturating_add(20), cy.saturating_add(50), 60, 60, Color::blue());
                push_text(ops, "General", cx.saturating_add(22), cy.saturating_add(115), Color::black());
                push_rounded_rect(ops, cx.saturating_add(100), cy.saturating_add(50), 60, 60, Color::gray());
                push_text(ops, "Display", cx.saturating_add(102), cy.saturating_add(115), Color::black());
                push_rounded_rect(ops, cx.saturating_add(180), cy.saturating_add(50), 60, 60, Color::green());
                push_text(ops, "Sound", cx.saturating_add(190), cy.saturating_add(115), Color::black());
            },
            ContentKind::Browser => {
                push_rounded_rect(ops, cx.saturating_add(10), cy.saturating_add(8), self.width.saturating_sub(20), 24, Color::light_gray());
                push_text(ops, "rustos.local/docs", cx.saturating_add(20), cy.saturating_add(16), Color::dark_gray());
                push_text(ops, "RustOS Documentation", cx.saturating_add(20), cy.saturating_add(50), Color::black());
                push_text(ops, "Window Management", cx.saturating_add(30), cy.saturating_add(80), Color::black());
                push_text(ops, "Spotlight Search", cx.saturating_add(30), cy.saturating_add(100), Color::black());
            },
            ContentKind::Generic => {
                push_text(ops, "Welcome to RustOS!", cx.saturating_add(20), cy.saturating_add(30), Color::black());
                push_rounded_rect(ops, cx.saturating_add(20), cy.saturating_add(80), 200, 100, Color::light_gray());
            },
        }
        assert(shapes(ops@) =~= shapes(old(ops)@) + content_shapes(*self));
    }
}

/// The drop shadow: one offset copy of the frame per step of `shadow_offset`.
pub open spec fn shadow_shapes(w: Window) -> Seq<Shape> {
    Seq::new(
        w.shadow_offset as nat,
        |i: int|
            Shape::RoundedRect {
                x: w.x.saturating_add(i as usize).saturating_add(2),
                y: w.y.saturating_add(i as usize).saturating_add(2),
                width: w.width,
                height: w.height,
                color: rgb(0, 0, 0),
            },
    )
}

/// The frame, title bar with its three controls and title, and border.
pub open spec fn chrome_shapes(w: Window) -> Seq<Shape> {
    seq![
        Shape::RoundedRect { x: w.x, y: w.y, width: w.width, height: w.height, color: w.background_color },
        Shape::Rect {
            x: w.x,
            y: w.y,
            width: w.width,
            height: TITLE_BAR_HEIGHT,
            color: if w.is_focused {
                rgb(235, 235, 235)
            } else {
                rgb(245, 245, 245)
            },
        },
        Shape::RoundedRect { x: w.x.saturating_add(12), y: w.y.saturating_add(12), width: 12, height: 12, color: rgb(255, 59, 48) },
        Shape::RoundedRect { x: w.x.saturating_add(32), y: w.y.saturating_add(12), width: 12, height: 12, color: rgb(255, 204, 0) },
        Shape::RoundedRect { x: w.x.saturating_add(52), y: w.y.saturating_add(12), width: 12, height: 12, color: rgb(52, 199, 89) },
        Shape::Text { text: w.title@, x: w.x.saturating_add(80), y: w.y.saturating_add(14), color: rgb(0, 0, 0) },
        Shape::Outline { x: w.x, y: w.y, width: w.width, height: w.height, color: rgb(128, 128, 128) },
    ]
}

/// What the window shows below its title bar, by its content kind.
pub open spec fn content_shapes(w: Window) -> Seq<Shape> {
    let cx = w.x;
    let cy = w.y.saturating_add(TITLE_BAR_HEIGHT);
    let ch = w.height.saturating_sub(TITLE_BAR_HEIGHT);
    let black = rgb(0, 0, 0);
    let white = rgb(255, 255, 255);
    let green = rgb(52, 199, 89);
    match w.content {
        ContentKind::Finder => seq![
            Shape::Rect { x: cx.saturating_add(1), y: cy, width: 120, height: ch.saturating_sub(1), color: rgb(246, 246, 246) },
            Shape::Text { text: "FAVORITES"@, x: cx.saturating_add(10), y: cy.saturating_add(12), color: rgb(60, 60, 60) },
            Shape::Text { text: "Desktop"@, x: cx.saturating_add(10), y: cy.saturating_add(32), color: black },
            Shape::Text { text: "Documents"@, x: cx.saturating_add(10), y: cy.saturating_add(52), color: black },
            Shape::Text { text: "Downloads"@, x: cx.saturating_add(10), y: cy.saturating_add(72), color: black },
            Shape::Text { text: "RustOS Files"@, x: cx.saturating_add(140), y: cy.saturating_add(20), color: black },
        ],
        ContentKind::Terminal => seq![
            Shape::Text { text: "RustOS Terminal v1.0"@, x: cx.saturating_add(10), y: cy.saturating_add(20), color: green },
            Shape::Text { text: "$ ls -la"@, x: cx.saturating_add(10), y: cy.saturating_add(40), color: white },
            Shape::Text { text: "drwxr-xr-x  kernel"@, x: cx.saturating_add(10), y: cy.saturating_add(60), color: white },
            Shape::Text { text: "drwxr-xr-x  drivers"@, x: cx.saturating_add(10), y: cy.saturating_add(80), color: white },
            Shape::Text { text: "$ _"@, x: cx.saturating_add(10), y: cy.saturating_add(100), color: green },
        ],
        ContentKind::Preferences => seq![
            Shape::Text { text: "System Preferences"@, x: cx.saturating_add(10), y: cy.saturating_add(20), color: black },
            Shape::RoundedRect { x: cx.saturating_add(20), y: cy.saturating_add(50), width: 60, height: 60, color: rgb(0, 122, 255) },
            Shape::Text { text: "General"@, x: cx.saturating_add(22), y: cy.saturating_add(115), color: black },
            Shape::RoundedRect { x: cx.saturating_add(100), y: cy.saturating_add(50), width: 60, height: 60, color: rgb(128, 128, 128) },
            Shape::Text { text: "Display"@, x: cx.saturating_add(102), y: cy.saturating_add(115), color: black },
            Shape::RoundedRect { x: cx.saturating_add(180), y: cy.saturating_add(50), width: 60, height: 60, color: green },
            Shape::Text { text: "Sound"@, x: cx.saturating_add(190), y: cy.saturating_add(115), color: black },
        ],
        ContentKind::Browser => seq![
            Shape::RoundedRect { x: cx.saturating_add(10), y: cy.saturating_add(8), width: w.width.saturating_sub(20), height: 24, color: rgb(240, 240, 245) },
            Shape::Text { text: "rustos.local/docs"@, x: cx.saturating_add(20), y: cy.saturating_add(16), color: rgb(60, 60, 60) },
            Shape::Text { text: "RustOS Documentation"@, x: cx.saturating_add(20), y: cy.saturating_add(50), color: black },
            Shape::Text { text: "Window Management"@, x: cx.saturating_add(30), y: cy.saturating_add(80), color: black },
            Shape::Text { text: "Spotlight Search"@, x: cx.saturating_add(30), y: cy.saturating_add(100), color: black },
        ],
        ContentKind::Generic => seq![
            Shape::Text { text: "Welcome to RustOS!"@, x: cx.saturating_add(20), y: cy.saturating_add(30), color: black },
            Shape::RoundedRect { x: cx.saturating_add(20), y: cy.saturating_add(80), width: 200, height: 100, color: rgb(240, 240, 245) },
        ],
    }
}

/// Everything a window draws: nothing when minimized, else its shadow, chrome
/// and content.
pub open spec fn window_shapes(w: Window) -> Seq<Shape> {
    if w.is_minimized {
        Seq::empty()
    } else {
        shadow_shapes(w) + chrome_shapes(w) + content_shapes(w)
    }
}

/// The primitives of the windows at `order`, drawn one after another.
pub open spec fn order_shapes(ws: Seq<Window>, order: Seq<usize>) -> Seq<Shape>
    decreases order.len(),
{
    if order.len() == 0 {
        Seq::empty()
    } else {
        order_shapes(ws, order.drop_last()) + window_shapes(ws[order.last() as int])
    }
}

/// The window stack seen as a sequence (index 0 at the bottom) and the index
/// of the focused window.
pub struct StackView {
    pub windows: Seq<Window>,
    pub focused: Option<usize>,
}

/// The windows with their focus flags set to agree with `f`.
pub open spec fn with_focus(s: Seq<Window>, f: Option<usize>) -> Seq<Window> {
    Seq::new(s.len(), |i: int| Window { is_focused: f == Some(i as usize), ..s[i] })
}

/// At most the tracked window is focused, and it is a shown window.
pub open spec fn stack_wf(v: StackView) -> bool {
    &&& match v.focused {
        Some(f) => f < v.windows.len() && !v.windows[f as int].is_minimized,
        None => true,
    }
    &&& forall|i: int|
        0 <= i < v.windows.len() ==> #[trigger] v.windows[i].is_focused == (v.focused == Some(
            i as usize,
        ))
}

/// The lowest index at or above `i` of a window that is not minimized.
pub open spec fn first_visible_from(s: Seq<Window>, i: int) -> Option<usize>
    decreases s.len() - i,
{
    if i < 0 || i >= s.len() {
        None
    } else if !s[i].is_minimized {
        Some(i as usize)
    } else {
        first_visible_from(s, i + 1)
    }
}

pub open spec fn first_visible(s: Seq<Window>) -> Option<usize> {
    first_visible_from(s, 0)
}

/// The stack after `w` is put on top of it: it takes the focus only when the
/// stack was empty.
pub open spec fn add_spec(v: StackView, w: Window) -> StackView {
    let gains = v.windows.len() == 0 && !w.is_minimized;
    StackView {
        windows: v.windows.push(Window { is_focused: gains, ..w }),
        focused: if gains {
            Some(0)
        } else {
            v.focused
        },
    }
}

pub open spec fn focus_spec(v: StackView, index: usize) -> StackView {
    if index < v.windows.len() && !v.windows[index as int].is_minimized {
        StackView { windows: with_focus(v.windows, Some(index)), focused: Some(index) }
    } else {
        v
    }
}

/// Where the focus goes when the focused window at `index` is closed: to the
/// window just below it, or to the bottom one, when that window is shown;
/// otherwise to the lowest shown window, if any.
pub open spec fn refocus_after_close(rest: Seq<Window>, index: usize) -> Option<usize> {
    let pref: int = if index > 0 {
        index - 1
    } else {
        0
    };
    if rest.len() == 0 {
        None
    } else if pref < rest.len() && !rest[pref].is_minimized {
        Some(pref as usize)
    } else {
        first_visible(rest)
    }
}

pub open spec fn focus_after_close(v: StackView, index: usize) -> Option<usize> {
    match v.focused {
        None => None,
        Some(f) => if f == index {
            refocus_after_close(v.windows.remove(index as int), index)
        } else if f > index {
            Some((f - 1) as usize)
        } else {
            Some(f)
        },
    }
}

pub open spec fn close_spec(v: StackView, index: usize) -> StackView {
    if index < v.windows.len() {
        let f = focus_after_close(v, index);
        StackView { windows: with_focus(v.windows.remove(index as int), f), focused: f }
    } else {
        v
    }
}

pub open spec fn minimize_spec(v: StackView, index: usize) -> StackView {
    if index < v.windows.len() {
        let s1 = v.windows.update(
            index as int,
            Window { is_minimized: true, ..v.windows[index as int] },
        );
        let f = if v.focused == Some(index) {
            first_visible(s1)
        } else {
            v.focused
        };
        StackView { windows: with_focus(s1, f), focused: f }
    } else {
        v
    }
}

pub open spec fn maximize_spec(v: StackView, index: usize) -> StackView {
    if index < v.windows.len() {
        StackView {
            windows: v.windows.update(index as int, toggled_maximized(v.windows[index as int])),
            focused: v.focused,
        }
    } else {
        v
    }
}

/// Shown windows below index `n` that are not focused, in ascending order.
pub open spec fn back_layers(v: StackView, n: int) -> Seq<usize>
    decreases n,
{
    if n <= 0 {
        Seq::empty()
    } else {
        let i = n - 1;
        back_layers(v, i) + if !v.windows[i].is_minimized && v.focused != Some(i as usize) {
            seq![i as usize]
        } else {
            Seq::empty()
        }
    }
}

/// The indices of the windows in the order they are drawn: the others from
/// the bottom up, then the focused one.
pub open spec fn draw_order(v: StackView) -> Seq<usize> {
    back_layers(v, v.windows.len() as int) + match v.focused {
        Some(f) => if f < v.windows.len() && !v.windows[f as int].is_minimized {
            seq![f]
        } else {
            Seq::empty()
        },
        None => Seq::empty(),
    }
}

pub struct WindowManager {
    windows: Vec<Window>,
    focused_window: Option<usize>,
}

impl View for WindowManager {
    type V = StackView;

    closed spec fn view(&self) -> StackView {
        StackView { windows: self.windows@, focused: self.focused_window }
    }
}

impl WindowManager {
    pub open spec fn wf(&self) -> bool {
        stack_wf(self@)
    }

    pub fn new() -> (r: Self)
        ensures
            r@.windows == Seq::<Window>::empty(),
            r@.focused == None::<usize>,
            r.wf(),
    {
        WindowManager { windows: Vec::new(), focused_window: None }
    }

    pub fn window_count(&self) -> (n: usize)
        ensures
            n == self@.windows.len(),
    {
        self.windows.len()
    }

    pub fn focused(&self) -> (f: Option<usize>)
        ensures
            f == self@.focused,
    {
        self.focused_window
    }

    pub fn window(&self, index: usize) -> (w: &Window)
        requires
            index < self@.windows.len(),
        ensures
            *w == self@.windows[index as int],
    {
        &self.windows[index]
    }

    /// Sets every focus flag to agree with `f`, and tracks `f`.
    fn apply_focus(&mut self, f: Option<usize>)
        requires
            match f {
                Some(i) => i < old(self)@.windows.len() && !old(self)@.windows[i as int].is_minimized,
                None => true,
            },
        ensures
            final(self)@ == (StackView { windows: with_focus(old(self)@.windows, f), focused: f }),
            final(self).wf(),
    {
        let n = self.windows.len();
        let mut i: usize = 0;
        while i < n
            invariant
                n == self.windows@.len(),
                n == old(self).windows@.len(),
                0 <= i <= n,
                forall|k: int| 0 <= k < i ==> #[trigger] self.windows@[k] == with_focus(old(self).windows@, f)[k],
                forall|k: int| i <= k < n ==> #[trigger] self.windows@[k] == old(self).windows@[k],
            decreases n - i,
        {
            let on = match f {
                Some(j) => j == i,
                None => false,
            };
            self.windows[i].is_focused = on;
            i = i + 1;
        }
        self.focused_window = f;
        assert(self.windows@ =~= with_focus(old(self).windows@, f));
    }

    /// The lowest index of a window that is not minimized.
    fn first_visible_index(&self) -> (r: Option<usize>)
        ensures
            r == first_visible(self@.windows),
    {
        let n = self.windows.len();
        let mut i: usize = 0;
        while i < n
            invariant
                n == self.windows@.len(),
                0 <= i <= n,
                first_visible_from(self.windows@, 0) == first_visible_from(self.windows@, i as int),
            decreases n - i,
        {
            if !self.windows[i].is_minimized {
                return Some(i);
            }
            i = i + 1;
        }
        None
    }

    /// Puts `window` on top of the stack; it takes the focus only when the stack
    /// was empty.
    pub fn add_window(&mut self, window: Window)
        requires
            old(self).wf(),
        ensures
            final(self)@ == add_spec(old(self)@, window),
            final(self).wf(),
    {
        let mut window = window;
        let gains = self.windows.len() == 0 && !window.is_minimized;
        window.is_focused = gains;
        self.windows.push(window);
        if gains {
            self.focused_window = Some(0);
        }
    }

    /// Focuses the window at `index`; nothing happens when there is no shown
    /// window there.
    pub fn focus_window(&mut self, index: usize)
        requires
            old(self).wf(),
        ensures
            final(self)@ == focus_spec(old(self)@, index),
            final(self).wf(),
    {
        if index < self.windows.len() && !self.windows[index].is_minimized {
            self.apply_focus(Some(index));
        }
    }

    /// Removes the window at `index` and moves the focus as
    /// [`focus_after_close`] says; nothing happens when `index` is out of range.
    pub fn close_window(&mut self, index: usize)
        requires
            old(self).wf(),
        ensures
            final(self)@ == close_spec(old(self)@, index),
            final(self).wf(),
    {
        if index >= self.windows.len() {
            return;
        }
        let ghost v = self@;
        self.windows.remove(index);
        let ghost rest = self.windows@;
        assert(rest =~= v.windows.remove(index as int));
        let f = match self.focused_window {
            None => None,
            Some(f) => {
                if f == index {
                    if self.windows.len() == 0 {
                        None
                    } else {
                        let pref: usize = if index > 0 {
                            index - 1
                        } else {
                            0
                        };
                        if pref < self.windows.len() && !self.windows[pref].is_minimized {
                            Some(pref)
                        } else {
                            self.first_visible_index()
                        }
                    }
                } else if f > index {
                    Some(f - 1)
                } else {
                    Some(f)
                }
            },
        };
        assert(f == focus_after_close(v, index));
        proof {
            lemma_first_visible_is_shown(rest, 0);
        }
        self.apply_focus(f);
    }

    /// Minimizes the window at `index`; when it had the focus, the focus goes to
    /// the lowest shown window, or nowhere.
    pub fn minimize_window(&mut self, index: usize)
        requires
            old(self).wf(),
        ensures
            final(self)@ == minimize_spec(old(self)@, index),
            final(self).wf(),
    {
        if index >= self.windows.len() {
            return;
        }
        let ghost v = self@;
        self.windows[index].is_minimized = true;
        let ghost s1 = self.windows@;
        assert(s1 =~= v.windows.update(index as int, Window { is_minimized: true, ..v.windows[index as int] }));
        let f = if self.focused_window == Some(index) {
            self.first_visible_index()
        } else {
            self.focused_window
        };
        proof {
            lemma_first_visible_is_shown(s1, 0);
        }
        self.apply_focus(f);
    }

    /// Flips the maximized flag of the window at `index`; a window that becomes
    /// maximized covers the screen between the menu bar and the dock.
    pub fn maximize_window(&mut self, index: usize)
        requires
            old(self).wf(),
        ensures
            final(self)@ == maximize_spec(old(self)@, index),
            final(self).wf(),
    {
        if index >= self.windows.len() {
            return;
        }
        let ghost v = self@;
        if self.windows[index].is_maximized {
            self.windows[index].is_maximized = false;
        } else {
            self.windows[index].is_maximized = true;
            self.windows[index].x = 0;
            self.windows[index].y = MENU_BAR_HEIGHT;
            self.windows[index].width = SCREEN_WIDTH;
            self.windows[index].height = SCREEN_HEIGHT - MENU_BAR_HEIGHT - DOCK_HEIGHT;
        }
        assert(self.windows@ =~= v.windows.update(index as int, toggled_maximized(v.windows[index as int])));
        assert(forall|i: int| 0 <= i < self.windows@.len() ==> #[trigger] self.windows@[i].is_focused == v.windows[i].is_focused);
    }

    /// The frame is always drawn in full.
    pub fn needs_redraw(&self) -> (r: bool)
        ensures
            !r,
    {
        false
    }

    /// The topmost (highest index) shown window that contains the point.
    pub fn get_window_at_point(&self, x: usize, y: usize) -> (r: Option<usize>)
        ensures
            match r {
                Some(i) => {
                    &&& i < self@.windows.len()
                    &&& hits(self@.windows[i as int], x as int, y as int)
                    &&& forall|j: int|
                        i < j < self@.windows.len() ==> !hits(#[trigger] self@.windows[j], x as int, y as int)
                },
                None => forall|j: int|
                    0 <= j < self@.windows.len() ==> !hits(#[trigger] self@.windows[j], x as int, y as int),
            },
    {
        let mut i = self.windows.len();
        while i > 0
            invariant
                i <= self.windows@.len(),
                forall|j: int| i <= j < self.windows@.len() ==> !hits(#[trigger] self.windows@[j], x as int, y as int),
            decreases i,
        {
            i = i - 1;
            let w = &self.windows[i];
            if !w.is_minimized && w.contains(x, y) {
                return Some(i);
            }
        }
        None
    }

    /// Appends the primitives of every shown window, the focused one last, and
    /// returns the indices of the windows drawn, in the order drawn.
    pub fn draw_all(&self, ops: &mut Vec<DrawOp>) -> (order: Vec<usize>)
        ensures
            order@ == draw_order(self@),
            shapes(final(ops)@) == shapes(old(ops)@) + order_shapes(self@.windows, order@),
    {
        let n = self.windows.len();
        let mut order: Vec<usize> = Vec::new();
        let mut i: usize = 0;
        assert(shapes(ops@) =~= shapes(old(ops)@) + order_shapes(self@.windows, order@));
        while i < n
            invariant
                n == self@.windows.len(),
                0 <= i <= n,
                order@ == back_layers(self@, i as int),
                shapes(ops@) == shapes(old(ops)@) + order_shapes(self@.windows, order@),
            decreases n - i,
        {
            let w = &self.windows[i];
            let is_focus = match self.focused_window {
                Some(f) => f == i,
                None => false,
            };
            if !w.is_minimized && !is_focus {
                let ghost prev = order@;
                w.draw(ops);
                order.push(i);
                assert(order@.drop_last() =~= prev);
                assert(shapes(ops@) =~= shapes(old(ops)@) + order_shapes(self@.windows, order@));
            }
            i = i + 1;
        }
        if let Some(f) = self.focused_window {
            if f < n && !self.windows[f].is_minimized {
                let ghost prev = order@;
                self.windows[f].draw(ops);
                order.push(f);
                assert(order@.drop_last() =~= prev);
                assert(shapes(ops@) =~= shapes(old(ops)@) + order_shapes(self@.windows, order@));
            }
        }
        assert(order@ =~= draw_order(self@));
        order
    }
}

/// The window that [`first_visible_from`] finds is shown, and none below it
/// (from `i` on) is.
pub proof fn lemma_first_visible_is_shown(s: Seq<Window>, i: int)
    requires
        0 <= i,
        s.len() <= usize::MAX,
    ensures
        match first_visible_from(s, i) {
            Some(j) => i <= j < s.len() && !s[j as int].is_minimized && forall|k: int|
                i <= k < j ==> #[trigger] s[k].is_minimized,
            None => forall|k: int| i <= k < s.len() ==> #[trigger] s[k].is_minimized,
        },
    decreases s.len() - i,
{
    if i < s.len() && s[i].is_minimized {
        lemma_first_visible_is_shown(s, i + 1);
        match first_visible_from(s, i + 1) {
            Some(j) => {
                assert forall|k: int| i <= k < j implies #[trigger] s[k].is_minimized by {
                    if k > i {
                        assert(i + 1 <= k < j);
                    }
                }
            },
            None => {
                assert forall|k: int| i <= k < s.len() implies #[trigger] s[k].is_minimized by {
                    if k > i {
                        assert(i + 1 <= k < s.len());
                    }
                }
            },
        }
    }
}

/// The stack after each window of `ws` is added in turn.
pub open spec fn adds_from(v: StackView, ws: Seq<Window>) -> StackView
    decreases ws.len(),
{
    if ws.len() == 0 {
        v
    } else {
        adds_from(add_spec(v, ws[0]), ws.drop_first())
    }
}

/// Adding to a stack that already holds a window leaves its windows and focus
/// alone, and the added windows are not focused.
pub proof fn lemma_adds_keep_focus(v: StackView, ws: Seq<Window>)
    requires
        v.windows.len() > 0,
    ensures
        adds_from(v, ws).focused == v.focused,
        adds_from(v, ws).windows.len() == v.windows.len() + ws.len(),
        forall|i: int| 0 <= i < v.windows.len() ==> #[trigger] adds_from(v, ws).windows[i] == v.windows[i],
        forall|i: int|
            v.windows.len() <= i < v.windows.len() + ws.len() ==> !(#[trigger] adds_from(v, ws).windows[i]).is_focused,
    decreases ws.len(),
{
    if ws.len() > 0 {
        let v1 = add_spec(v, ws[0]);
        lemma_adds_keep_focus(v1, ws.drop_first());
        assert forall|i: int| 0 <= i < v.windows.len() implies #[trigger] adds_from(v, ws).windows[i] == v.windows[i] by {
            assert(v1.windows[i] == v.windows[i]);
        }
        assert forall|i: int| v.windows.len() <= i < v.windows.len() + ws.len() implies !(#[trigger] adds_from(v, ws).windows[i]).is_focused by {
            if i == v.windows.len() {
                assert(adds_from(v, ws).windows[i] == v1.windows[i]);
            }
        }
    }
}

/// Adding windows one after another to an empty stack focuses the first one
/// added (when it is shown) and no other, and the result is well formed.
pub proof fn lemma_first_added_is_focused(ws: Seq<Window>)
    requires
        1 <= ws.len() <= usize::MAX,
        !ws[0].is_minimized,
    ensures
        ({
            let r = adds_from(StackView { windows: Seq::empty(), focused: None }, ws);
            &&& r.focused == Some(0usize)
            &&& r.windows.len() == ws.len()
            &&& forall|i: int| 0 <= i < r.windows.len() ==> #[trigger] r.windows[i].is_focused == (i == 0)
            &&& stack_wf(r)
        }),
{
    let v0 = StackView { windows: Seq::empty(), focused: None };
    let v1 = add_spec(v0, ws[0]);
    assert(adds_from(v0, ws) == adds_from(v1, ws.drop_first()));
    lemma_adds_keep_focus(v1, ws.drop_first());
    let r = adds_from(v0, ws);
    assert(r.windows[0] == v1.windows[0]);
    assert forall|i: int| 0 <= i < r.windows.len() implies #[trigger] r.windows[i].is_focused == (i == 0) by {
        if i > 0 {
            assert(1 <= i < 1 + ws.drop_first().len());
        }
    }
}

/// Closing the focused window of a stack that holds more than one leaves the
/// focus on a shown window; when the window just below the closed one (or the
/// bottom one, if the closed one was at the bottom) is shown, it takes the focus.
pub proof fn lemma_close_focused_refocuses(v: StackView, index: usize)
    requires
        stack_wf(v),
        v.windows.len() > 1,
        v.focused == Some(index),
        v.windows.len() <= usize::MAX,
    ensures
        ({
            let r = close_spec(v, index);
            let pref: int = if index > 0 {
                index - 1
            } else {
                0
            };
            &&& stack_wf(r)
            &&& r.windows.len() == v.windows.len() - 1
            &&& (r.focused matches Some(j) ==> j < r.windows.len() && !r.windows[j as int].is_minimized)
            &&& (!r.windows[pref].is_minimized ==> r.focused == Some(pref as usize))
        }),
{
    let rest = v.windows.remove(index as int);
    lemma_first_visible_is_shown(rest, 0);
}

/// Every index that [`back_layers`] lists is below `n` and not the focused one.
pub proof fn lemma_back_layers_exclude_focus(v: StackView, n: int)
    requires
        0 <= n <= v.windows.len(),
        v.windows.len() <= usize::MAX,
    ensures
        forall|k: int|
            0 <= k < back_layers(v, n).len() ==> (#[trigger] back_layers(v, n)[k]) < n && v.focused != Some(
                back_layers(v, n)[k],
            ),
    decreases n,
{
    if n > 0 {
        lemma_back_layers_exclude_focus(v, n - 1);
        let prev = back_layers(v, n - 1);
        let cur = back_layers(v, n);
        assert forall|k: int| 0 <= k < cur.len() implies (#[trigger] cur[k]) < n && v.focused != Some(cur[k]) by {
            if k < prev.len() {
                assert(cur[k] == prev[k]);
            } else {
                assert(cur[k] == (n - 1) as usize);
            }
        }
    }
}

/// Drawing emits the focused window after every other window: the primitives
/// appended end with the focused window's own.
pub proof fn lemma_focused_drawn_last(v: StackView)
    requires
        stack_wf(v),
        v.windows.len() <= usize::MAX,
    ensures
        v.focused matches Some(f) ==> {
            let order = draw_order(v);
            &&& order.len() >= 1
            &&& order.last() == f
            &&& forall|k: int| 0 <= k < order.len() - 1 ==> #[trigger] order[k] != f
            &&& order_shapes(v.windows, order) == order_shapes(v.windows, order.drop_last())
                + window_shapes(v.windows[f as int])
        },
{
    lemma_back_layers_exclude_focus(v, v.windows.len() as int);
    if let Some(f) = v.focused {
        let order = draw_order(v);
        let back = back_layers(v, v.windows.len() as int);
        assert(order == back.push(f));
        assert forall|k: int| 0 <= k < order.len() - 1 implies #[trigger] order[k] != f by {
            assert(order[k] == back[k]);
        }
    }
}

} // verus!
