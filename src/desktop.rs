//! The desktop shell: owns the window stack, the overlays and the notification
//! queue, runs the scripted events of each frame and plans the compositing
//! order.
use vstd::prelude::*;
use crate::graphics::{
    Color, DrawOp, SCREEN_HEIGHT, SCREEN_WIDTH, Shape, push_op, push_outline, push_rect,
    push_rounded_rect, push_text, rgb, shapes, string_of,
};
use crate::mission_control::{MissionControl, PROGRESS_FULL, PROGRESS_STEP, switcher_shapes};
use crate::notifications::{NotificationCenter, Notification, aged, queue_shapes, stack_y};
use crate::spotlight::{Spotlight, search_shapes};
use crate::window_manager::{
    ContentKind, DOCK_HEIGHT, MENU_BAR_HEIGHT, Window, WindowManager, draw_order, order_shapes,
};

verus! {

/// A notification that the shell posts on its own.
#[derive(Clone, Copy, Debug, PartialEq, Eq, Structural)]
pub enum Notice {
    Welcome,
    SystemReady,
    MemoryUpdate,
    NetworkStatus,
}

pub open spec fn notice_title(n: Notice) -> Seq<char> {
    match n {
        Notice::Welcome => "Welcome to RustOS"@,
        Notice::SystemReady => "System Ready"@,
        Notice::MemoryUpdate => "Memory Update"@,
        Notice::NetworkStatus => "Network Status"@,
    }
}

pub open spec fn notice_message(n: Notice) -> Seq<char> {
    match n {
        Notice::Welcome => "macOS-inspired operating system"@,
        Notice::SystemReady => "All services loaded successfully"@,
        Notice::MemoryUpdate => "Available: 847MB of 1024MB"@,
        Notice::NetworkStatus => "Connected to RustOS Network"@,
    }
}

impl Notice {
    pub fn title(self) -> (s: &'static str)
        ensures
            s@ == notice_title(self),
    {
        match self {
            Notice::Welcome => "Welcome to RustOS",
            Notice::SystemReady => "System Ready",
            Notice::MemoryUpdate => "Memory Update",
            Notice::NetworkStatus => "Network Status",
        }
    }

    pub fn message(self) -> (s: &'static str)
        ensures
            s@ == notice_message(self),
    {
        match self {
            Notice::Welcome => "macOS-inspired operating system",
            Notice::SystemReady => "All services loaded successfully",
            Notice::MemoryUpdate => "Available: 847MB of 1024MB",
            Notice::NetworkStatus => "Connected to RustOS Network",
        }
    }
}

/// Something that changes the shell's overlays or posts a notification.
#[derive(Clone, Copy, Debug, PartialEq, Eq, Structural)]
pub enum ShellEvent {
    ShowSearch,
    TypeChar(char),
    HideSearch,
    ShowSwitcher,
    HideSwitcher,
    ShowModal,
    HideModal,
    Notify(Notice),
}

/// The input that the script feeds in at frame `tick`.
pub open spec fn input_script(tick: u64) -> Seq<ShellEvent> {
    if tick == 180 {
        seq![
            ShellEvent::ShowSearch,
            ShellEvent::TypeChar('t'),
            ShellEvent::TypeChar('e'),
            ShellEvent::TypeChar('r'),
        ]
    } else if tick == 240 {
        seq![ShellEvent::HideSearch]
    } else if tick == 420 {
        seq![ShellEvent::ShowSwitcher]
    } else if tick == 480 {
        seq![ShellEvent::HideSwitcher]
    } else if tick == 540 {
        seq![ShellEvent::ShowModal]
    } else if tick == 660 {
        seq![ShellEvent::HideModal]
    } else {
        Seq::empty()
    }
}

/// The notifications that the script posts at frame `tick`.
pub open spec fn notice_script(tick: u64) -> Seq<ShellEvent> {
    if tick == 300 {
        seq![ShellEvent::Notify(Notice::MemoryUpdate)]
    } else if tick == 600 {
        seq![ShellEvent::Notify(Notice::NetworkStatus)]
    } else {
        Seq::empty()
    }
}

/// The scripted input events of frame `tick`, in the order they apply.
pub fn scheduled_input(tick: u64) -> (es: Vec<ShellEvent>)
    ensures
        es@ == input_script(tick),
{
    let mut es: Vec<ShellEvent> = Vec::new();
    if tick == 180 {
        es.push(ShellEvent::ShowSearch);
        es.push(ShellEvent::TypeChar('t'));
        es.push(ShellEvent::TypeChar('e'));
        es.push(ShellEvent::TypeChar('r'));
    } else if tick == 240 {
        es.push(ShellEvent::HideSearch);
    } else if tick == 420 {
        es.push(ShellEvent::ShowSwitcher);
    } else if tick == 480 {
        es.push(ShellEvent::HideSwitcher);
    } else if tick == 540 {
        es.push(ShellEvent::ShowModal);
    } else if tick == 660 {
        es.push(ShellEvent::HideModal);
    }
    assert(es@ =~= input_script(tick));
    es
}

/// The scripted notifications of frame `tick`.
pub fn scheduled_notices(tick: u64) -> (es: Vec<ShellEvent>)
    ensures
        es@ == notice_script(tick),
{
    let mut es: Vec<ShellEvent> = Vec::new();
    if tick == 300 {
        es.push(ShellEvent::Notify(Notice::MemoryUpdate));
    } else if tick == 600 {
        es.push(ShellEvent::Notify(Notice::NetworkStatus));
    }
    assert(es@ =~= notice_script(tick));
    es
}

/// The visible state of the overlays.
pub struct Overlays {
    pub search: bool,
    pub query: Seq<char>,
    pub selected: usize,
    pub switcher: bool,
    pub modal: bool,
}

pub open spec fn after_event(o: Overlays, e: ShellEvent) -> Overlays {
    match e {
        ShellEvent::ShowSearch => Overlays { search: true, query: Seq::empty(), selected: 0, ..o },
        ShellEvent::TypeChar(c) => Overlays { query: o.query.push(c), selected: 0, ..o },
        ShellEvent::HideSearch => Overlays { search: false, ..o },
        ShellEvent::ShowSwitcher => Overlays { switcher: true, ..o },
        ShellEvent::HideSwitcher => Overlays { switcher: false, ..o },
        ShellEvent::ShowModal => Overlays { modal: true, ..o },
        ShellEvent::HideModal => Overlays { modal: false, ..o },
        ShellEvent::Notify(_) => o,
    }
}

/// The overlays after the events of `es`, first to last.
pub open spec fn after_events(o: Overlays, es: Seq<ShellEvent>) -> Overlays
    decreases es.len(),
{
    if es.len() == 0 {
        o
    } else {
        after_event(after_events(o, es.drop_last()), es.last())
    }
}

/// `new` is `old` with one notification more, posting `n` at the position that
/// the length of `old` gives.
pub open spec fn posted(old: Seq<Notification>, new: Seq<Notification>, n: Notice) -> bool {
    &&& new.len() == old.len() + 1
    &&& new.drop_last() == old
    &&& new.last().title@ == notice_title(n)
    &&& new.last().message@ == notice_message(n)
    &&& new.last().y == stack_y(old.len() as usize)
    &&& new.last().age == 0
}

/// The notifications that the events of `es` post, in order, after `old`.
pub open spec fn posts_all(old: Seq<Notification>, new: Seq<Notification>, es: Seq<ShellEvent>) -> bool
    decreases es.len(),
{
    if es.len() == 0 {
        new == old
    } else {
        match es.last() {
            ShellEvent::Notify(n) => new.len() > 0 && posted(new.drop_last(), new, n)
                && posts_all(old, new.drop_last(), es.drop_last()),
            _ => posts_all(old, new, es.drop_last()),
        }
    }
}

/// Events that post nothing leave the queue as it was.
pub proof fn lemma_posts_nothing(old: Seq<Notification>, new: Seq<Notification>, es: Seq<ShellEvent>)
    requires
        posts_all(old, new, es),
        forall|i: int| 0 <= i < es.len() ==> !(#[trigger] es[i] is Notify),
    ensures
        new == old,
    decreases es.len(),
{
    if es.len() > 0 {
        assert(!(es[es.len() - 1] is Notify));
        lemma_posts_nothing(old, new, es.drop_last());
    }
}

/// Which part of a frame was drawn.
#[derive(Clone, Copy, Debug, PartialEq, Eq, Structural)]
pub enum Layer {
    Wallpaper,
    Switcher,
    Windows,
    MenuBar,
    Dock,
    Search,
    Notifications,
    Modal,
    Pointer,
}

/// The parts of a frame in the order they are drawn. The workspace switcher
/// replaces the whole desktop; the search panel and the modal dialog layer over
/// it, the modal topmost.
pub open spec fn layer_plan(switcher: bool, search: bool, modal: bool) -> Seq<Layer> {
    if switcher {
        seq![Layer::Wallpaper, Layer::Switcher]
    } else {
        seq![Layer::Wallpaper, Layer::Windows, Layer::MenuBar, Layer::Dock] + (if search {
            seq![Layer::Search]
        } else {
            Seq::empty()
        }) + seq![Layer::Notifications] + (if modal {
            seq![Layer::Modal]
        } else {
            Seq::empty()
        }) + seq![Layer::Pointer]
    }
}

/// While the switcher is shown, no window, menu bar or dock is drawn.
pub proof fn lemma_switcher_replaces_desktop(search: bool, modal: bool)
    ensures
        !layer_plan(true, search, modal).contains(Layer::Windows),
        !layer_plan(true, search, modal).contains(Layer::MenuBar),
        !layer_plan(true, search, modal).contains(Layer::Dock),
        layer_plan(true, search, modal).contains(Layer::Switcher),
{
    let p = layer_plan(true, search, modal);
    assert(p[1] == Layer::Switcher);
}

/// Without the switcher, the windows come before every overlay, and the modal
/// dialog comes after the search panel and the notifications.
pub proof fn lemma_modal_topmost(search: bool)
    ensures
        layer_plan(false, search, true)[1] == Layer::Windows,
        layer_plan(false, search, true).len() >= 2,
        layer_plan(false, search, true)[layer_plan(false, search, true).len() - 2] == Layer::Modal,
        layer_plan(false, search, true).last() == Layer::Pointer,
{
}

/// Titles of the windows that the shell opens at start-up.
pub open spec fn starter_title(k: int) -> Seq<char> {
    if k == 0 {
        "Finder"@
    } else if k == 1 {
        "Terminal \u{2014} zsh \u{2014} 80\u{d7}24"@
    } else if k == 2 {
        "System Preferences"@
    } else {
        "Safari \u{2014} RustOS Documentation"@
    }
}

/// The start-up window `k`: its title, content, rectangle and background.
pub open spec fn is_starter(w: Window, k: int) -> bool {
    &&& w.title@ == starter_title(k)
    &&& !w.is_minimized
    &&& !w.is_maximized
    &&& if k == 0 {
        w.content == ContentKind::Finder && w.x == 80 && w.y == 80 && w.width == 500 && w.height
            == 350 && w.background_color == rgb(255, 255, 255)
    } else if k == 1 {
        w.content == ContentKind::Terminal && w.x == 200 && w.y == 120 && w.width == 450
            && w.height == 300 && w.background_color == rgb(40, 44, 52)
    } else if k == 2 {
        w.content == ContentKind::Preferences && w.x == 150 && w.y == 200 && w.width == 400
            && w.height == 350 && w.background_color == rgb(248, 248, 248)
    } else {
        w.content == ContentKind::Browser && w.x == 120 && w.y == 60 && w.width == 520 && w.height
            == 400 && w.background_color == rgb(255, 255, 255)
    }
}

/// Number of windows that the shell opens at start-up.
pub const STARTER_WINDOWS: usize = 4;

pub struct Desktop {
    pub window_manager: WindowManager,
    pub notification_center: NotificationCenter,
    pub spotlight: Spotlight,
    pub mission_control: MissionControl,
    pub wallpaper_color: Color,
    pub menu_bar_height: usize,
    pub dock_height: usize,
    pub dock_y: usize,
    pub time_counter: u64,
    pub mouse_x: usize,
    pub mouse_y: usize,
    pub show_about_dialog: bool,
}

impl Desktop {
    pub open spec fn wf(&self) -> bool {
        &&& self.window_manager.wf()
        &&& self.notification_center.wf()
        &&& self.spotlight.wf()
        &&& self.mission_control.wf()
    }

    pub open spec fn overlays(&self) -> Overlays {
        Overlays {
            search: self.spotlight@.visible,
            query: self.spotlight@.query,
            selected: self.spotlight@.selected,
            switcher: self.mission_control.is_visible,
            modal: self.show_about_dialog,
        }
    }

    pub fn new() -> (d: Self)
        ensures
            d.wf(),
            d.window_manager@.windows.len() == 0,
            d.window_manager@.focused == None::<usize>,
            d.notification_center@.len() == 0,
            d.overlays() == (Overlays {
                search: false,
                query: Seq::empty(),
                selected: 0,
                switcher: false,
                modal: false,
            }),
            d.time_counter == 0,
            d.menu_bar_height == MENU_BAR_HEIGHT,
            d.dock_height == DOCK_HEIGHT,
            d.dock_y == SCREEN_HEIGHT - DOCK_HEIGHT,
            d.wallpaper_color == rgb(30, 130, 180),
            d.mouse_x == 320,
            d.mouse_y == 240,
    {
        Desktop {
            window_manager: WindowManager::new(),
            notification_center: NotificationCenter::new(),
            spotlight: Spotlight::new(),
            mission_control: MissionControl::new(),
            wallpaper_color: Color::new(30, 130, 180),
            menu_bar_height: MENU_BAR_HEIGHT,
            dock_height: DOCK_HEIGHT,
            dock_y: SCREEN_HEIGHT - DOCK_HEIGHT,
            time_counter: 0,
            mouse_x: 320,
            mouse_y: 240,
            show_about_dialog: false,
        }
    }

    /// Posts notification `n` below those queued.
    fn post(&mut self, n: Notice)
        requires
            old(self).wf(),
        ensures
            final(self).wf(),
            posted(old(self).notification_center@, final(self).notification_center@, n),
            final(self).window_manager@ == old(self).window_manager@,
            final(self).overlays() == old(self).overlays(),
            final(self).mission_control.animation_progress == old(self).mission_control.animation_progress,
            final(self).spotlight@ == old(self).spotlight@,
            final(self).time_counter == old(self).time_counter,
    {
        self.notification_center.show_notification(n.title().to_owned(), n.message().to_owned());
    }

    /// Applies one event to the overlays or the notification queue.
    pub fn apply_event(&mut self, e: ShellEvent)
        requires
            old(self).wf(),
        ensures
            final(self).wf(),
            final(self).overlays() == after_event(old(self).overlays(), e),
            match e {
                ShellEvent::Notify(n) => posted(
                    old(self).notification_center@,
                    final(self).notification_center@,
                    n,
                ),
                _ => final(self).notification_center@ == old(self).notification_center@,
            },
            e is Notify ==> final(self).mission_control.animation_progress
                == old(self).mission_control.animation_progress,
            e is Notify ==> final(self).spotlight@ == old(self).spotlight@,
            final(self).window_manager@ == old(self).window_manager@,
            final(self).time_counter == old(self).time_counter,
    {
        match e {
            ShellEvent::ShowSearch => self.spotlight.show(),
            ShellEvent::TypeChar(c) => self.spotlight.add_character(c),
            ShellEvent::HideSearch => self.spotlight.close(),
            ShellEvent::ShowSwitcher => self.mission_control.show(),
            ShellEvent::HideSwitcher => self.mission_control.close(),
            ShellEvent::ShowModal => self.show_about_dialog = true,
            ShellEvent::HideModal => self.show_about_dialog = false,
            ShellEvent::Notify(n) => self.post(n),
        }
        assert(final(self).overlays() == after_event(old(self).overlays(), e)) by {
            assert(self.overlays().query =~= after_event(old(self).overlays(), e).query);
        }
    }

    /// Applies the events of `es` in order.
    pub fn apply_events(&mut self, es: &Vec<ShellEvent>)
        requires
            old(self).wf(),
        ensures
            final(self).wf(),
            final(self).overlays() == after_events(old(self).overlays(), es@),
            posts_all(old(self).notification_center@, final(self).notification_center@, es@),
            (forall|i: int| 0 <= i < es@.len() ==> (#[trigger] es@[i] is Notify))
                ==> final(self).mission_control.animation_progress
                == old(self).mission_control.animation_progress
                && final(self).spotlight@ == old(self).spotlight@,
            final(self).window_manager@ == old(self).window_manager@,
            final(self).time_counter == old(self).time_counter,
    {
        let mut i: usize = 0;
        while i < es.len()
            invariant
                0 <= i <= es@.len(),
                self.wf(),
                self.overlays() == after_events(old(self).overlays(), es@.take(i as int)),
                posts_all(old(self).notification_center@, self.notification_center@, es@.take(i as int)),
                (forall|j: int| 0 <= j < es@.len() ==> (#[trigger] es@[j] is Notify))
                    ==> self.mission_control.animation_progress
                    == old(self).mission_control.animation_progress
                    && self.spotlight@ == old(self).spotlight@,
                self.window_manager@ == old(self).window_manager@,
                self.time_counter == old(self).time_counter,
            decreases es@.len() - i,
        {
            let ghost before = self.notification_center@;
            self.apply_event(es[i]);
            proof {
                assert(es@.take(i + 1).drop_last() =~= es@.take(i as int));
                assert(es@.take(i + 1).last() == es@[i as int]);
            }
            i = i + 1;
        }
        assert(es@.take(es@.len() as int) =~= es@);
    }

    /// Feeds in the scripted input of the current frame.
    pub fn handle_events(&mut self)
        requires
            old(self).wf(),
        ensures
            final(self).wf(),
            final(self).overlays() == after_events(
                old(self).overlays(),
                input_script(old(self).time_counter),
            ),
            final(self).notification_center@ == old(self).notification_center@,
            final(self).window_manager@ == old(self).window_manager@,
            final(self).time_counter == old(self).time_counter,
    {
        let es = scheduled_input(self.time_counter);
        self.apply_events(&es);
        proof {
            lemma_posts_nothing(old(self).notification_center@, self.notification_center@, es@);
        }
    }

    /// Opens the start-up windows and posts the start-up notifications. On a
    /// fresh shell the first window is the focused one and the notifications
    /// stack downward.
    pub fn init(&mut self)
        requires
            old(self).wf(),
        ensures
            final(self).wf(),
            ({
                let o = old(self).window_manager@;
                let n = final(self).window_manager@;
                &&& n.windows.len() == o.windows.len() + STARTER_WINDOWS
                &&& forall|i: int| 0 <= i < o.windows.len() ==> #[trigger] n.windows[i] == o.windows[i]
                &&& forall|k: int|
                    0 <= k < STARTER_WINDOWS ==> is_starter(
                        #[trigger] n.windows[o.windows.len() + k],
                        k,
                    )
                &&& o.windows.len() == 0 ==> n.focused == Some(0usize) && forall|i: int|
                    0 <= i < n.windows.len() ==> #[trigger] n.windows[i].is_focused == (i == 0)
                &&& o.windows.len() > 0 ==> n.focused == o.focused
            }),
            posts_all(
                old(self).notification_center@,
                final(self).notification_center@,
                seq![ShellEvent::Notify(Notice::Welcome), ShellEvent::Notify(Notice::SystemReady)],
            ),
            final(self).overlays() == old(self).overlays(),
            final(self).time_counter == old(self).time_counter,
    {
        self.create_sample_windows();
        let ghost q0 = self.notification_center@;
        self.post(Notice::Welcome);
        let ghost q1 = self.notification_center@;
        self.post(Notice::SystemReady);
        proof {
            let es = seq![ShellEvent::Notify(Notice::Welcome), ShellEvent::Notify(Notice::SystemReady)];
            assert(es.drop_last() =~= seq![ShellEvent::Notify(Notice::Welcome)]);
            assert(es.drop_last().drop_last() =~= Seq::<ShellEvent>::empty());
            assert(posts_all(q0, q0, Seq::<ShellEvent>::empty()));
            assert(posts_all(q0, q1, es.drop_last()));
        }
    }

    fn create_sample_windows(&mut self)
        requires
            old(self).wf(),
        ensures
            final(self).wf(),
            ({
                let o = old(self).window_manager@;
                let n = final(self).window_manager@;
                &&& n.windows.len() == o.windows.len() + STARTER_WINDOWS
                &&& forall|i: int| 0 <= i < o.windows.len() ==> #[trigger] n.windows[i] == o.windows[i]
                &&& forall|k: int|
                    0 <= k < STARTER_WINDOWS ==> is_starter(
                        #[trigger] n.windows[o.windows.len() + k],
                        k,
                    )
                &&& o.windows.len() == 0 ==> n.focused == Some(0usize) && forall|i: int|
                    0 <= i < n.windows.len() ==> #[trigger] n.windows[i].is_focused == (i == 0)
                &&& o.windows.len() > 0 ==> n.focused == o.focused
            }),
            final(self).notification_center@ == old(self).notification_center@,
            final(self).overlays() == old(self).overlays(),
            final(self).time_counter == old(self).time_counter,
    {
        let ghost o = self.window_manager@;
        let finder = Window::with_content(
            "Finder".to_owned(),
            ContentKind::Finder,
            80,
            80,
            500,
            350,
            Color::white(),
        );
        self.window_manager.add_window(finder);
        let terminal = Window::with_content(
            "Terminal \u{2014} zsh \u{2014} 80\u{d7}24".to_owned(),
            ContentKind::Terminal,
            200,
            120,
            450,
            300,
            Color::new(40, 44, 52),
        );
        self.window_manager.add_window(terminal);
        let preferences = Window::with_content(
            "System Preferences".to_owned(),
            ContentKind::Preferences,
            150,
            200,
            400,
            350,
            Color::new(248, 248, 248),
        );
        self.window_manager.add_window(preferences);
        let safari = Window::with_content(
            "Safari \u{2014} RustOS Documentation".to_owned(),
            ContentKind::Browser,
            120,
            60,
            520,
            400,
            Color::white(),
        );
        self.window_manager.add_window(safari);
        let ghost n = self.window_manager@;
        let ghost l: int = o.windows.len() as int;
        assert(forall|k: int| 0 <= k < STARTER_WINDOWS ==> is_starter(#[trigger] n.windows[l + k], k)) by {
            assert(is_starter(n.windows[l + 0], 0));
            assert(is_starter(n.windows[l + 1], 1));
            assert(is_starter(n.windows[l + 2], 2));
            assert(is_starter(n.windows[l + 3], 3));
        }
    }

    /// Moves the pointer.
    pub fn set_pointer(&mut self, x: usize, y: usize)
        requires
            old(self).wf(),
        ensures
            final(self).wf(),
            final(self).mouse_x == x,
            final(self).mouse_y == y,
            final(self).overlays() == old(self).overlays(),
            final(self).window_manager@ == old(self).window_manager@,
            final(self).notification_center@ == old(self).notification_center@,
            final(self).time_counter == old(self).time_counter,
    {
        self.mouse_x = x;
        self.mouse_y = y;
    }

    /// Advances one frame: the counter, then the switcher's entry transition,
    /// then the notifications (which age and expire), then the scripted
    /// notifications of the new frame.
    pub fn update(&mut self)
        requires
            old(self).wf(),
        ensures
            final(self).wf(),
            final(self).time_counter == if old(self).time_counter < u64::MAX {
                (old(self).time_counter + 1) as u64
            } else {
                old(self).time_counter
            },
            posts_all(
                aged(old(self).notification_center@),
                final(self).notification_center@,
                notice_script(final(self).time_counter),
            ),
            final(self).overlays() == old(self).overlays(),
            final(self).spotlight@ == old(self).spotlight@,
            final(self).window_manager@ == old(self).window_manager@,
            final(self).mission_control.animation_progress == if old(self).mission_control.is_visible
                && old(self).mission_control.animation_progress < PROGRESS_FULL {
                if old(self).mission_control.animation_progress + PROGRESS_STEP > PROGRESS_FULL {
                    PROGRESS_FULL
                } else {
                    (old(self).mission_control.animation_progress + PROGRESS_STEP) as u32
                }
            } else {
                old(self).mission_control.animation_progress
            },
    {
        if self.time_counter < u64::MAX {
            self.time_counter = self.time_counter + 1;
        }
        self.mission_control.update();
        self.notification_center.update();
        let es = scheduled_notices(self.time_counter);
        let ghost mid = self.overlays();
        self.apply_events(&es);
        proof {
            lemma_notices_keep_overlays(mid, es@);
        }
    }
}

/// Notifications leave the overlays alone.
pub proof fn lemma_notices_keep_overlays(o: Overlays, es: Seq<ShellEvent>)
    requires
        forall|i: int| 0 <= i < es.len() ==> (#[trigger] es[i] is Notify),
    ensures
        after_events(o, es) == o,
    decreases es.len(),
{
    if es.len() > 0 {
        assert(es[es.len() - 1] is Notify);
        lemma_notices_keep_overlays(o, es.drop_last());
    }
}

/// The decimal digit `d` as a character.
pub open spec fn digit_char(d: int) -> char {
    seq!['0', '1', '2', '3', '4', '5', '6', '7', '8', '9'][d]
}

pub open spec fn two_digits(n: int) -> Seq<char> {
    seq![digit_char(n / 10), digit_char(n % 10)]
}

/// `n` (below one hundred) in decimal without leading zeros.
pub open spec fn number_chars(n: int) -> Seq<char> {
    if n >= 10 {
        two_digits(n)
    } else {
        seq![digit_char(n)]
    }
}

/// The menu bar clock at frame `tick`: a twelve-hour time that starts at noon
/// and advances one second per frame.
pub open spec fn clock_chars(tick: u64) -> Seq<char> {
    let h = (tick / 3600) % 24 + 12;
    let m = (tick / 60) % 60;
    let s = tick % 60;
    let pm = h > 12;
    number_chars(if pm {
        h - 12
    } else {
        h
    }) + seq![':'] + two_digits(m as int) + seq![':'] + two_digits(s as int) + if pm {
        seq![' ', 'P', 'M']
    } else {
        seq![' ', 'A', 'M']
    }
}

fn digit(d: u64) -> (c: char)
    requires
        d < 10,
    ensures
        c == digit_char(d as int),
{
    match d {
        0 => '0',
        1 => '1',
        2 => '2',
        3 => '3',
        4 => '4',
        5 => '5',
        6 => '6',
        7 => '7',
        8 => '8',
        _ => '9',
    }
}

/// The channel value `v` scaled by `keep` sixteen-hundredths, rounded down.
fn shade(v: u8, keep: u32) -> (r: u8)
    requires
        keep <= 1600,
    ensures
        r == v * keep / 1600,
{
    let wide: u32 = v as u32;
    assert(wide * keep <= 255 * 1600) by (nonlinear_arith)
        requires wide <= 255, keep <= 1600;
    assert(wide * keep / 1600 <= 255) by (nonlinear_arith)
        requires wide * keep <= 255 * 1600;
    (wide * keep / 1600) as u8
}

/// The text of the menu bar clock at frame `tick`.
pub fn clock_text(tick: u64) -> (s: String)
    ensures
        s@ == clock_chars(tick),
{
    let h = (tick / 3600) % 24 + 12;
    let m = (tick / 60) % 60;
    let sec = tick % 60;
    let pm = h > 12;
    let shown = if pm {
        h - 12
    } else {
        h
    };
    let mut cs: Vec<char> = Vec::new();
    if shown >= 10 {
        cs.push(digit(shown / 10));
        cs.push(digit(shown % 10));
    } else {
        cs.push(digit(shown));
    }
    cs.push(':');
    cs.push(digit(m / 10));
    cs.push(digit(m % 10));
    cs.push(':');
    cs.push(digit(sec / 10));
    cs.push(digit(sec % 10));
    cs.push(' ');
    if pm {
        cs.push('P');
    } else {
        cs.push('A');
    }
    cs.push('M');
    assert(cs@ =~= clock_chars(tick));
    string_of(&cs)
}

impl Desktop {
    /// Appends one frame and returns its parts in the order drawn, as
    /// [`layer_plan`] gives them; the primitives appended are those of each
    /// part in that order.
    pub fn draw(&self, ops: &mut Vec<DrawOp>) -> (layers: Vec<Layer>)
        ensures
            layers@ == layer_plan(
                self.mission_control.is_visible,
                self.spotlight@.visible,
                self.show_about_dialog,
            ),
            shapes(final(ops)@) == shapes(old(ops)@) + frame_shapes(*self, layers@),
    {
        let mut layers: Vec<Layer> = Vec::new();
        assert(shapes(ops@) =~= shapes(old(ops)@) + frame_shapes(*self, layers@));
        let ghost before = ops@;
        self.draw_wallpaper(ops);
        proof {
            lemma_frame_push(*self, layers@, Layer::Wallpaper, shapes(old(ops)@), shapes(before), shapes(ops@));
        }
        layers.push(Layer::Wallpaper);
        if self.mission_control.is_visible {
            let ghost before = ops@;
            self.mission_control.draw(ops);
            proof {
                lemma_frame_push(*self, layers@, Layer::Switcher, shapes(old(ops)@), shapes(before), shapes(ops@));
            }
            layers.push(Layer::Switcher);
            assert(layers@ =~= layer_plan(true, self.spotlight@.visible, self.show_about_dialog));
            return layers;
        }
        let ghost before = ops@;
        let _ = self.window_manager.draw_all(ops);
        proof {
            lemma_frame_push(*self, layers@, Layer::Windows, shapes(old(ops)@), shapes(before), shapes(ops@));
        }
        layers.push(Layer::Windows);
        let ghost before = ops@;
        self.draw_menu_bar(ops);
        proof {
            lemma_frame_push(*self, layers@, Layer::MenuBar, shapes(old(ops)@), shapes(before), shapes(ops@));
        }
        layers.push(Layer::MenuBar);
        let ghost before = ops@;
        self.draw_dock(ops);
        proof {
            lemma_frame_push(*self, layers@, Layer::Dock, shapes(old(ops)@), shapes(before), shapes(ops@));
        }
        layers.push(Layer::Dock);
        if self.spotlight.is_visible() {
            let ghost before = ops@;
            self.spotlight.draw(ops);
            proof {
                lemma_frame_push(*self, layers@, Layer::Search, shapes(old(ops)@), shapes(before), shapes(ops@));
            }
            layers.push(Layer::Search);
        }
        let ghost before = ops@;
        self.notification_center.draw(ops);
        proof {
            lemma_frame_push(*self, layers@, Layer::Notifications, shapes(old(ops)@), shapes(before), shapes(ops@));
        }
        layers.push(Layer::Notifications);
        if self.show_about_dialog {
            let ghost before = ops@;
            self.draw_about_dialog(ops);
            proof {
                lemma_frame_push(*self, layers@, Layer::Modal, shapes(old(ops)@), shapes(before), shapes(ops@));
            }
            layers.push(Layer::Modal);
        }
        let ghost before = ops@;
        push_op(ops, DrawOp::Pointer { x: self.mouse_x, y: self.mouse_y });
        assert(shapes(ops@) =~= shapes(before) + layer_shapes(*self, Layer::Pointer));
        proof {
            lemma_frame_push(*self, layers@, Layer::Pointer, shapes(old(ops)@), shapes(before), shapes(ops@));
        }
        layers.push(Layer::Pointer);
        assert(layers@ =~= layer_plan(false, self.spotlight@.visible, self.show_about_dialog));
        layers
    }

    /// A vertical gradient that darkens the wallpaper color by up to three
    /// tenths toward the bottom, with a few decorative shapes over it.
    fn draw_wallpaper(&self, ops: &mut Vec<DrawOp>)
        ensures
            shapes(final(ops)@) == shapes(old(ops)@) + wallpaper_shapes(*self),
    {
        let c = self.wallpaper_color;
        let mut y: usize = 0;
        assert(shapes(ops@) =~= shapes(old(ops)@) + gradient_shapes(c).take(0));
        while y < SCREEN_HEIGHT
            invariant
                y <= SCREEN_HEIGHT,
                c == self.wallpaper_color,
                shapes(ops@) == shapes(old(ops)@) + gradient_shapes(c).take(y as int),
            decreases SCREEN_HEIGHT - y,
        {
            let keep: u32 = 1600 - y as u32;
            let r = shade(c.r, keep);
            let g = shade(c.g, keep);
            let b = shade(c.b, keep);
            push_rect(ops, 0, y, SCREEN_WIDTH, 1, Color::new(r, g, b));
            assert(gradient_shapes(c).take(y + 1) =~= gradient_shapes(c).take(y as int).push(
                gradient_shapes(c)[y as int],
            ));
            y = y + 1;
        }
        assert(gradient_shapes(c).take(SCREEN_HEIGHT as int) =~= gradient_shapes(c));
        push_rounded_rect(ops, 100, 150, 20, 20, Color::white());
        push_rounded_rect(ops, 500, 200, 15, 15, Color::white());
        push_rounded_rect(ops, 300, 350, 25, 25, Color::white());
        push_rounded_rect(ops, 150, 400, 18, 18, Color::white());
        push_rounded_rect(ops, 450, 100, 22, 22, Color::white());
        assert(shapes(ops@) =~= shapes(old(ops)@) + wallpaper_shapes(*self));
    }

    fn draw_menu_bar(&self, ops: &mut Vec<DrawOp>)
        ensures
            shapes(final(ops)@) == shapes(old(ops)@) + menu_bar_shapes(*self),
    {
        let bar = self.menu_bar_height;
        push_rect(ops, 0, 0, SCREEN_WIDTH, bar, Color::new(248, 248, 248));
        push_rect(ops, 0, bar.saturating_sub(1), SCREEN_WIDTH, 1, Color::new(220, 220, 220));
        push_text(ops, "RustOS", 40, 8, Color::black());
        push_text(ops, "File", 100, 8, Color::black());
        push_text(ops, "Edit", 152, 8, Color::black());
        push_text(ops, "View", 204, 8, Color::black());
        push_text(ops, "Window", 256, 8, Color::black());
        push_text(ops, "Help", 324, 8, Color::black());
        push_text(ops, "\u{1F50D}", SCREEN_WIDTH - 180, 8, Color::black());
        push_text(ops, "\u{1F4F6}", SCREEN_WIDTH - 160, 8, Color::black());
        push_text(ops, "\u{1F50B}", SCREEN_WIDTH - 140, 8, Color::green());
        let clock = clock_text(self.time_counter);
        push_text(ops, clock.as_str(), SCREEN_WIDTH - 100, 8, Color::black());
        assert(shapes(ops@) =~= shapes(old(ops)@) + menu_bar_shapes(*self));
    }

    /// The dock: its shadow and panel, a separator, then seven application
    /// icons, the first enlarged during the first half of every two seconds.
    fn draw_dock(&self, ops: &mut Vec<DrawOp>)
        ensures
            shapes(final(ops)@) == shapes(old(ops)@) + dock_shapes(*self),
    {
        let dock_y = self.dock_y;
        let dock_h = self.dock_height;
        push_rect(ops, 82, dock_y.saturating_add(2), 480, dock_h.saturating_add(10), Color::black());
        push_rounded_rect(ops, 80, dock_y, 480, dock_h, Color::new(245, 245, 245));
        push_rect(ops, 430, dock_y.saturating_add(10), 2, dock_h.saturating_sub(20), Color::gray());
        let ghost head = shapes(ops@);
        assert(head =~= shapes(old(ops)@) + dock_head(*self));
        let icon_y = dock_y.saturating_add(6);
        let hover = self.time_counter % 120 < 60;
        let mut i: usize = 0;
        while i < DOCK_APPS
            invariant
                i <= DOCK_APPS,
                icon_y == self.dock_y.saturating_add(6),
                hover == (self.time_counter % 120 < 60),
                shapes(ops@) == head + dock_icons(*self, i as int),
            decreases DOCK_APPS - i,
        {
            let x: usize = 100 + i * 58;
            let size: usize = if i == 0 && hover {
                56
            } else {
                48
            };
            push_rounded_rect(ops, x, icon_y, size, size, Color::light_gray());
            push_text(ops, dock_icon(i), x + 16, icon_y.saturating_add(16), Color::black());
            assert(shapes(ops@) =~= head + dock_icons(*self, i + 1));
            i = i + 1;
        }
        assert(shapes(ops@) =~= shapes(old(ops)@) + dock_shapes(*self));
    }

    fn draw_about_dialog(&self, ops: &mut Vec<DrawOp>)
        ensures
            shapes(final(ops)@) == shapes(old(ops)@) + about_shapes(),
    {
        push_rect(ops, 0, 0, SCREEN_WIDTH, SCREEN_HEIGHT, Color::black());
        push_rounded_rect(ops, 120, 90, 400, 300, Color::white());
        push_outline(ops, 120, 90, 400, 300, Color::gray());
        push_rounded_rect(ops, 120, 90, 400, 40, Color::new(245, 245, 245));
        push_text(ops, "About This Mac", 140, 105, Color::black());
        push_rounded_rect(ops, 135, 102, 16, 16, Color::red());
        push_text(ops, "RustOS", 300, 150, Color::black());
        push_text(ops, "Version 1.0.0", 280, 180, Color::gray());
        push_text(ops, "Processor: Custom Rust CPU", 140, 230, Color::black());
        push_text(ops, "Memory: 1024 MB", 140, 250, Color::black());
        push_text(ops, "Graphics: VGA Compatible", 140, 270, Color::black());
        push_text(ops, "Storage: Virtual Disk", 140, 290, Color::black());
        push_rounded_rect(ops, 170, 120, 80, 80, Color::blue());
        push_rounded_rect(ops, 400, 340, 100, 30, Color::blue());
        push_text(ops, "More Info", 420, 350, Color::white());
        assert(shapes(ops@) =~= shapes(old(ops)@) + about_shapes());
    }
}

/// Number of applications in the dock.
pub const DOCK_APPS: usize = 7;

pub open spec fn dock_icon_chars(i: int) -> Seq<char> {
    if i == 0 {
        "\u{1F4C1}"@
    } else if i == 1 {
        "\u{1F310}"@
    } else if i == 2 {
        "\u{1F4E7}"@
    } else if i == 3 {
        "\u{1F4C5}"@
    } else if i == 4 {
        "\u{1F3B5}"@
    } else if i == 5 {
        "\u{1F4F8}"@
    } else {
        "\u{2699}"@
    }
}

/// The glyph of dock application `i`.
fn dock_icon(i: usize) -> (s: &'static str)
    ensures
        s@ == dock_icon_chars(i as int),
{
    if i == 0 {
        "\u{1F4C1}"
    } else if i == 1 {
        "\u{1F310}"
    } else if i == 2 {
        "\u{1F4E7}"
    } else if i == 3 {
        "\u{1F4C5}"
    } else if i == 4 {
        "\u{1F3B5}"
    } else if i == 5 {
        "\u{1F4F8}"
    } else {
        "\u{2699}"
    }
}

/// The channel value `v` scaled by the gradient at row `y`.
pub open spec fn shaded(v: u8, y: int) -> u8 {
    (v * (1600 - y) / 1600) as u8
}

/// One row of wallpaper per screen line, darker toward the bottom.
pub open spec fn gradient_shapes(c: Color) -> Seq<Shape> {
    Seq::new(
        SCREEN_HEIGHT as nat,
        |y: int|
            Shape::Rect {
                x: 0,
                y: y as usize,
                width: SCREEN_WIDTH,
                height: 1,
                color: rgb(shaded(c.r, y), shaded(c.g, y), shaded(c.b, y)),
            },
    )
}

pub open spec fn wallpaper_shapes(d: Desktop) -> Seq<Shape> {
    let white = rgb(255, 255, 255);
    gradient_shapes(d.wallpaper_color) + seq![
        Shape::RoundedRect { x: 100, y: 150, width: 20, height: 20, color: white },
        Shape::RoundedRect { x: 500, y: 200, width: 15, height: 15, color: white },
        Shape::RoundedRect { x: 300, y: 350, width: 25, height: 25, color: white },
        Shape::RoundedRect { x: 150, y: 400, width: 18, height: 18, color: white },
        Shape::RoundedRect { x: 450, y: 100, width: 22, height: 22, color: white },
    ]
}

/// The menu bar: its band and shadow line, the menus, the status icons and
/// the clock.
pub open spec fn menu_bar_shapes(d: Desktop) -> Seq<Shape> {
    let black = rgb(0, 0, 0);
    seq![
        Shape::Rect { x: 0, y: 0, width: SCREEN_WIDTH, height: d.menu_bar_height, color: rgb(248, 248, 248) },
        Shape::Rect { x: 0, y: d.menu_bar_height.saturating_sub(1), width: SCREEN_WIDTH, height: 1, color: rgb(220, 220, 220) },
        Shape::Text { text: "RustOS"@, x: 40, y: 8, color: black },
        Shape::Text { text: "File"@, x: 100, y: 8, color: black },
        Shape::Text { text: "Edit"@, x: 152, y: 8, color: black },
        Shape::Text { text: "View"@, x: 204, y: 8, color: black },
        Shape::Text { text: "Window"@, x: 256, y: 8, color: black },
        Shape::Text { text: "Help"@, x: 324, y: 8, color: black },
        Shape::Text { text: "\u{1F50D}"@, x: 460, y: 8, color: black },
        Shape::Text { text: "\u{1F4F6}"@, x: 480, y: 8, color: black },
        Shape::Text { text: "\u{1F50B}"@, x: 500, y: 8, color: rgb(52, 199, 89) },
        Shape::Text { text: clock_chars(d.time_counter), x: 540, y: 8, color: black },
    ]
}

/// The dock's shadow, panel (480 wide, centred) and separator.
pub open spec fn dock_head(d: Desktop) -> Seq<Shape> {
    seq![
        Shape::Rect { x: 82, y: d.dock_y.saturating_add(2), width: 480, height: d.dock_height.saturating_add(10), color: rgb(0, 0, 0) },
        Shape::RoundedRect { x: 80, y: d.dock_y, width: 480, height: d.dock_height, color: rgb(245, 245, 245) },
        Shape::Rect { x: 430, y: d.dock_y.saturating_add(10), width: 2, height: d.dock_height.saturating_sub(20), color: rgb(128, 128, 128) },
    ]
}

/// Icon `i` of the dock: its tile and glyph.
pub open spec fn dock_icon_shapes(d: Desktop, i: int) -> Seq<Shape> {
    let x = (100 + i * 58) as usize;
    let y = d.dock_y.saturating_add(6);
    let size: usize = if i == 0 && d.time_counter % 120 < 60 {
        56
    } else {
        48
    };
    seq![
        Shape::RoundedRect { x, y, width: size, height: size, color: rgb(240, 240, 245) },
        Shape::Text { text: dock_icon_chars(i), x: (x + 16) as usize, y: y.saturating_add(16), color: rgb(0, 0, 0) },
    ]
}

/// The first `n` dock icons, left to right.
pub open spec fn dock_icons(d: Desktop, n: int) -> Seq<Shape>
    decreases n,
{
    if n <= 0 {
        Seq::empty()
    } else {
        dock_icons(d, n - 1) + dock_icon_shapes(d, n - 1)
    }
}

pub open spec fn dock_shapes(d: Desktop) -> Seq<Shape> {
    dock_head(d) + dock_icons(d, DOCK_APPS as int)
}

/// The modal "About" dialog over a dark backdrop.
pub open spec fn about_shapes() -> Seq<Shape> {
    let black = rgb(0, 0, 0);
    let blue = rgb(0, 122, 255);
    let gray = rgb(128, 128, 128);
    seq![
        Shape::Rect { x: 0, y: 0, width: SCREEN_WIDTH, height: SCREEN_HEIGHT, color: black },
        Shape::RoundedRect { x: 120, y: 90, width: 400, height: 300, color: rgb(255, 255, 255) },
        Shape::Outline { x: 120, y: 90, width: 400, height: 300, color: gray },
        Shape::RoundedRect { x: 120, y: 90, width: 400, height: 40, color: rgb(245, 245, 245) },
        Shape::Text { text: "About This Mac"@, x: 140, y: 105, color: black },
        Shape::RoundedRect { x: 135, y: 102, width: 16, height: 16, color: rgb(255, 59, 48) },
        Shape::Text { text: "RustOS"@, x: 300, y: 150, color: black },
        Shape::Text { text: "Version 1.0.0"@, x: 280, y: 180, color: gray },
        Shape::Text { text: "Processor: Custom Rust CPU"@, x: 140, y: 230, color: black },
        Shape::Text { text: "Memory: 1024 MB"@, x: 140, y: 250, color: black },
        Shape::Text { text: "Graphics: VGA Compatible"@, x: 140, y: 270, color: black },
        Shape::Text { text: "Storage: Virtual Disk"@, x: 140, y: 290, color: black },
        Shape::RoundedRect { x: 170, y: 120, width: 80, height: 80, color: blue },
        Shape::RoundedRect { x: 400, y: 340, width: 100, height: 30, color: blue },
        Shape::Text { text: "More Info"@, x: 420, y: 350, color: rgb(255, 255, 255) },
    ]
}

/// The primitives of one part of the frame.
pub open spec fn layer_shapes(d: Desktop, l: Layer) -> Seq<Shape> {
    match l {
        Layer::Wallpaper => wallpaper_shapes(d),
        Layer::Switcher => switcher_shapes(d.mission_control),
        Layer::Windows => order_shapes(d.window_manager@.windows, draw_order(d.window_manager@)),
        Layer::MenuBar => menu_bar_shapes(d),
        Layer::Dock => dock_shapes(d),
        Layer::Search => search_shapes(d.spotlight),
        Layer::Notifications => queue_shapes(d.notification_center@),
        Layer::Modal => about_shapes(),
        Layer::Pointer => seq![Shape::Pointer { x: d.mouse_x, y: d.mouse_y }],
    }
}

/// The primitives of the parts `ls`, one part after another.
pub open spec fn frame_shapes(d: Desktop, ls: Seq<Layer>) -> Seq<Shape>
    decreases ls.len(),
{
    if ls.len() == 0 {
        Seq::empty()
    } else {
        frame_shapes(d, ls.drop_last()) + layer_shapes(d, ls.last())
    }
}

proof fn lemma_frame_push(d: Desktop, ls: Seq<Layer>, l: Layer, start: Seq<Shape>, before: Seq<Shape>, after: Seq<Shape>)
    requires
        before == start + frame_shapes(d, ls),
        after == before + layer_shapes(d, l),
    ensures
        after == start + frame_shapes(d, ls.push(l)),
{
    assert(ls.push(l).drop_last() =~= ls);
    assert(after =~= start + frame_shapes(d, ls.push(l)));
}

} // verus!
