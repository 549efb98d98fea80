//! The search overlay: a query, the catalog entries it matches, and a cursor
//! over them.
use vstd::prelude::*;
use vstd::string::*;
use crate::graphics::{
    Color, DrawOp, Shape, clamp_usize, push_outline, push_rect, push_rounded_rect, push_text, rgb,
    shapes, string_of,
};

verus! {

/// What `str::to_lowercase` makes of a text.
pub uninterp spec fn lower_of(s: Seq<char>) -> Seq<char>;

/// Relies on `str::to_lowercase`: its result depends on the characters alone.
#[verifier::external_body]
fn lowercase(chars: &Vec<char>) -> (r: Vec<char>)
    ensures
        r@ == lower_of(chars@),
{
    let s: String = chars.iter().collect();
    s.to_lowercase().chars().collect()
}

/// An application that the search can find.
#[derive(Clone, Copy, Debug, PartialEq, Eq, Structural)]
pub enum CatalogApp {
    Terminal,
    Finder,
    SystemPreferences,
}

pub open spec fn app_title(a: CatalogApp) -> Seq<char> {
    match a {
        CatalogApp::Terminal => "Terminal"@,
        CatalogApp::Finder => "Finder"@,
        CatalogApp::SystemPreferences => "System Preferences"@,
    }
}

pub open spec fn app_subtitle(a: CatalogApp) -> Seq<char> {
    match a {
        CatalogApp::Terminal => "Utilities"@,
        CatalogApp::Finder => "System"@,
        CatalogApp::SystemPreferences => "System"@,
    }
}

pub open spec fn app_icon(a: CatalogApp) -> char {
    match a {
        CatalogApp::Terminal => '\u{1F4BB}',
        CatalogApp::Finder => '\u{1F4C1}',
        CatalogApp::SystemPreferences => '\u{2699}',
    }
}

pub open spec fn is_prefix(q: Seq<char>, t: Seq<char>) -> bool {
    q.len() <= t.len() && t.take(q.len() as int) == q
}

/// The catalog entries whose lower-case keywords begin with `q`, in catalog
/// order.
pub open spec fn matching_apps(q: Seq<char>) -> Seq<CatalogApp> {
    (if is_prefix(q, "terminal"@) {
        seq![CatalogApp::Terminal]
    } else {
        Seq::empty()
    }) + (if is_prefix(q, "finder"@) {
        seq![CatalogApp::Finder]
    } else {
        Seq::empty()
    }) + (if is_prefix(q, "system"@) || is_prefix(q, "preferences"@) {
        seq![CatalogApp::SystemPreferences]
    } else {
        Seq::empty()
    })
}

/// The text that the catalog is matched against: an empty query as it is,
/// any other in lower case.
pub open spec fn folded_query(q: Seq<char>) -> Seq<char> {
    if q.len() == 0 {
        q
    } else {
        lower_of(q)
    }
}

pub struct SpotlightResult {
    pub title: String,
    pub subtitle: String,
    pub icon: char,
}

pub open spec fn describes(r: SpotlightResult, a: CatalogApp) -> bool {
    &&& r.title@ == app_title(a)
    &&& r.subtitle@ == app_subtitle(a)
    &&& r.icon == app_icon(a)
}

/// The results list one entry per app, in order.
pub open spec fn lists(rs: Seq<SpotlightResult>, apps: Seq<CatalogApp>) -> bool {
    &&& rs.len() == apps.len()
    &&& forall|i: int| 0 <= i < rs.len() ==> describes(#[trigger] rs[i], apps[i])
}

impl SpotlightResult {
    pub fn for_app(app: CatalogApp) -> (r: Self)
        ensures
            describes(r, app),
    {
        match app {
            CatalogApp::Terminal => SpotlightResult {
                title: "Terminal".to_owned(),
                subtitle: "Utilities".to_owned(),
                icon: '\u{1F4BB}',
            },
            CatalogApp::Finder => SpotlightResult {
                title: "Finder".to_owned(),
                subtitle: "System".to_owned(),
                icon: '\u{1F4C1}',
            },
            CatalogApp::SystemPreferences => SpotlightResult {
                title: "System Preferences".to_owned(),
                subtitle: "System".to_owned(),
                icon: '\u{2699}',
            },
        }
    }
}

/// Whether `q` is a prefix of `key`.
pub fn starts_with_query(key: &str, q: &Vec<char>) -> (r: bool)
    ensures
        r == is_prefix(q@, key@),
{
    let n = key.unicode_len();
    if q.len() > n {
        return false;
    }
    let mut i: usize = 0;
    while i < q.len()
        invariant
            q@.len() <= n == key@.len(),
            0 <= i <= q@.len(),
            forall|j: int| 0 <= j < i ==> key@[j] == q@[j],
        decreases q@.len() - i,
    {
        if key.get_char(i) != q[i] {
            assert(key@.take(q@.len() as int)[i as int] != q@[i as int]);
            return false;
        }
        i = i + 1;
    }
    assert(key@.take(q@.len() as int) =~= q@);
    true
}

/// The catalog entries that an already lower-cased query matches, as results.
pub fn catalog_matches(q: &Vec<char>) -> (rs: Vec<SpotlightResult>)
    ensures
        lists(rs@, matching_apps(q@)),
{
    let mut rs: Vec<SpotlightResult> = Vec::new();
    let ghost apps: Seq<CatalogApp> = Seq::empty();
    if starts_with_query("terminal", q) {
        rs.push(SpotlightResult::for_app(CatalogApp::Terminal));
        proof {
            apps = apps.push(CatalogApp::Terminal);
        }
    }
    if starts_with_query("finder", q) {
        rs.push(SpotlightResult::for_app(CatalogApp::Finder));
        proof {
            apps = apps.push(CatalogApp::Finder);
        }
    }
    if starts_with_query("system", q) || starts_with_query("preferences", q) {
        rs.push(SpotlightResult::for_app(CatalogApp::SystemPreferences));
        proof {
            apps = apps.push(CatalogApp::SystemPreferences);
        }
    }
    assert(apps =~= matching_apps(q@));
    rs
}

/// The state of the search overlay.
pub struct SearchView {
    pub visible: bool,
    pub query: Seq<char>,
    pub results: Seq<SpotlightResult>,
    pub selected: usize,
    pub x: usize,
    pub y: usize,
    pub width: usize,
    pub height: usize,
}

/// The results agree with the query (or, before the overlay is first shown,
/// both are empty), and the cursor points at one of them (or at zero when
/// there are none).
pub open spec fn search_wf(v: SearchView) -> bool {
    &&& (lists(v.results, matching_apps(folded_query(v.query))) || (v.results.len() == 0
        && v.query.len() == 0))
    &&& (v.selected < v.results.len() || (v.results.len() == 0 && v.selected == 0))
}

/// The panel stands where it stood.
pub open spec fn same_place(a: SearchView, b: SearchView) -> bool {
    a.x == b.x && a.y == b.y && a.width == b.width && a.height == b.height
}

/// Where the cursor goes when moved in `direction`: around the list, forward
/// for a positive direction and backward for a negative one.
pub open spec fn moved_selection(selected: usize, len: nat, direction: i32) -> usize {
    if len == 0 || direction == 0 {
        selected
    } else if direction > 0 {
        ((selected + 1) % (len as int)) as usize
    } else if selected == 0 {
        (len - 1) as usize
    } else {
        (selected - 1) as usize
    }
}

/// On a list of one result, moving either way keeps the cursor at zero.
pub proof fn lemma_single_result_stays(direction: i32)
    ensures
        moved_selection(0, 1, direction) == 0,
{
}

pub struct Spotlight {
    is_visible: bool,
    search_query: Vec<char>,
    results: Vec<SpotlightResult>,
    selected_index: usize,
    pub x: usize,
    pub y: usize,
    pub width: usize,
    pub height: usize,
}

impl View for Spotlight {
    type V = SearchView;

    closed spec fn view(&self) -> SearchView {
        SearchView {
            visible: self.is_visible,
            query: self.search_query@,
            results: self.results@,
            selected: self.selected_index,
            x: self.x,
            y: self.y,
            width: self.width,
            height: self.height,
        }
    }
}

impl Spotlight {
    pub open spec fn wf(&self) -> bool {
        search_wf(self@)
    }

    pub fn new() -> (s: Self)
        ensures
            !s@.visible,
            s@.query == Seq::<char>::empty(),
            s@.results == Seq::<SpotlightResult>::empty(),
            s@.selected == 0,
            s@.x == 120 && s@.y == 100 && s@.width == 400 && s@.height == 300,
            s.wf(),
    {
        Spotlight {
            is_visible: false,
            search_query: Vec::new(),
            results: Vec::new(),
            selected_index: 0,
            x: 120,
            y: 100,
            width: 400,
            height: 300,
        }
    }

    pub fn is_visible(&self) -> (r: bool)
        ensures
            r == self@.visible,
    {
        self.is_visible
    }

    pub fn query(&self) -> (q: &Vec<char>)
        ensures
            q@ == self@.query,
    {
        &self.search_query
    }

    pub fn results(&self) -> (rs: &Vec<SpotlightResult>)
        ensures
            rs@ == self@.results,
    {
        &self.results
    }

    pub fn selected_index(&self) -> (i: usize)
        ensures
            i == self@.selected,
    {
        self.selected_index
    }

    /// Opens the overlay with an empty query, which lists the whole catalog.
    pub fn show(&mut self)
        ensures
            lists(final(self)@.results, matching_apps(folded_query(final(self)@.query))),
            same_place(final(self)@, old(self)@),
            final(self)@.visible,
            final(self)@.query == Seq::<char>::empty(),
            final(self)@.selected == 0,
            final(self).wf(),
    {
        self.is_visible = true;
        self.search_query.clear();
        self.update_results();
    }

    /// Closes the overlay; the query and results stay for a later reopening.
    pub fn close(&mut self)
        ensures
            final(self)@ == (SearchView { visible: false, ..old(self)@ }),
    {
        self.is_visible = false;
    }

    pub fn add_character(&mut self, ch: char)
        ensures
            lists(final(self)@.results, matching_apps(folded_query(final(self)@.query))),
            same_place(final(self)@, old(self)@),
            final(self)@.visible == old(self)@.visible,
            final(self)@.query == old(self)@.query.push(ch),
            final(self)@.selected == 0,
            final(self).wf(),
    {
        self.search_query.push(ch);
        self.update_results();
    }

    /// Removes the last character of the query, if there is one.
    pub fn backspace(&mut self)
        ensures
            lists(final(self)@.results, matching_apps(folded_query(final(self)@.query))),
            same_place(final(self)@, old(self)@),
            final(self)@.visible == old(self)@.visible,
            final(self)@.query == if old(self)@.query.len() > 0 {
                old(self)@.query.drop_last()
            } else {
                old(self)@.query
            },
            final(self)@.selected == 0,
            final(self).wf(),
    {
        let _ = self.search_query.pop();
        self.update_results();
    }

    /// Recomputes the results from the query and puts the cursor back at the
    /// top.
    fn update_results(&mut self)
        ensures
            final(self)@ == (SearchView {
                results: final(self)@.results,
                selected: 0,
                ..old(self)@
            }),
            lists(final(self)@.results, matching_apps(folded_query(final(self)@.query))),
            final(self).wf(),
    {
        if self.search_query.len() == 0 {
            self.results = catalog_matches(&self.search_query);
        } else {
            let folded = lowercase(&self.search_query);
            self.results = catalog_matches(&folded);
        }
        self.selected_index = 0;
    }

    /// Moves the cursor around the results; nothing happens when there are
    /// none.
    pub fn move_selection(&mut self, direction: i32)
        requires
            old(self).wf(),
        ensures
            final(self)@ == (SearchView {
                selected: moved_selection(old(self)@.selected, old(self)@.results.len(), direction),
                ..old(self)@
            }),
            final(self).wf(),
    {
        let n = self.results.len();
        if n == 0 {
            return;
        }
        if direction > 0 {
            self.selected_index = (self.selected_index + 1) % n;
        } else if direction < 0 {
            self.selected_index = if self.selected_index == 0 {
                n - 1
            } else {
                self.selected_index - 1
            };
        }
    }

    /// Appends the overlay: a backdrop, the panel with the query and its
    /// cursor, then one row per result, the selected row highlighted in blue.
    /// A hidden overlay draws nothing.
    pub fn draw(&self, ops: &mut Vec<DrawOp>)
        ensures
            shapes(final(ops)@) == shapes(old(ops)@) + search_shapes(*self),
    {
        if !self.is_visible {
            assert(shapes(ops@) =~= shapes(old(ops)@) + search_shapes(*self));
            return;
        }
        let x = self.x;
        let y = self.y;
        let w = self.width;
        let h = self.height;
        let field_w = w.saturating_sub(40);
        push_rect(ops, 0, 0, 640, 480, Color::black());
        push_rounded_rect(ops, x, y, w, h, Color::new(245, 245, 245));
        push_outline(ops, x, y, w, h, Color::new(200, 200, 200));
        push_rounded_rect(ops, x.saturating_add(20), y.saturating_add(20), field_w, 40, Color::white());
        push_outline(ops, x.saturating_add(20), y.saturating_add(20), field_w, 40, Color::new(180, 180, 180));
        push_text(ops, "\u{1F50D}", x.saturating_add(30), y.saturating_add(35), Color::gray());
        let text = string_of(&self.search_query);
        push_text(ops, text.as_str(), x.saturating_add(60), y.saturating_add(35), Color::black());
        let qlen = self.search_query.len();
        let text_w: usize = if qlen <= usize::MAX / 8 {
            qlen * 8
        } else {
            usize::MAX
        };
        assert(text_w == clamp_usize(qlen as int * 8));
        let cursor_x = x.saturating_add(60).saturating_add(text_w);
        push_rect(ops, cursor_x, y.saturating_add(32), 2, 16, Color::blue());
        let ghost head = shapes(ops@);
        assert(head =~= shapes(old(ops)@) + search_head(*self));
        let mut i: usize = 0;
        let mut row_y = y.saturating_add(80);
        while i < self.results.len()
            invariant
                0 <= i <= self@.results.len(),
                self@.results == self.results@,
                row_y == row_top(y, i as int),
                y == self@.y,
                x == self@.x,
                w == self@.width,
                shapes(ops@) == head + rows_shapes(*self, i as int),
            decreases self@.results.len() - i,
        {
            let r = &self.results[i];
            let selected = i == self.selected_index;
            if selected {
                push_rounded_rect(ops, x.saturating_add(10), row_y.saturating_sub(5), w.saturating_sub(20), 40, Color::blue());
            }
            let title_color = if selected {
                Color::white()
            } else {
                Color::black()
            };
            let subtitle_color = if selected {
                Color::new(200, 200, 200)
            } else {
                Color::gray()
            };
            let icon = string_of(&vec![r.icon]);
            push_text(ops, icon.as_str(), x.saturating_add(25), row_y.saturating_add(10), Color::black());
            push_text(ops, r.title.as_str(), x.saturating_add(60), row_y.saturating_add(5), title_color);
            push_text(ops, r.subtitle.as_str(), x.saturating_add(60), row_y.saturating_add(20), subtitle_color);
            assert(icon@ =~= seq![self@.results[i as int].icon]);
            assert(shapes(ops@) =~= head + rows_shapes(*self, i + 1));
            row_y = row_y.saturating_add(50);
            i = i + 1;
        }
    }
}

/// Top of result row `i` of a panel whose top is `y`.
pub open spec fn row_top(y: usize, i: int) -> usize {
    clamp_usize(y + 80 + 50 * i)
}

/// The backdrop, the panel, the search field with its icon, the query and the
/// text cursor after it.
pub open spec fn search_head(s: Spotlight) -> Seq<Shape> {
    let x = s@.x;
    let y = s@.y;
    seq![
        Shape::Rect { x: 0, y: 0, width: 640, height: 480, color: rgb(0, 0, 0) },
        Shape::RoundedRect { x, y, width: s@.width, height: s@.height, color: rgb(245, 245, 245) },
        Shape::Outline { x, y, width: s@.width, height: s@.height, color: rgb(200, 200, 200) },
        Shape::RoundedRect { x: x.saturating_add(20), y: y.saturating_add(20), width: s@.width.saturating_sub(40), height: 40, color: rgb(255, 255, 255) },
        Shape::Outline { x: x.saturating_add(20), y: y.saturating_add(20), width: s@.width.saturating_sub(40), height: 40, color: rgb(180, 180, 180) },
        Shape::Text { text: "\u{1F50D}"@, x: x.saturating_add(30), y: y.saturating_add(35), color: rgb(128, 128, 128) },
        Shape::Text { text: s@.query, x: x.saturating_add(60), y: y.saturating_add(35), color: rgb(0, 0, 0) },
        Shape::Rect {
            x: x.saturating_add(60).saturating_add(clamp_usize(s@.query.len() as int * 8)),
            y: y.saturating_add(32),
            width: 2,
            height: 16,
            color: rgb(0, 122, 255),
        },
    ]
}

/// Result row `i`: the blue highlight when it is the selected row, then the
/// icon, the title and the subtitle (white and light on the highlight).
pub open spec fn row_shapes(s: Spotlight, i: int) -> Seq<Shape> {
    let r = s@.results[i];
    let top = row_top(s@.y, i);
    let selected = i == s@.selected;
    (if selected {
        seq![
            Shape::RoundedRect {
                x: s@.x.saturating_add(10),
                y: top.saturating_sub(5),
                width: s@.width.saturating_sub(20),
                height: 40,
                color: rgb(0, 122, 255),
            },
        ]
    } else {
        Seq::empty()
    }) + seq![
        Shape::Text { text: seq![r.icon], x: s@.x.saturating_add(25), y: top.saturating_add(10), color: rgb(0, 0, 0) },
        Shape::Text {
            text: r.title@,
            x: s@.x.saturating_add(60),
            y: top.saturating_add(5),
            color: if selected {
                rgb(255, 255, 255)
            } else {
                rgb(0, 0, 0)
            },
        },
        Shape::Text {
            text: r.subtitle@,
            x: s@.x.saturating_add(60),
            y: top.saturating_add(20),
            color: if selected {
                rgb(200, 200, 200)
            } else {
                rgb(128, 128, 128)
            },
        },
    ]
}

/// The first `n` result rows, top to bottom.
pub open spec fn rows_shapes(s: Spotlight, n: int) -> Seq<Shape>
    decreases n,
{
    if n <= 0 {
        Seq::empty()
    } else {
        rows_shapes(s, n - 1) + row_shapes(s, n - 1)
    }
}

/// Everything the overlay draws: nothing while hidden, else the panel and
/// every result row.
pub open spec fn search_shapes(s: Spotlight) -> Seq<Shape> {
    if !s@.visible {
        Seq::empty()
    } else {
        search_head(s) + rows_shapes(s, s@.results.len() as int)
    }
}

} // verus!
