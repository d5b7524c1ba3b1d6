//! What the screen shows, as plain values: the tab strip, the items list
//! (with its scroll window and row colors), the detail panel of the focused
//! item, and the status line. Drawing these is left to the terminal layer.
use vstd::prelude::*;
use crate::app::{primary_text, secondary_text, App, Item, TabState};
use crate::buttondown::{Email, EmailAnalytics, Subscriber};
use crate::text::{
    chars_of, decimal, first_lines, lines_of, owned, pad_right, pad_right_spec, push_char,
    push_decimal, str_eq, string_of, take_at_most, views,
};

verus! {

// ── text fitting ────────────────────────────────────────────────────

/// `s` when it has at most `max` characters; otherwise its first
/// `max - 1` characters (none when `max` is 0) and `…`.
pub open spec fn truncate_text(s: Seq<char>, max: int) -> Seq<char> {
    if s.len() <= max {
        s
    } else {
        s.take(if max >= 1 {
            max - 1
        } else {
            0
        }).push('…')
    }
}

pub fn truncate(s: &str, max: usize) -> (r: String)
    ensures
        r@ == truncate_text(s@, max as int),
{
    let v = chars_of(s);
    if v.len() <= max {
        owned(s)
    } else {
        let keep = if max >= 1 {
            max - 1
        } else {
            0
        };
        let mut out = string_of(&v, 0, keep);
        push_char(&mut out, '…');
        out
    }
}

// ── tab strip ───────────────────────────────────────────────────────

/// The badge after a tab's name: loading, error, or the item count (with
/// `+` when the API reported more than it sent).
pub open spec fn badge_text(t: TabState) -> Seq<char> {
    if t.data.loading {
        " (…)"@
    } else if t.data.last_error is Some {
        " (err)"@
    } else if t.data.truncated {
        " ("@ + decimal(t.data.items@.len()) + "+)"@
    } else {
        " ("@ + decimal(t.data.items@.len()) + ")"@
    }
}

/// The label of the tab at position `i` (counted from 0): `<i+1>.<name><badge>`.
pub open spec fn tab_label_text(i: int, t: TabState) -> Seq<char> {
    decimal((i + 1) as nat) + "."@ + t.name@ + badge_text(t)
}

fn tab_label(i: usize, t: &TabState) -> (r: String)
    requires
        i < usize::MAX,
    ensures
        r@ == tab_label_text(i as int, *t),
{
    let mut out = String::new();
    push_decimal(&mut out, (i + 1) as u64);
    out.append(".");
    out.append(t.name.as_str());
    if t.data.loading {
        out.append(" (…)");
    } else if t.data.last_error.is_some() {
        out.append(" (err)");
    } else if t.data.truncated {
        out.append(" (");
        push_decimal(&mut out, t.data.items.len() as u64);
        out.append("+)");
    } else {
        out.append(" (");
        push_decimal(&mut out, t.data.items.len() as u64);
        out.append(")");
    }
    out
}

/// One label per tab, in order.
pub fn tab_labels(app: &App) -> (r: Vec<String>)
    ensures
        r@.len() == app.tabs@.len(),
        forall|i: int| 0 <= i < r@.len() ==> #[trigger] r@[i]@ == tab_label_text(i, app.tabs@[i]),
{
    let mut r: Vec<String> = Vec::new();
    let mut i: usize = 0;
    while i < app.tabs.len()
        invariant
            i <= app.tabs@.len(),
            r@.len() == i,
            forall|j: int| 0 <= j < i ==> #[trigger] r@[j]@ == tab_label_text(j, app.tabs@[j]),
        decreases app.tabs@.len() - i,
    {
        r.push(tab_label(i, &app.tabs[i]));
        i = i + 1;
    }
    r
}

// ── items list ──────────────────────────────────────────────────────

/// The first row shown when `rows` rows fit: the list scrolls so the
/// cursor sits near the middle, without running past the end.
pub open spec fn window_start(total: int, selected: int, rows: int) -> int {
    if total <= rows {
        0
    } else {
        let lo = if selected >= rows / 2 {
            selected - rows / 2
        } else {
            0
        };
        if lo < total - rows {
            lo
        } else {
            total - rows
        }
    }
}

pub fn list_window_start(total: usize, selected: usize, rows: usize) -> (r: usize)
    ensures
        r == window_start(total as int, selected as int, rows as int),
{
    if total <= rows {
        0
    } else {
        let lo = if selected >= rows / 2 {
            selected - rows / 2
        } else {
            0
        };
        if lo < total - rows {
            lo
        } else {
            total - rows
        }
    }
}

/// The colors a row can take.
#[derive(Debug, Clone, Copy, PartialEq, Eq)]
pub enum RowColor {
    White,
    Yellow,
    Green,
    Gray,
    Red,
}

/// Emails are white; subscribers are colored by type: premium yellow,
/// regular green, unsubscribed and removed red, anything else gray.
pub open spec fn row_color(item: Item) -> RowColor {
    match item {
        Item::Email(_) => RowColor::White,
        Item::Subscriber(s) => match s.sub_type {
            Some(t) => if t@ == "premium"@ {
                RowColor::Yellow
            } else if t@ == "regular"@ {
                RowColor::Green
            } else if t@ == "unactivated"@ {
                RowColor::Gray
            } else if t@ == "unsubscribed"@ || t@ == "removed"@ {
                RowColor::Red
            } else {
                RowColor::Gray
            },
            None => RowColor::Gray,
        },
    }
}

pub fn row_color_for(item: &Item, _kind: &str) -> (r: RowColor)
    ensures
        r == row_color(*item),
{
    match item {
        Item::Email(_) => RowColor::White,
        Item::Subscriber(s) => match &s.sub_type {
            Some(t) => {
                let t = t.as_str();
                if str_eq(t, "premium") {
                    RowColor::Yellow
                } else if str_eq(t, "regular") {
                    RowColor::Green
                } else if str_eq(t, "unactivated") {
                    RowColor::Gray
                } else if str_eq(t, "unsubscribed") || str_eq(t, "removed") {
                    RowColor::Red
                } else {
                    RowColor::Gray
                }
            },
            None => RowColor::Gray,
        },
    }
}

/// The text of a row: the cursor mark, the first column cut and padded to
/// 38 characters, two spaces, the second column.
pub open spec fn row_text(item: Item, kind: Seq<char>, cursor: bool) -> Seq<char> {
    (if cursor {
        "▸ "@
    } else {
        "  "@
    }) + pad_right_spec(truncate_text(primary_text(item), 38), 38) + "  "@ + secondary_text(
        item,
        kind,
    )
}

/// A row of the items list.
#[derive(Debug, Clone)]
pub struct ListRow {
    pub text: String,
    /// The row is under the cursor (drawn highlighted).
    pub selected: bool,
    /// The row's color when it is not under the cursor.
    pub color: RowColor,
}

/// The items panel.
#[derive(Debug, Clone)]
pub enum ListView {
    /// The last load failed: `error: <message>`, in red.
    Failed(String),
    /// Nothing to list: `(loading…)` or `(none)`, dimmed.
    Placeholder(String),
    /// The rows that fit, under a title with the kind and the item count.
    Rows { title: String, rows: Vec<ListRow> },
}

/// The title of the items panel.
pub open spec fn list_title_text(kind: Seq<char>, total: nat) -> Seq<char> {
    (if kind == "drafts"@ {
        " drafts ("@
    } else if kind == "sent"@ {
        " sent ("@
    } else if kind == "scheduled"@ {
        " scheduled ("@
    } else if kind == "subscribers"@ {
        " subscribers ("@
    } else {
        " items ("@
    }) + decimal(total) + ") "@
}

fn list_title(kind: &str, total: usize) -> (r: String)
    ensures
        r@ == list_title_text(kind@, total as nat),
{
    let mut out = if str_eq(kind, "drafts") {
        owned(" drafts (")
    } else if str_eq(kind, "sent") {
        owned(" sent (")
    } else if str_eq(kind, "scheduled") {
        owned(" scheduled (")
    } else if str_eq(kind, "subscribers") {
        owned(" subscribers (")
    } else {
        owned(" items (")
    };
    push_decimal(&mut out, total as u64);
    out.append(") ");
    out
}

fn list_row(item: &Item, kind: &str, cursor: bool) -> (r: ListRow)
    ensures
        r.text@ == row_text(*item, kind@, cursor),
        r.selected == cursor,
        r.color == row_color(*item),
{
    let mut text = if cursor {
        owned("▸ ")
    } else {
        owned("  ")
    };
    let primary = truncate(item.primary_label().as_str(), 38);
    text.append(pad_right(primary.as_str(), 38).as_str());
    text.append("  ");
    text.append(item.secondary_label(kind).as_str());
    ListRow { text, selected: cursor, color: row_color_for(item, kind) }
}

/// The number of rows shown: those from the window start that fit.
pub open spec fn shown_rows(total: int, selected: int, rows: int) -> int {
    let start = window_start(total, selected, rows);
    if total - start < rows {
        total - start
    } else {
        rows
    }
}

/// The items panel of a tab, `body_rows` rows high inside its border.
pub fn list_view(tab: &TabState, body_rows: usize) -> (r: ListView)
    ensures
        tab.data.last_error matches Some(e) ==> (r matches ListView::Failed(m) && m@ == "error: "@
            + e@),
        tab.data.last_error is None && tab.data.items@.len() == 0 ==> (r matches ListView::Placeholder(
            m,
        ) && m@ == (if tab.data.loading {
            "(loading…)"@
        } else {
            "(none)"@
        })),
        tab.data.last_error is None && tab.data.items@.len() > 0 ==> (r matches ListView::Rows {
            title,
            rows,
        } && {
            let items = tab.data.items@;
            let total = items.len() as int;
            let sel = tab.data.selected as int;
            let start = window_start(total, sel, body_rows as int);
            &&& title@ == list_title_text(tab.spec.kind@, items.len())
            &&& rows@.len() == shown_rows(total, sel, body_rows as int)
            &&& forall|k: int|
                0 <= k < rows@.len() ==> {
                    &&& (#[trigger] rows@[k]).text@ == row_text(
                        items[start + k],
                        tab.spec.kind@,
                        start + k == sel,
                    )
                    &&& rows@[k].selected == (start + k == sel)
                    &&& rows@[k].color == row_color(items[start + k])
                }
        }),
{
    match &tab.data.last_error {
        Some(e) => {
            let mut m = owned("error: ");
            m.append(e.as_str());
            return ListView::Failed(m);
        },
        None => {},
    }
    if tab.data.items.len() == 0 {
        if tab.data.loading {
            return ListView::Placeholder(owned("(loading…)"));
        } else {
            return ListView::Placeholder(owned("(none)"));
        }
    }
    let total = tab.data.items.len();
    let selected = tab.data.selected;
    let start = list_window_start(total, selected, body_rows);
    let end = if total - start < body_rows {
        total
    } else {
        start + body_rows
    };
    let kind = tab.spec.kind.as_str();
    let mut rows: Vec<ListRow> = Vec::new();
    let mut abs = start;
    while abs < end
        invariant
            start <= abs <= end <= total,
            total == tab.data.items@.len(),
            start == window_start(total as int, selected as int, body_rows as int),
            end - start == shown_rows(total as int, selected as int, body_rows as int),
            rows@.len() == abs - start,
            kind@ == tab.spec.kind@,
            selected == tab.data.selected,
            forall|k: int|
                0 <= k < rows@.len() ==> {
                    &&& (#[trigger] rows@[k]).text@ == row_text(
                        tab.data.items@[start + k],
                        kind@,
                        start + k == selected,
                    )
                    &&& rows@[k].selected == (start + k == selected)
                    &&& rows@[k].color == row_color(tab.data.items@[start + k])
                },
        decreases end - abs,
    {
        rows.push(list_row(&tab.data.items[abs], kind, abs == selected));
        abs = abs + 1;
    }
    ListView::Rows { title: list_title(kind, total), rows }
}

// ── detail panel ────────────────────────────────────────────────────

/// A line of the detail panel.
#[derive(Debug, Clone)]
pub enum DetailLine {
    /// A field: the name (already padded, dimmed) and the value.
    Field { key: String, value: String },
    /// An empty line.
    Blank,
    /// A section heading (dimmed).
    Heading(String),
    /// A line of the body or the notes (gray).
    Body(String),
    /// A line of the metadata (gray, dim).
    Meta(String),
}

/// A detail line as text.
pub enum LineView {
    Field(Seq<char>, Seq<char>),
    Blank,
    Heading(Seq<char>),
    Body(Seq<char>),
    Meta(Seq<char>),
}

impl View for DetailLine {
    type V = LineView;

    open spec fn view(&self) -> LineView {
        match self {
            DetailLine::Field { key, value } => LineView::Field(key@, value@),
            DetailLine::Blank => LineView::Blank,
            DetailLine::Heading(h) => LineView::Heading(h@),
            DetailLine::Body(b) => LineView::Body(b@),
            DetailLine::Meta(m) => LineView::Meta(m@),
        }
    }
}

/// The views of detail lines.
pub open spec fn line_views(v: Seq<DetailLine>) -> Seq<LineView> {
    v.map_values(|l: DetailLine| l@)
}

/// A field line: ` <name padded to 18>` and the value.
pub open spec fn field(name: Seq<char>, value: Seq<char>) -> LineView {
    LineView::Field(" "@ + pad_right_spec(name, 18), value)
}

/// A field line when the value is present.
pub open spec fn opt_field(name: Seq<char>, value: Option<String>) -> Seq<LineView> {
    match value {
        Some(v) => seq![field(name, v@)],
        None => Seq::empty(),
    }
}

/// A numeric field line when the value is present.
pub open spec fn opt_count(name: Seq<char>, value: Option<u32>) -> Seq<LineView> {
    match value {
        Some(n) => seq![field(name, decimal(n as nat))],
        None => Seq::empty(),
    }
}

/// Body-style lines, each indented by one space.
pub open spec fn body_lines(ls: Seq<Seq<char>>) -> Seq<LineView> {
    ls.map_values(|l: Seq<char>| LineView::Body(" "@ + l))
}

/// Metadata-style lines, each indented by one space.
pub open spec fn meta_lines(ls: Seq<Seq<char>>) -> Seq<LineView> {
    ls.map_values(|l: Seq<char>| LineView::Meta(" "@ + l))
}

/// A titled section: a blank line, the heading, then the first `n` lines
/// of `text` (body style or metadata style); nothing for an empty text.
pub open spec fn section(heading: Seq<char>, text: Seq<char>, n: int, meta: bool) -> Seq<LineView> {
    if text.len() == 0 {
        Seq::empty()
    } else {
        seq![LineView::Blank, LineView::Heading(heading)] + if meta {
            meta_lines(take_at_most(lines_of(text), n))
        } else {
            body_lines(take_at_most(lines_of(text), n))
        }
    }
}

/// The detail of an email: subject, id, the fields it has, send stats,
/// and the first 40 lines of the body.
pub open spec fn email_detail(e: Email) -> Seq<LineView> {
    seq![
        field(
            "Subject"@,
            if e.subject@.len() == 0 {
                "(none)"@
            } else {
                e.subject@
            },
        ),
        field("ID"@, e.id@),
    ] + opt_field("Status"@, e.status) + opt_field("Type"@, e.email_type) + opt_field(
        "Created"@,
        e.creation_date,
    ) + opt_field("Publish"@, e.publish_date) + opt_field("Modified"@, e.modification_date)
        + opt_count("Word count"@, e.word_count) + stats_lines(e.analytics) + section(
        " Body "@,
        e.body@,
        40,
        false,
    )
}

/// The send stats that are present.
pub open spec fn stats_lines(a: Option<EmailAnalytics>) -> Seq<LineView> {
    match a {
        Some(a) => opt_count("Recipients"@, a.recipients) + opt_count("Opens"@, a.opens)
            + opt_count("Clicks"@, a.clicks),
        None => Seq::empty(),
    }
}

/// The notes section, when there are notes.
pub open spec fn notes_section(n: Option<String>) -> Seq<LineView> {
    match n {
        Some(n) => section(" Notes "@, n@, 10, false),
        None => Seq::empty(),
    }
}

/// The metadata section, when there is metadata.
pub open spec fn metadata_section(m: Option<String>) -> Seq<LineView> {
    match m {
        Some(m) => seq![LineView::Blank, LineView::Heading(" Metadata "@)] + meta_lines(
            take_at_most(lines_of(m@), 20),
        ),
        None => Seq::empty(),
    }
}

/// The detail of a subscriber: address, id, the fields it has, the first
/// 10 lines of the notes and the first 20 lines of the metadata.
pub open spec fn subscriber_detail(s: Subscriber) -> Seq<LineView> {
    seq![field("Email"@, s.email_address@), field("ID"@, s.id@)] + opt_field("Type"@, s.sub_type)
        + opt_field("Created"@, s.creation_date) + opt_field("Source"@, s.source) + notes_section(
        s.notes,
    ) + metadata_section(s.metadata)
}

pub open spec fn item_detail(item: Item) -> Seq<LineView> {
    match item {
        Item::Email(e) => email_detail(e),
        Item::Subscriber(s) => subscriber_detail(s),
    }
}

fn push_line(v: &mut Vec<DetailLine>, l: DetailLine)
    ensures
        line_views(final(v)@) == line_views(old(v)@).push(l@),
{
    v.push(l);
    assert(line_views(v@) =~= line_views(old(v)@).push(l@));
}

fn push_field(v: &mut Vec<DetailLine>, name: &str, value: String)
    ensures
        line_views(final(v)@) == line_views(old(v)@).push(field(name@, value@)),
{
    let mut key = owned(" ");
    key.append(pad_right(name, 18).as_str());
    push_line(v, DetailLine::Field { key, value });
}

fn push_opt_field(v: &mut Vec<DetailLine>, name: &str, value: &Option<String>)
    ensures
        line_views(final(v)@) == line_views(old(v)@) + opt_field(name@, *value),
{
    match value {
        Some(x) => push_field(v, name, x.clone()),
        None => {
            assert(line_views(v@) + opt_field(name@, *value) =~= line_views(v@));
        },
    }
}

fn push_opt_count(v: &mut Vec<DetailLine>, name: &str, value: Option<u32>)
    ensures
        line_views(final(v)@) == line_views(old(v)@) + opt_count(name@, value),
{
    match value {
        Some(n) => {
            let mut t = String::new();
            push_decimal(&mut t, n as u64);
            push_field(v, name, t);
        },
        None => {
            assert(line_views(v@) + opt_count(name@, value) =~= line_views(v@));
        },
    }
}

/// Appends the first `n` lines of `text`, indented, in body or metadata style.
fn push_text_lines(v: &mut Vec<DetailLine>, text: &str, n: usize, meta: bool)
    ensures
        line_views(final(v)@) == line_views(old(v)@) + if meta {
            meta_lines(take_at_most(lines_of(text@), n as int))
        } else {
            body_lines(take_at_most(lines_of(text@), n as int))
        },
{
    let ls = first_lines(text, n);
    let ghost target = if meta {
        meta_lines(views(ls@))
    } else {
        body_lines(views(ls@))
    };
    let mut i: usize = 0;
    while i < ls.len()
        invariant
            i <= ls@.len(),
            target == (if meta {
                meta_lines(views(ls@))
            } else {
                body_lines(views(ls@))
            }),
            line_views(v@) == line_views(old(v)@) + target.take(i as int),
        decreases ls@.len() - i,
    {
        let mut t = owned(" ");
        t.append(ls[i].as_str());
        let l = if meta {
            DetailLine::Meta(t)
        } else {
            DetailLine::Body(t)
        };
        push_line(v, l);
        assert(target.take(i + 1) =~= target.take(i as int).push(target[i as int]));
        i = i + 1;
    }
    assert(target.take(ls@.len() as int) =~= target);
}

fn push_section(v: &mut Vec<DetailLine>, heading: &str, text: &str, n: usize, meta: bool)
    ensures
        line_views(final(v)@) == line_views(old(v)@) + section(heading@, text@, n as int, meta),
{
    if text.is_empty() {
        assert(line_views(v@) + section(heading@, text@, n as int, meta) =~= line_views(v@));
        return;
    }
    push_line(v, DetailLine::Blank);
    push_line(v, DetailLine::Heading(owned(heading)));
    push_text_lines(v, text, n, meta);
    assert(line_views(v@) =~= line_views(old(v)@) + section(heading@, text@, n as int, meta));
}

fn email_lines(e: &Email) -> (r: Vec<DetailLine>)
    ensures
        line_views(r@) == email_detail(*e),
{
    let mut v: Vec<DetailLine> = Vec::new();
    let subject = if e.subject.as_str().is_empty() {
        owned("(none)")
    } else {
        e.subject.clone()
    };
    push_field(&mut v, "Subject", subject);
    push_field(&mut v, "ID", e.id.clone());
    let ghost head = line_views(v@);
    push_opt_field(&mut v, "Status", &e.status);
    push_opt_field(&mut v, "Type", &e.email_type);
    push_opt_field(&mut v, "Created", &e.creation_date);
    push_opt_field(&mut v, "Publish", &e.publish_date);
    push_opt_field(&mut v, "Modified", &e.modification_date);
    push_opt_count(&mut v, "Word count", e.word_count);
    let ghost before_stats = line_views(v@);
    match &e.analytics {
        Some(a) => {
            push_opt_count(&mut v, "Recipients", a.recipients);
            push_opt_count(&mut v, "Opens", a.opens);
            push_opt_count(&mut v, "Clicks", a.clicks);
        },
        None => {},
    }
    let ghost after_stats = line_views(v@);
    push_section(&mut v, " Body ", e.body.as_str(), 40, false);
    proof {
        assert(after_stats =~= before_stats + stats_lines(e.analytics));
        assert(head =~= seq![
            field(
                "Subject"@,
                if e.subject@.len() == 0 {
                    "(none)"@
                } else {
                    e.subject@
                },
            ),
            field("ID"@, e.id@),
        ]);
        assert(line_views(v@) =~= email_detail(*e));
    }
    v
}

fn subscriber_lines(s: &Subscriber) -> (r: Vec<DetailLine>)
    ensures
        line_views(r@) == subscriber_detail(*s),
{
    let mut v: Vec<DetailLine> = Vec::new();
    push_field(&mut v, "Email", s.email_address.clone());
    push_field(&mut v, "ID", s.id.clone());
    let ghost head = line_views(v@);
    push_opt_field(&mut v, "Type", &s.sub_type);
    push_opt_field(&mut v, "Created", &s.creation_date);
    push_opt_field(&mut v, "Source", &s.source);
    let ghost before_notes = line_views(v@);
    match &s.notes {
        Some(n) => push_section(&mut v, " Notes ", n.as_str(), 10, false),
        None => {},
    }
    let ghost before_meta = line_views(v@);
    match &s.metadata {
        Some(m) => {
            push_line(&mut v, DetailLine::Blank);
            push_line(&mut v, DetailLine::Heading(owned(" Metadata ")));
            push_text_lines(&mut v, m.as_str(), 20, true);
        },
        None => {},
    }
    proof {
        assert(before_meta =~= before_notes + notes_section(s.notes));
        assert(line_views(v@) =~= before_meta + metadata_section(s.metadata));
        assert(head =~= seq![field("Email"@, s.email_address@), field("ID"@, s.id@)]);
        assert(line_views(v@) =~= subscriber_detail(*s));
    }
    v
}

/// The detail panel.
#[derive(Debug, Clone)]
pub enum DetailView {
    /// No item under the cursor: `(no item selected)`, dimmed.
    Placeholder(String),
    /// The lines describing the focused item.
    Lines(Vec<DetailLine>),
}

/// The detail panel for the focused item, if any.
pub fn detail_view(item: Option<&Item>) -> (r: DetailView)
    ensures
        item is None ==> (r matches DetailView::Placeholder(m) && m@ == "(no item selected)"@),
        item matches Some(it) ==> (r matches DetailView::Lines(ls) && line_views(ls@) == item_detail(
            *it,
        )),
{
    match item {
        None => DetailView::Placeholder(owned("(no item selected)")),
        Some(Item::Email(e)) => DetailView::Lines(email_lines(e)),
        Some(Item::Subscriber(s)) => DetailView::Lines(subscriber_lines(s)),
    }
}

// ── status line ─────────────────────────────────────────────────────

/// The key hint shown after the status.
pub fn key_hint() -> (r: &'static str)
    ensures
        r@ == " 1-9 tab · ↑↓/jk move · o web · y ID · p publish · X unsubscribe · r refresh · q quit "@,
{
    " 1-9 tab · ↑↓/jk move · o web · y ID · p publish · X unsubscribe · r refresh · q quit "
}

/// The status text, padded with a space on each side, and whether it is
/// highlighted (a confirm is pending).
pub fn status_view(app: &App) -> (r: (String, bool))
    ensures
        r.0@ == " "@ + app.status@ + " "@,
        r.1 == app.confirm is Some,
{
    let mut s = owned(" ");
    s.append(app.status.as_str());
    s.append(" ");
    (s, app.confirm.is_some())
}

} // verus!
