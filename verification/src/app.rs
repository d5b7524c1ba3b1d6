//! App state: per-tab item lists, a selection cursor, the status line and
//! a pending `[y/n]` confirmation. Items are either an email (drafts, sent
//! and scheduled all share that shape) or a subscriber.
//!
//! The state changes here are decisions only. Where the browser has to talk
//! to Buttondown, open a web page or copy to the clipboard, a method says
//! what to do (a [`FetchRequest`], a URL, an id, a [`ConfirmAction`]) and a
//! matching `finish_*` method takes the outcome.
use vstd::prelude::*;
use std::fmt::Write;
use crate::buttondown::{
    email_url, list_emails_request, list_subscribers_request, schedule_draft_request,
    subscriber_url, unsubscribe_request, web_base_text, Auth, Email, HttpRequest, Subscriber,
};
use crate::config::{is_known_kind, known_kind, Config, Tab};
use crate::text::{
    chars_of, debug_quoted, debug_str, decimal, first_lines, first_pos, find_from, has_char,
    lemma_first_unique, lines_of, owned, push_char, push_decimal, str_eq, string_of,
    take_at_most, views,
};

verus! {

// ── tab kinds ───────────────────────────────────────────────────────

#[derive(Debug, Clone)]
pub struct TabSpec {
    pub kind: String,
}

/// A tab names a kind this browser does not know.
#[derive(Debug, Clone)]
pub struct ResolveError {
    pub name: String,
    pub kind: String,
}

impl TabSpec {
    /// Accepts the four known kinds and refuses any other.
    pub fn resolve(t: &Tab) -> (r: Result<TabSpec, ResolveError>)
        ensures
            r is Ok <==> known_kind(t.kind@),
            r matches Ok(s) ==> s.kind == t.kind,
            r matches Err(e) ==> e.name == t.name && e.kind == t.kind,
    {
        if is_known_kind(t.kind.as_str()) {
            Ok(TabSpec { kind: t.kind.clone() })
        } else {
            Err(ResolveError { name: t.name.clone(), kind: t.kind.clone() })
        }
    }
}

impl ResolveError {
    pub fn message(&self) -> (r: String)
        ensures
            r@ == "tab `"@ + self.name@ + "`: unknown kind "@ + debug_quoted(self.kind@),
    {
        let mut r = owned("tab `");
        r.append(self.name.as_str());
        r.append("`: unknown kind ");
        r.append(debug_str(self.kind.as_str()).as_str());
        r
    }
}

// ── items ───────────────────────────────────────────────────────────

#[derive(Debug, Clone)]
pub enum Item {
    Email(Email),
    Subscriber(Subscriber),
}

/// `2026-05-01T00:00:00Z` → `2026-05-01`: the text before the first `T`,
/// or all of it when there is none.
pub open spec fn short_date_text(s: Seq<char>) -> Seq<char> {
    if has_char(s, 'T') {
        s.take(first_pos(s, 'T'))
    } else {
        s
    }
}

pub open spec fn item_id(item: Item) -> Seq<char> {
    match item {
        Item::Email(e) => e.id@,
        Item::Subscriber(s) => s.id@,
    }
}

pub open spec fn primary_text(item: Item) -> Seq<char> {
    match item {
        Item::Email(e) => if e.subject@.len() == 0 {
            "(no subject)"@
        } else {
            e.subject@
        },
        Item::Subscriber(s) => if s.email_address@.len() == 0 {
            "(no email)"@
        } else {
            s.email_address@
        },
    }
}

pub open spec fn date_or_dash(d: Option<String>) -> Seq<char> {
    match d {
        Some(s) => short_date_text(s@),
        None => "—"@,
    }
}

pub open spec fn text_or_dash(t: Option<String>) -> Seq<char> {
    match t {
        Some(s) => s@,
        None => "—"@,
    }
}

pub open spec fn count_or_dash(n: Option<u32>) -> Seq<char> {
    match n {
        Some(n) => decimal(n as nat),
        None => "—"@,
    }
}

/// The first line of a text, or the text when it has no lines.
pub open spec fn first_line(t: Seq<char>) -> Seq<char> {
    if lines_of(t).len() > 0 {
        lines_of(t)[0]
    } else {
        t
    }
}

/// ` · <first line of the notes>`, cut to 39 characters and `…` when the
/// line is longer than 40; nothing when there are no notes.
pub open spec fn notes_suffix(n: Option<String>) -> Seq<char> {
    match n {
        Some(t) => if t@.len() == 0 {
            Seq::empty()
        } else if first_line(t@).len() > 40 {
            " · "@ + first_line(t@).take(39).push('…')
        } else {
            " · "@ + first_line(t@)
        },
        None => Seq::empty(),
    }
}

/// The second column of a row; `kind` picks the email columns.
pub open spec fn secondary_text(item: Item, kind: Seq<char>) -> Seq<char> {
    match item {
        Item::Email(e) => if kind == "drafts"@ {
            date_or_dash(e.creation_date) + " · "@ + match e.word_count {
                Some(n) => decimal(n as nat) + "w"@,
                None => "—w"@,
            }
        } else if kind == "sent"@ {
            date_or_dash(e.publish_date) + " · "@ + text_or_dash(e.email_type) + match e.analytics {
                Some(a) => " · "@ + count_or_dash(a.opens) + "o/"@ + count_or_dash(a.clicks) + "c"@,
                None => Seq::empty(),
            }
        } else if kind == "scheduled"@ {
            "⏰ "@ + date_or_dash(e.publish_date)
        } else {
            Seq::empty()
        },
        Item::Subscriber(s) => text_or_dash(s.sub_type) + " · "@ + date_or_dash(s.creation_date)
            + notes_suffix(s.notes),
    }
}

/// `2026-05-01T00:00:00Z` → `2026-05-01`. Best-effort.
pub fn short_date(ts: &str) -> (r: String)
    ensures
        r@ == short_date_text(ts@),
{
    let v = chars_of(ts);
    match find_from(&v, 0, 'T') {
        Some(k) => {
            proof {
                assert(v@.skip(0) == v@);
                lemma_first_unique(v@, 'T', k as int);
            }
            string_of(&v, 0, k)
        },
        None => {
            assert(v@.skip(0) == v@);
            assert(v@.subrange(0, v@.len() as int) == v@);
            string_of(&v, 0, v.len())
        },
    }
}

fn push_date_or_dash(out: &mut String, d: &Option<String>)
    ensures
        final(out)@ == old(out)@ + date_or_dash(*d),
{
    match d {
        Some(s) => out.append(short_date(s.as_str()).as_str()),
        None => out.append("—"),
    }
}

fn push_text_or_dash(out: &mut String, t: &Option<String>)
    ensures
        final(out)@ == old(out)@ + text_or_dash(*t),
{
    match t {
        Some(s) => out.append(s.as_str()),
        None => out.append("—"),
    }
}

fn push_count_or_dash(out: &mut String, n: Option<u32>)
    ensures
        final(out)@ == old(out)@ + count_or_dash(n),
{
    match n {
        Some(n) => push_decimal(out, n as u64),
        None => out.append("—"),
    }
}

fn push_notes(out: &mut String, notes: &Option<String>)
    ensures
        final(out)@ == old(out)@ + notes_suffix(*notes),
{
    match notes {
        Some(t) => {
            if t.as_str().is_empty() {
                assert(old(out)@ + notes_suffix(*notes) =~= old(out)@);
                return;
            }
            let ls = first_lines(t.as_str(), 1);
            let line: String = if ls.len() > 0 {
                ls[0].clone()
            } else {
                t.clone()
            };
            proof {
                assert(views(ls@) == take_at_most(lines_of(t@), 1));
                if ls@.len() > 0 {
                    assert(views(ls@)[0] == ls@[0]@);
                }
                assert(line@ == first_line(t@));
            }
            let cs = chars_of(line.as_str());
            out.append(" · ");
            if cs.len() > 40 {
                out.append(string_of(&cs, 0, 39).as_str());
                push_char(out, '…');
            } else {
                out.append(line.as_str());
            }
        },
        None => {
            assert(old(out)@ + notes_suffix(*notes) =~= old(out)@);
        },
    }
}

impl Item {
    pub fn id(&self) -> (r: &str)
        ensures
            r@ == item_id(*self),
    {
        match self {
            Item::Email(e) => e.id.as_str(),
            Item::Subscriber(s) => s.id.as_str(),
        }
    }

    /// The subject of an email or the address of a subscriber, with a
    /// placeholder when it is empty.
    pub fn primary_label(&self) -> (r: String)
        ensures
            r@ == primary_text(*self),
    {
        match self {
            Item::Email(e) => {
                if e.subject.as_str().is_empty() {
                    owned("(no subject)")
                } else {
                    e.subject.clone()
                }
            },
            Item::Subscriber(s) => {
                if s.email_address.as_str().is_empty() {
                    owned("(no email)")
                } else {
                    s.email_address.clone()
                }
            },
        }
    }

    /// `kind` controls which Email columns are shown (drafts → word
    /// count, sent → stats, scheduled → publish_date highlighted).
    pub fn secondary_label(&self, kind: &str) -> (r: String)
        ensures
            r@ == secondary_text(*self, kind@),
    {
        let mut out = String::new();
        match self {
            Item::Email(e) => {
                if str_eq(kind, "drafts") {
                    push_date_or_dash(&mut out, &e.creation_date);
                    out.append(" · ");
                    match e.word_count {
                        Some(n) => {
                            push_decimal(&mut out, n as u64);
                            out.append("w");
                        },
                        None => out.append("—w"),
                    }
                } else if str_eq(kind, "sent") {
                    push_date_or_dash(&mut out, &e.publish_date);
                    out.append(" · ");
                    push_text_or_dash(&mut out, &e.email_type);
                    match &e.analytics {
                        Some(a) => {
                            out.append(" · ");
                            push_count_or_dash(&mut out, a.opens);
                            out.append("o/");
                            push_count_or_dash(&mut out, a.clicks);
                            out.append("c");
                        },
                        None => {},
                    }
                } else if str_eq(kind, "scheduled") {
                    out.append("⏰ ");
                    push_date_or_dash(&mut out, &e.publish_date);
                }
            },
            Item::Subscriber(s) => {
                push_text_or_dash(&mut out, &s.sub_type);
                out.append(" · ");
                push_date_or_dash(&mut out, &s.creation_date);
                push_notes(&mut out, &s.notes);
            },
        }
        out
    }
}

// ── confirmations ───────────────────────────────────────────────────

/// A pending confirm prompt — `[y/n]` overlay on the status line.
#[derive(Debug, Clone)]
pub enum ConfirmAction {
    /// Publish (schedule) a draft email — id + publish_date ISO.
    PublishDraft { id: String, publish_date: String },
    /// Delete a subscriber.
    Unsubscribe { id: String, email: String },
}

pub open spec fn prompt_text(a: ConfirmAction) -> Seq<char> {
    match a {
        ConfirmAction::PublishDraft { publish_date, .. } => "publish draft @ "@ + publish_date@
            + "? [y/n]"@,
        ConfirmAction::Unsubscribe { email, .. } => "unsubscribe "@ + email@ + "? [y/n]"@,
    }
}

impl ConfirmAction {
    pub fn prompt(&self) -> (r: String)
        ensures
            r@ == prompt_text(*self),
    {
        match self {
            ConfirmAction::PublishDraft { publish_date, .. } => {
                let mut r = owned("publish draft @ ");
                r.append(publish_date.as_str());
                r.append("? [y/n]");
                r
            },
            ConfirmAction::Unsubscribe { email, .. } => {
                let mut r = owned("unsubscribe ");
                r.append(email.as_str());
                r.append("? [y/n]");
                r
            },
        }
    }

    /// The request that carries out the action.
    pub fn request(&self, auth: &Auth) -> (r: HttpRequest)
        ensures
            r.authorization@ == crate::buttondown::authorization_text(*auth),
            *self matches ConfirmAction::PublishDraft { id, publish_date } ==> {
                &&& r.method == crate::buttondown::Method::Patch
                &&& r.json_content_type
                &&& r.url@ == crate::buttondown::api_base_text() + "/emails/"@ + id@
                &&& r.body matches Some(b) && b@ == crate::buttondown::schedule_body_text(
                    publish_date@,
                )
            },
            *self matches ConfirmAction::Unsubscribe { id, .. } ==> {
                &&& r.method == crate::buttondown::Method::Delete
                &&& !r.json_content_type
                &&& r.url@ == crate::buttondown::api_base_text() + "/subscribers/"@ + id@
                &&& r.body is None
            },
    {
        match self {
            ConfirmAction::PublishDraft { id, publish_date } => schedule_draft_request(
                auth,
                id.as_str(),
                publish_date.as_str(),
            ),
            ConfirmAction::Unsubscribe { id, .. } => unsubscribe_request(auth, id.as_str()),
        }
    }
}

// ── publish dates ───────────────────────────────────────────────────

/// What chrono writes for the UTC date-time of a UNIX timestamp under a
/// `strftime`-style format.
pub uninterp spec fn utc_formatted(secs: int, fmt: Seq<char>) -> Seq<char>;

/// The format Buttondown takes publish dates in: `2026-06-07T13:00:00Z`.
pub open spec fn iso_format() -> Seq<char> {
    "%Y-%m-%dT%H:%M:%SZ"@
}

/// The ISO-8601 UTC text of a timestamp, second precision.
pub open spec fn utc_iso_text(secs: int) -> Seq<char> {
    utc_formatted(secs, iso_format())
}

/// The first second chrono can represent (1 January of the year -262143).
pub open spec fn chrono_min_second() -> int {
    -8334601228800
}

/// The last second chrono can represent (31 December of the year 262142).
pub open spec fn chrono_max_second() -> int {
    8210266876799
}

/// The first second of the year 0: from it, `%Y` has four digits.
pub open spec fn first_four_digit_year_second() -> int {
    -62167219200
}

/// The last second of the year 9999: up to it, `%Y` has four digits.
pub open spec fn last_four_digit_year_second() -> int {
    253402300799
}

/// `chrono::DateTime::from_timestamp` and its `format(fmt)`, written into a
/// `String`: the UTC date-time of a timestamp under a format. `None` when
/// the timestamp is outside chrono's range or the format cannot be written.
/// For the ISO format and timestamps from the year 0 to the end of 9999 the
/// text is 20 characters long: `YYYY-MM-DDTHH:MM:SSZ`.
#[verifier::external_body]
fn format_utc(secs: i64, fmt: &str) -> (r: Option<String>)
    ensures
        r is Some ==> chrono_min_second() <= secs <= chrono_max_second(),
        r matches Some(s) ==> s@ == utc_formatted(secs as int, fmt@),
        fmt@ == iso_format() && chrono_min_second() <= secs <= chrono_max_second() ==> r is Some,
        fmt@ == iso_format() && first_four_digit_year_second() <= secs
            <= last_four_digit_year_second() ==> (r matches Some(s) ==> s@.len() == 20 && s@[4]
            == '-' && s@[7] == '-' && s@[10] == 'T' && s@[13] == ':' && s@[16] == ':' && s@[19]
            == 'Z'),
{
    let mut out = String::new();
    match chrono::DateTime::from_timestamp(secs, 0) {
        Some(d) => match write!(out, "{}", d.format(fmt)) {
            Ok(()) => Some(out),
            Err(_) => None,
        },
        None => None,
    }
}

/// `SystemTime::now()` measured from `UNIX_EPOCH`: whole seconds and the
/// nanoseconds past them, after the epoch (`Ok`) or before it (`Err`).
/// Nothing is claimed of the time itself.
#[verifier::external_body]
fn clock_reading() -> (r: Result<(u64, u32), (u64, u32)>)
    ensures
        r matches Ok((_, n)) ==> n < 1_000_000_000,
        r matches Err((_, n)) ==> n < 1_000_000_000,
{
    match std::time::SystemTime::now().duration_since(std::time::UNIX_EPOCH) {
        Ok(d) => Ok((d.as_secs(), d.subsec_nanos())),
        Err(e) => Err((e.duration().as_secs(), e.duration().subsec_nanos())),
    }
}

/// The UNIX time of a clock reading in whole seconds, rounded down (half a
/// second before the epoch is -1).
pub open spec fn reading_secs(r: Result<(u64, u32), (u64, u32)>) -> int {
    match r {
        Ok((s, _)) => s as int,
        Err((s, n)) => if n == 0 {
            -(s as int)
        } else {
            -(s as int) - 1
        },
    }
}

/// [`reading_secs`], held to the range of `i64`.
fn seconds_of(r: Result<(u64, u32), (u64, u32)>) -> (secs: i64)
    ensures
        secs == clamp(reading_secs(r), i64::MIN as int, i64::MAX as int),
{
    match r {
        Ok((s, _)) => {
            if s > 0x7fff_ffff_ffff_ffff {
                i64::MAX
            } else {
                s as i64
            }
        },
        Err((s, n)) => {
            if s > 0x7fff_ffff_ffff_ffff {
                i64::MIN
            } else if n == 0 {
                -(s as i64)
            } else {
                -(s as i64) - 1
            }
        },
    }
}

/// The current UNIX time in whole seconds, from the system clock.
fn utc_now_secs() -> (r: i64) {
    seconds_of(clock_reading())
}

/// `t` is a time chrono can represent.
pub open spec fn in_chrono_range(t: int) -> bool {
    chrono_min_second() <= t <= chrono_max_second()
}

/// `t` falls in a year with four digits (0 to 9999).
pub open spec fn four_digit_year(t: int) -> bool {
    first_four_digit_year_second() <= t <= last_four_digit_year_second()
}

/// A publish date 5 minutes after the UNIX time `now`, as Buttondown
/// takes it (`2026-06-07T13:00:00Z`, second precision); `None` when that
/// time is beyond what chrono can represent.
pub fn publish_date_after(now: i64) -> (r: Option<String>)
    ensures
        in_chrono_range(now + 300) ==> (r matches Some(s) && s@ == utc_iso_text(now + 300)),
        !in_chrono_range(now + 300) ==> r is None,
        four_digit_year(now + 300) ==> (r matches Some(s) ==> s@.len() == 20 && s@[10] == 'T'
            && s@[19] == 'Z'),
{
    if now > 0x7fff_ffff_ffff_ffff - 300 {
        return None;
    }
    format_utc(now + 300, "%Y-%m-%dT%H:%M:%SZ")
}

/// Build a Buttondown-friendly ISO-8601 publish_date 5 minutes in
/// the future, in UTC, from the system clock.
pub fn publish_date_5min_from_now() -> (r: Option<String>)
    ensures
        r matches Some(s) ==> exists|t: int|
            {
                &&& in_chrono_range(t)
                &&& s@ == #[trigger] utc_iso_text(t)
                &&& four_digit_year(t) ==> s@.len() == 20 && s@[10] == 'T' && s@[19] == 'Z'
            },
{
    let now = utc_now_secs();
    let r = publish_date_after(now);
    proof {
        if r is Some {
            let t = now + 300;
            assert(in_chrono_range(t));
            assert(r->0@ == utc_iso_text(t));
        }
    }
    r
}

// ── tabs ────────────────────────────────────────────────────────────

pub struct ItemsTab {
    pub items: Vec<Item>,
    pub selected: usize,
    /// When the items were last loaded, in nanoseconds on the caller's
    /// monotonic clock.
    pub last_loaded: Option<u64>,
    pub last_error: Option<String>,
    pub loading: bool,
    /// Set when the API reports more results than we received (i.e.
    /// the user needs to know there's a page 2+ we haven't fetched).
    pub truncated: bool,
    /// Total count reported by the API (when known).
    pub total_count: Option<u32>,
}

impl ItemsTab {
    pub open spec fn is_blank(self) -> bool {
        &&& self.items@.len() == 0
        &&& self.selected == 0
        &&& self.last_loaded is None
        &&& self.last_error is None
        &&& !self.loading
        &&& !self.truncated
        &&& self.total_count is None
    }

    pub fn empty() -> (r: Self)
        ensures
            r.is_blank(),
    {
        ItemsTab {
            items: Vec::new(),
            selected: 0,
            last_loaded: None,
            last_error: None,
            loading: false,
            truncated: false,
            total_count: None,
        }
    }
}

pub struct TabState {
    pub name: String,
    pub spec: TabSpec,
    pub data: ItemsTab,
}

/// A tab's state is sound: its kind is known and its cursor is on an item
/// (or at 0 when there are none).
pub open spec fn tab_ok(t: TabState) -> bool {
    &&& known_kind(t.spec.kind@)
    &&& t.data.items@.len() == 0 ==> t.data.selected == 0
    &&& t.data.items@.len() > 0 ==> t.data.selected < t.data.items@.len()
}

/// What a tab lists.
#[derive(Debug, Clone, Copy, PartialEq, Eq)]
pub enum Listing {
    Drafts,
    Sent,
    Scheduled,
    Subscribers,
}

pub open spec fn listing_for(kind: Seq<char>) -> Listing {
    if kind == "drafts"@ {
        Listing::Drafts
    } else if kind == "sent"@ {
        Listing::Sent
    } else if kind == "scheduled"@ {
        Listing::Scheduled
    } else {
        Listing::Subscribers
    }
}

fn listing_of(kind: &str) -> (r: Listing)
    ensures
        r == listing_for(kind@),
{
    if str_eq(kind, "drafts") {
        Listing::Drafts
    } else if str_eq(kind, "sent") {
        Listing::Sent
    } else if str_eq(kind, "scheduled") {
        Listing::Scheduled
    } else {
        Listing::Subscribers
    }
}

/// Load the first page of a tab's listing.
#[derive(Debug, Clone, Copy, PartialEq, Eq)]
pub struct FetchRequest {
    pub tab: usize,
    pub listing: Listing,
}

impl FetchRequest {
    /// The request for the listing: emails by status (`draft`, `sent`,
    /// `scheduled`) or subscribers.
    pub fn http_request(&self, auth: &Auth) -> (r: HttpRequest)
        ensures
            r.authorization@ == crate::buttondown::authorization_text(*auth),
            r.method == crate::buttondown::Method::Get,
            r.json_content_type,
            r.body is None,
            self.listing == Listing::Drafts ==> r.url@ == crate::buttondown::api_base_text()
                + "/emails?status="@ + "draft"@ + "&page=1"@,
            self.listing == Listing::Sent ==> r.url@ == crate::buttondown::api_base_text()
                + "/emails?status="@ + "sent"@ + "&page=1"@,
            self.listing == Listing::Scheduled ==> r.url@ == crate::buttondown::api_base_text()
                + "/emails?status="@ + "scheduled"@ + "&page=1"@,
            self.listing == Listing::Subscribers ==> r.url@ == crate::buttondown::api_base_text()
                + "/subscribers?page=1"@,
    {
        match self.listing {
            Listing::Drafts => {
                let r = list_emails_request(auth, "draft");
                proof {
                    reveal_strlit("draft");
                    crate::buttondown::lemma_lowercase_unchanged("draft");
                }
                r
            },
            Listing::Sent => {
                let r = list_emails_request(auth, "sent");
                proof {
                    reveal_strlit("sent");
                    crate::buttondown::lemma_lowercase_unchanged("sent");
                }
                r
            },
            Listing::Scheduled => {
                let r = list_emails_request(auth, "scheduled");
                proof {
                    reveal_strlit("scheduled");
                    crate::buttondown::lemma_lowercase_unchanged("scheduled");
                }
                r
            },
            Listing::Subscribers => list_subscribers_request(auth),
        }
    }
}


// ── the app ─────────────────────────────────────────────────────────

pub struct App {
    pub cfg: Config,
    pub auth: Auth,
    pub tabs: Vec<TabState>,
    pub active_tab: usize,
    pub status: String,
    pub confirm: Option<ConfirmAction>,
}

/// `x` held to `lo..=hi`.
pub open spec fn clamp(x: int, lo: int, hi: int) -> int {
    if x < lo {
        lo
    } else if x > hi {
        hi
    } else {
        x
    }
}

/// Whole seconds from `then` to `now` (nanoseconds), 0 when `now` is earlier.
pub open spec fn elapsed_secs(then: u64, now: u64) -> int {
    if now >= then {
        (now - then) / 1_000_000_000
    } else {
        0
    }
}

/// The word a status line uses for a tab kind.
pub open spec fn kind_label(kind: Seq<char>) -> Seq<char> {
    if kind == "drafts"@ {
        "drafts"@
    } else if kind == "sent"@ {
        "sent emails"@
    } else if kind == "scheduled"@ {
        "scheduled"@
    } else if kind == "subscribers"@ {
        "subscribers"@
    } else {
        "items"@
    }
}

/// The status after a listing loaded: `<name>: <n> <kind>`, with
/// ` (of <count>)` when the API reported more than it sent.
pub open spec fn loaded_text(name: Seq<char>, received: nat, kind: Seq<char>, count: Option<u32>) -> Seq<char> {
    name + ": "@ + decimal(received) + " "@ + kind_label(kind) + match count {
        Some(c) => if c > received {
            " (of "@ + decimal(c as nat) + ")"@
        } else {
            Seq::empty()
        },
        None => Seq::empty(),
    }
}

/// The cursor after a reload with `n` items: kept, or moved to the last item.
pub open spec fn kept_selection(selected: usize, n: nat) -> usize {
    let last = if n == 0 {
        0
    } else {
        (n - 1) as usize
    };
    if selected < last {
        selected
    } else {
        last
    }
}

/// The web page of an item.
pub open spec fn item_url(item: Item) -> Seq<char> {
    match item {
        Item::Email(e) => web_base_text() + "/emails/"@ + e.id@,
        Item::Subscriber(s) => web_base_text() + "/subscribers/"@ + s.id@,
    }
}

impl App {
    /// The app's state is sound: it has tabs, the active one exists, and
    /// every tab is sound.
    pub open spec fn wf(self) -> bool {
        &&& self.tabs@.len() > 0
        &&& self.active_tab < self.tabs@.len()
        &&& forall|i: int| 0 <= i < self.tabs@.len() ==> tab_ok(#[trigger] self.tabs@[i])
    }

    pub open spec fn active_state(self) -> TabState {
        self.tabs@[self.active_tab as int]
    }

    /// The item under the cursor of the active tab.
    pub open spec fn focused(self) -> Option<Item> {
        let d = self.active_state().data;
        if d.selected < d.items@.len() {
            Some(d.items@[d.selected as int])
        } else {
            None
        }
    }

    /// `post` differs from `self` at most in the status line.
    pub open spec fn same_but_status(self, post: App) -> bool {
        &&& post.cfg == self.cfg
        &&& post.auth == self.auth
        &&& post.tabs == self.tabs
        &&& post.active_tab == self.active_tab
        &&& post.confirm == self.confirm
    }

    /// `post` differs from `self` at most in the status line and the
    /// pending confirmation.
    pub open spec fn same_but_prompt(self, post: App) -> bool {
        &&& post.cfg == self.cfg
        &&& post.auth == self.auth
        &&& post.tabs == self.tabs
        &&& post.active_tab == self.active_tab
    }

    /// The fetch that reloads the active tab.
    pub open spec fn fetch_for(self) -> FetchRequest {
        FetchRequest { tab: self.active_tab, listing: listing_for(self.active_state().spec.kind@) }
    }

    /// `post` is `self` with a reload of the active tab under way: the tab
    /// marked loading and the status saying so.
    pub open spec fn loading_started(self, post: App) -> bool {
        let i = self.active_tab as int;
        let t = self.tabs@[i];
        &&& post.tabs@ == self.tabs@.update(
            i,
            TabState { name: t.name, spec: t.spec, data: ItemsTab { loading: true, ..t.data } },
        )
        &&& post.status@ == "loading "@ + t.name@ + "…"@
        &&& post.cfg == self.cfg
        &&& post.auth == self.auth
        &&& post.active_tab == self.active_tab
        &&& post.confirm == self.confirm
    }

    /// `post` is `self` with the cursor of the active tab at `sel`.
    pub open spec fn selection_moved(self, post: App, sel: usize) -> bool {
        let i = self.active_tab as int;
        let t = self.tabs@[i];
        &&& post.tabs@ == self.tabs@.update(
            i,
            TabState { name: t.name, spec: t.spec, data: ItemsTab { selected: sel, ..t.data } },
        )
        &&& post.status == self.status
        &&& post.cfg == self.cfg
        &&& post.auth == self.auth
        &&& post.active_tab == self.active_tab
        &&& post.confirm == self.confirm
    }
}

impl App {
    /// Resolves every tab of the configuration, then starts loading the
    /// first one; the returned request is that load.
    pub fn new(cfg: Config, auth: Auth) -> (r: Result<(App, FetchRequest), ResolveError>)
        requires
            cfg.tabs@.len() > 0,
        ensures
            r is Ok <==> cfg.all_kinds_known(),
            r matches Err(e) ==> exists|i: int| #[trigger] cfg.first_unknown(i)
                && e.name == cfg.tabs@[i].name && e.kind == cfg.tabs@[i].kind,
            r matches Ok((app, f)) ==> {
                &&& app.wf()
                &&& app.cfg == cfg
                &&& app.auth == auth
                &&& app.active_tab == 0
                &&& app.confirm is None
                &&& app.tabs@.len() == cfg.tabs@.len()
                &&& forall|i: int| 0 <= i < app.tabs@.len() ==> {
                    &&& (#[trigger] app.tabs@[i]).name == cfg.tabs@[i].name
                    &&& app.tabs@[i].spec.kind == cfg.tabs@[i].kind
                    &&& app.tabs@[i].data.loading == (i == 0)
                    &&& app.tabs@[i].data.items@.len() == 0
                    &&& app.tabs@[i].data.selected == 0
                    &&& app.tabs@[i].data.last_loaded is None
                    &&& app.tabs@[i].data.last_error is None
                    &&& !app.tabs@[i].data.truncated
                    &&& app.tabs@[i].data.total_count is None
                }
                &&& app.status@ == "loading "@ + cfg.tabs@[0].name@ + "…"@
                &&& f == app.fetch_for()
            },
    {
        let mut tabs: Vec<TabState> = Vec::with_capacity(cfg.tabs.len());
        let mut i: usize = 0;
        while i < cfg.tabs.len()
            invariant
                i <= cfg.tabs@.len(),
                tabs@.len() == i,
                forall|j: int| 0 <= j < i ==> known_kind(#[trigger] cfg.tabs@[j].kind@),
                forall|j: int| 0 <= j < i ==> {
                    &&& (#[trigger] tabs@[j]).name == cfg.tabs@[j].name
                    &&& tabs@[j].spec.kind == cfg.tabs@[j].kind
                    &&& tabs@[j].data.is_blank()
                },
            decreases cfg.tabs@.len() - i,
        {
            let t = &cfg.tabs[i];
            let spec = match TabSpec::resolve(t) {
                Ok(spec) => spec,
                Err(e) => {
                    assert(cfg.first_unknown(i as int));
                    return Err(e);
                },
            };
            tabs.push(TabState { name: t.name.clone(), data: ItemsTab::empty(), spec });
            i = i + 1;
        }
        let mut app = App { cfg, auth, tabs, active_tab: 0, status: String::new(), confirm: None };
        let f = app.refresh_active();
        Ok((app, f))
    }

    pub fn active(&self) -> (r: &TabState)
        requires
            self.wf(),
        ensures
            *r == self.active_state(),
    {
        &self.tabs[self.active_tab]
    }

    pub fn active_mut(&mut self) -> (r: &mut TabState)
        requires
            old(self).wf(),
        ensures
            *r == old(self).active_state(),
            final(self).tabs@ == old(self).tabs@.update(old(self).active_tab as int, *final(r)),
            final(self).active_tab == old(self).active_tab,
            final(self).status == old(self).status,
            final(self).confirm == old(self).confirm,
            final(self).cfg == old(self).cfg,
            final(self).auth == old(self).auth,
    {
        &mut self.tabs[self.active_tab]
    }

    /// Starts reloading the active tab; the returned request is the load
    /// to perform, whose outcome goes to [`App::finish_refresh`].
    pub fn refresh_active(&mut self) -> (r: FetchRequest)
        requires
            old(self).wf(),
        ensures
            final(self).wf(),
            old(self).loading_started(*final(self)),
            r == old(self).fetch_for(),
    {
        let idx = self.active_tab;
        let mut st = owned("loading ");
        st.append(self.tabs[idx].name.as_str());
        st.append("…");
        self.status = st;
        self.tabs[idx].data.loading = true;
        let listing = listing_of(self.tabs[idx].spec.kind.as_str());
        proof {
            assert forall|i: int| 0 <= i < self.tabs@.len() implies tab_ok(#[trigger] self.tabs@[i]) by {
                assert(tab_ok(old(self).tabs@[i]));
            }
        }
        FetchRequest { tab: idx, listing }
    }

    /// Takes the outcome of loading tab `tab`: the items and the total the
    /// API reported, or the error's message.
    pub fn finish_refresh(
        &mut self,
        tab: usize,
        result: Result<(Vec<Item>, Option<u32>), String>,
        now_ns: u64,
    )
        requires
            old(self).wf(),
            tab < old(self).tabs@.len(),
        ensures
            final(self).wf(),
            final(self).cfg == old(self).cfg,
            final(self).auth == old(self).auth,
            final(self).active_tab == old(self).active_tab,
            final(self).confirm == old(self).confirm,
            final(self).tabs@.len() == old(self).tabs@.len(),
            forall|j: int| 0 <= j < old(self).tabs@.len() && j != tab ==> final(self).tabs@[j]
                == old(self).tabs@[j],
            final(self).tabs@[tab as int].name == old(self).tabs@[tab as int].name,
            final(self).tabs@[tab as int].spec == old(self).tabs@[tab as int].spec,
            !final(self).tabs@[tab as int].data.loading,
            result matches Ok((items, count)) ==> {
                let d = final(self).tabs@[tab as int].data;
                let t = old(self).tabs@[tab as int];
                &&& d.items == items
                &&& d.selected == kept_selection(t.data.selected, items@.len())
                &&& d.last_loaded == Some(now_ns)
                &&& d.last_error is None
                &&& d.total_count == count
                &&& d.truncated == (count matches Some(c) && c > items@.len())
                &&& final(self).status@ == loaded_text(t.name@, items@.len(), t.spec.kind@, count)
            },
            result matches Err(e) ==> {
                let d = final(self).tabs@[tab as int].data;
                let od = old(self).tabs@[tab as int].data;
                &&& d == ItemsTab { loading: false, last_error: Some(e), ..od }
                &&& final(self).status@ == "error: "@ + e@
            },
    {
        self.tabs[tab].data.loading = false;
        match result {
            Ok((items, count)) => {
                let received = items.len();
                let last = if received == 0 {
                    0
                } else {
                    received - 1
                };
                let sel = if self.tabs[tab].data.selected < last {
                    self.tabs[tab].data.selected
                } else {
                    last
                };
                let truncated = match count {
                    Some(c) => (c as usize) > received,
                    None => false,
                };
                let mut st = self.tabs[tab].name.clone();
                st.append(": ");
                push_decimal(&mut st, received as u64);
                st.append(" ");
                st.append(kind_word(self.tabs[tab].spec.kind.as_str()));
                if truncated {
                    match count {
                        Some(c) => {
                            st.append(" (of ");
                            push_decimal(&mut st, c as u64);
                            st.append(")");
                        },
                        None => {},
                    }
                }
                self.tabs[tab].data.items = items;
                self.tabs[tab].data.selected = sel;
                self.tabs[tab].data.last_loaded = Some(now_ns);
                self.tabs[tab].data.last_error = None;
                self.tabs[tab].data.total_count = count;
                self.tabs[tab].data.truncated = truncated;
                self.status = st;
            },
            Err(e) => {
                let mut st = owned("error: ");
                st.append(e.as_str());
                self.tabs[tab].data.last_error = Some(e);
                self.status = st;
            },
        }
        proof {
            assert forall|i: int| 0 <= i < self.tabs@.len() implies tab_ok(#[trigger] self.tabs@[i]) by {
                assert(tab_ok(old(self).tabs@[i]));
            }
        }
    }
}

/// The active tab is due for a reload at `now` (nanoseconds): auto
/// refresh is on, the tab is not loading, and it never loaded or loaded at
/// least `refresh_interval_secs` ago.
pub open spec fn due(app: App, now: u64) -> bool {
    let d = app.active_state().data;
    let interval = app.cfg.refresh_interval_secs;
    &&& interval != 0
    &&& !d.loading
    &&& match d.last_loaded {
        Some(t) => elapsed_secs(t, now) >= interval,
        None => true,
    }
}

impl App {
    /// Tick — runs each frame. All tabs honor the global
    /// `refresh_interval_secs` (no per-tab live-tail here; the
    /// newsletter platform is low-velocity by nature). `now_ns` is the
    /// caller's monotonic clock; the returned request, if any, is a reload
    /// to perform.
    pub fn tick(&mut self, now_ns: u64) -> (r: Option<FetchRequest>)
        requires
            old(self).wf(),
        ensures
            final(self).wf(),
            due(*old(self), now_ns) ==> r == Some(old(self).fetch_for()) && old(self).loading_started(
                *final(self),
            ),
            !due(*old(self), now_ns) ==> r is None && *final(self) == *old(self),
    {
        let idx = self.active_tab;
        let interval = self.cfg.refresh_interval_secs;
        if interval == 0 {
            return None;
        }
        let stale = match self.tabs[idx].data.last_loaded {
            Some(t) => {
                let elapsed = if now_ns >= t {
                    (now_ns - t) / 1_000_000_000
                } else {
                    0
                };
                elapsed >= interval
            },
            None => true,
        };
        if stale && !self.tabs[idx].data.loading {
            Some(self.refresh_active())
        } else {
            None
        }
    }

    /// Makes tab `idx` the active one (when it exists); a tab with nothing
    /// loaded and no error starts loading, and the load is returned.
    pub fn switch_tab(&mut self, idx: usize) -> (r: Option<FetchRequest>)
        requires
            old(self).wf(),
        ensures
            final(self).wf(),
            switched(*old(self), *final(self), idx, r),
    {
        if idx < self.tabs.len() {
            self.active_tab = idx;
            if self.tabs[idx].data.items.len() == 0 && self.tabs[idx].data.last_error.is_none() {
                return Some(self.refresh_active());
            }
        }
        None
    }

    /// Moves the cursor of the active tab by `delta`, held to the items.
    pub fn move_selection(&mut self, delta: isize)
        requires
            old(self).wf(),
        ensures
            final(self).wf(),
            moved(*old(self), *final(self), delta as int),
    {
        let idx = self.active_tab;
        let n = self.tabs[idx].data.items.len();
        if n == 0 {
            return;
        }
        let cur = self.tabs[idx].data.selected;
        let last = n - 1;
        let next = if delta >= 0 {
            let d = delta as usize;
            if d >= last - cur {
                last
            } else {
                cur + d
            }
        } else {
            let d: usize = if delta == isize::MIN {
                (isize::MAX as usize) + 1
            } else {
                (-delta) as usize
            };
            if d >= cur {
                0
            } else {
                cur - d
            }
        };
        self.tabs[idx].data.selected = next;
        proof {
            assert forall|i: int| 0 <= i < self.tabs@.len() implies tab_ok(#[trigger] self.tabs@[i]) by {
                assert(tab_ok(old(self).tabs@[i]));
            }
        }
    }

    pub fn focused_item(&self) -> (r: Option<&Item>)
        requires
            self.wf(),
        ensures
            r is None <==> self.focused() is None,
            r matches Some(item) ==> self.focused() == Some(*item),
    {
        let t = &self.tabs[self.active_tab];
        if t.data.selected < t.data.items.len() {
            Some(&t.data.items[t.data.selected])
        } else {
            None
        }
    }
}

/// What `move_selection(delta)` does: the active tab's cursor moves by
/// `delta`, held to its items; nothing changes when it has none.
pub open spec fn moved(pre: App, post: App, delta: int) -> bool {
    let d = pre.active_state().data;
    if d.items@.len() == 0 {
        post == pre
    } else {
        pre.selection_moved(post, clamp(d.selected + delta, 0, d.items@.len() - 1) as usize)
    }
}

/// What `switch_tab(idx)` does: an existing tab becomes active, and when
/// it holds nothing and no error it starts loading (`r` is that load).
pub open spec fn switched(pre: App, post: App, idx: usize, r: Option<FetchRequest>) -> bool {
    if idx >= pre.tabs@.len() {
        r is None && post == pre
    } else {
        let mid = App { active_tab: idx, ..pre };
        let t = pre.tabs@[idx as int].data;
        if t.items@.len() == 0 && t.last_error is None {
            r == Some(mid.fetch_for()) && mid.loading_started(post)
        } else {
            r is None && post == mid
        }
    }
}

/// What `open_web` does: the focused item's page, or a status saying
/// there is none.
pub open spec fn web_opened(pre: App, post: App, r: Option<String>) -> bool {
    match pre.focused() {
        None => r is None && pre.same_but_status(post) && post.status@ == "no item under cursor"@,
        Some(item) => post == pre && (r matches Some(u) && u@ == item_url(item)),
    }
}

/// What `yank_id` does: the focused item's id, or a status saying why
/// there is nothing to copy.
pub open spec fn yanked(pre: App, post: App, r: Option<String>) -> bool {
    &&& pre.same_but_status(post)
    &&& match pre.focused() {
        None => r is None && post.status@ == "no item under cursor"@,
        Some(item) => if item_id(item).len() == 0 {
            r is None && post.status@ == "nothing to copy"@
        } else {
            (r matches Some(p) && p@ == item_id(item)) && post.status == pre.status
        },
    }
}

/// What `request_unsubscribe` does: on the subscribers tab, with a
/// subscriber under the cursor, stage its removal; otherwise say why not.
pub open spec fn unsubscribe_requested(pre: App, post: App) -> bool {
    &&& pre.same_but_prompt(post)
    &&& if pre.active_state().spec.kind@ != "subscribers"@ {
        post.confirm == pre.confirm && post.status@ == "X only works on the subscribers tab"@
    } else {
        match pre.focused() {
            Some(Item::Subscriber(s)) => {
                &&& post.confirm matches Some(ConfirmAction::Unsubscribe { id, email }) && id
                    == s.id && email == s.email_address
                &&& post.status@ == prompt_text(post.confirm->0)
            },
            _ => post.confirm == pre.confirm && post.status@ == "no subscriber under cursor"@,
        }
    }
}

/// What `confirm_yes` does: the pending action is taken out and returned.
pub open spec fn confirm_taken(pre: App, post: App, r: Option<ConfirmAction>) -> bool {
    &&& r == pre.confirm
    &&& post.confirm is None
    &&& pre.same_but_prompt(post)
    &&& post.status == pre.status
}

/// What `confirm_no` does: the pending action, if any, is dropped and the
/// status says `cancelled`.
pub open spec fn cancelled(pre: App, post: App) -> bool {
    &&& post.confirm is None
    &&& pre.same_but_prompt(post)
    &&& pre.confirm is Some ==> post.status@ == "cancelled"@
    &&& pre.confirm is None ==> post.status == pre.status
}

/// `p` can stage a publish: the active tab lists drafts and a draft is
/// under the cursor.
pub open spec fn can_publish(pre: App) -> bool {
    &&& pre.active_state().spec.kind@ == "drafts"@
    &&& pre.focused() matches Some(Item::Email(_))
}

/// What `p` does when it cannot stage a publish: the status says why,
/// whatever the clock reads.
pub open spec fn publish_refused(pre: App, post: App) -> bool {
    &&& pre.same_but_prompt(post)
    &&& post.confirm == pre.confirm
    &&& if pre.active_state().spec.kind@ != "drafts"@ {
        post.status@ == "p only works on the drafts tab"@
    } else {
        post.status@ == "no draft under cursor"@
    }
}

/// What `p` does on a focused draft at the UNIX time `now`: a confirm to
/// publish it 5 minutes later, with its prompt as the status.
pub open spec fn publish_staged(pre: App, post: App, now: int) -> bool {
    &&& pre.same_but_prompt(post)
    &&& pre.focused() matches Some(Item::Email(e))
    &&& post.confirm matches Some(ConfirmAction::PublishDraft { id, publish_date }) && id@
        == e.id@ && publish_date@ == utc_iso_text(now + 300)
    &&& post.status@ == prompt_text(post.confirm->0)
}

/// What `request_publish` does at the UNIX time `now`.
pub open spec fn publish_requested(pre: App, post: App, now: int) -> bool {
    if can_publish(pre) {
        publish_staged(pre, post, now)
    } else {
        publish_refused(pre, post)
    }
}

impl App {
    /// `o` / `Enter` — the web page of the focused item, to open; with no
    /// item under the cursor the status says so and nothing is returned.
    pub fn open_web(&mut self) -> (r: Option<String>)
        requires
            old(self).wf(),
        ensures
            final(self).wf(),
            web_opened(*old(self), *final(self), r),
    {
        let url = match self.focused_item() {
            Some(Item::Email(e)) => email_url(&self.auth, e.id.as_str()),
            Some(Item::Subscriber(s)) => subscriber_url(&self.auth, s.id.as_str()),
            None => {
                self.status = owned("no item under cursor");
                return None;
            },
        };
        Some(url)
    }

    /// Takes the outcome of opening `url` in a browser.
    pub fn finish_open_web(&mut self, url: &str, result: Result<(), String>)
        requires
            old(self).wf(),
        ensures
            final(self).wf(),
            old(self).same_but_status(*final(self)),
            result is Ok ==> final(self).status@ == "opened "@ + url@,
            result matches Err(e) ==> final(self).status@ == "open failed: "@ + e@,
    {
        match result {
            Ok(()) => {
                let mut st = owned("opened ");
                st.append(url);
                self.status = st;
            },
            Err(e) => {
                let mut st = owned("open failed: ");
                st.append(e.as_str());
                self.status = st;
            },
        }
    }

    /// `y` — the focused item's id, to copy; nothing when there is no item
    /// under the cursor or its id is empty (the status says which).
    pub fn yank_id(&mut self) -> (r: Option<String>)
        requires
            old(self).wf(),
        ensures
            final(self).wf(),
            yanked(*old(self), *final(self), r),
    {
        let payload = match self.focused_item() {
            Some(item) => owned(item.id()),
            None => {
                self.status = owned("no item under cursor");
                return None;
            },
        };
        if payload.as_str().is_empty() {
            self.status = owned("nothing to copy");
            return None;
        }
        Some(payload)
    }

    /// Takes the outcome of copying `payload` to the clipboard.
    pub fn finish_yank(&mut self, payload: &str, result: Result<(), String>)
        requires
            old(self).wf(),
        ensures
            final(self).wf(),
            old(self).same_but_status(*final(self)),
            result is Ok ==> final(self).status@ == "copied id ("@ + decimal(payload@.len())
                + " chars)"@,
            result matches Err(e) ==> final(self).status@ == "copy failed: "@ + e@,
    {
        match result {
            Ok(()) => {
                let len = payload.unicode_len();
                let mut st = owned("copied id (");
                push_decimal(&mut st, len as u64);
                st.append(" chars)");
                self.status = st;
            },
            Err(e) => {
                let mut st = owned("copy failed: ");
                st.append(e.as_str());
                self.status = st;
            },
        }
    }

    /// `p` at the UNIX time `now` — stages publishing the focused draft 5
    /// minutes later, behind a `[y/n]` confirm. Only valid on the `drafts`
    /// tab. The publish time must be one chrono can represent.
    pub fn request_publish_at(&mut self, now: i64)
        requires
            old(self).wf(),
            in_chrono_range(now + 300),
        ensures
            final(self).wf(),
            publish_requested(*old(self), *final(self), now as int),
    {
        if !str_eq(self.tabs[self.active_tab].spec.kind.as_str(), "drafts") {
            self.status = owned("p only works on the drafts tab");
            return;
        }
        let id = match self.focused_item() {
            Some(Item::Email(e)) => e.id.clone(),
            _ => {
                self.status = owned("no draft under cursor");
                return;
            },
        };
        match publish_date_after(now) {
            Some(publish_date) => {
                let action = ConfirmAction::PublishDraft { id, publish_date };
                self.status = action.prompt();
                self.confirm = Some(action);
            },
            None => {},
        }
    }

    /// `p` — schedule a draft for publishing 5 minutes from now. Only
    /// valid on the `drafts` tab. Stages a `[y/n]` confirm. The tab and the
    /// cursor are checked before the clock is read; when the system clock
    /// reads a time whose publish date chrono cannot represent, the app is
    /// left as it was. When a publish is staged, the UNIX time read from the
    /// system clock is returned: the publish date is 5 minutes after it.
    pub fn request_publish(&mut self) -> (clock: Option<i64>)
        requires
            old(self).wf(),
        ensures
            final(self).wf(),
            !can_publish(*old(self)) ==> publish_refused(*old(self), *final(self)),
            can_publish(*old(self)) ==> (exists|now: int|
                in_chrono_range(now + 300) && #[trigger] publish_staged(
                    *old(self),
                    *final(self),
                    now,
                )) || *final(self) == *old(self),
            !can_publish(*old(self)) ==> clock is None,
            clock matches Some(t) ==> in_chrono_range(t + 300) && publish_staged(
                *old(self),
                *final(self),
                t as int,
            ),
            clock is None && can_publish(*old(self)) ==> *final(self) == *old(self),
    {
        if !str_eq(self.tabs[self.active_tab].spec.kind.as_str(), "drafts") {
            self.status = owned("p only works on the drafts tab");
            return None;
        }
        match self.focused_item() {
            Some(Item::Email(_)) => {},
            _ => {
                self.status = owned("no draft under cursor");
                return None;
            },
        }
        let now = utc_now_secs();
        if -8_334_601_229_100 <= now && now <= 8_210_266_876_499 {
            self.request_publish_at(now);
            Some(now)
        } else {
            None
        }
    }

    /// `X` — unsubscribe focused. Only valid on the `subscribers` tab.
    /// Stages a `[y/n]` confirm.
    pub fn request_unsubscribe(&mut self)
        requires
            old(self).wf(),
        ensures
            final(self).wf(),
            unsubscribe_requested(*old(self), *final(self)),
    {
        if !str_eq(self.tabs[self.active_tab].spec.kind.as_str(), "subscribers") {
            self.status = owned("X only works on the subscribers tab");
            return;
        }
        let action = match self.focused_item() {
            Some(Item::Subscriber(s)) => ConfirmAction::Unsubscribe {
                id: s.id.clone(),
                email: s.email_address.clone(),
            },
            _ => {
                self.status = owned("no subscriber under cursor");
                return;
            },
        };
        self.status = action.prompt();
        self.confirm = Some(action);
    }

    /// `y` (when a confirm is pending) — takes the staged action, to carry
    /// out; its outcome goes to [`App::finish_confirm`].
    pub fn confirm_yes(&mut self) -> (r: Option<ConfirmAction>)
        requires
            old(self).wf(),
        ensures
            final(self).wf(),
            confirm_taken(*old(self), *final(self), r),
    {
        self.confirm.take()
    }

    /// Takes the outcome of a confirmed action. On success the active tab
    /// reloads, and the load is returned.
    pub fn finish_confirm(&mut self, action: ConfirmAction, result: Result<(), String>) -> (r:
        Option<FetchRequest>)
        requires
            old(self).wf(),
        ensures
            final(self).wf(),
            result is Ok ==> r == Some(old(self).fetch_for()) && old(self).loading_started(
                *final(self),
            ),
            result matches Err(e) ==> {
                &&& r is None
                &&& old(self).same_but_status(*final(self))
                &&& action is PublishDraft ==> final(self).status@ == "schedule failed: "@ + e@
                &&& action is Unsubscribe ==> final(self).status@ == "unsubscribe failed: "@ + e@
            },
    {
        match action {
            ConfirmAction::PublishDraft { id, publish_date } => {
                match result {
                    Ok(()) => {
                        let mut st = owned("scheduled ");
                        st.append(id.as_str());
                        st.append(" @ ");
                        st.append(publish_date.as_str());
                        self.status = st;
                        Some(self.refresh_active())
                    },
                    Err(e) => {
                        let mut st = owned("schedule failed: ");
                        st.append(e.as_str());
                        self.status = st;
                        None
                    },
                }
            },
            ConfirmAction::Unsubscribe { id, email } => {
                match result {
                    Ok(()) => {
                        let mut st = owned("unsubscribed ");
                        st.append(email.as_str());
                        self.status = st;
                        Some(self.refresh_active())
                    },
                    Err(e) => {
                        let mut st = owned("unsubscribe failed: ");
                        st.append(e.as_str());
                        self.status = st;
                        None
                    },
                }
            },
        }
    }

    /// `n` / `Esc` (when a confirm is pending) — cancel.
    pub fn confirm_no(&mut self)
        requires
            old(self).wf(),
        ensures
            final(self).wf(),
            cancelled(*old(self), *final(self)),
    {
        if self.confirm.take().is_some() {
            self.status = owned("cancelled");
        }
    }
}

/// The word a status line uses for a tab kind.
fn kind_word(kind: &str) -> (r: &'static str)
    ensures
        r@ == kind_label(kind@),
{
    if str_eq(kind, "drafts") {
        "drafts"
    } else if str_eq(kind, "sent") {
        "sent emails"
    } else if str_eq(kind, "scheduled") {
        "scheduled"
    } else if str_eq(kind, "subscribers") {
        "subscribers"
    } else {
        "items"
    }
}

} // verus!
