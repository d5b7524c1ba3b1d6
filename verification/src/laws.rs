//! Properties of the browser as a whole, proved over the specifications
//! that the functions' contracts use.
use vstd::prelude::*;
use crate::app::{
    cancelled, clamp, confirm_taken, due, moved, publish_requested, Listing,
    short_date_text, tab_ok, unsubscribe_requested, utc_iso_text, App, ConfirmAction, Item,
};
use crate::buttondown::{encode_byte, hex_value, is_hex, unreserved, url_decoded, url_encoded};
use crate::text::hex_char;
use vstd::string::StringSliceAdditionalSpecFns;
use vstd::utf8::{
    encode_scalar, encode_utf8, has_width_2_encoding, has_width_3_encoding, is_ascii_chars,
    is_ascii_chars_encode_utf8,
};
use crate::config::{known_kind, Config};
use crate::keys::{action_for, next_tab, prev_tab, Action, KeyCode, KeyInput};
use crate::text::{first_pos, has_char, is_first};
use crate::view::{
    body_lines, email_detail, field, meta_lines, metadata_section, notes_section, opt_count,
    opt_field, section, shown_rows, stats_lines, subscriber_detail, truncate_text, window_start,
    LineView,
};
use crate::buttondown::{Email, Subscriber};
use crate::text::{lines_of, pad_right_spec, take_at_most};

verus! {

/// The cursor of the list is always inside the window of rows drawn, and
/// the window never runs past the last item.
pub proof fn law_cursor_visible(total: int, selected: int, rows: int)
    requires
        0 <= selected < total,
        rows > 0,
    ensures
        0 <= window_start(total, selected, rows),
        window_start(total, selected, rows) <= selected < window_start(total, selected, rows)
            + shown_rows(total, selected, rows),
        window_start(total, selected, rows) + shown_rows(total, selected, rows) <= total,
{
}

/// Moving the cursor by `d` and then by `-d` brings it back, when the first
/// move stayed inside the list.
pub proof fn law_move_back(a: App, b: App, c: App, d: int)
    requires
        a.wf(),
        a.active_state().data.items@.len() > 0,
        0 <= a.active_state().data.selected + d < a.active_state().data.items@.len(),
        moved(a, b, d),
        moved(b, c, -d),
    ensures
        c.tabs@ == a.tabs@,
        c.active_tab == a.active_tab,
        c.status == a.status,
        c.confirm == a.confirm,
{
    broadcast use vstd::std_specs::vec::group_vec_axioms;

    let i = a.active_tab as int;
    let t = a.tabs@[i];
    let n = t.data.items@.len() as int;
    assert(t.data.items.len() == n);
    assert(clamp(t.data.selected + d, 0, n - 1) == t.data.selected + d);
    assert(b.tabs@[i].data.selected == t.data.selected + d);
    assert(b.active_state().data.items@.len() == n);
    assert(clamp(b.tabs@[i].data.selected - d, 0, n - 1) == t.data.selected);
    assert(c.tabs@ =~= a.tabs@);
}

/// `Home` puts the cursor on the first item and `End` on the last (for
/// lists of up to 2^31 items).
pub proof fn law_home_end(a: App, b: App, c: App)
    requires
        a.wf(),
        a.active_state().data.items@.len() > 0,
        a.active_state().data.items@.len() <= 0x8000_0000,
        moved(a, b, -0x7fff_ffff),
        moved(a, c, 0x7fff_ffff),
    ensures
        b.active_state().data.selected == 0,
        c.active_state().data.selected == a.active_state().data.items@.len() - 1,
{
    assert(tab_ok(a.tabs@[a.active_tab as int]));
}

/// `Tab` then `BackTab` returns to the tab one started from, and both stay
/// among the tabs.
pub proof fn law_next_then_prev(a: App)
    requires
        a.wf(),
    ensures
        next_tab(a) < a.tabs@.len(),
        prev_tab(a) < a.tabs@.len(),
        prev_tab(App { active_tab: next_tab(a), ..a }) == a.active_tab,
{
    broadcast use vstd::std_specs::vec::group_vec_axioms;

    let n = a.tabs@.len() as int;
    assert(a.tabs.len() == n);
    let b = App { active_tab: next_tab(a), ..a };
    assert(b.tabs@.len() == n);
    if a.active_tab + 1 < n {
        assert((a.active_tab + 1) % n == a.active_tab + 1) by (nonlinear_arith)
            requires
                0 <= a.active_tab + 1 < n,
        ;
        assert(next_tab(a) == a.active_tab + 1);
        assert(prev_tab(b) == a.active_tab);
    } else {
        assert((a.active_tab + 1) % n == 0) by (nonlinear_arith)
            requires
                a.active_tab + 1 == n,
                n > 0,
        ;
        assert(next_tab(a) == 0);
        assert(prev_tab(b) == n - 1);
        assert(prev_tab(b) == a.active_tab);
    }
}

/// `Esc` cancels a pending prompt first; with no prompt it quits.
pub proof fn law_esc_cancels_then_quits(key: KeyInput, pending: bool)
    requires
        key.code == KeyCode::Esc,
    ensures
        pending ==> action_for(key, pending) == Some(Action::ConfirmNo),
        !pending ==> action_for(key, pending) == Some(Action::Quit),
{
}

/// `Ctrl+C` quits, prompt or not; `q` quits when no prompt is pending.
pub proof fn law_ctrl_c_quits(key: KeyInput, pending: bool)
    requires
        key.code == KeyCode::Char('c'),
        key.ctrl,
    ensures
        action_for(key, pending) == Some(Action::Quit),
{
}

/// With a prompt pending, `y` answers it (it never copies an id).
pub proof fn law_y_confirms_when_pending(key: KeyInput)
    requires
        key.code == KeyCode::Char('y'),
    ensures
        action_for(key, true) == Some(Action::ConfirmYes),
        action_for(key, false) == Some(Action::YankId),
{
}

/// Staging an unsubscribe and then saying no leaves no action pending and
/// the tabs as they were.
pub proof fn law_unsubscribe_then_cancel(a: App, b: App, c: App)
    requires
        unsubscribe_requested(a, b),
        cancelled(b, c),
    ensures
        c.confirm is None,
        c.tabs == a.tabs,
        c.active_tab == a.active_tab,
{
}

/// Staging an unsubscribe on a focused subscriber and then saying yes
/// hands over the removal of exactly that subscriber.
pub proof fn law_unsubscribe_then_confirm(
    a: App,
    b: App,
    c: App,
    r: Option<ConfirmAction>,
    s: crate::buttondown::Subscriber,
)
    requires
        a.active_state().spec.kind@ == "subscribers"@,
        a.focused() == Some(Item::Subscriber(s)),
        unsubscribe_requested(a, b),
        confirm_taken(b, c, r),
    ensures
        r matches Some(ConfirmAction::Unsubscribe { id, email }) && id == s.id && email
            == s.email_address,
        c.confirm is None,
        c.tabs == a.tabs,
{
}

/// Staging a publish on a focused draft and then saying yes hands over scheduling exactly that
/// draft, 5 minutes after the time of the request.
pub proof fn law_publish_then_confirm(
    a: App,
    b: App,
    c: App,
    r: Option<ConfirmAction>,
    e: crate::buttondown::Email,
    now: int,
)
    requires
        a.active_state().spec.kind@ == "drafts"@,
        a.focused() == Some(Item::Email(e)),
        publish_requested(a, b, now),
        confirm_taken(b, c, r),
    ensures
        r matches Some(ConfirmAction::PublishDraft { id, publish_date }) && id@ == e.id@
            && publish_date@ == utc_iso_text(now + 300),
        c.confirm is None,
        c.tabs == a.tabs,
{
}

/// An interval of 0 turns automatic refresh off.
pub proof fn law_zero_interval_never_due(app: App, now: u64)
    requires
        app.cfg.refresh_interval_secs == 0,
    ensures
        !due(app, now),
{
}

/// A configuration that validates has tabs of known kinds only, which is
/// exactly what starting the app needs.
pub proof fn law_valid_config_resolves(cfg: Config)
    requires
        cfg.tabs@.len() > 0,
        cfg.all_kinds_known(),
    ensures
        forall|i: int| 0 <= i < cfg.tabs@.len() ==> known_kind(#[trigger] cfg.tabs@[i].kind@),
        !exists|i: int| #[trigger] cfg.first_unknown(i),
{
    assert forall|i: int| !#[trigger] cfg.first_unknown(i) by {
        if 0 <= i < cfg.tabs@.len() {
            assert(known_kind(cfg.tabs@[i].kind@));
        }
    }
}

/// A cut text has exactly `max` characters and ends in `…`; a text that
/// fits is left as it is.
pub proof fn law_truncate(s: Seq<char>, max: int)
    requires
        max >= 1,
    ensures
        truncate_text(s, max).len() <= max,
        s.len() <= max ==> truncate_text(s, max) == s,
        s.len() > max ==> truncate_text(s, max).len() == max && truncate_text(s, max).last()
            == '…',
        s.len() > max ==> truncate_text(s, max).drop_last() == s.take(max - 1),
{
    if s.len() > max {
        assert(truncate_text(s, max).drop_last() =~= s.take(max - 1));
    }
}

/// The short form of a date is the part before the first `T`: it holds no
/// `T` and is the start of the text.
pub proof fn law_short_date(s: Seq<char>)
    ensures
        !has_char(short_date_text(s), 'T'),
        short_date_text(s).len() <= s.len(),
        short_date_text(s) == s.take(short_date_text(s).len() as int),
        has_char(s, 'T') ==> s[short_date_text(s).len() as int] == 'T',
{
    let d = short_date_text(s);
    if has_char(s, 'T') {
        let k = first_pos(s, 'T');
        assert(is_first(s, 'T', k));
        if has_char(d, 'T') {
            let j = first_pos(d, 'T');
            assert(is_first(d, 'T', j));
            assert(s[j] == 'T');
        }
        assert(d == s.take(k));
    } else {
        assert(s.take(s.len() as int) =~= s);
    }
}

/// Percent-encoding works byte by byte: the encoding of two byte strings
/// one after the other is their encodings one after the other.
pub proof fn law_url_encoding_concat(a: Seq<u8>, b: Seq<u8>)
    ensures
        url_encoded(a + b) == url_encoded(a) + url_encoded(b),
    decreases b.len(),
{
    if b.len() == 0 {
        assert(a + b =~= a);
        assert(url_encoded(a) + url_encoded(b) =~= url_encoded(a));
    } else {
        let n = b.len() - 1;
        law_url_encoding_concat(a, b.drop_last());
        assert((a + b).drop_last() =~= a + b.drop_last());
        assert((a + b).last() == b.last());
        assert(url_encoded(a + b) =~= url_encoded(a) + url_encoded(b.drop_last()) + encode_byte(
            b.last(),
        ));
    }
}

/// Every character of an encoding is an unreserved character, `%`, or an
/// upper-case hex digit: nothing that needs escaping is left.
pub proof fn law_url_encoding_safe(bytes: Seq<u8>, i: int)
    requires
        0 <= i < url_encoded(bytes).len(),
    ensures
        ({
            let c = url_encoded(bytes)[i];
            ||| ('A' <= c <= 'Z')
            ||| ('a' <= c <= 'z')
            ||| ('0' <= c <= '9')
            ||| c == '-' || c == '_' || c == '.' || c == '~' || c == '%'
        }),
    decreases bytes.len(),
{
    if bytes.len() > 0 {
        let init = url_encoded(bytes.drop_last());
        let b = bytes.last();
        assert(url_encoded(bytes) == init + encode_byte(b));
        if i < init.len() {
            law_url_encoding_safe(bytes.drop_last(), i);
            assert(url_encoded(bytes)[i] == init[i]);
        } else {
            let j = i - init.len();
            assert(url_encoded(bytes)[i] == encode_byte(b)[j]);
            if unreserved(b) {
                assert(j == 0);
                assert((b as char) as int == b as int);
            } else {
                assert(b / 16 < 16);
                assert(b % 16 < 16);
            }
        }
    }
}

/// Reading an upper-case hex digit back gives its value.
proof fn lemma_hex_digit_read(d: int)
    requires
        0 <= d < 16,
    ensures
        is_hex(hex_char(d)),
        hex_value(hex_char(d)) == d,
{
}

/// Decoding undoes encoding: a server that percent-decodes the query value
/// gets back exactly the bytes that were encoded.
pub proof fn law_url_decoding_undoes_encoding(bytes: Seq<u8>)
    ensures
        url_decoded(url_encoded(bytes)) == bytes,
    decreases bytes.len(),
{
    if bytes.len() > 0 {
        let b = bytes[0];
        let rest = bytes.subrange(1, bytes.len() as int);
        assert(bytes =~= seq![b] + rest);
        law_url_encoding_concat(seq![b], rest);
        let one = seq![b];
        assert(one.drop_last() =~= Seq::<u8>::empty());
        assert(url_encoded(one.drop_last()) =~= Seq::<char>::empty());
        assert(one.last() == b);
        assert(url_encoded(one) =~= encode_byte(b));
        let e = url_encoded(rest);
        let cs = encode_byte(b) + e;
        assert(url_encoded(bytes) == cs);
        law_url_decoding_undoes_encoding(rest);
        if unreserved(b) {
            assert(cs[0] == b as char);
            assert((b as char) as u8 == b);
            assert(cs[0] != '%');
            assert(cs.subrange(1, cs.len() as int) =~= e);
            assert(url_decoded(cs) =~= seq![b] + rest);
        } else {
            let hi = (b / 16) as int;
            let lo = (b % 16) as int;
            lemma_hex_digit_read(hi);
            lemma_hex_digit_read(lo);
            assert(cs[0] == '%' && cs[1] == hex_char(hi) && cs[2] == hex_char(lo));
            assert(cs.subrange(3, cs.len() as int) =~= e);
            assert(hi * 16 + lo == b);
            assert(url_decoded(cs) =~= seq![b] + rest);
        }
    }
}

/// An encoding is at least as long as its bytes, and two characters longer
/// as soon as one byte is escaped.
proof fn lemma_url_encoding_len(bytes: Seq<u8>)
    ensures
        url_encoded(bytes).len() >= bytes.len(),
        (exists|i: int| 0 <= i < bytes.len() && !unreserved(#[trigger] bytes[i])) ==> url_encoded(
            bytes,
        ).len() >= bytes.len() + 2,
    decreases bytes.len(),
{
    if bytes.len() > 0 {
        let init = bytes.drop_last();
        lemma_url_encoding_len(init);
        if exists|i: int| 0 <= i < bytes.len() && !unreserved(#[trigger] bytes[i]) {
            let i = choose|i: int| 0 <= i < bytes.len() && !unreserved(#[trigger] bytes[i]);
            if i < init.len() {
                assert(!unreserved(init[i]));
            }
        }
    }
}

/// A text comes out of the encoding unchanged exactly when every one of
/// its bytes is unreserved (`A-Z a-z 0-9 - _ . ~`).
pub proof fn law_url_encoding_identity(bytes: Seq<u8>)
    ensures
        url_encoded(bytes) == bytes.map_values(|b: u8| b as char) <==> forall|i: int|
            0 <= i < bytes.len() ==> unreserved(#[trigger] bytes[i]),
    decreases bytes.len(),
{
    let plain = bytes.map_values(|b: u8| b as char);
    if forall|i: int| 0 <= i < bytes.len() ==> unreserved(#[trigger] bytes[i]) {
        if bytes.len() > 0 {
            let init = bytes.drop_last();
            assert forall|i: int| 0 <= i < init.len() implies unreserved(#[trigger] init[i]) by {
                assert(init[i] == bytes[i]);
            }
            law_url_encoding_identity(init);
            assert(unreserved(bytes[bytes.len() - 1]));
            assert(url_encoded(bytes) =~= plain);
        } else {
            assert(url_encoded(bytes) =~= plain);
        }
    } else {
        lemma_url_encoding_len(bytes);
        assert(url_encoded(bytes).len() != plain.len());
    }
}

/// A character outside `'\0'..='\u{7f}'` has a code above 127, whichever
/// way it is read as a number.
proof fn lemma_char_code(c: char)
    ensures
        c as u32 == c as int,
        !('\0' <= c <= '\u{7f}') ==> c as int > 127,
{
}

/// A character beyond ASCII leaves a byte of 128 or more in the UTF-8
/// encoding.
proof fn lemma_non_ascii_leaves_high_byte(chars: Seq<char>, i: int)
    requires
        0 <= i < chars.len(),
        chars[i] as int > 0x7f,
    ensures
        exists|j: int|
            0 <= j < encode_utf8(chars).len() && #[trigger] encode_utf8(chars)[j] >= 128,
    decreases i,
{
    let c0 = chars[0] as u32;
    let head = encode_scalar(c0);
    let tail = encode_utf8(chars.drop_first());
    assert(encode_utf8(chars) == head + tail);
    if i == 0 {
        vstd::utf8::char_is_scalar(chars[0]);
        lemma_char_code(chars[0]);
        if has_width_2_encoding(c0) {
            let y: u8 = ((c0 >> 6) & 0x1F) as u8;
            assert((0xC0u8 | y) >= 0x80u8) by (bit_vector);
        } else if has_width_3_encoding(c0) {
            let y: u8 = ((c0 >> 12) & 0x0F) as u8;
            assert((0xE0u8 | y) >= 0x80u8) by (bit_vector);
        } else {
            let y: u8 = ((c0 >> 18) & 0x7) as u8;
            assert((0xF0u8 | y) >= 0x80u8) by (bit_vector);
        }
        assert(encode_utf8(chars)[0] == head[0]);
    } else {
        let rest = chars.drop_first();
        assert(rest[i - 1] == chars[i]);
        lemma_non_ascii_leaves_high_byte(rest, i - 1);
        let j = choose|j: int| 0 <= j < tail.len() && #[trigger] tail[j] >= 128;
        assert(encode_utf8(chars)[head.len() + j] == tail[j]);
    }
}

/// `urlencode` gives its input back unchanged exactly when every byte of
/// it is unreserved (`A-Z a-z 0-9 - _ . ~`).
pub proof fn law_urlencode_unchanged_iff_unreserved(s: &str)
    ensures
        url_encoded(s.spec_bytes()) == s@ <==> forall|i: int|
            0 <= i < s.spec_bytes().len() ==> unreserved(#[trigger] s.spec_bytes()[i]),
{
    let chars = s@;
    let bytes = s.spec_bytes();
    assert(bytes == encode_utf8(chars));
    if is_ascii_chars(chars) {
        is_ascii_chars_encode_utf8(chars);
        let plain = bytes.map_values(|b: u8| b as char);
        assert forall|i: int| 0 <= i < chars.len() implies plain[i] == chars[i] by {
            let c = chars[i];
            assert('\0' <= c <= '\u{7f}');
            assert(bytes[i] == c as u8);
            assert((c as u8) as char == c);
        }
        assert(plain =~= chars);
        law_url_encoding_identity(bytes);
    } else {
        let i = choose|i: int| 0 <= i < chars.len() && !('\0' <= #[trigger] chars[i] <= '\u{7f}');
        let c: char = chars[i];
        lemma_char_code(c);
        lemma_non_ascii_leaves_high_byte(chars, i);
        let j = choose|j: int| 0 <= j < bytes.len() && #[trigger] bytes[j] >= 128;
        assert(!unreserved(bytes[j]));
        if url_encoded(bytes) == chars {
            law_url_encoding_safe(bytes, i);
            assert(false);
        }
    }
}

/// The documented chords do what the key table says, whether or not a
/// prompt is pending (the prompt only takes `y`, `n`, `Esc` and `Ctrl+C`):
/// arrows and `j`/`k` move, `PgUp`/`PgDn` jump 10 rows up/down, `g`/`G` go
/// to the top/bottom, `Tab`/`BackTab` cycle, `1`-`9` pick that tab,
/// `Enter`/`o` open, `p` publishes, `X` unsubscribes, `r` refreshes, `q`
/// quits; with no prompt, `y` copies the id.
pub proof fn law_key_chords(key: KeyInput, pending: bool)
    ensures
        key.code == KeyCode::Up ==> action_for(key, pending) == Some(Action::Up),
        key.code == KeyCode::Char('k') ==> action_for(key, pending) == Some(Action::Up),
        key.code == KeyCode::Down ==> action_for(key, pending) == Some(Action::Down),
        key.code == KeyCode::Char('j') ==> action_for(key, pending) == Some(Action::Down),
        key.code == KeyCode::PageUp ==> action_for(key, pending) == Some(Action::PageUp),
        key.code == KeyCode::PageDown ==> action_for(key, pending) == Some(Action::PageDown),
        key.code == KeyCode::Home ==> action_for(key, pending) == Some(Action::Home),
        key.code == KeyCode::Char('g') ==> action_for(key, pending) == Some(Action::Home),
        key.code == KeyCode::End ==> action_for(key, pending) == Some(Action::End),
        key.code == KeyCode::Char('G') ==> action_for(key, pending) == Some(Action::End),
        key.code == KeyCode::Tab ==> action_for(key, pending) == Some(Action::NextTab),
        key.code == KeyCode::BackTab ==> action_for(key, pending) == Some(Action::PrevTab),
        key.code == KeyCode::Enter ==> action_for(key, pending) == Some(Action::OpenWeb),
        key.code == KeyCode::Char('o') ==> action_for(key, pending) == Some(Action::OpenWeb),
        key.code == KeyCode::Char('p') ==> action_for(key, pending) == Some(
            Action::RequestPublish,
        ),
        key.code == KeyCode::Char('X') ==> action_for(key, pending) == Some(
            Action::RequestUnsubscribe,
        ),
        key.code == KeyCode::Char('r') ==> action_for(key, pending) == Some(Action::Refresh),
        key.code == KeyCode::Char('q') ==> action_for(key, pending) == Some(Action::Quit),
        key.code == KeyCode::Char('y') && !pending ==> action_for(key, pending) == Some(
            Action::YankId,
        ),
        key.code == KeyCode::Char('1') ==> action_for(key, pending) == Some(Action::SwitchTab(0)),
        key.code == KeyCode::Char('2') ==> action_for(key, pending) == Some(Action::SwitchTab(1)),
        key.code == KeyCode::Char('3') ==> action_for(key, pending) == Some(Action::SwitchTab(2)),
        key.code == KeyCode::Char('4') ==> action_for(key, pending) == Some(Action::SwitchTab(3)),
        key.code == KeyCode::Char('5') ==> action_for(key, pending) == Some(Action::SwitchTab(4)),
        key.code == KeyCode::Char('6') ==> action_for(key, pending) == Some(Action::SwitchTab(5)),
        key.code == KeyCode::Char('7') ==> action_for(key, pending) == Some(Action::SwitchTab(6)),
        key.code == KeyCode::Char('8') ==> action_for(key, pending) == Some(Action::SwitchTab(7)),
        key.code == KeyCode::Char('9') ==> action_for(key, pending) == Some(Action::SwitchTab(8)),
{
}

/// With auto refresh on (`n` seconds) and the active tab idle, a tick
/// reloads it exactly when at least `n` seconds have passed since it last
/// loaded (in nanoseconds, never before), and always when it never loaded.
pub proof fn law_tick_waits_for_interval(app: App, now: u64)
    requires
        app.cfg.refresh_interval_secs > 0,
        !app.active_state().data.loading,
    ensures
        app.active_state().data.last_loaded matches Some(t) ==> (due(app, now) <==> now
            >= t && now - t >= app.cfg.refresh_interval_secs * 1_000_000_000),
        app.active_state().data.last_loaded is None ==> due(app, now),
{
    if let Some(t) = app.active_state().data.last_loaded {
        let n = app.cfg.refresh_interval_secs as int;
        if now >= t {
            let d = (now - t) as int;
            assert(d / 1_000_000_000 >= n <==> d >= n * 1_000_000_000) by (nonlinear_arith)
                requires
                    d >= 0,
                    n > 0,
            ;
        }
    }
}

/// A tab's reload asks for the listing its kind names: `drafts` the draft
/// emails, `sent` the sent ones, `scheduled` the scheduled ones and
/// `subscribers` the subscribers (each is then fetched from
/// `/emails?status=draft|sent|scheduled&page=1` or `/subscribers?page=1`).
pub proof fn law_reload_lists_the_tab_kind(app: App)
    ensures
        app.active_state().spec.kind@ == "drafts"@ ==> app.fetch_for().listing == Listing::Drafts,
        app.active_state().spec.kind@ == "sent"@ ==> app.fetch_for().listing == Listing::Sent,
        app.active_state().spec.kind@ == "scheduled"@ ==> app.fetch_for().listing
            == Listing::Scheduled,
        app.active_state().spec.kind@ == "subscribers"@ ==> app.fetch_for().listing
            == Listing::Subscribers,
        app.fetch_for().tab == app.active_tab,
{
    reveal_strlit("drafts");
    reveal_strlit("sent");
    reveal_strlit("scheduled");
    reveal_strlit("subscribers");
    assert("drafts"@.len() == 6 && "sent"@.len() == 4 && "scheduled"@.len() == 9);
    assert("subscribers"@.len() == 11);
}

/// The key of the detail field line called `name`.
pub open spec fn field_key(name: Seq<char>) -> Seq<char> {
    " "@ + pad_right_spec(name, 18)
}

proof fn lemma_field_key_start(name: Seq<char>)
    requires
        name.len() >= 2,
    ensures
        field_key(name).len() > 2,
        field_key(name)[0] == ' ',
        field_key(name)[1] == name[0],
        field_key(name)[2] == name[1],
{
    reveal_strlit(" ");
}

/// A section of the detail panel holds no field line.
proof fn lemma_section_has_no_field(heading: Seq<char>, text: Seq<char>, n: int, meta: bool, j: int)
    requires
        0 <= j < section(heading, text, n, meta).len(),
    ensures
        !(section(heading, text, n, meta)[j] is Field),
{
    if text.len() > 0 && j >= 2 {
        let ls = take_at_most(lines_of(text), n);
        if meta {
            assert(meta_lines(ls)[j - 2] == LineView::Meta(" "@ + ls[j - 2]));
        } else {
            assert(body_lines(ls)[j - 2] == LineView::Body(" "@ + ls[j - 2]));
        }
    }
}

/// The keys of the detail fields start with the first two letters of
/// their names, which tells them apart.
proof fn lemma_field_key_letters()
    ensures
        field_key("Subject"@)[1] == 'S' && field_key("Subject"@)[2] == 'u',
        field_key("ID"@)[1] == 'I' && field_key("ID"@)[2] == 'D',
        field_key("Status"@)[1] == 'S' && field_key("Status"@)[2] == 't',
        field_key("Type"@)[1] == 'T' && field_key("Type"@)[2] == 'y',
        field_key("Created"@)[1] == 'C' && field_key("Created"@)[2] == 'r',
        field_key("Publish"@)[1] == 'P' && field_key("Publish"@)[2] == 'u',
        field_key("Modified"@)[1] == 'M' && field_key("Modified"@)[2] == 'o',
        field_key("Word count"@)[1] == 'W' && field_key("Word count"@)[2] == 'o',
        field_key("Recipients"@)[1] == 'R' && field_key("Recipients"@)[2] == 'e',
        field_key("Opens"@)[1] == 'O' && field_key("Opens"@)[2] == 'p',
        field_key("Clicks"@)[1] == 'C' && field_key("Clicks"@)[2] == 'l',
        field_key("Email"@)[1] == 'E' && field_key("Email"@)[2] == 'm',
        field_key("Source"@)[1] == 'S' && field_key("Source"@)[2] == 'o',
{
    reveal_strlit("Subject");
    lemma_field_key_start("Subject"@);
    reveal_strlit("ID");
    lemma_field_key_start("ID"@);
    reveal_strlit("Status");
    lemma_field_key_start("Status"@);
    reveal_strlit("Type");
    lemma_field_key_start("Type"@);
    reveal_strlit("Created");
    lemma_field_key_start("Created"@);
    reveal_strlit("Publish");
    lemma_field_key_start("Publish"@);
    reveal_strlit("Modified");
    lemma_field_key_start("Modified"@);
    reveal_strlit("Word count");
    lemma_field_key_start("Word count"@);
    reveal_strlit("Recipients");
    lemma_field_key_start("Recipients"@);
    reveal_strlit("Opens");
    lemma_field_key_start("Opens"@);
    reveal_strlit("Clicks");
    lemma_field_key_start("Clicks"@);
    reveal_strlit("Email");
    lemma_field_key_start("Email"@);
    reveal_strlit("Source");
    lemma_field_key_start("Source"@);
}

/// In the detail of an email, each field line carries the record field it
/// is named after: `Subject` the subject (`(none)` when empty), `ID` the
/// id, `Status`, `Type`, `Created`, `Publish` and `Modified` the status,
/// email type, creation, publish and modification dates.
#[verifier::rlimit(100)]
pub proof fn law_email_detail_fields(e: Email, i: int, k: Seq<char>, v: Seq<char>)
    requires
        0 <= i < email_detail(e).len(),
        email_detail(e)[i] == LineView::Field(k, v),
    ensures
        k == field_key("Subject"@) ==> v == (if e.subject@.len() == 0 {
            "(none)"@
        } else {
            e.subject@
        }),
        k == field_key("ID"@) ==> v == e.id@,
        k == field_key("Status"@) ==> (e.status matches Some(x) && x@ == v),
        k == field_key("Type"@) ==> (e.email_type matches Some(x) && x@ == v),
        k == field_key("Created"@) ==> (e.creation_date matches Some(x) && x@ == v),
        k == field_key("Publish"@) ==> (e.publish_date matches Some(x) && x@ == v),
        k == field_key("Modified"@) ==> (e.modification_date matches Some(x) && x@ == v),
{
    lemma_field_key_letters();
    let s0 = seq![
        field("Subject"@, if e.subject@.len() == 0 { "(none)"@ } else { e.subject@ }),
        field("ID"@, e.id@),
    ];
    let s1 = opt_field("Status"@, e.status);
    let s2 = opt_field("Type"@, e.email_type);
    let s3 = opt_field("Created"@, e.creation_date);
    let s4 = opt_field("Publish"@, e.publish_date);
    let s5 = opt_field("Modified"@, e.modification_date);
    let s6 = opt_count("Word count"@, e.word_count);
    let s7 = stats_lines(e.analytics);
    let s8 = section(" Body "@, e.body@, 40, false);
    let ls = email_detail(e);
    assert(ls == s0 + s1 + s2 + s3 + s4 + s5 + s6 + s7 + s8);
    let o1 = s0.len() as int;
    let o2 = o1 + s1.len();
    let o3 = o2 + s2.len();
    let o4 = o3 + s3.len();
    let o5 = o4 + s4.len();
    let o6 = o5 + s5.len();
    let o7 = o6 + s6.len();
    let o8 = o7 + s7.len();
    if i < o1 {
        assert(ls[i] == s0[i]);
    } else if i < o2 {
        assert(ls[i] == s1[i - o1]);
    } else if i < o3 {
        assert(ls[i] == s2[i - o2]);
    } else if i < o4 {
        assert(ls[i] == s3[i - o3]);
    } else if i < o5 {
        assert(ls[i] == s4[i - o4]);
    } else if i < o6 {
        assert(ls[i] == s5[i - o5]);
    } else if i < o7 {
        assert(ls[i] == s6[i - o6]);
    } else if i < o8 {
        assert(ls[i] == s7[i - o7]);
        let a = e.analytics->0;
        let t0 = opt_count("Recipients"@, a.recipients);
        let t1 = opt_count("Opens"@, a.opens);
        let t2 = opt_count("Clicks"@, a.clicks);
        assert(s7 == t0 + t1 + t2);
        let j = i - o7;
        if j < t0.len() {
            assert(s7[j] == t0[j]);
        } else if j < t0.len() + t1.len() {
            assert(s7[j] == t1[j - t0.len()]);
        } else {
            assert(s7[j] == t2[j - t0.len() - t1.len()]);
        }
    } else {
        assert(ls[i] == s8[i - o8]);
        lemma_section_has_no_field(" Body "@, e.body@, 40, false, i - o8);
    }
}

/// Every field an email has shows in its detail, under its own name.
#[verifier::rlimit(100)]
pub proof fn law_email_detail_shows_fields(e: Email)
    ensures
        e.status matches Some(x) ==> exists|i: int|
            0 <= i < email_detail(e).len() && #[trigger] email_detail(e)[i] == LineView::Field(
                field_key("Status"@),
                x@,
            ),
        e.publish_date matches Some(x) ==> exists|i: int|
            0 <= i < email_detail(e).len() && #[trigger] email_detail(e)[i] == LineView::Field(
                field_key("Publish"@),
                x@,
            ),
        e.modification_date matches Some(x) ==> exists|i: int|
            0 <= i < email_detail(e).len() && #[trigger] email_detail(e)[i] == LineView::Field(
                field_key("Modified"@),
                x@,
            ),
{
    let s0 = seq![
        field("Subject"@, if e.subject@.len() == 0 { "(none)"@ } else { e.subject@ }),
        field("ID"@, e.id@),
    ];
    let s1 = opt_field("Status"@, e.status);
    let s2 = opt_field("Type"@, e.email_type);
    let s3 = opt_field("Created"@, e.creation_date);
    let s4 = opt_field("Publish"@, e.publish_date);
    let s5 = opt_field("Modified"@, e.modification_date);
    let s6 = opt_count("Word count"@, e.word_count);
    let s7 = stats_lines(e.analytics);
    let s8 = section(" Body "@, e.body@, 40, false);
    let ls = email_detail(e);
    assert(ls == s0 + s1 + s2 + s3 + s4 + s5 + s6 + s7 + s8);
    let o1 = s0.len() as int;
    let o2 = o1 + s1.len();
    let o3 = o2 + s2.len();
    let o4 = o3 + s3.len();
    let o5 = o4 + s4.len();
    if let Some(x) = e.status {
        assert(ls[o1] == s1[0]);
    }
    if let Some(x) = e.publish_date {
        assert(ls[o4] == s4[0]);
    }
    if let Some(x) = e.modification_date {
        assert(ls[o5] == s5[0]);
    }
}

/// In the detail of a subscriber, each field line carries the record
/// field it is named after: `Email` the address, `ID` the id, `Type`,
/// `Created` and `Source` the subscriber type, creation date and source.
pub proof fn law_subscriber_detail_fields(s: Subscriber, i: int, k: Seq<char>, v: Seq<char>)
    requires
        0 <= i < subscriber_detail(s).len(),
        subscriber_detail(s)[i] == LineView::Field(k, v),
    ensures
        k == field_key("Email"@) ==> v == s.email_address@,
        k == field_key("ID"@) ==> v == s.id@,
        k == field_key("Type"@) ==> (s.sub_type matches Some(x) && x@ == v),
        k == field_key("Created"@) ==> (s.creation_date matches Some(x) && x@ == v),
        k == field_key("Source"@) ==> (s.source matches Some(x) && x@ == v),
{
    lemma_field_key_letters();
    let segs = seq![field("Email"@, s.email_address@), field("ID"@, s.id@)] + opt_field(
        "Type"@,
        s.sub_type,
    ) + opt_field("Created"@, s.creation_date) + opt_field("Source"@, s.source);
    let notes = notes_section(s.notes);
    let meta = metadata_section(s.metadata);
    assert(subscriber_detail(s) == segs + notes + meta);
    if i >= segs.len() && i < segs.len() + notes.len() {
        let n = s.notes->0;
        lemma_section_has_no_field(" Notes "@, n@, 10, false, i - segs.len());
    }
    if i >= segs.len() + notes.len() {
        let j = i - segs.len() - notes.len();
        if j >= 2 {
            let ls = take_at_most(lines_of(s.metadata->0@), 20);
            assert(meta_lines(ls)[j - 2] == LineView::Meta(" "@ + ls[j - 2]));
        }
    }
}

} // verus!
