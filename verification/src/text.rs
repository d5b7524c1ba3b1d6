//! Text helpers shared by the rest of the crate: character views of
//! strings, decimal and hex rendering, line splitting, truncation and
//! padding, each with the specification it is proved against.
use vstd::prelude::*;
use vstd::string::*;

verus! {

// ── specifications ──────────────────────────────────────────────────

/// The character for a decimal digit `d` (0..=9).
pub open spec fn digit_char(d: int) -> char {
    seq!['0', '1', '2', '3', '4', '5', '6', '7', '8', '9'][d]
}

/// The character for a hex digit `d` (0..=15), upper case.
pub open spec fn hex_char(d: int) -> char {
    seq!['0', '1', '2', '3', '4', '5', '6', '7', '8', '9', 'A', 'B', 'C', 'D', 'E', 'F'][d]
}

/// Decimal rendering of a natural number, without leading zeros.
pub open spec fn decimal(n: nat) -> Seq<char>
    decreases n,
{
    if n < 10 {
        seq![digit_char(n as int)]
    } else {
        decimal(n / 10).push(digit_char((n % 10) as int))
    }
}

/// `i` is the position of the first `c` in `s`.
pub open spec fn is_first(s: Seq<char>, c: char, i: int) -> bool {
    &&& 0 <= i < s.len()
    &&& s[i] == c
    &&& forall|j: int| 0 <= j < i ==> s[j] != c
}

/// `s` holds the character `c`.
pub open spec fn has_char(s: Seq<char>, c: char) -> bool {
    exists|i: int| is_first(s, c, i)
}

/// The position of the first `c` in `s` (meaningful when `has_char(s, c)`).
pub open spec fn first_pos(s: Seq<char>, c: char) -> int {
    choose|i: int| is_first(s, c, i)
}

/// Drops one trailing carriage return.
pub open spec fn strip_cr(s: Seq<char>) -> Seq<char> {
    if s.len() > 0 && s.last() == '\r' {
        s.drop_last()
    } else {
        s
    }
}

/// The lines of a text, as `str::lines` gives them: split at `\n`, a
/// `\r` right before the `\n` dropped, no empty line after a final `\n`.
pub open spec fn lines_of(s: Seq<char>) -> Seq<Seq<char>>
    decreases s.len(),
{
    if s.len() == 0 {
        Seq::empty()
    } else if has_char(s, '\n') {
        let i = first_pos(s, '\n');
        seq![strip_cr(s.take(i))] + lines_of(s.skip(i + 1))
    } else {
        seq![s]
    }
}

/// At most the first `n` elements of `s`.
pub open spec fn take_at_most<A>(s: Seq<A>, n: int) -> Seq<A> {
    if n < s.len() {
        s.take(n)
    } else {
        s
    }
}

/// `n` spaces.
pub open spec fn spaces(n: int) -> Seq<char>
    decreases n,
{
    if n <= 0 {
        Seq::empty()
    } else {
        spaces(n - 1).push(' ')
    }
}

/// `s` padded on the right with spaces to at least `width` characters.
pub open spec fn pad_right_spec(s: Seq<char>, width: int) -> Seq<char> {
    s + spaces(width - s.len())
}

/// The views of a sequence of strings.
pub open spec fn views(v: Seq<String>) -> Seq<Seq<char>> {
    v.map_values(|x: String| x@)
}

// ── trusted std calls ───────────────────────────────────────────────

/// `String::push`: appends one character.
#[verifier::external_body]
pub(crate) fn push_char(s: &mut String, c: char)
    ensures
        final(s)@ == old(s)@.push(c),
{
    s.push(c);
}

/// What `{:?}` prints for a string: the text in double quotes, with
/// quotes, backslashes and unprintable characters escaped.
pub uninterp spec fn debug_quoted(s: Seq<char>) -> Seq<char>;

/// `<str as Debug>::fmt`, through `format!("{:?}")`: the quoted and
/// escaped form of `s`. The escaping rules of std are not restated here;
/// the result is only named.
#[verifier::external_body]
pub(crate) fn debug_str(s: &str) -> (r: String)
    ensures
        r@ == debug_quoted(s@),
{
    format!("{s:?}")
}

// ── executable helpers ──────────────────────────────────────────────

/// The characters of `s`, in order.
pub fn chars_of(s: &str) -> (r: Vec<char>)
    ensures
        r@ == s@,
{
    broadcast use vstd::string::group_string_axioms;

    let mut r: Vec<char> = Vec::new();
    for c in it: s.chars()
        invariant
            r@ == it.seq().take(it.index() as int),
    {
        r.push(c);
    }
    r
}

/// A string holding the characters `v[from..to]`.
pub fn string_of(v: &Vec<char>, from: usize, to: usize) -> (r: String)
    requires
        from <= to <= v@.len(),
    ensures
        r@ == v@.subrange(from as int, to as int),
{
    let mut r = String::new();
    let mut i = from;
    while i < to
        invariant
            from <= i <= to <= v@.len(),
            r@ == v@.subrange(from as int, i as int),
        decreases to - i,
    {
        push_char(&mut r, v[i]);
        assert(v@.subrange(from as int, i + 1) == v@.subrange(from as int, i as int).push(v@[i as int]));
        i = i + 1;
    }
    r
}

/// A fresh `String` with the characters of `s`.
pub fn owned(s: &str) -> (r: String)
    ensures
        r@ == s@,
{
    String::from_str(s)
}

/// Whether two strings hold the same characters.
pub fn str_eq(a: &str, b: &str) -> (r: bool)
    ensures
        r == (a@ == b@),
{
    let x = chars_of(a);
    let y = chars_of(b);
    if x.len() != y.len() {
        return false;
    }
    let mut i: usize = 0;
    while i < x.len()
        invariant
            x@ == a@,
            y@ == b@,
            x@.len() == y@.len(),
            i <= x@.len(),
            forall|j: int| 0 <= j < i ==> x@[j] == y@[j],
        decreases x@.len() - i,
    {
        if x[i] != y[i] {
            return false;
        }
        i = i + 1;
    }
    assert(x@ =~= y@);
    true
}

/// The character for the decimal digit `d`.
pub fn digit(d: u64) -> (c: char)
    requires
        d < 10,
    ensures
        c == digit_char(d as int),
{
    if d == 0 {
        '0'
    } else if d == 1 {
        '1'
    } else if d == 2 {
        '2'
    } else if d == 3 {
        '3'
    } else if d == 4 {
        '4'
    } else if d == 5 {
        '5'
    } else if d == 6 {
        '6'
    } else if d == 7 {
        '7'
    } else if d == 8 {
        '8'
    } else {
        '9'
    }
}

/// The character for the hex digit `d`, upper case.
pub fn hex_digit(d: u8) -> (c: char)
    requires
        d < 16,
    ensures
        c == hex_char(d as int),
{
    if d < 10 {
        digit(d as u64)
    } else if d == 10 {
        'A'
    } else if d == 11 {
        'B'
    } else if d == 12 {
        'C'
    } else if d == 13 {
        'D'
    } else if d == 14 {
        'E'
    } else {
        'F'
    }
}

/// Appends the decimal rendering of `n` to `out`.
pub fn push_decimal(out: &mut String, n: u64)
    ensures
        final(out)@ == old(out)@ + decimal(n as nat),
    decreases n,
{
    if n >= 10 {
        push_decimal(out, n / 10);
    }
    push_char(out, digit(n % 10));
    proof {
        if n >= 10 {
            assert(decimal(n as nat) == decimal((n / 10) as nat).push(digit_char((n % 10) as int)));
        }
    }
}

/// Appends `n` spaces.
pub fn push_spaces(out: &mut String, n: usize)
    ensures
        final(out)@ == old(out)@ + spaces(n as int),
{
    let mut i: usize = 0;
    while i < n
        invariant
            i <= n,
            out@ == old(out)@ + spaces(i as int),
        decreases n - i,
    {
        push_char(out, ' ');
        i = i + 1;
        assert(spaces(i as int) == spaces(i - 1).push(' '));
    }
}

/// `s` padded on the right with spaces to `width` characters.
pub fn pad_right(s: &str, width: usize) -> (r: String)
    ensures
        r@ == pad_right_spec(s@, width as int),
{
    let n = s.unicode_len();
    let mut r = String::from_str(s);
    if n < width {
        push_spaces(&mut r, width - n);
    } else {
        assert(spaces(width - s@.len()) == Seq::<char>::empty());
    }
    r
}

/// The position of the first `c` in `v[from..]`, counted from `from`.
pub fn find_from(v: &Vec<char>, from: usize, c: char) -> (r: Option<usize>)
    requires
        from <= v@.len(),
    ensures
        match r {
            Some(k) => is_first(v@.skip(from as int), c, k as int),
            None => !has_char(v@.skip(from as int), c),
        },
{
    let ghost t = v@.skip(from as int);
    let mut i = from;
    while i < v.len()
        invariant
            from <= i <= v@.len(),
            t == v@.skip(from as int),
            forall|j: int| 0 <= j < i - from ==> t[j] != c,
        decreases v@.len() - i,
    {
        if v[i] == c {
            assert(is_first(t, c, (i - from) as int));
            return Some(i - from);
        }
        i = i + 1;
    }
    proof {
        if has_char(t, c) {
            let k = choose|k: int| is_first(t, c, k);
            assert(t[k] != c);
        }
    }
    None
}

/// The first position of `c` is unique.
pub proof fn lemma_first_unique(s: Seq<char>, c: char, i: int)
    requires
        is_first(s, c, i),
    ensures
        has_char(s, c),
        first_pos(s, c) == i,
{
    let k = first_pos(s, c);
    assert(is_first(s, c, k));
    if k < i {
        assert(s[k] != c);
    }
    if i < k {
        assert(s[i] != c);
    }
}

/// `v[from..to]` without one trailing carriage return.
fn line_string(v: &Vec<char>, from: usize, to: usize) -> (r: String)
    requires
        from <= to <= v@.len(),
    ensures
        r@ == strip_cr(v@.subrange(from as int, to as int)),
{
    if from < to && v[to - 1] == '\r' {
        let r = string_of(v, from, to - 1);
        assert(v@.subrange(from as int, to as int).drop_last() == v@.subrange(from as int, to - 1));
        r
    } else {
        string_of(v, from, to)
    }
}

/// The first `n` lines of `s` (all of them when it has fewer).
pub fn first_lines(s: &str, n: usize) -> (r: Vec<String>)
    ensures
        views(r@) == take_at_most(lines_of(s@), n as int),
{
    let v = chars_of(s);
    let mut r: Vec<String> = Vec::new();
    let mut pos: usize = 0;
    assert(views(r@) =~= Seq::<Seq<char>>::empty());
    assert(v@.skip(0) =~= v@);
    while pos < v.len() && r.len() < n
        invariant
            v@ == s@,
            pos <= v@.len(),
            r@.len() <= n,
            lines_of(s@) == views(r@) + lines_of(v@.skip(pos as int)),
        decreases v@.len() - pos,
    {
        let ghost rest = v@.skip(pos as int);
        let ghost prev = r@;
        match find_from(&v, pos, '\n') {
            Some(k) => {
                let line = line_string(&v, pos, pos + k);
                proof {
                    lemma_first_unique(rest, '\n', k as int);
                    assert(rest.take(k as int) == v@.subrange(pos as int, pos + k));
                    assert(rest.skip(k + 1) == v@.skip(pos + k + 1));
                    assert(lines_of(rest) == seq![line@] + lines_of(v@.skip(pos + k + 1)));
                }
                r.push(line);
                assert(views(r@) =~= views(prev).push(line@));
                assert(lines_of(s@) =~= views(r@) + lines_of(v@.skip(pos + k + 1)));
                pos = pos + k + 1;
            },
            None => {
                let line = string_of(&v, pos, v.len());
                assert(v@.subrange(pos as int, v@.len() as int) == rest);
                assert(lines_of(rest) == seq![rest]);
                assert(v@.skip(v@.len() as int) =~= Seq::<char>::empty());
                r.push(line);
                assert(views(r@) =~= views(prev).push(line@));
                assert(lines_of(s@) =~= views(r@) + lines_of(v@.skip(v@.len() as int)));
                pos = v.len();
            },
        }
    }
    proof {
        if pos >= v@.len() {
            assert(v@.skip(pos as int) =~= Seq::<char>::empty());
            assert(lines_of(s@) =~= views(r@));
        }
    }
    r
}

} // verus!
