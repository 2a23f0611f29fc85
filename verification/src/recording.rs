//! Capturing the live stream into a local, tagged FLAC library: recording modes,
//! where songs are filed, and the recorder's bookkeeping.
//!
//! A song is written only if it was captured from its start and ended cleanly;
//! songs are written atomically (temporary file, then rename) so the library
//! never holds a partial file.

use vstd::prelude::*;
use vstd::string::*;

use crate::flac::{encode_flac, samples_fit_16_bits, Error, Picture};
use crate::strings::{chars_of, push_char, push_str, string_from_chars, string_from_range};

verus! {

/// What the recorder does with completed songs.
#[derive(Debug, Clone, Copy, PartialEq, Eq, Structural)]
pub enum RecordMode {
    /// Not recording.
    Off,
    /// Keep a rolling cache of the most recent songs; promote with "keep".
    Cache,
    /// Write every completed song straight to the library.
    Session,
}

/// The mode after `m` when cycling Off → Cache → Session → Off.
pub open spec fn next_mode(m: RecordMode) -> RecordMode {
    match m {
        RecordMode::Off => RecordMode::Cache,
        RecordMode::Cache => RecordMode::Session,
        RecordMode::Session => RecordMode::Off,
    }
}

/// The UI label of a mode.
pub open spec fn mode_label(m: RecordMode) -> Seq<char> {
    match m {
        RecordMode::Off => "off"@,
        RecordMode::Cache => "cache"@,
        RecordMode::Session => "session"@,
    }
}

impl Default for RecordMode {
    /// Recording is off unless asked for.
    fn default() -> (m: RecordMode)
        ensures
            m == RecordMode::Off,
    {
        RecordMode::Off
    }
}

impl RecordMode {
    /// The next mode when cycling Off → Cache → Session → Off.
    pub fn next(self) -> (m: RecordMode)
        ensures
            m == next_mode(self),
    {
        match self {
            RecordMode::Off => RecordMode::Cache,
            RecordMode::Cache => RecordMode::Session,
            RecordMode::Session => RecordMode::Off,
        }
    }

    /// A short label for the UI.
    pub fn label(self) -> (l: &'static str)
        ensures
            l@ == mode_label(self),
    {
        match self {
            RecordMode::Off => "off",
            RecordMode::Cache => "cache",
            RecordMode::Session => "session",
        }
    }
}

/// Cycling the mode three times comes back to where it started, and the three
/// modes visited are all different.
pub proof fn lemma_mode_cycle(m: RecordMode)
    ensures
        next_mode(next_mode(next_mode(m))) == m,
        next_mode(m) != m,
        next_mode(next_mode(m)) != m,
        next_mode(next_mode(m)) != next_mode(m),
{
}

/// A control character (Unicode general category Cc).
pub open spec fn is_control_char(c: char) -> bool {
    (c as u32) <= 0x1F || (0x7F <= (c as u32) && (c as u32) <= 0x9F)
}

/// A character with a special meaning in paths on some platform.
pub open spec fn is_path_special(c: char) -> bool {
    c == '/' || c == '\\' || c == ':' || c == '*' || c == '?' || c == '"' || c == '<' || c == '>'
        || c == '|'
}

/// A character with the Unicode `White_Space` property.
pub open spec fn is_white_space(c: char) -> bool {
    let u = c as u32;
    (0x09 <= u && u <= 0x0D) || u == 0x20 || u == 0x85 || u == 0xA0 || u == 0x1680 || (0x2000 <= u
        && u <= 0x200A) || u == 0x2028 || u == 0x2029 || u == 0x202F || u == 0x205F || u == 0x3000
}

/// A character as it appears in a path component: control and path-special
/// characters become `_`.
pub open spec fn clean_char(c: char) -> char {
    if is_control_char(c) || is_path_special(c) {
        '_'
    } else {
        c
    }
}

/// `s` without its leading white space.
pub open spec fn trim_start_ws(s: Seq<char>) -> Seq<char>
    decreases s.len(),
{
    if s.len() > 0 && is_white_space(s[0]) {
        trim_start_ws(s.drop_first())
    } else {
        s
    }
}

/// `s` without its trailing white space.
pub open spec fn trim_end_ws(s: Seq<char>) -> Seq<char>
    decreases s.len(),
{
    if s.len() > 0 && is_white_space(s.last()) {
        trim_end_ws(s.drop_last())
    } else {
        s
    }
}

/// `s` without leading or trailing white space.
pub open spec fn trim_ws(s: Seq<char>) -> Seq<char> {
    trim_end_ws(trim_start_ws(s))
}

/// `s` with every run of white space replaced by one space.
pub open spec fn collapse_ws(s: Seq<char>) -> Seq<char>
    decreases s.len(),
{
    if s.len() == 0 {
        s
    } else {
        let p = collapse_ws(s.drop_last());
        if is_white_space(s.last()) {
            if p.len() > 0 && p.last() == ' ' {
                p
            } else {
                p.push(' ')
            }
        } else {
            p.push(s.last())
        }
    }
}

/// `s` without its trailing dots and white space, in any mix.
pub open spec fn trim_end_dots_ws(s: Seq<char>) -> Seq<char>
    decreases s.len(),
{
    if s.len() > 0 && (s.last() == '.' || is_white_space(s.last())) {
        trim_end_dots_ws(s.drop_last())
    } else {
        s
    }
}

/// The longest length a path component is given.
pub const MAX_COMPONENT_CHARS: usize = 120;

/// `s` made safe to use as a single path component: special and control
/// characters replaced by `_`, every run of white space collapsed to one space,
/// leading white space and any mix of trailing dots and white space removed,
/// capped at 120 characters (trailing dots and white space removed again), and
/// `Unknown` when nothing is left.
pub open spec fn sanitized(s: Seq<char>) -> Seq<char> {
    let collapsed = collapse_ws(s.map_values(|c: char| clean_char(c)));
    let trimmed = trim_end_dots_ws(trim_start_ws(collapsed));
    let capped = trim_end_dots_ws(
        if trimmed.len() > 120 {
            trimmed.take(120)
        } else {
            trimmed
        },
    );
    if capped.len() == 0 {
        "Unknown"@
    } else {
        capped
    }
}

fn is_white_space_exec(c: char) -> (b: bool)
    ensures
        b == is_white_space(c),
{
    let u = c as u32;
    (0x09 <= u && u <= 0x0D) || u == 0x20 || u == 0x85 || u == 0xA0 || u == 0x1680 || (0x2000 <= u
        && u <= 0x200A) || u == 0x2028 || u == 0x2029 || u == 0x202F || u == 0x205F || u == 0x3000
}

fn clean_char_exec(c: char) -> (d: char)
    ensures
        d == clean_char(c),
{
    let u = c as u32;
    if u <= 0x1F || (0x7F <= u && u <= 0x9F) || c == '/' || c == '\\' || c == ':' || c == '*' || c
        == '?' || c == '"' || c == '<' || c == '>' || c == '|' {
        '_'
    } else {
        c
    }
}

/// The bounds of `v[lo..hi]` with leading and trailing white space removed.
pub fn trim_whitespace_range(v: &Vec<char>, lo: usize, hi: usize) -> (r: (usize, usize))
    requires
        lo <= hi <= v@.len(),
    ensures
        lo <= r.0 <= r.1 <= hi,
        v@.subrange(r.0 as int, r.1 as int) == trim_ws(v@.subrange(lo as int, hi as int)),
{
    let mut a = lo;
    while a < hi && is_white_space_exec(v[a])
        invariant
            lo <= a <= hi <= v@.len(),
            trim_start_ws(v@.subrange(a as int, hi as int)) == trim_start_ws(
                v@.subrange(lo as int, hi as int),
            ),
        decreases hi - a,
    {
        assert(v@.subrange(a as int, hi as int).drop_first() =~= v@.subrange(a + 1, hi as int));
        a = a + 1;
    }
    let mut b = hi;
    while b > a && is_white_space_exec(v[b - 1])
        invariant
            lo <= a <= b <= hi <= v@.len(),
            trim_end_ws(v@.subrange(a as int, b as int)) == trim_end_ws(
                v@.subrange(a as int, hi as int),
            ),
        decreases b - a,
    {
        assert(v@.subrange(a as int, b as int).drop_last() =~= v@.subrange(a as int, b - 1));
        b = b - 1;
    }
    (a, b)
}

/// The start of `v[lo..hi]` past its leading white space.
fn skip_ws_start(v: &Vec<char>, lo: usize, hi: usize) -> (a: usize)
    requires
        lo <= hi <= v@.len(),
    ensures
        lo <= a <= hi,
        v@.subrange(a as int, hi as int) == trim_start_ws(v@.subrange(lo as int, hi as int)),
{
    let mut a = lo;
    while a < hi && is_white_space_exec(v[a])
        invariant
            lo <= a <= hi <= v@.len(),
            trim_start_ws(v@.subrange(a as int, hi as int)) == trim_start_ws(
                v@.subrange(lo as int, hi as int),
            ),
        decreases hi - a,
    {
        assert(v@.subrange(a as int, hi as int).drop_first() =~= v@.subrange(a + 1, hi as int));
        a = a + 1;
    }
    a
}

/// The end of `v[lo..hi]` before its trailing dots and white space.
fn trim_dots_ws_end(v: &Vec<char>, lo: usize, hi: usize) -> (b: usize)
    requires
        lo <= hi <= v@.len(),
    ensures
        lo <= b <= hi,
        v@.subrange(lo as int, b as int) == trim_end_dots_ws(v@.subrange(lo as int, hi as int)),
{
    let mut b = hi;
    while b > lo && (v[b - 1] == '.' || is_white_space_exec(v[b - 1]))
        invariant
            lo <= b <= hi <= v@.len(),
            trim_end_dots_ws(v@.subrange(lo as int, b as int)) == trim_end_dots_ws(
                v@.subrange(lo as int, hi as int),
            ),
        decreases b - lo,
    {
        assert(v@.subrange(lo as int, b as int).drop_last() =~= v@.subrange(lo as int, b - 1));
        b = b - 1;
    }
    b
}

/// Make a string safe to use as a single path component (see [`sanitized`]).
pub fn sanitize(s: &str) -> (r: String)
    ensures
        r@ == sanitized(s@),
{
    let chars = chars_of(s);
    let ghost mapped = s@.map_values(|c: char| clean_char(c));
    let mut cleaned: Vec<char> = Vec::new();
    let mut i: usize = 0;
    assert(mapped.take(0) =~= Seq::<char>::empty());
    while i < chars.len()
        invariant
            i <= chars@.len(),
            chars@ == s@,
            mapped == s@.map_values(|c: char| clean_char(c)),
            cleaned@ == collapse_ws(mapped.take(i as int)),
        decreases chars@.len() - i,
    {
        let d = clean_char_exec(chars[i]);
        assert(mapped.take(i + 1).drop_last() =~= mapped.take(i as int));
        assert(mapped.take(i + 1).last() == d);
        if is_white_space_exec(d) {
            let n = cleaned.len();
            if n > 0 && cleaned[n - 1] == ' ' {
            } else {
                cleaned.push(' ');
            }
        } else {
            cleaned.push(d);
        }
        i = i + 1;
    }
    assert(mapped.take(s@.len() as int) =~= mapped);
    let a1 = skip_ws_start(&cleaned, 0, cleaned.len());
    assert(cleaned@.subrange(0, cleaned@.len() as int) =~= cleaned@);
    let b1 = trim_dots_ws_end(&cleaned, a1, cleaned.len());
    let ghost trimmed = cleaned@.subrange(a1 as int, b1 as int);
    let hi = if b1 - a1 > MAX_COMPONENT_CHARS { a1 + MAX_COMPONENT_CHARS } else { b1 };
    assert(cleaned@.subrange(a1 as int, hi as int) =~= if trimmed.len() > 120 {
        trimmed.take(120)
    } else {
        trimmed
    });
    let b2 = trim_dots_ws_end(&cleaned, a1, hi);
    if a1 == b2 {
        proof {
            reveal_strlit("Unknown");
        }
        String::from_str("Unknown")
    } else {
        string_from_range(&cleaned, a1, b2)
    }
}

proof fn lemma_trim_start_is_suffix(s: Seq<char>)
    ensures
        trim_start_ws(s).len() <= s.len(),
        trim_start_ws(s) == s.subrange(s.len() - trim_start_ws(s).len(), s.len() as int),
        trim_start_ws(s).len() > 0 ==> !is_white_space(trim_start_ws(s)[0]),
    decreases s.len(),
{
    if s.len() > 0 && is_white_space(s[0]) {
        lemma_trim_start_is_suffix(s.drop_first());
        let t = trim_start_ws(s.drop_first());
        assert(s.drop_first().subrange(s.len() - 1 - t.len(), s.len() - 1) =~= s.subrange(
            s.len() - t.len(),
            s.len() as int,
        ));
    } else {
        assert(s.subrange(0, s.len() as int) =~= s);
    }
}

proof fn lemma_trim_end_is_prefix(s: Seq<char>)
    ensures
        trim_end_ws(s).len() <= s.len(),
        trim_end_ws(s) == s.subrange(0, trim_end_ws(s).len() as int),
        trim_end_ws(s).len() > 0 ==> !is_white_space(trim_end_ws(s).last()),
    decreases s.len(),
{
    if s.len() > 0 && is_white_space(s.last()) {
        lemma_trim_end_is_prefix(s.drop_last());
        let t = trim_end_ws(s.drop_last());
        assert(s.drop_last().subrange(0, t.len() as int) =~= s.subrange(0, t.len() as int));
    } else {
        assert(s.subrange(0, s.len() as int) =~= s);
    }
}

proof fn lemma_trim_end_dots_ws_is_prefix(s: Seq<char>)
    ensures
        trim_end_dots_ws(s).len() <= s.len(),
        trim_end_dots_ws(s) == s.subrange(0, trim_end_dots_ws(s).len() as int),
        trim_end_dots_ws(s).len() > 0 ==> trim_end_dots_ws(s).last() != '.' && !is_white_space(
            trim_end_dots_ws(s).last(),
        ),
    decreases s.len(),
{
    if s.len() > 0 && (s.last() == '.' || is_white_space(s.last())) {
        lemma_trim_end_dots_ws_is_prefix(s.drop_last());
        let t = trim_end_dots_ws(s.drop_last());
        assert(s.drop_last().subrange(0, t.len() as int) =~= s.subrange(0, t.len() as int));
    } else {
        assert(s.subrange(0, s.len() as int) =~= s);
    }
}

/// No control or path-special character occurs in `s`.
pub open spec fn all_clean(s: Seq<char>) -> bool {
    forall|i: int| 0 <= i < s.len() ==> !is_control_char(#[trigger] s[i]) && !is_path_special(s[i])
}

/// Every white-space character in `s` is a plain space, and no two white-space
/// characters are adjacent.
pub open spec fn spaced_once(s: Seq<char>) -> bool {
    &&& forall|i: int| 0 <= i < s.len() && is_white_space(#[trigger] s[i]) ==> s[i] == ' '
    &&& forall|i: int, j: int|
        #![trigger s[i], s[j]]
        0 <= i && j == i + 1 && j < s.len() ==> !(is_white_space(s[i]) && is_white_space(s[j]))
}

proof fn lemma_tidy_subrange(s: Seq<char>, a: int, b: int)
    requires
        0 <= a <= b <= s.len(),
    ensures
        all_clean(s) ==> all_clean(s.subrange(a, b)),
        spaced_once(s) ==> spaced_once(s.subrange(a, b)),
{
    let t = s.subrange(a, b);
    assert forall|i: int| 0 <= i < t.len() implies #[trigger] t[i] == s[a + i] by {}
    if spaced_once(s) {
        assert forall|i: int, j: int| 0 <= i && j == i + 1 && j < t.len() implies !(is_white_space(
            #[trigger] t[i],
        ) && is_white_space(#[trigger] t[j])) by {
            assert(t[i] == s[a + i] && t[j] == s[a + j]);
        }
    }
}

proof fn lemma_collapse_shape(s: Seq<char>)
    ensures
        collapse_ws(s).len() <= s.len(),
        all_clean(s) ==> all_clean(collapse_ws(s)),
        spaced_once(collapse_ws(s)),
    decreases s.len(),
{
    if s.len() > 0 {
        let d = s.drop_last();
        lemma_collapse_shape(d);
        let p = collapse_ws(d);
        let c = collapse_ws(s);
        assert(' ' as u32 == 0x20);
        if all_clean(s) {
            assert(all_clean(d)) by {
                assert forall|i: int| 0 <= i < d.len() implies !is_control_char(#[trigger] d[i])
                    && !is_path_special(d[i]) by {
                    assert(d[i] == s[i]);
                }
            }
            assert forall|i: int| 0 <= i < c.len() implies !is_control_char(#[trigger] c[i])
                && !is_path_special(c[i]) by {
                if i < p.len() {
                    assert(c[i] == p[i]);
                }
            }
        }
        if c != p {
            assert(c.len() == p.len() + 1);
            assert forall|i: int| 0 <= i < c.len() && is_white_space(#[trigger] c[i]) implies c[i]
                == ' ' by {
                if i < p.len() {
                    assert(c[i] == p[i]);
                }
            }
            assert forall|i: int, j: int| 0 <= i && j == i + 1 && j < c.len() implies !(
            is_white_space(#[trigger] c[i]) && is_white_space(#[trigger] c[j])) by {
                if j < p.len() {
                    assert(c[i] == p[i] && c[j] == p[j]);
                } else {
                    assert(c[i] == p[i]);
                    assert(p.last() == p[i]);
                }
            }
        }
    }
}

proof fn lemma_collapse_id(t: Seq<char>)
    requires
        spaced_once(t),
    ensures
        collapse_ws(t) == t,
    decreases t.len(),
{
    if t.len() > 0 {
        let d = t.drop_last();
        lemma_tidy_subrange(t, 0, t.len() - 1);
        assert(d =~= t.subrange(0, t.len() - 1));
        lemma_collapse_id(d);
        if is_white_space(t.last()) {
            assert(t.last() == t[t.len() - 1]);
            if d.len() > 0 {
                assert(d.last() == t[t.len() - 2]);
                assert(!(is_white_space(t[t.len() - 2]) && is_white_space(t[t.len() - 1])));
                assert(' ' as u32 == 0x20);
            }
        }
        assert(d.push(t.last()) =~= t);
    }
}

/// What `sanitize` returns is usable as one path component: it is not empty, at
/// most 120 characters long, holds no control or path-special character, does
/// not begin with white space, ends neither with a dot nor with white space,
/// and its only white space is single spaces.
pub proof fn lemma_sanitized_is_safe_component(s: Seq<char>)
    ensures
        0 < sanitized(s).len() <= 120,
        all_clean(sanitized(s)),
        !is_white_space(sanitized(s)[0]),
        sanitized(s).last() != '.' && !is_white_space(sanitized(s).last()),
        spaced_once(sanitized(s)),
{
    let mapped = s.map_values(|c: char| clean_char(c));
    assert(all_clean(mapped)) by {
        assert forall|i: int| 0 <= i < mapped.len() implies !is_control_char(#[trigger] mapped[i])
            && !is_path_special(mapped[i]) by {
            assert(mapped[i] == clean_char(s[i]));
        }
    }
    let c = collapse_ws(mapped);
    lemma_collapse_shape(mapped);
    let t0 = trim_start_ws(c);
    lemma_trim_start_is_suffix(c);
    lemma_tidy_subrange(c, c.len() - t0.len(), c.len() as int);
    let t = trim_end_dots_ws(t0);
    lemma_trim_end_dots_ws_is_prefix(t0);
    lemma_tidy_subrange(t0, 0, t.len() as int);
    if t.len() > 0 {
        assert(t[0] == t0[0]);
    }
    let pre = if t.len() > 120 { t.take(120) } else { t };
    lemma_tidy_subrange(t, 0, pre.len() as int);
    assert(pre =~= t.subrange(0, pre.len() as int));
    let capped = trim_end_dots_ws(pre);
    lemma_trim_end_dots_ws_is_prefix(pre);
    lemma_tidy_subrange(pre, 0, capped.len() as int);
    if capped.len() > 0 {
        assert(capped[0] == pre[0] && pre[0] == t[0]);
    } else {
        reveal_strlit("Unknown");
        let u = "Unknown"@;
        assert(sanitized(s) == u);
        assert(u.len() == 7);
        assert(u[0] == 'U' && u[1] == 'n' && u[2] == 'k' && u[3] == 'n' && u[4] == 'o' && u[5] == 'w' && u[6] == 'n');
        assert(all_clean(u));
        assert(spaced_once(u));
    }
}

/// Sanitizing twice gives what sanitizing once gives: a sanitized component is
/// left as it is.
pub proof fn lemma_sanitize_idempotent(s: Seq<char>)
    ensures
        sanitized(sanitized(s)) == sanitized(s),
{
    let r = sanitized(s);
    lemma_sanitized_is_safe_component(s);
    let mapped = r.map_values(|c: char| clean_char(c));
    assert(mapped =~= r) by {
        assert forall|i: int| 0 <= i < r.len() implies mapped[i] == r[i] by {
            assert(!is_control_char(r[i]) && !is_path_special(r[i]));
        }
    }
    lemma_collapse_id(r);
    assert(trim_start_ws(r) == r);
    assert(trim_end_dots_ws(r) == r);
}

/// A printable ASCII character that no platform treats specially in a file
/// name: a space, or anything from `!` to `~` except `/ \ : * ? " < > |`.
pub open spec fn is_plain_name_char(c: char) -> bool {
    c == ' ' || is_plain_visible_char(c)
}

/// A visible ASCII character (`!` to `~`) other than `/ \ : * ? " < > |`.
pub open spec fn is_plain_visible_char(c: char) -> bool {
    &&& 0x21 <= (c as u32) <= 0x7E
    &&& c != '/' && c != '\\' && c != ':' && c != '*' && c != '?' && c != '"' && c != '<' && c != '>'
        && c != '|'
}

/// A name that is already a tidy path component: 1 to 120 plain characters,
/// not starting with a space, not ending with a space or a dot, and with no two
/// spaces in a row.
pub open spec fn is_tidy_plain_name(s: Seq<char>) -> bool {
    &&& 0 < s.len() <= 120
    &&& forall|i: int| 0 <= i < s.len() ==> is_plain_name_char(#[trigger] s[i])
    &&& s[0] != ' '
    &&& s.last() != ' ' && s.last() != '.'
    &&& forall|i: int, j: int| #![trigger s[i], s[j]] 0 <= i && j == i + 1 && j < s.len() ==> !(s[i] == ' ' && s[j] == ' ')
}

/// Sanitizing keeps every ordinary character: a name made of plain characters
/// (apostrophes, dots, commas, brackets, `&` and the like included) that is
/// already tidy comes back unchanged.
pub proof fn lemma_sanitize_keeps_plain_names(s: Seq<char>)
    requires
        is_tidy_plain_name(s),
    ensures
        sanitized(s) == s,
{
    assert forall|i: int| 0 <= i < s.len() implies !is_control_char(#[trigger] s[i]) && !is_path_special(s[i])
        && (is_white_space(s[i]) ==> s[i] == ' ') by {
        assert(is_plain_name_char(s[i]));
    }
    let mapped = s.map_values(|c: char| clean_char(c));
    assert(mapped =~= s) by {
        assert forall|i: int| 0 <= i < s.len() implies mapped[i] == s[i] by {
            assert(!is_control_char(s[i]) && !is_path_special(s[i]));
        }
    }
    assert(spaced_once(s)) by {
        assert forall|i: int| 0 <= i < s.len() && is_white_space(#[trigger] s[i]) implies s[i] == ' ' by {
            assert(is_plain_name_char(s[i]));
        }
        assert forall|i: int, j: int| 0 <= i && j == i + 1 && j < s.len() implies !(is_white_space(
            #[trigger] s[i],
        ) && is_white_space(#[trigger] s[j])) by {
            assert(is_plain_name_char(s[i]) && is_plain_name_char(s[j]));
        }
    }
    lemma_collapse_id(s);
    assert(is_plain_name_char(s[0]) && is_plain_name_char(s.last()));
    assert(trim_start_ws(s) == s);
    assert(trim_end_dots_ws(s) == s);
}

/// In-band metadata for a song, read from the stream.
#[derive(Debug)]
pub struct SongTags {
    /// Performing artist.
    pub artist: Option<String>,
    /// Album title.
    pub album: Option<String>,
    /// Track title.
    pub title: Option<String>,
}

/// The text of a tag, if present.
pub open spec fn opt_view(o: Option<String>) -> Option<Seq<char>> {
    match o {
        Some(s) => Some(s@),
        None => None,
    }
}

/// The tags as text.
pub struct SongTagsView {
    pub artist: Option<Seq<char>>,
    pub album: Option<Seq<char>>,
    pub title: Option<Seq<char>>,
}

impl View for SongTags {
    type V = SongTagsView;

    open spec fn view(&self) -> SongTagsView {
        SongTagsView {
            artist: opt_view(self.artist),
            album: opt_view(self.album),
            title: opt_view(self.title),
        }
    }
}

fn clone_opt_string(o: &Option<String>) -> (r: Option<String>)
    ensures
        opt_view(r) == opt_view(*o),
{
    match o {
        Some(s) => Some(s.clone()),
        None => None,
    }
}

impl Clone for SongTags {
    /// A copy with the same text.
    fn clone(&self) -> (r: SongTags)
        ensures
            r@ == self@,
    {
        SongTags {
            artist: clone_opt_string(&self.artist),
            album: clone_opt_string(&self.album),
            title: clone_opt_string(&self.title),
        }
    }
}

impl Default for SongTags {
    /// No tags at all.
    fn default() -> (t: SongTags)
        ensures
            t.artist is None,
            t.album is None,
            t.title is None,
    {
        SongTags { artist: None, album: None, title: None }
    }
}

/// The tag's text, or the placeholder when the tag is missing.
pub open spec fn tag_or(tag: Option<Seq<char>>, placeholder: Seq<char>) -> Seq<char> {
    match tag {
        Some(t) => t,
        None => placeholder,
    }
}

/// `root` joined with one more path component: a component that begins with `/`
/// replaces the path; otherwise a separator is added unless `root` is empty or
/// already ends with one.
pub open spec fn join_path(root: Seq<char>, comp: Seq<char>) -> Seq<char> {
    if comp.len() > 0 && comp[0] == '/' {
        comp
    } else if root.len() == 0 || root.last() == '/' {
        root + comp
    } else {
        root + "/"@ + comp
    }
}

/// Join one component onto a path (see [`join_path`]).
pub fn join(root: &str, comp: &str) -> (p: String)
    ensures
        p@ == join_path(root@, comp@),
{
    let r = chars_of(root);
    let c = chars_of(comp);
    if c.len() > 0 && c[0] == '/' {
        return string_from_chars(&c);
    }
    let mut p = string_from_chars(&r);
    if r.len() > 0 && r[r.len() - 1] != '/' {
        push_char(&mut p, '/');
        proof {
            reveal_strlit("/");
        }
    }
    push_str(&mut p, comp);
    p
}

/// The file name of a song: `<Artist> - <Title>.flac`.
pub open spec fn song_file_name(artist: Seq<char>, title: Seq<char>) -> Seq<char> {
    artist + " - "@ + title + ".flac"@
}

/// The sanitized artist, album and title of a song, with placeholders for
/// missing tags.
pub open spec fn artist_component(tags: SongTagsView) -> Seq<char> {
    sanitized(tag_or(tags.artist, "Unknown Artist"@))
}

pub open spec fn album_component(tags: SongTagsView) -> Seq<char> {
    sanitized(tag_or(tags.album, "Unknown Album"@))
}

pub open spec fn title_component(tags: SongTagsView) -> Seq<char> {
    sanitized(tag_or(tags.title, "Untitled"@))
}

/// `<root>/<Artist>/<Album>/<Artist> - <Title>.flac`, each component sanitized.
pub open spec fn library_path_of(root: Seq<char>, tags: SongTagsView) -> Seq<char> {
    join_path(
        join_path(join_path(root, artist_component(tags)), album_component(tags)),
        song_file_name(artist_component(tags), title_component(tags)),
    )
}

/// `<root>/.cache/<Artist> - <Title>.flac`, each component sanitized.
pub open spec fn cache_path_of(root: Seq<char>, tags: SongTagsView) -> Seq<char> {
    join_path(
        join_path(root, ".cache"@),
        song_file_name(artist_component(tags), title_component(tags)),
    )
}

fn sanitized_tag(tag: &Option<String>, placeholder: &str) -> (r: String)
    ensures
        r@ == sanitized(tag_or(opt_view(*tag), placeholder@)),
{
    match tag {
        Some(t) => sanitize(t.as_str()),
        None => sanitize(placeholder),
    }
}

fn song_file(artist: &str, title: &str) -> (name: String)
    ensures
        name@ == song_file_name(artist@, title@),
{
    let mut name = string_from_chars(&chars_of(artist));
    push_str(&mut name, " - ");
    push_str(&mut name, title);
    push_str(&mut name, ".flac");
    name
}

/// Where a song is filed in the library (see [`library_path_of`]).
pub fn library_path(root: &str, tags: &SongTags) -> (p: String)
    ensures
        p@ == library_path_of(root@, tags@),
{
    let artist = sanitized_tag(&tags.artist, "Unknown Artist");
    let album = sanitized_tag(&tags.album, "Unknown Album");
    let title = sanitized_tag(&tags.title, "Untitled");
    let dir = join(join(root, artist.as_str()).as_str(), album.as_str());
    let name = song_file(artist.as_str(), title.as_str());
    join(dir.as_str(), name.as_str())
}

/// Where a song is kept in the rolling cache (see [`cache_path_of`]).
pub fn cache_path(root: &str, tags: &SongTags) -> (p: String)
    ensures
        p@ == cache_path_of(root@, tags@),
{
    let artist = sanitized_tag(&tags.artist, "Unknown Artist");
    let title = sanitized_tag(&tags.title, "Untitled");
    let dir = join(root, ".cache");
    let name = song_file(artist.as_str(), title.as_str());
    join(dir.as_str(), name.as_str())
}

/// The Vorbis comments of a song: its artist, album and title where known, and
/// the source station.
pub open spec fn song_comments_of(tags: SongTagsView) -> Seq<(Seq<char>, Seq<char>)> {
    let a: Seq<(Seq<char>, Seq<char>)> = match tags.artist {
        Some(t) => seq![("ARTIST"@, t)],
        None => Seq::empty(),
    };
    let b: Seq<(Seq<char>, Seq<char>)> = match tags.album {
        Some(t) => seq![("ALBUM"@, t)],
        None => Seq::empty(),
    };
    let c: Seq<(Seq<char>, Seq<char>)> = match tags.title {
        Some(t) => seq![("TITLE"@, t)],
        None => Seq::empty(),
    };
    a + b + c + seq![("SOURCE"@, "Nightwave Plaza"@)]
}

/// Whether `(key, value)` is a comment a song with `tags` should carry: each
/// tag it has under its Vorbis name, and the source station.
pub open spec fn is_song_comment(tags: SongTagsView, key: Seq<char>, value: Seq<char>) -> bool {
    ||| key == "ARTIST"@ && tags.artist == Some(value)
    ||| key == "ALBUM"@ && tags.album == Some(value)
    ||| key == "TITLE"@ && tags.title == Some(value)
    ||| key == "SOURCE"@ && value == "Nightwave Plaza"@
}

/// How many of the three tags a song has.
pub open spec fn tag_count(tags: SongTagsView) -> nat {
    (if tags.artist is Some { 1nat } else { 0nat }) + (if tags.album is Some { 1nat } else { 0nat })
        + (if tags.title is Some { 1nat } else { 0nat })
}

/// A song is tagged with exactly the comments it should carry, each once: every
/// tag it has (artist, album, title) under its own name, then the source
/// station last, and nothing else.
pub proof fn lemma_song_comments_are_its_tags(tags: SongTagsView)
    ensures
        forall|k: Seq<char>, v: Seq<char>|
            #[trigger] song_comments_of(tags).contains((k, v)) <==> is_song_comment(tags, k, v),
        song_comments_of(tags).len() == tag_count(tags) + 1,
        song_comments_of(tags).last() == ("SOURCE"@, "Nightwave Plaza"@),
{
    reveal_strlit("ARTIST");
    reveal_strlit("ALBUM");
    reveal_strlit("TITLE");
    reveal_strlit("SOURCE");
    let c = song_comments_of(tags);
    assert("ARTIST"@[0] == 'A' && "ALBUM"@[0] == 'A' && "ALBUM"@[1] == 'L' && "ARTIST"@[1] == 'R');
    assert("TITLE"@[0] == 'T' && "SOURCE"@[0] == 'S');
    assert("ARTIST"@ != "ALBUM"@ && "ARTIST"@ != "TITLE"@ && "ARTIST"@ != "SOURCE"@);
    assert("ALBUM"@ != "TITLE"@ && "ALBUM"@ != "SOURCE"@ && "TITLE"@ != "SOURCE"@);
    assert forall|k: Seq<char>, v: Seq<char>|
        #[trigger] c.contains((k, v)) <==> is_song_comment(tags, k, v) by {
        if c.contains((k, v)) {
            let i = choose|i: int| 0 <= i < c.len() && c[i] == (k, v);
            assert(is_song_comment(tags, k, v));
        }
        if is_song_comment(tags, k, v) {
            if k == "ARTIST"@ {
                assert(c[0] == (k, v));
            } else if k == "ALBUM"@ {
                let i: int = if tags.artist is Some { 1 } else { 0 };
                assert(c[i] == (k, v));
            } else if k == "TITLE"@ {
                let i: int = (if tags.artist is Some { 1int } else { 0int }) + (if tags.album is Some { 1int } else { 0int });
                assert(c[i] == (k, v));
            } else {
                assert(c[c.len() - 1] == (k, v));
            }
        }
    }
}

/// The Vorbis comments of a song (see [`song_comments_of`]).
pub fn song_comments<'a>(tags: &'a SongTags) -> (c: Vec<(&'a str, &'a str)>)
    ensures
        crate::flac::comments_view(c@) == song_comments_of(tags@),
{
    let mut c: Vec<(&'a str, &'a str)> = Vec::new();
    if let Some(a) = &tags.artist {
        c.push(("ARTIST", a.as_str()));
    }
    if let Some(a) = &tags.album {
        c.push(("ALBUM", a.as_str()));
    }
    if let Some(t) = &tags.title {
        c.push(("TITLE", t.as_str()));
    }
    c.push(("SOURCE", "Nightwave Plaza"));
    assert(crate::flac::comments_view(c@) =~= song_comments_of(tags@));
    c
}

/// Encode a captured song to a tagged FLAC stream: its comments (see
/// [`song_comments_of`]) and optional cover art spliced into the encoder's output.
pub fn encode_song(
    pcm: &[i32],
    channels: u16,
    sample_rate: u32,
    tags: &SongTags,
    cover: Option<&Picture>,
) -> (r: Result<Vec<u8>, Error>)
    requires
        samples_fit_16_bits(pcm@),
    ensures
        crate::flac::encoded_outcome(
            r,
            pcm@,
            channels,
            sample_rate,
            crate::flac::vorbis_comment_bytes(song_comments_of(tags@)),
            crate::flac::cover_bytes(cover),
        ),
{
    let comments = song_comments(tags);
    encode_flac(pcm, channels, sample_rate, comments.as_slice(), cover)
}

/// Recorder configuration.
#[derive(Debug)]
pub struct RecordingConfig {
    /// Starting mode.
    pub mode: RecordMode,
    /// Library root directory.
    pub root: String,
    /// How many songs the rolling cache retains.
    pub cache_size: usize,
    /// Whether to download and embed cover art.
    pub embed_artwork: bool,
    /// Skip writing a library file that already exists.
    pub deduplicate: bool,
}

/// A song being captured: its tags, whether it was captured from its start, the
/// artwork URL current when it began, and the format and presence of its audio.
/// The samples themselves are held by the caller.
#[derive(Debug)]
pub struct SongInProgress {
    pub tags: SongTags,
    pub savable: bool,
    pub artwork_url: Option<String>,
    pub sample_rate: u32,
    pub channels: u16,
    pub has_samples: bool,
}

/// An event from the decode path to the recorder.
#[derive(Debug)]
pub enum RecordEvent {
    /// A new song started. `savable` is false for the song already in progress
    /// when recording (or the stream) began: it was joined mid-way.
    Begin { tags: SongTags, savable: bool, artwork_url: Option<String> },
    /// Decoded audio for the current song: its format and sample count.
    Samples { sample_rate: u32, channels: u16, len: usize },
    /// The current song ended cleanly at a boundary.
    Finish,
    /// The current song was interrupted; discard it.
    Abort,
    /// Promote the most recently cached song into the library.
    Keep,
    /// Change what completed songs are done with.
    SetMode(RecordMode),
}

/// What the caller does with the audio it holds after an event.
#[derive(Debug)]
pub enum RecorderAction {
    /// Nothing to do.
    Nothing,
    /// A new song begins: start an empty sample buffer.
    StartSong,
    /// Append the event's samples to the buffer.
    AppendSamples,
    /// Drop the buffered samples unsaved.
    DropSong,
    /// Encode the buffered song and file it in the library.
    WriteToLibrary(SongInProgress),
    /// Encode the buffered song and file it in the rolling cache.
    WriteToCache(SongInProgress),
    /// Promote the most recently cached song into the library.
    KeepLast,
}

/// The recorder: the mode and the song being captured.
#[derive(Debug)]
pub struct Recorder {
    pub mode: RecordMode,
    pub current: Option<SongInProgress>,
}

/// The recorder as its decisions see it: the mode, and the song being captured
/// (its tags, whether it is savable, whether it has audio yet).
pub struct RecModel {
    pub mode: RecordMode,
    pub song: Option<(SongTagsView, bool, bool)>,
}

/// A recorder in mode `m` that is capturing nothing.
pub open spec fn fresh_recorder(m: RecordMode) -> RecModel {
    RecModel { mode: m, song: None }
}

/// What one event does to the recorder.
pub open spec fn rec_step(r: RecModel, e: RecordEvent) -> RecModel {
    match e {
        RecordEvent::Begin { tags, savable, .. } => RecModel { song: Some((tags@, savable, false)), ..r },
        RecordEvent::Samples { len, .. } => match r.song {
            Some((t, sv, audio)) => RecModel { song: Some((t, sv, audio || len > 0)), ..r },
            None => r,
        },
        RecordEvent::Finish => RecModel { song: None, ..r },
        RecordEvent::Abort => RecModel { song: None, ..r },
        RecordEvent::Keep => r,
        RecordEvent::SetMode(m) => if m == RecordMode::Off {
            RecModel { mode: m, song: None }
        } else {
            RecModel { mode: m, ..r }
        },
    }
}

/// The tags of the song an event writes, if it writes one: a clean finish of a
/// savable song with audio while recording is on.
pub open spec fn rec_writes(r: RecModel, e: RecordEvent) -> Option<SongTagsView> {
    match r.song {
        Some((t, savable, audio)) => if e is Finish && savable && audio && r.mode != RecordMode::Off {
            Some(t)
        } else {
            None
        },
        None => None,
    }
}

/// The recorder after the events `es`, in order.
pub open spec fn rec_run(r: RecModel, es: Seq<RecordEvent>) -> RecModel
    decreases es.len(),
{
    if es.len() == 0 {
        r
    } else {
        rec_step(rec_run(r, es.drop_last()), es.last())
    }
}

/// An event that ends the song being captured: a new song, a clean or broken
/// end, or recording turned off.
pub open spec fn closes_song(e: RecordEvent) -> bool {
    ||| e is Begin
    ||| e is Abort
    ||| e is Finish
    ||| e matches RecordEvent::SetMode(m) && m == RecordMode::Off
}

/// The mode after the first `n` events, starting in `m0`.
pub open spec fn mode_after(m0: RecordMode, es: Seq<RecordEvent>, n: int) -> RecordMode
    decreases n,
{
    if n <= 0 {
        m0
    } else {
        match es[n - 1] {
            RecordEvent::SetMode(m) => m,
            _ => mode_after(m0, es, n - 1),
        }
    }
}

/// The tags a `Begin` event carries.
pub open spec fn begin_tags(e: RecordEvent) -> SongTagsView {
    match e {
        RecordEvent::Begin { tags, .. } => tags@,
        _ => SongTagsView { artist: None, album: None, title: None },
    }
}

/// Song `b..=f` of the events was captured whole: `es[b]` begins a savable song,
/// `es[f]` finishes it cleanly, nothing in between ends it (no other begin,
/// finish or abort, recording not turned off), some non-empty audio arrived in
/// between, and recording is on when it finishes.
pub open spec fn song_captured(m0: RecordMode, es: Seq<RecordEvent>, b: int, f: int) -> bool {
    &&& 0 <= b < f < es.len()
    &&& es[b] matches RecordEvent::Begin { savable, .. } && savable
    &&& es[f] is Finish
    &&& forall|k: int| b < k < f ==> !closes_song(#[trigger] es[k])
    &&& exists|k: int| b < k < f && (#[trigger] es[k] matches RecordEvent::Samples { len, .. } && len > 0)
    &&& mode_after(m0, es, f) != RecordMode::Off
}

/// The latest `Begin` among the first `n` events that nothing after it has
/// ended.
pub open spec fn open_begin(es: Seq<RecordEvent>, n: int) -> Option<int>
    decreases n,
{
    if n <= 0 {
        None
    } else if es[n - 1] is Begin {
        Some(n - 1)
    } else if closes_song(es[n - 1]) {
        None
    } else {
        open_begin(es, n - 1)
    }
}

/// Whether non-empty audio arrived strictly between event `b` and event `n`.
pub open spec fn audio_between(es: Seq<RecordEvent>, b: int, n: int) -> bool
    decreases n - b,
{
    if n <= b + 1 {
        false
    } else {
        (es[n - 1] matches RecordEvent::Samples { len, .. } && len > 0) || audio_between(es, b, n - 1)
    }
}

proof fn lemma_run_state(m0: RecordMode, es: Seq<RecordEvent>, n: int)
    requires
        0 <= n <= es.len(),
    ensures
        rec_run(fresh_recorder(m0), es.take(n)).mode == mode_after(m0, es, n),
        rec_run(fresh_recorder(m0), es.take(n)).song == match open_begin(es, n) {
            Some(b) => Some((begin_tags(es[b]), es[b]->Begin_savable, audio_between(es, b, n))),
            None => None::<(SongTagsView, bool, bool)>,
        },
        open_begin(es, n) matches Some(b) ==> 0 <= b < n && es[b] is Begin,
    decreases n,
{
    if n > 0 {
        lemma_run_state(m0, es, n - 1);
        assert(es.take(n).drop_last() =~= es.take(n - 1));
        assert(es.take(n).last() == es[n - 1]);
    }
}

proof fn lemma_open_begin_spans(es: Seq<RecordEvent>, n: int)
    requires
        0 <= n <= es.len(),
    ensures
        open_begin(es, n) matches Some(b) ==> forall|k: int| b < k < n ==> !closes_song(#[trigger] es[k]),
    decreases n,
{
    if n > 0 && !(es[n - 1] is Begin) && !closes_song(es[n - 1]) {
        lemma_open_begin_spans(es, n - 1);
    }
}

proof fn lemma_open_begin_found(es: Seq<RecordEvent>, b: int, n: int)
    requires
        0 <= b < n <= es.len(),
        es[b] is Begin,
        forall|k: int| b < k < n ==> !closes_song(#[trigger] es[k]),
    ensures
        open_begin(es, n) == Some(b),
    decreases n,
{
    if n - 1 > b {
        assert(!closes_song(es[n - 1]));
        lemma_open_begin_found(es, b, n - 1);
    }
}

proof fn lemma_audio_between(es: Seq<RecordEvent>, b: int, n: int)
    requires
        0 <= b < n <= es.len(),
    ensures
        audio_between(es, b, n) <==> exists|k: int| b < k < n && (#[trigger] es[k] matches RecordEvent::Samples { len, .. } && len > 0),
    decreases n - b,
{
    if n > b + 1 {
        lemma_audio_between(es, b, n - 1);
        if exists|k: int| b < k < n && (#[trigger] es[k] matches RecordEvent::Samples { len, .. } && len > 0) {
            let k = choose|k: int| b < k < n && (#[trigger] es[k] matches RecordEvent::Samples { len, .. } && len > 0);
            if k < n - 1 {
                assert(b < k < n - 1 && (es[k] matches RecordEvent::Samples { len, .. } && len > 0));
            }
        }
    }
}

/// The recorder's guarantee over any run of events from a fresh recorder: the
/// event at `f` writes a song exactly when it cleanly finishes a song that was
/// captured whole from its `Begin` (see [`song_captured`]), and what it writes
/// carries that `Begin`'s tags. So only complete songs are written, and a song
/// still open when the events stop is never written.
pub proof fn lemma_recorder_writes_exactly_captured_songs(m0: RecordMode, es: Seq<RecordEvent>, f: int)
    requires
        0 <= f < es.len(),
    ensures
        rec_writes(rec_run(fresh_recorder(m0), es.take(f)), es[f]) is Some <==> exists|b: int| song_captured(m0, es, b, f),
        forall|b: int| song_captured(m0, es, b, f) ==> rec_writes(rec_run(fresh_recorder(m0), es.take(f)), es[f])
            == Some(begin_tags(es[b])),
{
    lemma_run_state(m0, es, f);
    lemma_open_begin_spans(es, f);
    let r = rec_run(fresh_recorder(m0), es.take(f));
    if rec_writes(r, es[f]) is Some {
        let b = open_begin(es, f)->Some_0;
        lemma_audio_between(es, b, f);
        assert(song_captured(m0, es, b, f));
    }
    assert forall|b: int| song_captured(m0, es, b, f) implies rec_writes(r, es[f]) == Some(begin_tags(es[b])) by {
        lemma_open_begin_found(es, b, f);
        lemma_audio_between(es, b, f);
    }
}

/// Each captured song is written at most once, and each write belongs to one
/// song: a song has one finishing event, and a finishing event one beginning.
pub proof fn lemma_captured_song_is_unique(m0: RecordMode, es: Seq<RecordEvent>, b1: int, f1: int, b2: int, f2: int)
    requires
        song_captured(m0, es, b1, f1),
        song_captured(m0, es, b2, f2),
        b1 == b2 || f1 == f2,
    ensures
        b1 == b2 && f1 == f2,
{
    if b1 == b2 && f1 < f2 {
        assert(!closes_song(es[f1]));
    } else if b1 == b2 && f2 < f1 {
        assert(!closes_song(es[f2]));
    } else if f1 == f2 && b1 < b2 {
        assert(!closes_song(es[b2]));
    } else if f1 == f2 && b2 < b1 {
        assert(!closes_song(es[b1]));
    }
}

impl Recorder {
    /// A recorder in `mode` that is capturing nothing yet.
    pub fn new(mode: RecordMode) -> (r: Recorder)
        ensures
            r.mode == mode,
            r.current is None,
    {
        Recorder { mode, current: None }
    }

    /// The recorder as its decisions see it.
    pub open spec fn model(&self) -> RecModel {
        RecModel {
            mode: self.mode,
            song: match self.current {
                Some(c) => Some((c.tags@, c.savable, c.has_samples)),
                None => None,
            },
        }
    }

    /// Whether recording is on (so the decode path can skip copying samples).
    pub fn is_active(&self) -> (b: bool)
        ensures
            b == (self.mode != RecordMode::Off),
    {
        self.mode != RecordMode::Off
    }

    /// Take one event. A new song replaces any unfinished one; samples extend the
    /// current song; a clean finish files a song that was captured from its start
    /// and has audio, in the library (session) or the cache (cache mode), and
    /// drops it otherwise; turning recording off drops the current song.
    pub fn handle(&mut self, event: RecordEvent) -> (action: RecorderAction)
        ensures
            final(self).model() == rec_step(old(self).model(), event),
            match rec_writes(old(self).model(), event) {
                Some(t) => (action matches RecorderAction::WriteToLibrary(c) && c.tags@ == t)
                    || (action matches RecorderAction::WriteToCache(c) && c.tags@ == t),
                None => !(action is WriteToLibrary || action is WriteToCache),
            },
            (action is WriteToLibrary || action is WriteToCache) ==> (event is Finish && (old(self).current matches Some(c)
                && c.savable && c.has_samples)),
            match event {
                RecordEvent::Begin { tags, savable, artwork_url } => {
                    &&& action is StartSong
                    &&& final(self).mode == old(self).mode
                    &&& final(self).current matches Some(c) && c.tags@ == tags@ && c.savable == savable
                        && opt_view(c.artwork_url) == opt_view(artwork_url) && c.sample_rate == 0
                        && c.channels == 0 && !c.has_samples
                },
                RecordEvent::Samples { sample_rate, channels, len } => {
                    &&& final(self).mode == old(self).mode
                    &&& match old(self).current {
                        Some(c) => {
                            &&& action is AppendSamples
                            &&& final(self).current matches Some(n) && n.tags@ == c.tags@
                                && n.savable == c.savable && opt_view(n.artwork_url) == opt_view(
                                c.artwork_url,
                            ) && n.sample_rate == sample_rate && n.channels == channels
                                && n.has_samples == (c.has_samples || len > 0)
                        },
                        None => action is Nothing && final(self).current is None,
                    }
                },
                RecordEvent::Finish => {
                    &&& final(self).mode == old(self).mode
                    &&& final(self).current is None
                    &&& match old(self).current {
                        Some(c) => if c.savable && c.has_samples && old(self).mode != RecordMode::Off {
                            if old(self).mode == RecordMode::Session {
                                action matches RecorderAction::WriteToLibrary(s) && s.tags@ == c.tags@
                                    && s.sample_rate == c.sample_rate && s.channels == c.channels
                                    && opt_view(s.artwork_url) == opt_view(c.artwork_url)
                            } else {
                                action matches RecorderAction::WriteToCache(s) && s.tags@ == c.tags@
                                    && s.sample_rate == c.sample_rate && s.channels == c.channels
                                    && opt_view(s.artwork_url) == opt_view(c.artwork_url)
                            }
                        } else {
                            action is DropSong
                        },
                        None => action is Nothing,
                    }
                },
                RecordEvent::Abort => {
                    &&& action is DropSong
                    &&& final(self).mode == old(self).mode
                    &&& final(self).current is None
                },
                RecordEvent::Keep => {
                    &&& action is KeepLast
                    &&& final(self).mode == old(self).mode
                    &&& final(self).current == old(self).current
                },
                RecordEvent::SetMode(m) => {
                    &&& final(self).mode == m
                    &&& if m == RecordMode::Off {
                        action is DropSong && final(self).current is None
                    } else {
                        action is Nothing && final(self).current == old(self).current
                    }
                },
            },
    {
        match event {
            RecordEvent::Begin { tags, savable, artwork_url } => {
                self.current = Some(
                    SongInProgress {
                        tags,
                        savable,
                        artwork_url,
                        sample_rate: 0,
                        channels: 0,
                        has_samples: false,
                    },
                );
                RecorderAction::StartSong
            },
            RecordEvent::Samples { sample_rate, channels, len } => {
                match self.current.take() {
                    Some(c) => {
                        self.current = Some(
                            SongInProgress {
                                tags: c.tags,
                                savable: c.savable,
                                artwork_url: c.artwork_url,
                                sample_rate,
                                channels,
                                has_samples: c.has_samples || len > 0,
                            },
                        );
                        RecorderAction::AppendSamples
                    },
                    None => RecorderAction::Nothing,
                }
            },
            RecordEvent::Finish => {
                match self.current.take() {
                    Some(c) => {
                        if c.savable && c.has_samples && self.mode != RecordMode::Off {
                            if self.mode == RecordMode::Session {
                                RecorderAction::WriteToLibrary(c)
                            } else {
                                RecorderAction::WriteToCache(c)
                            }
                        } else {
                            RecorderAction::DropSong
                        }
                    },
                    None => RecorderAction::Nothing,
                }
            },
            RecordEvent::Abort => {
                self.current = None;
                RecorderAction::DropSong
            },
            RecordEvent::Keep => RecorderAction::KeepLast,
            RecordEvent::SetMode(mode) => {
                self.mode = mode;
                if mode == RecordMode::Off {
                    self.current = None;
                    RecorderAction::DropSong
                } else {
                    RecorderAction::Nothing
                }
            },
        }
    }
}

/// `s` with every occurrence of `x` removed, order kept.
pub open spec fn without(s: Seq<Seq<char>>, x: Seq<char>) -> Seq<Seq<char>>
    decreases s.len(),
{
    if s.len() == 0 {
        Seq::empty()
    } else {
        let rest = without(s.drop_last(), x);
        if s.last() == x {
            rest
        } else {
            rest.push(s.last())
        }
    }
}

/// No path occurs twice.
pub open spec fn distinct(s: Seq<Seq<char>>) -> bool {
    forall|i: int, j: int| 0 <= i < j < s.len() ==> s[i] != s[j]
}

/// How many of the oldest entries of `kept` are evicted to fit `cache_size`.
pub open spec fn evict_count(kept_len: int, cache_size: int) -> int {
    if kept_len > cache_size { kept_len - cache_size } else { 0 }
}

/// The rolling cache's bookkeeping: the cached files, oldest first, and the most
/// recently cached song (the one "keep" promotes).
pub struct CacheLedger {
    entries: Vec<String>,
    cache_size: usize,
    last_cached: Option<(String, SongTags)>,
}

impl CacheLedger {
    /// The cached files, oldest first.
    pub closed spec fn files(&self) -> Seq<Seq<char>> {
        self.entries@.map_values(|p: String| p@)
    }

    /// How many songs the cache retains.
    pub closed spec fn capacity(&self) -> nat {
        self.cache_size as nat
    }

    /// The most recently cached file and its tags.
    pub closed spec fn last(&self) -> Option<(Seq<char>, SongTagsView)> {
        match self.last_cached {
            Some((p, t)) => Some((p@, t@)),
            None => None,
        }
    }

    /// The ledger's invariant: it holds at least one song, never more than it
    /// may, and no file twice.
    pub closed spec fn wf(&self) -> bool {
        &&& self.cache_size >= 1
        &&& self.files().len() <= self.cache_size
        &&& distinct(self.files())
    }

    /// An empty ledger retaining `cache_size` songs (at least one).
    pub fn new(cache_size: usize) -> (l: CacheLedger)
        ensures
            l.wf(),
            l.files() == Seq::<Seq<char>>::empty(),
            l.capacity() == if cache_size >= 1 { cache_size } else { 1 },
            l.last() is None,
    {
        let l = CacheLedger {
            entries: Vec::new(),
            cache_size: if cache_size >= 1 { cache_size } else { 1 },
            last_cached: None,
        };
        assert(l.files() =~= Seq::<Seq<char>>::empty());
        l
    }

    /// The cached files, oldest first.
    pub fn entries(&self) -> (e: &Vec<String>)
        ensures
            e@.map_values(|p: String| p@) == self.files(),
    {
        &self.entries
    }

    fn remove_path(v: &Vec<String>, x: &str) -> (r: Vec<String>)
        ensures
            r@.map_values(|p: String| p@) == without(v@.map_values(|p: String| p@), x@),
    {
        let ghost vs = v@.map_values(|p: String| p@);
        let mut r: Vec<String> = Vec::new();
        let mut i: usize = 0;
        while i < v.len()
            invariant
                i <= v@.len(),
                vs == v@.map_values(|p: String| p@),
                r@.map_values(|p: String| p@) == without(vs.subrange(0, i as int), x@),
            decreases v@.len() - i,
        {
            proof {
                assert(vs.subrange(0, i + 1).drop_last() =~= vs.subrange(0, i as int));
            }
            let ghost before = r@.map_values(|p: String| p@);
            if !crate::strings::str_eq(v[i].as_str(), x) {
                r.push(v[i].clone());
                assert(r@.map_values(|p: String| p@) =~= before.push(vs[i as int]));
            }
            i = i + 1;
        }
        assert(vs.subrange(0, v@.len() as int) =~= vs);
        r
    }

    /// Record a song just written to the cache at `dest`: it becomes the newest
    /// entry (a file of the same name is not listed twice) and the one "keep"
    /// promotes; the oldest entries beyond the capacity are dropped from the
    /// ledger and returned, oldest first, for the caller to delete.
    pub fn on_cached(&mut self, dest: String, tags: SongTags) -> (evicted: Vec<String>)
        requires
            old(self).wf(),
        ensures
            final(self).wf(),
            final(self).capacity() == old(self).capacity(),
            final(self).last() == Some((dest@, tags@)),
            ({
                let kept = without(old(self).files(), dest@).push(dest@);
                let n = evict_count(kept.len() as int, old(self).capacity() as int);
                &&& evicted@.map_values(|p: String| p@) == kept.take(n)
                &&& final(self).files() == kept.skip(n)
            }),
    {
        let ghost kept = without(self.files(), dest@).push(dest@);
        proof {
            lemma_without_shape(self.files(), dest@);
        }
        let mut entries = Self::remove_path(&self.entries, dest.as_str());
        entries.push(dest.clone());
        assert(entries@.map_values(|p: String| p@) =~= kept);
        let mut evicted: Vec<String> = Vec::new();
        let ghost n = evict_count(kept.len() as int, self.cache_size as int);
        while entries.len() > self.cache_size
            invariant
                self.cache_size >= 1,
                kept.len() <= self.cache_size + 1,
                n == evict_count(kept.len() as int, self.cache_size as int),
                evicted@.len() <= n,
                evicted@.map_values(|p: String| p@) == kept.take(evicted@.len() as int),
                entries@.map_values(|p: String| p@) == kept.skip(evicted@.len() as int),
            decreases entries@.len(),
        {
            let ghost k = evicted@.len() as int;
            let ghost en = entries@;
            let ghost ev = evicted@;
            let ghost env = en.map_values(|p: String| p@);
            assert(env == kept.skip(k));
            assert(env[0] == en[0]@);
            assert(kept.skip(k)[0] == kept[k]);
            let old_entry = entries.remove(0);
            assert(old_entry@ == kept[k]);
            evicted.push(old_entry);
            proof {
                assert(evicted@.map_values(|p: String| p@) =~= ev.map_values(|p: String| p@).push(old_entry@));
                assert(evicted@.map_values(|p: String| p@) =~= kept.take(k + 1));
                let ghost now = entries@.map_values(|p: String| p@);
                assert(now =~= kept.skip(k + 1)) by {
                    assert forall|i: int| 0 <= i < now.len() implies #[trigger] now[i] == kept.skip(k + 1)[i] by {
                        assert(env[i + 1] == en[i + 1]@);
                        assert(kept.skip(k)[i + 1] == kept[k + 1 + i]);
                    }
                }
            }
        }
        self.entries = entries;
        self.last_cached = Some((dest, tags));
        proof {
            assert forall|i: int, j: int|
                0 <= i < j < self.files().len() implies self.files()[i] != self.files()[j] by {
                assert(self.files()[i] == kept[i + n]);
                assert(self.files()[j] == kept[j + n]);
            }
        }
        evicted
    }

    /// Where "keep" moves the most recently cached song: from its cache file to
    /// its place in the library under `root`. `None` when there is nothing to keep.
    pub fn keep_plan(&self, root: &str) -> (r: Option<(String, String)>)
        ensures
            match self.last() {
                Some((path, tags)) => r matches Some((from, to)) && from@ == path
                    && to@ == library_path_of(root@, tags),
                None => r is None,
            },
    {
        match &self.last_cached {
            Some((path, tags)) => Some((path.clone(), library_path(root, tags))),
            None => None,
        }
    }

    /// The most recently cached song was moved into the library: it leaves the
    /// cache and can no longer be kept again.
    pub fn on_kept(&mut self)
        requires
            old(self).wf(),
        ensures
            final(self).wf(),
            final(self).capacity() == old(self).capacity(),
            final(self).last() is None,
            final(self).files() == match old(self).last() {
                Some((path, _)) => without(old(self).files(), path),
                None => old(self).files(),
            },
    {
        match self.last_cached.take() {
            Some((path, _)) => {
                proof {
                    lemma_without_shape(self.files(), path@);
                }
                self.entries = Self::remove_path(&self.entries, path.as_str());
            },
            None => {},
        }
    }
}

/// Removing a path keeps the others in order: the result is no longer, holds
/// no copy of the path, and is distinct when the input was.
proof fn lemma_without_shape(s: Seq<Seq<char>>, x: Seq<char>)
    ensures
        without(s, x).len() <= s.len(),
        forall|i: int| 0 <= i < without(s, x).len() ==> #[trigger] without(s, x)[i] != x,
        forall|i: int| 0 <= i < without(s, x).len() ==> s.contains(#[trigger] without(s, x)[i]),
        distinct(s) ==> distinct(without(s, x)),
    decreases s.len(),
{
    if s.len() > 0 {
        lemma_without_shape(s.drop_last(), x);
        let rest = without(s.drop_last(), x);
        assert forall|i: int| 0 <= i < without(s, x).len() implies s.contains(
            #[trigger] without(s, x)[i],
        ) by {
            if i < rest.len() {
                let w = rest[i];
                assert(s.drop_last().contains(w));
                let k = choose|k: int| 0 <= k < s.drop_last().len() && s.drop_last()[k] == w;
                assert(s[k] == w);
            } else {
                assert(s[s.len() - 1] == s.last());
            }
        }
        if distinct(s) {
            assert(distinct(s.drop_last()));
            assert forall|i: int, j: int|
                0 <= i < j < without(s, x).len() implies without(s, x)[i] != without(s, x)[j] by {
                if j == rest.len() && s.last() != x {
                    let w = rest[i];
                    assert(s.drop_last().contains(w));
                    let k = choose|k: int| 0 <= k < s.drop_last().len() && s.drop_last()[k] == w;
                    assert(s[k] == w);
                    assert(k < s.len() - 1);
                }
            }
        }
    }
}

/// Whether a finished song should be written to the library: not when
/// deduplication is on and the file already exists.
pub fn library_write_needed(deduplicate: bool, already_exists: bool) -> (b: bool)
    ensures
        b == !(deduplicate && already_exists),
{
    !(deduplicate && already_exists)
}

/// The index of the first occurrence of `c` in `s`.
pub open spec fn first_index_of(s: Seq<char>, c: char) -> Option<int>
    decreases s.len(),
{
    if s.len() == 0 {
        None
    } else if s[0] == c {
        Some(0)
    } else {
        match first_index_of(s.drop_first(), c) {
            Some(i) => Some(i + 1),
            None => None,
        }
    }
}

/// The MIME type of downloaded cover art: the `Content-Type` up to any
/// parameters, trimmed; JPEG when the header is missing.
pub open spec fn cover_mime_of(content_type: Option<Seq<char>>) -> Seq<char> {
    match content_type {
        Some(ct) => trim_ws(
            match first_index_of(ct, ';') {
                Some(i) => ct.take(i),
                None => ct,
            },
        ),
        None => "image/jpeg"@,
    }
}

proof fn lemma_first_index_of(s: Seq<char>, c: char)
    ensures
        match first_index_of(s, c) {
            Some(i) => 0 <= i < s.len() && s[i] == c && forall|j: int| 0 <= j < i ==> s[j] != c,
            None => forall|j: int| 0 <= j < s.len() ==> s[j] != c,
        },
    decreases s.len(),
{
    if s.len() > 0 && s[0] != c {
        lemma_first_index_of(s.drop_first(), c);
        assert(forall|j: int| 0 < j < s.len() ==> s.drop_first()[j - 1] == s[j]);
    }
}

/// The MIME type for cover art served with `content_type` (see [`cover_mime_of`]).
pub fn cover_mime(content_type: Option<&str>) -> (m: String)
    ensures
        m@ == cover_mime_of(match content_type {
            Some(ct) => Some(ct@),
            None => None,
        }),
{
    match content_type {
        Some(ct) => {
            let v = chars_of(ct);
            proof {
                lemma_first_index_of(v@, ';');
            }
            let mut end: usize = 0;
            while end < v.len() && v[end] != ';'
                invariant
                    end <= v@.len(),
                    forall|j: int| 0 <= j < end ==> v@[j] != ';',
                decreases v@.len() - end,
            {
                end = end + 1;
            }
            let ghost head = if end < v@.len() { v@.take(end as int) } else { v@ };
            assert(v@.subrange(0, end as int) =~= head);
            let (a, b) = trim_whitespace_range(&v, 0, end);
            string_from_range(&v, a, b)
        },
        None => String::from_str("image/jpeg"),
    }
}

/// Cover art downloaded with `content_type`: none when the body is empty.
pub fn cover_picture(content_type: Option<&str>, data: Vec<u8>) -> (p: Option<Picture>)
    ensures
        data@.len() == 0 ==> p is None,
        data@.len() > 0 ==> (p matches Some(pic) && pic.data@ == data@ && pic.mime@ == cover_mime_of(
            match content_type {
                Some(ct) => Some(ct@),
                None => None,
            },
        )),
{
    if data.len() == 0 {
        None
    } else {
        Some(Picture { mime: cover_mime(content_type), data })
    }
}

} // verus!
