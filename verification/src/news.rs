//! News posts as plain text for the terminal.

use vstd::prelude::*;
use vstd::string::*;

use crate::models::{utc_formatted, NewsItem};
use crate::recording::{trim_whitespace_range, trim_ws};
use crate::strings::{chars_of, push_char, push_str, replace_all, replaced, string_from_range};

verus! {

/// The characters of `s` outside markup tags: `<` opens a tag, `>` closes it,
/// and neither is kept.
pub open spec fn strip_tags(s: Seq<char>, in_tag: bool) -> Seq<char>
    decreases s.len(),
{
    if s.len() == 0 {
        Seq::empty()
    } else if s[0] == '<' {
        strip_tags(s.drop_first(), true)
    } else if s[0] == '>' {
        strip_tags(s.drop_first(), false)
    } else if !in_tag {
        seq![s[0]] + strip_tags(s.drop_first(), in_tag)
    } else {
        strip_tags(s.drop_first(), in_tag)
    }
}

/// The common HTML entities decoded, each once, and line endings normalized to
/// `\n`. `&amp;` is decoded last, so the `&` it gives never starts another
/// entity: `&amp;lt;` stands for the text `&lt;`.
pub open spec fn decode_entities(s: Seq<char>) -> Seq<char> {
    let s1 = replaced(s, "&lt;"@, "<"@);
    let s2 = replaced(s1, "&gt;"@, ">"@);
    let s3 = replaced(s2, "&quot;"@, "\""@);
    let s4 = replaced(s3, "&#39;"@, "'"@);
    let s5 = replaced(s4, "&nbsp;"@, " "@);
    let s6 = replaced(s5, "&amp;"@, "&"@);
    let s7 = replaced(s6, "\r\n"@, "\n"@);
    replaced(s7, "\r"@, "\n"@)
}

/// A post body as plain text: tags dropped, entities decoded, surrounding white
/// space trimmed.
pub open spec fn plain_text(s: Seq<char>) -> Seq<char> {
    trim_ws(decode_entities(strip_tags(s, false)))
}

fn strip_tags_exec(s: &str) -> (r: String)
    ensures
        r@ == strip_tags(s@, false),
{
    let v = chars_of(s);
    let mut out = String::new();
    let mut in_tag = false;
    let mut i: usize = 0;
    assert(v@.skip(0) =~= v@);
    while i < v.len()
        invariant
            i <= v@.len(),
            v@ == s@,
            out@ + strip_tags(v@.skip(i as int), in_tag) == strip_tags(s@, false),
        decreases v@.len() - i,
    {
        let ghost rest = v@.skip(i as int);
        assert(rest.drop_first() =~= v@.skip(i + 1));
        assert(rest[0] == v@[i as int]);
        let c = v[i];
        if c == '<' {
            in_tag = true;
        } else if c == '>' {
            in_tag = false;
        } else if !in_tag {
            push_char(&mut out, c);
        }
        i = i + 1;
        assert(out@ + strip_tags(v@.skip(i as int), in_tag) =~= strip_tags(s@, false));
    }
    assert(v@.skip(i as int) =~= Seq::<char>::empty());
    assert(out@ =~= strip_tags(s@, false));
    out
}

/// Strip HTML tags and decode common HTML entities for display in the terminal.
pub fn strip_html(s: &str) -> (r: String)
    ensures
        r@ == plain_text(s@),
{
    proof {
        reveal_strlit("&amp;");
        reveal_strlit("&lt;");
        reveal_strlit("&gt;");
        reveal_strlit("&quot;");
        reveal_strlit("&#39;");
        reveal_strlit("&nbsp;");
        reveal_strlit("\r\n");
        reveal_strlit("\r");
    }
    let t = strip_tags_exec(s);
    let t = replace_all(t.as_str(), "&lt;", "<");
    let t = replace_all(t.as_str(), "&gt;", ">");
    let t = replace_all(t.as_str(), "&quot;", "\"");
    let t = replace_all(t.as_str(), "&#39;", "'");
    let t = replace_all(t.as_str(), "&nbsp;", " ");
    let t = replace_all(t.as_str(), "&amp;", "&");
    let t = replace_all(t.as_str(), "\r\n", "\n");
    let t = replace_all(t.as_str(), "\r", "\n");
    let v = chars_of(t.as_str());
    assert(v@.subrange(0, v@.len() as int) =~= v@);
    let (a, b) = trim_whitespace_range(&v, 0, v.len());
    string_from_range(&v, a, b)
}

/// The header line of a post: its date and its author (`Plaza Staff` when
/// unattributed).
pub fn news_header(item: &NewsItem) -> (h: String)
    ensures
        exists|date: Seq<char>|
            {
                &&& h@ == date + " by "@ + crate::recording::tag_or(
                    crate::recording::opt_view(item.author),
                    "Plaza Staff"@,
                )
                &&& match item.created_at {
                    Some(t) => utc_formatted(t, "%Y-%m-%d %H:%M"@) matches Some(text) ==> date == text,
                    None => date == "Unknown"@,
                }
            },
{
    let date = item.created_at_display();
    let mut h = String::new();
    push_str(&mut h, date.as_str());
    push_str(&mut h, " by ");
    match &item.author {
        Some(a) => push_str(&mut h, a.as_str()),
        None => push_str(&mut h, "Plaza Staff"),
    }
    assert(h@ =~= date@ + " by "@ + crate::recording::tag_or(
        crate::recording::opt_view(item.author),
        "Plaza Staff"@,
    ));
    h
}

} // verus!
