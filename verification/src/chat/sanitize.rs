//! What is taken out of a chat message before it is stored: invisible
//! characters, markup, scripts and contact details.
use vstd::prelude::*;

use crate::text;

verus! {

/// Zero-width characters.
pub const ZERO_WIDTH_PATTERN: &'static str = r"[\u{200B}\u{200C}\u{200D}\u{FEFF}]";

/// A script element with its content.
pub const SCRIPT_TAG_PATTERN: &'static str = "(?i)<script[^>]*>.*?</script>";

/// The `javascript:` scheme.
pub const JS_SCHEME_PATTERN: &'static str = "(?i)javascript:";

/// An email address, also with its `@` spelled out in brackets.
pub const EMAIL_PATTERN: &'static str =
    r"(?i)\b[\w._%+\-]+(\s*[@\[(]at[\])]\s*|@)[\w.\-]+\.[a-zA-Z]{2,}\b";

/// A web address with its scheme.
pub const URL_PATTERN: &'static str = r"(?i)https?://[^\s]+";

/// A web address without a scheme.
pub const WWW_PATTERN: &'static str = r"(?i)www\.[^\s]+";

/// A run of digits and separators that may be a phone number.
pub const PHONE_PATTERN: &'static str = r"(\+?[\d\s\-\.()]{10,20}\d)";

/// What stands in place of an email address.
pub const EMAIL_REMOVED: &'static str = "[email removed]";

/// What stands in place of a web address.
pub const LINK_REMOVED: &'static str = "[link removed]";

/// What stands in place of a phone number.
pub const PHONE_REMOVED: &'static str = "[phone removed]";

/// `text` with each match of `pattern` replaced by `replacement`, where the
/// regular expression engine takes the pattern.
pub uninterp spec fn regex_replaced(
    pattern: Seq<char>,
    text: Seq<char>,
    replacement: Seq<char>,
) -> Option<Seq<char>>;

/// `text` with each match of `pattern` replaced by what `rewrite` makes of it,
/// where the regular expression engine takes the pattern.
pub uninterp spec fn regex_rewritten(
    pattern: Seq<char>,
    text: Seq<char>,
    rewrite: spec_fn(Seq<char>) -> Seq<char>,
) -> Option<Seq<char>>;

/// `regex_lite::Regex::replace_all` on the expression that
/// `regex_lite::Regex::new` compiles from `pattern`: a function of the
/// pattern, the text and the replacement alone, and nothing where the pattern
/// does not compile.
#[verifier::external_body]
fn replace_all(pattern: &str, text: &str, replacement: &str) -> (r: Option<String>)
    ensures
        match r {
            Some(s) => regex_replaced(pattern@, text@, replacement@) == Some(s@),
            None => regex_replaced(pattern@, text@, replacement@) is None,
        },
{
    let re = regex_lite::Regex::new(pattern).ok()?;
    Some(re.replace_all(text, replacement).into_owned())
}

/// `regex_lite::Regex::replace_all` with a function in place of a text: each
/// match of `pattern` gives way to what [`redact_phone`] makes of it. A
/// function of the pattern, the text and that rewriting alone, and nothing
/// where the pattern does not compile.
#[verifier::external_body]
fn rewrite_phones(pattern: &str, text: &str) -> (r: Option<String>)
    ensures
        match r {
            Some(s) => regex_rewritten(pattern@, text@, phone_rewrite()) == Some(s@),
            None => regex_rewritten(pattern@, text@, phone_rewrite()) is None,
        },
{
    let re = regex_lite::Regex::new(pattern).ok()?;
    Some(re.replace_all(text, |caps: &regex_lite::Captures| redact_phone(&caps[0])).into_owned())
}

/// How many ASCII digits a text holds.
pub open spec fn digit_count(s: Seq<char>) -> nat {
    s.filter(|c: char| '0' <= c <= '9').len()
}

/// A candidate for a phone number, taken out where it holds 10 to 15 digits.
pub open spec fn phone_redacted(raw: Seq<char>) -> Seq<char> {
    if 10 <= digit_count(raw) <= 15 {
        PHONE_REMOVED@
    } else {
        raw
    }
}

/// [`phone_redacted`] as a function value.
pub open spec fn phone_rewrite() -> spec_fn(Seq<char>) -> Seq<char> {
    |raw: Seq<char>| phone_redacted(raw)
}

/// A candidate for a phone number, taken out where it holds 10 to 15 digits.
pub fn redact_phone(raw: &str) -> (r: String)
    ensures
        r@ == phone_redacted(raw@),
{
    let v = text::chars_of(raw);
    let mut digits: usize = 0;
    let mut i: usize = 0;
    while i < v.len()
        invariant
            i <= v@.len(),
            digits <= i,
            digits == v@.take(i as int).filter(|c: char| '0' <= c <= '9').len(),
        decreases v@.len() - i,
    {
        proof {
            let p = |c: char| '0' <= c <= '9';
            assert(v@.take(i + 1).drop_last() =~= v@.take(i as int));
            reveal(Seq::filter);
            assert(v@.take(i + 1).filter(p).len() == v@.take(i as int).filter(p).len() + if p(
                v@[i as int],
            ) {
                1int
            } else {
                0
            });
        }
        if '0' <= v[i] && v[i] <= '9' {
            digits = digits + 1;
        }
        i = i + 1;
    }
    assert(v@.take(i as int) =~= raw@);
    if 10 <= digits && digits <= 15 {
        PHONE_REMOVED.to_owned()
    } else {
        raw.to_owned()
    }
}

/// The steps before markup is stripped.
pub open spec fn before_markup(text: Seq<char>) -> Option<Seq<char>> {
    match regex_replaced(ZERO_WIDTH_PATTERN@, text, ""@) {
        None => None,
        Some(t) => regex_replaced(SCRIPT_TAG_PATTERN@, t, ""@),
    }
}

/// The replacements after markup is stripped, in order.
pub open spec fn contacts_removed(clean: Seq<char>) -> Option<Seq<char>> {
    match regex_replaced(JS_SCHEME_PATTERN@, clean, ""@) {
        None => None,
        Some(t) => match regex_replaced(EMAIL_PATTERN@, t, EMAIL_REMOVED@) {
            None => None,
            Some(t) => match regex_replaced(URL_PATTERN@, t, LINK_REMOVED@) {
                None => None,
                Some(t) => match regex_replaced(WWW_PATTERN@, t, LINK_REMOVED@) {
                    None => None,
                    Some(t) => regex_rewritten(PHONE_PATTERN@, t, phone_rewrite()),
                },
            },
        },
    }
}

/// The steps after markup is stripped.
pub open spec fn after_markup(clean: Seq<char>) -> Option<Seq<char>> {
    match contacts_removed(clean) {
        None => None,
        Some(t) => Some(text::trimmed(t)),
    }
}

/// `out` is what a message text becomes where `sanitize_html` strips markup.
pub open spec fn sanitizes<F: Fn(&str) -> String>(
    sanitize_html: F,
    text: Seq<char>,
    out: Option<Seq<char>>,
) -> bool {
    if text.len() == 0 {
        out == Some(Seq::<char>::empty())
    } else {
        match before_markup(text) {
            None => out is None,
            Some(t) => exists|marked: &str, clean: String|
                marked@ == t && #[trigger] call_ensures(sanitize_html, (marked,), clean) && out
                    == after_markup(clean@),
        }
    }
}

/// What precedes the stripping of markup: zero-width characters and script
/// elements go.
pub fn strip_hidden(text: &str) -> (r: Option<String>)
    ensures
        match r {
            Some(s) => before_markup(text@) == Some(s@),
            None => before_markup(text@) is None,
        },
{
    let t = replace_all(ZERO_WIDTH_PATTERN, text, "")?;
    replace_all(SCRIPT_TAG_PATTERN, t.as_str(), "")
}

/// What follows the stripping of markup: script schemes go, email addresses,
/// links and phone numbers give way to a note, and the ends are trimmed.
pub fn strip_contacts(clean: &str) -> (r: Option<String>)
    ensures
        match r {
            Some(s) => after_markup(clean@) == Some(s@),
            None => after_markup(clean@) is None,
        },
{
    let t = replace_all(JS_SCHEME_PATTERN, clean, "")?;
    let t = replace_all(EMAIL_PATTERN, t.as_str(), EMAIL_REMOVED)?;
    let t = replace_all(URL_PATTERN, t.as_str(), LINK_REMOVED)?;
    let t = replace_all(WWW_PATTERN, t.as_str(), LINK_REMOVED)?;
    let t = rewrite_phones(PHONE_PATTERN, t.as_str())?;
    Some(text::trim(t.as_str()).to_owned())
}

/// A message text as it may be stored, where `sanitize_html` strips markup.
/// There is none where the regular expression engine refuses a pattern.
pub fn _sanitize_text<F: Fn(&str) -> String>(text: &str, sanitize_html: F) -> (r: Option<String>)
    requires
        forall|s: &str| call_requires(sanitize_html, (s,)),
    ensures
        match r {
            Some(s) => sanitizes(sanitize_html, text@, Some(s@)),
            None => sanitizes(sanitize_html, text@, None),
        },
{
    if text.is_empty() {
        let r = String::new();
        assert(r@ =~= Seq::<char>::empty());
        return Some(r);
    }
    let hidden = strip_hidden(text)?;
    let marked = hidden.as_str();
    let clean = sanitize_html(marked);
    assert(call_ensures(sanitize_html, (marked,), clean));
    strip_contacts(clean.as_str())
}

/// A sanitized text neither begins nor ends with white space, whatever strips
/// the markup.
pub proof fn law_sanitized_is_trimmed<F: Fn(&str) -> String>(
    sanitize_html: F,
    text: Seq<char>,
    out: Seq<char>,
)
    requires
        sanitizes(sanitize_html, text, Some(out)),
    ensures
        out.len() > 0 ==> !text::is_white_space(out[0]) && !text::is_white_space(out.last()),
{
    if text.len() > 0 {
        let t = before_markup(text)->0;
        let (marked, clean) = choose|marked: &str, clean: String|
            marked@ == t && #[trigger] call_ensures(sanitize_html, (marked,), clean) && Some(out)
                == after_markup(clean@);
        text::law_trimmed_ends(contacts_removed(clean@)->0);
    }
}

/// A candidate for a phone number gives way to the note exactly where it holds
/// 10 to 15 ASCII digits; each digit counts, and nothing else does.
pub proof fn law_phone_numbers_give_way(raw: Seq<char>, c: char)
    ensures
        10 <= digit_count(raw) <= 15 ==> phone_redacted(raw) == "[phone removed]"@,
        digit_count(raw) < 10 || digit_count(raw) > 15 ==> phone_redacted(raw) == raw,
        digit_count(raw.push(c)) == digit_count(raw) + if '0' <= c <= '9' {
            1nat
        } else {
            0
        },
        digit_count(Seq::empty()) == 0,
{
    let p = |c: char| '0' <= c <= '9';
    assert(raw.push(c).drop_last() =~= raw);
    reveal(Seq::filter);
    assert(Seq::<char>::empty().filter(p).len() == 0);
}

/// A text is sanitized in this order: zero-width characters and scripts go,
/// markup is stripped, script schemes go, email addresses and both forms of
/// links give way to notes, then phone numbers do, and the ends are trimmed.
pub proof fn law_sanitized_in_order(
    clean: Seq<char>,
    a: Seq<char>,
    b: Seq<char>,
    c: Seq<char>,
    d: Seq<char>,
    e: Seq<char>,
)
    requires
        regex_replaced("(?i)javascript:"@, clean, ""@) == Some(a),
        regex_replaced(EMAIL_PATTERN@, a, "[email removed]"@) == Some(b),
        regex_replaced(r"(?i)https?://[^\s]+"@, b, "[link removed]"@) == Some(c),
        regex_replaced(r"(?i)www\.[^\s]+"@, c, "[link removed]"@) == Some(d),
        regex_rewritten(PHONE_PATTERN@, d, phone_rewrite()) == Some(e),
    ensures
        after_markup(clean) == Some(text::trimmed(e)),
{
}

/// Before markup is stripped zero-width characters go first, and scripts next:
/// a script that they hid goes too.
pub proof fn law_hidden_goes_first(text: Seq<char>, a: Seq<char>, b: Seq<char>)
    requires
        regex_replaced(ZERO_WIDTH_PATTERN@, text, ""@) == Some(a),
        regex_replaced("(?i)<script[^>]*>.*?</script>"@, a, ""@) == Some(b),
    ensures
        before_markup(text) == Some(b),
{
}

} // verus!
