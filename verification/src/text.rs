//! Text primitives: comparison, searching, slicing, joining, trimming and
//! number formatting, each stated over the characters of a string.
use vstd::prelude::*;
use vstd::string::*;
use vstd::utf8::*;

verus! {

/// `String::push`: appends one character at the end.
pub assume_specification[ String::push ](s: &mut String, c: char)
    ensures
        final(s)@ == old(s)@.push(c),
;

// ---------------------------------------------------------------- comparison

/// Whether two texts hold the same characters.
pub fn same(a: &str, b: &str) -> (r: bool)
    ensures
        r == (a@ == b@),
{
    let x = a.as_bytes();
    let y = b.as_bytes();
    if x.len() != y.len() {
        return false;
    }
    let mut i: usize = 0;
    while i < x.len()
        invariant
            i <= x@.len(),
            x@.len() == y@.len(),
            x@ == a.spec_bytes(),
            y@ == b.spec_bytes(),
            forall|j: int| 0 <= j < i ==> x@[j] == y@[j],
        decreases x@.len() - i,
    {
        if x[i] != y[i] {
            return false;
        }
        i = i + 1;
    }
    proof {
        assert(x@ =~= y@);
        encode_utf8_decode_utf8(a@);
        encode_utf8_decode_utf8(b@);
    }
    true
}

/// The number of bytes of a text in UTF-8.
pub fn byte_len(s: &str) -> (r: usize)
    ensures
        r == encode_utf8(s@).len(),
{
    s.as_bytes().len()
}

/// The characters of a text.
pub fn chars_of(s: &str) -> (r: Vec<char>)
    ensures
        r@ == s@,
{
    let mut v: Vec<char> = Vec::new();
    for c in it: s.chars()
        invariant
            v@ == s@.take(it.index() as int),
            it.seq() == s@,
    {
        v.push(c);
    }
    v
}

/// The text made of `v[from..to]`.
pub fn text_of(v: &Vec<char>, from: usize, to: usize) -> (r: String)
    requires
        from <= to <= v@.len(),
    ensures
        r@ == v@.subrange(from as int, to as int),
{
    let mut s = String::new();
    let mut i: usize = from;
    while i < to
        invariant
            from <= i <= to <= v@.len(),
            s@ == v@.subrange(from as int, i as int),
        decreases to - i,
    {
        s.push(v[i]);
        i = i + 1;
        assert(v@.subrange(from as int, i as int) =~= v@.subrange(from as int, i - 1).push(
            v@[i - 1],
        ));
    }
    s
}

// ------------------------------------------------------------------ searching

/// `needle` stands in `hay` from position `i` on.
pub open spec fn occurs_at(hay: Seq<char>, needle: Seq<char>, i: int) -> bool {
    0 <= i && i + needle.len() <= hay.len() && hay.subrange(i, i + needle.len()) == needle
}

/// `needle` stands somewhere in `hay`.
pub open spec fn occurs(hay: Seq<char>, needle: Seq<char>) -> bool {
    exists|i: int| occurs_at(hay, needle, i)
}

fn matches_at(hay: &Vec<char>, needle: &Vec<char>, at: usize) -> (r: bool)
    requires
        at + needle@.len() <= hay@.len(),
    ensures
        r == occurs_at(hay@, needle@, at as int),
{
    let total: usize = hay.len();
    let mut j: usize = 0;
    while j < needle.len()
        invariant
            j <= needle@.len(),
            total == hay@.len(),
            at + needle@.len() <= total,
            forall|k: int| 0 <= k < j ==> hay@[at + k] == needle@[k],
        decreases needle@.len() - j,
    {
        if hay[at + j] != needle[j] {
            assert(hay@.subrange(at as int, at + needle@.len())[j as int] != needle@[j as int]);
            return false;
        }
        j = j + 1;
    }
    assert(hay@.subrange(at as int, at + needle@.len()) =~= needle@);
    true
}

/// The first position at which `needle` stands in `hay`.
pub fn find(hay: &str, needle: &str) -> (r: Option<usize>)
    ensures
        match r {
            Some(i) => occurs_at(hay@, needle@, i as int) && forall|j: int|
                0 <= j < i ==> !occurs_at(hay@, needle@, j),
            None => !occurs(hay@, needle@),
        },
{
    let h = chars_of(hay);
    let n = chars_of(needle);
    if n.len() > h.len() {
        return None;
    }
    let last: usize = h.len() - n.len();
    let mut i: usize = 0;
    while i <= last
        invariant
            i <= last + 1,
            last + n@.len() == h@.len(),
            h@ == hay@,
            n@ == needle@,
            forall|j: int| 0 <= j < i ==> !occurs_at(hay@, needle@, j),
        decreases last + 1 - i,
    {
        if matches_at(&h, &n, i) {
            return Some(i);
        }
        if i == last {
            return None;
        }
        i = i + 1;
    }
    None
}

/// Whether `needle` stands somewhere in `hay`.
pub fn contains(hay: &str, needle: &str) -> (r: bool)
    ensures
        r == occurs(hay@, needle@),
{
    match find(hay, needle) {
        Some(_) => true,
        None => false,
    }
}

/// Whether `hay` begins with `needle`.
pub fn starts_with(hay: &str, needle: &str) -> (r: bool)
    ensures
        r == occurs_at(hay@, needle@, 0),
{
    let h = chars_of(hay);
    let n = chars_of(needle);
    if n.len() > h.len() {
        return false;
    }
    matches_at(&h, &n, 0)
}

/// The part of `s` after the last `c`; all of `s` where it has none.
pub open spec fn after_last(s: Seq<char>, c: char) -> Seq<char> {
    match s.index_of_last(c) {
        Some(k) => s.subrange(k + 1, s.len() as int),
        None => s,
    }
}

/// The part of `s` after the first `c`; all of `s` where it has none.
pub open spec fn after_first(s: Seq<char>, c: char) -> Seq<char> {
    match s.index_of_first(c) {
        Some(k) => s.subrange(k + 1, s.len() as int),
        None => s,
    }
}

/// A character that stands at `k` and nowhere later is last found at `k`.
pub proof fn lemma_index_of_last(s: Seq<char>, c: char, k: int)
    requires
        0 <= k < s.len(),
        s[k] == c,
        forall|j: int| k < j < s.len() ==> s[j] != c,
    ensures
        s.index_of_last(c) == Some(k),
{
    s.index_of_last_ensures(c);
    let r = s.index_of_last(c);
    assert(s.contains(c));
    if r.unwrap() < k {
        assert(s[k] != c);
    }
}

/// A character that stands at `k` and nowhere earlier is first found at `k`.
pub proof fn lemma_index_of_first(s: Seq<char>, c: char, k: int)
    requires
        0 <= k < s.len(),
        s[k] == c,
        forall|j: int| 0 <= j < k ==> s[j] != c,
    ensures
        s.index_of_first(c) == Some(k),
{
    s.index_of_first_ensures(c);
    let r = s.index_of_first(c);
    assert(s.contains(c));
    if r.unwrap() > k {
        assert(s[k] != c);
    }
}

/// `after_last` on a text.
pub fn suffix_after_last(s: &str, c: char) -> (r: &str)
    ensures
        r@ == after_last(s@, c),
{
    let v = chars_of(s);
    let n: usize = v.len();
    let mut i: usize = n;
    while i > 0
        invariant
            i <= n,
            n == v@.len(),
            v@ == s@,
            forall|j: int| i <= j < n ==> s@[j] != c,
        decreases i,
    {
        i = i - 1;
        if v[i] == c {
            proof {
                lemma_index_of_last(s@, c, i as int);
            }
            return s.substring_char(i + 1, n);
        }
    }
    proof {
        s@.index_of_last_ensures(c);
    }
    s
}

/// `after_first` on a text.
pub fn suffix_after_first(s: &str, c: char) -> (r: &str)
    ensures
        r@ == after_first(s@, c),
{
    let v = chars_of(s);
    let n: usize = v.len();
    let mut i: usize = 0;
    while i < n
        invariant
            i <= n,
            n == v@.len(),
            v@ == s@,
            forall|j: int| 0 <= j < i ==> s@[j] != c,
        decreases n - i,
    {
        if v[i] == c {
            proof {
                lemma_index_of_first(s@, c, i as int);
            }
            return s.substring_char(i + 1, n);
        }
        i = i + 1;
    }
    proof {
        s@.index_of_first_ensures(c);
    }
    s
}

/// `s` with each `from` replaced by `to`.
pub open spec fn char_replaced(s: Seq<char>, from: char, to: char) -> Seq<char> {
    Seq::new(
        s.len(),
        |i: int|
            if s[i] == from {
                to
            } else {
                s[i]
            },
    )
}

/// A text with each `from` replaced by `to`.
pub fn replace_char(s: &str, from: char, to: char) -> (r: String)
    ensures
        r@ == char_replaced(s@, from, to),
{
    let v = chars_of(s);
    let mut out = String::new();
    let mut i: usize = 0;
    while i < v.len()
        invariant
            i <= v@.len(),
            v@ == s@,
            out@ == char_replaced(s@, from, to).take(i as int),
        decreases v@.len() - i,
    {
        let c = if v[i] == from {
            to
        } else {
            v[i]
        };
        out.push(c);
        i = i + 1;
        assert(out@ =~= char_replaced(s@, from, to).take(i as int));
    }
    assert(char_replaced(s@, from, to).take(i as int) =~= char_replaced(s@, from, to));
    out
}

/// `s` without any `c`.
pub open spec fn char_removed(s: Seq<char>, c: char) -> Seq<char>
    decreases s.len(),
{
    if s.len() == 0 {
        s
    } else if s.last() == c {
        char_removed(s.drop_last(), c)
    } else {
        char_removed(s.drop_last(), c).push(s.last())
    }
}

/// A text without any `c`.
pub fn remove_char(s: &str, c: char) -> (r: String)
    ensures
        r@ == char_removed(s@, c),
{
    let v = chars_of(s);
    let mut out = String::new();
    let mut i: usize = 0;
    assert(s@.take(0) =~= Seq::<char>::empty());
    while i < v.len()
        invariant
            i <= v@.len(),
            v@ == s@,
            out@ == char_removed(s@.take(i as int), c),
        decreases v@.len() - i,
    {
        assert(s@.take(i + 1).drop_last() =~= s@.take(i as int));
        assert(s@.take(i + 1).last() == v@[i as int]);
        if v[i] != c {
            out.push(v[i]);
        }
        i = i + 1;
    }
    assert(s@.take(i as int) =~= s@);
    out
}

// -------------------------------------------------------------------- joining

/// The texts of `parts` one after the other.
pub open spec fn joined(parts: Seq<Seq<char>>) -> Seq<char>
    decreases parts.len(),
{
    if parts.len() == 0 {
        Seq::empty()
    } else {
        joined(parts.drop_last()) + parts.last()
    }
}

/// The characters of each part.
pub open spec fn views(parts: Seq<&str>) -> Seq<Seq<char>> {
    Seq::new(parts.len(), |i: int| parts[i]@)
}

/// The texts of `parts` one after the other.
pub fn join(parts: &[&str]) -> (r: String)
    ensures
        r@ == joined(views(parts@)),
{
    let mut s = String::new();
    let mut i: usize = 0;
    while i < parts.len()
        invariant
            i <= parts@.len(),
            s@ == joined(views(parts@).take(i as int)),
        decreases parts@.len() - i,
    {
        s.append(parts[i]);
        i = i + 1;
        assert(views(parts@).take(i as int).drop_last() =~= views(parts@).take(i - 1));
    }
    assert(views(parts@).take(i as int) =~= views(parts@));
    s
}

/// Each part stands in what the parts are joined to.
pub proof fn law_joined_holds_parts(parts: Seq<Seq<char>>, i: int)
    requires
        0 <= i < parts.len(),
    ensures
        occurs(joined(parts), parts[i]),
    decreases parts.len(),
{
    let init = parts.drop_last();
    let head = joined(init);
    let whole = joined(parts);
    if i == parts.len() - 1 {
        assert(whole.subrange(head.len() as int, (head.len() + parts[i].len()) as int) =~= parts[i]);
        assert(occurs_at(whole, parts[i], head.len() as int));
    } else {
        law_joined_holds_parts(init, i);
        let k = choose|k: int| occurs_at(head, init[i], k);
        assert(whole.subrange(k, k + parts[i].len()) =~= head.subrange(k, k + parts[i].len()));
        assert(occurs_at(whole, parts[i], k));
    }
}

/// What stands in a part of a text stands in the text.
pub proof fn law_occurs_transitive(a: Seq<char>, b: Seq<char>, c: Seq<char>)
    requires
        occurs(a, b),
        occurs(b, c),
    ensures
        occurs(a, c),
{
    let i = choose|i: int| occurs_at(a, b, i);
    let j = choose|j: int| occurs_at(b, c, j);
    assert(a.subrange(i + j, i + j + c.len()) =~= b.subrange(j, j + c.len()));
    assert(occurs_at(a, c, i + j));
}

/// Two texts, one after the other.
pub fn join2(a: &str, b: &str) -> (r: String)
    ensures
        r@ == a@ + b@,
{
    let mut s = String::new();
    s.append(a);
    s.append(b);
    assert(s@ =~= a@ + b@);
    s
}

// ------------------------------------------------------------------- trimming

/// The characters with Unicode's White_Space property.
pub open spec fn is_white_space(c: char) -> bool {
    let n = c as u32;
    ||| 0x09 <= n <= 0x0d
    ||| n == 0x20
    ||| n == 0x85
    ||| n == 0xa0
    ||| n == 0x1680
    ||| 0x2000 <= n <= 0x200a
    ||| n == 0x2028
    ||| n == 0x2029
    ||| n == 0x202f
    ||| n == 0x205f
    ||| n == 0x3000
}

/// `s` without its leading white space.
pub open spec fn trimmed_start(s: Seq<char>) -> Seq<char>
    decreases s.len(),
{
    if s.len() > 0 && is_white_space(s[0]) {
        trimmed_start(s.drop_first())
    } else {
        s
    }
}

/// `s` without its trailing white space.
pub open spec fn trimmed_end(s: Seq<char>) -> Seq<char>
    decreases s.len(),
{
    if s.len() > 0 && is_white_space(s.last()) {
        trimmed_end(s.drop_last())
    } else {
        s
    }
}

/// `s` without its leading and trailing white space.
pub open spec fn trimmed(s: Seq<char>) -> Seq<char> {
    trimmed_end(trimmed_start(s))
}

/// `s` holds nothing but white space.
pub open spec fn is_blank(s: Seq<char>) -> bool {
    forall|i: int| 0 <= i < s.len() ==> is_white_space(s[i])
}

proof fn lemma_trimmed_start(s: Seq<char>)
    ensures
        trimmed_start(s).len() == 0 <==> is_blank(s),
        trimmed_start(s).len() > 0 ==> !is_white_space(trimmed_start(s)[0]),
    decreases s.len(),
{
    if s.len() > 0 && is_white_space(s[0]) {
        lemma_trimmed_start(s.drop_first());
        let t = s.drop_first();
        if is_blank(t) {
            assert forall|i: int| 0 <= i < s.len() implies is_white_space(s[i]) by {
                if i > 0 {
                    assert(t[i - 1] == s[i]);
                }
            }
        }
    }
}

proof fn lemma_trimmed_end(s: Seq<char>)
    requires
        s.len() > 0,
        !is_white_space(s[0]),
    ensures
        trimmed_end(s).len() > 0,
    decreases s.len(),
{
    if is_white_space(s.last()) {
        lemma_trimmed_end(s.drop_last());
    }
}

/// Trimming leaves nothing exactly where there is nothing but white space.
pub proof fn lemma_trimmed_blank(s: Seq<char>)
    ensures
        trimmed(s).len() == 0 <==> is_blank(s),
{
    lemma_trimmed_start(s);
    if trimmed_start(s).len() > 0 {
        lemma_trimmed_end(trimmed_start(s));
    }
}

proof fn lemma_trimmed_end_prefix(s: Seq<char>)
    ensures
        trimmed_end(s).len() <= s.len(),
        trimmed_end(s) == s.take(trimmed_end(s).len() as int),
        trimmed_end(s).len() > 0 ==> !is_white_space(trimmed_end(s).last()),
    decreases s.len(),
{
    if s.len() > 0 && is_white_space(s.last()) {
        lemma_trimmed_end_prefix(s.drop_last());
        let t = trimmed_end(s);
        assert(s.drop_last().take(t.len() as int) =~= s.take(t.len() as int));
    } else {
        assert(s.take(s.len() as int) =~= s);
    }
}

/// A trimmed text neither begins nor ends with white space.
pub proof fn law_trimmed_ends(s: Seq<char>)
    ensures
        trimmed(s).len() > 0 ==> !is_white_space(trimmed(s)[0]) && !is_white_space(
            trimmed(s).last(),
        ),
{
    lemma_trimmed_start(s);
    lemma_trimmed_end_prefix(trimmed_start(s));
}

/// Trimming a text twice is trimming it once.
pub proof fn law_trim_idempotent(s: Seq<char>)
    ensures
        trimmed(trimmed(s)) == trimmed(s),
{
    law_trimmed_ends(s);
}

/// `str::trim`: the text without its leading and trailing white space, where
/// white space is Unicode's White_Space property.
#[verifier::external_body]
pub(crate) fn trim(s: &str) -> (r: &str)
    ensures
        r@ == trimmed(s@),
{
    s.trim()
}

/// Whether a text holds nothing but white space.
pub fn blank(s: &str) -> (r: bool)
    ensures
        r == is_blank(s@),
{
    proof {
        lemma_trimmed_blank(s@);
    }
    trim(s).is_empty()
}

// ----------------------------------------------------------------------- case

/// `c` with an ASCII small letter made a capital one.
pub open spec fn ascii_upper(c: char) -> char {
    if 'a' <= c <= 'z' {
        (c as u32 - 32) as u8 as char
    } else {
        c
    }
}

/// `c` with an ASCII capital letter made a small one.
pub open spec fn ascii_lower(c: char) -> char {
    if 'A' <= c <= 'Z' {
        (c as u32 + 32) as u8 as char
    } else {
        c
    }
}

/// What `str::to_uppercase` makes of a text.
pub uninterp spec fn uppercase(s: Seq<char>) -> Seq<char>;

/// What `str::to_lowercase` makes of a text.
pub uninterp spec fn lowercase(s: Seq<char>) -> Seq<char>;

/// `str::to_uppercase`: Unicode's upper case mapping, a function of the text
/// alone; on ASCII text it maps each letter by itself.
#[verifier::external_body]
pub(crate) fn to_uppercase(s: &str) -> (r: String)
    ensures
        r@ == uppercase(s@),
        is_ascii_chars(s@) ==> r@ == s@.map_values(|c: char| ascii_upper(c)),
{
    s.to_uppercase()
}

/// `str::to_lowercase`: Unicode's lower case mapping, a function of the text
/// alone; on ASCII text it maps each letter by itself.
#[verifier::external_body]
pub(crate) fn to_lowercase(s: &str) -> (r: String)
    ensures
        r@ == lowercase(s@),
        is_ascii_chars(s@) ==> r@ == s@.map_values(|c: char| ascii_lower(c)),
{
    s.to_lowercase()
}

/// Whether a character is a letter, by Unicode's Alphabetic property.
pub uninterp spec fn is_letter(c: char) -> bool;

/// Whether a character is a number, by Unicode's general categories.
pub uninterp spec fn is_number(c: char) -> bool;

/// `char::is_alphabetic`: a function of the character alone; of the ASCII
/// characters, the letters are.
pub assume_specification[ char::is_alphabetic ](c: char) -> (r: bool)
    ensures
        r == is_letter(c),
        (c as u32) < 128 ==> r == ('a' <= c <= 'z' || 'A' <= c <= 'Z'),
;

/// `char::is_numeric`: a function of the character alone; of the ASCII
/// characters, the digits are.
pub assume_specification[ char::is_numeric ](c: char) -> (r: bool)
    ensures
        r == is_number(c),
        (c as u32) < 128 ==> r == ('0' <= c <= '9'),
;

// -------------------------------------------------------------------- numbers

/// The character of a decimal digit.
pub open spec fn digit_char(d: int) -> char {
    (48 + d) as u8 as char
}

/// A natural number in decimal.
pub open spec fn decimal(n: nat) -> Seq<char>
    decreases n,
{
    if n < 10 {
        seq![digit_char(n as int)]
    } else {
        decimal(n / 10).push(digit_char((n % 10) as int))
    }
}

/// An integer in decimal, with a minus sign where it is negative.
pub open spec fn signed_decimal(n: int) -> Seq<char> {
    if n < 0 {
        seq!['-'] + decimal((-n) as nat)
    } else {
        decimal(n as nat)
    }
}

/// An amount of cents in dollars: the dollars, a point and two digits.
pub open spec fn dollars(cents: int) -> Seq<char> {
    let size = (if cents < 0 { -cents } else { cents }) as nat;
    let body = decimal(size / 100) + seq![
        '.',
        digit_char(((size % 100) / 10) as int),
        digit_char((size % 10) as int),
    ];
    if cents < 0 {
        seq!['-'] + body
    } else {
        body
    }
}

/// A number in decimal.
pub fn decimal_text(n: u128) -> (r: String)
    ensures
        r@ == decimal(n as nat),
    decreases n,
{
    if n < 10 {
        let mut s = String::new();
        s.push((48 + n as u8) as char);
        assert(s@ =~= decimal(n as nat));
        s
    } else {
        let mut s = decimal_text(n / 10);
        s.push((48 + (n % 10) as u8) as char);
        s
    }
}

/// The distance of an amount from nothing.
fn magnitude(n: i128) -> (r: u128)
    requires
        n > i128::MIN,
    ensures
        r == if n < 0 { -n } else { n as int },
{
    if n < 0 {
        (-n) as u128
    } else {
        n as u128
    }
}

/// An amount of cents in dollars.
pub fn dollars_text(cents: i128) -> (r: String)
    requires
        cents > i128::MIN,
    ensures
        r@ == dollars(cents as int),
{
    let size: u128 = magnitude(cents);
    let mut s = String::new();
    if cents < 0 {
        s.push('-');
    }
    let whole = decimal_text(size / 100);
    s.append(whole.as_str());
    s.push('.');
    s.push((48 + ((size % 100) / 10) as u8) as char);
    s.push((48 + (size % 10) as u8) as char);
    assert(s@ =~= dollars(cents as int));
    s
}

/// The part of a list of texts from `i` to `j`, joined, stands in what the
/// whole list is joined to.
pub proof fn law_joined_holds_runs(parts: Seq<Seq<char>>, i: int, j: int)
    requires
        0 <= i <= j <= parts.len(),
    ensures
        occurs(joined(parts), joined(parts.subrange(i, j))),
    decreases parts.len(),
{
    let whole = joined(parts);
    if j == parts.len() {
        lemma_joined_concat(parts.subrange(0, i), parts.subrange(i, j));
        assert(parts.subrange(0, i) + parts.subrange(i, j) =~= parts);
        let head = joined(parts.subrange(0, i));
        let run = joined(parts.subrange(i, j));
        assert(whole.subrange(head.len() as int, (head.len() + run.len()) as int) =~= run);
        assert(occurs_at(whole, run, head.len() as int));
    } else {
        let init = parts.drop_last();
        law_joined_holds_runs(init, i, j);
        assert(init.subrange(i, j) =~= parts.subrange(i, j));
        let head = joined(init);
        let run = joined(parts.subrange(i, j));
        let k = choose|k: int| occurs_at(head, run, k);
        assert(whole.subrange(k, k + run.len()) =~= head.subrange(k, k + run.len()));
        assert(occurs_at(whole, run, k));
    }
}

proof fn lemma_joined_concat(a: Seq<Seq<char>>, b: Seq<Seq<char>>)
    ensures
        joined(a + b) == joined(a) + joined(b),
    decreases b.len(),
{
    if b.len() == 0 {
        assert(a + b =~= a);
        assert(joined(a + b) =~= joined(a) + joined(b));
    } else {
        lemma_joined_concat(a, b.drop_last());
        assert((a + b).drop_last() =~= a + b.drop_last());
        assert(joined(a + b) =~= joined(a) + joined(b));
    }
}

/// Three texts, joined.
pub proof fn lemma_joined_three(a: Seq<char>, b: Seq<char>, c: Seq<char>)
    ensures
        joined(seq![a, b, c]) == a + b + c,
{
    let s = seq![a, b, c];
    assert(s.drop_last() =~= seq![a, b]);
    assert(seq![a, b].drop_last() =~= seq![a]);
    assert(seq![a].drop_last() =~= Seq::<Seq<char>>::empty());
    assert(joined(seq![a].drop_last()) =~= Seq::<char>::empty());
    assert(joined(seq![a]) =~= a);
    assert(joined(seq![a, b]) =~= a + b);
}

/// The number that a row of decimal digits stands for.
pub open spec fn digits_value(s: Seq<char>) -> int
    decreases s.len(),
{
    if s.len() == 0 {
        0
    } else {
        10 * digits_value(s.drop_last()) + (s.last() as u32 - '0' as u32)
    }
}

/// A number in decimal is a row of digits that stands for it, without zeros
/// before it.
pub proof fn law_decimal_reads_back(n: nat)
    ensures
        digits_value(decimal(n)) == n,
        decimal(n).len() > 0,
        forall|i: int| 0 <= i < decimal(n).len() ==> '0' <= #[trigger] decimal(n)[i] <= '9',
        n > 0 ==> decimal(n)[0] != '0',
        n == 0 ==> decimal(n) == seq!['0'],
    decreases n,
{
    if n < 10 {
        let s = decimal(n);
        assert(s.drop_last() =~= Seq::<char>::empty());
        assert(digits_value(s.drop_last()) == 0);
        assert(s.last() as u32 == 48 + n);
    } else {
        law_decimal_reads_back(n / 10);
        let s = decimal(n);
        assert(s.drop_last() =~= decimal(n / 10));
        assert(s.last() as u32 == 48 + n % 10);
        assert forall|i: int| 0 <= i < s.len() implies '0' <= #[trigger] s[i] <= '9' by {
            if i < s.len() - 1 {
                assert(s[i] == decimal(n / 10)[i]);
            }
        }
        assert(s[0] == decimal(n / 10)[0]);
    }
}

/// An amount in dollars has two digits behind the point; with the point taken
/// out its digits stand for the cents, and a minus sign stands before it
/// exactly where it is negative.
pub proof fn law_dollars_read_back(cents: int)
    ensures
        ({
            let size = if cents < 0 { -cents } else { cents };
            let body = if cents < 0 { dollars(cents).skip(1) } else { dollars(cents) };
            let n = body.len();
            &&& cents < 0 ==> dollars(cents)[0] == '-'
            &&& n >= 4
            &&& body[n - 3] == '.'
            &&& digits_value(body.take(n - 3)) == size / 100
            &&& digits_value(body.skip(n - 2)) == size % 100
        }),
{
    let size = (if cents < 0 { -cents } else { cents }) as nat;
    let whole = decimal(size / 100);
    let tens = digit_char(((size % 100) / 10) as int);
    let ones = digit_char((size % 10) as int);
    let body = whole + seq!['.', tens, ones];
    law_decimal_reads_back(size / 100);
    assert(body.take(body.len() - 3) =~= whole);
    let tail = body.skip(body.len() - 2);
    assert(tail =~= seq![tens, ones]);
    assert(tail.drop_last() =~= seq![tens]);
    assert(seq![tens].drop_last() =~= Seq::<char>::empty());
    assert(digits_value(seq![tens].drop_last()) == 0);
    assert(tens as u32 == 48 + (size % 100) / 10);
    assert(ones as u32 == 48 + size % 10);
    assert(digits_value(seq![tens]) == (size % 100) / 10);
    assert(digits_value(tail) == 10 * ((size % 100) / 10) + size % 10);
    if cents < 0 {
        assert(dollars(cents).skip(1) =~= body);
    }
}

/// The part after the last `c`, and the part after the first, is what follows it,
/// and a text without any `c` stays whole.
pub proof fn law_text_after(head: Seq<char>, c: char, tail: Seq<char>)
    ensures
        !tail.contains(c) ==> after_last(head + seq![c] + tail, c) == tail,
        !head.contains(c) ==> after_first(head + seq![c] + tail, c) == tail,
        !head.contains(c) ==> after_last(head, c) == head && after_first(head, c) == head,
{
    let s = head + seq![c] + tail;
    let k = head.len() as int;
    assert(s[k] == c);
    assert(s.subrange(k + 1, s.len() as int) =~= tail);
    if !tail.contains(c) {
        assert forall|j: int| k < j < s.len() implies s[j] != c by {
            assert(s[j] == tail[j - k - 1]);
        }
        lemma_index_of_last(s, c, k);
    }
    if !head.contains(c) {
        assert forall|j: int| 0 <= j < k implies s[j] != c by {
            assert(s[j] == head[j]);
        }
        lemma_index_of_first(s, c, k);
        head.index_of_last_ensures(c);
        head.index_of_first_ensures(c);
    }
}

/// Taking a character out of a text takes out each of its places and leaves
/// the rest in order.
pub proof fn law_character_taken_out(s: Seq<char>, x: char, c: char)
    ensures
        char_removed(s.push(x), c) == if x == c {
            char_removed(s, c)
        } else {
            char_removed(s, c).push(x)
        },
        char_removed(Seq::empty(), c).len() == 0,
{
    assert(s.push(x).drop_last() =~= s);
}

/// Trimming takes white space from the ends and nothing else: a text that
/// neither begins nor ends with white space comes out of any white space
/// around it.
pub proof fn law_trim_takes_white_space(before: Seq<char>, s: Seq<char>, after: Seq<char>)
    requires
        is_blank(before),
        is_blank(after),
        s.len() > 0,
        !is_white_space(s[0]),
        !is_white_space(s.last()),
    ensures
        trimmed(before + s + after) == s,
{
    lemma_trim_before(before, s + after);
    assert(before + s + after =~= before + (s + after));
    lemma_trim_after(s, after);
}

proof fn lemma_trim_before(before: Seq<char>, s: Seq<char>)
    requires
        is_blank(before),
        s.len() > 0,
        !is_white_space(s[0]),
    ensures
        trimmed_start(before + s) == s,
    decreases before.len(),
{
    if before.len() > 0 {
        let rest = before.drop_first();
        assert(is_white_space(before[0]));
        assert forall|i: int| 0 <= i < rest.len() implies is_white_space(rest[i]) by {
            assert(rest[i] == before[i + 1]);
        }
        lemma_trim_before(rest, s);
        assert((before + s).drop_first() =~= rest + s);
    } else {
        assert(before + s =~= s);
    }
}

proof fn lemma_trim_after(s: Seq<char>, after: Seq<char>)
    requires
        is_blank(after),
        s.len() > 0,
        !is_white_space(s.last()),
    ensures
        trimmed_end(s + after) == s,
    decreases after.len(),
{
    if after.len() > 0 {
        let rest = after.drop_last();
        assert(is_white_space(after[after.len() - 1]));
        assert forall|i: int| 0 <= i < rest.len() implies is_white_space(rest[i]) by {
            assert(rest[i] == after[i]);
        }
        lemma_trim_after(s, rest);
        assert((s + after).drop_last() =~= s + rest);
    } else {
        assert(s + after =~= s);
    }
}

} // verus!
