//! Text operations on `str`, each stated over the sequence of characters.

use vstd::prelude::*;

verus! {

/// Whether `c` has the Unicode property `White_Space`.
pub open spec fn is_white_space(c: char) -> bool {
    let u: u32 = c as u32;
    ||| 0x09 <= u <= 0x0d
    ||| u == 0x20
    ||| u == 0x85
    ||| u == 0xa0
    ||| u == 0x1680
    ||| 0x2000 <= u <= 0x200a
    ||| u == 0x2028
    ||| u == 0x2029
    ||| u == 0x202f
    ||| u == 0x205f
    ||| u == 0x3000
}

/// `s` without the white space at either end.
pub open spec fn trimmed(s: Seq<char>) -> Seq<char>
    decreases s.len(),
{
    if s.len() == 0 {
        s
    } else if is_white_space(s.first()) {
        trimmed(s.drop_first())
    } else if is_white_space(s.last()) {
        trimmed(s.drop_last())
    } else {
        s
    }
}

/// The index of the first character of `s` that occurs in `stops`, or the length of `s`.
pub open spec fn first_index(s: Seq<char>, stops: Seq<char>) -> int
    decreases s.len(),
{
    if s.len() == 0 || stops.contains(s.first()) {
        0
    } else {
        1 + first_index(s.drop_first(), stops)
    }
}

/// The part of `s` before the first character that occurs in `stops`.
pub open spec fn before_any(s: Seq<char>, stops: Seq<char>) -> Seq<char> {
    s.take(first_index(s, stops))
}

/// `s` cut at its first `c`, which belongs to neither part.
pub open spec fn cut_once(s: Seq<char>, c: char) -> Option<(Seq<char>, Seq<char>)> {
    let at = first_index(s, seq![c]);
    if at < s.len() {
        Some((s.take(at), s.skip(at + 1)))
    } else {
        None
    }
}

/// The index behind the last `c` of `s`, or zero.
pub open spec fn last_start(s: Seq<char>, c: char) -> int
    decreases s.len(),
{
    if s.len() == 0 {
        0
    } else if s.last() == c {
        s.len() as int
    } else {
        last_start(s.drop_last(), c)
    }
}

/// The part of `s` behind its last `c`: all of `s` where no `c` occurs.
pub open spec fn after_last(s: Seq<char>, c: char) -> Seq<char> {
    s.skip(last_start(s, c))
}

/// `c` with the letters `A` to `Z` taken to lower case.
pub open spec fn ascii_lower(c: char) -> char {
    if 'A' <= c <= 'Z' {
        (c as u32 + 32) as char
    } else {
        c
    }
}

/// Equality up to the case of the letters `A` to `Z`.
pub open spec fn same_ignoring_case(a: Seq<char>, b: Seq<char>) -> bool {
    &&& a.len() == b.len()
    &&& forall|i: int| 0 <= i < a.len() ==> ascii_lower(#[trigger] a[i]) == ascii_lower(b[i])
}

/// Whether `c` is one of `0` to `9`, `a` to `f` and `A` to `F`.
pub open spec fn is_hex_digit(c: char) -> bool {
    '0' <= c <= '9' || 'a' <= c <= 'f' || 'A' <= c <= 'F'
}

/// The number of bytes that `s` takes in UTF-8.
pub open spec fn byte_len(s: Seq<char>) -> nat {
    vstd::utf8::encode_utf8(s).len()
}

/// The decimal digits of `n`, without leading zeros.
pub open spec fn decimal(n: nat) -> Seq<char>
    decreases n,
{
    if n < 10 {
        seq![(48 + n) as char]
    } else {
        decimal(n / 10).push((48 + n % 10) as char)
    }
}

/// The texts in their order with `sep` between each two.
pub open spec fn joined(texts: Seq<Seq<char>>, sep: Seq<char>) -> Seq<char>
    decreases texts.len(),
{
    if texts.len() == 0 {
        Seq::empty()
    } else if texts.len() == 1 {
        texts[0]
    } else {
        joined(texts.drop_last(), sep) + sep + texts.last()
    }
}

/// Strict lexicographic order by code point, a proper prefix being the smaller text.
pub open spec fn precedes(a: Seq<char>, b: Seq<char>) -> bool
    decreases a.len(),
{
    if b.len() == 0 {
        false
    } else if a.len() == 0 {
        true
    } else if a[0] != b[0] {
        a[0] < b[0]
    } else {
        precedes(a.drop_first(), b.drop_first())
    }
}

/// Whether `c` is one of `0` to `9`.
pub open spec fn is_digit(c: char) -> bool {
    '0' <= c <= '9'
}

/// The number that a row of decimal digits stands for.
pub open spec fn number_value(digits: Seq<char>) -> nat
    decreases digits.len(),
{
    if digits.len() == 0 {
        0
    } else {
        (number_value(digits.drop_last()) * 10 + (digits.last() as u32 - 48)) as nat
    }
}

/// Whether every character of `s` is a digit.
pub open spec fn all_digits(s: Seq<char>) -> bool {
    forall|i: int| 0 <= i < s.len() ==> is_digit(#[trigger] s[i])
}

/// `s` without a leading plus sign.
pub open spec fn without_plus(s: Seq<char>) -> Seq<char> {
    if s.len() > 0 && s[0] == '+' {
        s.skip(1)
    } else {
        s
    }
}

/// The `u32` that `s` spells in decimal, with or without a leading plus sign.
pub open spec fn u32_value(s: Seq<char>) -> Option<u32> {
    let digits = without_plus(s);
    if digits.len() > 0 && all_digits(digits) && number_value(digits) <= u32::MAX {
        Some(number_value(digits) as u32)
    } else {
        None
    }
}

/// What `{:?}` prints for a text: the text in double quotes, with escapes.
pub uninterp spec fn debug_form(text: Seq<char>) -> Seq<char>;

/// The texts of a list of strings.
pub open spec fn texts(strings: Seq<String>) -> Seq<Seq<char>> {
    strings.map_values(|s: String| s@)
}

/// The text of an optional string.
pub open spec fn text_of(s: Option<String>) -> Option<Seq<char>> {
    match s {
        Some(t) => Some(t@),
        None => None,
    }
}

/// The characters of `s`.
pub fn chars_of(s: &str) -> (r: Vec<char>)
    ensures
        r@ == s@,
{
    let mut out: Vec<char> = Vec::new();
    for c in it: s.chars()
        invariant
            it.seq() == s@,
            out@ == s@.take(it.index()),
    {
        proof {
            assert(s@.take(it.index() + 1) == s@.take(it.index()).push(s@[it.index()]));
        }
        out.push(c);
    }
    assert(s@.take(s@.len() as int) == s@);
    out
}

/// See [`is_white_space`].
pub fn white_space(c: char) -> (r: bool)
    ensures
        r == is_white_space(c),
{
    let u: u32 = c as u32;
    (0x09 <= u && u <= 0x0d) || u == 0x20 || u == 0x85 || u == 0xa0 || u == 0x1680 || (0x2000 <= u
        && u <= 0x200a) || u == 0x2028 || u == 0x2029 || u == 0x202f || u == 0x205f || u == 0x3000
}

/// `s` without the white space at either end; see [`trimmed`].
pub fn trim(s: &str) -> (r: &str)
    ensures
        r@ == trimmed(s@),
{
    let chars: Vec<char> = chars_of(s);
    let mut start: usize = 0;
    let mut end: usize = chars.len();
    assert(s@.subrange(0, s@.len() as int) == s@);
    while start < end && white_space(chars[start])
        invariant
            chars@ == s@,
            start <= end == chars.len(),
            trimmed(s@.subrange(start as int, end as int)) == trimmed(s@),
        decreases end - start,
    {
        assert(s@.subrange(start as int, end as int).drop_first() == s@.subrange(
            start + 1,
            end as int,
        ));
        start = start + 1;
    }
    while start < end && white_space(chars[end - 1])
        invariant
            chars@ == s@,
            start <= end <= chars.len(),
            start < end ==> !is_white_space(s@[start as int]),
            trimmed(s@.subrange(start as int, end as int)) == trimmed(s@),
        decreases end - start,
    {
        assert(s@.subrange(start as int, end as int).drop_last() == s@.subrange(
            start as int,
            end - 1,
        ));
        end = end - 1;
    }
    s.substring_char(start, end)
}

/// Whether `c` occurs in `set`.
fn occurs(set: &Vec<char>, c: char) -> (r: bool)
    ensures
        r == set@.contains(c),
{
    let mut i: usize = 0;
    while i < set.len()
        invariant
            i <= set.len(),
            forall|j: int| 0 <= j < i ==> set@[j] != c,
        decreases set.len() - i,
    {
        if set[i] == c {
            assert(set@[i as int] == c);
            return true;
        }
        i = i + 1;
    }
    false
}

pub proof fn lemma_first_index(s: Seq<char>, stops: Seq<char>)
    ensures
        0 <= first_index(s, stops) <= s.len(),
        first_index(s, stops) < s.len() ==> stops.contains(s[first_index(s, stops)]),
        forall|i: int| 0 <= i < first_index(s, stops) ==> !stops.contains(#[trigger] s[i]),
    decreases s.len(),
{
    if s.len() > 0 && !stops.contains(s.first()) {
        let rest = s.drop_first();
        lemma_first_index(rest, stops);
        let k = first_index(rest, stops);
        assert forall|i: int| 0 <= i < k + 1 implies !stops.contains(#[trigger] s[i]) by {
            if i > 0 {
                assert(s[i] == rest[i - 1]);
            }
        }
    }
}

/// The index of the first character in `stops`; see [`first_index`].
fn find_any(s: &Vec<char>, stops: &Vec<char>) -> (r: usize)
    ensures
        r == first_index(s@, stops@),
        r <= s.len(),
{
    let mut i: usize = 0;
    assert(s@.skip(0) == s@);
    while i < s.len() && !occurs(stops, s[i])
        invariant
            i <= s.len(),
            first_index(s@, stops@) == i + first_index(s@.skip(i as int), stops@),
        decreases s.len() - i,
    {
        assert(s@.skip(i as int).drop_first() == s@.skip(i + 1));
        i = i + 1;
    }
    assert(i < s.len() ==> s@.skip(i as int).first() == s@[i as int]);
    i
}

/// The part of `s` before the first character in `stops`; see [`before_any`].
pub fn head_before<'a>(s: &'a str, stops: &str) -> (r: &'a str)
    ensures
        r@ == before_any(s@, stops@),
{
    let at: usize = find_any(&chars_of(s), &chars_of(stops));
    s.substring_char(0, at)
}

/// `s` cut at its first `c`; see [`cut_once`].
pub fn split_once(s: &str, c: char) -> (r: Option<(&str, &str)>)
    ensures
        match r {
            Some((head, tail)) => cut_once(s@, c) == Some((head@, tail@)),
            None => cut_once(s@, c) is None,
        },
{
    let chars: Vec<char> = chars_of(s);
    let mut stops: Vec<char> = Vec::new();
    stops.push(c);
    assert(stops@ == seq![c]);
    let at: usize = find_any(&chars, &stops);
    if at < chars.len() {
        let head: &str = s.substring_char(0, at);
        let tail: &str = s.substring_char(at + 1, chars.len());
        assert(head@ == s@.take(at as int));
        assert(tail@ == s@.skip(at + 1));
        Some((head, tail))
    } else {
        None
    }
}

pub proof fn lemma_last_start(s: Seq<char>, c: char)
    ensures
        0 <= last_start(s, c) <= s.len(),
        !s.contains(c) ==> last_start(s, c) == 0,
    decreases s.len(),
{
    if s.len() > 0 {
        if s.last() == c {
            assert(s[s.len() - 1] == c);
        } else {
            let front = s.drop_last();
            lemma_last_start(front, c);
            if front.contains(c) {
                let i = choose|i: int| 0 <= i < front.len() && front[i] == c;
                assert(s[i] == c);
            }
        }
    }
}

/// What stands before a stop does not depend on what is cut off behind it.
pub proof fn lemma_first_index_of_take(s: Seq<char>, stops: Seq<char>, n: int)
    requires
        first_index(s, stops) <= n <= s.len(),
    ensures
        before_any(s.take(n), stops) == before_any(s, stops),
{
    let head = s.take(n);
    lemma_first_index(s, stops);
    lemma_first_index(head, stops);
    let a = first_index(s, stops);
    let b = first_index(head, stops);
    if a < n {
        assert(head[a] == s[a]);
    }
    if b < head.len() && b < a {
        assert(head[b] == s[b]);
    }
    assert(a == b);
    assert(head.take(b) =~= s.take(a));
}

/// The part of `s` behind its last `c`; see [`after_last`].
pub fn tail_after_last(s: &str, c: char) -> (r: &str)
    ensures
        r@ == after_last(s@, c),
{
    let chars: Vec<char> = chars_of(s);
    let mut start: usize = chars.len();
    assert(s@.take(s@.len() as int) == s@);
    while start > 0 && chars[start - 1] != c
        invariant
            chars@ == s@,
            start <= chars.len(),
            last_start(s@, c) == last_start(s@.take(start as int), c),
        decreases start,
    {
        assert(s@.take(start as int).drop_last() == s@.take(start - 1));
        start = start - 1;
    }
    assert(start > 0 ==> s@.take(start as int).last() == s@[start - 1]);
    let tail: &str = s.substring_char(start, chars.len());
    assert(tail@ == s@.skip(start as int));
    tail
}

/// Whether `s` begins with `prefix`.
pub fn starts_with(s: &str, prefix: &str) -> (r: bool)
    ensures
        r == prefix@.is_prefix_of(s@),
{
    strip_prefix(s, prefix).is_some()
}

/// What follows `prefix` in `s`, where `s` begins with it.
pub fn strip_prefix<'a>(s: &'a str, prefix: &str) -> (r: Option<&'a str>)
    ensures
        r is Some <==> prefix@.is_prefix_of(s@),
        r is Some ==> r->0@ == s@.skip(prefix@.len() as int),
{
    let chars: Vec<char> = chars_of(s);
    let want: Vec<char> = chars_of(prefix);
    if want.len() > chars.len() {
        return None;
    }
    let mut i: usize = 0;
    while i < want.len()
        invariant
            chars@ == s@,
            want@ == prefix@,
            i <= want.len() <= chars.len(),
            forall|j: int| 0 <= j < i ==> chars@[j] == want@[j],
        decreases want.len() - i,
    {
        if chars[i] != want[i] {
            assert(s@.subrange(0, prefix@.len() as int)[i as int] != prefix@[i as int]);
            return None;
        }
        i = i + 1;
    }
    assert(prefix@ == s@.subrange(0, prefix@.len() as int));
    let tail: &str = s.substring_char(want.len(), chars.len());
    assert(tail@ == s@.skip(prefix@.len() as int));
    Some(tail)
}

/// Whether `s` ends with the character `c`.
pub fn ends_with_char(s: &str, c: char) -> (r: bool)
    ensures
        r == (s@.len() > 0 && s@.last() == c),
{
    let chars: Vec<char> = chars_of(s);
    chars.len() > 0 && chars[chars.len() - 1] == c
}

/// Whether two texts are equal.
pub fn same(a: &str, b: &str) -> (r: bool)
    ensures
        r == (a@ == b@),
{
    match strip_prefix(a, b) {
        Some(rest) => {
            assert(a@ == b@ + rest@);
            assert(rest@.len() == 0 ==> a@ == b@);
            rest.is_empty()
        },
        None => {
            assert(a@ == b@ ==> b@.is_prefix_of(a@));
            false
        },
    }
}

/// See [`ascii_lower`].
fn lower(c: char) -> (r: char)
    ensures
        r == ascii_lower(c),
{
    if 'A' <= c && c <= 'Z' {
        let u: u8 = c as u8;
        (u + 32) as char
    } else {
        c
    }
}

/// Equality up to ASCII case; see [`same_ignoring_case`].
pub fn eq_ignore_ascii_case(a: &str, b: &str) -> (r: bool)
    ensures
        r == same_ignoring_case(a@, b@),
{
    let x: Vec<char> = chars_of(a);
    let y: Vec<char> = chars_of(b);
    if x.len() != y.len() {
        return false;
    }
    let mut i: usize = 0;
    while i < x.len()
        invariant
            x@ == a@,
            y@ == b@,
            i <= x.len() == y.len(),
            forall|j: int| 0 <= j < i ==> ascii_lower(#[trigger] x@[j]) == ascii_lower(y@[j]),
        decreases x.len() - i,
    {
        if lower(x[i]) != lower(y[i]) {
            return false;
        }
        i = i + 1;
    }
    true
}

/// Whether every character of `s` is a hexadecimal digit.
pub fn all_hex_digits(s: &str) -> (r: bool)
    ensures
        r == (forall|i: int| 0 <= i < s@.len() ==> is_hex_digit(#[trigger] s@[i])),
{
    let chars: Vec<char> = chars_of(s);
    let mut i: usize = 0;
    while i < chars.len()
        invariant
            chars@ == s@,
            i <= chars.len(),
            forall|j: int| 0 <= j < i ==> is_hex_digit(#[trigger] s@[j]),
        decreases chars.len() - i,
    {
        let c: char = chars[i];
        if !(('0' <= c && c <= '9') || ('a' <= c && c <= 'f') || ('A' <= c && c <= 'F')) {
            assert(!is_hex_digit(s@[i as int]));
            return false;
        }
        i = i + 1;
    }
    true
}

/// The number of bytes of `s`; see [`byte_len`].
pub fn size_of_text(s: &str) -> (r: usize)
    ensures
        r == byte_len(s@),
{
    s.as_bytes().len()
}

/// One decimal digit.
fn digit(d: u64) -> (r: &'static str)
    requires
        d < 10,
    ensures
        r@ == seq![(48 + d) as char],
{
    proof {
        reveal_strlit("0");
        reveal_strlit("1");
        reveal_strlit("2");
        reveal_strlit("3");
        reveal_strlit("4");
        reveal_strlit("5");
        reveal_strlit("6");
        reveal_strlit("7");
        reveal_strlit("8");
        reveal_strlit("9");
    }
    match d {
        0 => "0",
        1 => "1",
        2 => "2",
        3 => "3",
        4 => "4",
        5 => "5",
        6 => "6",
        7 => "7",
        8 => "8",
        _ => "9",
    }
}

/// `n` in decimal; see [`decimal`].
pub fn decimal_text(n: u64) -> (r: String)
    ensures
        r@ == decimal(n as nat),
    decreases n,
{
    if n < 10 {
        digit(n).to_owned()
    } else {
        let mut out: String = decimal_text(n / 10);
        out.append(digit(n % 10));
        assert(out@ == decimal((n / 10) as nat).push((48 + n % 10) as char));
        out
    }
}

/// The texts with `sep` between each two; see [`joined`].
pub fn join(parts: &Vec<String>, sep: &str) -> (r: String)
    ensures
        r@ == joined(texts(parts@), sep@),
{
    let mut out: String = String::new();
    let mut i: usize = 0;
    while i < parts.len()
        invariant
            i <= parts.len(),
            out@ == joined(texts(parts@).take(i as int), sep@),
        decreases parts.len() - i,
    {
        let ghost all = texts(parts@);
        if i > 0 {
            out.append(sep);
        }
        out.append(parts[i].as_str());
        proof {
            assert(all.take(i + 1).drop_last() == all.take(i as int));
            assert(all.take(i + 1).last() == parts@[i as int]@);
            if i == 0 {
                assert(all.take(1)[0] == parts@[0]@);
                assert(all.take(0).len() == 0);
            }
        }
        i = i + 1;
    }
    assert(texts(parts@).take(parts@.len() as int) == texts(parts@));
    out
}

/// The first `n` of the strings.
pub fn first_strings(parts: &Vec<String>, n: usize) -> (r: Vec<String>)
    requires
        n <= parts.len(),
    ensures
        texts(r@) == texts(parts@).take(n as int),
{
    let mut out: Vec<String> = Vec::new();
    let mut i: usize = 0;
    while i < n
        invariant
            i <= n <= parts.len(),
            texts(out@) =~= texts(parts@).take(i as int),
        decreases n - i,
    {
        let ghost before = texts(out@);
        out.push(parts[i].clone());
        assert(texts(out@) =~= before.push(parts@[i as int]@));
        i = i + 1;
    }
    out
}

/// The order of texts is transitive.
pub proof fn lemma_precedes_transitive(a: Seq<char>, b: Seq<char>, c: Seq<char>)
    requires
        precedes(a, b),
        precedes(b, c),
    ensures
        precedes(a, c),
    decreases a.len(),
{
    if a.len() > 0 && a[0] == b[0] && b[0] == c[0] {
        lemma_precedes_transitive(a.drop_first(), b.drop_first(), c.drop_first());
    }
}

/// No text comes before itself.
pub proof fn lemma_precedes_irreflexive(a: Seq<char>)
    ensures
        !precedes(a, a),
    decreases a.len(),
{
    if a.len() > 0 {
        lemma_precedes_irreflexive(a.drop_first());
    }
}

/// Of two different texts one comes before the other.
pub proof fn lemma_precedes_total(a: Seq<char>, b: Seq<char>)
    ensures
        precedes(a, b) || precedes(b, a) || a == b,
    decreases a.len(),
{
    if a.len() > 0 && b.len() > 0 && a[0] == b[0] {
        lemma_precedes_total(a.drop_first(), b.drop_first());
        if a.drop_first() == b.drop_first() {
            assert(a == seq![a[0]] + a.drop_first());
            assert(b == seq![b[0]] + b.drop_first());
        }
    } else if a.len() == 0 && b.len() == 0 {
        assert(a == b);
    }
}

/// Lexicographic order; see [`precedes`].
pub fn text_precedes(a: &str, b: &str) -> (r: bool)
    ensures
        r == precedes(a@, b@),
{
    let x: Vec<char> = chars_of(a);
    let y: Vec<char> = chars_of(b);
    let mut i: usize = 0;
    assert(a@.skip(0) == a@);
    assert(b@.skip(0) == b@);
    while i < x.len() && i < y.len() && x[i] == y[i]
        invariant
            x@ == a@,
            y@ == b@,
            i <= x.len(),
            i <= y.len(),
            precedes(a@, b@) == precedes(a@.skip(i as int), b@.skip(i as int)),
        decreases x.len() - i,
    {
        assert(a@.skip(i as int).drop_first() == a@.skip(i + 1));
        assert(b@.skip(i as int).drop_first() == b@.skip(i + 1));
        i = i + 1;
    }
    if i == y.len() {
        false
    } else if i == x.len() {
        true
    } else {
        x[i] < y[i]
    }
}

proof fn lemma_number_value_grows(digits: Seq<char>, k: int)
    requires
        0 <= k <= digits.len(),
        all_digits(digits),
    ensures
        number_value(digits.take(k)) <= number_value(digits),
    decreases digits.len() - k,
{
    if k < digits.len() {
        lemma_number_value_grows(digits, k + 1);
        assert(digits.take(k + 1).drop_last() == digits.take(k));
        assert(is_digit(digits[k]));
    } else {
        assert(digits.take(k) == digits);
    }
}

/// The `u32` that `s` spells, if it spells one; see [`u32_value`].
pub fn parse_u32(s: &str) -> (r: Option<u32>)
    ensures
        r == u32_value(s@),
{
    let chars: Vec<char> = chars_of(s);
    let start: usize = if chars.len() > 0 && chars[0] == '+' {
        1
    } else {
        0
    };
    let ghost digits: Seq<char> = without_plus(s@);
    assert(digits == s@.skip(start as int));
    if start == chars.len() {
        return None;
    }
    let mut value: u32 = 0;
    let mut i: usize = start;
    assert(digits.take(0) == Seq::<char>::empty());
    while i < chars.len()
        invariant
            chars@ == s@,
            start <= i <= chars.len(),
            digits == s@.skip(start as int),
            digits == without_plus(s@),
            forall|j: int| 0 <= j < i - start ==> is_digit(#[trigger] digits[j]),
            value == number_value(digits.take(i - start)),
        decreases chars.len() - i,
    {
        let c: char = chars[i];
        assert(digits[i - start] == c);
        if !('0' <= c && c <= '9') {
            assert(!is_digit(digits[i - start]));
            return None;
        }
        assert(digits.take(i - start + 1).drop_last() == digits.take(i - start));
        let d: u32 = c as u32 - 48;
        let next: u64 = value as u64 * 10 + d as u64;
        assert(next == number_value(digits.take(i - start + 1)));
        if next > u32::MAX as u64 {
            proof {
                if u32_value(s@) is Some {
                    lemma_number_value_grows(digits, i - start + 1);
                }
            }
            return None;
        }
        value = next as u32;
        i = i + 1;
    }
    assert(digits.take(digits.len() as int) == digits);
    Some(value)
}

/// White space is what Unicode lists as such, and no other character.
pub proof fn law_white_space_is_the_unicode_list(c: char)
    ensures
        is_white_space(c) <==> seq![
            '\t', '\n', '\u{b}', '\u{c}', '\r', ' ', '\u{85}', '\u{a0}', '\u{1680}', '\u{2000}',
            '\u{2001}', '\u{2002}', '\u{2003}', '\u{2004}', '\u{2005}', '\u{2006}', '\u{2007}',
            '\u{2008}', '\u{2009}', '\u{200a}', '\u{2028}', '\u{2029}', '\u{202f}', '\u{205f}',
            '\u{3000}',
        ].contains(c),
{
    let list = seq![
        '\t', '\n', '\u{b}', '\u{c}', '\r', ' ', '\u{85}', '\u{a0}', '\u{1680}', '\u{2000}',
        '\u{2001}', '\u{2002}', '\u{2003}', '\u{2004}', '\u{2005}', '\u{2006}', '\u{2007}',
        '\u{2008}', '\u{2009}', '\u{200a}', '\u{2028}', '\u{2029}', '\u{202f}', '\u{205f}',
        '\u{3000}',
    ];
    assert(list[0] == '\t' && list[1] == '\n' && list[2] == '\u{b}' && list[3] == '\u{c}');
    assert(list[4] == '\r' && list[5] == ' ' && list[6] == '\u{85}' && list[7] == '\u{a0}');
    assert(list[8] == '\u{1680}' && list[9] == '\u{2000}' && list[10] == '\u{2001}');
    assert(list[11] == '\u{2002}' && list[12] == '\u{2003}' && list[13] == '\u{2004}');
    assert(list[14] == '\u{2005}' && list[15] == '\u{2006}' && list[16] == '\u{2007}');
    assert(list[17] == '\u{2008}' && list[18] == '\u{2009}' && list[19] == '\u{200a}');
    assert(list[20] == '\u{2028}' && list[21] == '\u{2029}' && list[22] == '\u{202f}');
    assert(list[23] == '\u{205f}' && list[24] == '\u{3000}');
}

/// Whether every character is white space.
pub open spec fn is_blank(s: Seq<char>) -> bool {
    forall|i: int| 0 <= i < s.len() ==> is_white_space(#[trigger] s[i])
}

/// Whether neither end is white space.
pub open spec fn is_tight(s: Seq<char>) -> bool {
    s.len() > 0 ==> !is_white_space(s[0]) && !is_white_space(s[s.len() - 1])
}

/// Trimming takes off the white space around a text, all of it and nothing else.
pub proof fn law_trimming_takes_off_what_is_around(
    lead: Seq<char>,
    core: Seq<char>,
    trail: Seq<char>,
)
    requires
        is_blank(lead),
        is_tight(core),
        is_blank(trail),
    ensures
        trimmed(lead + core + trail) == core,
    decreases lead.len() + trail.len(), trail.len(),
{
    let s = lead + core + trail;
    if lead.len() > 0 {
        let less = lead.drop_first();
        assert(s.first() == lead[0]);
        assert(s.drop_first() =~= less + core + trail);
        assert(is_blank(less)) by {
            assert forall|i: int| 0 <= i < less.len() implies is_white_space(#[trigger] less[i]) by {
                assert(less[i] == lead[i + 1]);
            }
        }
        law_trimming_takes_off_what_is_around(less, core, trail);
    } else if trail.len() > 0 {
        if core.len() == 0 {
            assert(s =~= trail + core + lead);
            law_trimming_takes_off_what_is_around(trail, core, lead);
        } else {
            let less = trail.drop_last();
            assert(s.first() == core[0]);
            assert(s.last() == trail[trail.len() - 1]);
            assert(s.drop_last() =~= lead + core + less);
            assert(is_blank(less)) by {
                assert forall|i: int| 0 <= i < less.len() implies is_white_space(
                    #[trigger] less[i],
                ) by {
                    assert(less[i] == trail[i]);
                }
            }
            law_trimming_takes_off_what_is_around(lead, core, less);
        }
    } else {
        assert(s =~= core);
    }
}

/// What is left of a text has no white space at its ends, and what was taken off is white space.
pub proof fn law_trimming_leaves_a_tight_text(s: Seq<char>) -> (parts: (Seq<char>, Seq<char>))
    ensures
        is_tight(trimmed(s)),
        is_blank(parts.0),
        is_blank(parts.1),
        s == parts.0 + trimmed(s) + parts.1,
    decreases s.len(),
{
    if s.len() > 0 && is_white_space(s.first()) {
        let rest = s.drop_first();
        let core = trimmed(rest);
        assert(trimmed(s) == core);
        let (lead, trail) = law_trimming_leaves_a_tight_text(rest);
        let more = seq![s.first()] + lead;
        assert(s =~= seq![s.first()] + rest);
        assert(seq![s.first()] + (lead + core + trail) =~= more + core + trail);
        assert forall|i: int| 0 <= i < more.len() implies is_white_space(#[trigger] more[i]) by {
            if i > 0 {
                assert(more[i] == lead[i - 1]);
            }
        }
        (more, trail)
    } else if s.len() > 0 && is_white_space(s.last()) {
        let rest = s.drop_last();
        let core = trimmed(rest);
        assert(trimmed(s) == core);
        let (lead, trail) = law_trimming_leaves_a_tight_text(rest);
        let more = trail.push(s.last());
        assert(s =~= rest.push(s.last()));
        assert((lead + core + trail).push(s.last()) =~= lead + core + more);
        assert forall|i: int| 0 <= i < more.len() implies is_white_space(#[trigger] more[i]) by {
            if i < trail.len() {
                assert(more[i] == trail[i]);
            }
        }
        (lead, more)
    } else {
        assert(trimmed(s) == s);
        assert(s =~= Seq::<char>::empty() + s + Seq::<char>::empty());
        (Seq::empty(), Seq::empty())
    }
}

/// The first stop of a text is where it stands with no stop before it.
pub proof fn lemma_first_index_at(head: Seq<char>, tail: Seq<char>, c: char, stops: Seq<char>)
    requires
        stops.contains(c),
        forall|i: int| 0 <= i < head.len() ==> !stops.contains(#[trigger] head[i]),
    ensures
        first_index(head + seq![c] + tail, stops) == head.len(),
        before_any(head + seq![c] + tail, stops) == head,
{
    let s = head + seq![c] + tail;
    lemma_first_index(s, stops);
    let at = first_index(s, stops);
    assert(s[head.len() as int] == c);
    if at < head.len() {
        assert(s[at] == head[at]);
    }
    assert(s.take(head.len() as int) =~= head);
}

/// A text without a stop is all before the first one.
pub proof fn lemma_first_index_none(s: Seq<char>, stops: Seq<char>)
    requires
        forall|i: int| 0 <= i < s.len() ==> !stops.contains(#[trigger] s[i]),
    ensures
        first_index(s, stops) == s.len(),
        before_any(s, stops) == s,
{
    lemma_first_index(s, stops);
    assert(s.take(s.len() as int) =~= s);
}

proof fn lemma_contains_one(c: char, d: char)
    ensures
        seq![c].contains(d) <==> c == d,
{
    assert(seq![c][0] == c);
}

/// A cut goes through the first such character, which belongs to neither part.
pub proof fn law_cut_at_the_first(head: Seq<char>, tail: Seq<char>, c: char)
    requires
        !head.contains(c),
    ensures
        cut_once(head + seq![c] + tail, c) == Some((head, tail)),
{
    let s = head + seq![c] + tail;
    lemma_contains_one(c, c);
    assert forall|i: int| 0 <= i < head.len() implies !seq![c].contains(#[trigger] head[i]) by {
        lemma_contains_one(c, head[i]);
    }
    lemma_first_index_at(head, tail, c, seq![c]);
    assert(s.skip(head.len() as int + 1) =~= tail);
}

/// A text is not cut exactly where it has no such character.
pub proof fn law_no_cut_without_the_character(s: Seq<char>, c: char)
    ensures
        cut_once(s, c) is None <==> !s.contains(c),
{
    lemma_first_index(s, seq![c]);
    let at = first_index(s, seq![c]);
    if at < s.len() {
        lemma_contains_one(c, s[at]);
        assert(s[at] == c);
    } else if s.contains(c) {
        let i = choose|i: int| 0 <= i < s.len() && s[i] == c;
        lemma_contains_one(c, s[i]);
        assert(seq![c].contains(s[i]));
    }
}

/// What stands behind the last such character.
pub proof fn law_tail_behind_the_last(head: Seq<char>, tail: Seq<char>, c: char)
    requires
        !tail.contains(c),
    ensures
        after_last(head + seq![c] + tail, c) == tail,
        last_start(head + seq![c] + tail, c) == head.len() + 1,
    decreases tail.len(),
{
    let s = head + seq![c] + tail;
    if tail.len() == 0 {
        assert(s.last() == c);
        assert(s.skip(s.len() as int) =~= tail);
    } else {
        let less = tail.drop_last();
        assert(s.last() == tail[tail.len() - 1]);
        assert(!less.contains(c)) by {
            if less.contains(c) {
                let i = choose|i: int| 0 <= i < less.len() && less[i] == c;
                assert(tail[i] == c);
            }
        }
        assert(s.drop_last() =~= head + seq![c] + less);
        law_tail_behind_the_last(head, less, c);
        assert(s.skip(head.len() as int + 1) =~= tail);
    }
}

/// A text without such a character stands behind the last one as a whole.
pub proof fn law_tail_of_a_whole_text(s: Seq<char>, c: char)
    requires
        !s.contains(c),
    ensures
        after_last(s, c) == s,
{
    lemma_last_start(s, c);
    assert(s.skip(0) =~= s);
}

/// The hexadecimal digits are these characters and no others.
pub proof fn law_hex_digits(c: char)
    ensures
        is_hex_digit(c) <==> "0123456789abcdefABCDEF"@.contains(c),
{
    reveal_strlit("0123456789abcdefABCDEF");
    let list = "0123456789abcdefABCDEF"@;
    assert(list[0] == '0' && list[1] == '1' && list[2] == '2' && list[3] == '3' && list[4] == '4');
    assert(list[5] == '5' && list[6] == '6' && list[7] == '7' && list[8] == '8' && list[9] == '9');
    assert(list[10] == 'a' && list[11] == 'b' && list[12] == 'c' && list[13] == 'd');
    assert(list[14] == 'e' && list[15] == 'f' && list[16] == 'A' && list[17] == 'B');
    assert(list[18] == 'C' && list[19] == 'D' && list[20] == 'E' && list[21] == 'F');
}

/// Two texts are the same up to case where they differ, place by place, in nothing but the case of
/// one of the letters `A` to `Z`.
pub proof fn law_case_is_ignored(a: Seq<char>, b: Seq<char>)
    ensures
        same_ignoring_case(a, b) <==> a.len() == b.len() && forall|i: int|
            0 <= i < a.len() ==> {
                ||| #[trigger] a[i] == b[i]
                ||| 'A' <= a[i] <= 'Z' && b[i] as u32 == a[i] as u32 + 32
                ||| 'A' <= b[i] <= 'Z' && a[i] as u32 == b[i] as u32 + 32
            },
{
    assert forall|i: int| 0 <= i < a.len() && a.len() == b.len() implies (ascii_lower(
        #[trigger] a[i],
    ) == ascii_lower(b[i]) <==> {
        ||| a[i] == b[i]
        ||| 'A' <= a[i] <= 'Z' && b[i] as u32 == a[i] as u32 + 32
        ||| 'A' <= b[i] <= 'Z' && a[i] as u32 == b[i] as u32 + 32
    }) by {
        assert('A' <= a[i] <= 'Z' ==> ascii_lower(a[i]) as u32 == a[i] as u32 + 32);
        assert('A' <= b[i] <= 'Z' ==> ascii_lower(b[i]) as u32 == b[i] as u32 + 32);
    }
}

/// The decimal digits of a number are digits, spell the number, and have no zero before them.
pub proof fn law_decimal_spells_the_number(n: nat)
    ensures
        decimal(n).len() > 0,
        all_digits(decimal(n)),
        number_value(decimal(n)) == n,
        n > 0 ==> decimal(n)[0] != '0',
    decreases n,
{
    let c = (48 + n % 10) as char;
    assert(c as u32 == 48 + n % 10);
    if n < 10 {
        assert(decimal(n).drop_last() =~= Seq::<char>::empty());
        assert(number_value(Seq::<char>::empty()) == 0);
        assert(decimal(n).last() as u32 == 48 + n);
    } else {
        law_decimal_spells_the_number(n / 10);
        assert(decimal(n).drop_last() =~= decimal(n / 10));
        assert(decimal(n)[0] == decimal(n / 10)[0]);
    }
}

/// The value of a row of digits: each digit weighs ten times as much as the one behind it.
pub proof fn law_number_value_is_positional(a: Seq<char>, b: Seq<char>)
    requires
        all_digits(a),
        all_digits(b),
    ensures
        number_value(a + b) == number_value(a) * vstd::arithmetic::power::pow(10, b.len())
            + number_value(b),
    decreases b.len(),
{
    if b.len() == 0 {
        assert(a + b =~= a);
        vstd::arithmetic::power::lemma_pow0(10);
    } else {
        let less = b.drop_last();
        assert(all_digits(less));
        law_number_value_is_positional(a, less);
        assert((a + b).drop_last() =~= a + less);
        assert((a + b).last() == b.last());
        assert(is_digit(b[b.len() - 1]));
        let d: int = b.last() as u32 - 48;
        let p: int = vstd::arithmetic::power::pow(10, less.len());
        let x: int = number_value(a) as int;
        let y: int = number_value(less) as int;
        reveal(vstd::arithmetic::power::pow);
        assert(vstd::arithmetic::power::pow(10, b.len()) == 10 * p);
        assert(number_value(a + less) >= 0);
        assert((x * p + y) * 10 + d == x * (10 * p) + (y * 10 + d)) by (nonlinear_arith);
    }
}

/// A number that fits is read back from its decimal digits, also with a plus sign or zeros before
/// them.
pub proof fn law_decimal_is_read_back(n: u32)
    ensures
        u32_value(decimal(n as nat)) == Some(n),
        u32_value(seq!['+'] + decimal(n as nat)) == Some(n),
        u32_value(seq!['0'] + decimal(n as nat)) == Some(n),
{
    let digits = decimal(n as nat);
    law_decimal_spells_the_number(n as nat);
    assert(is_digit(digits[0]));
    assert((seq!['+'] + digits).skip(1) =~= digits);
    let zero = seq!['0'];
    let padded = zero + digits;
    assert(all_digits(zero));
    assert(zero.drop_last() =~= Seq::<char>::empty());
    assert(number_value(Seq::<char>::empty()) == 0);
    assert(number_value(zero) == 0);
    law_number_value_is_positional(zero, digits);
    assert(0 * vstd::arithmetic::power::pow(10, digits.len()) == 0) by (nonlinear_arith);
    assert(all_digits(padded)) by {
        assert forall|i: int| 0 <= i < padded.len() implies is_digit(#[trigger] padded[i]) by {
            if i > 0 {
                assert(padded[i] == digits[i - 1]);
            }
        }
    }
}

/// A text with anything but digits behind its sign, or with no digits, spells no number.
pub proof fn law_only_digits_spell_a_number(s: Seq<char>)
    ensures
        s.len() == 0 ==> u32_value(s) is None,
        s == seq!['+'] ==> u32_value(s) is None,
        forall|i: int|
            0 <= i < s.len() && !('0' <= #[trigger] s[i] <= '9') && (i > 0 || s[i] != '+')
                ==> u32_value(s) is None,
{
    assert forall|i: int|
        0 <= i < s.len() && !('0' <= #[trigger] s[i] <= '9') && (i > 0 || s[i] != '+') implies u32_value(
        s,
    ) is None by {
        let digits = without_plus(s);
        if s[0] == '+' {
            assert(digits[i - 1] == s[i]);
        } else {
            assert(digits[i] == s[i]);
        }
    }
    if s == seq!['+'] {
        assert(s[0] == '+');
        assert(s.skip(1).len() == 0);
    }
}

/// Texts that are joined in two lots have the separator between the lots.
pub proof fn law_joining_goes_part_by_part(a: Seq<Seq<char>>, b: Seq<Seq<char>>, sep: Seq<char>)
    requires
        a.len() > 0,
        b.len() > 0,
    ensures
        joined(a + b, sep) == joined(a, sep) + sep + joined(b, sep),
    decreases b.len(),
{
    let all = a + b;
    assert(all.last() == b.last());
    if b.len() == 1 {
        assert(all.drop_last() =~= a);
    } else {
        let less = b.drop_last();
        assert(all.drop_last() =~= a + less);
        law_joining_goes_part_by_part(a, less, sep);
        assert(joined(all, sep) =~= joined(a, sep) + sep + joined(b, sep));
    }
}

/// One text joined is itself, and none is the empty text.
pub proof fn law_joining_one_or_none(text: Seq<char>, sep: Seq<char>)
    ensures
        joined(seq![text], sep) == text,
        joined(Seq::empty(), sep) == Seq::<char>::empty(),
{
}

/// Texts are ordered by the first character in which they differ, and a text comes before what
/// continues it.
pub proof fn law_order_of_texts(common: Seq<char>, x: char, a: Seq<char>, y: char, b: Seq<char>)
    ensures
        precedes(common + seq![x] + a, common + seq![y] + b) <== x < y,
        precedes(common, common + seq![y] + b),
        !precedes(common + seq![y] + b, common),
    decreases common.len(),
{
    let p = common + seq![x] + a;
    let q = common + seq![y] + b;
    if common.len() > 0 {
        let less = common.drop_first();
        assert(p.drop_first() =~= less + seq![x] + a);
        assert(q.drop_first() =~= less + seq![y] + b);
        law_order_of_texts(less, x, a, y, b);
    }
}

/// `text` in double quotes with escapes.
///
/// Not proved: that `format!` with `{:?}` gives, for a `str`, what [`debug_form`] names. The
/// escapes follow Unicode tables of the standard library and are not written out here.
#[verifier::external_body]
pub(crate) fn quoted(text: &str) -> (r: String)
    ensures
        r@ == debug_form(text@),
{
    format!("{:?}", text)
}

/// The two parts of a cut, with the character between them, are the text.
pub proof fn law_a_cut_loses_nothing(s: Seq<char>, c: char)
    requires
        cut_once(s, c) is Some,
    ensures
        s == (cut_once(s, c)->0).0 + seq![c] + (cut_once(s, c)->0).1,
        !(cut_once(s, c)->0).0.contains(c),
{
    lemma_first_index(s, seq![c]);
    let at = first_index(s, seq![c]);
    lemma_contains_one(c, s[at]);
    let head = s.take(at);
    if head.contains(c) {
        let i = choose|i: int| 0 <= i < head.len() && head[i] == c;
        assert(s[i] == c);
        lemma_contains_one(c, s[i]);
    }
    assert(s =~= head + seq![c] + s.skip(at + 1));
}

/// A text of ASCII characters takes a byte for each.
pub proof fn law_ascii_takes_a_byte_each(s: Seq<char>)
    requires
        forall|i: int| 0 <= i < s.len() ==> '\0' <= #[trigger] s[i] <= '\u{7f}',
    ensures
        byte_len(s) == s.len(),
{
    assert(vstd::utf8::is_ascii_chars(s));
    vstd::utf8::is_ascii_chars_encode_utf8(s);
}

/// Whether none of the characters of `marks` occurs in `s`.
pub open spec fn is_free_of(s: Seq<char>, marks: Seq<char>) -> bool {
    forall|i: int| 0 <= i < s.len() ==> !marks.contains(#[trigger] s[i])
}

/// A number that is too large is not read.
pub proof fn law_large_numbers_are_not_read(s: Seq<char>)
    requires
        all_digits(s),
        s.len() > 0,
    ensures
        u32_value(s) == if number_value(s) <= 0xffff_ffff {
            Some(number_value(s) as u32)
        } else {
            None
        },
{
    assert(is_digit(s[0]));
}

/// The texts of strings are theirs, one by one.
pub proof fn law_texts_are_those_of_the_strings(strings: Seq<String>, i: int, s: String)
    ensures
        texts(strings).len() == strings.len(),
        0 <= i < strings.len() ==> texts(strings)[i] == strings[i]@,
        text_of(Some(s)) == Some(s@),
        text_of(None) is None,
{
}

} // verus!
