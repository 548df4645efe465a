//! Text: prefixes, splitting, decimal numbers, ASCII case.
use vstd::prelude::*;
use vstd::string::*;
use vstd::utf8::*;

verus! {

broadcast use vstd::string::group_string_axioms;

/// Whether `s` begins with `prefix`.
pub open spec fn begins_with(s: Seq<char>, prefix: Seq<char>) -> bool {
    prefix.len() <= s.len() && s.take(prefix.len() as int) == prefix
}

/// What is left of `s` behind `prefix`, or nothing where `s` does not begin with it.
pub open spec fn without_prefix(s: Seq<char>, prefix: Seq<char>) -> Option<Seq<char>> {
    if begins_with(s, prefix) {
        Some(s.skip(prefix.len() as int))
    } else {
        None
    }
}

/// The two sides of the first `sep` in `s`.
pub open spec fn first_split(s: Seq<char>, sep: char) -> Option<(Seq<char>, Seq<char>)>
    decreases s.len(),
{
    if s.len() == 0 {
        None
    } else if s[0] == sep {
        Some((Seq::empty(), s.skip(1)))
    } else {
        match first_split(s.skip(1), sep) {
            Some((head, tail)) => Some((seq![s[0]] + head, tail)),
            None => None,
        }
    }
}

/// The two sides of the last `sep` in `s`.
pub open spec fn last_split(s: Seq<char>, sep: char) -> Option<(Seq<char>, Seq<char>)>
    decreases s.len(),
{
    if s.len() == 0 {
        None
    } else if s.last() == sep {
        Some((s.drop_last(), Seq::empty()))
    } else {
        match last_split(s.drop_last(), sep) {
            Some((head, tail)) => Some((head, tail.push(s.last()))),
            None => None,
        }
    }
}

/// The part of `s` before its first `sep`: all of it where there is none.
pub open spec fn before_first(s: Seq<char>, sep: char) -> Seq<char> {
    match first_split(s, sep) {
        Some((head, _)) => head,
        None => s,
    }
}

/// The part of `s` behind its first `sep`: nothing where there is none.
pub open spec fn after_first(s: Seq<char>, sep: char) -> Seq<char> {
    match first_split(s, sep) {
        Some((_, tail)) => tail,
        None => Seq::empty(),
    }
}

proof fn lemma_first_split_at(s: Seq<char>, sep: char, at: int)
    requires
        0 <= at < s.len(),
        s[at] == sep,
        forall|j: int| 0 <= j < at ==> s[j] != sep,
    ensures
        first_split(s, sep) == Some((s.take(at), s.skip(at + 1))),
    decreases at,
{
    if at == 0 {
        assert(s.take(0) =~= Seq::empty());
    } else {
        lemma_first_split_at(s.skip(1), sep, at - 1);
        assert(seq![s[0]] + s.skip(1).take(at - 1) =~= s.take(at));
        assert(s.skip(1).skip(at) =~= s.skip(at + 1));
    }
}

proof fn lemma_first_split_none(s: Seq<char>, sep: char)
    requires
        forall|j: int| 0 <= j < s.len() ==> s[j] != sep,
    ensures
        first_split(s, sep) is None,
    decreases s.len(),
{
    if s.len() > 0 {
        lemma_first_split_none(s.skip(1), sep);
    }
}

proof fn lemma_last_split_at(s: Seq<char>, sep: char, at: int)
    requires
        0 <= at < s.len(),
        s[at] == sep,
        forall|j: int| at < j < s.len() ==> s[j] != sep,
    ensures
        last_split(s, sep) == Some((s.take(at), s.skip(at + 1))),
    decreases s.len(),
{
    if at == s.len() - 1 {
        assert(s.drop_last() =~= s.take(at));
        assert(s.skip(at + 1) =~= Seq::empty());
    } else {
        lemma_last_split_at(s.drop_last(), sep, at);
        assert(s.drop_last().take(at) =~= s.take(at));
        assert(s.drop_last().skip(at + 1).push(s.last()) =~= s.skip(at + 1));
    }
}

proof fn lemma_last_split_none(s: Seq<char>, sep: char)
    requires
        forall|j: int| 0 <= j < s.len() ==> s[j] != sep,
    ensures
        last_split(s, sep) is None,
    decreases s.len(),
{
    if s.len() > 0 {
        lemma_last_split_none(s.drop_last(), sep);
    }
}

/// The characters of `s`.
pub fn to_chars(s: &str) -> (r: Vec<char>)
    ensures
        r@ == s@,
{
    let mut r: Vec<char> = Vec::new();
    for c in it: s.chars()
        invariant
            r@ == s@.take(it.index()),
            it.seq() == s@,
    {
        proof {
            assert(s@.take(it.index() + 1) =~= s@.take(it.index()).push(c));
        }
        r.push(c);
    }
    proof {
        assert(s@.take(s@.len() as int) =~= s@);
    }
    r
}

/// Whether two texts hold the same characters.
pub fn same(a: &str, b: &str) -> (r: bool)
    ensures
        r == (a@ == b@),
{
    let x: &[u8] = a.as_bytes();
    let y: &[u8] = b.as_bytes();
    if x.len() != y.len() {
        return false;
    }
    let mut i: usize = 0;
    while i < x.len()
        invariant
            i <= x@.len() == y@.len(),
            x@ == a.spec_bytes(),
            y@ == b.spec_bytes(),
            forall|j: int| 0 <= j < i ==> x@[j] == y@[j],
        decreases x@.len() - i,
    {
        if x[i] != y[i] {
            return false;
        }
        i = i + 1;
    }
    proof {
        assert(x@ =~= y@);
        encode_utf8_decode_utf8(a@);
        encode_utf8_decode_utf8(b@);
    }
    true
}

/// Whether `s` begins with `prefix`.
pub fn begins(s: &str, prefix: &str) -> (r: bool)
    ensures
        r == begins_with(s@, prefix@),
{
    strip(s, prefix).is_some()
}

/// What is left of `s` behind `prefix`.
pub fn strip<'a>(s: &'a str, prefix: &str) -> (r: Option<&'a str>)
    ensures
        match r {
            Some(rest) => without_prefix(s@, prefix@) == Some(rest@),
            None => without_prefix(s@, prefix@) is None,
        },
{
    let n: usize = s.unicode_len();
    let k: usize = prefix.unicode_len();
    if k > n {
        return None;
    }
    let head: &str = s.substring_char(0, k);
    proof {
        assert(head@ =~= s@.take(k as int));
    }
    if same(head, prefix) {
        let rest: &str = s.substring_char(k, n);
        proof {
            assert(rest@ =~= s@.skip(k as int));
        }
        Some(rest)
    } else {
        None
    }
}

/// The two sides of the first `sep` in `s`.
pub fn split_first<'a>(s: &'a str, sep: char) -> (r: Option<(&'a str, &'a str)>)
    ensures
        match r {
            Some((head, tail)) => first_split(s@, sep) == Some((head@, tail@)),
            None => first_split(s@, sep) is None,
        },
{
    let chars: Vec<char> = to_chars(s);
    let mut i: usize = 0;
    while i < chars.len()
        invariant
            i <= chars@.len(),
            chars@ == s@,
            forall|j: int| 0 <= j < i ==> s@[j] != sep,
        decreases chars@.len() - i,
    {
        if chars[i] == sep {
            let head: &str = s.substring_char(0, i);
            let tail: &str = s.substring_char(i + 1, chars.len());
            proof {
                lemma_first_split_at(s@, sep, i as int);
                assert(head@ =~= s@.take(i as int));
                assert(tail@ =~= s@.skip(i + 1));
            }
            return Some((head, tail));
        }
        i = i + 1;
    }
    proof {
        lemma_first_split_none(s@, sep);
    }
    None
}

/// The two sides of the last `sep` in `s`.
pub fn split_last<'a>(s: &'a str, sep: char) -> (r: Option<(&'a str, &'a str)>)
    ensures
        match r {
            Some((head, tail)) => last_split(s@, sep) == Some((head@, tail@)),
            None => last_split(s@, sep) is None,
        },
{
    let chars: Vec<char> = to_chars(s);
    let mut i: usize = chars.len();
    while i > 0
        invariant
            i <= chars@.len(),
            chars@ == s@,
            forall|j: int| i <= j < s@.len() ==> s@[j] != sep,
        decreases i,
    {
        i = i - 1;
        if chars[i] == sep {
            let head: &str = s.substring_char(0, i);
            let tail: &str = s.substring_char(i + 1, chars.len());
            proof {
                lemma_last_split_at(s@, sep, i as int);
                assert(head@ =~= s@.take(i as int));
                assert(tail@ =~= s@.skip(i + 1));
            }
            return Some((head, tail));
        }
    }
    proof {
        lemma_last_split_none(s@, sep);
    }
    None
}

/// The part of `s` before its first `sep`.
pub fn before<'a>(s: &'a str, sep: char) -> (r: &'a str)
    ensures
        r@ == before_first(s@, sep),
{
    match split_first(s, sep) {
        Some((head, _)) => head,
        None => s,
    }
}

/// The part of `s` behind its first `sep`.
pub fn after<'a>(s: &'a str, sep: char) -> (r: &'a str)
    ensures
        r@ == after_first(s@, sep),
{
    match split_first(s, sep) {
        Some((_, tail)) => tail,
        None => {
            proof {
                reveal_strlit("");
                assert(""@ =~= Seq::<char>::empty());
            }
            ""
        },
    }
}

/// `a` followed by `b`.
pub fn chain(a: &str, b: &str) -> (r: String)
    ensures
        r@ == a@ + b@,
{
    let mut r: String = a.to_owned();
    r.append(b);
    r
}

/// The decimal digit of a number below ten.
pub open spec fn digit(d: nat) -> char {
    if d == 0 {
        '0'
    } else if d == 1 {
        '1'
    } else if d == 2 {
        '2'
    } else if d == 3 {
        '3'
    } else if d == 4 {
        '4'
    } else if d == 5 {
        '5'
    } else if d == 6 {
        '6'
    } else if d == 7 {
        '7'
    } else if d == 8 {
        '8'
    } else {
        '9'
    }
}

/// A number written in decimal, without leading zeros.
pub open spec fn decimal(n: nat) -> Seq<char>
    decreases n,
{
    if n < 10 {
        seq![digit(n)]
    } else {
        decimal(n / 10).push(digit(n % 10))
    }
}

/// A number written in decimal, with leading zeros up to the given width.
pub open spec fn padded(n: nat, width: nat) -> Seq<char> {
    let text = decimal(n);
    if text.len() >= width {
        text
    } else {
        Seq::new((width - text.len()) as nat, |i: int| '0') + text
    }
}

fn digit_text(d: usize) -> (r: &'static str)
    requires
        d < 10,
    ensures
        r@ == seq![digit(d as nat)],
{
    proof {
        reveal_strlit("0");
        reveal_strlit("1");
        reveal_strlit("2");
        reveal_strlit("3");
        reveal_strlit("4");
        reveal_strlit("5");
        reveal_strlit("6");
        reveal_strlit("7");
        reveal_strlit("8");
        reveal_strlit("9");
    }
    let r: &'static str = match d {
        0 => "0",
        1 => "1",
        2 => "2",
        3 => "3",
        4 => "4",
        5 => "5",
        6 => "6",
        7 => "7",
        8 => "8",
        _ => "9",
    };
    proof {
        assert(r@ =~= seq![digit(d as nat)]);
    }
    r
}

/// `n` in decimal.
pub fn decimal_text(n: usize) -> (r: String)
    ensures
        r@ == decimal(n as nat),
    decreases n,
{
    if n < 10 {
        digit_text(n).to_owned()
    } else {
        let mut r: String = decimal_text(n / 10);
        r.append(digit_text(n % 10));
        proof {
            assert(r@ =~= decimal((n / 10) as nat).push(digit((n % 10) as nat)));
        }
        r
    }
}

/// `n` in decimal, padded with zeros to `width`.
pub fn padded_text(n: usize, width: usize) -> (r: String)
    ensures
        r@ == padded(n as nat, width as nat),
{
    let text: String = decimal_text(n);
    let len: usize = text.as_str().unicode_len();
    if len >= width {
        return text;
    }
    let mut r: String = String::new();
    let mut i: usize = 0;
    while i < width - len
        invariant
            i <= width - len,
            len <= width,
            r@ == Seq::new(i as nat, |j: int| '0'),
        decreases width - len - i,
    {
        proof {
            reveal_strlit("0");
        }
        r.append("0");
        i = i + 1;
        proof {
            assert(r@ =~= Seq::new(i as nat, |j: int| '0'));
        }
    }
    r.append(text.as_str());
    r
}

/// The number that a decimal digit stands for.
pub open spec fn digit_value(c: char) -> Option<nat> {
    if '0' <= c <= '9' {
        Some((c as u32 - '0' as u32) as nat)
    } else {
        None
    }
}

/// The number that a run of decimal digits stands for; the empty run stands for zero.
pub open spec fn digits_value(s: Seq<char>) -> Option<nat>
    decreases s.len(),
{
    if s.len() == 0 {
        Some(0)
    } else {
        match (digits_value(s.drop_last()), digit_value(s.last())) {
            (Some(v), Some(d)) => Some(10 * v + d),
            _ => None,
        }
    }
}

/// The number that a text stands for: an optional `+`, then one or more decimal digits.
pub open spec fn decimal_value(s: Seq<char>) -> Option<nat> {
    let digits = if s.len() > 0 && s[0] == '+' {
        s.skip(1)
    } else {
        s
    };
    if digits.len() == 0 {
        None
    } else {
        digits_value(digits)
    }
}

/// A number in decimal is digits, and they give the number back.
pub proof fn lemma_decimal(n: nat)
    ensures
        decimal(n).len() > 0,
        forall|i: int| 0 <= i < decimal(n).len() ==> '0' <= #[trigger] decimal(n)[i] <= '9',
        digits_value(decimal(n)) == Some(n),
    decreases n,
{
    let s = decimal(n);
    if n < 10 {
        assert(s.drop_last() =~= Seq::empty());
        assert(digits_value(s.drop_last()) == Some(0nat));
    } else {
        lemma_decimal(n / 10);
        assert(s.drop_last() =~= decimal(n / 10));
    }
}

/// The number that a text stands for, where it does not exceed `max`.
pub open spec fn bounded_value(s: Seq<char>, max: nat) -> Option<nat> {
    match decimal_value(s) {
        Some(v) => if v <= max {
            Some(v)
        } else {
            None
        },
        None => None,
    }
}

proof fn lemma_digits_grow(s: Seq<char>, k: int, max: nat)
    requires
        0 <= k <= s.len(),
        digits_value(s.take(k)) is None || digits_value(s.take(k))->0 > max,
    ensures
        digits_value(s) is None || digits_value(s)->0 > max,
    decreases s.len() - k,
{
    if k == s.len() {
        assert(s.take(k) =~= s);
    } else {
        assert(s.take(k + 1).drop_last() =~= s.take(k));
        lemma_digits_grow(s, k + 1, max);
    }
}

/// Reads an unsigned decimal number of at most `max`.
pub fn parse_unsigned(s: &str, max: u64) -> (r: Option<u64>)
    ensures
        match r {
            Some(v) => bounded_value(s@, max as nat) == Some(v as nat),
            None => bounded_value(s@, max as nat) is None,
        },
{
    let chars: Vec<char> = to_chars(s);
    let start: usize = if chars.len() > 0 && chars[0] == '+' {
        1
    } else {
        0
    };
    let ghost digits = s@.skip(start as int);
    proof {
        assert(s@.skip(0) =~= s@);
    }
    if start == chars.len() {
        return None;
    }
    let mut i: usize = start;
    let mut v: u64 = 0;
    proof {
        assert(digits.take(0) =~= Seq::empty());
    }
    while i < chars.len()
        invariant
            start <= i <= chars@.len(),
            start < chars@.len(),
            chars@ == s@,
            digits == s@.skip(start as int),
            start == (if s@.len() > 0 && s@[0] == '+' {
                1int
            } else {
                0int
            }),
            start == 0 ==> digits == s@,
            v <= max,
            digits_value(digits.take(i - start)) == Some(v as nat),
        decreases chars@.len() - i,
    {
        let c: char = chars[i];
        proof {
            assert(digits.take(i - start + 1).drop_last() =~= digits.take(i - start));
            assert(digits.take(i - start + 1).last() == c);
        }
        if c < '0' || c > '9' {
            proof {
                lemma_digits_grow(digits, i - start + 1, max as nat);
            }
            return None;
        }
        let d: u64 = (c as u32 - '0' as u32) as u64;
        let wide: u128 = v as u128 * 10 + d as u128;
        if wide > max as u128 {
            proof {
                lemma_digits_grow(digits, i - start + 1, max as nat);
            }
            return None;
        }
        v = wide as u64;
        i = i + 1;
    }
    proof {
        assert(digits.take(i - start) =~= digits);
    }
    Some(v)
}

/// The code of a character, with ASCII capitals taken as small letters.
pub open spec fn folded(c: char) -> u32 {
    if 'A' <= c <= 'Z' {
        (c as u32 + 32) as u32
    } else {
        c as u32
    }
}

/// A text with its ASCII capitals made small.
pub open spec fn small(s: Seq<char>) -> Seq<char> {
    Seq::new(s.len(), |i: int| folded(s[i]) as char)
}

/// Whether a text is made of ASCII characters.
pub open spec fn is_ascii_text(s: Seq<char>) -> bool {
    forall|i: int| 0 <= i < s.len() ==> '\0' <= #[trigger] s[i] <= '\u{7f}'
}

/// Making the capitals of ASCII text small gives ASCII text, and there is nothing left to be done.
pub proof fn lemma_small_is_idempotent(s: Seq<char>)
    requires
        is_ascii_text(s),
    ensures
        is_ascii_text(small(s)),
        small(small(s)) == small(s),
{
    assert forall|i: int| 0 <= i < s.len() implies '\0' <= #[trigger] small(
        s,
    )[i] <= '\u{7f}' && folded(small(s)[i]) as char == small(s)[i] by {
        assert('\0' <= s[i] <= '\u{7f}');
    }
    assert(small(small(s)) =~= small(s));
}

/// Whether two texts are equal up to the case of ASCII letters.
pub open spec fn same_ignoring_case(a: Seq<char>, b: Seq<char>) -> bool {
    &&& a.len() == b.len()
    &&& forall|i: int| 0 <= i < a.len() ==> folded(#[trigger] a[i]) == folded(b[i])
}

fn fold(c: char) -> (r: u32)
    ensures
        r == folded(c),
{
    if c >= 'A' && c <= 'Z' {
        c as u32 + 32
    } else {
        c as u32
    }
}

/// ASCII texts are equal up to the case of their letters where they are the same in small letters.
pub proof fn lemma_small_is_case_blind(a: Seq<char>, b: Seq<char>)
    requires
        is_ascii_text(a),
        is_ascii_text(b),
    ensures
        small(a) == small(b) <==> same_ignoring_case(a, b),
{
    if same_ignoring_case(a, b) {
        assert(small(a) =~= small(b));
    }
    if small(a) == small(b) {
        assert(small(a).len() == a.len() && small(b).len() == b.len());
        assert forall|i: int| 0 <= i < a.len() implies folded(#[trigger] a[i]) == folded(b[i]) by {
            assert('\0' <= a[i] <= '\u{7f}');
            assert('\0' <= b[i] <= '\u{7f}');
            assert(small(a)[i] == small(b)[i]);
        }
    }
}

/// Whether two texts are equal up to the case of ASCII letters.
pub fn matches_ignoring_case(a: &str, b: &str) -> (r: bool)
    ensures
        r == same_ignoring_case(a@, b@),
{
    let x: Vec<char> = to_chars(a);
    let y: Vec<char> = to_chars(b);
    if x.len() != y.len() {
        return false;
    }
    let mut i: usize = 0;
    while i < x.len()
        invariant
            i <= x@.len() == y@.len(),
            x@ == a@,
            y@ == b@,
            forall|j: int| 0 <= j < i ==> folded(#[trigger] a@[j]) == folded(b@[j]),
        decreases x@.len() - i,
    {
        if fold(x[i]) != fold(y[i]) {
            proof {
                assert(folded(a@[i as int]) != folded(b@[i as int]));
            }
            return false;
        }
        i = i + 1;
    }
    true
}

/// The texts in order, with `sep` between each two.
pub open spec fn joined(parts: Seq<Seq<char>>, sep: Seq<char>) -> Seq<char>
    decreases parts.len(),
{
    if parts.len() == 0 {
        Seq::empty()
    } else if parts.len() == 1 {
        parts[0]
    } else {
        joined(parts.drop_last(), sep) + sep + parts.last()
    }
}

/// The contents of a list of strings.
pub open spec fn texts(parts: Seq<String>) -> Seq<Seq<char>> {
    Seq::new(parts.len(), |i: int| parts[i]@)
}

/// Joins the texts with `sep`.
pub fn join(parts: &Vec<String>, sep: &str) -> (r: String)
    ensures
        r@ == joined(texts(parts@), sep@),
{
    let mut r: String = String::new();
    let mut i: usize = 0;
    let ghost all = texts(parts@);
    while i < parts.len()
        invariant
            i <= parts@.len(),
            all == texts(parts@),
            r@ == joined(all.take(i as int), sep@),
        decreases parts@.len() - i,
    {
        proof {
            assert(all.take(i + 1).drop_last() =~= all.take(i as int));
        }
        if i > 0 {
            r.append(sep);
        }
        r.append(parts[i].as_str());
        proof {
            assert(r@ =~= joined(all.take(i + 1), sep@));
        }
        i = i + 1;
    }
    proof {
        assert(all.take(i as int) =~= all);
    }
    r
}

/// The content of an optional string.
pub open spec fn optional_text(s: Option<String>) -> Option<Seq<char>> {
    match s {
        Some(s) => Some(s@),
        None => None,
    }
}

/// A text begins with another exactly where it has the letters of the other in front, and what is
/// left behind them is the rest.
pub proof fn law_prefixes_are_letters_in_front(s: Seq<char>, prefix: Seq<char>, rest: Seq<char>)
    ensures
        begins_with(s, prefix) <==> prefix.is_prefix_of(s),
        begins_with(prefix + rest, prefix),
        without_prefix(prefix + rest, prefix) == Some(rest),
        without_prefix(s, prefix) is Some <==> prefix.is_prefix_of(s),
        without_prefix(s, prefix) matches Some(left) ==> prefix + left == s,
{
    assert((prefix + rest).take(prefix.len() as int) =~= prefix);
    assert((prefix + rest).skip(prefix.len() as int) =~= rest);
    assert(s.take(prefix.len() as int) =~= s.subrange(0, prefix.len() as int));
    if begins_with(s, prefix) {
        assert(prefix + s.skip(prefix.len() as int) =~= s);
    }
}

/// A text is parted at its first separator: the two sides give the text back, and the first side
/// has no separator in it. Where there is none, nothing is parted.
pub proof fn law_first_separator_parts(
    s: Seq<char>,
    sep: char,
    head: Seq<char>,
    tail: Seq<char>,
)
    ensures
        first_split(s, sep) == Some((head, tail)) <==> s == head + seq![sep] + tail
            && !head.contains(sep),
        first_split(s, sep) is None <==> !s.contains(sep),
        !head.contains(sep) ==> before_first(head + seq![sep] + tail, sep) == head,
        !head.contains(sep) ==> after_first(head + seq![sep] + tail, sep) == tail,
        !s.contains(sep) ==> before_first(s, sep) == s,
        !s.contains(sep) ==> after_first(s, sep).len() == 0,
{
    if !head.contains(sep) {
        let t = head + seq![sep] + tail;
        let at = head.len() as int;
        assert forall|j: int| 0 <= j < at implies t[j] != sep by {
            assert(t[j] == head[j]);
            assert(head.contains(head[j]));
        }
        lemma_first_split_at(t, sep, at);
        assert(t.take(at) =~= head);
        assert(t.skip(at + 1) =~= tail);
    }
    if s.contains(sep) {
        let at = lemma_first_place(s, sep);
        lemma_first_split_at(s, sep, at);
        assert(s.take(at) + seq![sep] + s.skip(at + 1) =~= s);
        assert(!s.take(at).contains(sep));
    } else {
        assert forall|j: int| 0 <= j < s.len() implies s[j] != sep by {
            assert(s.contains(s[j]));
        }
        lemma_first_split_none(s, sep);
        if s == head + seq![sep] + tail {
            assert(s[head.len() as int] == sep);
        }
    }
}

proof fn lemma_first_place(s: Seq<char>, sep: char) -> (at: int)
    requires
        s.contains(sep),
    ensures
        0 <= at < s.len(),
        s[at] == sep,
        forall|j: int| 0 <= j < at ==> s[j] != sep,
    decreases s.len(),
{
    if s[0] == sep {
        0
    } else {
        let i = s.index_of(sep);
        assert(s.skip(1)[i - 1] == sep);
        let at = lemma_first_place(s.skip(1), sep) + 1;
        assert forall|j: int| 0 <= j < at implies s[j] != sep by {
            if j > 0 {
                assert(s.skip(1)[j - 1] == s[j]);
            }
        }
        at
    }
}

proof fn lemma_last_place(s: Seq<char>, sep: char) -> (at: int)
    requires
        s.contains(sep),
    ensures
        0 <= at < s.len(),
        s[at] == sep,
        forall|j: int| at < j < s.len() ==> s[j] != sep,
    decreases s.len(),
{
    if s.last() == sep {
        s.len() - 1
    } else {
        let i = s.index_of(sep);
        assert(s.drop_last()[i] == sep);
        let at = lemma_last_place(s.drop_last(), sep);
        assert forall|j: int| at < j < s.len() implies s[j] != sep by {
            if j < s.len() - 1 {
                assert(s.drop_last()[j] == s[j]);
            }
        }
        at
    }
}

/// A text is parted at its last separator: the two sides give the text back, and the second side
/// has no separator in it. Where there is none, nothing is parted.
pub proof fn law_last_separator_parts(s: Seq<char>, sep: char, head: Seq<char>, tail: Seq<char>)
    ensures
        last_split(s, sep) == Some((head, tail)) <==> s == head + seq![sep] + tail
            && !tail.contains(sep),
        last_split(s, sep) is None <==> !s.contains(sep),
{
    if !tail.contains(sep) {
        let t = head + seq![sep] + tail;
        let at = head.len() as int;
        assert forall|j: int| at < j < t.len() implies t[j] != sep by {
            assert(t[j] == tail[j - at - 1]);
            assert(tail.contains(tail[j - at - 1]));
        }
        lemma_last_split_at(t, sep, at);
        assert(t.take(at) =~= head);
        assert(t.skip(at + 1) =~= tail);
    }
    if s.contains(sep) {
        let at = lemma_last_place(s, sep);
        lemma_last_split_at(s, sep, at);
        assert(s.take(at) + seq![sep] + s.skip(at + 1) =~= s);
        assert(!s.skip(at + 1).contains(sep)) by {
            let rest = s.skip(at + 1);
            assert forall|j: int| 0 <= j < rest.len() implies #[trigger] rest[j] != sep by {
                assert(rest[j] == s[at + 1 + j]);
            }
        }
    } else {
        assert forall|j: int| 0 <= j < s.len() implies s[j] != sep by {
            assert(s.contains(s[j]));
        }
        lemma_last_split_none(s, sep);
        if s == head + seq![sep] + tail {
            assert(s[head.len() as int] == sep);
        }
    }
}

/// Whether all that a text holds are characters: so it is with every text that a string holds.
pub open spec fn is_text(s: Seq<char>) -> bool {
    forall|i: int|
        0 <= i < s.len() ==> '\0' <= #[trigger] s[i] <= '\u{d7ff}' || '\u{e000}' <= s[i]
            <= '\u{10ffff}'
}

/// Two texts are equal up to case exactly where they are as long, and at each place have the same
/// character or the capital and the small form of one ASCII letter.
pub proof fn law_case_is_a_matter_of_letters(a: Seq<char>, b: Seq<char>)
    requires
        is_text(a),
        is_text(b),
    ensures
        same_ignoring_case(a, b) <==> a.len() == b.len() && forall|i: int|
            0 <= i < a.len() ==> {
                ||| #[trigger] a[i] == b[i]
                ||| 'A' <= a[i] <= 'Z' && b[i] as u32 == a[i] as u32 + 32
                ||| 'A' <= b[i] <= 'Z' && a[i] as u32 == b[i] as u32 + 32
            },
{
    if same_ignoring_case(a, b) {
        assert forall|i: int| 0 <= i < a.len() implies {
            ||| #[trigger] a[i] == b[i]
            ||| 'A' <= a[i] <= 'Z' && b[i] as u32 == a[i] as u32 + 32
            ||| 'A' <= b[i] <= 'Z' && a[i] as u32 == b[i] as u32 + 32
        } by {
            assert('\0' <= a[i] <= '\u{10ffff}');
            assert('\0' <= b[i] <= '\u{10ffff}');
            assert(folded(a[i]) == folded(b[i]));
        }
    }
}

/// Making a text small changes its ASCII capitals, each to the letter that comes with it, and
/// nothing else.
pub proof fn law_only_capitals_are_made_small(s: Seq<char>, i: int)
    requires
        0 <= i < s.len(),
        is_text(s),
    ensures
        small(s).len() == s.len(),
        'A' <= s[i] <= 'Z' ==> small(s)[i] as u32 == s[i] as u32 + 32,
        !('A' <= s[i] <= 'Z') ==> small(s)[i] == s[i],
{
    assert('\0' <= s[i] <= '\u{d7ff}' || '\u{e000}' <= s[i] <= '\u{10ffff}');
}

/// A number is written with the digit of its last place behind the number of the other places.
pub proof fn law_digits_go_by_tens(n: nat, d: nat)
    requires
        d < 10,
    ensures
        decimal(d).len() == 1,
        decimal(d)[0] as u32 == 48 + d,
        n > 0 ==> decimal(10 * n + d).len() == decimal(n).len() + 1,
        n > 0 ==> decimal(10 * n + d).drop_last() == decimal(n),
        n > 0 ==> decimal(10 * n + d).last() as u32 == 48 + d,
{
    assert((10 * n + d) / 10 == n);
    assert((10 * n + d) % 10 == d);
    if n > 0 {
        assert(decimal(10 * n + d).drop_last() =~= decimal(n));
    }
}

/// A text stands for a number exactly where it is made of digits, one or more, with a plus sign in
/// front or not. A number that is written down is read back, the sign and leading zeros tell
/// nothing, and a number beyond the bound is none.
pub proof fn law_numbers_are_read(s: Seq<char>, n: nat, max: nat)
    ensures
        decimal_value(decimal(n)) == Some(n),
        decimal_value(seq!['+'] + decimal(n)) == Some(n),
        decimal_value(seq!['0'] + decimal(n)) == Some(n),
        bounded_value(decimal(n), max) == (if n <= max {
            Some(n)
        } else {
            None
        }),
        decimal_value(s) is Some <==> {
            ||| s.len() > 0 && forall|i: int| 0 <= i < s.len() ==> '0' <= #[trigger] s[i] <= '9'
            ||| s.len() > 1 && s[0] == '+' && forall|i: int|
                1 <= i < s.len() ==> '0' <= #[trigger] s[i] <= '9'
        },
        bounded_value(s, max) matches Some(v) ==> decimal_value(s) == Some(v) && v <= max,
{
    lemma_decimal(n);
    let t = decimal(n);
    assert(t[0] != '+');
    assert((seq!['+'] + t).skip(1) =~= t);
    crate::laws::lemma_leading_zero(t);
    assert((seq!['0'] + t)[0] == '0');
    let digits = if s.len() > 0 && s[0] == '+' {
        s.skip(1)
    } else {
        s
    };
    lemma_only_digits(digits);
    if s.len() > 0 && s[0] == '+' {
        assert forall|i: int| 1 <= i < s.len() implies s[i] == s.skip(1)[i - 1] by {}
        if forall|i: int| 1 <= i < s.len() ==> '0' <= #[trigger] s[i] <= '9' {
            assert forall|i: int| 0 <= i < digits.len() implies '0' <= #[trigger] digits[i]
                <= '9' by {
                assert(digits[i] == s[i + 1]);
            }
        }
        if digits_value(digits) is Some {
            assert forall|i: int| 1 <= i < s.len() implies '0' <= #[trigger] s[i] <= '9' by {
                assert(digits[i - 1] == s[i]);
            }
        }
    }
}

proof fn lemma_only_digits(s: Seq<char>)
    ensures
        digits_value(s) is Some <==> forall|i: int|
            0 <= i < s.len() ==> '0' <= #[trigger] s[i] <= '9',
    decreases s.len(),
{
    if s.len() > 0 {
        let t = s.drop_last();
        lemma_only_digits(t);
        if digits_value(s) is Some {
            assert forall|i: int| 0 <= i < s.len() implies '0' <= #[trigger] s[i] <= '9' by {
                if i < t.len() {
                    assert(t[i] == s[i]);
                }
            }
        }
        if forall|i: int| 0 <= i < s.len() ==> '0' <= #[trigger] s[i] <= '9' {
            assert forall|i: int| 0 <= i < t.len() implies '0' <= #[trigger] t[i] <= '9' by {
                assert(t[i] == s[i]);
            }
            assert('0' <= s[s.len() - 1] <= '9');
        }
    }
}

/// A number with leading zeros ends in the number as it is, has nothing but zeros before it, and is
/// never longer than it needs to be.
pub proof fn law_padding_is_zeros(n: nat, width: nat, i: int)
    ensures
        padded(n, width).len() == if decimal(n).len() >= width {
            decimal(n).len()
        } else {
            width
        },
        padded(n, width).skip(padded(n, width).len() - decimal(n).len()) == decimal(n),
        0 <= i < padded(n, width).len() - decimal(n).len() ==> padded(n, width)[i] == '0',
{
    assert(padded(n, width).skip(padded(n, width).len() - decimal(n).len()) =~= decimal(n));
}

/// Joined texts are the texts themselves with the separator between two: none alone gets one, and
/// lists that are joined one behind the other have one between them.
pub proof fn law_separators_stand_between(
    first: Seq<Seq<char>>,
    second: Seq<Seq<char>>,
    text: Seq<char>,
    sep: Seq<char>,
)
    ensures
        joined(Seq::empty(), sep).len() == 0,
        joined(seq![text], sep) == text,
        first.len() > 0 && second.len() > 0 ==> joined(first + second, sep) == joined(first, sep)
            + sep + joined(second, sep),
    decreases second.len(),
{
    if first.len() > 0 && second.len() > 0 {
        let all = first + second;
        assert(all.last() == second.last());
        assert(all.drop_last() =~= first + second.drop_last());
        if second.len() == 1 {
            assert(all.drop_last() =~= first);
        } else {
            law_separators_stand_between(first, second.drop_last(), text, sep);
            assert(joined(all, sep) =~= joined(first, sep) + sep + (joined(
                second.drop_last(),
                sep,
            ) + sep + second.last()));
        }
        assert(joined(all, sep) =~= joined(first, sep) + sep + joined(second, sep));
    }
}

/// One more digit at the end makes ten times the number, and the digit more; anything but a digit
/// makes it none.
pub proof fn law_digits_are_read_by_tens(s: Seq<char>, v: nat, c: char)
    requires
        digits_value(s) == Some(v),
    ensures
        '0' <= c <= '9' ==> digits_value(s.push(c)) == Some((10 * v + (c as int - 48)) as nat),
        !('0' <= c <= '9') ==> digits_value(s.push(c)) is None,
{
    assert(s.push(c).drop_last() =~= s);
}

/// A text is ASCII exactly where each of its characters has a code below 128.
pub proof fn law_ascii_is_below_128(s: Seq<char>)
    ensures
        is_ascii_text(s) <==> forall|i: int|
            0 <= i < s.len() ==> 0 <= (#[trigger] s[i]) as int <= 127,
{
    if is_ascii_text(s) {
        assert forall|i: int| 0 <= i < s.len() implies 0 <= (#[trigger] s[i]) as int <= 127 by {
            assert('\0' <= s[i] <= '\u{7f}');
        }
    }
    if forall|i: int| 0 <= i < s.len() ==> 0 <= (#[trigger] s[i]) as int <= 127 {
        assert forall|i: int| 0 <= i < s.len() implies '\0' <= #[trigger] s[i] <= '\u{7f}' by {
            assert(0 <= s[i] as int <= 127);
        }
    }
}

} // verus!
