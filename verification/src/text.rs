//! Text as sequences of characters: the trimming, searching and splitting that the
//! debugger-facing parsers are built from.

use vstd::prelude::*;

verus! {

/// `String::push`: appends one character to the end of the string.
pub assume_specification[ String::push ](s: &mut String, c: char)
    ensures
        final(s)@ == old(s)@.push(c),
;

/// The Unicode `White_Space` property.
pub open spec fn is_space(c: char) -> bool {
    let n = c as u32;
    ||| 0x09 <= n <= 0x0d
    ||| n == 0x20
    ||| n == 0x85
    ||| n == 0xa0
    ||| n == 0x1680
    ||| 0x2000 <= n <= 0x200a
    ||| n == 0x2028
    ||| n == 0x2029
    ||| n == 0x202f
    ||| n == 0x205f
    ||| n == 0x3000
}

/// Whether `c` has the Unicode `White_Space` property.
pub fn is_whitespace(c: char) -> (r: bool)
    ensures
        r == is_space(c),
{
    let n: u32 = c as u32;
    (0x09 <= n && n <= 0x0d) || n == 0x20 || n == 0x85 || n == 0xa0 || n == 0x1680 || (0x2000 <= n
        && n <= 0x200a) || n == 0x2028 || n == 0x2029 || n == 0x202f || n == 0x205f || n == 0x3000
}

/// A class of characters to trim or to search for.
#[derive(Clone, Copy)]
pub enum CharClass {
    /// Unicode white space.
    Space,
    /// One character.
    Only(char),
    /// Either of two characters.
    Either(char, char),
}

impl CharClass {
    pub open spec fn has(self, c: char) -> bool {
        match self {
            CharClass::Space => is_space(c),
            CharClass::Only(a) => c == a,
            CharClass::Either(a, b) => c == a || c == b,
        }
    }

    /// Whether the class holds `c`.
    pub fn contains(&self, c: char) -> (r: bool)
        ensures
            r == self.has(c),
    {
        match self {
            CharClass::Space => is_whitespace(c),
            CharClass::Only(a) => c == *a,
            CharClass::Either(a, b) => c == *a || c == *b,
        }
    }
}

/// ASCII lower case of one character; every other character is left as it is.
pub open spec fn lower(c: char) -> char {
    if 'A' <= c <= 'Z' {
        ((c as u32) + 32) as char
    } else {
        c
    }
}

pub open spec fn lower_all(s: Seq<char>) -> Seq<char> {
    s.map_values(|c: char| lower(c))
}

/// ASCII lower case of one character.
pub fn to_lower(c: char) -> (r: char)
    ensures
        r == lower(c),
{
    if 'A' <= c && c <= 'Z' {
        ((c as u8) + 32) as char
    } else {
        c
    }
}

/// The characters of `s`, in order.
pub fn chars_of(s: &str) -> (r: Vec<char>)
    ensures
        r@ == s@,
{
    let mut r: Vec<char> = Vec::new();
    for c in it: s.chars()
        invariant
            r@ == it.seq().take(it.index()),
            it.seq() == s@,
    {
        r.push(c);
    }
    r
}

/// The first index at or after `from` whose character is in `k`, or the length of `s`.
pub open spec fn first_in(s: Seq<char>, k: CharClass, from: int) -> int
    decreases s.len() - from,
{
    if from >= s.len() {
        s.len() as int
    } else if k.has(s[from]) {
        from
    } else {
        first_in(s, k, from + 1)
    }
}

/// The first index at or after `from` whose character is not in `k`, or the length of `s`.
pub open spec fn first_outside(s: Seq<char>, k: CharClass, from: int) -> int
    decreases s.len() - from,
{
    if from >= s.len() {
        s.len() as int
    } else if !k.has(s[from]) {
        from
    } else {
        first_outside(s, k, from + 1)
    }
}

/// The length of the shortest prefix of `s.take(to)` that only characters of `k` follow.
pub open spec fn end_outside(s: Seq<char>, k: CharClass, to: int) -> int
    decreases to,
{
    if to <= 0 {
        0
    } else if !k.has(s[to - 1]) {
        to
    } else {
        end_outside(s, k, to - 1)
    }
}

/// The last index below `to` whose character is in `k`, or -1.
pub open spec fn last_in(s: Seq<char>, k: CharClass, to: int) -> int
    decreases to,
{
    if to <= 0 {
        -1
    } else if k.has(s[to - 1]) {
        to - 1
    } else {
        last_in(s, k, to - 1)
    }
}

/// `s` without its leading characters of `k`.
pub open spec fn without_leading(s: Seq<char>, k: CharClass) -> Seq<char> {
    s.skip(first_outside(s, k, 0))
}

/// `s` without its trailing characters of `k`.
pub open spec fn without_trailing(s: Seq<char>, k: CharClass) -> Seq<char> {
    s.take(end_outside(s, k, s.len() as int))
}

/// `s` without the characters of `k` at both ends.
pub open spec fn stripped(s: Seq<char>, k: CharClass) -> Seq<char> {
    without_trailing(without_leading(s, k), k)
}

/// `s` without the white space at both ends.
pub open spec fn trimmed(s: Seq<char>) -> Seq<char> {
    stripped(s, CharClass::Space)
}

/// `s` up to its first character of `k`, or all of it.
pub open spec fn before_first(s: Seq<char>, k: CharClass) -> Seq<char> {
    s.take(first_in(s, k, 0))
}

/// Whether some character of `s` is in `k`.
pub open spec fn has_any(s: Seq<char>, k: CharClass) -> bool {
    exists|i: int| 0 <= i < s.len() && k.has(#[trigger] s[i])
}

/// `pat` stands in `s` at index `i`.
pub open spec fn occurs_at(s: Seq<char>, pat: Seq<char>, i: int) -> bool {
    0 <= i && i + pat.len() <= s.len() && s.subrange(i, i + pat.len()) == pat
}

/// The first index at or after `from` at which `pat` stands in `s`.
pub open spec fn first_match(s: Seq<char>, pat: Seq<char>, from: int) -> Option<int>
    decreases s.len() - from + 1,
{
    if from + pat.len() > s.len() {
        None
    } else if occurs_at(s, pat, from) {
        Some(from)
    } else {
        first_match(s, pat, from + 1)
    }
}

pub open spec fn starts_with(s: Seq<char>, pat: Seq<char>) -> bool {
    occurs_at(s, pat, 0)
}

pub open spec fn ends_with(s: Seq<char>, pat: Seq<char>) -> bool {
    occurs_at(s, pat, s.len() - pat.len())
}

pub open spec fn equal_ignoring_case(a: Seq<char>, b: Seq<char>) -> bool {
    lower_all(a) == lower_all(b)
}

/// The first index is one of `k`, or the end, and nothing before it is of `k`.
pub proof fn lemma_first_in_bounds(s: Seq<char>, k: CharClass, from: int)
    requires
        0 <= from <= s.len(),
    ensures
        from <= first_in(s, k, from) <= s.len(),
        first_in(s, k, from) < s.len() ==> k.has(s[first_in(s, k, from)]),
        forall|i: int| from <= i < first_in(s, k, from) ==> !k.has(#[trigger] s[i]),
    decreases s.len() - from,
{
    if from < s.len() && !k.has(s[from]) {
        lemma_first_in_bounds(s, k, from + 1);
    }
}

/// The first index whose character is in `k`, or the length.
pub fn find_in(cs: &Vec<char>, k: CharClass) -> (r: usize)
    ensures
        r == first_in(cs@, k, 0),
        r <= cs@.len(),
{
    let mut i: usize = 0;
    while i < cs.len()
        invariant
            i <= cs@.len(),
            first_in(cs@, k, 0) == first_in(cs@, k, i as int),
        decreases cs.len() - i,
    {
        if k.contains(cs[i]) {
            return i;
        }
        i += 1;
    }
    i
}

/// The last index below `to` whose character is in `k`.
pub fn find_last_in(cs: &Vec<char>, k: CharClass, to: usize) -> (r: Option<usize>)
    requires
        to <= cs@.len(),
    ensures
        r == (if last_in(cs@, k, to as int) < 0 {
            None
        } else {
            Some(last_in(cs@, k, to as int) as usize)
        }),
        r is Some ==> r->0 < to && r->0 == last_in(cs@, k, to as int),
{
    let mut i: usize = to;
    while i > 0
        invariant
            i <= to <= cs@.len(),
            last_in(cs@, k, to as int) == last_in(cs@, k, i as int),
        decreases i,
    {
        if k.contains(cs[i - 1]) {
            return Some(i - 1);
        }
        i -= 1;
    }
    None
}

/// `s` without its leading characters of `k`.
pub fn trim_leading(s: &str, k: CharClass) -> (r: &str)
    ensures
        r@ == without_leading(s@, k),
{
    let cs = chars_of(s);
    let mut i: usize = 0;
    while i < cs.len() && k.contains(cs[i])
        invariant
            i <= cs@.len(),
            first_outside(cs@, k, 0) == first_outside(cs@, k, i as int),
        decreases cs.len() - i,
    {
        i += 1;
    }
    s.substring_char(i, cs.len())
}

/// `s` without its trailing characters of `k`.
pub fn trim_trailing(s: &str, k: CharClass) -> (r: &str)
    ensures
        r@ == without_trailing(s@, k),
{
    let cs = chars_of(s);
    let mut i: usize = cs.len();
    while i > 0 && k.contains(cs[i - 1])
        invariant
            i <= cs@.len(),
            end_outside(cs@, k, cs@.len() as int) == end_outside(cs@, k, i as int),
        decreases i,
    {
        i -= 1;
    }
    s.substring_char(0, i)
}

/// `s` without the characters of `k` at both ends.
pub fn strip(s: &str, k: CharClass) -> (r: &str)
    ensures
        r@ == stripped(s@, k),
{
    trim_trailing(trim_leading(s, k), k)
}

/// `s` without the white space at both ends.
pub fn trim(s: &str) -> (r: &str)
    ensures
        r@ == trimmed(s@),
{
    strip(s, CharClass::Space)
}

/// `s` up to its first character of `k`, or all of it.
pub fn take_before(s: &str, k: CharClass) -> (r: &str)
    ensures
        r@ == before_first(s@, k),
{
    let cs = chars_of(s);
    let i = find_in(&cs, k);
    s.substring_char(0, i)
}

/// Whether some character of `s` is in `k`.
pub fn contains_any(s: &str, k: CharClass) -> (r: bool)
    ensures
        r == has_any(s@, k),
        r == (first_in(s@, k, 0) < s@.len()),
{
    let cs = chars_of(s);
    let i = find_in(&cs, k);
    proof {
        lemma_first_in_bounds(s@, k, 0);
    }
    i < cs.len()
}

fn matches_at(cs: &Vec<char>, pat: &Vec<char>, at: usize) -> (r: bool)
    requires
        at + pat@.len() <= cs@.len(),
    ensures
        r == occurs_at(cs@, pat@, at as int),
{
    let n: usize = cs.len();
    let mut j: usize = 0;
    while j < pat.len()
        invariant
            j <= pat@.len(),
            at + pat@.len() <= cs@.len() == n,
            forall|i: int| 0 <= i < j ==> cs@[at + i] == pat@[i],
        decreases pat.len() - j,
    {
        if cs[at + j] != pat[j] {
            assert(cs@.subrange(at as int, at + pat@.len())[j as int] == cs@[at + j]);
            return false;
        }
        j += 1;
    }
    assert(cs@.subrange(at as int, at + pat@.len()) =~= pat@);
    true
}

/// The first index at which `pat` stands in `cs`.
pub fn find_pattern(cs: &Vec<char>, pat: &Vec<char>) -> (r: Option<usize>)
    ensures
        r is Some <==> first_match(cs@, pat@, 0) is Some,
        r is Some ==> r->0 == first_match(cs@, pat@, 0)->0,
        r is Some ==> r->0 + pat@.len() <= cs@.len() <= usize::MAX,
{
    if pat.len() > cs.len() {
        return None;
    }
    let last: usize = cs.len() - pat.len();
    let mut i: usize = 0;
    loop
        invariant
            i <= last,
            last == cs@.len() - pat@.len(),
            cs@.len() <= usize::MAX,
            first_match(cs@, pat@, 0) == first_match(cs@, pat@, i as int),
        decreases last - i,
    {
        if matches_at(cs, pat, i) {
            return Some(i);
        }
        if i == last {
            assert(first_match(cs@, pat@, i + 1) is None);
            return None;
        }
        i += 1;
    }
}

/// Whether `s` begins with `pat`.
pub fn has_prefix(s: &str, pat: &str) -> (r: bool)
    ensures
        r == starts_with(s@, pat@),
{
    let cs = chars_of(s);
    let ps = chars_of(pat);
    ps.len() <= cs.len() && matches_at(&cs, &ps, 0)
}

/// What follows `prefix` in `s`, where `s` begins with it.
pub fn without_prefix<'a>(s: &'a str, prefix: &str) -> (r: Option<&'a str>)
    ensures
        r is Some <==> starts_with(s@, prefix@),
        r is Some ==> r->0@ == s@.skip(prefix@.len() as int),
{
    let cs = chars_of(s);
    let ps = chars_of(prefix);
    if ps.len() <= cs.len() && matches_at(&cs, &ps, 0) {
        Some(s.substring_char(ps.len(), cs.len()))
    } else {
        None
    }
}

/// What precedes `suffix` in `s`, where `s` ends with it.
pub fn without_suffix<'a>(s: &'a str, suffix: &str) -> (r: Option<&'a str>)
    ensures
        r is Some <==> ends_with(s@, suffix@),
        r is Some ==> r->0@ == s@.take(s@.len() - suffix@.len()),
{
    let cs = chars_of(s);
    let ps = chars_of(suffix);
    if ps.len() <= cs.len() && matches_at(&cs, &ps, cs.len() - ps.len()) {
        Some(s.substring_char(0, cs.len() - ps.len()))
    } else {
        None
    }
}

/// The characters of `s` in ASCII lower case.
pub fn lower_chars(s: &str) -> (r: Vec<char>)
    ensures
        r@ == lower_all(s@),
{
    let mut r: Vec<char> = Vec::new();
    for c in it: s.chars()
        invariant
            it.seq() == s@,
            r@ == lower_all(it.seq().take(it.index())),
    {
        r.push(to_lower(c));
    }
    r
}

fn chars_equal(a: &Vec<char>, b: &Vec<char>) -> (r: bool)
    ensures
        r == (a@ == b@),
{
    assert(a@.subrange(0, a@.len() as int) =~= a@);
    a.len() == b.len() && matches_at(a, b, 0)
}

/// Whether two strings hold the same characters.
pub fn same(a: &str, b: &str) -> (r: bool)
    ensures
        r == (a@ == b@),
{
    chars_equal(&chars_of(a), &chars_of(b))
}

/// Whether two strings hold the same characters but for ASCII case.
pub fn same_ignoring_case(a: &str, b: &str) -> (r: bool)
    ensures
        r == equal_ignoring_case(a@, b@),
{
    chars_equal(&lower_chars(a), &lower_chars(b))
}

/// Whether the characters are those of `word`.
pub fn spells(cs: &Vec<char>, word: &str) -> (r: bool)
    ensures
        r == (cs@ == word@),
{
    chars_equal(cs, &chars_of(word))
}

/// Whether the characters end with those of `word`.
pub fn chars_end_with(cs: &Vec<char>, word: &str) -> (r: bool)
    ensures
        r == ends_with(cs@, word@),
{
    let ws = chars_of(word);
    ws.len() <= cs.len() && matches_at(cs, &ws, cs.len() - ws.len())
}

/// The characters of an optional string.
pub open spec fn text_of(o: Option<String>) -> Option<Seq<char>> {
    match o {
        Some(s) => Some(s@),
        None => None,
    }
}

/// The characters of an optional string slice.
pub open spec fn text_ref(o: Option<&str>) -> Option<Seq<char>> {
    match o {
        Some(s) => Some(s@),
        None => None,
    }
}

/// A result whose error is read as characters.
pub open spec fn outcome_of<T>(r: Result<T, String>) -> Result<T, Seq<char>> {
    match r {
        Ok(v) => Ok(v),
        Err(e) => Err(e@),
    }
}

/// An optional string as a slice.
pub fn as_text(o: &Option<String>) -> (r: Option<&str>)
    ensures
        text_ref(r) == text_of(*o),
{
    match o {
        Some(s) => Some(s.as_str()),
        None => None,
    }
}

/// An optional slice as a string of its own.
pub fn owned_text(o: Option<&str>) -> (r: Option<String>)
    ensures
        text_of(r) == text_ref(o),
{
    match o {
        Some(s) => Some(s.to_owned()),
        None => None,
    }
}

/// `a`, `b` and `c` one after the other.
pub fn concat3(a: &str, b: &str, c: &str) -> (r: String)
    ensures
        r@ == a@ + b@ + c@,
{
    a.to_owned().concat(b).concat(c)
}

/// The digit that stands for a number below ten.
pub open spec fn digit(n: nat) -> char {
    (('0' as u32) + n) as char
}

/// The decimal digits of a number, without leading zeros.
pub open spec fn decimal(n: nat) -> Seq<char>
    decreases n,
{
    if n < 10 {
        seq![digit(n)]
    } else {
        decimal(n / 10).push(digit(n % 10))
    }
}

/// The decimal digits of a number.
pub fn decimal_text(n: u64) -> (r: String)
    ensures
        r@ == decimal(n as nat),
    decreases n,
{
    let last: u8 = (n % 10) as u8;
    let mut r = if n < 10 {
        String::new()
    } else {
        decimal_text(n / 10)
    };
    r.push((48 + last) as char);
    assert(n < 10 ==> r@ =~= seq![digit(n as nat)]);
    r
}

/// The characters of each of a sequence of strings.
pub open spec fn texts(v: Seq<String>) -> Seq<Seq<char>> {
    v.map_values(|s: String| s@)
}

pub open spec fn is_digit(c: char) -> bool {
    '0' <= c <= '9'
}

/// One or more ASCII digits.
pub open spec fn is_number(s: Seq<char>) -> bool {
    s.len() > 0 && forall|i: int| 0 <= i < s.len() ==> is_digit(#[trigger] s[i])
}

/// The decimal digits of a number are digits.
pub proof fn lemma_decimal_is_number(n: nat)
    ensures
        is_number(decimal(n)),
    decreases n,
{
    if n >= 10 {
        lemma_decimal_is_number(n / 10);
    }
}

/// Whether `s` is one or more ASCII digits.
pub fn all_digits(s: &str) -> (r: bool)
    ensures
        r == is_number(s@),
{
    let cs = chars_of(s);
    let mut i: usize = 0;
    while i < cs.len()
        invariant
            i <= cs@.len(),
            cs@ == s@,
            forall|j: int| 0 <= j < i ==> is_digit(#[trigger] s@[j]),
        decreases cs.len() - i,
    {
        if !('0' <= cs[i] && cs[i] <= '9') {
            assert(!is_digit(s@[i as int]));
            return false;
        }
        i += 1;
    }
    i > 0
}

/// `a` stands before `b` in the order of a dictionary over character numbers.
pub open spec fn precedes(a: Seq<char>, b: Seq<char>) -> bool
    decreases b.len(),
{
    if b.len() == 0 {
        false
    } else if a.len() == 0 {
        true
    } else {
        a[0] < b[0] || (a[0] == b[0] && precedes(a.drop_first(), b.drop_first()))
    }
}

/// How two strings stand to each other in dictionary order.
#[derive(Debug, Clone, Copy, PartialEq, Eq, Structural)]
pub enum TextOrder {
    Before,
    Same,
    After,
}

pub open spec fn order_of(a: Seq<char>, b: Seq<char>) -> TextOrder {
    if precedes(a, b) {
        TextOrder::Before
    } else if a == b {
        TextOrder::Same
    } else {
        TextOrder::After
    }
}

/// Of two strings that differ, one stands before the other, and only one.
pub proof fn lemma_precedes_total(a: Seq<char>, b: Seq<char>)
    ensures
        precedes(a, b) || precedes(b, a) || a == b,
        !(precedes(a, b) && precedes(b, a)),
        precedes(a, b) ==> a != b,
    decreases a.len(),
{
    if a.len() > 0 && b.len() > 0 {
        lemma_precedes_total(a.drop_first(), b.drop_first());
        if a[0] == b[0] && a.drop_first() == b.drop_first() {
            assert(a =~= seq![a[0]] + a.drop_first());
            assert(b =~= seq![b[0]] + b.drop_first());
        }
    } else if a.len() == 0 && b.len() == 0 {
        assert(a =~= b);
    }
}

pub proof fn lemma_precedes_transitive(a: Seq<char>, b: Seq<char>, c: Seq<char>)
    requires
        precedes(a, b),
        precedes(b, c),
    ensures
        precedes(a, c),
    decreases a.len(),
{
    if a.len() > 0 && a[0] == b[0] && b[0] == c[0] {
        lemma_precedes_transitive(a.drop_first(), b.drop_first(), c.drop_first());
    }
}

/// How `a` stands to `b` in dictionary order.
pub fn order(a: &str, b: &str) -> (r: TextOrder)
    ensures
        r == order_of(a@, b@),
{
    let xs = chars_of(a);
    let ys = chars_of(b);
    let mut i: usize = 0;
    assert(a@.skip(0) =~= a@ && b@.skip(0) =~= b@);
    loop
        invariant
            xs@ == a@,
            ys@ == b@,
            i <= a@.len(),
            i <= b@.len(),
            order_of(a@, b@) == order_of(a@.skip(i as int), b@.skip(i as int)),
        decreases a@.len() - i,
    {
        if i == xs.len() {
            if i == ys.len() {
                assert(a@.skip(i as int) =~= b@.skip(i as int));
                proof {
                    lemma_precedes_total(a@.skip(i as int), b@.skip(i as int));
                }
                return TextOrder::Same;
            }
            return TextOrder::Before;
        }
        if i == ys.len() {
            return TextOrder::After;
        }
        if xs[i] < ys[i] {
            return TextOrder::Before;
        }
        if ys[i] < xs[i] {
            return TextOrder::After;
        }
        proof {
            let x = a@.skip(i as int);
            let y = b@.skip(i as int);
            assert(x.drop_first() =~= a@.skip(i + 1));
            assert(y.drop_first() =~= b@.skip(i + 1));
            assert(x =~= seq![x[0]] + x.drop_first());
            assert(y =~= seq![y[0]] + y.drop_first());
        }
        i += 1;
    }
}

/// What is left of `s` starts and ends outside of `k`, and is a part of `s`.
pub proof fn lemma_stripped_bounds(s: Seq<char>, k: CharClass) -> (r: (int, int))
    ensures
        0 <= r.0 <= r.1 <= s.len(),
        stripped(s, k) == s.subrange(r.0, r.1),
        r.0 < r.1 ==> !k.has(s[r.0]) && !k.has(s[r.1 - 1]),
        forall|i: int| 0 <= i < r.0 ==> k.has(#[trigger] s[i]),
        forall|i: int| r.1 <= i < s.len() ==> k.has(#[trigger] s[i]),
{
    lemma_first_outside(s, k, 0);
    let start = first_outside(s, k, 0);
    let rest = s.skip(start);
    lemma_end_outside(rest, k, rest.len() as int);
    let len = end_outside(rest, k, rest.len() as int);
    assert(rest.take(len) =~= s.subrange(start, start + len));
    assert forall|i: int| start + len <= i < s.len() implies k.has(#[trigger] s[i]) by {
        assert(rest[i - start] == s[i]);
    }
    if len > 0 {
        assert(rest[len - 1] == s[start + len - 1]);
    }
    (start, start + len)
}

/// The first index outside `k` is outside it, or the end, and all before it is of `k`.
pub proof fn lemma_first_outside(s: Seq<char>, k: CharClass, from: int)
    requires
        0 <= from <= s.len(),
    ensures
        from <= first_outside(s, k, from) <= s.len(),
        first_outside(s, k, from) < s.len() ==> !k.has(s[first_outside(s, k, from)]),
        forall|i: int| from <= i < first_outside(s, k, from) ==> k.has(#[trigger] s[i]),
    decreases s.len() - from,
{
    if from < s.len() && k.has(s[from]) {
        lemma_first_outside(s, k, from + 1);
    }
}

proof fn lemma_end_outside(s: Seq<char>, k: CharClass, to: int)
    requires
        0 <= to <= s.len(),
    ensures
        0 <= end_outside(s, k, to) <= to,
        end_outside(s, k, to) > 0 ==> !k.has(s[end_outside(s, k, to) - 1]),
        forall|i: int| end_outside(s, k, to) <= i < to ==> k.has(#[trigger] s[i]),
    decreases to,
{
    if to > 0 && k.has(s[to - 1]) {
        lemma_end_outside(s, k, to - 1);
    }
}

/// Text that starts and ends outside of `k` is left as it is.
pub proof fn lemma_stripped_stays(s: Seq<char>, k: CharClass)
    requires
        s.len() > 0 ==> !k.has(s[0]) && !k.has(s.last()),
    ensures
        stripped(s, k) == s,
{
    let (start, end) = lemma_stripped_bounds(s, k);
    if s.len() > 0 {
        assert(start == 0);
        assert(end == s.len());
    }
    assert(s.subrange(start, end) =~= s);
}

/// Text that was stripped of characters at both ends has none of them left there: to strip it
/// again changes nothing.
pub proof fn stripping_twice_changes_nothing(s: Seq<char>, k: CharClass)
    ensures
        stripped(stripped(s, k), k) == stripped(s, k),
{
    let (start, end) = lemma_stripped_bounds(s, k);
    lemma_stripped_stays(stripped(s, k), k);
}

/// What stands around a text and is of `k` is stripped off, and nothing else: the text itself
/// comes back, whatever it holds inside.
pub proof fn stripping_takes_off_what_stands_around(
    before: Seq<char>,
    core: Seq<char>,
    after: Seq<char>,
    k: CharClass,
)
    requires
        forall|i: int| 0 <= i < before.len() ==> k.has(#[trigger] before[i]),
        forall|i: int| 0 <= i < after.len() ==> k.has(#[trigger] after[i]),
        core.len() > 0 ==> !k.has(core[0]) && !k.has(core.last()),
    ensures
        stripped(before + core + after, k) == core,
{
    let s = before + core + after;
    let (start, end) = lemma_stripped_bounds(s, k);
    if core.len() > 0 {
        assert(s[before.len() as int] == core[0]);
        assert(s[before.len() + core.len() - 1] == core.last());
        if start < before.len() {
            assert(s[start] == before[start]);
        }
        if end > before.len() + core.len() {
            assert(s[end - 1] == after[end - 1 - before.len() - core.len()]);
        }
        assert(start == before.len());
        assert(end == before.len() + core.len());
    } else {
        if start < end {
            if start < before.len() {
                assert(s[start] == before[start]);
            } else {
                assert(s[start] == after[start - before.len()]);
            }
        }
    }
    assert(s.subrange(start, end) =~= core);
}

/// Case is that of the ASCII letters alone: a capital letter and its small one are the same,
/// and any other two characters are the same only if they are equal.
pub proof fn only_the_case_of_letters_is_ignored(a: char, b: char)
    ensures
        lower(a) == lower(b) <==> a == b || ('A' <= a <= 'Z' && b as u32 == a as u32 + 32) || ('A'
            <= b <= 'Z' && a as u32 == b as u32 + 32),
        lower(lower(a)) == lower(a),
        !('A' <= lower(a) <= 'Z'),
{
}

/// The place where a pattern is found is the first at which it stands; it is not found only
/// where it stands nowhere.
pub proof fn a_match_is_the_first(s: Seq<char>, pat: Seq<char>, from: int)
    requires
        0 <= from,
    ensures
        match first_match(s, pat, from) {
            Some(at) => {
                &&& from <= at <= s.len() - pat.len()
                &&& s.subrange(at, at + pat.len()) == pat
                &&& forall|i: int| from <= i < at ==> !(#[trigger] occurs_at(s, pat, i))
            },
            None => forall|i: int| from <= i ==> !(#[trigger] occurs_at(s, pat, i)),
        },
    decreases s.len() - from + 1,
{
    if !occurs_at(s, pat, from) && from <= s.len() {
        a_match_is_the_first(s, pat, from + 1);
    }
}

/// A pattern that stands at one place, and at none before it, is found there.
pub proof fn lemma_match_at(s: Seq<char>, pat: Seq<char>, from: int, at: int)
    requires
        0 <= from <= at,
        occurs_at(s, pat, at),
        forall|i: int| from <= i < at ==> !(#[trigger] occurs_at(s, pat, i)),
    ensures
        first_match(s, pat, from) == Some(at),
    decreases at - from,
{
    if from < at {
        assert(!occurs_at(s, pat, from));
        lemma_match_at(s, pat, from + 1, at);
    }
}

/// A pattern that stands nowhere is not found.
pub proof fn lemma_no_match(s: Seq<char>, pat: Seq<char>, from: int)
    requires
        0 <= from,
        forall|i: int| from <= i ==> !(#[trigger] occurs_at(s, pat, i)),
    ensures
        first_match(s, pat, from) is None,
    decreases s.len() - from + 1,
{
    assert(!occurs_at(s, pat, from));
    if from <= s.len() {
        lemma_no_match(s, pat, from + 1);
    }
}

/// The last index of `k` below `to` is one of `k`, and nothing between it and `to` is.
pub proof fn lemma_last_in_bounds(s: Seq<char>, k: CharClass, to: int)
    requires
        0 <= to <= s.len(),
    ensures
        -1 <= last_in(s, k, to) < to || to == 0 && last_in(s, k, to) == -1,
        last_in(s, k, to) >= 0 ==> k.has(s[last_in(s, k, to)]),
        forall|i: int| last_in(s, k, to) < i < to ==> !k.has(#[trigger] s[i]),
    decreases to,
{
    if to > 0 && !k.has(s[to - 1]) {
        lemma_last_in_bounds(s, k, to - 1);
    }
}

/// The number that decimal digits stand for.
pub open spec fn number_of(digits: Seq<char>) -> int
    decreases digits.len(),
{
    if digits.len() == 0 {
        0
    } else {
        number_of(digits.drop_last()) * 10 + (digits.last() as u32 - '0' as u32)
    }
}

/// The digits of a number read as that number, so that two numbers are never written alike;
/// there are no leading zeros.
pub proof fn digits_read_as_their_number(n: nat)
    ensures
        is_number(decimal(n)),
        number_of(decimal(n)) == n,
        decimal(n)[0] == '0' <==> n == 0,
        n < 10 ==> decimal(n).len() == 1,
    decreases n,
{
    reveal_with_fuel(number_of, 2);
    if n >= 10 {
        digits_read_as_their_number(n / 10);
        assert(decimal(n).drop_last() =~= decimal(n / 10));
        assert(decimal(n)[0] == decimal(n / 10)[0]);
        assert(n == (n / 10) * 10 + n % 10);
    } else {
        assert(decimal(n).drop_last() =~= Seq::empty());
    }
    lemma_decimal_is_number(n);
}

/// Of two texts the first difference decides which stands before the other, and one that is
/// the beginning of the other stands before it.
pub proof fn the_first_difference_decides(
    common: Seq<char>,
    a: char,
    b: char,
    x: Seq<char>,
    y: Seq<char>,
)
    requires
        a < b,
    ensures
        precedes(common.push(a) + x, common.push(b) + y),
        !precedes(common.push(b) + y, common.push(a) + x),
        precedes(common, common.push(a) + x),
        !precedes(common, common),
    decreases common.len(),
{
    let p = common.push(a) + x;
    let q = common.push(b) + y;
    if common.len() > 0 {
        let rest = common.drop_first();
        the_first_difference_decides(rest, a, b, x, y);
        assert(p.drop_first() =~= rest.push(a) + x);
        assert(q.drop_first() =~= rest.push(b) + y);
        assert(p[0] == common[0] && q[0] == common[0]);
    } else {
        assert(p[0] == a && q[0] == b);
    }
}

/// White space by its code points. Of ASCII it is the tab, the line feed, the vertical tab, the
/// form feed, the carriage return and the blank.
pub proof fn white_space_by_code_point(c: char)
    ensures
        (c as u32) < 128 ==> (is_space(c) <==> c == '\t' || c == '\n' || c == '\x0b' || c == '\x0c'
            || c == '\r' || c == ' '),
        c as u32 >= 128 ==> (is_space(c) <==> ({
            let n = c as u32;
            n == 133 || n == 160 || n == 5760 || 8192 <= n <= 8202 || n == 8232 || n == 8233 || n
                == 8239 || n == 8287 || n == 12288
        })),
{
}

} // verus!
