//! Character-level text primitives: the whitespace and digit classes of
//! Rust's `char`, pattern search, splitting, trimming and decimal parsing.
use vstd::prelude::*;
use vstd::string::*;

verus! {

/// `char::is_ascii_digit`.
pub open spec fn is_digit(c: char) -> bool {
    '0' <= c && c <= '9'
}

/// `char::is_whitespace`: the Unicode `White_Space` property.
pub open spec fn is_white(c: char) -> bool {
    ||| ('\u{9}' <= c && c <= '\u{d}')
    ||| c == ' '
    ||| c == '\u{85}'
    ||| c == '\u{a0}'
    ||| c == '\u{1680}'
    ||| ('\u{2000}' <= c && c <= '\u{200a}')
    ||| c == '\u{2028}'
    ||| c == '\u{2029}'
    ||| c == '\u{202f}'
    ||| c == '\u{205f}'
    ||| c == '\u{3000}'
}

pub fn is_ascii_digit(c: char) -> (r: bool)
    ensures
        r == is_digit(c),
{
    c >= '0' && c <= '9'
}

pub fn is_whitespace(c: char) -> (r: bool)
    ensures
        r == is_white(c),
{
    (c >= '\u{9}' && c <= '\u{d}') || c == ' ' || c == '\u{85}' || c == '\u{a0}' || c
        == '\u{1680}' || (c >= '\u{2000}' && c <= '\u{200a}') || c == '\u{2028}' || c
        == '\u{2029}' || c == '\u{202f}' || c == '\u{205f}' || c == '\u{3000}'
}

/// The characters of a string slice.
pub fn to_chars(s: &str) -> (v: Vec<char>)
    ensures
        v@ == s@,
{
    let n = s.unicode_len();
    let mut v: Vec<char> = Vec::new();
    let mut i: usize = 0;
    while i < n
        invariant
            n == s@.len(),
            i <= n,
            v@ == s@.subrange(0, i as int),
        decreases n - i,
    {
        v.push(s.get_char(i));
        i = i + 1;
    }
    v
}

/// Collects characters into a `String` (`FromIterator<char>` for `String`).
#[verifier::external_body]
pub(crate) fn string_from_chars(v: &[char]) -> (s: String)
    ensures
        s@ == v@,
{
    v.iter().collect()
}


/// An owned copy of a string slice.
pub fn owned_string(s: &str) -> (r: String)
    ensures
        r@ == s@,
{
    let v = to_chars(s);
    string_from_chars(v.as_slice())
}

/// The character sequences of a sequence of character vectors.
pub open spec fn views(v: Seq<Vec<char>>) -> Seq<Seq<char>> {
    v.map_values(|x: Vec<char>| x@)
}

/// What a split or a parse searches for: one character, any character
/// that is not an ASCII digit, any whitespace character, or a text.
#[derive(Clone)]
pub enum Pattern {
    Char(char),
    NonDigit,
    Whitespace,
    Text(Vec<char>),
}

/// The mathematical form of a [`Pattern`].
pub enum Pat {
    Char(char),
    NonDigit,
    Whitespace,
    Text(Seq<char>),
}

impl View for Pattern {
    type V = Pat;

    open spec fn view(&self) -> Pat {
        match self {
            Pattern::Char(c) => Pat::Char(*c),
            Pattern::NonDigit => Pat::NonDigit,
            Pattern::Whitespace => Pat::Whitespace,
            Pattern::Text(t) => Pat::Text(t@),
        }
    }
}

/// How many characters a match of the pattern covers.
pub open spec fn pat_len(p: Pat) -> int {
    match p {
        Pat::Text(t) => t.len() as int,
        _ => 1,
    }
}

/// The pattern matches `s` at position `i`.
pub open spec fn matches_at(s: Seq<char>, i: int, p: Pat) -> bool {
    &&& 0 <= i
    &&& i + pat_len(p) <= s.len()
    &&& match p {
        Pat::Char(c) => s[i] == c,
        Pat::NonDigit => !is_digit(s[i]),
        Pat::Whitespace => is_white(s[i]),
        Pat::Text(t) => s.subrange(i, i + t.len()) == t,
    }
}

/// The first match of `p` in `s` at or after `i`.
pub open spec fn find_from(s: Seq<char>, p: Pat, i: int) -> Option<int>
    decreases s.len() + 1 - i,
{
    if i < 0 || i + pat_len(p) > s.len() {
        None
    } else if matches_at(s, i, p) {
        Some(i)
    } else {
        find_from(s, p, i + 1)
    }
}

/// The first match of `p` in `s` (`str::find`).
pub open spec fn find(s: Seq<char>, p: Pat) -> Option<int> {
    find_from(s, p, 0)
}

/// The last match of `p` in `s` that begins before `i` (`str::rfind`).
pub open spec fn rfind_before(s: Seq<char>, p: Pat, i: int) -> Option<int>
    decreases i,
{
    if i <= 0 {
        None
    } else if matches_at(s, i - 1, p) {
        Some(i - 1)
    } else {
        rfind_before(s, p, i - 1)
    }
}

pub open spec fn rfind(s: Seq<char>, p: Pat) -> Option<int> {
    rfind_before(s, p, s.len() as int)
}

/// `str::split_once`.
pub open spec fn split_once(s: Seq<char>, p: Pat) -> Option<(Seq<char>, Seq<char>)> {
    match find(s, p) {
        Some(i) => Some((s.subrange(0, i), s.subrange(i + pat_len(p), s.len() as int))),
        None => None,
    }
}

/// `str::rsplit_once`.
pub open spec fn rsplit_once(s: Seq<char>, p: Pat) -> Option<(Seq<char>, Seq<char>)> {
    match rfind(s, p) {
        Some(i) => Some((s.subrange(0, i), s.subrange(i + pat_len(p), s.len() as int))),
        None => None,
    }
}

/// `str::trim_start`.
pub open spec fn trim_start(s: Seq<char>) -> Seq<char>
    decreases s.len(),
{
    if s.len() > 0 && is_white(s[0]) {
        trim_start(s.drop_first())
    } else {
        s
    }
}

/// `str::trim_end`.
pub open spec fn trim_end(s: Seq<char>) -> Seq<char>
    decreases s.len(),
{
    if s.len() > 0 && is_white(s.last()) {
        trim_end(s.drop_last())
    } else {
        s
    }
}

/// `str::trim`.
pub open spec fn trim(s: Seq<char>) -> Seq<char> {
    trim_end(trim_start(s))
}

/// `str::starts_with` with a text.
pub open spec fn starts_with(s: Seq<char>, prefix: Seq<char>) -> bool {
    prefix.len() <= s.len() && s.subrange(0, prefix.len() as int) == prefix
}

/// `str::trim_start_matches` with a text.
pub open spec fn trim_start_matches(s: Seq<char>, prefix: Seq<char>) -> Seq<char>
    decreases s.len(),
{
    if prefix.len() > 0 && starts_with(s, prefix) {
        trim_start_matches(s.subrange(prefix.len() as int, s.len() as int), prefix)
    } else {
        s
    }
}

/// The value of a sequence of decimal digits.
pub open spec fn digits_value(s: Seq<char>) -> nat
    decreases s.len(),
{
    if s.len() == 0 {
        0
    } else {
        digits_value(s.drop_last()) * 10 + (s.last() as nat - '0' as nat) as nat
    }
}

pub open spec fn all_digits(s: Seq<char>) -> bool {
    forall|i: int| 0 <= i < s.len() ==> is_digit(#[trigger] s[i])
}

/// The text after an optional leading `+`.
pub open spec fn unsigned_digits(s: Seq<char>) -> Seq<char> {
    if s.len() > 0 && s[0] == '+' {
        s.drop_first()
    } else {
        s
    }
}

/// `str::parse` into an unsigned integer type whose maximum is `max`:
/// an optional `+`, then one or more ASCII digits whose value is at most `max`.
pub open spec fn parse_uint(s: Seq<char>, max: nat) -> Option<nat> {
    let d = unsigned_digits(s);
    if d.len() > 0 && all_digits(d) && digits_value(d) <= max {
        Some(digits_value(d))
    } else {
        None
    }
}

/// `parse_until`: parse the part before the first match of `delimiter`.
pub open spec fn parse_until(s: Seq<char>, delimiter: Pat, max: nat) -> Option<nat> {
    match split_once(s, delimiter) {
        Some((head, _)) => parse_uint(head, max),
        None => parse_uint(s, max),
    }
}

/// `parse_between`: parse the part after the first match of `first` and
/// before the first match of `second` after that.
pub open spec fn parse_between(s: Seq<char>, first: Pat, second: Pat, max: nat) -> Option<nat> {
    match split_once(s, first) {
        Some((_, rest)) => parse_until(rest, second, max),
        None => parse_until(Seq::empty(), second, max),
    }
}

pub fn pattern_len(p: &Pattern) -> (n: usize)
    ensures
        n as int == pat_len(p@),
{
    match p {
        Pattern::Text(t) => t.len(),
        _ => 1,
    }
}

/// Whether `p` matches `s` at `i`.
pub fn match_at(s: &[char], i: usize, p: &Pattern) -> (r: bool)
    ensures
        r == matches_at(s@, i as int, p@),
{
    let n = pattern_len(p);
    if i > s.len() || n > s.len() - i {
        return false;
    }
    match p {
        Pattern::Char(c) => s[i] == *c,
        Pattern::NonDigit => !is_ascii_digit(s[i]),
        Pattern::Whitespace => is_whitespace(s[i]),
        Pattern::Text(t) => {
            let mut k: usize = 0;
            while k < n
                invariant
                    n == t@.len(),
                    i + n <= s.len(),
                    p@ == Pat::Text(t@),
                    k <= n,
                    forall|j: int| 0 <= j < k ==> s@[i + j] == t@[j],
                decreases n - k,
            {
                if s[i + k] != t[k] {
                    assert(s@.subrange(i as int, i + n)[k as int] != t@[k as int]);
                    return false;
                }
                k = k + 1;
            }
            assert(s@.subrange(i as int, i + n) =~= t@);
            true
        },
    }
}

/// Index of the first match of `p` in `s`.
pub fn find_pattern(s: &[char], p: &Pattern) -> (r: Option<usize>)
    ensures
        r matches Some(i) ==> find(s@, p@) == Some(i as int),
        r is None ==> find(s@, p@) is None,
        r matches Some(i) ==> i + pat_len(p@) <= s.len(),
{
    let n = pattern_len(p);
    if n > s.len() {
        return None;
    }
    let last = s.len() - n;
    let mut i: usize = 0;
    loop
        invariant
            last + n == s.len(),
            n as int == pat_len(p@),
            i <= last,
            find(s@, p@) == find_from(s@, p@, i as int),
        decreases last - i,
    {
        if match_at(s, i, p) {
            return Some(i);
        }
        if i == last {
            assert(find_from(s@, p@, i + 1) == None::<int>);
            return None;
        }
        i = i + 1;
    }
}

/// Index of the last match of the one-character pattern `p` in `s`.
pub fn rfind_pattern(s: &[char], p: &Pattern) -> (r: Option<usize>)
    requires
        pat_len(p@) == 1,
    ensures
        r matches Some(i) ==> rfind(s@, p@) == Some(i as int),
        r is None ==> rfind(s@, p@) is None,
        r matches Some(i) ==> i < s.len(),
{
    let mut i: usize = s.len();
    while i > 0
        invariant
            i <= s@.len(),
            pat_len(p@) == 1,
            rfind(s@, p@) == rfind_before(s@, p@, i as int),
        decreases i,
    {
        if match_at(s, i - 1, p) {
            return Some(i - 1);
        }
        i = i - 1;
    }
    None
}

/// A copy of `s[from..to]`.
pub fn copy_range(s: &[char], from: usize, to: usize) -> (r: Vec<char>)
    requires
        from <= to <= s@.len(),
    ensures
        r@ == s@.subrange(from as int, to as int),
{
    let mut r: Vec<char> = Vec::new();
    let mut i = from;
    while i < to
        invariant
            from <= i <= to <= s@.len(),
            r@ == s@.subrange(from as int, i as int),
        decreases to - i,
    {
        r.push(s[i]);
        i = i + 1;
    }
    r
}

/// `str::split_once` on characters.
pub fn split_once_chars(s: &[char], p: &Pattern) -> (r: Option<(Vec<char>, Vec<char>)>)
    ensures
        (match r { Some((a, b)) => Some((a@, b@)), None => None::<(Seq<char>, Seq<char>)> })
            == split_once(s@, p@),
{
    match find_pattern(s, p) {
        Some(i) => {
            assert(find(s@, p@) == Some(i as int));
            let n = pattern_len(p);
            let a = copy_range(s, 0, i);
            let b = copy_range(s, i + n, s.len());
            Some((a, b))
        },
        None => {
            assert(find(s@, p@) == None::<int>);
            None
        },
    }
}

/// `str::rsplit_once` on characters, for a one-character pattern.
pub fn rsplit_once_chars(s: &[char], p: &Pattern) -> (r: Option<(Vec<char>, Vec<char>)>)
    requires
        pat_len(p@) == 1,
    ensures
        (match r { Some((a, b)) => Some((a@, b@)), None => None::<(Seq<char>, Seq<char>)> })
            == rsplit_once(s@, p@),
{
    match rfind_pattern(s, p) {
        Some(i) => {
            assert(rfind(s@, p@) == Some(i as int));
            let a = copy_range(s, 0, i);
            let b = copy_range(s, i + 1, s.len());
            Some((a, b))
        },
        None => {
            assert(rfind(s@, p@) == None::<int>);
            None
        },
    }
}

proof fn lemma_trim_start_skip(s: Seq<char>, i: int)
    requires
        0 <= i <= s.len(),
        forall|j: int| 0 <= j < i ==> is_white(#[trigger] s[j]),
    ensures
        trim_start(s) == trim_start(s.subrange(i, s.len() as int)),
    decreases i,
{
    if i == 0 {
        assert(s.subrange(0, s.len() as int) =~= s);
    } else {
        assert(is_white(s[0]));
        assert(s.drop_first().subrange(i - 1, s.drop_first().len() as int) =~= s.subrange(
            i,
            s.len() as int,
        ));
        assert forall|j: int| 0 <= j < i - 1 implies is_white(#[trigger] s.drop_first()[j]) by {
            assert(s.drop_first()[j] == s[j + 1]);
        }
        lemma_trim_start_skip(s.drop_first(), i - 1);
    }
}

proof fn lemma_trim_end_skip(s: Seq<char>, i: int)
    requires
        0 <= i <= s.len(),
        forall|j: int| i <= j < s.len() ==> is_white(#[trigger] s[j]),
    ensures
        trim_end(s) == trim_end(s.subrange(0, i)),
    decreases s.len() - i,
{
    if i == s.len() {
        assert(s.subrange(0, i) =~= s);
    } else {
        assert(is_white(s[s.len() - 1]));
        assert(s.drop_last().subrange(0, i) =~= s.subrange(0, i));
        assert forall|j: int| i <= j < s.drop_last().len() implies is_white(
            #[trigger] s.drop_last()[j],
        ) by {
            assert(s.drop_last()[j] == s[j]);
        }
        lemma_trim_end_skip(s.drop_last(), i);
    }
}

/// `str::trim_start` on characters.
pub fn trim_start_chars(s: &[char]) -> (r: Vec<char>)
    ensures
        r@ == trim_start(s@),
{
    let mut i: usize = 0;
    while i < s.len() && is_whitespace(s[i])
        invariant
            i <= s@.len(),
            forall|j: int| 0 <= j < i ==> is_white(#[trigger] s@[j]),
        decreases s@.len() - i,
    {
        i = i + 1;
    }
    proof {
        lemma_trim_start_skip(s@, i as int);
    }
    copy_range(s, i, s.len())
}

/// `str::trim_end` on characters.
pub fn trim_end_chars(s: &[char]) -> (r: Vec<char>)
    ensures
        r@ == trim_end(s@),
{
    let mut i: usize = s.len();
    while i > 0 && is_whitespace(s[i - 1])
        invariant
            i <= s@.len(),
            forall|j: int| i <= j < s@.len() ==> is_white(#[trigger] s@[j]),
        decreases i,
    {
        i = i - 1;
    }
    proof {
        lemma_trim_end_skip(s@, i as int);
        assert(s@.subrange(0, i as int) =~= s@.subrange(0, i as int));
    }
    copy_range(s, 0, i)
}

/// `str::trim` on characters.
pub fn trim_chars(s: &[char]) -> (r: Vec<char>)
    ensures
        r@ == trim(s@),
{
    let a = trim_start_chars(s);
    trim_end_chars(a.as_slice())
}


/// `char::to_ascii_lowercase`.
pub open spec fn lower(c: char) -> char {
    if 'A' <= c && c <= 'Z' {
        ((c as int) + 32) as char
    } else {
        c
    }
}

/// `str::to_ascii_lowercase`.
pub open spec fn ascii_lowercase(s: Seq<char>) -> Seq<char> {
    Seq::new(s.len(), |i: int| lower(s[i]))
}

/// The decimal digit with value `d`.
pub open spec fn digit_char(d: nat) -> char {
    ((d + '0' as nat) as int) as char
}

/// The decimal representation of `n`, as `u64::to_string` writes it.
pub open spec fn decimal(n: nat) -> Seq<char>
    decreases n,
{
    if n < 10 {
        seq![digit_char(n)]
    } else {
        decimal(n / 10).push(digit_char(n % 10))
    }
}

pub fn ascii_lowercase_char(c: char) -> (r: char)
    ensures
        r == lower(c),
{
    if c >= 'A' && c <= 'Z' {
        let b = c as u8;
        assert(b as int == c as int);
        (b + 32) as char
    } else {
        c
    }
}

/// `str::to_ascii_lowercase` on characters.
pub fn ascii_lowercase_chars(s: &[char]) -> (r: Vec<char>)
    ensures
        r@ == ascii_lowercase(s@),
{
    let mut r: Vec<char> = Vec::new();
    let mut i: usize = 0;
    while i < s.len()
        invariant
            i <= s@.len(),
            r@ =~= ascii_lowercase(s@).subrange(0, i as int),
        decreases s@.len() - i,
    {
        r.push(ascii_lowercase_char(s[i]));
        i = i + 1;
    }
    assert(r@ =~= ascii_lowercase(s@));
    r
}

/// Whether `s` starts with `prefix`.
pub fn starts_with_chars(s: &[char], prefix: &[char]) -> (r: bool)
    ensures
        r == starts_with(s@, prefix@),
{
    if prefix.len() > s.len() {
        return false;
    }
    let mut i: usize = 0;
    while i < prefix.len()
        invariant
            prefix@.len() <= s@.len(),
            i <= prefix@.len(),
            forall|j: int| 0 <= j < i ==> s@[j] == prefix@[j],
        decreases prefix@.len() - i,
    {
        if s[i] != prefix[i] {
            assert(s@.subrange(0, prefix@.len() as int)[i as int] != prefix@[i as int]);
            return false;
        }
        i = i + 1;
    }
    assert(s@.subrange(0, prefix@.len() as int) =~= prefix@);
    true
}

/// `str::trim_start_matches` with a text, on characters.
pub fn trim_start_matches_chars(s: &[char], prefix: &[char]) -> (r: Vec<char>)
    ensures
        r@ == trim_start_matches(s@, prefix@),
{
    if prefix.len() == 0 {
        return copy_range(s, 0, s.len());
    }
    let mut i: usize = 0;
    assert(s@.subrange(0, s@.len() as int) =~= s@);
    while i <= s.len() && starts_with_chars(&s[i..s.len()] , prefix)
        invariant
            prefix@.len() > 0,
            i <= s@.len(),
            trim_start_matches(s@, prefix@) == trim_start_matches(
                s@.subrange(i as int, s@.len() as int),
                prefix@,
            ),
        decreases s@.len() - i,
    {
        assert(s@.subrange(i as int, s@.len() as int).subrange(
            prefix@.len() as int,
            s@.len() - i,
        ) =~= s@.subrange(i + prefix@.len(), s@.len() as int));
        i = i + prefix.len();
    }
    copy_range(s, i, s.len())
}

proof fn lemma_digits_prefix_mono(s: Seq<char>, j: int, k: int)
    requires
        0 <= j <= k <= s.len(),
        all_digits(s),
    ensures
        digits_value(s.subrange(0, j)) <= digits_value(s.subrange(0, k)),
    decreases k - j,
{
    if j < k {
        lemma_digits_prefix_mono(s, j, k - 1);
        assert(s.subrange(0, k).drop_last() =~= s.subrange(0, k - 1));
        assert(is_digit(s[k - 1]));
    }
}

/// `str::parse` into an unsigned integer no larger than `max`.
pub fn parse_uint_chars(s: &[char], max: u64) -> (r: Option<u64>)
    ensures
        r matches Some(v) ==> parse_uint(s@, max as nat) == Some(v as nat),
        r is None ==> parse_uint(s@, max as nat) is None,
{
    let start: usize = if s.len() > 0 && s[0] == '+' {
        1
    } else {
        0
    };
    let ghost d = unsigned_digits(s@);
    assert(d =~= s@.subrange(start as int, s@.len() as int));
    if start == s.len() {
        return None;
    }
    let mut k: usize = start;
    while k < s.len()
        invariant
            start <= k <= s@.len(),
            d =~= s@.subrange(start as int, s@.len() as int),
            d == unsigned_digits(s@),
            forall|j: int| 0 <= j < k - start ==> is_digit(#[trigger] d[j]),
        decreases s@.len() - k,
    {
        if !is_ascii_digit(s[k]) {
            assert(!is_digit(d[k - start]));
            assert(!all_digits(d));
            return None;
        }
        k = k + 1;
    }
    assert(all_digits(d));
    let mut acc: u64 = 0;
    let mut i: usize = start;
    while i < s.len()
        invariant
            start <= i <= s@.len(),
            d =~= s@.subrange(start as int, s@.len() as int),
            d == unsigned_digits(s@),
            all_digits(d),
            acc as nat == digits_value(d.subrange(0, i - start)),
            acc <= max,
        decreases s@.len() - i,
    {
        let c = s[i];
        assert(c == d[i - start]);
        assert(is_digit(c));
        let dv: u64 = (c as u32 - '0' as u32) as u64;
        assert(d.subrange(0, i - start + 1).drop_last() =~= d.subrange(0, i - start));
        assert(d.subrange(0, i - start + 1).last() == c);
        assert(digits_value(d.subrange(0, i - start + 1)) == acc * 10 + dv);
        if dv > max || acc > (max - dv) / 10 {
            proof {
                lemma_digits_prefix_mono(d, i - start + 1, d.len() as int);
                assert(d.subrange(0, d.len() as int) =~= d);
                if dv <= max {
                    assert(acc * 10 + dv > max) by (nonlinear_arith)
                        requires
                            acc > (max - dv) / 10,
                            dv <= max,
                    ;
                }
            }
            return None;
        }
        assert(acc * 10 + dv <= max) by (nonlinear_arith)
            requires
                acc <= (max - dv) / 10,
                dv <= max,
        ;
        acc = acc * 10 + dv;
        i = i + 1;
    }
    assert(d.subrange(0, d.len() as int) =~= d);
    Some(acc)
}

/// `parse_until` on characters.
pub fn parse_until_chars(s: &[char], delimiter: &Pattern, max: u64) -> (r: Option<u64>)
    ensures
        r matches Some(v) ==> parse_until(s@, delimiter@, max as nat) == Some(v as nat),
        r is None ==> parse_until(s@, delimiter@, max as nat) is None,
{
    match split_once_chars(s, delimiter) {
        Some((head, _)) => parse_uint_chars(head.as_slice(), max),
        None => parse_uint_chars(s, max),
    }
}

/// `parse_between` on characters.
pub fn parse_between_chars(s: &[char], first: &Pattern, second: &Pattern, max: u64) -> (r: Option<u64>)
    ensures
        r matches Some(v) ==> parse_between(s@, first@, second@, max as nat) == Some(v as nat),
        r is None ==> parse_between(s@, first@, second@, max as nat) is None,
{
    match split_once_chars(s, first) {
        Some((_, rest)) => parse_until_chars(rest.as_slice(), second, max),
        None => {
            let empty: Vec<char> = Vec::new();
            assert(empty@ =~= Seq::<char>::empty());
            parse_until_chars(empty.as_slice(), second, max)
        },
    }
}

/// The decimal digits of `n`.
pub fn decimal_chars(n: u64) -> (r: Vec<char>)
    ensures
        r@ == decimal(n as nat),
    decreases n,
{
    let d = n % 10;
    let c: char = match d {
        0 => '0',
        1 => '1',
        2 => '2',
        3 => '3',
        4 => '4',
        5 => '5',
        6 => '6',
        7 => '7',
        8 => '8',
        _ => '9',
    };
    assert(c == digit_char(d as nat));
    if n < 10 {
        let mut v: Vec<char> = Vec::new();
        v.push(c);
        assert(v@ =~= seq![c]);
        v
    } else {
        let mut v = decimal_chars(n / 10);
        v.push(c);
        v
    }
}


pub proof fn lemma_decimal_all_digits(n: nat)
    ensures
        decimal(n).len() > 0,
        all_digits(decimal(n)),
        digits_value(decimal(n)) == n,
    decreases n,
{
    if n < 10 {
        let d = decimal(n);
        assert(d == seq![digit_char(n)]);
        assert(d.drop_last() =~= Seq::<char>::empty());
        assert(digit_char(n) as nat == n + '0' as nat);
        assert(is_digit(d[0]));
        assert(digits_value(d) == digits_value(d.drop_last()) * 10 + (d.last() as nat - '0' as nat) as nat);
    } else {
        assert(digit_char(n % 10) as nat == n % 10 + '0' as nat);
        lemma_decimal_all_digits(n / 10);
        let d = decimal(n);
        assert(d.drop_last() == decimal(n / 10));
        assert(d.last() == digit_char(n % 10));
        assert forall|i: int| 0 <= i < d.len() implies is_digit(#[trigger] d[i]) by {
            if i < d.len() - 1 {
                assert(d[i] == decimal(n / 10)[i]);
            }
        }
    }
}

/// A number written in decimal reads back as the same number: what
/// `decimal_chars` writes, `parse_uint_chars` reads.
pub proof fn decimal_parses_back(n: nat, max: nat)
    requires
        n <= max,
    ensures
        parse_uint(decimal(n), max) == Some(n),
{
    lemma_decimal_all_digits(n);
    assert(is_digit(decimal(n)[0]));
    assert(unsigned_digits(decimal(n)) == decimal(n));
}

/// The first `.` after a run of digits is the one that ends it.
pub proof fn lemma_find_dot_after_digits(d: Seq<char>, rest: Seq<char>)
    requires
        all_digits(d),
    ensures
        find(d + seq!['.'] + rest, Pat::Char('.')) == Some(d.len() as int),
{
    let s = d + seq!['.'] + rest;
    lemma_find_dot_from(d, rest, 0);
}

proof fn lemma_find_dot_from(d: Seq<char>, rest: Seq<char>, j: int)
    requires
        all_digits(d),
        0 <= j <= d.len(),
    ensures
        find_from(d + seq!['.'] + rest, Pat::Char('.'), j) == Some(d.len() as int),
    decreases d.len() - j,
{
    let s = d + seq!['.'] + rest;
    if j < d.len() {
        assert(s[j] == d[j]);
        assert(is_digit(d[j]));
        lemma_find_dot_from(d, rest, j + 1);
    } else {
        assert(s[j] == '.');
    }
}

/// Appends the characters of `s` to `out`.
pub fn push_str(out: &mut Vec<char>, s: &str)
    ensures
        final(out)@ == old(out)@ + s@,
{
    let v = to_chars(s);
    let mut i: usize = 0;
    while i < v.len()
        invariant
            i <= v@.len(),
            out@ == old(out)@ + v@.subrange(0, i as int),
        decreases v@.len() - i,
    {
        out.push(v[i]);
        i = i + 1;
    }
    assert(v@.subrange(0, v@.len() as int) =~= v@);
}

/// Appends the characters of `s` to `out`.
pub fn push_chars(out: &mut Vec<char>, s: &[char])
    ensures
        final(out)@ == old(out)@ + s@,
{
    let mut i: usize = 0;
    while i < s.len()
        invariant
            i <= s@.len(),
            out@ == old(out)@ + s@.subrange(0, i as int),
        decreases s@.len() - i,
    {
        out.push(s[i]);
        i = i + 1;
    }
    assert(s@.subrange(0, s@.len() as int) =~= s@);
}

/// Appends the decimal digits of `n` to `out`.
pub fn push_decimal(out: &mut Vec<char>, n: u64)
    ensures
        final(out)@ == old(out)@ + decimal(n as nat),
{
    let d = decimal_chars(n);
    push_chars(out, d.as_slice());
}

/// Whether two character sequences are equal.
pub fn chars_equal(a: &[char], b: &[char]) -> (r: bool)
    ensures
        r == (a@ == b@),
{
    if a.len() != b.len() {
        return false;
    }
    let mut i: usize = 0;
    while i < a.len()
        invariant
            a@.len() == b@.len(),
            i <= a@.len(),
            forall|j: int| 0 <= j < i ==> a@[j] == b@[j],
        decreases a@.len() - i,
    {
        if a[i] != b[i] {
            return false;
        }
        i = i + 1;
    }
    assert(a@ =~= b@);
    true
}

/// `str::contains` with a text.
pub open spec fn contains(s: Seq<char>, t: Seq<char>) -> bool {
    find(s, Pat::Text(t)) is Some
}

/// Whether `s` contains the text `t`.
pub fn contains_chars(s: &[char], t: &[char]) -> (r: bool)
    ensures
        r == contains(s@, t@),
{
    let p = Pattern::Text(copy_range(t, 0, t.len()));
    assert(p@ == Pat::Text(t@)) by {
        assert(t@.subrange(0, t@.len() as int) =~= t@);
    }
    find_pattern(s, &p).is_some()
}

} // verus!
