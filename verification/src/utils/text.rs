//! Character-level string operations with stated meanings.
use vstd::prelude::*;
use vstd::string::StrSliceExecFns;
use vstd::string::StringExecFns;

verus! {

/// The Unicode lowercase mapping of a character sequence, as `str::to_lowercase` computes it.
pub uninterp spec fn lowercase(s: Seq<char>) -> Seq<char>;

/// The lowercase form of an ASCII character: `A`..`Z` become `a`..`z`, the others stay.
pub open spec fn ascii_lower(c: char) -> char {
    if 'A' <= c && c <= 'Z' {
        ((c as u32) + 32) as char
    } else {
        c
    }
}

/// Whether every character is ASCII.
pub open spec fn all_ascii(s: Seq<char>) -> bool {
    forall|i: int| 0 <= i < s.len() ==> (s[i] as u32) < 128
}

/// Calls `str::to_lowercase`.
///
/// Trusted: the characters of the result are `lowercase(s@)`, a function of the
/// input alone (the standard library's mapping does not depend on a locale); on an
/// all-ASCII string it maps `A`..`Z` to `a`..`z` one for one and keeps every other
/// character. What the mapping is on other characters is not stated.
#[verifier::external_body]
pub(crate) fn to_lowercase(s: &str) -> (r: String)
    ensures
        r@ == lowercase(s@),
        all_ascii(s@) ==> r@ == Seq::new(s@.len(), |i: int| ascii_lower(s@[i])),
{
    s.to_lowercase()
}

/// `needle` occurs in `hay` as a contiguous run of characters.
pub open spec fn is_substring(needle: Seq<char>, hay: Seq<char>) -> bool {
    exists|i: int|
        0 <= i && i + needle.len() <= hay.len() && #[trigger] hay.subrange(i, i + needle.len())
            == needle
}

/// `prefix` is the start of `s`.
pub open spec fn has_prefix(s: Seq<char>, prefix: Seq<char>) -> bool {
    prefix.len() <= s.len() && s.subrange(0, prefix.len() as int) == prefix
}

/// A sequence is a substring of itself.
pub proof fn lemma_substring_of_self(s: Seq<char>)
    ensures
        is_substring(s, s),
{
    assert(s.subrange(0int, 0int + s.len()) =~= s);
}

/// The characters of a string slice, one per element.
pub fn to_chars(s: &str) -> (v: Vec<char>)
    ensures
        v@ == s@,
{
    let n = s.unicode_len();
    let mut v: Vec<char> = Vec::new();
    let mut i: usize = 0;
    while i < n
        invariant
            n == s@.len(),
            i <= n,
            v@ == s@.subrange(0, i as int),
        decreases n - i,
    {
        let c = s.get_char(i);
        v.push(c);
        i = i + 1;
        assert(v@ =~= s@.subrange(0, i as int));
    }
    assert(v@ =~= s@);
    v
}

/// Whether `needle` occurs in `hay` starting at position `at`.
pub(crate) fn matches_at(hay: &Vec<char>, needle: &Vec<char>, at: usize) -> (r: bool)
    requires
        at + needle@.len() <= hay@.len(),
    ensures
        r == (hay@.subrange(at as int, at + needle@.len()) == needle@),
{
    let mut k: usize = 0;
    while k < needle.len()
        invariant
            at + needle@.len() <= hay@.len(),
            hay@.len() == hay.len(),
            k <= needle@.len(),
            forall|j: int| 0 <= j < k ==> hay@[at + j] == needle@[j],
        decreases needle@.len() - k,
    {
        if hay[at + k] != needle[k] {
            assert(hay@.subrange(at as int, at + needle@.len())[k as int] != needle@[k as int]);
            return false;
        }
        k = k + 1;
    }
    assert(hay@.subrange(at as int, at + needle@.len()) =~= needle@);
    true
}

/// Substring search over character vectors.
pub fn chars_contain(hay: &Vec<char>, needle: &Vec<char>) -> (r: bool)
    ensures
        r == is_substring(needle@, hay@),
{
    if needle.len() > hay.len() {
        return false;
    }
    let last = hay.len() - needle.len();
    let mut i: usize = 0;
    while i <= last
        invariant
            last + needle@.len() == hay@.len(),
            i <= last + 1,
            forall|j: int|
                0 <= j < i ==> #[trigger] hay@.subrange(j, j + needle@.len()) != needle@,
        decreases last + 1 - i,
    {
        if matches_at(hay, needle, i) {
            return true;
        }
        if i == last {
            return false;
        }
        i = i + 1;
    }
    false
}

/// `str::contains` for a string pattern: whether `needle` occurs in `hay`.
pub fn str_contains(hay: &str, needle: &str) -> (r: bool)
    ensures
        r == is_substring(needle@, hay@),
{
    let h = to_chars(hay);
    let n = to_chars(needle);
    chars_contain(&h, &n)
}

/// String equality by characters.
pub fn str_eq(a: &str, b: &str) -> (r: bool)
    ensures
        r == (a@ == b@),
{
    let x = String::from_str(a);
    let y = String::from_str(b);
    x == y
}

/// Whether `s` starts with `prefix`.
pub fn starts_with(s: &str, prefix: &str) -> (r: bool)
    ensures
        r == has_prefix(s@, prefix@),
{
    let n = s.unicode_len();
    let p = prefix.unicode_len();
    if p > n {
        return false;
    }
    let head = s.substring_char(0, p);
    str_eq(head, prefix)
}

/// The Unicode `White_Space` property, the set `char::is_whitespace` tests.
pub open spec fn is_whitespace(c: char) -> bool {
    let u = c as u32;
    (0x09 <= u <= 0x0d) || u == 0x20 || u == 0x85 || u == 0xa0 || u == 0x1680 || (0x2000 <= u
        <= 0x200a) || u == 0x2028 || u == 0x2029 || u == 0x202f || u == 0x205f || u == 0x3000
}

/// `char::is_whitespace`.
pub fn char_is_whitespace(c: char) -> (r: bool)
    ensures
        r == is_whitespace(c),
{
    let u = c as u32;
    (0x09 <= u && u <= 0x0d) || u == 0x20 || u == 0x85 || u == 0xa0 || u == 0x1680 || (0x2000 <= u
        && u <= 0x200a) || u == 0x2028 || u == 0x2029 || u == 0x202f || u == 0x205f || u == 0x3000
}

/// A sequence with leading and trailing whitespace removed, as `str::trim` leaves it.
pub open spec fn trimmed(s: Seq<char>) -> Seq<char>
    decreases s.len(),
{
    if s.len() > 0 && is_whitespace(s[0]) {
        trimmed(s.drop_first())
    } else if s.len() > 0 && is_whitespace(s.last()) {
        trimmed(s.drop_last())
    } else {
        s
    }
}

/// Removing a run of leading whitespace does not change the trimmed result.
proof fn lemma_trim_leading(s: Seq<char>, k: int)
    requires
        0 <= k <= s.len(),
        forall|j: int| 0 <= j < k ==> is_whitespace(#[trigger] s[j]),
    ensures
        trimmed(s) == trimmed(s.subrange(k, s.len() as int)),
    decreases k,
{
    if k == 0 {
        assert(s.subrange(0, s.len() as int) =~= s);
    } else {
        assert(is_whitespace(s[0]));
        let t = s.drop_first();
        assert forall|j: int| 0 <= j < k - 1 implies is_whitespace(#[trigger] t[j]) by {
            assert(t[j] == s[j + 1]);
        }
        lemma_trim_leading(t, k - 1);
        assert(t.subrange(k - 1, t.len() as int) =~= s.subrange(k, s.len() as int));
    }
}

/// With no leading whitespace, removing a run of trailing whitespace does not change the result.
proof fn lemma_trim_trailing(s: Seq<char>, e: int)
    requires
        0 <= e <= s.len(),
        s.len() > 0 ==> !is_whitespace(s[0]),
        e == 0 ==> s.len() == 0,
        forall|j: int| e <= j < s.len() ==> is_whitespace(#[trigger] s[j]),
    ensures
        trimmed(s) == s.subrange(0, e) || (e > 0 && is_whitespace(s[e - 1])),
    decreases s.len() - e,
{
    if e == s.len() {
        assert(s.subrange(0, e) =~= s);
        if s.len() > 0 && is_whitespace(s.last()) {
            assert(is_whitespace(s[e - 1]));
        }
    } else {
        let t = s.drop_last();
        assert(is_whitespace(s.last()));
        assert(t[0] == s[0]);
        assert forall|j: int| e <= j < t.len() implies is_whitespace(#[trigger] t[j]) by {
            assert(t[j] == s[j]);
        }
        lemma_trim_trailing(t, e);
        assert(t.subrange(0, e) =~= s.subrange(0, e));
        if e > 0 {
            assert(t[e - 1] == s[e - 1]);
        }
    }
}

/// `str::trim`: the slice without leading and trailing whitespace.
pub fn trim(s: &str) -> (r: &str)
    ensures
        r@ == trimmed(s@),
{
    let n = s.unicode_len();
    let mut a: usize = 0;
    while a < n && char_is_whitespace(s.get_char(a))
        invariant
            n == s@.len(),
            a <= n,
            forall|j: int| 0 <= j < a ==> is_whitespace(#[trigger] s@[j]),
        decreases n - a,
    {
        a = a + 1;
    }
    let mut b: usize = n;
    while b > a && char_is_whitespace(s.get_char(b - 1))
        invariant
            n == s@.len(),
            a <= b <= n,
            forall|j: int| b <= j < n ==> is_whitespace(#[trigger] s@[j]),
        decreases b - a,
    {
        b = b - 1;
    }
    let r = s.substring_char(a, b);
    proof {
        lemma_trim_leading(s@, a as int);
        let t = s@.subrange(a as int, n as int);
        assert forall|j: int| (b - a) <= j < t.len() implies is_whitespace(#[trigger] t[j]) by {
            assert(t[j] == s@[a + j]);
        }
        if t.len() > 0 {
            assert(t[0] == s@[a as int]);
        }
        lemma_trim_trailing(t, (b - a) as int);
        assert(t.subrange(0, (b - a) as int) =~= s@.subrange(a as int, b as int));
        if b > a {
            assert(t[(b - a) - 1] == s@[b - 1]);
        }
    }
    r
}

/// The decimal digit character of `d` (for `d` below ten).
pub open spec fn digit_char(d: int) -> char {
    if d == 0 {
        '0'
    } else if d == 1 {
        '1'
    } else if d == 2 {
        '2'
    } else if d == 3 {
        '3'
    } else if d == 4 {
        '4'
    } else if d == 5 {
        '5'
    } else if d == 6 {
        '6'
    } else if d == 7 {
        '7'
    } else if d == 8 {
        '8'
    } else {
        '9'
    }
}

/// The decimal notation of a natural number, as `Display` writes it.
pub open spec fn decimal(n: nat) -> Seq<char>
    decreases n,
{
    if n < 10 {
        seq![digit_char(n as int)]
    } else {
        decimal(n / 10).push(digit_char((n % 10) as int))
    }
}

fn digit_str(d: u64) -> (s: &'static str)
    requires
        d < 10,
    ensures
        s@ == seq![digit_char(d as int)],
{
    if d == 0 {
        proof {
            reveal_strlit("0");
        }
        assert("0"@ =~= seq!['0']);
        "0"
    } else if d == 1 {
        proof {
            reveal_strlit("1");
        }
        assert("1"@ =~= seq!['1']);
        "1"
    } else if d == 2 {
        proof {
            reveal_strlit("2");
        }
        assert("2"@ =~= seq!['2']);
        "2"
    } else if d == 3 {
        proof {
            reveal_strlit("3");
        }
        assert("3"@ =~= seq!['3']);
        "3"
    } else if d == 4 {
        proof {
            reveal_strlit("4");
        }
        assert("4"@ =~= seq!['4']);
        "4"
    } else if d == 5 {
        proof {
            reveal_strlit("5");
        }
        assert("5"@ =~= seq!['5']);
        "5"
    } else if d == 6 {
        proof {
            reveal_strlit("6");
        }
        assert("6"@ =~= seq!['6']);
        "6"
    } else if d == 7 {
        proof {
            reveal_strlit("7");
        }
        assert("7"@ =~= seq!['7']);
        "7"
    } else if d == 8 {
        proof {
            reveal_strlit("8");
        }
        assert("8"@ =~= seq!['8']);
        "8"
    } else {
        proof {
            reveal_strlit("9");
        }
        assert("9"@ =~= seq!['9']);
        "9"
    }
}

/// The decimal notation of `n`, as `n.to_string()` gives it.
pub fn decimal_string(n: u64) -> (r: String)
    ensures
        r@ == decimal(n as nat),
    decreases n,
{
    if n < 10 {
        String::from_str(digit_str(n))
    } else {
        let head = decimal_string(n / 10);
        head.concat(digit_str(n % 10))
    }
}

/// The decimal notation of a signed number, with a leading minus sign when negative.
pub open spec fn signed_decimal(n: int) -> Seq<char> {
    if n < 0 {
        seq!['-'] + decimal((-n) as nat)
    } else {
        decimal(n as nat)
    }
}

/// The decimal notation of `n`, as `n.to_string()` gives it.
pub fn signed_decimal_string(n: i64) -> (r: String)
    ensures
        r@ == signed_decimal(n as int),
{
    if n < 0 {
        let magnitude: u64 = if n == i64::MIN {
            9223372036854775808u64
        } else {
            (-n) as u64
        };
        proof {
            reveal_strlit("-");
        }
        assert("-"@ =~= seq!['-']);
        String::from_str("-").concat(decimal_string(magnitude).as_str())
    } else {
        decimal_string(n as u64)
    }
}

/// `suffix` is the end of `s`.
pub open spec fn has_suffix(s: Seq<char>, suffix: Seq<char>) -> bool {
    suffix.len() <= s.len() && s.subrange(s.len() - suffix.len(), s.len() as int) == suffix
}

/// Whether `s` ends with `suffix`.
pub fn ends_with(s: &str, suffix: &str) -> (r: bool)
    ensures
        r == has_suffix(s@, suffix@),
{
    let n = s.unicode_len();
    let p = suffix.unicode_len();
    if p > n {
        return false;
    }
    let tail = s.substring_char(n - p, n);
    str_eq(tail, suffix)
}

/// `sep` occurs in `s` at position `i`.
pub open spec fn occurs_at(s: Seq<char>, sep: Seq<char>, i: int) -> bool {
    0 <= i && i + sep.len() <= s.len() && s.subrange(i, i + sep.len()) == sep
}

/// The first position at or after `i` where `sep` occurs in `s`.
pub open spec fn find_from(s: Seq<char>, sep: Seq<char>, i: int) -> Option<int>
    decreases s.len() - i,
{
    if i < 0 || i >= s.len() || i + sep.len() > s.len() {
        None
    } else if occurs_at(s, sep, i) {
        Some(i)
    } else {
        find_from(s, sep, i + 1)
    }
}

pub proof fn lemma_find_from_bounds(s: Seq<char>, sep: Seq<char>, i: int)
    ensures
        find_from(s, sep, i) matches Some(j) ==> i <= j && occurs_at(s, sep, j),
    decreases s.len() - i,
{
    if i < 0 || i >= s.len() || i + sep.len() > s.len() {
    } else if occurs_at(s, sep, i) {
    } else {
        lemma_find_from_bounds(s, sep, i + 1);
    }
}

/// The pieces of `s[start..]` between the non-overlapping occurrences of `sep`, found left
/// to right.
pub open spec fn split_from(s: Seq<char>, sep: Seq<char>, start: int) -> Seq<Seq<char>>
    decreases s.len() - start,
    when sep.len() > 0 && 0 <= start <= s.len()
{
    match find_from(s, sep, start) {
        Some(j) => {
            proof {
                lemma_find_from_bounds(s, sep, start);
            }
            seq![s.subrange(start, j)] + split_from(s, sep, j + sep.len())
        },
        None => seq![s.subrange(start, s.len() as int)],
    }
}

/// The pieces `str::split` yields for a non-empty string pattern.
pub open spec fn split_pieces(s: Seq<char>, sep: Seq<char>) -> Seq<Seq<char>> {
    split_from(s, sep, 0)
}

/// `str::split` with a non-empty string pattern, the pieces as strings.
pub fn split_str(s: &str, sep: &str) -> (r: Vec<String>)
    requires
        sep@.len() > 0,
    ensures
        Seq::new(r@.len(), |k: int| r@[k]@) == split_pieces(s@, sep@),
{
    let hay = to_chars(s);
    let needle = to_chars(sep);
    let n = hay.len();
    let m = needle.len();
    let mut pieces: Vec<String> = Vec::new();
    let mut start: usize = 0;
    let mut i: usize = 0;
    let ghost whole = split_pieces(s@, sep@);
    let limit = if m <= n {
        n - m + 1
    } else {
        0
    };
    while i < limit
        invariant
            limit == (if m <= n { n - m + 1 } else { 0 }),
            hay@ == s@,
            needle@ == sep@,
            n == s@.len(),
            m == sep@.len(),
            m > 0,
            start <= i <= n,
            find_from(s@, sep@, start as int) == find_from(s@, sep@, i as int),
            Seq::new(pieces@.len(), |k: int| pieces@[k]@) + split_from(s@, sep@, start as int) == whole,
        decreases n - i,
    {
        if matches_at(&hay, &needle, i) {
            assert(occurs_at(s@, sep@, i as int));
            let piece = String::from_str(s.substring_char(start, i));
            let ghost before = Seq::new(pieces@.len(), |k: int| pieces@[k]@);
            assert(split_from(s@, sep@, start as int) == seq![s@.subrange(start as int, i as int)]
                + split_from(s@, sep@, i + m));
            pieces.push(piece);
            assert(Seq::new(pieces@.len(), |k: int| pieces@[k]@) =~= before.push(
                s@.subrange(start as int, i as int),
            ));
            assert(before.push(s@.subrange(start as int, i as int)) + split_from(s@, sep@, i + m) =~= before
                + (seq![s@.subrange(start as int, i as int)] + split_from(s@, sep@, i + m)));
            start = i + m;
            i = start;
        } else {
            assert(!occurs_at(s@, sep@, i as int));
            i = i + 1;
        }
    }
    assert(find_from(s@, sep@, i as int) is None);
    let ghost before = Seq::new(pieces@.len(), |k: int| pieces@[k]@);
    let last = String::from_str(s.substring_char(start, n));
    pieces.push(last);
    assert(Seq::new(pieces@.len(), |k: int| pieces@[k]@) =~= before.push(s@.subrange(start as int, n as int)));
    assert(before.push(s@.subrange(start as int, n as int)) =~= before + seq![s@.subrange(start as int, n as int)]);
    pieces
}

/// Whether a character is an ASCII decimal digit.
pub open spec fn is_digit(c: char) -> bool {
    '0' <= c && c <= '9'
}

/// The value of a digit character.
pub open spec fn digit_value(c: char) -> int {
    (c as u32) as int - 48
}

/// The value of a string of decimal digits (zero for the empty string).
pub open spec fn digits_value(s: Seq<char>) -> int
    decreases s.len(),
{
    if s.len() == 0 {
        0
    } else {
        digits_value(s.drop_last()) * 10 + digit_value(s.last())
    }
}

/// Whether every character is a decimal digit.
pub open spec fn all_digits(s: Seq<char>) -> bool {
    forall|i: int| 0 <= i < s.len() ==> is_digit(#[trigger] s[i])
}

/// The integer a text writes in decimal, with an optional leading `-`; none for any other
/// text.
pub open spec fn integer_text(s: Seq<char>) -> Option<int> {
    if s.len() > 0 && s[0] == '-' {
        let d = s.drop_first();
        if d.len() > 0 && all_digits(d) {
            Some(-digits_value(d))
        } else {
            None
        }
    } else if s.len() > 0 && all_digits(s) {
        Some(digits_value(s))
    } else {
        None
    }
}

/// The integer a text writes, when its magnitude fits an `i64`.
pub open spec fn integer_in_text(s: Seq<char>) -> Option<i64> {
    match integer_text(s) {
        Some(v) => if -(i64::MAX as int) <= v <= i64::MAX {
            Some(v as i64)
        } else {
            None
        },
        None => None,
    }
}

proof fn lemma_digits_value_nonneg(s: Seq<char>)
    requires
        all_digits(s),
    ensures
        digits_value(s) >= 0,
    decreases s.len(),
{
    if s.len() > 0 {
        assert(all_digits(s.drop_last())) by {
            assert forall|i: int| 0 <= i < s.drop_last().len() implies is_digit(#[trigger] s.drop_last()[i]) by {
                assert(s.drop_last()[i] == s[i]);
            }
        }
        lemma_digits_value_nonneg(s.drop_last());
    }
}

proof fn lemma_digits_value_grows(s: Seq<char>, i: int)
    requires
        all_digits(s),
        0 <= i <= s.len(),
    ensures
        digits_value(s.subrange(0, i)) <= digits_value(s),
    decreases s.len() - i,
{
    if i < s.len() {
        lemma_digits_value_grows(s, i + 1);
        let p = s.subrange(0, i + 1);
        assert(p.drop_last() =~= s.subrange(0, i));
        assert(p.last() == s[i]);
        assert(is_digit(s[i]));
        assert(all_digits(s.subrange(0, i))) by {
            assert forall|k: int| 0 <= k < i implies is_digit(#[trigger] s.subrange(0, i)[k]) by {
                assert(s.subrange(0, i)[k] == s[k]);
            }
        }
        lemma_digits_value_nonneg(s.subrange(0, i));
    } else {
        assert(s.subrange(0, i) =~= s);
    }
}

/// The value of the digits `s[start..]`, when they are all digits and the value is at most
/// `i64::MAX`.
fn digits_from(s: &Vec<char>, start: usize) -> (r: Option<i64>)
    requires
        start <= s@.len(),
    ensures
        ({
            let d = s@.subrange(start as int, s@.len() as int);
            r == if all_digits(d) && digits_value(d) <= i64::MAX {
                Some(digits_value(d) as i64)
            } else {
                None::<i64>
            }
        }),
{
    let ghost d = s@.subrange(start as int, s@.len() as int);
    let mut acc: i64 = 0;
    let mut i: usize = start;
    assert(s@.subrange(start as int, start as int) =~= Seq::<char>::empty());
    while i < s.len()
        invariant
            start <= i <= s@.len(),
            d == s@.subrange(start as int, s@.len() as int),
            all_digits(s@.subrange(start as int, i as int)),
            acc as int == digits_value(s@.subrange(start as int, i as int)),
            acc >= 0,
        decreases s@.len() - i,
    {
        let c = s[i];
        let ghost p = s@.subrange(start as int, i + 1);
        assert(p.drop_last() =~= s@.subrange(start as int, i as int));
        assert(p.last() == c);
        assert(d[i - start] == c);
        if !('0' <= c && c <= '9') {
            return None;
        }
        assert(all_digits(p)) by {
            assert forall|k: int| 0 <= k < p.len() implies is_digit(#[trigger] p[k]) by {
                if k < p.len() - 1 {
                    assert(p[k] == s@.subrange(start as int, i as int)[k]);
                }
            }
        }
        let digit: i64 = (c as u32 - 48) as i64;
        let next = match acc.checked_mul(10) {
            Some(m) => m.checked_add(digit),
            None => None,
        };
        match next {
            Some(v) => {
                acc = v;
            },
            None => {
                proof {
                    if all_digits(d) {
                        lemma_digits_value_grows(d, i + 1 - start);
                        assert(d.subrange(0, i + 1 - start) =~= p);
                    }
                }
                return None;
            },
        }
        i = i + 1;
    }
    assert(s@.subrange(start as int, i as int) =~= d);
    Some(acc)
}

/// Reads an integer written in decimal, with an optional leading `-`, whose magnitude fits
/// an `i64`.
pub fn parse_integer(text: &str) -> (r: Option<i64>)
    ensures
        r == integer_in_text(text@),
{
    let s = to_chars(text);
    if s.len() > 0 && s[0] == '-' {
        assert(s@.subrange(1, s@.len() as int) =~= text@.drop_first());
        if s.len() == 1 {
            return None;
        }
        let ghost d = text@.drop_first();
        match digits_from(&s, 1) {
            Some(v) => {
                proof {
                    lemma_digits_value_nonneg(d);
                }
                Some(-v)
            },
            None => None,
        }
    } else {
        assert(s@.subrange(0, s@.len() as int) =~= text@);
        if s.len() == 0 {
            return None;
        }
        let r = digits_from(&s, 0);
        proof {
            if all_digits(text@) {
                lemma_digits_value_nonneg(text@);
            }
        }
        r
    }
}

/// Reading back the decimal notation of a number gives the number: the notation is all
/// digits, and their value is the number.
pub proof fn law_decimal_reads_back(n: nat)
    ensures
        all_digits(decimal(n)),
        digits_value(decimal(n)) == n,
        decimal(n).len() > 0,
        integer_text(decimal(n)) == Some(n as int),
    decreases n,
{
    let d = (n % 10) as int;
    assert(is_digit(digit_char(d)) && digit_value(digit_char(d)) == d) by {
        assert(0 <= d < 10);
    }
    if n >= 10 {
        law_decimal_reads_back(n / 10);
        let s = decimal(n / 10);
        assert(decimal(n).drop_last() == s);
        assert(decimal(n).last() == digit_char(d));
        assert forall|i: int| 0 <= i < decimal(n).len() implies is_digit(#[trigger] decimal(n)[i]) by {
            if i < s.len() {
                assert(decimal(n)[i] == s[i]);
            }
        }
        vstd::arithmetic::div_mod::lemma_fundamental_div_mod(n as int, 10);
        assert(digits_value(decimal(n)) == digits_value(s) * 10 + d);
    } else {
        assert(n % 10 == n);
        assert(decimal(n) == seq![digit_char(n as int)]);
        assert(decimal(n).drop_last() =~= Seq::<char>::empty());
        assert(decimal(n).last() == digit_char(d));
        assert forall|i: int| 0 <= i < decimal(n).len() implies is_digit(#[trigger] decimal(n)[i]) by {
            assert(i == 0);
        }
        assert(digits_value(decimal(n)) == digits_value(Seq::<char>::empty()) * 10 + d);
    }
    assert(all_digits(decimal(n)));
    assert(is_digit(decimal(n)[0]));
    assert(decimal(n)[0] != '-');
}

} // verus!
