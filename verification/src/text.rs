//! Text helpers used to assemble SQL statements.
use vstd::prelude::*;
use vstd::string::*;

verus! {

/// Joins `parts` with `sep` between consecutive elements.
pub open spec fn join_seqs(parts: Seq<Seq<char>>, sep: Seq<char>) -> Seq<char>
    decreases parts.len(),
{
    if parts.len() == 0 {
        Seq::empty()
    } else if parts.len() == 1 {
        parts[0]
    } else {
        join_seqs(parts.drop_last(), sep) + sep + parts.last()
    }
}

/// The views of a vector of strings.
pub open spec fn string_views(v: Seq<String>) -> Seq<Seq<char>> {
    v.map_values(|s: String| s@)
}

/// Appends `other` to `s`.
pub fn push_str(s: &mut String, other: &str)
    ensures
        final(s)@ == old(s)@ + other@,
{
    s.append(other);
}

/// Creates an owned string with the same characters as `s`.
pub fn owned(s: &str) -> (res: String)
    ensures
        res@ == s@,
{
    s.to_owned()
}

/// Compares two string slices by their characters.
pub fn str_eq(a: &str, b: &str) -> (res: bool)
    ensures
        res == (a@ == b@),
{
    let x = a.to_owned();
    let y = b.to_owned();
    x == y
}

/// Joins a list of strings with a separator.
pub fn join(parts: &Vec<String>, sep: &str) -> (res: String)
    ensures
        res@ == join_seqs(string_views(parts@), sep@),
{
    let mut res = String::new();
    let ghost views = string_views(parts@);
    let mut i: usize = 0;
    while i < parts.len()
        invariant
            i <= parts.len(),
            views == string_views(parts@),
            res@ == join_seqs(views.take(i as int), sep@),
        decreases parts.len() - i,
    {
        assert(views.take((i + 1) as int).drop_last() =~= views.take(i as int));
        if i != 0 {
            res.append(sep);
        }
        res.append(parts[i].as_str());
        i += 1;
    }
    assert(views.take(parts.len() as int) =~= views);
    res
}

/// Decimal digits of a natural number.
pub open spec fn decimal(n: nat) -> Seq<char>
    decreases n,
{
    if n < 10 {
        seq![digit_char(n)]
    } else {
        decimal(n / 10) + seq![digit_char(n % 10)]
    }
}

/// The ASCII digit for a number below ten.
pub open spec fn digit_char(d: nat) -> char {
    if d == 0 { '0' }
    else if d == 1 { '1' }
    else if d == 2 { '2' }
    else if d == 3 { '3' }
    else if d == 4 { '4' }
    else if d == 5 { '5' }
    else if d == 6 { '6' }
    else if d == 7 { '7' }
    else if d == 8 { '8' }
    else { '9' }
}

/// Decimal representation of a signed integer, with a leading `-` when negative.
pub open spec fn signed_decimal(n: int) -> Seq<char> {
    if n < 0 {
        seq!['-'] + decimal((-n) as nat)
    } else {
        decimal(n as nat)
    }
}

fn digit(d: u64) -> (c: char)
    requires
        d < 10,
    ensures
        c == digit_char(d as nat),
{
    if d == 0 { '0' }
    else if d == 1 { '1' }
    else if d == 2 { '2' }
    else if d == 3 { '3' }
    else if d == 4 { '4' }
    else if d == 5 { '5' }
    else if d == 6 { '6' }
    else if d == 7 { '7' }
    else if d == 8 { '8' }
    else { '9' }
}

/// Formats an unsigned integer in decimal.
pub fn u64_to_string(n: u64) -> (res: String)
    ensures
        res@ == decimal(n as nat),
{
    let mut digits: Vec<char> = Vec::new();
    let mut m: u64 = n;
    // digits holds the low-order digits of n, least significant first
    while m >= 10
        invariant
            m <= n,
            decimal(n as nat) == decimal(m as nat) + digits@.reverse(),
        decreases m,
    {
        let c = digit(m % 10);
        assert(decimal(m as nat) == decimal((m / 10) as nat) + seq![c]);
        digits.push(c);
        assert(seq![c] + digits@.drop_last().reverse() =~= digits@.reverse());
        m = m / 10;
    }
    let c = digit(m);
    assert(decimal(m as nat) == seq![c]);
    digits.push(c);
    assert(seq![c] + digits@.drop_last().reverse() =~= digits@.reverse());
    let rev = reverse_chars(&digits);
    chars_to_string(&rev)
}

/// The characters of `v` in reverse order.
pub fn reverse_chars(v: &Vec<char>) -> (res: Vec<char>)
    ensures
        res@ == v@.reverse(),
{
    let mut res: Vec<char> = Vec::new();
    let mut i: usize = v.len();
    while i > 0
        invariant
            i <= v.len(),
            res@ =~= v@.subrange(i as int, v.len() as int).reverse(),
        decreases i,
    {
        i -= 1;
        res.push(v[i]);
        assert(v@.subrange(i as int, v.len() as int).reverse()
            =~= v@.subrange(i + 1, v.len() as int).reverse() + seq![v@[i as int]]);
    }
    assert(v@.subrange(0, v.len() as int) =~= v@);
    res
}

/// A string made of the given characters.
pub fn chars_to_string(v: &Vec<char>) -> (res: String)
    ensures
        res@ == v@,
{
    let mut res = String::new();
    let mut i: usize = 0;
    while i < v.len()
        invariant
            i <= v.len(),
            res@ == v@.take(i as int),
        decreases v.len() - i,
    {
        let one = char_string(v[i]);
        res.append(one.as_str());
        i += 1;
        assert(res@ =~= v@.take(i as int));
    }
    assert(v@.take(v.len() as int) =~= v@);
    res
}

/// `String::from(c)`: the string holding just the character `c`.
#[verifier::external_body]
pub(crate) fn char_string(c: char) -> (res: String)
    ensures
        res@ == seq![c],
{
    String::from(c)
}

} // verus!

verus! {

/// The first position of `s` whose element satisfies `p`.
pub open spec fn first_index<A>(s: Seq<A>, p: spec_fn(A) -> bool) -> Option<int>
    decreases s.len(),
{
    if s.len() == 0 {
        None
    } else if p(s[0]) {
        Some(0)
    } else {
        match first_index(s.drop_first(), p) {
            Some(i) => Some(i + 1),
            None => None,
        }
    }
}

/// `first_index` is the smallest position satisfying the predicate.
pub proof fn lemma_first_index<A>(s: Seq<A>, p: spec_fn(A) -> bool, i: int)
    requires
        0 <= i <= s.len(),
        forall|j: int| 0 <= j < i ==> !p(#[trigger] s[j]),
        i < s.len() ==> p(s[i]),
    ensures
        first_index(s, p) == (if i < s.len() { Some(i) } else { None::<int> }),
    decreases s.len(),
{
    if s.len() > 0 && i > 0 {
        let t = s.drop_first();
        assert forall|j: int| 0 <= j < i - 1 implies !p(#[trigger] t[j]) by {
            assert(t[j] == s[j + 1]);
        }
        if i - 1 < t.len() {
            assert(t[i - 1] == s[i]);
        }
        lemma_first_index(t, p, i - 1);
    }
}

/// A found position is in bounds and satisfies the predicate.
pub broadcast proof fn lemma_first_index_found<A>(s: Seq<A>, p: spec_fn(A) -> bool)
    ensures
        #[trigger] first_index(s, p) matches Some(i) ==> 0 <= i < s.len() && p(s[i]) && forall|j: int|
            0 <= j < i ==> !p(#[trigger] s[j]),
        first_index(s, p) is None ==> forall|j: int| 0 <= j < s.len() ==> !p(#[trigger] s[j]),
    decreases s.len(),
{
    if s.len() > 0 {
        let t = s.drop_first();
        lemma_first_index_found(t, p);
        if !p(s[0]) {
            assert forall|j: int| 0 < j < s.len() implies s[j] == t[j - 1] by {}
        }
    }
}

/// The predicate "is the character `c`".
pub open spec fn is_char(c: char) -> spec_fn(char) -> bool {
    |x: char| x == c
}

/// Splits `s` at the first occurrence of `c`, dropping that character.
pub open spec fn split_once_spec(s: Seq<char>, c: char) -> Option<(Seq<char>, Seq<char>)> {
    match first_index(s, is_char(c)) {
        Some(i) => Some((s.take(i), s.skip(i + 1))),
        None => None,
    }
}

/// The two parts of a split, joined again with the separator, give back the
/// text, and the first part holds no separator.
pub proof fn lemma_split_once_joins(s: Seq<char>, c: char)
    ensures
        split_once_spec(s, c) matches Some((a, b)) ==> a + seq![c] + b == s && !a.contains(c),
        split_once_spec(s, c) is None ==> !s.contains(c),
{
    lemma_first_index_found(s, is_char(c));
    match first_index(s, is_char(c)) {
        Some(i) => {
            assert(s.take(i) + seq![c] + s.skip(i + 1) =~= s);
            if s.take(i).contains(c) {
                let k = choose|k: int| 0 <= k < s.take(i).len() && s.take(i)[k] == c;
                assert(s[k] == c);
            }
        },
        None => {
            if s.contains(c) {
                let k = choose|k: int| 0 <= k < s.len() && s[k] == c;
                assert(is_char(c)(s[k]));
            }
        },
    }
}

/// Joining two texts with a separator that the first does not hold, then
/// splitting at the separator, gives back the two texts.
pub proof fn lemma_split_once_of_join(a: Seq<char>, c: char, b: Seq<char>)
    requires
        !a.contains(c),
    ensures
        split_once_spec(a + seq![c] + b, c) == Some((a, b)),
{
    let s = a + seq![c] + b;
    assert forall|j: int| 0 <= j < a.len() implies !is_char(c)(#[trigger] s[j]) by {
        assert(s[j] == a[j]);
        if a[j] == c {
            assert(a.contains(c));
        }
    }
    assert(s[a.len() as int] == c);
    lemma_first_index(s, is_char(c), a.len() as int);
    assert(s.take(a.len() as int) =~= a);
    assert(s.skip(a.len() as int + 1) =~= b);
}

/// Splits `s` at the first occurrence of `c`, dropping that character.
pub fn split_once(s: &str, c: char) -> (res: Option<(&str, &str)>)
    ensures
        match split_once_spec(s@, c) {
            Some((a, b)) => res.is_some() && res.unwrap().0@ == a && res.unwrap().1@ == b,
            None => res.is_none(),
        },
{
    let len = s.unicode_len();
    let mut i: usize = 0;
    while i < len
        invariant
            i <= len,
            len == s@.len(),
            forall|j: int| 0 <= j < i ==> s@[j] != c,
        decreases len - i,
    {
        if s.get_char(i) == c {
            proof { lemma_first_index(s@, is_char(c), i as int); }
            let a = s.substring_char(0, i);
            let b = s.substring_char(i + 1, len);
            assert(a@ =~= s@.take(i as int));
            assert(b@ =~= s@.skip(i + 1));
            return Some((a, b));
        }
        i += 1;
    }
    proof { lemma_first_index(s@, is_char(c), i as int); }
    None
}

} // verus!

verus! {

/// Unicode white space, the characters that `str::trim` removes.
pub open spec fn is_whitespace(c: char) -> bool {
    let n = c as u32;
    (0x9 <= n && n <= 0xd) || n == 0x20 || n == 0x85 || n == 0xa0 || n == 0x1680 || (0x2000 <= n
        && n <= 0x200a) || n == 0x2028 || n == 0x2029 || n == 0x202f || n == 0x205f || n == 0x3000
}

/// The predicate "is not white space".
pub open spec fn not_whitespace() -> spec_fn(char) -> bool {
    |c: char| !is_whitespace(c)
}

/// Whether a character is Unicode white space.
pub fn char_is_whitespace(c: char) -> (res: bool)
    ensures
        res == is_whitespace(c),
{
    let n = c as u32;
    (0x9 <= n && n <= 0xd) || n == 0x20 || n == 0x85 || n == 0xa0 || n == 0x1680 || (0x2000 <= n
        && n <= 0x200a) || n == 0x2028 || n == 0x2029 || n == 0x202f || n == 0x205f || n == 0x3000
}

/// The last position of `s` whose element satisfies `p`.
pub open spec fn last_index<A>(s: Seq<A>, p: spec_fn(A) -> bool) -> Option<int>
    decreases s.len(),
{
    if s.len() == 0 {
        None
    } else if p(s.last()) {
        Some(s.len() - 1)
    } else {
        last_index(s.drop_last(), p)
    }
}

/// `last_index` is the largest position satisfying the predicate.
pub proof fn lemma_last_index<A>(s: Seq<A>, p: spec_fn(A) -> bool, i: int)
    requires
        -1 <= i < s.len(),
        forall|j: int| i < j < s.len() ==> !p(#[trigger] s[j]),
        i >= 0 ==> p(s[i]),
    ensures
        last_index(s, p) == (if i >= 0 { Some(i) } else { None::<int> }),
    decreases s.len(),
{
    if s.len() > 0 && i < s.len() - 1 {
        let t = s.drop_last();
        assert forall|j: int| i < j < t.len() implies !p(#[trigger] t[j]) by {
            assert(t[j] == s[j]);
        }
        assert(!p(s[s.len() - 1]));
        if i >= 0 {
            assert(t[i] == s[i]);
        }
        lemma_last_index(t, p, i);
    }
}

/// `s` without leading and trailing white space.
pub open spec fn trim_spec(s: Seq<char>) -> Seq<char> {
    match first_index(s, not_whitespace()) {
        Some(a) => s.subrange(a, last_index(s, not_whitespace()).unwrap() + 1),
        None => Seq::empty(),
    }
}

/// `s` without leading and trailing white space.
pub fn trim(s: &str) -> (res: &str)
    ensures
        res@ == trim_spec(s@),
{
    let len = s.unicode_len();
    let mut a: usize = 0;
    while a < len && char_is_whitespace(s.get_char(a))
        invariant
            a <= len,
            len == s@.len(),
            forall|j: int| 0 <= j < a ==> !not_whitespace()(#[trigger] s@[j]),
        decreases len - a,
    {
        a += 1;
    }
    proof { lemma_first_index(s@, not_whitespace(), a as int); }
    if a == len {
        let e = s.substring_char(0, 0);
        assert(e@ =~= Seq::<char>::empty());
        return e;
    }
    let mut b: usize = len;
    while b > a + 1 && char_is_whitespace(s.get_char(b - 1))
        invariant
            a < b <= len,
            len == s@.len(),
            !is_whitespace(s@[a as int]),
            forall|j: int| b <= j < len ==> !not_whitespace()(#[trigger] s@[j]),
        decreases b,
    {
        b -= 1;
    }
    proof { lemma_last_index(s@, not_whitespace(), b - 1); }
    s.substring_char(a, b)
}

/// Whether a character is an ASCII decimal digit.
pub open spec fn is_ascii_digit(c: char) -> bool {
    '0' as u32 <= c as u32 && c as u32 <= '9' as u32
}

/// The number an ASCII digit stands for.
pub open spec fn digit_value(c: char) -> nat {
    (c as u32 - '0' as u32) as nat
}

/// The number written by a sequence of decimal digits, most significant first.
pub open spec fn digits_value(s: Seq<char>) -> nat
    decreases s.len(),
{
    if s.len() == 0 {
        0
    } else {
        digits_value(s.drop_last()) * 10 + digit_value(s.last())
    }
}

/// The number a string writes in decimal: one or more ASCII digits and nothing
/// else, of a value that fits in `usize`.
pub open spec fn decimal_usize(s: Seq<char>) -> Option<usize> {
    if s.len() > 0 && (forall|i: int| 0 <= i < s.len() ==> is_ascii_digit(#[trigger] s[i]))
        && digits_value(s) <= usize::MAX {
        Some(digits_value(s) as usize)
    } else {
        None
    }
}

/// Reads the number a string writes in decimal, `None` where it writes none that
/// fits in `usize`.
pub fn parse_decimal(s: &str) -> (res: Option<usize>)
    ensures
        res == decimal_usize(s@),
{
    let len = s.unicode_len();
    if len == 0 {
        return None;
    }
    let mut acc: usize = 0;
    let mut too_large = false;
    let mut i: usize = 0;
    while i < len
        invariant
            i <= len,
            len == s@.len(),
            forall|j: int| 0 <= j < i ==> is_ascii_digit(#[trigger] s@[j]),
            !too_large ==> acc as nat == digits_value(s@.take(i as int)),
            too_large ==> digits_value(s@.take(i as int)) > usize::MAX,
        decreases len - i,
    {
        let c = s.get_char(i);
        if !('0' <= c && c <= '9') {
            assert(!is_ascii_digit(s@[i as int]));
            return None;
        }
        let d: usize = (c as u32 - '0' as u32) as usize;
        let ghost before = digits_value(s@.take(i as int));
        proof {
            assert(s@.take(i as int + 1).drop_last() =~= s@.take(i as int));
            assert(digits_value(s@.take(i as int + 1)) == before * 10 + d);
        }
        if !too_large {
            if acc > (usize::MAX - d) / 10 {
                too_large = true;
                assert(before * 10 + d > usize::MAX) by (nonlinear_arith)
                    requires
                        before == acc,
                        acc > (usize::MAX - d) / 10,
                        d <= 9,
                ;
            } else {
                assert(acc * 10 + d <= usize::MAX) by (nonlinear_arith)
                    requires
                        acc <= (usize::MAX - d) / 10,
                        d <= 9,
                ;
                acc = acc * 10 + d;
            }
        } else {
            assert(before * 10 + d > usize::MAX) by (nonlinear_arith)
                requires
                    before > usize::MAX,
            ;
        }
        i += 1;
    }
    assert(s@.take(len as int) =~= s@);
    if too_large {
        None
    } else {
        Some(acc)
    }
}

} // verus!
