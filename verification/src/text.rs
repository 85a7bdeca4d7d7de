//! Verified text utilities for the instrument protocol: ASCII whitespace
//! trimming, comma splitting, and the response classifiers the adapters use.

use vstd::prelude::*;

verus! {

/// ASCII whitespace, the only kind the instruments emit.
pub open spec fn is_space(c: char) -> bool {
    c == ' ' || c == '\t' || c == '\r' || c == '\n'
}

pub open spec fn trim_front(s: Seq<char>) -> Seq<char>
    decreases s.len(),
{
    if s.len() > 0 && is_space(s[0]) {
        trim_front(s.drop_first())
    } else {
        s
    }
}

pub open spec fn trim_back(s: Seq<char>) -> Seq<char>
    decreases s.len(),
{
    if s.len() > 0 && is_space(s[s.len() - 1]) {
        trim_back(s.drop_last())
    } else {
        s
    }
}

/// `s` with ASCII whitespace removed from both ends.
pub open spec fn spec_trim(s: Seq<char>) -> Seq<char> {
    trim_back(trim_front(s))
}

proof fn lemma_trim_front_skip(s: Seq<char>, a: int)
    requires
        0 <= a <= s.len(),
        forall|j: int| 0 <= j < a ==> is_space(s[j]),
        a == s.len() || !is_space(s[a]),
    ensures
        trim_front(s) == s.skip(a),
    decreases a,
{
    if a == 0 {
        assert(s.skip(0) =~= s);
    } else {
        lemma_trim_front_skip(s.drop_first(), a - 1);
        assert(s.drop_first().skip(a - 1) =~= s.skip(a));
    }
}

proof fn lemma_trim_back_take(s: Seq<char>, b: int)
    requires
        0 <= b <= s.len(),
        forall|j: int| b <= j < s.len() ==> is_space(s[j]),
        b == 0 || !is_space(s[b - 1]),
    ensures
        trim_back(s) == s.take(b),
    decreases s.len() - b,
{
    if b == s.len() {
        if s.len() > 0 && is_space(s[s.len() - 1]) {
            lemma_trim_back_take(s.drop_last(), b - 1);
            assert(s.drop_last().take(b - 1) =~= s.take(b - 1));
            assert(b == 0 || !is_space(s[b - 1]));
            assert(false);
        } else {
            assert(s.take(b) =~= s);
        }
    } else {
        assert(is_space(s[s.len() - 1]));
        lemma_trim_back_take(s.drop_last(), b);
        assert(s.drop_last().take(b) =~= s.take(b));
    }
}

/// `s` with ASCII whitespace removed from both ends, as a borrowed slice of
/// the input.
pub fn trim_str<'a>(s: &'a str) -> (r: &'a str)
    ensures
        r@ == spec_trim(s@),
{
    let n = s.unicode_len();
    let mut a: usize = 0;
    while a < n && is_space_char(s.get_char(a))
        invariant
            0 <= a <= n,
            n == s@.len(),
            forall|j: int| 0 <= j < a ==> is_space(s@[j]),
        decreases n - a,
    {
        a = a + 1;
    }
    let mut b: usize = n;
    while b > a && is_space_char(s.get_char(b - 1))
        invariant
            a <= b <= n,
            n == s@.len(),
            forall|j: int| 0 <= j < a ==> is_space(s@[j]),
            a == n || !is_space(s@[a as int]),
            forall|j: int| b <= j < n ==> is_space(s@[j]),
        decreases b,
    {
        b = b - 1;
    }
    proof {
        lemma_trim_front_skip(s@, a as int);
        if b == a {
            lemma_trim_back_take(s@.skip(a as int), 0);
        } else {
            lemma_trim_back_take(s@.skip(a as int), b - a);
        }
        assert(s@.skip(a as int).take(b - a) =~= s@.subrange(a as int, b as int));
    }
    s.substring_char(a, b)
}

fn is_space_char(c: char) -> (r: bool)
    ensures
        r == is_space(c),
{
    c == ' ' || c == '\t' || c == '\r' || c == '\n'
}

/// The comma-separated fields of `s`, in order; an empty input has one empty
/// field, and every comma separates two fields.
pub open spec fn spec_split(s: Seq<char>) -> Seq<Seq<char>>
    decreases s.len(),
{
    if s.len() == 0 {
        seq![Seq::<char>::empty()]
    } else if s[0] == ',' {
        seq![Seq::<char>::empty()] + spec_split(s.drop_first())
    } else {
        let rest = spec_split(s.drop_first());
        seq![seq![s[0]] + rest[0]] + rest.drop_first()
    }
}

pub proof fn lemma_split_nonempty(s: Seq<char>)
    ensures
        spec_split(s).len() >= 1,
    decreases s.len(),
{
    if s.len() > 0 {
        lemma_split_nonempty(s.drop_first());
    }
}

/// Splitting a string with no commas yields that string as the only field.
pub proof fn lemma_split_no_comma(s: Seq<char>)
    requires
        forall|j: int| 0 <= j < s.len() ==> s[j] != ',',
    ensures
        spec_split(s) == seq![s],
    decreases s.len(),
{
    if s.len() == 0 {
        assert(spec_split(s) =~~= seq![s]);
    } else {
        lemma_split_no_comma(s.drop_first());
        lemma_split_nonempty(s.drop_first());
        assert(seq![s[0]] + s.drop_first() =~= s);
        assert(spec_split(s) =~~= seq![s]);
    }
}

/// Splitting at the first comma: the text before it is the first field and
/// the rest of the fields come from the text after it.
pub proof fn lemma_split_at_comma(s: Seq<char>, i: int)
    requires
        0 <= i < s.len(),
        s[i] == ',',
        forall|j: int| 0 <= j < i ==> s[j] != ',',
    ensures
        spec_split(s) == seq![s.take(i)] + spec_split(s.skip(i + 1)),
    decreases i,
{
    if i == 0 {
        assert(s.take(0) =~= Seq::<char>::empty());
        assert(s.skip(1) =~= s.drop_first());
        assert(spec_split(s) =~~= seq![s.take(0)] + spec_split(s.skip(1)));
    } else {
        lemma_split_at_comma(s.drop_first(), i - 1);
        lemma_split_nonempty(s.drop_first());
        assert(s.drop_first().take(i - 1) =~= s.take(i).drop_first());
        assert(seq![s[0]] + s.take(i).drop_first() =~= s.take(i));
        assert(s.drop_first().skip(i) =~= s.skip(i + 1));
        assert(spec_split(s) =~~= seq![s.take(i)] + spec_split(s.skip(i + 1)));
    }
}

/// The laser driver reports an empty error queue with a response whose first
/// character is `'0'`.
pub open spec fn spec_cld_queue_empty(s: Seq<char>) -> bool {
    s.len() >= 1 && s[0] == '0'
}

pub fn cld_queue_empty(s: &str) -> (r: bool)
    ensures
        r == spec_cld_queue_empty(s@),
{
    s.unicode_len() >= 1 && s.get_char(0) == '0'
}

/// The text `"no error"` read case-insensitively at position `i` of `s`.
pub open spec fn matches_no_error_at(s: Seq<char>, i: int) -> bool {
    &&& 0 <= i
    &&& i + 8 <= s.len()
    &&& (s[i] == 'n' || s[i] == 'N')
    &&& (s[i + 1] == 'o' || s[i + 1] == 'O')
    &&& s[i + 2] == ' '
    &&& (s[i + 3] == 'e' || s[i + 3] == 'E')
    &&& (s[i + 4] == 'r' || s[i + 4] == 'R')
    &&& (s[i + 5] == 'r' || s[i + 5] == 'R')
    &&& (s[i + 6] == 'o' || s[i + 6] == 'O')
    &&& (s[i + 7] == 'r' || s[i + 7] == 'R')
}

pub open spec fn contains_no_error(s: Seq<char>) -> bool {
    exists|i: int| matches_no_error_at(s, i)
}

fn no_error_at(s: &str, i: usize) -> (r: bool)
    requires
        i + 8 <= s@.len(),
        s@.len() <= usize::MAX,
    ensures
        r == matches_no_error_at(s@, i as int),
{
    let c0 = s.get_char(i);
    let c1 = s.get_char(i + 1);
    let c2 = s.get_char(i + 2);
    let c3 = s.get_char(i + 3);
    let c4 = s.get_char(i + 4);
    let c5 = s.get_char(i + 5);
    let c6 = s.get_char(i + 6);
    let c7 = s.get_char(i + 7);
    (c0 == 'n' || c0 == 'N') && (c1 == 'o' || c1 == 'O') && c2 == ' ' && (c3 == 'e' || c3 == 'E')
        && (c4 == 'r' || c4 == 'R') && (c5 == 'r' || c5 == 'R') && (c6 == 'o' || c6 == 'O') && (c7
        == 'r' || c7 == 'R')
}

/// The power meter reports an empty error queue either with a response that
/// starts (after trimming) with `'0'` or with one that contains `"no error"`
/// in any letter case.
pub open spec fn spec_mpm_queue_empty(s: Seq<char>) -> bool {
    spec_cld_queue_empty(spec_trim(s)) || contains_no_error(s)
}

pub fn mpm_queue_empty(s: &str) -> (r: bool)
    ensures
        r == spec_mpm_queue_empty(s@),
{
    let t = trim_str(s);
    if t.unicode_len() >= 1 && t.get_char(0) == '0' {
        return true;
    }
    let n = s.unicode_len();
    if n < 8 {
        assert(forall|i: int| !matches_no_error_at(s@, i));
        return false;
    }
    let mut i: usize = 0;
    while i <= n - 8
        invariant
            8 <= n == s@.len(),
            0 <= i <= n - 8 + 1,
            forall|j: int| 0 <= j < i ==> !matches_no_error_at(s@, j),
            !spec_cld_queue_empty(spec_trim(s@)),
        decreases n - i,
    {
        if no_error_at(s, i) {
            return true;
        }
        i = i + 1;
    }
    assert(forall|j: int| !matches_no_error_at(s@, j));
    false
}

/// A response that reads `ON` in any letter case, or `1`: how both laser
/// driver output queries report the enabled state.
pub open spec fn spec_on_off(s: Seq<char>) -> bool {
    ||| (s.len() == 2 && (s[0] == 'O' || s[0] == 'o') && (s[1] == 'N' || s[1] == 'n'))
    ||| (s.len() == 1 && s[0] == '1')
}

pub fn parse_on_off(s: &str) -> (r: bool)
    ensures
        r == spec_on_off(s@),
{
    let n = s.unicode_len();
    if n == 2 {
        let c0 = s.get_char(0);
        let c1 = s.get_char(1);
        (c0 == 'O' || c0 == 'o') && (c1 == 'N' || c1 == 'n')
    } else if n == 1 {
        s.get_char(0) == '1'
    } else {
        false
    }
}

} // verus!
