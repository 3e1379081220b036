//! Character-level string helpers shared by the runtime's modules.
//!
//! All functions here work on the `Seq<char>` view of a string and state
//! their result exactly over it.
use vstd::prelude::*;
use vstd::string::*;

verus! {

/// `i` is the position of the first occurrence of `c` in `s`.
pub open spec fn first_index_at(s: Seq<char>, c: char, i: int) -> bool {
    &&& 0 <= i < s.len()
    &&& s[i] == c
    &&& forall|j: int| 0 <= j < i ==> s[j] != c
}

/// `i` is the position of the last occurrence of `c` in `s`.
pub open spec fn last_index_at(s: Seq<char>, c: char, i: int) -> bool {
    &&& 0 <= i < s.len()
    &&& s[i] == c
    &&& forall|j: int| i < j < s.len() ==> s[j] != c
}

/// `c` does not occur in `s`.
pub open spec fn lacks(s: Seq<char>, c: char) -> bool {
    forall|j: int| 0 <= j < s.len() ==> s[j] != c
}

/// The prefix of `s` before the first occurrence of `c`, or all of `s`
/// when `c` does not occur.
pub open spec fn before_first(s: Seq<char>, c: char) -> Seq<char> {
    if lacks(s, c) {
        s
    } else {
        s.take(choose|i: int| first_index_at(s, c, i))
    }
}

/// The suffix of `s` after the last occurrence of `c`, or all of `s`
/// when `c` does not occur.
pub open spec fn after_last(s: Seq<char>, c: char) -> Seq<char> {
    if lacks(s, c) {
        s
    } else {
        s.skip((choose|i: int| last_index_at(s, c, i)) + 1)
    }
}

/// `s` with every leading `c` removed.
pub open spec fn trim_leading(s: Seq<char>, c: char) -> Seq<char> {
    s.skip(leading_count(s, c))
}

/// The number of leading characters of `s` equal to `c`.
pub open spec fn leading_count(s: Seq<char>, c: char) -> int {
    if forall|j: int| 0 <= j < s.len() ==> s[j] == c {
        s.len() as int
    } else {
        choose|i: int|
            0 <= i < s.len() && s[i] != c && forall|j: int| 0 <= j < i ==> s[j] == c
    }
}

/// Whether `a` is a prefix of `b`.
pub open spec fn starts_with(b: Seq<char>, a: Seq<char>) -> bool {
    a.len() <= b.len() && b.take(a.len() as int) == a
}

/// If some character of `s` differs from `c`, there is a first such character.
pub proof fn lemma_first_other_exists(s: Seq<char>, c: char, w: int)
    requires
        0 <= w < s.len(),
        s[w] != c,
    ensures
        exists|i: int| 0 <= i < s.len() && s[i] != c && forall|j: int| 0 <= j < i ==> s[j] == c,
    decreases w,
{
    if exists|j: int| 0 <= j < w && s[j] != c {
        let j = choose|j: int| 0 <= j < w && s[j] != c;
        lemma_first_other_exists(s, c, j);
    } else {
        assert(forall|j: int| 0 <= j < w ==> s[j] == c);
    }
}

/// The first occurrence of a character is unique.
pub proof fn lemma_first_index_unique(s: Seq<char>, c: char, i: int, k: int)
    requires
        first_index_at(s, c, i),
        first_index_at(s, c, k),
    ensures
        i == k,
{
    if i < k {
        assert(s[i] != c);
    } else if k < i {
        assert(s[k] != c);
    }
}

/// The last occurrence of a character is unique.
pub proof fn lemma_last_index_unique(s: Seq<char>, c: char, i: int, k: int)
    requires
        last_index_at(s, c, i),
        last_index_at(s, c, k),
    ensures
        i == k,
{
    if i < k {
        assert(s[k] != c);
    } else if k < i {
        assert(s[i] != c);
    }
}

/// `String::push` (std): appends the character `ch` to the end of the string,
/// as its documentation states.
pub assume_specification[ String::push ](s: &mut String, ch: char)
    ensures
        final(s)@ == old(s)@.push(ch),
;

/// Two string slices hold the same characters.
pub fn str_eq(a: &str, b: &str) -> (r: bool)
    ensures
        r == (a@ == b@),
{
    let n = a.unicode_len();
    if n != b.unicode_len() {
        return false;
    }
    let mut i: usize = 0;
    while i < n
        invariant
            n == a@.len(),
            n == b@.len(),
            i <= n,
            forall|j: int| 0 <= j < i ==> a@[j] == b@[j],
        decreases n - i,
    {
        if a.get_char(i) != b.get_char(i) {
            return false;
        }
        i = i + 1;
    }
    assert(a@ =~= b@);
    true
}

/// The position of the first occurrence of `c` in `s`, if any.
pub fn find_first(s: &str, c: char) -> (r: Option<usize>)
    ensures
        r matches Some(i) ==> first_index_at(s@, c, i as int),
        r is None ==> lacks(s@, c),
{
    let n = s.unicode_len();
    let mut i: usize = 0;
    while i < n
        invariant
            n == s@.len(),
            i <= n,
            forall|j: int| 0 <= j < i ==> s@[j] != c,
        decreases n - i,
    {
        if s.get_char(i) == c {
            return Some(i);
        }
        i = i + 1;
    }
    None
}

/// The position of the last occurrence of `c` in `s`, if any.
pub fn find_last(s: &str, c: char) -> (r: Option<usize>)
    ensures
        r matches Some(i) ==> last_index_at(s@, c, i as int),
        r is None ==> lacks(s@, c),
{
    let n = s.unicode_len();
    let mut i: usize = n;
    while i > 0
        invariant
            n == s@.len(),
            i <= n,
            forall|j: int| i <= j < n ==> s@[j] != c,
        decreases i,
    {
        if s.get_char(i - 1) == c {
            return Some(i - 1);
        }
        i = i - 1;
    }
    None
}

/// The prefix of `s` before the first `c` (all of `s` when there is none).
pub fn prefix_before_first<'a>(s: &'a str, c: char) -> (r: &'a str)
    ensures
        r@ == before_first(s@, c),
{
    match find_first(s, c) {
        Some(i) => {
            proof {
                let k = choose|k: int| first_index_at(s@, c, k);
                lemma_first_index_unique(s@, c, i as int, k);
            }
            s.substring_char(0, i)
        },
        None => s,
    }
}

/// The suffix of `s` after the last `c` (all of `s` when there is none).
pub fn suffix_after_last<'a>(s: &'a str, c: char) -> (r: &'a str)
    ensures
        r@ == after_last(s@, c),
{
    match find_last(s, c) {
        Some(i) => {
            proof {
                let k = choose|k: int| last_index_at(s@, c, k);
                lemma_last_index_unique(s@, c, i as int, k);
            }
            let n = s.unicode_len();
            s.substring_char(i + 1, n)
        },
        None => s,
    }
}

/// `s` without its leading occurrences of `c`.
pub fn trim_start_char<'a>(s: &'a str, c: char) -> (r: &'a str)
    ensures
        r@ == trim_leading(s@, c),
{
    let n = s.unicode_len();
    let mut i: usize = 0;
    while i < n
        invariant
            n == s@.len(),
            i <= n,
            forall|j: int| 0 <= j < i ==> s@[j] == c,
        decreases n - i,
    {
        if s.get_char(i) != c {
            proof {
                let k = choose|k: int|
                    0 <= k < s@.len() && s@[k] != c && forall|j: int| 0 <= j < k ==> s@[j] == c;
                if k < i {
                    assert(s@[k] == c);
                }
                if i < k as int {
                    assert(s@[i as int] == c);
                }
            }
            return s.substring_char(i, n);
        }
        i = i + 1;
    }
    s.substring_char(n, n)
}

/// Whether `s` begins with `prefix`.
pub fn has_prefix(s: &str, prefix: &str) -> (r: bool)
    ensures
        r == starts_with(s@, prefix@),
{
    let n = prefix.unicode_len();
    if n > s.unicode_len() {
        return false;
    }
    let head = s.substring_char(0, n);
    str_eq(head, prefix)
}

/// The decimal digit for `d` (below ten).
pub open spec fn digit_char(d: nat) -> char {
    if d == 0 {
        '0'
    } else if d == 1 {
        '1'
    } else if d == 2 {
        '2'
    } else if d == 3 {
        '3'
    } else if d == 4 {
        '4'
    } else if d == 5 {
        '5'
    } else if d == 6 {
        '6'
    } else if d == 7 {
        '7'
    } else if d == 8 {
        '8'
    } else {
        '9'
    }
}

/// The decimal representation of `n`, without leading zeros.
pub open spec fn decimal(n: nat) -> Seq<char>
    decreases n,
{
    if n < 10 {
        seq![digit_char(n)]
    } else {
        decimal(n / 10).push(digit_char(n % 10))
    }
}

fn digit(d: usize) -> (r: char)
    requires
        d < 10,
    ensures
        r == digit_char(d as nat),
{
    if d == 0 {
        '0'
    } else if d == 1 {
        '1'
    } else if d == 2 {
        '2'
    } else if d == 3 {
        '3'
    } else if d == 4 {
        '4'
    } else if d == 5 {
        '5'
    } else if d == 6 {
        '6'
    } else if d == 7 {
        '7'
    } else if d == 8 {
        '8'
    } else {
        '9'
    }
}

/// Append the decimal representation of `n` to `out`.
pub fn push_decimal(out: &mut String, n: usize)
    ensures
        final(out)@ == old(out)@ + decimal(n as nat),
    decreases n,
{
    if n >= 10 {
        push_decimal(out, n / 10);
    }
    out.push(digit(n % 10));
    assert(out@ =~= old(out)@ + decimal(n as nat));
}

} // verus!
