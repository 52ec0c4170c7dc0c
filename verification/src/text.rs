//! Small verified text helpers: decimal rendering of numbers, cutting a text
//! at a character, and removal of a prefix.

use vstd::prelude::*;
use vstd::string::*;

verus! {

/// The character that writes the digit `d` (taken modulo ten).
pub open spec fn digit_char(d: nat) -> char {
    let r = d % 10;
    if r == 0 {
        '0'
    } else if r == 1 {
        '1'
    } else if r == 2 {
        '2'
    } else if r == 3 {
        '3'
    } else if r == 4 {
        '4'
    } else if r == 5 {
        '5'
    } else if r == 6 {
        '6'
    } else if r == 7 {
        '7'
    } else if r == 8 {
        '8'
    } else {
        '9'
    }
}

/// The decimal numeral of `n`: no sign, no leading zero, `"0"` for zero.
pub open spec fn decimal(n: nat) -> Seq<char>
    decreases n,
{
    if n < 10 {
        seq![digit_char(n)]
    } else {
        decimal(n / 10).push(digit_char(n % 10))
    }
}

fn digit_str(d: u64) -> (s: &'static str)
    requires
        d < 10,
    ensures
        s@ == seq![digit_char(d as nat)],
{
    proof {
        reveal_strlit("0");
        reveal_strlit("1");
        reveal_strlit("2");
        reveal_strlit("3");
        reveal_strlit("4");
        reveal_strlit("5");
        reveal_strlit("6");
        reveal_strlit("7");
        reveal_strlit("8");
        reveal_strlit("9");
    }
    let s = if d == 0 {
        "0"
    } else if d == 1 {
        "1"
    } else if d == 2 {
        "2"
    } else if d == 3 {
        "3"
    } else if d == 4 {
        "4"
    } else if d == 5 {
        "5"
    } else if d == 6 {
        "6"
    } else if d == 7 {
        "7"
    } else if d == 8 {
        "8"
    } else {
        "9"
    };
    assert(s@ =~= seq![digit_char(d as nat)]);
    s
}

/// Renders `n` as its decimal numeral.
pub fn decimal_string(n: u64) -> (s: String)
    ensures
        s@ == decimal(n as nat),
    decreases n,
{
    if n < 10 {
        String::from_str(digit_str(n))
    } else {
        let mut s = decimal_string(n / 10);
        s.append(digit_str(n % 10));
        assert(s@ =~= decimal(n as nat));
        s
    }
}

/// The position of the last `c` in `s`, or `-1` where `s` holds none.
pub open spec fn last_index_of(s: Seq<char>, c: char) -> int
    decreases s.len(),
{
    if s.len() == 0 {
        -1
    } else if s.last() == c {
        s.len() - 1
    } else {
        last_index_of(s.drop_last(), c)
    }
}

/// `last_index_of` finds an occurrence, and nothing after it is `c`.
pub proof fn lemma_last_index_of(s: Seq<char>, c: char)
    ensures
        -1 <= last_index_of(s, c) < s.len(),
        last_index_of(s, c) >= 0 ==> s[last_index_of(s, c)] == c,
        forall|j: int| last_index_of(s, c) < j < s.len() ==> s[j] != c,
    decreases s.len(),
{
    if s.len() > 0 && s.last() != c {
        let t = s.drop_last();
        lemma_last_index_of(t, c);
        assert forall|j: int| last_index_of(s, c) < j < s.len() implies s[j] != c by {
            if j < t.len() {
                assert(t[j] == s[j]);
            }
        }
    }
}

/// A position that holds `c` and has no `c` after it is the last one.
pub proof fn lemma_last_index_of_is(s: Seq<char>, c: char, i: int)
    requires
        0 <= i < s.len(),
        s[i] == c,
        forall|j: int| i < j < s.len() ==> s[j] != c,
    ensures
        last_index_of(s, c) == i,
{
    lemma_last_index_of(s, c);
}

/// `s` cut at its last `c`: what stands before it and what stands after it.
/// `None` where `s` holds no `c`.
pub open spec fn split_at_last(s: Seq<char>, c: char) -> Option<(Seq<char>, Seq<char>)> {
    let i = last_index_of(s, c);
    if i < 0 {
        None
    } else {
        Some((s.subrange(0, i), s.subrange(i + 1, s.len() as int)))
    }
}

/// Cuts `s` at its last `c`.
pub fn rsplit_once_char(s: &str, c: char) -> (parts: Option<(&str, &str)>)
    ensures
        match parts {
            Some((head, tail)) => split_at_last(s@, c) == Some((head@, tail@)),
            None => split_at_last(s@, c) is None,
        },
{
    let n: usize = s.unicode_len();
    let mut i: usize = n;
    while i > 0
        invariant
            i <= n,
            n == s@.len(),
            forall|j: int| i <= j < n ==> s@[j] != c,
        decreases i,
    {
        if s.get_char(i - 1) == c {
            proof {
                lemma_last_index_of_is(s@, c, i - 1);
            }
            let head = s.substring_char(0, i - 1);
            let tail = s.substring_char(i, n);
            return Some((head, tail));
        }
        i = i - 1;
    }
    proof {
        lemma_last_index_of(s@, c);
    }
    None
}

/// `s` without `marker` at its start: one copy is removed where `s` begins
/// with it, and `s` is kept as it is where it does not.
pub open spec fn without_prefix(s: Seq<char>, marker: Seq<char>) -> Seq<char> {
    if marker.is_prefix_of(s) {
        s.skip(marker.len() as int)
    } else {
        s
    }
}

fn starts_with(s: &str, len: usize, marker: &str, marker_len: usize) -> (found: bool)
    requires
        len == s@.len(),
        marker_len == marker@.len(),
    ensures
        found == marker@.is_prefix_of(s@),
{
    if marker_len > len {
        return false;
    }
    let mut k: usize = 0;
    while k < marker_len
        invariant
            k <= marker_len,
            marker_len <= len,
            len == s@.len(),
            marker_len == marker@.len(),
            forall|j: int| 0 <= j < k ==> s@[j] == marker@[j],
        decreases marker_len - k,
    {
        if s.get_char(k) != marker.get_char(k) {
            assert(s@.subrange(0, marker_len as int)[k as int] != marker@[k as int]);
            return false;
        }
        k = k + 1;
    }
    assert(s@.subrange(0, marker_len as int) =~= marker@);
    true
}

/// Removes `marker` from the start of `s`, once, where `s` begins with it.
pub fn strip_prefix<'a>(s: &'a str, marker: &str) -> (rest: &'a str)
    ensures
        rest@ == without_prefix(s@, marker@),
{
    let len: usize = s.unicode_len();
    let marker_len: usize = marker.unicode_len();
    if starts_with(s, len, marker, marker_len) {
        assert(s@.subrange(marker_len as int, len as int) =~= s@.skip(marker_len as int));
        s.substring_char(marker_len, len)
    } else {
        s
    }
}

} // verus!
