//! Shared character and string helpers: digit predicates, decimal
//! rendering, and appending single characters to a `String`.

use vstd::prelude::*;

verus! {

/// Relies on `String::push` from std: it appends the given character to the
/// end of the string.
pub assume_specification[ String::push ](s: &mut String, c: char)
    ensures
        final(s)@ == old(s)@.push(c),
;

pub open spec fn is_digit_char(c: char) -> bool {
    48 <= c as u32 <= 57
}

pub open spec fn digit_val(c: char) -> int {
    c as u32 - 48
}

/// `s` is the plain decimal rendering of `n`, without leading zeros.
pub open spec fn dec_repr(n: nat, s: Seq<char>) -> bool
    decreases n,
{
    if n < 10 {
        s.len() == 1 && is_digit_char(s[0]) && digit_val(s[0]) == n
    } else {
        s.len() >= 2 && is_digit_char(s.last()) && digit_val(s.last()) == n % 10 && dec_repr(
            n / 10,
            s.drop_last(),
        )
    }
}

fn push_digit(s: &mut String, d: u32)
    requires
        d < 10,
    ensures
        final(s)@ == old(s)@.push(((48 + d) as u8) as char),
        is_digit_char(((48 + d) as u8) as char),
        digit_val(((48 + d) as u8) as char) == d as int,
{
    let c: char = ((48 + d) as u8) as char;
    s.push(c);
}

pub fn u32_to_string(n: u32) -> (r: String)
    ensures
        dec_repr(n as nat, r@),
    decreases n,
{
    if n < 10 {
        let mut s = String::new();
        push_digit(&mut s, n);
        s
    } else {
        let mut s = u32_to_string(n / 10);
        let ghost prefix = s@;
        push_digit(&mut s, n % 10);
        proof {
            assert(s@.drop_last() =~= prefix);
        }
        s
    }
}

pub open spec fn is_space_char(c: char) -> bool {
    c == ' ' || c == '\t' || c == '\n' || c == '\r'
}

/// The sequence with leading and trailing whitespace removed.
pub open spec fn trimmed(s: Seq<char>) -> Seq<char>
    decreases s.len(),
{
    if s.len() == 0 {
        s
    } else if is_space_char(s[0]) {
        trimmed(s.drop_first())
    } else if is_space_char(s.last()) {
        trimmed(s.drop_last())
    } else {
        s
    }
}

proof fn lemma_trimmed_all_space(s: Seq<char>)
    requires
        forall|k: int| 0 <= k < s.len() ==> is_space_char(#[trigger] s[k]),
    ensures
        trimmed(s).len() == 0,
    decreases s.len(),
{
    if s.len() > 0 {
        lemma_trimmed_all_space(s.drop_first());
    }
}

proof fn lemma_trimmed_subrange(s: Seq<char>, a: int, b: int)
    requires
        0 <= a <= b < s.len(),
        !is_space_char(s[a]),
        !is_space_char(s[b]),
        forall|k: int| 0 <= k < a ==> is_space_char(#[trigger] s[k]),
        forall|k: int| b < k < s.len() ==> is_space_char(#[trigger] s[k]),
    ensures
        trimmed(s) == s.subrange(a, b + 1),
    decreases s.len(),
{
    if a > 0 {
        lemma_trimmed_subrange(s.drop_first(), a - 1, b - 1);
        assert(s.drop_first().subrange(a - 1, b) =~= s.subrange(a, b + 1));
    } else if b < s.len() - 1 {
        lemma_trimmed_subrange(s.drop_last(), a, b);
        assert(s.drop_last().subrange(a, b + 1) =~= s.subrange(a, b + 1));
    } else {
        assert(s.subrange(0, s.len() as int) =~= s);
    }
}

fn exec_is_space(c: char) -> (r: bool)
    ensures
        r == is_space_char(c),
{
    c == ' ' || c == '\t' || c == '\n' || c == '\r'
}

fn first_non_space(s: &str) -> (r: usize)
    ensures
        0 <= r <= s@.len(),
        forall|k: int| 0 <= k < r ==> is_space_char(#[trigger] s@[k]),
        r < s@.len() ==> !is_space_char(s@[r as int]),
{
    let n = s.unicode_len();
    let mut a: usize = 0;
    while a < n
        invariant
            n == s@.len(),
            0 <= a <= n,
            forall|k: int| 0 <= k < a ==> is_space_char(#[trigger] s@[k]),
        decreases n - a,
    {
        if !exec_is_space(s.get_char(a)) {
            return a;
        }
        a = a + 1;
    }
    a
}

fn last_non_space(s: &str, a: usize) -> (r: usize)
    requires
        a < s@.len(),
        !is_space_char(s@[a as int]),
    ensures
        a <= r < s@.len(),
        !is_space_char(s@[r as int]),
        forall|k: int| r < k < s@.len() ==> is_space_char(#[trigger] s@[k]),
{
    let n = s.unicode_len();
    let mut b: usize = n - 1;
    while b > a
        invariant
            n == s@.len(),
            a <= b < n,
            forall|k: int| b < k < n ==> is_space_char(#[trigger] s@[k]),
        decreases b,
    {
        if !exec_is_space(s.get_char(b)) {
            return b;
        }
        b = b - 1;
    }
    a
}

/// A copy of the text with leading and trailing whitespace removed.
pub fn trim_str(s: &str) -> (r: String)
    ensures
        r@ == trimmed(s@),
{
    let n = s.unicode_len();
    let a = first_non_space(s);
    if a == n {
        proof {
            lemma_trimmed_all_space(s@);
        }
        return String::new();
    }
    let b = last_non_space(s, a);
    proof {
        lemma_trimmed_subrange(s@, a as int, b as int);
    }
    String::from_str(s.substring_char(a, b + 1))
}

/// Lexicographic order on character sequences, by code point, with a prefix
/// ordered before its extensions.
pub open spec fn lex_le(a: Seq<char>, b: Seq<char>) -> bool
    decreases a.len(),
{
    if a.len() == 0 {
        true
    } else if b.len() == 0 {
        false
    } else if (a[0] as u32) < (b[0] as u32) {
        true
    } else if (a[0] as u32) > (b[0] as u32) {
        false
    } else {
        lex_le(a.drop_first(), b.drop_first())
    }
}

/// Any two character sequences are comparable under `lex_le`.
pub proof fn lemma_lex_connex(a: Seq<char>, b: Seq<char>)
    ensures
        lex_le(a, b) || lex_le(b, a),
    decreases a.len(),
{
    if a.len() != 0 && b.len() != 0 && (a[0] as u32) == (b[0] as u32) {
        lemma_lex_connex(a.drop_first(), b.drop_first());
    }
}

proof fn lemma_lex_skip_step(a: Seq<char>, b: Seq<char>, i: int)
    requires
        0 <= i < a.len(),
        0 <= i < b.len(),
        (a[i] as u32) == (b[i] as u32),
    ensures
        lex_le(a.skip(i), b.skip(i)) == lex_le(a.skip(i + 1), b.skip(i + 1)),
{
    assert(a.skip(i).drop_first() =~= a.skip(i + 1));
    assert(b.skip(i).drop_first() =~= b.skip(i + 1));
}

pub fn str_le(a: &str, b: &str) -> (r: bool)
    ensures
        r == lex_le(a@, b@),
{
    let la = a.unicode_len();
    let lb = b.unicode_len();
    let mut i: usize = 0;
    proof {
        assert(a@.skip(0) =~= a@);
        assert(b@.skip(0) =~= b@);
    }
    while i < la && i < lb
        invariant
            la == a@.len(),
            lb == b@.len(),
            0 <= i <= la,
            0 <= i <= lb,
            lex_le(a@, b@) == lex_le(a@.skip(i as int), b@.skip(i as int)),
        decreases la - i,
    {
        let ca = a.get_char(i);
        let cb = b.get_char(i);
        if (ca as u32) < (cb as u32) {
            return true;
        }
        if (ca as u32) > (cb as u32) {
            return false;
        }
        proof {
            lemma_lex_skip_step(a@, b@, i as int);
        }
        i = i + 1;
    }
    if i == la {
        proof {
            assert(a@.skip(i as int) =~= Seq::<char>::empty());
        }
        true
    } else {
        proof {
            assert(b@.skip(i as int) =~= Seq::<char>::empty());
            assert(a@.skip(i as int).len() > 0);
        }
        false
    }
}

} // verus!
