//! Client-side validators: the national-id format, the two email checks,
//! and automatic national-id formatting.

use vstd::prelude::*;
use crate::text::{is_digit_char, digit_val};

verus! {

/// The check character closing a national id: a digit or the letter K.
pub open spec fn is_check_char(c: char) -> bool {
    is_digit_char(c) || c == 'K' || c == 'k'
}

/// The national-id format: seven or eight digits, a literal dash, then one
/// digit or the letter K, upper or lower case.
pub open spec fn valid_rut(s: Seq<char>) -> bool {
    &&& 9 <= s.len() <= 10
    &&& forall|i: int| 0 <= i < s.len() - 2 ==> is_digit_char(#[trigger] s[i])
    &&& s[s.len() - 2] == '-'
    &&& is_check_char(s[s.len() - 1])
}

fn exec_is_digit(c: char) -> (r: bool)
    ensures
        r == is_digit_char(c),
{
    48 <= c as u32 && c as u32 <= 57
}

/// Accepts exactly the strings in the national-id format.
pub fn validate_rut(rut: &str) -> (r: bool)
    ensures
        r == valid_rut(rut@),
{
    let n = rut.unicode_len();
    if n < 9 || n > 10 {
        return false;
    }
    let mut i: usize = 0;
    while i < n - 2
        invariant
            n == rut@.len(),
            9 <= n <= 10,
            0 <= i <= n - 2,
            forall|k: int| 0 <= k < i ==> is_digit_char(#[trigger] rut@[k]),
        decreases n - 2 - i,
    {
        if !exec_is_digit(rut.get_char(i)) {
            return false;
        }
        i = i + 1;
    }
    if rut.get_char(n - 2) != '-' {
        return false;
    }
    let last = rut.get_char(n - 1);
    exec_is_digit(last) || last == 'K' || last == 'k'
}

/// Accepts exactly the strings in the national-id format. The insertion form
/// applies this check before it builds a person record.
pub fn validate_rut_format(rut: &str) -> (r: bool)
    ensures
        r == valid_rut(rut@),
{
    validate_rut(rut)
}

pub open spec fn is_alpha_char(c: char) -> bool {
    (65 <= c as u32 <= 90) || (97 <= c as u32 <= 122)
}

/// A character allowed before the `@` of an email address.
pub open spec fn is_local_char(c: char) -> bool {
    is_alpha_char(c) || is_digit_char(c) || c == '.' || c == '_' || c == '%' || c == '+' || c
        == '-'
}

/// A character allowed between the `@` and the final dot.
pub open spec fn is_domain_char(c: char) -> bool {
    is_alpha_char(c) || is_digit_char(c) || c == '.' || c == '-'
}

/// `s` splits as an email at `i` and `j`: a non-empty local part, the `@`,
/// a non-empty domain part, and a final dot followed by at least two
/// letters.
pub open spec fn email_split(s: Seq<char>, i: int, j: int) -> bool {
    &&& 1 <= i
    &&& i + 2 <= j
    &&& j + 3 <= s.len()
    &&& s[i] == '@'
    &&& s[j] == '.'
    &&& forall|k: int| 0 <= k < i ==> is_local_char(#[trigger] s[k])
    &&& forall|k: int| i < k < j ==> is_domain_char(#[trigger] s[k])
    &&& forall|k: int| j < k < s.len() ==> is_alpha_char(#[trigger] s[k])
}

pub open spec fn valid_email(s: Seq<char>) -> bool {
    exists|i: int, j: int| email_split(s, i, j)
}

/// The split positions are forced: the `@` must sit right after the local
/// prefix, and the dot must be the last one in the string.
proof fn lemma_forced_split(s: Seq<char>, i: int, j: int)
    requires
        valid_email(s),
        0 <= i < s.len(),
        s[i] == '@',
        forall|k: int| 0 <= k < i ==> is_local_char(#[trigger] s[k]),
        i < j < s.len(),
        s[j] == '.',
        forall|m: int| j < m < s.len() ==> #[trigger] s[m] != '.',
    ensures
        email_split(s, i, j),
{
    let (i0, j0): (int, int) = choose|i0: int, j0: int| email_split(s, i0, j0);
    assert(!is_local_char('@'));
    assert(!is_alpha_char('.'));
    if i0 < i {
        assert(is_local_char(s[i0]));
        assert(false);
    }
    if i0 > i {
        assert(is_local_char(s[i as int]));
        assert(false);
    }
    if j0 < j {
        assert(is_alpha_char(s[j]));
        assert(false);
    }
    if j0 > j {
        assert(s[j0] != '.');
        assert(false);
    }
}

fn exec_is_alpha(c: char) -> (r: bool)
    ensures
        r == is_alpha_char(c),
{
    (65 <= c as u32 && c as u32 <= 90) || (97 <= c as u32 && c as u32 <= 122)
}

fn exec_is_local(c: char) -> (r: bool)
    ensures
        r == is_local_char(c),
{
    exec_is_alpha(c) || exec_is_digit(c) || c == '.' || c == '_' || c == '%' || c == '+' || c == '-'
}

fn exec_is_domain(c: char) -> (r: bool)
    ensures
        r == is_domain_char(c),
{
    exec_is_alpha(c) || exec_is_digit(c) || c == '.' || c == '-'
}

/// The length of the longest prefix made of local characters.
fn local_prefix_end(email: &str) -> (r: usize)
    ensures
        0 <= r <= email@.len(),
        forall|k: int| 0 <= k < r ==> is_local_char(#[trigger] email@[k]),
        r < email@.len() ==> !is_local_char(email@[r as int]),
{
    let n = email.unicode_len();
    let mut i: usize = 0;
    while i < n
        invariant
            n == email@.len(),
            0 <= i <= n,
            forall|k: int| 0 <= k < i ==> is_local_char(#[trigger] email@[k]),
        decreases n - i,
    {
        if !exec_is_local(email.get_char(i)) {
            return i;
        }
        i = i + 1;
    }
    i
}

/// The position of the last dot strictly after `i`, or the length of the
/// string when there is none.
fn last_dot_after(email: &str, i: usize) -> (r: usize)
    requires
        i < email@.len(),
    ensures
        i < r <= email@.len(),
        r < email@.len() ==> email@[r as int] == '.',
        forall|m: int| r < m < email@.len() ==> #[trigger] email@[m] != '.',
        r == email@.len() ==> forall|m: int| i < m < email@.len() ==> #[trigger] email@[m] != '.',
{
    let n = email.unicode_len();
    let mut k: usize = n;
    while k > i + 1
        invariant
            n == email@.len(),
            i + 1 <= k <= n || (k == n && n <= i + 1),
            i < n,
            forall|m: int| k <= m < n ==> #[trigger] email@[m] != '.',
        decreases k,
    {
        if email.get_char(k - 1) == '.' {
            return k - 1;
        }
        k = k - 1;
    }
    n
}

/// Accepts exactly the strings of the email format: letters, digits or
/// `._%+-` before an `@`, then a domain of letters, digits, dots or dashes,
/// ending in a dot followed by at least two letters.
pub fn validate_email(email: &str) -> (r: bool)
    ensures
        r == valid_email(email@),
{
    let ghost s = email@;
    let n = email.unicode_len();
    // The `@` of any split must close the longest local-character prefix.
    let i = local_prefix_end(email);
    if i == 0 || i == n {
        proof {
            if valid_email(s) {
                let (i0, j0): (int, int) = choose|i0: int, j0: int| email_split(s, i0, j0);
                if i == 0 {
                    assert(is_local_char(s[0]));
                }
                assert(!is_local_char('@'));
                assert(is_local_char(s[i0]) || i0 >= i);
                assert(false);
            }
        }
        return false;
    }
    if email.get_char(i) != '@' {
        proof {
            if valid_email(s) {
                let (i0, j0): (int, int) = choose|i0: int, j0: int| email_split(s, i0, j0);
                assert(!is_local_char('@'));
                if i0 < i {
                    assert(is_local_char(s[i0]));
                }
                if i0 > i {
                    assert(is_local_char(s[i as int]));
                }
                assert(false);
            }
        }
        return false;
    }
    // The dot of any split must be the last dot of the string.
    let j = last_dot_after(email, i);
    if j == n {
        proof {
            if valid_email(s) {
                let (i0, j0): (int, int) = choose|i0: int, j0: int| email_split(s, i0, j0);
                assert(!is_local_char('@'));
                if i0 < i {
                    assert(is_local_char(s[i0]));
                }
                if i0 > i {
                    assert(is_local_char(s[i as int]));
                }
                assert(i0 == i);
                assert(s[j0] != '.');
                assert(false);
            }
        }
        return false;
    }
    proof {
        if valid_email(s) {
            lemma_forced_split(s, i as int, j as int);
        }
    }
    if j < i + 2 || n - j < 3 {
        return false;
    }
    let mut m: usize = i + 1;
    while m < j
        invariant
            s == email@,
            n == s.len(),
            0 <= i < j < n,
            i + 1 <= m <= j,
            valid_email(s) ==> email_split(s, i as int, j as int),
            forall|k2: int| i < k2 < m ==> is_domain_char(#[trigger] s[k2]),
        decreases j - m,
    {
        if !exec_is_domain(email.get_char(m)) {
            return false;
        }
        m = m + 1;
    }
    let mut t: usize = j + 1;
    while t < n
        invariant
            s == email@,
            n == s.len(),
            0 <= j < n,
            j + 1 <= t <= n,
            valid_email(s) ==> email_split(s, i as int, j as int),
            i + 2 <= j,
            j + 3 <= n,
            s[i as int] == '@',
            s[j as int] == '.',
            forall|k2: int| 0 <= k2 < i ==> is_local_char(#[trigger] s[k2]),
            forall|k2: int| i < k2 < j ==> is_domain_char(#[trigger] s[k2]),
            forall|k2: int| j < k2 < t ==> is_alpha_char(#[trigger] s[k2]),
        decreases n - t,
    {
        if !exec_is_alpha(email.get_char(t)) {
            return false;
        }
        t = t + 1;
    }
    proof {
        assert(email_split(s, i as int, j as int));
    }
    true
}

/// A character kept when cleaning national-id input: a digit or the letter K.
pub open spec fn is_rut_kept_char(c: char) -> bool {
    is_digit_char(c) || c == 'K' || c == 'k'
}

pub open spec fn rut_upcase(c: char) -> char {
    if c == 'k' {
        'K'
    } else {
        c
    }
}

/// The kept characters of the input, in order.
pub open spec fn rut_kept(s: Seq<char>) -> Seq<char>
    decreases s.len(),
{
    if s.len() == 0 {
        Seq::empty()
    } else if is_rut_kept_char(s.last()) {
        rut_kept(s.drop_last()).push(s.last())
    } else {
        rut_kept(s.drop_last())
    }
}

/// The result of formatting: the kept characters with a dash spliced in
/// before the check character, which is upper-cased; one kept character or
/// none comes back unchanged.
pub open spec fn rut_formatted(input: Seq<char>, r: Seq<char>) -> bool {
    let f = rut_kept(input);
    if f.len() <= 1 {
        r == f
    } else {
        r == f.drop_last().push('-').push(rut_upcase(f.last()))
    }
}

/// Cleans free-form national-id input and splices the dash in before the
/// check character.
pub fn format_rut(input: &str) -> (r: String)
    ensures
        rut_formatted(input@, r@),
{
    let n = input.unicode_len();
    let mut kept: Vec<char> = Vec::new();
    let mut i: usize = 0;
    while i < n
        invariant
            n == input@.len(),
            0 <= i <= n,
            kept@ == rut_kept(input@.subrange(0, i as int)),
        decreases n - i,
    {
        let c = input.get_char(i);
        let keep = exec_is_digit(c) || c == 'K' || c == 'k';
        proof {
            assert(input@.subrange(0, i as int + 1).drop_last() =~= input@.subrange(0, i as int));
            assert(input@.subrange(0, i as int + 1).last() == input@[i as int]);
        }
        if keep {
            kept.push(c);
        }
        i = i + 1;
    }
    proof {
        assert(input@.subrange(0, n as int) =~= input@);
    }
    if kept.len() == 0 {
        let s = String::new();
        proof {
            assert(s@ =~= rut_kept(input@));
        }
        return s;
    }
    if kept.len() == 1 {
        let mut s = String::new();
        s.push(kept[0]);
        proof {
            assert(s@ =~= rut_kept(input@));
        }
        return s;
    }
    let mut s = String::new();
    let mut p: usize = 0;
    proof {
        assert(s@ =~= kept@.subrange(0, 0));
    }
    while p < kept.len() - 1
        invariant
            kept@.len() >= 2,
            0 <= p <= kept@.len() - 1,
            s@ == kept@.subrange(0, p as int),
        decreases kept@.len() - p,
    {
        s.push(kept[p]);
        proof {
            assert(kept@.subrange(0, p as int + 1) =~= kept@.subrange(0, p as int).push(
                kept@[p as int],
            ));
        }
        p = p + 1;
    }
    s.push('-');
    let last = kept[kept.len() - 1];
    let upper = if last == 'k' {
        'K'
    } else {
        last
    };
    s.push(upper);
    proof {
        assert(kept@.subrange(0, kept@.len() - 1) =~= kept@.drop_last());
        assert(s@ =~= kept@.drop_last().push('-').push(rut_upcase(kept@.last())));
    }
    s
}

} // verus!
