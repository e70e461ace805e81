//! Version numbers read out of release tags.
//!
//! A remote tag looks like `v0.13`: its segments are separated by `.`, and the
//! second segment is the version number. A local tag looks like
//! `v0.13-4-g58738c0`: the part before the first `-` is a remote-style tag.
use vstd::prelude::*;
use vstd::string::*;

use crate::error::ReleaseError;

verus! {

/// True when `c` is an ASCII decimal digit.
pub open spec fn is_digit(c: char) -> bool {
    '0' <= c && c <= '9'
}

/// The value of a decimal digit.
pub open spec fn digit_value(c: char) -> nat {
    (c as nat - '0' as nat) as nat
}

/// A non-empty run of decimal digits.
pub open spec fn is_numeral(s: Seq<char>) -> bool {
    s.len() > 0 && forall|i: int| 0 <= i < s.len() ==> is_digit(#[trigger] s[i])
}

/// The digits of an unsigned number: what follows one optional leading `+`.
pub open spec fn unsigned_digits(s: Seq<char>) -> Seq<char> {
    if s.len() > 0 && s[0] == '+' {
        s.drop_first()
    } else {
        s
    }
}

/// The value of a run of decimal digits; leading zeros add nothing.
pub open spec fn numeral_value(s: Seq<char>) -> nat
    decreases s.len(),
{
    if s.len() == 0 {
        0
    } else {
        numeral_value(s.drop_last()) * 10 + digit_value(s.last())
    }
}

/// The position of the first `sep` in `s`, or the length of `s` when it holds none.
pub open spec fn sep_index(s: Seq<char>, sep: char) -> nat
    decreases s.len(),
{
    if s.len() == 0 || s[0] == sep {
        0
    } else {
        1 + sep_index(s.drop_first(), sep)
    }
}

/// The first segment of `s` split at `sep`: all of `s` when it holds no `sep`.
pub open spec fn first_segment(s: Seq<char>, sep: char) -> Seq<char> {
    s.take(sep_index(s, sep) as int)
}

/// The second segment of `s` split at `sep`, which exists only when `s` holds a `sep`.
pub open spec fn second_segment(s: Seq<char>, sep: char) -> Option<Seq<char>> {
    let i = sep_index(s, sep) as int;
    if i < s.len() {
        Some(first_segment(s.skip(i + 1), sep))
    } else {
        None
    }
}

/// The version number of a remote tag: the value of its second `.`-segment,
/// when that segment exists, is a numeral after one optional `+`, and fits in
/// a `u32`.
pub open spec fn remote_version(tag: Seq<char>) -> Option<nat> {
    match second_segment(tag, '.') {
        Some(minor) => {
            let digits = unsigned_digits(minor);
            if is_numeral(digits) && numeral_value(digits) <= u32::MAX {
                Some(numeral_value(digits))
            } else {
                None
            }
        },
        None => None,
    }
}

/// The version number of a local tag: that of the remote-style tag before its first `-`.
pub open spec fn local_version(tag: Seq<char>) -> Option<nat> {
    remote_version(first_segment(tag, '-'))
}

/// What a parse of a tag returns, given its version number.
pub open spec fn parse_result(v: Option<nat>) -> Result<u32, ReleaseError> {
    match v {
        Some(n) => Ok(n as u32),
        None => Err(ReleaseError::MalformedTag),
    }
}

/// `sep_index` is the first position that holds `sep`.
pub proof fn lemma_sep_index(s: Seq<char>, sep: char, i: int)
    requires
        0 <= i <= s.len(),
        forall|j: int| 0 <= j < i ==> s[j] != sep,
        i == s.len() || s[i] == sep,
    ensures
        sep_index(s, sep) == i,
    decreases i,
{
    if i > 0 {
        let t = s.drop_first();
        assert forall|j: int| 0 <= j < i - 1 implies t[j] != sep by {
            assert(t[j] == s[j + 1]);
        }
        lemma_sep_index(t, sep, i - 1);
    }
}

/// A value read from more digits is never smaller.
proof fn lemma_numeral_value_grows(s: Seq<char>, i: int, j: int)
    requires
        0 <= i <= j <= s.len(),
    ensures
        numeral_value(s.take(i)) <= numeral_value(s.take(j)),
    decreases j - i,
{
    if i < j {
        lemma_numeral_value_grows(s, i, j - 1);
        assert(s.take(j).drop_last() =~= s.take(j - 1));
    }
}

/// The position of the first `sep` in `s`, or its length when there is none.
fn find_char(s: &str, sep: char) -> (r: usize)
    ensures
        r == sep_index(s@, sep),
        r <= s@.len(),
{
    let len = s.unicode_len();
    let mut i: usize = 0;
    while i < len && s.get_char(i) != sep
        invariant
            len == s@.len(),
            i <= len,
            forall|j: int| 0 <= j < i ==> s@[j] != sep,
        decreases len - i,
    {
        i = i + 1;
    }
    proof {
        lemma_sep_index(s@, sep, i as int);
    }
    i
}

/// Reads a run of decimal digits as a `u32`; `None` when `s` is empty, holds
/// anything but digits, or its value does not fit.
fn parse_numeral(s: &str) -> (r: Option<u32>)
    ensures
        r == (if is_numeral(s@) && numeral_value(s@) <= u32::MAX {
            Some(numeral_value(s@) as u32)
        } else {
            None::<u32>
        }),
{
    let len = s.unicode_len();
    if len == 0 {
        return None;
    }
    let mut acc: u32 = 0;
    let mut i: usize = 0;
    while i < len
        invariant
            len == s@.len(),
            i <= len,
            forall|j: int| 0 <= j < i ==> is_digit(#[trigger] s@[j]),
            acc as nat == numeral_value(s@.take(i as int)),
        decreases len - i,
    {
        let c = s.get_char(i);
        assert(s@.take(i + 1).drop_last() =~= s@.take(i as int));
        if !('0' <= c && c <= '9') {
            return None;
        }
        let d = (c as u32) - ('0' as u32);
        if acc > (u32::MAX - d) / 10 {
            proof {
                lemma_numeral_value_grows(s@, i + 1, len as int);
                assert(s@.take(len as int) =~= s@);
            }
            return None;
        }
        acc = acc * 10 + d;
        i = i + 1;
    }
    assert(s@.take(len as int) =~= s@);
    Some(acc)
}

/// Reads the version number of a remote tag such as `v0.13`: the second
/// segment when the tag is split at `.`, read as a decimal number.
pub fn extract_remote_version_number(remote_tag: &str) -> (r: Result<u32, ReleaseError>)
    ensures
        r == parse_result(remote_version(remote_tag@)),
{
    let len = remote_tag.unicode_len();
    let i = find_char(remote_tag, '.');
    if i == len {
        return Err(ReleaseError::MalformedTag);
    }
    let rest = remote_tag.substring_char(i + 1, len);
    assert(rest@ =~= remote_tag@.skip(i + 1));
    let j = find_char(rest, '.');
    let minor = rest.substring_char(0, j);
    assert(minor@ =~= first_segment(rest@, '.'));
    let minor_len = minor.unicode_len();
    let start: usize = if minor_len > 0 && minor.get_char(0) == '+' {
        1
    } else {
        0
    };
    let digits = minor.substring_char(start, minor_len);
    assert(digits@ =~= unsigned_digits(minor@));
    match parse_numeral(digits) {
        Some(v) => Ok(v),
        None => Err(ReleaseError::MalformedTag),
    }
}

/// Reads the version number of a local tag such as `v0.13-4-g58738c0`: that
/// of the remote-style tag before the first `-`.
pub fn extract_local_version_number(local_tag: &str) -> (r: Result<u32, ReleaseError>)
    ensures
        r == parse_result(local_version(local_tag@)),
{
    let i = find_char(local_tag, '-');
    let head = local_tag.substring_char(0, i);
    assert(head@ =~= first_segment(local_tag@, '-'));
    extract_remote_version_number(head)
}

} // verus!

verus! {

/// With numerals `M` and `N`, a tag `v<M>.+<N>` has the version number of
/// `v<M>.<N>`.
pub proof fn lemma_plus_sign_on_minor(major: Seq<char>, minor: Seq<char>)
    requires
        is_numeral(major),
        is_numeral(minor),
    ensures
        remote_version(seq!['v'] + major + seq!['.', '+'] + minor) == remote_version(
            seq!['v'] + major + seq!['.'] + minor,
        ),
{
    let t = seq!['v'] + major + seq!['.', '+'] + minor;
    let u = seq!['v'] + major + seq!['.'] + minor;
    let k = major.len() + 1int;
    assert forall|j: int| 0 <= j < k implies t[j] != '.' && u[j] != '.' by {
        if j > 0 {
            assert(t[j] == major[j - 1]);
            assert(u[j] == major[j - 1]);
        }
    }
    assert(t[k] == '.');
    assert(u[k] == '.');
    lemma_sep_index(t, '.', k);
    lemma_sep_index(u, '.', k);
    let tm = first_segment(t.skip(k + 1), '.');
    let um = first_segment(u.skip(k + 1), '.');
    assert(t.skip(k + 1) =~= seq!['+'] + minor);
    assert(u.skip(k + 1) =~= minor);
    let pm = seq!['+'] + minor;
    assert forall|j: int| 0 <= j < minor.len() implies minor[j] != '.' by {
        assert(is_digit(minor[j]));
    }
    assert forall|j: int| 0 <= j < pm.len() implies pm[j] != '.' by {
        if j > 0 {
            assert(pm[j] == minor[j - 1]);
        }
    }
    lemma_sep_index(minor, '.', minor.len() as int);
    lemma_sep_index(pm, '.', pm.len() as int);
    assert(um =~= minor);
    assert(tm =~= pm);
    assert(pm.drop_first() =~= minor);
    assert(unsigned_digits(tm) =~= minor);
    assert(is_digit(minor[0]));
    assert(unsigned_digits(um) =~= um);
}

/// A tag `v<M>.<N>` with numerals `M` and `N` has version number `N`, read in
/// decimal, so that leading zeros of `N` are dropped (`v0.07` has version 7).
pub proof fn lemma_remote_tag_version(major: Seq<char>, minor: Seq<char>)
    requires
        is_numeral(major),
        is_numeral(minor),
        numeral_value(minor) <= u32::MAX,
    ensures
        remote_version(seq!['v'] + major + seq!['.'] + minor) == Some(numeral_value(minor)),
{
    let t = seq!['v'] + major + seq!['.'] + minor;
    let k = major.len() + 1int;
    assert forall|j: int| 0 <= j < k implies t[j] != '.' by {
        if j > 0 {
            assert(t[j] == major[j - 1]);
        }
    }
    assert(t[k] == '.');
    lemma_sep_index(t, '.', k);
    assert(t.skip(k + 1) =~= minor);
    assert forall|j: int| 0 <= j < minor.len() implies minor[j] != '.' by {
        assert(is_digit(minor[j]));
    }
    lemma_sep_index(minor, '.', minor.len() as int);
    assert(minor.take(minor.len() as int) =~= minor);
    assert(is_digit(minor[0]));
}

/// A local tag `v<M>.<N>-<C>-g<H>` with numerals `M` and `N` has the version
/// number of the remote tag `v<M>.<N>`, whatever `C` and `H` are.
pub proof fn lemma_local_tag_version(
    major: Seq<char>,
    minor: Seq<char>,
    commits: Seq<char>,
    hash: Seq<char>,
)
    requires
        is_numeral(major),
        is_numeral(minor),
    ensures
        local_version(seq!['v'] + major + seq!['.'] + minor + seq!['-'] + commits + seq![
            '-',
            'g',
        ] + hash) == remote_version(seq!['v'] + major + seq!['.'] + minor),
{
    let head = seq!['v'] + major + seq!['.'] + minor;
    let t = head + seq!['-'] + commits + seq!['-', 'g'] + hash;
    assert forall|j: int| 0 <= j < head.len() implies t[j] != '-' by {
        assert(t[j] == head[j]);
        if 0 < j < major.len() + 1 {
            assert(head[j] == major[j - 1]);
            assert(is_digit(major[j - 1]));
        } else if j > major.len() + 1 {
            assert(head[j] == minor[j - major.len() - 2]);
            assert(is_digit(minor[j - major.len() - 2]));
        }
    }
    assert(t[head.len() as int] == '-');
    lemma_sep_index(t, '-', head.len() as int);
    assert(t.take(head.len() as int) =~= head);
}

/// A tag without a `.` has no version number.
pub proof fn lemma_tag_without_dot(tag: Seq<char>)
    requires
        forall|j: int| 0 <= j < tag.len() ==> tag[j] != '.',
    ensures
        remote_version(tag) is None,
        parse_result(remote_version(tag)) == Err::<u32, ReleaseError>(ReleaseError::MalformedTag),
{
    lemma_sep_index(tag, '.', tag.len() as int);
}

/// A tag whose second `.`-segment is not a numeral, after one optional `+`,
/// has no version number.
pub proof fn lemma_tag_with_non_numeral_minor(tag: Seq<char>)
    requires
        second_segment(tag, '.') matches Some(minor) && !is_numeral(unsigned_digits(minor)),
    ensures
        remote_version(tag) is None,
        parse_result(remote_version(tag)) == Err::<u32, ReleaseError>(ReleaseError::MalformedTag),
{
}

} // verus!
