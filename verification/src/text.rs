//! Small verified text utilities shared by the whole crate: equality and
//! substring search on `&str`, prefix tests, and decimal formatting of
//! integers.

use vstd::prelude::*;

verus! {

/// `needle` occurs in `hay` starting at position `i`.
pub open spec fn contains_at(hay: Seq<char>, needle: Seq<char>, i: int) -> bool {
    0 <= i && i + needle.len() <= hay.len() && hay.subrange(i, i + needle.len() as int)
        == needle
}

/// `needle` occurs somewhere in `hay`.
pub open spec fn contains_seq(hay: Seq<char>, needle: Seq<char>) -> bool {
    exists|i: int| contains_at(hay, needle, i)
}

/// `pre` is a prefix of `s`.
pub open spec fn starts_with_seq(s: Seq<char>, pre: Seq<char>) -> bool {
    pre.len() <= s.len() && s.subrange(0, pre.len() as int) == pre
}

/// Relies on std's `String::push`: appends exactly one character.
#[verifier::external_body]
pub fn push_char(s: &mut String, c: char)
    ensures
        final(s)@ == old(s)@.push(c),
{
    s.push(c);
}

/// Compares a window of `hay` at `at` against all of `needle`.
fn match_at(hay: &str, needle: &str, at: usize) -> (b: bool)
    requires
        at + needle@.len() <= hay@.len(),
        hay@.len() <= usize::MAX,
    ensures
        b == contains_at(hay@, needle@, at as int),
{
    let nl = needle.unicode_len();
    let mut j: usize = 0;
    while j < nl
        invariant
            nl == needle@.len(),
            at + nl <= hay@.len() <= usize::MAX,
            0 <= j <= nl,
            forall|k: int| 0 <= k < j ==> hay@[at + k] == needle@[k],
        decreases nl - j,
    {
        if hay.get_char(at + j) != needle.get_char(j) {
            proof {
                assert(hay@.subrange(at as int, at + nl) != needle@) by {
                    assert(hay@.subrange(at as int, at + nl)[j as int] != needle@[j as int]);
                }
            }
            return false;
        }
        j += 1;
    }
    proof {
        assert(hay@.subrange(at as int, at + nl) =~= needle@);
    }
    true
}

/// Character-for-character string equality.
pub fn str_eq(a: &str, b: &str) -> (r: bool)
    ensures
        r == (a@ == b@),
{
    let al = a.unicode_len();
    let bl = b.unicode_len();
    if al != bl {
        proof {
            assert(a@ != b@) by {
                assert(a@.len() != b@.len());
            }
        }
        return false;
    }
    let r = match_at(a, b, 0);
    proof {
        assert(a@.subrange(0, b@.len() as int) =~= a@);
    }
    r
}

/// Does `hay` contain `needle` as a contiguous substring?
pub fn contains_str(hay: &str, needle: &str) -> (r: bool)
    ensures
        r == contains_seq(hay@, needle@),
{
    let hl = hay.unicode_len();
    let nl = needle.unicode_len();
    if nl == 0 {
        proof {
            assert(contains_at(hay@, needle@, 0)) by {
                assert(hay@.subrange(0, 0) =~= needle@);
            }
        }
        return true;
    }
    if nl > hl {
        proof {
            assert(forall|i: int| !contains_at(hay@, needle@, i));
        }
        return false;
    }
    let mut i: usize = 0;
    while i <= hl - nl
        invariant
            hl == hay@.len() <= usize::MAX,
            nl == needle@.len(),
            1 <= nl <= hl,
            0 <= i <= hl - nl + 1,
            forall|k: int| 0 <= k < i ==> !contains_at(hay@, needle@, k),
        decreases hl - nl - i + 1,
    {
        if match_at(hay, needle, i) {
            return true;
        }
        i += 1;
    }
    proof {
        assert(forall|k: int| !contains_at(hay@, needle@, k)) by {
            assert(forall|k: int| k >= hl - nl + 1 ==> !contains_at(hay@, needle@, k));
        }
    }
    false
}

/// Does `s` start with `pre`?
pub fn starts_with(s: &str, pre: &str) -> (r: bool)
    ensures
        r == starts_with_seq(s@, pre@),
{
    let sl = s.unicode_len();
    let pl = pre.unicode_len();
    if pl > sl {
        return false;
    }
    match_at(s, pre, 0)
}

/// The character for one decimal digit.
pub open spec fn digit_char(d: int) -> char {
    if d == 0 {
        '0'
    } else if d == 1 {
        '1'
    } else if d == 2 {
        '2'
    } else if d == 3 {
        '3'
    } else if d == 4 {
        '4'
    } else if d == 5 {
        '5'
    } else if d == 6 {
        '6'
    } else if d == 7 {
        '7'
    } else if d == 8 {
        '8'
    } else {
        '9'
    }
}

/// The decimal representation of `n`, most significant digit first.
pub open spec fn dec_of(n: int) -> Seq<char>
    decreases n,
{
    if n < 10 {
        seq![digit_char(n)]
    } else {
        dec_of(n / 10).push(digit_char(n % 10))
    }
}

fn digit_to_char(d: u64) -> (c: char)
    requires
        d < 10,
    ensures
        c == digit_char(d as int),
{
    if d == 0 {
        '0'
    } else if d == 1 {
        '1'
    } else if d == 2 {
        '2'
    } else if d == 3 {
        '3'
    } else if d == 4 {
        '4'
    } else if d == 5 {
        '5'
    } else if d == 6 {
        '6'
    } else if d == 7 {
        '7'
    } else if d == 8 {
        '8'
    } else {
        '9'
    }
}

/// Formats `n` in decimal.
pub fn u64_to_dec(n: u64) -> (r: String)
    ensures
        r@ == dec_of(n as int),
    decreases n,
{
    if n < 10 {
        let mut s = String::new();
        push_char(&mut s, digit_to_char(n));
        proof {
            assert(s@ =~= dec_of(n as int));
        }
        s
    } else {
        let mut s = u64_to_dec(n / 10);
        push_char(&mut s, digit_to_char(n % 10));
        s
    }
}

/// ASCII whitespace, as the tokenizer understands it.
pub open spec fn is_space_char(c: char) -> bool {
    c == ' ' || c == '\t' || c == '\n' || c == '\r'
}

/// The whitespace-separated tokens of `s`, with `cur` the token being read.
pub open spec fn spec_split_acc(s: Seq<char>, cur: Seq<char>) -> Seq<Seq<char>>
    decreases s.len(),
{
    if s.len() == 0 {
        if cur.len() == 0 {
            Seq::empty()
        } else {
            seq![cur]
        }
    } else if is_space_char(s[0]) {
        if cur.len() == 0 {
            spec_split_acc(s.subrange(1, s.len() as int), Seq::empty())
        } else {
            seq![cur] + spec_split_acc(s.subrange(1, s.len() as int), Seq::empty())
        }
    } else {
        spec_split_acc(s.subrange(1, s.len() as int), cur.push(s[0]))
    }
}

/// The whitespace-separated tokens of `s`, in order, all nonempty.
pub open spec fn spec_split_ws(s: Seq<char>) -> Seq<Seq<char>> {
    spec_split_acc(s, Seq::empty())
}

/// Splits `s` at ASCII whitespace.
pub fn split_ws(s: &str) -> (r: Vec<String>)
    ensures
        r.deep_view() == spec_split_ws(s@),
{
    let n = s.unicode_len();
    let mut out: Vec<String> = Vec::new();
    let mut cur = String::new();
    let mut i: usize = 0;
    proof {
        assert(s@.subrange(0, n as int) =~= s@);
    }
    while i < n
        invariant
            n == s@.len(),
            0 <= i <= n,
            out.deep_view() + spec_split_acc(s@.subrange(i as int, n as int), cur@)
                =~~= spec_split_ws(s@),
        decreases n - i,
    {
        proof {
            assert(s@.subrange(i as int, n as int)[0] == s@[i as int]);
            assert(s@.subrange(i as int, n as int).subrange(
                1,
                s@.subrange(i as int, n as int).len() as int,
            ) =~= s@.subrange(i + 1, n as int));
        }
        let ghost out0 = out.deep_view();
        let ghost cur0 = cur@;
        let ghost rest = spec_split_acc(s@.subrange(i + 1, n as int), Seq::empty());
        let c = s.get_char(i);
        if c == ' ' || c == '\t' || c == '\n' || c == '\r' {
            if !cur.as_str().is_empty() {
                out.push(cur);
                cur = String::new();
                proof {
                    assert(out.deep_view() =~~= out0.push(cur0));
                    assert(spec_split_acc(s@.subrange(i as int, n as int), cur0)
                        =~~= seq![cur0] + rest);
                    assert(out0.push(cur0) + rest =~~= out0 + (seq![cur0] + rest));
                }
            } else {
                proof {
                    assert(cur0 =~= Seq::<char>::empty());
                    assert(spec_split_acc(s@.subrange(i as int, n as int), cur0)
                        =~~= rest);
                }
            }
        } else {
            push_char(&mut cur, c);
            proof {
                assert(spec_split_acc(s@.subrange(i as int, n as int), cur0)
                    =~~= spec_split_acc(s@.subrange(i + 1, n as int), cur0.push(
                    s@[i as int],
                )));
                assert(cur@ =~= cur0.push(s@[i as int]));
            }
        }
        i += 1;
    }
    proof {
        assert(s@.subrange(n as int, n as int).len() == 0);
    }
    if !cur.as_str().is_empty() {
        let ghost out0 = out.deep_view();
        let ghost cur0 = cur@;
        out.push(cur);
        proof {
            assert(out.deep_view() =~= out0.push(cur0));
            assert(out0.push(cur0) =~= out0 + seq![cur0]);
        }
    }
    proof {
        assert(out.deep_view() =~~= spec_split_ws(s@));
    }
    out
}

/// An ASCII decimal digit.
pub open spec fn spec_is_digit(c: char) -> bool {
    48 <= c as int <= 57
}

/// Every character of `s` is a decimal digit.
pub open spec fn spec_all_digits(s: Seq<char>) -> bool {
    forall|i: int| 0 <= i < s.len() ==> spec_is_digit(#[trigger] s[i])
}

/// The number a digit string denotes, most significant digit first.
pub open spec fn spec_dec_val(s: Seq<char>) -> int
    decreases s.len(),
{
    if s.len() == 0 {
        0
    } else {
        spec_dec_val(s.drop_last()) * 10 + (s.last() as int - 48)
    }
}

/// A digit string denotes a non-negative number.
pub proof fn lemma_dec_val_nonneg(s: Seq<char>)
    requires
        spec_all_digits(s),
    ensures
        spec_dec_val(s) >= 0,
    decreases s.len(),
{
    if s.len() > 0 {
        assert(spec_all_digits(s.drop_last())) by {
            assert(forall|i: int| 0 <= i < s.drop_last().len() ==> s.drop_last()[i] == s[i]);
        }
        lemma_dec_val_nonneg(s.drop_last());
    }
}

/// Extending a digit string never shrinks its value.
pub proof fn lemma_dec_val_prefix(s: Seq<char>, i: int)
    requires
        spec_all_digits(s),
        0 <= i <= s.len(),
    ensures
        spec_dec_val(s.subrange(0, i)) <= spec_dec_val(s),
    decreases s.len(),
{
    if i < s.len() {
        assert(spec_all_digits(s.drop_last())) by {
            assert(forall|p: int| 0 <= p < s.drop_last().len() ==> s.drop_last()[p] == s[p]);
        }
        lemma_dec_val_prefix(s.drop_last(), i);
        assert(s.drop_last().subrange(0, i) =~= s.subrange(0, i));
        lemma_dec_val_nonneg(s.drop_last());
    } else {
        assert(s.subrange(0, i) =~= s);
    }
}

/// What parsing a digit string yields: its value, if the string is nonempty,
/// all digits, and in range.
pub open spec fn spec_parse_u64(s: Seq<char>) -> Option<u64> {
    if s.len() > 0 && spec_all_digits(s) && spec_dec_val(s) <= u64::MAX {
        Some(spec_dec_val(s) as u64)
    } else {
        None
    }
}

/// Parses an unsigned decimal number.
pub fn parse_u64(s: &str) -> (r: Option<u64>)
    ensures
        r == spec_parse_u64(s@),
{
    let n = s.unicode_len();
    if n == 0 {
        return None;
    }
    let mut acc: u64 = 0;
    let mut i: usize = 0;
    proof {
        assert(s@.subrange(0, 0).len() == 0);
    }
    while i < n
        invariant
            n == s@.len(),
            0 <= i <= n,
            spec_all_digits(s@.subrange(0, i as int)),
            acc == spec_dec_val(s@.subrange(0, i as int)),
        decreases n - i,
    {
        let c = s.get_char(i);
        let v = c as u32;
        if v < 48 || v > 57 {
            proof {
                assert(!spec_is_digit(s@[i as int]));
            }
            return None;
        }
        let d = (v - 48) as u64;
        if acc > (u64::MAX - d) / 10 {
            proof {
                assert(s@.subrange(0, i + 1).drop_last() =~= s@.subrange(0, i as int));
                assert(s@.subrange(0, i + 1).last() == s@[i as int]);
                assert(spec_dec_val(s@.subrange(0, i + 1)) > u64::MAX) by (nonlinear_arith)
                    requires
                        acc > (u64::MAX - d) / 10,
                        d < 10,
                        spec_dec_val(s@.subrange(0, i + 1)) == acc * 10 + d,
                {
                }
                if spec_all_digits(s@) {
                    lemma_dec_val_prefix(s@, i + 1);
                }
            }
            return None;
        }
        proof {
            assert(acc * 10 + d <= u64::MAX) by (nonlinear_arith)
                requires
                    acc <= (u64::MAX - d) / 10,
                    d < 10,
            {
            }
            assert(s@.subrange(0, i + 1).drop_last() =~= s@.subrange(0, i as int));
            assert(s@.subrange(0, i + 1).last() == s@[i as int]);
        }
        acc = acc * 10 + d;
        i += 1;
    }
    proof {
        assert(s@.subrange(0, n as int) =~= s@);
    }
    Some(acc)
}

/// How one character appears inside a single-quoted shell word: a quote
/// closes the word, emits an escaped quote, and reopens it.
pub open spec fn sq_char(c: char) -> Seq<char> {
    if c == '\'' {
        seq!['\'', '\\', '\'', '\'']
    } else {
        seq![c]
    }
}

/// The body of a single-quoted shell word for `s`.
pub open spec fn sq_escaped(s: Seq<char>) -> Seq<char>
    decreases s.len(),
{
    if s.len() == 0 {
        Seq::empty()
    } else {
        sq_escaped(s.drop_last()) + sq_char(s.last())
    }
}

/// `s` as one shell word: single-quoted, quotes escaped. The shell reads it
/// back as exactly `s`.
pub open spec fn spec_shell_quoted(s: Seq<char>) -> Seq<char> {
    seq!['\''] + sq_escaped(s) + seq!['\'']
}

/// Quotes `s` as a single shell word.
pub fn shell_quote(s: &str) -> (r: String)
    ensures
        r@ == spec_shell_quoted(s@),
{
    let n = s.unicode_len();
    let mut out = String::new();
    push_char(&mut out, '\'');
    let mut i: usize = 0;
    while i < n
        invariant
            n == s@.len(),
            0 <= i <= n,
            out@ =~= seq!['\''] + sq_escaped(s@.subrange(0, i as int)),
        decreases n - i,
    {
        let c = s.get_char(i);
        if c == '\'' {
            push_char(&mut out, '\'');
            push_char(&mut out, '\\');
            push_char(&mut out, '\'');
            push_char(&mut out, '\'');
        } else {
            push_char(&mut out, c);
        }
        proof {
            assert(s@.subrange(0, i + 1).drop_last() =~= s@.subrange(0, i as int));
            assert(s@.subrange(0, i + 1).last() == s@[i as int]);
            assert(out@ =~= seq!['\''] + sq_escaped(s@.subrange(0, i + 1)));
        }
        i += 1;
    }
    push_char(&mut out, '\'');
    proof {
        assert(s@.subrange(0, s@.len() as int) =~= s@);
        assert(out@ =~= spec_shell_quoted(s@));
    }
    out
}

/// The base64 alphabet.
pub open spec fn b64_char(v: u8) -> char {
    if v < 26 {
        ((65 + v) as u8) as char
    } else if v < 52 {
        ((97 + (v - 26)) as u8) as char
    } else if v < 62 {
        ((48 + (v - 52)) as u8) as char
    } else if v == 62 {
        '+'
    } else {
        '/'
    }
}

/// Standard base64 with padding, most significant bits first.
pub open spec fn b64_of(bytes: Seq<u8>) -> Seq<char>
    decreases bytes.len(),
{
    if bytes.len() == 0 {
        Seq::empty()
    } else if bytes.len() == 1 {
        seq![
            b64_char(bytes[0] >> 2),
            b64_char((bytes[0] & 3) << 4),
            '=',
            '=',
        ]
    } else if bytes.len() == 2 {
        seq![
            b64_char(bytes[0] >> 2),
            b64_char(((bytes[0] & 3) << 4) | (bytes[1] >> 4)),
            b64_char((bytes[1] & 15) << 2),
            '=',
        ]
    } else {
        seq![
            b64_char(bytes[0] >> 2),
            b64_char(((bytes[0] & 3) << 4) | (bytes[1] >> 4)),
            b64_char(((bytes[1] & 15) << 2) | (bytes[2] >> 6)),
            b64_char(bytes[2] & 63),
        ] + b64_of(bytes.subrange(3, bytes.len() as int))
    }
}

fn b64_digit(v: u8) -> (c: char)
    requires
        v < 64,
    ensures
        c == b64_char(v),
{
    if v < 26 {
        (65 + v) as char
    } else if v < 52 {
        (97 + (v - 26)) as char
    } else if v < 62 {
        (48 + (v - 52)) as char
    } else if v == 62 {
        '+'
    } else {
        '/'
    }
}

/// Encodes `bytes` in base64.
pub fn base64_encode(bytes: &[u8]) -> (r: String)
    ensures
        r@ == b64_of(bytes@),
{
    let n = bytes.len();
    let mut out = String::new();
    let mut i: usize = 0;
    proof {
        assert(bytes@.subrange(0, n as int) =~= bytes@);
    }
    while n - i >= 3
        invariant
            n == bytes@.len(),
            0 <= i <= n,
            out@ + b64_of(bytes@.subrange(i as int, n as int)) =~= b64_of(bytes@),
        decreases n - i,
    {
        let b0 = bytes[i];
        let b1 = bytes[i + 1];
        let b2 = bytes[i + 2];
        proof {
            assert(b0 >> 2 < 64 && ((b0 & 3) << 4) | (b1 >> 4) < 64 && ((b1 & 15) << 2) | (
            b2 >> 6) < 64 && b2 & 63 < 64) by (bit_vector);
        }
        let ghost rest = bytes@.subrange(i as int, n as int);
        push_char(&mut out, b64_digit(b0 >> 2));
        push_char(&mut out, b64_digit(((b0 & 3) << 4) | (b1 >> 4)));
        push_char(&mut out, b64_digit(((b1 & 15) << 2) | (b2 >> 6)));
        push_char(&mut out, b64_digit(b2 & 63));
        proof {
            assert(rest.len() >= 3);
            assert(rest[0] == b0 && rest[1] == b1 && rest[2] == b2);
            assert(rest.subrange(3, rest.len() as int) =~= bytes@.subrange(
                i + 3,
                n as int,
            ));
            assert(out@ + b64_of(bytes@.subrange(i + 3, n as int)) =~= b64_of(bytes@));
        }
        i += 3;
    }
    if n - i == 1 {
        let b0 = bytes[i];
        proof {
            assert(b0 >> 2 < 64 && (b0 & 3) << 4 < 64) by (bit_vector);
        }
        let ghost rest = bytes@.subrange(i as int, n as int);
        push_char(&mut out, b64_digit(b0 >> 2));
        push_char(&mut out, b64_digit((b0 & 3) << 4));
        push_char(&mut out, '=');
        push_char(&mut out, '=');
        proof {
            assert(rest.len() == 1 && rest[0] == b0);
            assert(out@ =~= b64_of(bytes@));
        }
    } else if n - i == 2 {
        let b0 = bytes[i];
        let b1 = bytes[i + 1];
        proof {
            assert(b0 >> 2 < 64 && ((b0 & 3) << 4) | (b1 >> 4) < 64 && (b1 & 15) << 2
                < 64) by (bit_vector);
        }
        let ghost rest = bytes@.subrange(i as int, n as int);
        push_char(&mut out, b64_digit(b0 >> 2));
        push_char(&mut out, b64_digit(((b0 & 3) << 4) | (b1 >> 4)));
        push_char(&mut out, b64_digit((b1 & 15) << 2));
        push_char(&mut out, '=');
        proof {
            assert(rest.len() == 2 && rest[0] == b0 && rest[1] == b1);
            assert(out@ =~= b64_of(bytes@));
        }
    } else {
        proof {
            assert(bytes@.subrange(i as int, n as int).len() == 0);
            assert(out@ =~= b64_of(bytes@));
        }
    }
    out
}

/// The position after the last `/` in `s`, or zero without one: everything
/// before it is the parent directory.
pub open spec fn spec_dir_split(s: Seq<char>) -> int
    decreases s.len(),
{
    if s.len() == 0 {
        0
    } else if s.last() == '/' {
        s.len() as int
    } else {
        spec_dir_split(s.drop_last())
    }
}

/// Splits `path` before its file name: the returned index is the length of
/// the directory part, trailing slash included; zero when the path has no
/// slash.
pub fn dir_split(path: &str) -> (r: usize)
    ensures
        r == spec_dir_split(path@),
        r <= path@.len(),
{
    let n = path.unicode_len();
    let mut i: usize = n;
    proof {
        assert(path@.subrange(0, n as int) =~= path@);
    }
    while i > 0
        invariant
            n == path@.len(),
            0 <= i <= n,
            spec_dir_split(path@) == spec_dir_split(path@.subrange(0, i as int)),
        decreases i,
    {
        proof {
            assert(path@.subrange(0, i as int).drop_last() =~= path@.subrange(0, i - 1));
            assert(path@.subrange(0, i as int).last() == path@[i - 1]);
        }
        if path.get_char(i - 1) == '/' {
            return i;
        }
        i -= 1;
    }
    proof {
        assert(path@.subrange(0, 0).len() == 0);
    }
    0
}

} // verus!
