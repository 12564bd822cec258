//! Text building blocks of the report: ASCII capitalization of a process
//! name and rendering of unsigned integers in decimal.

use vstd::prelude::*;

verus! {

/// Appends exactly one character at the end of the string.
///
/// Relies on `String::push`: it appends the given character.
#[verifier::external_body]
pub(crate) fn push_char(s: &mut String, c: char)
    ensures
        final(s)@ == old(s)@.push(c),
{
    s.push(c);
}

/// The ASCII-level uppercase of a character: letters `a`..`z` map to
/// `A`..`Z`, every other character is unchanged.
pub open spec fn spec_to_upper(c: char) -> char {
    if 'a' <= c && c <= 'z' {
        (((c as u32) - 32) as u8) as char
    } else {
        c
    }
}

/// The ASCII-level lowercase of a character: letters `A`..`Z` map to
/// `a`..`z`, every other character is unchanged.
pub open spec fn spec_to_lower(c: char) -> char {
    if 'A' <= c && c <= 'Z' {
        (((c as u32) + 32) as u8) as char
    } else {
        c
    }
}

/// The ASCII-level lowercase of a character sequence.
pub open spec fn spec_lower_seq(s: Seq<char>) -> Seq<char> {
    Seq::new(s.len(), |i: int| spec_to_lower(s[i]))
}

/// The capitalization of a string: empty stays empty; otherwise the first
/// character is uppercased and all remaining characters are lowercased,
/// both as locale-naive ASCII transforms.
pub open spec fn spec_capitalize(s: Seq<char>) -> Seq<char> {
    if s.len() == 0 {
        s
    } else {
        seq![spec_to_upper(s[0])] + spec_lower_seq(s.skip(1))
    }
}

fn to_upper(c: char) -> (r: char)
    ensures
        r == spec_to_upper(c),
{
    let u = c as u32;
    if 97 <= u && u <= 122 {
        ((u - 32) as u8) as char
    } else {
        c
    }
}

fn to_lower(c: char) -> (r: char)
    ensures
        r == spec_to_lower(c),
{
    let u = c as u32;
    if 65 <= u && u <= 90 {
        ((u + 32) as u8) as char
    } else {
        c
    }
}

/// Capitalizes a process name: first character uppercased, the rest
/// lowercased, both at the ASCII level; the empty string stays empty.
pub fn capitalize(input: String) -> (r: String)
    ensures
        r@ == spec_capitalize(input@),
{
    let n = input.as_str().unicode_len();
    let mut out = String::new();
    if n == 0 {
        proof {
            assert(out@ =~= input@);
        }
        return out;
    }
    let first = input.as_str().get_char(0);
    push_char(&mut out, to_upper(first));
    let mut i: usize = 1;
    while i < n
        invariant
            1 <= i <= n,
            n == input@.len(),
            out@ == seq![spec_to_upper(input@[0])] + spec_lower_seq(input@.subrange(1, i as int)),
        decreases n - i,
    {
        let c = input.as_str().get_char(i);
        push_char(&mut out, to_lower(c));
        proof {
            assert(out@ =~= seq![spec_to_upper(input@[0])] + spec_lower_seq(
                input@.subrange(1, i + 1),
            ));
        }
        i += 1;
    }
    proof {
        assert(input@.subrange(1, n as int) =~= input@.skip(1));
        assert(out@ =~= spec_capitalize(input@));
    }
    out
}

/// The decimal digit character for a value below ten.
pub open spec fn spec_digit_char(d: u64) -> char {
    ((48 + d) as u8) as char
}

/// The decimal rendering of an unsigned integer, most significant digit
/// first, with no leading zeros (`0` renders as `"0"`).
pub open spec fn spec_dec(n: u64) -> Seq<char>
    decreases n,
{
    if n < 10 {
        seq![spec_digit_char(n)]
    } else {
        spec_dec(n / 10).push(spec_digit_char(n % 10))
    }
}

fn digit_char(d: u64) -> (c: char)
    requires
        d < 10,
    ensures
        c == spec_digit_char(d),
{
    ((48 + d) as u8) as char
}

/// Renders an unsigned integer in decimal, as `spec_dec` states it.
pub fn u64_to_string(n: u64) -> (r: String)
    ensures
        r@ == spec_dec(n),
    decreases n,
{
    if n < 10 {
        let mut s = String::new();
        push_char(&mut s, digit_char(n));
        proof {
            assert(s@ =~= seq![spec_digit_char(n)]);
        }
        s
    } else {
        let mut s = u64_to_string(n / 10);
        push_char(&mut s, digit_char(n % 10));
        s
    }
}

/// Renders a `u32` in decimal, as `spec_dec` states it.
pub fn u32_to_string(n: u32) -> (r: String)
    ensures
        r@ == spec_dec(n as u64),
{
    u64_to_string(n as u64)
}

/// Holds when no character of the sequence is a newline.
pub open spec fn newline_free(s: Seq<char>) -> bool {
    forall|i: int| 0 <= i < s.len() ==> s[i] != '\n'
}

/// Concatenating two newline-free sequences yields a newline-free sequence.
pub proof fn lemma_newline_free_concat(a: Seq<char>, b: Seq<char>)
    requires
        newline_free(a),
        newline_free(b),
    ensures
        newline_free(a + b),
{
    assert forall|i: int| 0 <= i < (a + b).len() implies (a + b)[i] != '\n' by {
        if i < a.len() {
            assert((a + b)[i] == a[i]);
        } else {
            assert((a + b)[i] == b[i - a.len()]);
        }
    }
}

/// A decimal rendering consists of digit characters only, so it is
/// newline-free.
pub proof fn lemma_dec_newline_free(n: u64)
    ensures
        newline_free(spec_dec(n)),
    decreases n,
{
    if n < 10 {
        assert(spec_digit_char(n) as u32 == 48 + n);
    } else {
        lemma_dec_newline_free(n / 10);
        assert(spec_digit_char(n % 10) as u32 == 48 + n % 10);
        assert forall|i: int| 0 <= i < spec_dec(n).len() implies spec_dec(n)[i] != '\n' by {
            if i < spec_dec(n / 10).len() {
                assert(spec_dec(n)[i] == spec_dec(n / 10)[i]);
            } else {
                assert(spec_dec(n)[i] == spec_digit_char(n % 10));
            }
        }
    }
}

/// The ASCII case transforms never introduce a newline.
pub proof fn lemma_case_newline_free(c: char)
    requires
        c != '\n',
    ensures
        spec_to_upper(c) != '\n',
        spec_to_lower(c) != '\n',
{
    if 'a' <= c && c <= 'z' {
        assert(spec_to_upper(c) as u32 == (c as u32) - 32);
    }
    if 'A' <= c && c <= 'Z' {
        assert(spec_to_lower(c) as u32 == (c as u32) + 32);
    }
}

/// Capitalizing a newline-free string yields a newline-free string.
pub proof fn lemma_capitalize_newline_free(s: Seq<char>)
    requires
        newline_free(s),
    ensures
        newline_free(spec_capitalize(s)),
{
    if s.len() > 0 {
        assert forall|i: int| 0 <= i < spec_capitalize(s).len() implies spec_capitalize(s)[i]
            != '\n' by {
            if i == 0 {
                lemma_case_newline_free(s[0]);
                assert(spec_capitalize(s)[0] == spec_to_upper(s[0]));
            } else {
                assert(spec_capitalize(s)[i] == spec_lower_seq(s.skip(1))[i - 1]);
                assert(s.skip(1)[i - 1] == s[i]);
                lemma_case_newline_free(s[i]);
            }
        }
    }
}

} // verus!
