//! Integrity checks of downloaded files against a published SHA-256 sum.

use crate::errors::PackError;
use crate::text::{eq_fold, eq_ignore_ascii_case, fold_char};
use vstd::prelude::*;
use vstd::string::*;

verus! {

/// The SHA-256 digest of a byte sequence.
pub uninterp spec fn sha256_of(data: Seq<u8>) -> Seq<u8>;

/// Relies on `sha2::Sha256::digest`: the SHA-256 digest of the bytes, whose
/// output type holds 32 bytes.
#[verifier::external_body]
fn sha256_digest(data: &[u8]) -> (r: Vec<u8>)
    ensures
        r@ == sha256_of(data@),
        r@.len() == 32,
{
    <sha2::Sha256 as sha2::Digest>::digest(data).to_vec()
}

const HEX_DIGITS: &'static str = "0123456789abcdef";

/// The lower-case hexadecimal digit of a value below 16.
pub open spec fn hex_digit(n: int) -> char {
    (if n < 10 {
        48 + n
    } else {
        87 + n
    }) as u32 as char
}

/// Two lower-case hexadecimal digits per byte, high half first.
pub open spec fn hex_of(b: Seq<u8>) -> Seq<char>
    decreases b.len(),
{
    if b.len() == 0 {
        seq![]
    } else {
        hex_of(b.drop_last()) + seq![hex_digit(b.last() as int / 16), hex_digit(b.last() as int % 16)]
    }
}

fn push_hex_digit(s: &mut String, n: u8)
    requires
        n < 16,
    ensures
        final(s)@ == old(s)@ + seq![hex_digit(n as int)],
{
    proof {
        reveal_strlit("0123456789abcdef");
    }
    let d = HEX_DIGITS.substring_char(n as usize, n as usize + 1);
    assert(d@ =~= seq![hex_digit(n as int)]);
    s.append(d);
}

/// Writes bytes as lower-case hexadecimal.
pub fn to_hex(b: &[u8]) -> (r: String)
    ensures
        r@ == hex_of(b@),
{
    let mut s = String::new();
    let mut i: usize = 0;
    while i < b.len()
        invariant
            i <= b@.len(),
            s@ == hex_of(b@.take(i as int)),
        decreases b@.len() - i,
    {
        let x = b[i];
        push_hex_digit(&mut s, x / 16);
        push_hex_digit(&mut s, x % 16);
        assert(b@.take(i + 1).drop_last() =~= b@.take(i as int));
        i = i + 1;
    }
    assert(b@.take(i as int) =~= b@);
    s
}

/// Unicode white space, as `char::is_whitespace` decides it.
pub open spec fn is_space(c: char) -> bool {
    let u = c as u32;
    ||| 9 <= u <= 13
    ||| u == 0x20
    ||| u == 0x85
    ||| u == 0xa0
    ||| u == 0x1680
    ||| 0x2000 <= u <= 0x200a
    ||| u == 0x2028
    ||| u == 0x2029
    ||| u == 0x202f
    ||| u == 0x205f
    ||| u == 0x3000
}

fn is_space_exec(c: char) -> (r: bool)
    ensures
        r == is_space(c),
{
    let u = c as u32;
    (9 <= u && u <= 13) || u == 0x20 || u == 0x85 || u == 0xa0 || u == 0x1680 || (0x2000 <= u
        && u <= 0x200a) || u == 0x2028 || u == 0x2029 || u == 0x202f || u == 0x205f || u == 0x3000
}

/// The characters before the first white space.
pub open spec fn leading_word(s: Seq<char>) -> Seq<char>
    decreases s.len(),
{
    if s.len() == 0 || is_space(s[0]) {
        seq![]
    } else {
        seq![s[0]] + leading_word(s.drop_first())
    }
}

/// The first whitespace-delimited token; empty when there is none.
pub open spec fn first_token(s: Seq<char>) -> Seq<char>
    decreases s.len(),
{
    if s.len() == 0 {
        seq![]
    } else if is_space(s[0]) {
        first_token(s.drop_first())
    } else {
        leading_word(s)
    }
}

/// The first whitespace-delimited token of a text: a published checksum file
/// holds the digest, then a file name.
pub fn first_token_of(text: &str) -> (r: &str)
    ensures
        r@ == first_token(text@),
{
    let n = text.unicode_len();
    let mut start: usize = 0;
    assert(text@.subrange(0, n as int) =~= text@);
    while start < n && is_space_exec(text.get_char(start))
        invariant
            n == text@.len(),
            start <= n,
            first_token(text@) == first_token(text@.subrange(start as int, n as int)),
        decreases n - start,
    {
        assert(text@.subrange(start as int, n as int).drop_first() =~= text@.subrange(
            start + 1,
            n as int,
        ));
        start = start + 1;
    }
    let mut end: usize = start;
    while end < n && !is_space_exec(text.get_char(end))
        invariant
            n == text@.len(),
            start <= end <= n,
            leading_word(text@.subrange(start as int, n as int)) == text@.subrange(
                start as int,
                end as int,
            ) + leading_word(text@.subrange(end as int, n as int)),
        decreases n - end,
    {
        assert(text@.subrange(end as int, n as int).drop_first() =~= text@.subrange(
            end + 1,
            n as int,
        ));
        assert(text@.subrange(start as int, end + 1) =~= text@.subrange(start as int, end as int)
            + seq![text@[end as int]]);
        end = end + 1;
    }
    assert(leading_word(text@.subrange(end as int, n as int)) =~= seq![]);
    assert(text@.subrange(start as int, end as int) + seq![] =~= text@.subrange(
        start as int,
        end as int,
    ));
    text.substring_char(start, end)
}

/// A digest is accepted when the first token of the published text is its
/// hexadecimal form, in either case.
pub open spec fn digest_accepted(digest: Seq<u8>, published: Seq<char>) -> bool {
    eq_fold(first_token(published), hex_of(digest))
}

/// The outcome of checking a digest against a published checksum text.
pub open spec fn digest_check_ok(r: Result<(), PackError>, digest: Seq<u8>, published: Seq<char>) -> bool {
    if digest_accepted(digest, published) {
        r is Ok
    } else {
        match r {
            Err(PackError::ChecksumFailed { expected, got }) => {
                &&& expected@ == first_token(published)
                &&& got@ == hex_of(digest)
            },
            _ => false,
        }
    }
}

/// Checks a computed digest against a published checksum text, of which only
/// the first token counts; a mismatch names both values.
pub fn check_digest(digest: &[u8], published: &str) -> (r: Result<(), PackError>)
    ensures
        digest_check_ok(r, digest@, published@),
{
    let got = to_hex(digest);
    let expected = first_token_of(published);
    if eq_ignore_ascii_case(expected, got.as_str()) {
        Ok(())
    } else {
        Err(PackError::ChecksumFailed { expected: String::from_str(expected), got })
    }
}

/// Verifies file contents against a published SHA-256 checksum text.
pub fn verify_sha256(contents: &[u8], published: &str) -> (r: Result<(), PackError>)
    ensures
        digest_check_ok(r, sha256_of(contents@), published@),
{
    let digest = sha256_digest(contents);
    check_digest(digest.as_slice(), published)
}

proof fn lemma_hex_of_index(b: Seq<u8>)
    ensures
        hex_of(b).len() == 2 * b.len(),
        forall|k: int|
            0 <= k < b.len() ==> {
                &&& #[trigger] hex_of(b)[2 * k] == hex_digit(b[k] as int / 16)
                &&& hex_of(b)[2 * k + 1] == hex_digit(b[k] as int % 16)
            },
    decreases b.len(),
{
    if b.len() > 0 {
        lemma_hex_of_index(b.drop_last());
        assert forall|k: int| 0 <= k < b.len() implies {
            &&& #[trigger] hex_of(b)[2 * k] == hex_digit(b[k] as int / 16)
            &&& hex_of(b)[2 * k + 1] == hex_digit(b[k] as int % 16)
        } by {
            if k < b.len() - 1 {
                assert(b.drop_last()[k] == b[k]);
            }
        }
    }
}

proof fn lemma_hex_digit_fold(x: int, y: int)
    requires
        0 <= x < 16,
        0 <= y < 16,
        fold_char(hex_digit(x)) == fold_char(hex_digit(y)),
    ensures
        x == y,
{
    let cx: u32 = (if x < 10 { 48 + x } else { 87 + x }) as u32;
    let cy: u32 = (if y < 10 { 48 + y } else { 87 + y }) as u32;
    assert((cx as char) as u32 == cx);
    assert((cy as char) as u32 == cy);
}

/// Checking is a function of the file's digest and the published text: two
/// checks of the same contents against the same text agree.
pub proof fn lemma_verification_deterministic(
    first: Result<(), PackError>,
    second: Result<(), PackError>,
    contents: Seq<u8>,
    published: Seq<char>,
)
    requires
        digest_check_ok(first, sha256_of(contents), published),
        digest_check_ok(second, sha256_of(contents), published),
    ensures
        (first is Ok) == (second is Ok),
{
}

/// A published checksum accepts one digest at most: once a digest is
/// accepted, any other digest, such as that of an altered file, is rejected.
pub proof fn lemma_altered_digest_rejected(accepted: Seq<u8>, other: Seq<u8>, published: Seq<char>)
    requires
        digest_accepted(accepted, published),
        other != accepted,
    ensures
        !digest_accepted(other, published),
{
    if digest_accepted(other, published) {
        let t = first_token(published);
        lemma_hex_of_index(accepted);
        lemma_hex_of_index(other);
        assert forall|k: int| 0 <= k < accepted.len() implies other[k] == accepted[k] by {
            assert(fold_char(t[2 * k]) == fold_char(hex_of(accepted)[2 * k]));
            assert(fold_char(t[2 * k]) == fold_char(hex_of(other)[2 * k]));
            assert(fold_char(t[2 * k + 1]) == fold_char(hex_of(accepted)[2 * k + 1]));
            assert(fold_char(t[2 * k + 1]) == fold_char(hex_of(other)[2 * k + 1]));
            lemma_hex_digit_fold(accepted[k] as int / 16, other[k] as int / 16);
            lemma_hex_digit_fold(accepted[k] as int % 16, other[k] as int % 16);
        }
        assert(other =~= accepted);
    }
}

} // verus!
