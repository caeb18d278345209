//! Media types, and bytes as text.
use crate::text;
use vstd::prelude::*;

verus! {

/// A media type without its parameters: what stands before the first `;`.
pub open spec fn bare(mime: Seq<char>) -> Seq<char> {
    text::before(mime, ';')
}

/// What kind of medium a type names: what stands before the `/`.
pub open spec fn kind(mime: Seq<char>) -> Seq<char> {
    text::before(bare(mime), '/')
}

/// Which of its kind a type names: what stands behind the first `/`.
pub open spec fn subtype(mime: Seq<char>) -> Seq<char> {
    text::behind(bare(mime), '/')
}

/// The kind of a media type and what it names within the kind.
pub fn parts(mime: &str) -> (r: (String, String))
    ensures
        r.0@ == kind(mime@),
        r.1@ == subtype(mime@),
{
    let bare = text::take_before(mime, ';');
    (text::take_before(bare.as_str(), '/'), text::take_behind(bare.as_str(), '/'))
}

/// What kind of medium a type names.
pub fn essence(mime: &str) -> (r: String)
    ensures
        r@ == kind(mime@),
{
    parts(mime).0
}

/// The digit that stands for six bits.
pub open spec fn digit(n: int) -> char {
    if n < 26 {
        (('A' as int) + n) as char
    } else if n < 52 {
        (('a' as int) + n - 26) as char
    } else if n < 62 {
        (('0' as int) + n - 52) as char
    } else if n == 62 {
        '+'
    } else {
        '/'
    }
}

/// Twenty-four bits as four digits.
pub open spec fn quad(n: int) -> Seq<char> {
    seq![digit(n / 262144), digit(n / 4096 % 64), digit(n / 64 % 64), digit(n % 64)]
}

/// Three bytes as twenty-four bits.
pub open spec fn bits(a: u8, b: u8, c: u8) -> int {
    a as int * 65536 + b as int * 256 + c as int
}

/// Bytes as base64 text: each three bytes are four digits, and a rest of one
/// or two bytes is filled up with `=`.
pub open spec fn encoded(bytes: Seq<u8>) -> Seq<char>
    decreases bytes.len(),
{
    if bytes.len() == 0 {
        Seq::empty()
    } else if bytes.len() == 1 {
        quad(bits(bytes[0], 0, 0)).update(2, '=').update(3, '=')
    } else if bytes.len() == 2 {
        quad(bits(bytes[0], bytes[1], 0)).update(3, '=')
    } else {
        quad(bits(bytes[0], bytes[1], bytes[2])) + encoded(bytes.skip(3))
    }
}

/// Bytes of a media type as an address.
pub open spec fn address(mime: Seq<char>, bytes: Seq<u8>) -> Seq<char> {
    "data:"@ + mime + ";base64,"@ + encoded(bytes)
}

fn base64_digit(n: u32) -> (r: char)
    requires
        n < 64,
    ensures
        r == digit(n as int),
{
    if n < 26 {
        (65u8 + n as u8) as char
    } else if n < 52 {
        (97u8 + (n - 26) as u8) as char
    } else if n < 62 {
        (48u8 + (n - 52) as u8) as char
    } else if n == 62 {
        '+'
    } else {
        '/'
    }
}

/// Appends the digits of three bytes, the last `fill` of them as `=`.
fn push_quad(out: &mut String, a: u8, b: u8, c: u8, fill: u32)
    requires
        fill <= 2,
    ensures
        final(out)@ == old(out)@ + (if fill == 0 {
            quad(bits(a, b, c))
        } else if fill == 1 {
            quad(bits(a, b, c)).update(3, '=')
        } else {
            quad(bits(a, b, c)).update(2, '=').update(3, '=')
        }),
{
    let n: u32 = a as u32 * 65536 + b as u32 * 256 + c as u32;
    let third = if fill >= 2 {
        '='
    } else {
        base64_digit(n / 64 % 64)
    };
    let fourth = if fill >= 1 {
        '='
    } else {
        base64_digit(n % 64)
    };
    out.push(base64_digit(n / 262144));
    out.push(base64_digit(n / 4096 % 64));
    out.push(third);
    out.push(fourth);
    assert(out@ =~= old(out)@ + seq![
        digit(bits(a, b, c) / 262144),
        digit(bits(a, b, c) / 4096 % 64),
        third,
        fourth,
    ]);
    assert(quad(bits(a, b, c)).update(3, '=') =~= seq![
        digit(bits(a, b, c) / 262144),
        digit(bits(a, b, c) / 4096 % 64),
        digit(bits(a, b, c) / 64 % 64),
        '=',
    ]);
    assert(quad(bits(a, b, c)).update(2, '=').update(3, '=') =~= seq![
        digit(bits(a, b, c) / 262144),
        digit(bits(a, b, c) / 4096 % 64),
        '=',
        '=',
    ]);
}

/// Bytes as base64 text.
pub fn base64(bytes: &Vec<u8>) -> (r: String)
    ensures
        r@ == encoded(crate::model::values(bytes@)),
{
    let ghost all = crate::model::values(bytes@);
    let mut out = String::new();
    let mut i: usize = 0;
    assert(all.skip(0) =~= all);
    assert(out@ + encoded(all.skip(0)) =~= encoded(all));
    while bytes.len() - i >= 3
        invariant
            i <= bytes@.len(),
            all == crate::model::values(bytes@),
            out@ + encoded(all.skip(i as int)) == encoded(all),
        decreases bytes.len() - i,
    {
        let ghost rest = all.skip(i as int);
        let ghost before = out@;
        push_quad(&mut out, bytes[i], bytes[i + 1], bytes[i + 2], 0);
        proof {
            assert(rest.skip(3) =~= all.skip(i + 3));
            lemma_append(before, quad(bits(rest[0], rest[1], rest[2])), encoded(all.skip(i + 3)));
        }
        i = i + 3;
    }
    let ghost rest = all.skip(i as int);
    if bytes.len() - i == 2 {
        push_quad(&mut out, bytes[i], bytes[i + 1], 0, 1);
    } else if bytes.len() - i == 1 {
        push_quad(&mut out, bytes[i], 0, 0, 2);
    } else {
        assert(out@ =~= out@ + encoded(rest));
    }
    out
}

proof fn lemma_append(a: Seq<char>, b: Seq<char>, c: Seq<char>)
    ensures
        a + b + c == a + (b + c),
{
    assert(a + b + c =~= a + (b + c));
}

/// Bytes of a media type as an address.
pub fn data_uri(mime: &str, bytes: &Vec<u8>) -> (r: String)
    ensures
        r@ == address(mime@, crate::model::values(bytes@)),
{
    "data:".to_owned().concat(mime).concat(";base64,").concat(base64(bytes).as_str())
}

} // verus!
