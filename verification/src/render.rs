//! Textual renderings of captured packets.
//!
//! Bodies are displayed with every non-ASCII byte replaced by `.`; this is a
//! display concern only and never touches the stored bytes. Numbers are
//! rendered in decimal.

use vstd::prelude::*;
use vstd::string::StringExecFns;

verus! {

/// The display form of one body byte: ASCII bytes stand for themselves,
/// anything else shows as `.`.
pub open spec fn ascii_or_dot(b: u8) -> char {
    if b < 128 {
        b as char
    } else {
        '.'
    }
}

/// The display form of a body: one character per byte.
pub open spec fn lossy_ascii_view(bytes: Seq<u8>) -> Seq<char> {
    bytes.map_values(|b: u8| ascii_or_dot(b))
}

/// Relies on `String::push` of std: appends exactly the given character.
#[verifier::external_body]
pub(crate) fn push_char(s: &mut String, c: char)
    ensures
        final(s)@ == old(s)@.push(c),
{
    s.push(c);
}

/// Appends the display form of `bytes` to `out`.
pub fn push_lossy_ascii(out: &mut String, bytes: &Vec<u8>)
    ensures
        final(out)@ == old(out)@ + lossy_ascii_view(bytes@),
{
    let ghost base = out@;
    let mut i: usize = 0;
    while i < bytes.len()
        invariant
            i <= bytes.len(),
            out@ == base + lossy_ascii_view(bytes@).take(i as int),
        decreases bytes.len() - i,
    {
        let b = bytes[i];
        let c: char = if b < 128 {
            b as char
        } else {
            '.'
        };
        push_char(out, c);
        proof {
            assert(lossy_ascii_view(bytes@).take(i + 1) =~= lossy_ascii_view(bytes@).take(
                i as int,
            ).push(c));
        }
        i = i + 1;
    }
    proof {
        assert(lossy_ascii_view(bytes@).take(bytes@.len() as int) =~= lossy_ascii_view(bytes@));
    }
}

/// The decimal digit characters of `n`, most significant first.
pub open spec fn dec_digits(n: nat) -> Seq<char>
    decreases n,
{
    if n < 10 {
        seq![((48 + n) as u8) as char]
    } else {
        dec_digits(n / 10).push(((48 + n % 10) as u8) as char)
    }
}

/// Appends the decimal rendering of `n` to `out`.
pub fn push_dec(out: &mut String, n: usize)
    ensures
        final(out)@ == old(out)@ + dec_digits(n as nat),
    decreases n,
{
    if n >= 10 {
        push_dec(out, n / 10);
    }
    let d: u8 = 48 + (n % 10) as u8;
    push_char(out, d as char);
}

/// The rendering of header lines: `key: value` each on a line of its own.
pub open spec fn header_lines(hdrs: Seq<(Seq<char>, Seq<char>)>) -> Seq<char>
    decreases hdrs.len(),
{
    if hdrs.len() == 0 {
        Seq::empty()
    } else {
        header_lines(hdrs.drop_last()) + hdrs.last().0 + seq![':', ' '] + hdrs.last().1
            + seq!['\n']
    }
}

/// Appends `key: value` lines for all headers to `out`.
pub fn push_header_lines(out: &mut String, hdrs: &Vec<(String, String)>)
    ensures
        final(out)@ == old(out)@ + header_lines(
            hdrs@.map_values(|kv: (String, String)| (kv.0@, kv.1@)),
        ),
{
    let ghost base = out@;
    let ghost hview = hdrs@.map_values(|kv: (String, String)| (kv.0@, kv.1@));
    let mut i: usize = 0;
    while i < hdrs.len()
        invariant
            i <= hdrs.len(),
            hview == hdrs@.map_values(|kv: (String, String)| (kv.0@, kv.1@)),
            hview.len() == hdrs@.len(),
            out@ == base + header_lines(hview.take(i as int)),
        decreases hdrs.len() - i,
    {
        let key = &hdrs[i].0;
        let value = &hdrs[i].1;
        out.append(key.as_str());
        push_char(out, ':');
        push_char(out, ' ');
        out.append(value.as_str());
        push_char(out, '\n');
        proof {
            let t = hview.take(i + 1);
            assert(t.drop_last() =~= hview.take(i as int));
            assert(t.last() == hview[i as int]);
            assert(out@ =~= base + header_lines(hview.take(i + 1)));
        }
        i = i + 1;
    }
    proof {
        assert(hview.take(hview.len() as int) =~= hview);
    }
}

} // verus!
