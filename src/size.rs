//! Byte counts as human-readable text in binary units.
use vstd::prelude::*;
use crate::text::{nat_text, two_digits, push_char, push_nat, push_two_digits};

verus! {

pub const BYTES_IN_KILOBYTE: u64 = 1024;
pub const BYTES_IN_MEGABYTE: u64 = 1048576;
pub const BYTES_IN_GIGABYTE: u64 = 1073741824;

/// `n / d` in hundredths, rounded to nearest with ties to even.
pub open spec fn rounded_hundredths(n: nat, d: nat) -> nat
    recommends
        d > 0,
{
    let q = n * 100 / d;
    let rem = n * 100 % d;
    if 2 * rem > d || (2 * rem == d && q % 2 == 1) {
        q + 1
    } else {
        q
    }
}

/// A count of hundredths written with two decimals ("2.00").
pub open spec fn fixed2_text(h: nat) -> Seq<char> {
    nat_text(h / 100) + seq!['.'] + two_digits(h % 100)
}

/// `n` bytes as text: whole bytes below a kilobyte ("512 b"), else two decimals
/// in the largest binary unit that is at most `n` ("2.00 kb", "1.50 mb", "3.25 gb").
pub open spec fn human_size(n: nat) -> Seq<char> {
    if n >= BYTES_IN_GIGABYTE {
        fixed2_text(rounded_hundredths(n, BYTES_IN_GIGABYTE as nat)) + seq![' ', 'g', 'b']
    } else if n >= BYTES_IN_MEGABYTE {
        fixed2_text(rounded_hundredths(n, BYTES_IN_MEGABYTE as nat)) + seq![' ', 'm', 'b']
    } else if n >= BYTES_IN_KILOBYTE {
        fixed2_text(rounded_hundredths(n, BYTES_IN_KILOBYTE as nat)) + seq![' ', 'k', 'b']
    } else {
        nat_text(n) + seq![' ', 'b']
    }
}

fn push_fixed2(s: &mut String, n: u64, d: u64)
    requires
        d >= 1024,
    ensures
        final(s)@ == old(s)@ + fixed2_text(rounded_hundredths(n as nat, d as nat)),
{
    let scaled: u128 = (n as u128) * 100;
    let q: u128 = scaled / (d as u128);
    let rem: u128 = scaled % (d as u128);
    let h: u128 = if 2 * rem > d as u128 || (2 * rem == d as u128 && q % 2 == 1) {
        q + 1
    } else {
        q
    };
    assert(h == rounded_hundredths(n as nat, d as nat));
    assert(q <= scaled / 1024) by (nonlinear_arith)
        requires q == scaled / (d as u128), d >= 1024, scaled >= 0;
    assert(h < 0x1_0000_0000_0000_0000);
    push_nat(s, (h / 100) as u64);
    push_char(s, '.');
    push_two_digits(s, (h % 100) as u64);
    assert(final(s)@ =~= old(s)@ + fixed2_text(h as nat));
}

/// The size `file_size_in_bytes` as human-readable text.
pub fn adapt_file_size(file_size_in_bytes: u64) -> (r: String)
    ensures
        r@ == human_size(file_size_in_bytes as nat),
{
    let n = file_size_in_bytes;
    let mut s = String::new();
    if n >= BYTES_IN_GIGABYTE {
        push_fixed2(&mut s, n, BYTES_IN_GIGABYTE);
        push_char(&mut s, ' ');
        push_char(&mut s, 'g');
    } else if n >= BYTES_IN_MEGABYTE {
        push_fixed2(&mut s, n, BYTES_IN_MEGABYTE);
        push_char(&mut s, ' ');
        push_char(&mut s, 'm');
    } else if n >= BYTES_IN_KILOBYTE {
        push_fixed2(&mut s, n, BYTES_IN_KILOBYTE);
        push_char(&mut s, ' ');
        push_char(&mut s, 'k');
    } else {
        push_nat(&mut s, n);
        push_char(&mut s, ' ');
    }
    push_char(&mut s, 'b');
    assert(s@ =~= human_size(n as nat));
    s
}

} // verus!
