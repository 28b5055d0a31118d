//! Shared helpers around the data model: human-readable size
//! formatting.

use vstd::prelude::*;

use crate::strutil::dec_digits_of;
use crate::strutil::digit_char;
use crate::strutil::digit_str;
use crate::strutil::round_half_even;
use crate::strutil::round_half_even_u64;
use crate::strutil::u64_to_string;

verus! {

/// The value `b / div` scaled to hundredths and rounded to nearest,
/// ties to even; the whole quotient's parity decides a tie, and it
/// matches the fractional part's, a hundredfold being even.
pub open spec fn spec_hundredths(b: int, div: int) -> int {
    (b / div) * 100 + round_half_even((b % div) * 100, div)
}

/// A hundredths value rendered with two decimal places.
pub open spec fn spec_two_decimals(h: int) -> Seq<char> {
    dec_digits_of((h / 100) as nat) + "."@ + seq![
        digit_char((((h % 100) / 10)) as nat),
        digit_char(((h % 100) % 10) as nat),
    ]
}

/// A size in bytes as display text: scaled to the largest binary unit
/// it reaches, with two decimals, or plain bytes below one kibibyte.
pub open spec fn spec_format_size(size_bytes: u64) -> Seq<char> {
    let b = size_bytes as int;
    if b >= 0x40000000 {
        spec_two_decimals(spec_hundredths(b, 0x40000000)) + " GB"@
    } else if b >= 0x100000 {
        spec_two_decimals(spec_hundredths(b, 0x100000)) + " MB"@
    } else if b >= 0x400 {
        spec_two_decimals(spec_hundredths(b, 0x400)) + " KB"@
    } else {
        dec_digits_of(size_bytes as nat) + " bytes"@
    }
}

fn two_decimals(b: u64, div: u64) -> (r: String)
    requires
        1024 <= div <= 0x40000000,
    ensures
        r@ == spec_two_decimals(spec_hundredths(b as int, div as int)),
{
    let q = b / div;
    let rem = b % div;
    assert(q <= b / 1024) by (nonlinear_arith)
        requires
            1024 <= div,
            q == b / div,
            b <= u64::MAX,
    ;
    assert((rem * 100) as int / div as int <= 99) by (nonlinear_arith)
        requires
            1024 <= div,
            rem < div,
    ;
    let frac = round_half_even_u64(rem * 100, div);
    let h = q * 100 + frac;
    assert(h as int == spec_hundredths(b as int, div as int));
    let r = u64_to_string(h / 100).concat(".").concat(digit_str((h % 100) / 10)).concat(
        digit_str((h % 100) % 10),
    );
    proof {
        assert(r@ =~= spec_two_decimals(h as int));
    }
    r
}

/// Formats a size in bytes for display.
pub fn format_size(size_bytes: u64) -> (r: String)
    ensures
        r@ == spec_format_size(size_bytes),
{
    if size_bytes >= 0x40000000 {
        let r = two_decimals(size_bytes, 0x40000000).concat(" GB");
        proof {
            assert(r@ =~= spec_format_size(size_bytes));
        }
        r
    } else if size_bytes >= 0x100000 {
        let r = two_decimals(size_bytes, 0x100000).concat(" MB");
        proof {
            assert(r@ =~= spec_format_size(size_bytes));
        }
        r
    } else if size_bytes >= 0x400 {
        let r = two_decimals(size_bytes, 0x400).concat(" KB");
        proof {
            assert(r@ =~= spec_format_size(size_bytes));
        }
        r
    } else {
        let r = u64_to_string(size_bytes).concat(" bytes");
        proof {
            assert(r@ =~= spec_format_size(size_bytes));
        }
        r
    }
}

} // verus!
