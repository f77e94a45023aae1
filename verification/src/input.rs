//! Parsing of host-side input lines into guest byte sequences: either raw
//! text bytes or, after a leading `x`, pairs of hexadecimal digits.

use vstd::prelude::*;

verus! {

use vstd::string::StringSliceAdditionalSpecFns;

/// Whether `b` is the ASCII code of a hexadecimal digit, either case.
pub open spec fn is_hex_digit(b: u8) -> bool {
    (0x30 <= b <= 0x39) || (0x61 <= b <= 0x66) || (0x41 <= b <= 0x46)
}

/// The numeric value of a hexadecimal digit's ASCII code.
pub open spec fn hex_val(b: u8) -> u8 {
    if 0x30 <= b <= 0x39 {
        (b - 0x30) as u8
    } else if 0x61 <= b <= 0x66 {
        (b - 0x61 + 10) as u8
    } else {
        (b - 0x41 + 10) as u8
    }
}

/// The bytes encoded by the hexadecimal digit pairs of `bs` from `pos` on,
/// two digits to a byte. A chunk that is not two hexadecimal digits is
/// skipped; a final lone digit encodes its own value.
pub open spec fn hex_chunked(bs: Seq<u8>, pos: nat) -> Seq<u8>
    decreases bs.len() - pos,
{
    if pos >= bs.len() {
        Seq::empty()
    } else if pos + 1 == bs.len() {
        if is_hex_digit(bs[pos as int]) {
            seq![hex_val(bs[pos as int])]
        } else {
            Seq::empty()
        }
    } else {
        let rest = hex_chunked(bs, pos + 2);
        if is_hex_digit(bs[pos as int]) && is_hex_digit(bs[pos as int + 1]) {
            seq![(hex_val(bs[pos as int]) * 16 + hex_val(bs[pos as int + 1])) as u8] + rest
        } else {
            rest
        }
    }
}

/// The guest bytes encoded by an input line: after a leading `x`, its
/// hexadecimal digit pairs followed by two zero terminators; otherwise its
/// raw bytes followed by one zero terminator.
pub open spec fn str2bytes_s(bs: Seq<u8>) -> Seq<u8> {
    if bs.len() > 0 && bs[0] == 0x78 {
        hex_chunked(bs, 1) + seq![0u8, 0u8]
    } else {
        bs + seq![0u8]
    }
}

/// The numeric value of a hexadecimal digit's ASCII code, if it is one.
fn hex_digit_val(b: u8) -> (r: Option<u8>)
    ensures
        match r {
            Some(v) => is_hex_digit(b) && v == hex_val(b),
            None => !is_hex_digit(b),
        },
{
    if 0x30 <= b && b <= 0x39 {
        Some(b - 0x30)
    } else if 0x61 <= b && b <= 0x66 {
        Some(b - 0x61 + 10)
    } else if 0x41 <= b && b <= 0x46 {
        Some(b - 0x41 + 10)
    } else {
        None
    }
}

/// Turn an input line into guest bytes: a line starting with `x` is read as
/// hexadecimal digit pairs and gets two zero terminators, any other line is
/// taken verbatim and gets one.
pub fn str2bytes(s: &str) -> (r: Vec<u8>)
    ensures
        r@ == str2bytes_s(s.spec_bytes()),
{
    let bytes = s.as_bytes();
    let ghost bs = s.spec_bytes();
    let mut out: Vec<u8> = Vec::new();
    if bytes.len() > 0 && bytes[0] == 0x78 {
        let mut pos: usize = 1;
        while pos < bytes.len()
            invariant
                1 <= pos,
                bytes@ == bs,
                hex_chunked(bs, 1) == out@ + hex_chunked(bs, pos as nat),
            decreases bytes@.len() - pos,
        {
            if pos + 1 == bytes.len() {
                match hex_digit_val(bytes[pos]) {
                    Some(v) => out.push(v),
                    None => {},
                }
                pos = pos + 1;
            } else {
                match hex_digit_val(bytes[pos]) {
                    Some(hi) => {
                        match hex_digit_val(bytes[pos + 1]) {
                            Some(lo) => out.push(hi * 16 + lo),
                            None => {},
                        }
                    },
                    None => {},
                }
                pos = pos + 2;
            }
        }
        out.push(0);
        out.push(0);
        proof {
            assert(out@ =~= str2bytes_s(bs));
        }
    } else {
        let mut pos: usize = 0;
        while pos < bytes.len()
            invariant
                bytes@ == bs,
                pos <= bs.len(),
                out@ == bs.subrange(0, pos as int),
            decreases bytes@.len() - pos,
        {
            out.push(bytes[pos]);
            proof {
                assert(out@ =~= bs.subrange(0, pos + 1));
            }
            pos = pos + 1;
        }
        out.push(0);
        proof {
            assert(out@ =~= str2bytes_s(bs));
        }
    }
    out
}

} // verus!
