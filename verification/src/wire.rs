//! The line-oriented wire protocol: ASCII decimal rendering of sample lines
//! and the handshake request.
//!
//! One streaming line is `SMPL <index> <value>\n`, where `<index>` is the
//! sample index in decimal and `<value>` is the fixed-point sample value as
//! a signed decimal with exactly seven digits after the point.

use vstd::prelude::*;

verus! {

/// The ASCII decimal digits of `n`, most significant first, with no leading
/// zeros (a single `'0'` for zero).
pub open spec fn dec_rep(n: nat) -> Seq<u8>
    decreases n,
{
    if n < 10 {
        seq![(n + 48) as u8]
    } else {
        dec_rep(n / 10).push((n % 10 + 48) as u8)
    }
}

/// Renders `n` in ASCII decimal.
pub fn u64_dec(n: u64) -> (v: Vec<u8>)
    ensures
        v@ == dec_rep(n as nat),
    decreases n,
{
    if n < 10 {
        let mut v: Vec<u8> = Vec::new();
        v.push((n as u8) + 48);
        proof {
            assert(v@ =~= dec_rep(n as nat));
        }
        v
    } else {
        let mut v: Vec<u8> = u64_dec(n / 10);
        v.push(((n % 10) as u8) + 48);
        proof {
            assert(v@ =~= dec_rep(n as nat));
        }
        v
    }
}

/// Exactly seven ASCII digits: the fractional unit count `f`, zero-padded on
/// the left, least significant digit last.
pub open spec fn frac7(f: nat) -> Seq<u8> {
    seq![
        ((f / 1000000) % 10 + 48) as u8,
        ((f / 100000) % 10 + 48) as u8,
        ((f / 10000) % 10 + 48) as u8,
        ((f / 1000) % 10 + 48) as u8,
        ((f / 100) % 10 + 48) as u8,
        ((f / 10) % 10 + 48) as u8,
        (f % 10 + 48) as u8,
    ]
}

/// Appends the seven zero-padded fractional digits of `f` to `out`.
fn push_frac7(out: &mut Vec<u8>, f: u64)
    ensures
        final(out)@ == old(out)@ + frac7(f as nat),
{
    out.push((((f / 1000000) % 10) as u8) + 48);
    out.push((((f / 100000) % 10) as u8) + 48);
    out.push((((f / 10000) % 10) as u8) + 48);
    out.push((((f / 1000) % 10) as u8) + 48);
    out.push((((f / 100) % 10) as u8) + 48);
    out.push((((f / 10) % 10) as u8) + 48);
    out.push(((f % 10) as u8) + 48);
    proof {
        assert(out@ =~= old(out)@ + frac7(f as nat));
    }
}

/// The magnitude of a signed fixed-point unit count.
pub open spec fn abs_units(u: int) -> nat {
    if u >= 0 {
        u as nat
    } else {
        (-u) as nat
    }
}

/// One wire line `SMPL <index> <value>\n`: the literal `SMPL`, a space, the
/// index in decimal, a space, a minus sign for negative values, the whole
/// unit part in decimal, a point, seven fractional digits, and a newline.
pub open spec fn sample_line(index: nat, units: int) -> Seq<u8> {
    seq![83u8, 77u8, 80u8, 76u8, 32u8] + dec_rep(index) + seq![32u8] + (if units < 0 {
        seq![45u8]
    } else {
        Seq::<u8>::empty()
    }) + dec_rep(abs_units(units) / 10000000) + seq![46u8] + frac7(abs_units(units) % 10000000)
        + seq![10u8]
}

/// Renders one `SMPL` line for the sample at `index` with fixed-point value
/// `units`.
pub fn format_sample_line(index: usize, units: i64) -> (line: Vec<u8>)
    requires
        units != i64::MIN,
    ensures
        line@ == sample_line(index as nat, units as int),
{
    let mut line: Vec<u8> = Vec::new();
    line.push(83);
    line.push(77);
    line.push(80);
    line.push(76);
    line.push(32);
    let mut idx: Vec<u8> = u64_dec(index as u64);
    line.append(&mut idx);
    line.push(32);
    if units < 0 {
        line.push(45);
    }
    let mag: u64 = if units >= 0 {
        units as u64
    } else {
        (-units) as u64
    };
    let mut whole: Vec<u8> = u64_dec(mag / 10000000);
    line.append(&mut whole);
    line.push(46);
    push_frac7(&mut line, mag % 10000000);
    line.push(10);
    proof {
        assert(line@ =~= sample_line(index as nat, units as int));
    }
    line
}

/// The one-shot handshake request: the literal line `CONFIG\n`.
pub open spec fn handshake_request_line() -> Seq<u8> {
    seq![67u8, 79u8, 78u8, 70u8, 73u8, 71u8, 10u8]
}

/// Renders the handshake request line `CONFIG\n`.
pub fn handshake_request() -> (line: Vec<u8>)
    ensures
        line@ == handshake_request_line(),
{
    let mut line: Vec<u8> = Vec::new();
    line.push(67);
    line.push(79);
    line.push(78);
    line.push(70);
    line.push(73);
    line.push(71);
    line.push(10);
    proof {
        assert(line@ =~= handshake_request_line());
    }
    line
}

} // verus!
