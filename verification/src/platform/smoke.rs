//! Early smoke-test output helpers: decimal formatting of boot facts and
//! decoding of the SBI specification version.

use vstd::prelude::*;

use super::early_console::EarlyConsole;

verus! {

/// ASCII decimal digits of a positive number, most significant first (empty
/// for zero).
pub open spec fn digits_rec(v: nat) -> Seq<u8>
    decreases v,
{
    if v == 0 {
        Seq::empty()
    } else {
        digits_rec(v / 10).push((48 + v % 10) as u8)
    }
}

/// ASCII decimal representation of a number (`"0"` for zero).
pub open spec fn decimal_spec(v: nat) -> Seq<u8> {
    if v == 0 {
        seq![48u8]
    } else {
        digits_rec(v)
    }
}

fn push_digits(v: u32, out: &mut Vec<u8>)
    ensures
        final(out)@ == old(out)@ + digits_rec(v as nat),
    decreases v,
{
    if v == 0 {
        assert(old(out)@ + digits_rec(0) =~= old(out)@);
        return;
    }
    push_digits(v / 10, out);
    let d = (v % 10) as u8;
    out.push(48 + d);
    assert(final(out)@ =~= old(out)@ + digits_rec(v as nat));
}

/// The decimal digits of `val`, most significant first.
pub fn decimal_digits(val: u32) -> (d: Vec<u8>)
    ensures
        d@ == decimal_spec(val as nat),
{
    let mut out: Vec<u8> = Vec::new();
    if val == 0 {
        out.push(48);
        return out;
    }
    push_digits(val, &mut out);
    assert(out@ =~= digits_rec(val as nat));
    out
}

/// Emit the digits of a positive `v` (none for zero), most significant
/// first; returns `log` extended by them.
fn emit_digits<C: EarlyConsole>(console: &C, v: u32, log: Ghost<Seq<u8>>) -> (r: Ghost<Seq<u8>>)
    ensures
        r@ == log@ + digits_rec(v as nat),
    decreases v,
{
    if v == 0 {
        assert(log@ + digits_rec(0) =~= log@);
        return log;
    }
    let Ghost(before) = emit_digits(console, v / 10, log);
    let d = (v % 10) as u8;
    let r = console.putchar_logged(48u8 + d, Ghost(before));
    assert(r@ =~= log@ + digits_rec(v as nat));
    r
}

/// Print `val` in decimal on the early console, one `putchar` per digit,
/// most significant first, without allocating. Returns the bytes handed to
/// `putchar`: exactly [`decimal_spec`] of `val`.
pub fn print_decimal<C: EarlyConsole>(console: &C, val: u32) -> (emitted: Ghost<Seq<u8>>)
    ensures
        emitted@ == decimal_spec(val as nat),
{
    if val == 0 {
        let r = console.putchar_logged(48u8, Ghost(Seq::empty()));
        assert(r@ =~= decimal_spec(0));
        return r;
    }
    let r = emit_digits(console, val, Ghost(Seq::empty()));
    assert(r@ =~= decimal_spec(val as nat));
    r
}

/// The value a sequence of ASCII decimal digits denotes.
pub open spec fn digits_value(s: Seq<u8>) -> int
    decreases s.len(),
{
    if s.len() == 0 {
        0
    } else {
        digits_value(s.drop_last()) * 10 + (s.last() - 48)
    }
}

proof fn lemma_digits_rec(v: nat)
    ensures
        forall|i: int| 0 <= i < digits_rec(v).len() ==> 48 <= #[trigger] digits_rec(v)[i] <= 57,
        digits_value(digits_rec(v)) == v,
        v > 0 ==> digits_rec(v).len() > 0 && digits_rec(v)[0] != 48u8,
        v == 0 ==> digits_rec(v).len() == 0,
    decreases v,
{
    if v > 0 {
        lemma_digits_rec(v / 10);
        let p = digits_rec(v / 10);
        assert(digits_rec(v).drop_last() =~= p);
        assert forall|i: int| 0 <= i < digits_rec(v).len() implies 48 <= #[trigger] digits_rec(
            v,
        )[i] <= 57 by {
            if i < p.len() {
                assert(digits_rec(v)[i] == p[i]);
            }
        }
        if v / 10 > 0 {
            assert(digits_rec(v)[0] == p[0]);
        }
    }
}

/// What `print_decimal` prints is the decimal notation of the value: only
/// ASCII digits, at least one, no leading zero unless the value is zero,
/// and read back as a number it is exactly the value.
pub proof fn lemma_decimal_spec_denotes_value(v: nat)
    ensures
        decimal_spec(v).len() >= 1,
        forall|i: int| 0 <= i < decimal_spec(v).len() ==> 48 <= #[trigger] decimal_spec(v)[i] <= 57,
        digits_value(decimal_spec(v)) == v,
        decimal_spec(v).len() > 1 ==> decimal_spec(v)[0] != 48u8,
        v > 0 ==> decimal_spec(v)[0] != 48u8,
{
    lemma_digits_rec(v);
    if v == 0 {
        assert(decimal_spec(0).drop_last() =~= Seq::<u8>::empty());
    }
}

/// `(major, minor)` of an SBI specification version word: bits 30:24 and
/// bits 23:0.
pub fn sbi_version_parts(version: usize) -> (r: (usize, usize))
    ensures
        r.0 == (version >> 24usize) & 0x7f,
        r.1 == version & 0xffffff,
        r.0 < 128,
        r.1 < 0x1000000,
{
    let major = (version >> 24) & 0x7f;
    let minor = version & 0xffffff;
    assert(major < 128) by (bit_vector)
        requires
            major == (version >> 24usize) & 0x7f,
    ;
    assert(minor < 0x1000000) by (bit_vector)
        requires
            minor == version & 0xffffff,
    ;
    (major, minor)
}

} // verus!
