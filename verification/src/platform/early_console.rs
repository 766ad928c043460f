//! Early console abstraction: minimal character output before the async
//! UART is available.
//!
//! Must not depend on ring buffers, async tasks, IRQ delivery, PLIC
//! initialization, rootfs, or `/dev/console`. Designed for board bring-up
//! where only MMIO UART polling is reliable.

use vstd::prelude::*;
use vstd::string::StringSliceAdditionalSpecFns;

verus! {

/// The bytes an early console emits for `s`: every `\n` is preceded by a
/// `\r`; all other bytes pass through unchanged and in order.
pub open spec fn crlf_spec(s: Seq<u8>) -> Seq<u8>
    decreases s.len(),
{
    if s.len() == 0 {
        Seq::empty()
    } else if s.last() == 10u8 {
        crlf_spec(s.drop_last()).push(13u8).push(10u8)
    } else {
        crlf_spec(s.drop_last()).push(s.last())
    }
}

/// Expands `\n` into `\r\n` for terminal compatibility.
pub fn crlf_expand(bytes: &[u8]) -> (out: Vec<u8>)
    ensures
        out@ == crlf_spec(bytes@),
{
    let mut out: Vec<u8> = Vec::new();
    let mut i: usize = 0;
    while i < bytes.len()
        invariant
            i <= bytes@.len(),
            out@ == crlf_spec(bytes@.subrange(0, i as int)),
        decreases bytes@.len() - i,
    {
        let b = bytes[i];
        if b == 10u8 {
            out.push(13u8);
        }
        out.push(b);
        proof {
            let pre = bytes@.subrange(0, i as int);
            let next = bytes@.subrange(0, i + 1);
            assert(next.drop_last() =~= pre);
            assert(next.last() == b);
        }
        i = i + 1;
    }
    assert(bytes@.subrange(0, bytes@.len() as int) =~= bytes@);
    out
}

/// Minimal character output for early boot and bring-up.
///
/// Implementations must be usable before the async UART runtime exists.
/// The default [`write_str`](EarlyConsole::write_str) emits, through
/// `putchar`, exactly the bytes of [`crlf_expand`] applied to the string.
pub trait EarlyConsole {
    /// Emit a single byte (blocking, polling).
    fn putchar(&self, ch: u8);

    /// Emit `b` through `putchar`; returns `log` extended by that byte.
    fn putchar_logged(&self, b: u8, log: Ghost<Seq<u8>>) -> (r: Ghost<Seq<u8>>)
        ensures
            r@ == log@.push(b),
    {
        self.putchar(b);
        Ghost(log@.push(b))
    }

    /// Write a string with automatic `\n` -> `\r\n` conversion. Returns the
    /// bytes handed to `putchar`, in order: exactly [`crlf_spec`] of the
    /// string's bytes.
    fn write_str(&self, s: &str) -> (emitted: Ghost<Seq<u8>>)
        ensures
            emitted@ == crlf_spec(s.spec_bytes()),
    {
        let bytes = s.as_bytes();
        let mut i: usize = 0;
        let ghost mut out: Seq<u8> = Seq::empty();
        while i < bytes.len()
            invariant
                i <= bytes@.len(),
                out == crlf_spec(bytes@.take(i as int)),
            decreases bytes@.len() - i,
        {
            let b = bytes[i];
            proof {
                lemma_crlf_push(bytes@.take(i as int), b);
                assert(bytes@.take(i as int).push(b) =~= bytes@.take(i + 1));
            }
            if b == 10u8 {
                let Ghost(o) = self.putchar_logged(13u8, Ghost(out));
                proof {
                    out = o;
                }
            }
            let Ghost(o) = self.putchar_logged(b, Ghost(out));
            proof {
                out = o;
            }
            i = i + 1;
        }
        assert(bytes@.take(bytes@.len() as int) =~= bytes@);
        Ghost(out)
    }
}

/// Growing the input by one byte grows the output by that byte's expansion:
/// the conversion works byte by byte and never looks ahead or back.
pub proof fn lemma_crlf_push(s: Seq<u8>, b: u8)
    ensures
        crlf_spec(s.push(b)) == if b == 10u8 {
            crlf_spec(s).push(13u8).push(10u8)
        } else {
            crlf_spec(s).push(b)
        },
{
    assert(s.push(b).drop_last() =~= s);
}

/// The output is the input with one extra byte per newline, and input
/// without newlines passes through unchanged.
pub proof fn lemma_crlf_no_newline_is_identity(s: Seq<u8>)
    requires
        forall|i: int| 0 <= i < s.len() ==> s[i] != 10u8,
    ensures
        crlf_spec(s) == s,
    decreases s.len(),
{
    if s.len() > 0 {
        lemma_crlf_no_newline_is_identity(s.drop_last());
        assert(crlf_spec(s.drop_last()).push(s.last()) =~= s);
    }
}

/// The number of newlines in `s`.
pub open spec fn newline_count(s: Seq<u8>) -> nat
    decreases s.len(),
{
    if s.len() == 0 {
        0
    } else {
        newline_count(s.drop_last()) + if s.last() == 10u8 {
            1nat
        } else {
            0nat
        }
    }
}

/// Where every input byte lands in the console output: byte `i` of the
/// input appears at `i` plus the number of earlier newlines; a newline
/// appears there as `\r` immediately followed by `\n`, any other byte as
/// itself; and the output is one byte longer per newline.
pub proof fn lemma_crlf_positions(s: Seq<u8>)
    ensures
        crlf_spec(s).len() == s.len() + newline_count(s),
        forall|i: int|
            0 <= i < s.len() && #[trigger] s[i] != 10u8 ==> i + newline_count(s.take(i)) < crlf_spec(
                s,
            ).len() && crlf_spec(s)[i + newline_count(s.take(i))] == s[i],
        forall|i: int|
            0 <= i < s.len() && #[trigger] s[i] == 10u8 ==> i + newline_count(s.take(i)) + 1
                < crlf_spec(s).len() && crlf_spec(s)[i + newline_count(s.take(i))] == 13u8
                && crlf_spec(s)[i + newline_count(s.take(i)) + 1] == 10u8,
    decreases s.len(),
{
    if s.len() > 0 {
        let p = s.drop_last();
        lemma_crlf_positions(p);
        lemma_crlf_push(p, s.last());
        assert(p.push(s.last()) =~= s);
        assert(s.take(s.len() - 1) =~= p);
        assert forall|i: int| 0 <= i < p.len() implies #[trigger] s.take(i) == p.take(i) && s[i]
            == p[i] by {
            assert(s.take(i) =~= p.take(i));
        }
    }
}

} // verus!
