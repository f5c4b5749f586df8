use vstd::prelude::*;
use vstd::string::StringSliceAdditionalSpecFns;

verus! {

/// ASCII line feed.
pub const LINE_FEED: u8 = 10;

/// ASCII carriage return.
pub const CARRIAGE_RETURN: u8 = 13;

/// Diagnostic console, modelled as a byte sink: `out` is the stream of bytes
/// handed to the serial transmitter, oldest first. The busy-wait on the
/// transmit-FIFO-full flag and the volatile write to the data register are
/// performed by the unverified hardware layer that drains this stream.
pub struct Console {
    pub out: Vec<u8>,
}

/// The line-ending translation applied by `uart_puts`: every line-feed byte
/// is preceded by a carriage return; all other bytes pass through unchanged.
pub open spec fn crlf_expand(s: Seq<u8>) -> Seq<u8>
    decreases s.len(),
{
    if s.len() == 0 {
        Seq::empty()
    } else if s[0] == LINE_FEED {
        seq![CARRIAGE_RETURN, LINE_FEED] + crlf_expand(s.skip(1))
    } else {
        seq![s[0]] + crlf_expand(s.skip(1))
    }
}

/// The translation distributes over concatenation: expanding two texts one
/// after the other emits the same bytes as expanding their concatenation.
pub proof fn lemma_crlf_expand_concat(a: Seq<u8>, b: Seq<u8>)
    ensures
        crlf_expand(a + b) == crlf_expand(a) + crlf_expand(b),
    decreases a.len(),
{
    if a.len() == 0 {
        assert(a + b =~= b);
        assert(crlf_expand(a) + crlf_expand(b) =~= crlf_expand(b));
    } else {
        lemma_crlf_expand_concat(a.skip(1), b);
        assert((a + b).skip(1) =~= a.skip(1) + b);
        if a[0] == LINE_FEED {
            assert(crlf_expand(a + b) =~= crlf_expand(a) + crlf_expand(b));
        } else {
            assert(crlf_expand(a + b) =~= crlf_expand(a) + crlf_expand(b));
        }
    }
}

/// Expanding a single byte yields the carriage-return pair for a line feed
/// and the byte itself otherwise.
pub proof fn lemma_crlf_expand_single(b: u8)
    ensures
        crlf_expand(seq![b]) == (if b == LINE_FEED {
            seq![CARRIAGE_RETURN, LINE_FEED]
        } else {
            seq![b]
        }),
{
    assert(seq![b].skip(1) =~= Seq::<u8>::empty());
    assert(crlf_expand(Seq::<u8>::empty()) =~= Seq::<u8>::empty());
    assert(crlf_expand(seq![b].skip(1)) =~= Seq::<u8>::empty());
    if b == LINE_FEED {
        assert(crlf_expand(seq![b]) =~= seq![CARRIAGE_RETURN, LINE_FEED]);
    } else {
        assert(crlf_expand(seq![b]) =~= seq![b]);
    }
}

/// Transmit one byte: append it to the sink stream.
pub fn uart_putc(con: &mut Console, c: u8)
    ensures
        final(con).out@ == old(con).out@.push(c),
{
    con.out.push(c);
}

/// Transmit a text, translating each line feed into carriage return plus
/// line feed (canonical terminal line endings).
pub fn uart_puts(con: &mut Console, s: &str)
    ensures
        final(con).out@ == old(con).out@ + crlf_expand(s.spec_bytes()),
{
    let ghost base: Seq<u8> = con.out@;
    let bytes: &[u8] = s.as_bytes();
    let n: usize = bytes.len();
    let mut i: usize = 0;
    while i < n
        invariant
            i <= n,
            n == bytes@.len(),
            bytes@ == s.spec_bytes(),
            con.out@ == base + crlf_expand(bytes@.subrange(0, i as int)),
        decreases n - i,
    {
        let b: u8 = bytes[i];
        if b == LINE_FEED {
            uart_putc(con, CARRIAGE_RETURN);
        }
        uart_putc(con, b);
        proof {
            lemma_crlf_expand_concat(bytes@.subrange(0, i as int), seq![b]);
            assert(bytes@.subrange(0, i as int + 1) =~= bytes@.subrange(0, i as int)
                + seq![b]);
            lemma_crlf_expand_single(b);
        }
        i = i + 1;
    }
    proof {
        assert(bytes@.subrange(0, n as int) =~= bytes@);
    }
}

/// One hexadecimal digit as an uppercase ASCII byte; `d` is a nibble.
pub open spec fn hex_digit(d: u8) -> u8 {
    if d < 10 {
        (48 + d) as u8
    } else {
        (55 + d) as u8
    }
}

/// The fixed-width hexadecimal rendering of `v`: exactly eight uppercase
/// digits, most-significant nibble first.
pub open spec fn hex_bytes(v: u32) -> Seq<u8> {
    Seq::new(8, |i: int| hex_digit(((v >> (((7 - i) * 4) as u32)) & 0xF) as u8))
}

/// Transmit the eight-digit uppercase hexadecimal rendering of `v`,
/// most-significant nibble first.
pub fn uart_hex(con: &mut Console, v: u32)
    ensures
        final(con).out@ == old(con).out@ + hex_bytes(v),
{
    let ghost base: Seq<u8> = con.out@;
    let mut i: u32 = 0;
    while i < 8
        invariant
            i <= 8,
            con.out@ == base + hex_bytes(v).subrange(0, i as int),
        decreases 8 - i,
    {
        let sh: u32 = (7 - i) * 4;
        let d: u8 = ((v >> sh) & 0xF) as u8;
        proof {
            assert((v >> sh) & 0xF < 16) by (bit_vector);
        }
        let c: u8 = if d < 10 {
            48 + d
        } else {
            55 + d
        };
        uart_putc(con, c);
        proof {
            assert(c == hex_digit(d));
            assert(hex_bytes(v)[i as int] == hex_digit(
                ((v >> (((7 - i as int) * 4) as u32)) & 0xF) as u8,
            ));
            assert(hex_bytes(v).subrange(0, i as int + 1) =~= hex_bytes(v).subrange(
                0,
                i as int,
            ).push(hex_bytes(v)[i as int]));
        }
        i = i + 1;
    }
    proof {
        assert(hex_bytes(v).subrange(0, 8) =~= hex_bytes(v));
    }
}

} // verus!
