//! The run length encoding of Raymarine spokes.
//!
//! A byte stands for itself, except for the marker 0x5c: the byte behind it is a count and the one
//! behind that the byte that is repeated. What a byte unpacks to depends on the radar.
use vstd::prelude::*;

verus! {

/// The byte that announces a run.
pub const RUN_MARKER: u8 = 0x5c;

/// What a byte of spoke data stands for.
pub enum PixelCoding<'a> {
    /// One pixel of seven bits.
    Hd,
    /// Two pixels of four bits, the low one first, spread over the same values.
    Nibbles,
    /// One pixel, looked up in a table.
    Table(&'a [u8; 256]),
}

/// The pixels that a byte stands for.
pub open spec fn pixels_of(coding: PixelCoding, b: u8) -> Seq<u8> {
    match coding {
        PixelCoding::Hd => seq![(b / 2) as u8],
        PixelCoding::Nibbles => seq![(b % 16 * 8) as u8, (b / 16 * 8) as u8],
        PixelCoding::Table(table) => seq![table@[b as int]],
    }
}

/// A sequence repeated a number of times.
pub open spec fn repeated(s: Seq<u8>, count: nat) -> Seq<u8>
    decreases count,
{
    if count == 0 {
        Seq::empty()
    } else {
        repeated(s, (count - 1) as nat) + s
    }
}

/// The pixels that spoke data unpacks to. Data that ends within a run has no meaning.
pub open spec fn unpacked(coding: PixelCoding, data: Seq<u8>) -> Option<Seq<u8>>
    decreases data.len(),
{
    if data.len() == 0 {
        Some(Seq::empty())
    } else if data[0] != RUN_MARKER {
        prepend(pixels_of(coding, data[0]), unpacked(coding, data.skip(1)))
    } else if data.len() < 3 {
        None
    } else {
        prepend(
            repeated(pixels_of(coding, data[2]), data[1] as nat),
            unpacked(coding, data.skip(3)),
        )
    }
}

/// A sequence in front of another one that may be missing.
pub open spec fn prepend(front: Seq<u8>, rest: Option<Seq<u8>>) -> Option<Seq<u8>> {
    match rest {
        Some(rest) => Some(front + rest),
        None => None,
    }
}

/// The first `len` pixels.
pub open spec fn cut(pixels: Seq<u8>, len: nat) -> Seq<u8> {
    if pixels.len() > len {
        pixels.take(len as int)
    } else {
        pixels
    }
}

/// The pixels of a spoke: the unpacked data, cut off at the length of a line.
pub open spec fn spoke_pixels(coding: PixelCoding, data: Seq<u8>, len: nat) -> Option<Seq<u8>> {
    match unpacked(coding, data) {
        Some(pixels) => Some(cut(pixels, len)),
        None => None,
    }
}

fn push_pixels(coding: &PixelCoding, b: u8, out: &mut Vec<u8>)
    ensures
        final(out)@ == old(out)@ + pixels_of(*coding, b),
{
    match coding {
        PixelCoding::Hd => {
            out.push(b / 2);
        },
        PixelCoding::Nibbles => {
            out.push(b % 16 * 8);
            out.push(b / 16 * 8);
        },
        PixelCoding::Table(table) => {
            out.push(table[b as usize]);
        },
    }
    assert(out@ =~= old(out)@ + pixels_of(*coding, b));
}

/// Unpacks the data of a spoke and cuts the result off at `returns_per_line` pixels.
pub fn process_spoke(coding: &PixelCoding, returns_per_line: usize, spoke: &[u8]) -> (r: Option<
    Vec<u8>,
>)
    ensures
        match r {
            Some(pixels) => spoke_pixels(*coding, spoke@, returns_per_line as nat) == Some(pixels@),
            None => spoke_pixels(*coding, spoke@, returns_per_line as nat) is None,
        },
{
    let mut out: Vec<u8> = Vec::with_capacity(1024);
    let mut at: usize = 0;
    assert(spoke@.skip(0) =~= spoke@);
    proof {
        unpacked_prepend_empty(unpacked(*coding, spoke@));
    }
    while at < spoke.len()
        invariant
            at <= spoke.len(),
            unpacked(*coding, spoke@) == prepend(out@, unpacked(*coding, spoke@.skip(at as int))),
        decreases spoke.len() - at,
    {
        let ghost rest = spoke@.skip(at as int);
        let ghost before = out@;
        if spoke[at] != RUN_MARKER {
            push_pixels(coding, spoke[at], &mut out);
            proof {
                assert(rest.skip(1) =~= spoke@.skip(at + 1));
                prepend_twice(
                    before,
                    pixels_of(*coding, rest[0]),
                    unpacked(*coding, rest.skip(1)),
                );
            }
            at = at + 1;
        } else if spoke.len() - at < 3 {
            return None;
        } else {
            let count: u8 = spoke[at + 1];
            let value: u8 = spoke[at + 2];
            let mut n: u8 = 0;
            let ghost start = out@;
            assert(start =~= start + repeated(pixels_of(*coding, value), 0));
            while n < count
                invariant
                    n <= count,
                    out@ == start + repeated(pixels_of(*coding, value), n as nat),
                decreases count - n,
            {
                push_pixels(coding, value, &mut out);
                n = n + 1;
                assert(out@ =~= start + repeated(pixels_of(*coding, value), n as nat));
            }
            proof {
                assert(rest.skip(3) =~= spoke@.skip(at + 3));
                assert(rest[1] == count && rest[2] == value);
                prepend_twice(
                    before,
                    repeated(pixels_of(*coding, value), count as nat),
                    unpacked(*coding, rest.skip(3)),
                );
            }
            at = at + 3;
        }
    }
    assert(out@ + Seq::<u8>::empty() =~= out@);
    if out.len() > returns_per_line {
        out.truncate(returns_per_line);
    }
    Some(out)
}

proof fn unpacked_prepend_empty(rest: Option<Seq<u8>>)
    ensures
        prepend(Seq::empty(), rest) == rest,
{
    if let Some(rest) = rest {
        assert(Seq::<u8>::empty() + rest =~= rest);
    }
}

proof fn prepend_twice(a: Seq<u8>, b: Seq<u8>, rest: Option<Seq<u8>>)
    ensures
        prepend(a, prepend(b, rest)) == prepend(a + b, rest),
{
    if let Some(rest) = rest {
        assert(a + (b + rest) =~= a + b + rest);
    }
}

/// A spoke never has more pixels than a line has room for.
pub proof fn spoke_fits_line(coding: PixelCoding, data: Seq<u8>, len: nat)
    ensures
        spoke_pixels(coding, data, len) matches Some(pixels) ==> pixels.len() <= len,
{
}

/// Data that is put together from complete pieces unpacks to the pieces put together.
pub proof fn unpacking_is_piecewise(coding: PixelCoding, a: Seq<u8>, b: Seq<u8>)
    requires
        unpacked(coding, a) is Some,
    ensures
        unpacked(coding, a + b) == prepend(unpacked(coding, a)->0, unpacked(coding, b)),
    decreases a.len(),
{
    if a.len() == 0 {
        assert(a + b =~= b);
        unpacked_prepend_empty(unpacked(coding, b));
    } else {
        let step: int = if a[0] != RUN_MARKER {
            1
        } else {
            3
        };
        let front = if a[0] != RUN_MARKER {
            pixels_of(coding, a[0])
        } else {
            repeated(pixels_of(coding, a[2]), a[1] as nat)
        };
        assert((a + b).skip(step) =~= a.skip(step) + b);
        unpacking_is_piecewise(coding, a.skip(step), b);
        prepend_twice(front, unpacked(coding, a.skip(step))->0, unpacked(coding, b));
    }
}

/// Data without the marker byte unpacks byte for byte.
pub proof fn plain_data_unpacks_bytewise(coding: PixelCoding, data: Seq<u8>)
    requires
        forall|i: int| 0 <= i < data.len() ==> data[i] != RUN_MARKER,
        coding is Hd || coding is Table,
    ensures
        unpacked(coding, data) matches Some(pixels) && pixels.len() == data.len() && forall|i: int|
            0 <= i < data.len() ==> #[trigger] pixels[i] == pixels_of(coding, data[i])[0],
    decreases data.len(),
{
    if data.len() > 0 {
        let rest = data.skip(1);
        assert forall|i: int| 0 <= i < rest.len() implies rest[i] != RUN_MARKER by {
            assert(rest[i] == data[i + 1]);
        }
        plain_data_unpacks_bytewise(coding, rest);
        let tail = unpacked(coding, rest)->0;
        let pixels = pixels_of(coding, data[0]) + tail;
        assert forall|i: int| 0 <= i < data.len() implies #[trigger] pixels[i] == pixels_of(
            coding,
            data[i],
        )[0] by {
            if i > 0 {
                assert(pixels[i] == tail[i - 1]);
                assert(rest[i - 1] == data[i]);
            }
        }
    }
}

/// What a byte stands for keeps all that the coding can show: a pixel of seven bits is half the byte,
/// and the two pixels of four bits are its lower and its upper bits, eight steps apart.
pub proof fn bytes_are_shown(coding: PixelCoding, b: u8)
    ensures
        coding is Hd ==> pixels_of(coding, b).len() == 1 && 2 * pixels_of(coding, b)[0] <= b <= 2
            * pixels_of(coding, b)[0] + 1,
        coding is Nibbles ==> {
            let p = pixels_of(coding, b);
            &&& p.len() == 2
            &&& p[0] < 128 && p[1] < 128
            &&& p[0] % 8 == 0 && p[1] % 8 == 0
            &&& p[0] + 16 * p[1] == 8 * b
        },
        coding matches PixelCoding::Table(table) ==> pixels_of(coding, b).len() == 1 && pixels_of(
            coding,
            b,
        )[0] == table@[b as int],
{
}

/// A byte other than the marker stands for itself.
pub proof fn single_bytes_unpack(coding: PixelCoding, b: u8)
    requires
        b != 92,
    ensures
        unpacked(coding, seq![b]) == Some(pixels_of(coding, b)),
{
    reveal_with_fuel(unpacked, 2);
    assert(seq![b].skip(1) =~= Seq::empty());
    assert(pixels_of(coding, b) + Seq::empty() =~= pixels_of(coding, b));
}

proof fn repeated_is(s: Seq<u8>, count: nat)
    ensures
        repeated(s, count).len() == count * s.len(),
        s.len() == 1 ==> forall|i: int| 0 <= i < count ==> #[trigger] repeated(s, count)[i] == s[0],
        s.len() == 2 ==> forall|i: int|
            0 <= i < 2 * count ==> #[trigger] repeated(s, count)[i] == s[i % 2],
    decreases count,
{
    if count > 0 {
        repeated_is(s, (count - 1) as nat);
        let before = repeated(s, (count - 1) as nat);
        assert(count * s.len() == (count - 1) * s.len() + s.len()) by (nonlinear_arith)
            requires
                count > 0,
        ;
        if s.len() == 1 {
            assert forall|i: int| 0 <= i < count implies #[trigger] repeated(s, count)[i] == s[0] by {
                if i < count - 1 {
                    assert(before[i] == s[0]);
                }
            }
        }
        if s.len() == 2 {
            assert forall|i: int| 0 <= i < 2 * count implies #[trigger] repeated(s, count)[i] == s[i
                % 2] by {
                if i < 2 * (count - 1) {
                    assert(before[i] == s[i % 2]);
                }
            }
        }
    } else {
        assert(0 * s.len() == 0);
    }
}

/// A run stands for as many times the byte behind it as its count tells, whatever that byte is.
pub proof fn runs_unpack(coding: PixelCoding, count: u8, b: u8)
    ensures
        ({
            let run = unpacked(coding, seq![92u8, count, b]);
            let once = pixels_of(coding, b);
            &&& run is Some
            &&& once.len() == 1 ==> run->0.len() == count && forall|i: int|
                0 <= i < count ==> #[trigger] run->0[i] == once[0]
            &&& once.len() == 2 ==> run->0.len() == 2 * count && forall|i: int|
                0 <= i < 2 * count ==> #[trigger] run->0[i] == once[i % 2]
        }),
{
    reveal_with_fuel(unpacked, 2);
    let data = seq![92u8, count, b];
    assert(data.skip(3) =~= Seq::empty());
    let once = pixels_of(coding, b);
    repeated_is(once, count as nat);
    assert(repeated(once, count as nat) + Seq::empty() =~= repeated(once, count as nat));
}

/// Data that ends within a run has no meaning.
pub proof fn cut_runs_have_no_meaning(coding: PixelCoding, count: u8)
    ensures
        unpacked(coding, seq![92u8]) is None,
        unpacked(coding, seq![92u8, count]) is None,
{
}

/// A spoke shows the first pixels of what its data unpacks to: all of them where the line has room, else
/// as many as fit.
pub proof fn spoke_shows_the_first_pixels(coding: PixelCoding, data: Seq<u8>, len: nat)
    ensures
        spoke_pixels(coding, data, len) is Some <==> unpacked(coding, data) is Some,
        unpacked(coding, data) matches Some(all) ==> {
            let shown = spoke_pixels(coding, data, len)->0;
            &&& shown.len() == if all.len() < len {
                all.len()
            } else {
                len
            }
            &&& forall|i: int| 0 <= i < shown.len() ==> #[trigger] shown[i] == all[i]
        },
{
}

} // verus!
