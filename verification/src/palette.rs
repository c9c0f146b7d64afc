//! The colour table: three bytes per entry, six significant bits per channel,
//! turned into packed opaque 32-bit colours.

use crate::error::DecodeError;
use vstd::prelude::*;

verus! {

/// Swaps the lowest and the third byte of `c` and sets the top byte to 255:
/// the channel order of the pixel format, fully opaque.
pub open spec fn packed(c: u32) -> u32 {
    (((c & 0xFF) << 16) + (c & 0xFF00) + ((c & 0xFF0000) >> 16) + 0xFF000000) as u32
}

/// The three channel bytes of a table entry, each moved up by two bits, side
/// by side in one word.
pub open spec fn widened(c1: u8, c2: u8, c3: u8) -> u32 {
    (((c1 as u32) << 18) + ((c2 as u32) << 10) + ((c3 as u32) << 2)) as u32
}

/// The colour that the table entry `(c1, c2, c3)` stands for.
pub open spec fn color_of(c1: u8, c2: u8, c3: u8) -> u32 {
    packed(widened(c1, c2, c3))
}

/// The colours of a raw table: one for each whole group of three bytes.  One
/// or two bytes left over at the end do not count.
pub open spec fn colors_of(data: Seq<u8>) -> Seq<u32> {
    Seq::new(
        (data.len() / 3) as nat,
        |k: int| color_of(data[3 * k], data[3 * k + 1], data[3 * k + 2]),
    )
}

/// The sums in `packed` stay inside 32 bits.
proof fn lemma_packed_fits(c: u32)
    ensures
        ((c & 0xFF) << 16) + (c & 0xFF00) + ((c & 0xFF0000) >> 16) + 0xFF000000 <= 0xFFFF_FFFF,
        ((c & 0xFF) << 16) <= 0xFF0000,
        (c & 0xFF00) <= 0xFF00,
        ((c & 0xFF0000) >> 16) <= 0xFF,
{
    assert(((c & 0xFF) << 16) <= 0xFF0000) by (bit_vector);
    assert((c & 0xFF00) <= 0xFF00) by (bit_vector);
    assert(((c & 0xFF0000) >> 16) <= 0xFF) by (bit_vector);
}

/// The sums in `widened` stay inside 32 bits.
proof fn lemma_widened_fits(c1: u32, c2: u32, c3: u32)
    requires
        c1 <= 255,
        c2 <= 255,
        c3 <= 255,
    ensures
        (c1 << 18) <= 0x3FC_0000,
        (c2 << 10) <= 0x3_FC00,
        (c3 << 2) <= 0x3FC,
{
    assert((c1 << 18) <= 0x3FC_0000) by (bit_vector)
        requires
            c1 <= 255,
    ;
    assert((c2 << 10) <= 0x3_FC00) by (bit_vector)
        requires
            c2 <= 255,
    ;
    assert((c3 << 2) <= 0x3FC) by (bit_vector)
        requires
            c3 <= 255,
    ;
}

/// With channel values of six bits, as the format means them, each channel
/// is multiplied by four and lands in a byte of its own: the first in the
/// lowest byte, the third in the third byte, under an alpha of 255.
pub proof fn lemma_color_of_six_bit_channels(c1: u8, c2: u8, c3: u8)
    requires
        c1 < 64,
        c2 < 64,
        c3 < 64,
    ensures
        color_of(c1, c2, c3) == 0xFF000000 + 4 * c3 * 0x10000 + 4 * c2 * 0x100 + 4 * c1,
{
    let a = c1 as u32;
    let b = c2 as u32;
    let c = c3 as u32;
    lemma_widened_fits(a, b, c);
    let w = ((a << 18) + (b << 10) + (c << 2)) as u32;
    assert(w == widened(c1, c2, c3));
    lemma_packed_fits(w);
    assert(((a << 18) + (b << 10) + (c << 2)) as u32 == w ==> ((w & 0xFF) << 16) + (w & 0xFF00)
        + ((w & 0xFF0000) >> 16) + 0xFF000000 == 0xFF000000 + 4 * c * 0x10000 + 4 * b * 0x100 + 4
        * a) by (bit_vector)
        requires
            a < 64,
            b < 64,
            c < 64,
    ;
}

/// Repacks a colour given as `0xRRGGBB` into the pixel format.
pub fn rbg2rgba(c: u32) -> (r: u32)
    ensures
        r == packed(c),
{
    proof {
        lemma_packed_fits(c);
    }
    ((c & 0xFF) << 16) + (c & 0xFF00) + ((c & 0xFF0000) >> 16) + 0xFF000000
}

/// The colours of a table, by index.
#[derive(Clone)]
pub struct Palette(pub Vec<u32>);

impl View for Palette {
    type V = Seq<u32>;

    open spec fn view(&self) -> Seq<u32> {
        self.0@
    }
}

impl Palette {
    /// The colour at `index`.  It fails, with `PaletteIndexOutOfRange`,
    /// exactly when the table has no such entry.
    pub fn color(&self, index: usize) -> (r: Result<u32, DecodeError>)
        ensures
            r == (if index < self@.len() {
                Ok::<u32, DecodeError>(self@[index as int])
            } else {
                Err::<u32, DecodeError>(DecodeError::PaletteIndexOutOfRange)
            }),
    {
        if index < self.0.len() {
            Ok(self.0[index])
        } else {
            Err(DecodeError::PaletteIndexOutOfRange)
        }
    }
}

/// Says whether a raw colour table ends with a whole entry.  One that does
/// not is reported as `PaletteIndexingFailure`; it can still be loaded.
pub fn check_color_table(data: &[u8]) -> (r: Result<(), DecodeError>)
    ensures
        r == (if data@.len() % 3 == 0 {
            Ok::<(), DecodeError>(())
        } else {
            Err::<(), DecodeError>(DecodeError::PaletteIndexingFailure)
        }),
{
    if data.len() % 3 == 0 {
        Ok(())
    } else {
        Err(DecodeError::PaletteIndexingFailure)
    }
}

/// Builds the palette from a raw colour table.
pub fn load_color(data: &[u8]) -> (r: Palette)
    ensures
        r@ == colors_of(data@),
{
    let n: usize = data.len() / 3;
    let mut colors: Vec<u32> = Vec::new();
    let mut k: usize = 0;
    while k < n
        invariant
            k <= n,
            n == data@.len() / 3,
            data@.len() <= usize::MAX,
            colors@.len() == k,
            forall|j: int| 0 <= j < k ==> colors@[j] == colors_of(data@)[j],
        decreases n - k,
    {
        let c1: u32 = data[3 * k] as u32;
        let c2: u32 = data[3 * k + 1] as u32;
        let c3: u32 = data[3 * k + 2] as u32;
        proof {
            lemma_widened_fits(c1, c2, c3);
        }
        let rgb: u32 = (c1 << 18) + (c2 << 10) + (c3 << 2);
        colors.push(rbg2rgba(rgb));
        k += 1;
    }
    assert(colors@ =~= colors_of(data@));
    Palette(colors)
}

} // verus!
