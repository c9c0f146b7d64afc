//! Sprites: palette-indexed, run-length encoded images.
//!
//! A sprite record is a header of four little-endian 16-bit fields (width,
//! height, x offset, y offset) and then a stream of rows.  A row starts with
//! a budget byte and consists of spans.  A span is a skip byte, which moves
//! the cursor over transparent pixels, and, where budget is left, a length
//! byte and that many palette indices, which are written from the cursor on.
//! A span takes 2 from the budget, and each of its indices 1.
//!
//! The budget is counted in plain integers: a span that takes more than is
//! left ends the row, as one that takes exactly what is left does.

use crate::assets::GrpAsset;
use crate::error::DecodeError;
use crate::le::{get_i16, get_u16, i16_at, u16_at};
use vstd::prelude::*;
use vstd::slice::slice_subrange;

verus! {

/// The number of bytes of a sprite record's header.
pub const SPRITE_HEADER: usize = 8;

/// Where a sprite goes: width, height, x offset and y offset, the offsets
/// counted from the sprite's anchor point.
#[derive(Copy, Clone, Debug)]
pub struct TextureMeta(pub u16, pub u16, pub i16, pub i16);

/// A decoded sprite: `width * height` packed colours, row by row, and its
/// placement.  A pixel that no run wrote is 0, which is transparent.
#[derive(Debug)]
pub struct Sprite {
    pub pixels: Vec<u32>,
    pub meta: TextureMeta,
}

/// The smaller of `a` and `b`.
pub open spec fn least(a: int, b: int) -> int {
    if a <= b {
        a
    } else {
        b
    }
}

/// Writes the `count` palette indices that stand at `pos` of the stream.
///
/// An index is written at the cursor, which then moves on, while the cursor
/// is inside the buffer; beyond its end the index is read and dropped.  The
/// result is the buffer and the cursor after the run.
pub open spec fn run_pixels(
    stream: Seq<u8>,
    palette: Seq<u32>,
    pos: int,
    count: int,
    cursor: int,
    buf: Seq<u32>,
) -> Result<(Seq<u32>, int), DecodeError>
    recommends
        0 <= pos,
    decreases count,
{
    if count <= 0 {
        Ok((buf, cursor))
    } else if pos >= stream.len() {
        Err(DecodeError::TruncatedRecord)
    } else if 0 <= cursor < buf.len() {
        if stream[pos] as int >= palette.len() {
            Err(DecodeError::PaletteIndexOutOfRange)
        } else {
            run_pixels(
                stream,
                palette,
                pos + 1,
                count - 1,
                cursor + 1,
                buf.update(cursor, palette[stream[pos] as int]),
            )
        }
    } else {
        run_pixels(stream, palette, pos + 1, count - 1, cursor, buf)
    }
}

/// A run that succeeds has found all its indices in the stream, and it has
/// kept the buffer's length.
pub proof fn lemma_run_consumes(
    stream: Seq<u8>,
    palette: Seq<u32>,
    pos: int,
    count: int,
    cursor: int,
    buf: Seq<u32>,
)
    ensures
        run_pixels(stream, palette, pos, count, cursor, buf) matches Ok((written, _)) ==> {
            &&& written.len() == buf.len()
            &&& count > 0 ==> pos + count <= stream.len()
        },
    decreases count,
{
    if count > 0 && pos < stream.len() {
        if 0 <= cursor < buf.len() {
            if (stream[pos] as int) < palette.len() {
                lemma_run_consumes(
                    stream,
                    palette,
                    pos + 1,
                    count - 1,
                    cursor + 1,
                    buf.update(cursor, palette[stream[pos] as int]),
                );
            }
        } else {
            lemma_run_consumes(stream, palette, pos + 1, count - 1, cursor, buf);
        }
    }
}

/// What a run that succeeds has done.  It has found all its indices in the
/// stream and kept the buffer's length.  The cursor has moved on by the run's
/// length, or has stopped where the buffer ends.  The pixels that the cursor
/// passed hold the colours of the run's indices, in order, and no other pixel
/// has changed: what would lie beyond the buffer is cut off, and what lies
/// inside it is as if nothing had been cut.
pub proof fn lemma_run_pixels(
    stream: Seq<u8>,
    palette: Seq<u32>,
    pos: int,
    count: int,
    cursor: int,
    buf: Seq<u32>,
)
    requires
        0 <= pos,
        0 <= count,
        0 <= cursor,
    ensures
        match run_pixels(stream, palette, pos, count, cursor, buf) {
            Ok((written, after)) => {
                &&& count > 0 ==> pos + count <= stream.len()
                &&& written.len() == buf.len()
                &&& after == (if cursor >= buf.len() {
                    cursor
                } else {
                    least(cursor + count, buf.len() as int)
                })
                &&& forall|i: int|
                    cursor <= i < after ==> #[trigger] written[i] == palette[stream[pos + (i
                        - cursor)] as int]
                &&& forall|i: int|
                    cursor <= i < after ==> (#[trigger] stream[pos + (i - cursor)] as int)
                        < palette.len()
                &&& forall|i: int|
                    0 <= i < buf.len() && !(cursor <= i < after) ==> #[trigger] written[i]
                        == buf[i]
            },
            Err(_) => true,
        },
    decreases count,
{
    if count > 0 && pos < stream.len() {
        if cursor < buf.len() {
            if (stream[pos] as int) < palette.len() {
                let first = buf.update(cursor, palette[stream[pos] as int]);
                lemma_run_pixels(stream, palette, pos + 1, count - 1, cursor + 1, first);
                if let Ok((written, after)) = run_pixels(stream, palette, pos, count, cursor, buf) {
                    assert forall|i: int| cursor <= i < after implies #[trigger] written[i]
                        == palette[stream[pos + (i - cursor)] as int] by {
                        if i > cursor {
                            assert(pos + 1 + (i - (cursor + 1)) == pos + (i - cursor));
                        } else {
                            assert(written[i] == first[i]);
                        }
                    }
                    assert forall|i: int| cursor <= i < after implies (#[trigger] stream[pos + (i
                        - cursor)] as int) < palette.len() by {
                        if i > cursor {
                            assert(pos + 1 + (i - (cursor + 1)) == pos + (i - cursor));
                            assert((stream[pos + 1 + (i - (cursor + 1))] as int) < palette.len());
                        }
                    }
                }
            }
        } else {
            lemma_run_pixels(stream, palette, pos + 1, count - 1, cursor, buf);
        }
    }
}

/// Decodes the rest of a row, and then the rows after it.
///
/// `budget` is what is left of the row's budget and `row` the number of the
/// next row.  A span costs 2 for its skip byte, and 1 for each palette index;
/// the row ends when the budget is used up, and a span that uses it up with
/// its skip byte has no run.
pub open spec fn spans(
    stream: Seq<u8>,
    palette: Seq<u32>,
    width: int,
    pos: int,
    budget: int,
    cursor: int,
    row: int,
    buf: Seq<u32>,
) -> Result<Seq<u32>, DecodeError>
    recommends
        0 <= pos,
    decreases stream.len() - pos, 1int,
{
    if budget <= 0 {
        rows(stream, palette, width, pos, row, buf)
    } else if pos >= stream.len() {
        Err(DecodeError::TruncatedRecord)
    } else if budget - 2 <= 0 {
        spans(stream, palette, width, pos + 1, budget - 2, cursor + stream[pos], row, buf)
    } else if pos + 1 >= stream.len() {
        Err(DecodeError::TruncatedRecord)
    } else {
        let run = stream[pos + 1] as int;
        proof {
            lemma_run_consumes(stream, palette, pos + 2, run, cursor + stream[pos], buf);
        }
        match run_pixels(stream, palette, pos + 2, run, cursor + stream[pos], buf) {
            Ok((written, after)) => spans(
                stream,
                palette,
                width,
                pos + 2 + run,
                budget - 2 - run,
                after,
                row,
                written,
            ),
            Err(e) => Err(e),
        }
    }
}

/// Decodes the rows that start at `pos` of the stream into `buf`.
///
/// Row number `row` starts with the cursor at `row * width`.  The stream ends
/// cleanly only between two rows.
pub open spec fn rows(
    stream: Seq<u8>,
    palette: Seq<u32>,
    width: int,
    pos: int,
    row: int,
    buf: Seq<u32>,
) -> Result<Seq<u32>, DecodeError>
    recommends
        0 <= pos,
    decreases stream.len() - pos, 0int,
{
    if pos >= stream.len() {
        Ok(buf)
    } else {
        spans(stream, palette, width, pos + 1, stream[pos] as int, row * width, row + 1, buf)
    }
}

/// The sprite that a record encodes: the header's fields, and the rows
/// decoded into `width * height` pixels that start out as 0.
pub open spec fn sprite_of(record: Seq<u8>, palette: Seq<u32>) -> Result<
    (Seq<u32>, TextureMeta),
    DecodeError,
> {
    if record.len() < SPRITE_HEADER {
        Err(DecodeError::TruncatedRecord)
    } else {
        let width = u16_at(record, 0);
        let height = u16_at(record, 2);
        match rows(
            record.subrange(SPRITE_HEADER as int, record.len() as int),
            palette,
            width as int,
            0,
            0,
            Seq::new((width * height) as nat, |i: int| 0u32),
        ) {
            Ok(pixels) => Ok(
                (pixels, TextureMeta(width, height, i16_at(record, 4), i16_at(record, 6))),
            ),
            Err(e) => Err(e),
        }
    }
}

/// Decoding never changes the number of pixels: whatever the rows hold,
/// writes land inside the buffer or are dropped.
pub proof fn lemma_rows_keep_length(
    stream: Seq<u8>,
    palette: Seq<u32>,
    width: int,
    pos: int,
    row: int,
    buf: Seq<u32>,
)
    ensures
        rows(stream, palette, width, pos, row, buf) matches Ok(pixels) ==> pixels.len()
            == buf.len(),
    decreases stream.len() - pos, 0int,
{
    if pos < stream.len() {
        lemma_spans_keep_length(
            stream,
            palette,
            width,
            pos + 1,
            stream[pos] as int,
            row * width,
            row + 1,
            buf,
        );
    }
}

/// The same, from the middle of a row.
pub proof fn lemma_spans_keep_length(
    stream: Seq<u8>,
    palette: Seq<u32>,
    width: int,
    pos: int,
    budget: int,
    cursor: int,
    row: int,
    buf: Seq<u32>,
)
    ensures
        spans(stream, palette, width, pos, budget, cursor, row, buf) matches Ok(pixels)
            ==> pixels.len() == buf.len(),
    decreases stream.len() - pos, 1int,
{
    if budget <= 0 {
        lemma_rows_keep_length(stream, palette, width, pos, row, buf);
    } else if pos >= stream.len() {
    } else if budget - 2 <= 0 {
        lemma_spans_keep_length(
            stream,
            palette,
            width,
            pos + 1,
            budget - 2,
            cursor + stream[pos],
            row,
            buf,
        );
    } else if pos + 1 >= stream.len() {
    } else {
        let run = stream[pos + 1] as int;
        lemma_run_consumes(stream, palette, pos + 2, run, cursor + stream[pos], buf);
        if let Ok((written, after)) = run_pixels(
            stream,
            palette,
            pos + 2,
            run,
            cursor + stream[pos],
            buf,
        ) {
            lemma_spans_keep_length(
                stream,
                palette,
                width,
                pos + 2 + run,
                budget - 2 - run,
                after,
                row,
                written,
            );
        }
    }
}

/// A sprite has as many pixels as its header says: width times height.  A
/// header of width or height 0 gives a sprite without pixels, whatever the
/// rows hold.
pub proof fn lemma_sprite_size(record: Seq<u8>, palette: Seq<u32>)
    ensures
        sprite_of(record, palette) matches Ok((pixels, meta)) ==> pixels.len() == meta.0
            * meta.1,
{
    if record.len() >= SPRITE_HEADER {
        let width = u16_at(record, 0);
        let height = u16_at(record, 2);
        lemma_rows_keep_length(
            record.subrange(SPRITE_HEADER as int, record.len() as int),
            palette,
            width as int,
            0,
            0,
            Seq::new((width * height) as nat, |i: int| 0u32),
        );
    }
}

/// Two cursors that stand for each other in a buffer and in its first `n`
/// pixels: they are the same, or both are beyond those `n`.
pub open spec fn same_within(a: int, b: int, n: int) -> bool {
    a == b || (a >= n && b >= n)
}

/// Cutting off is all that a short buffer does to a run: where the run
/// succeeds in a buffer, it succeeds in the front part of that buffer and
/// writes there what it writes into the front part of the whole.
pub proof fn lemma_run_clipped(
    stream: Seq<u8>,
    palette: Seq<u32>,
    pos: int,
    count: int,
    cursor: int,
    cursor_cut: int,
    buf: Seq<u32>,
    n: int,
)
    requires
        0 <= n <= buf.len(),
        same_within(cursor_cut, cursor, n),
    ensures
        run_pixels(stream, palette, pos, count, cursor, buf) matches Ok((written, after))
            ==> run_pixels(stream, palette, pos, count, cursor_cut, buf.subrange(0, n))
            matches Ok((written_cut, after_cut)) && written_cut == written.subrange(0, n)
            && same_within(after_cut, after, n),
    decreases count,
{
    let cut = buf.subrange(0, n);
    if count > 0 && pos < stream.len() {
        let next = if 0 <= cursor < buf.len() {
            buf.update(cursor, palette[stream[pos] as int])
        } else {
            buf
        };
        let next_cursor = if 0 <= cursor < buf.len() {
            cursor + 1
        } else {
            cursor
        };
        let next_cursor_cut = if 0 <= cursor_cut < n {
            cursor_cut + 1
        } else {
            cursor_cut
        };
        if !(0 <= cursor < buf.len()) || (stream[pos] as int) < palette.len() {
            lemma_run_clipped(
                stream,
                palette,
                pos + 1,
                count - 1,
                next_cursor,
                next_cursor_cut,
                next,
                n,
            );
            if 0 <= cursor_cut < n {
                assert(cut.update(cursor_cut, palette[stream[pos] as int]) =~= next.subrange(
                    0,
                    n,
                ));
            } else {
                assert(cut =~= next.subrange(0, n));
            }
        }
    } else if count <= 0 {
        assert(run_pixels(stream, palette, pos, count, cursor_cut, cut) == Ok::<
            (Seq<u32>, int),
            DecodeError,
        >((cut, cursor_cut)));
    }
}

/// Cutting off is all that a short buffer does to the rows: where decoding
/// succeeds in a buffer, decoding into the front part of that buffer
/// succeeds too, and gives the front part of the same pixels.
pub proof fn lemma_rows_clipped(
    stream: Seq<u8>,
    palette: Seq<u32>,
    width: int,
    pos: int,
    row: int,
    buf: Seq<u32>,
    n: int,
)
    requires
        0 <= n <= buf.len(),
    ensures
        rows(stream, palette, width, pos, row, buf) matches Ok(pixels) ==> rows(
            stream,
            palette,
            width,
            pos,
            row,
            buf.subrange(0, n),
        ) == Ok::<Seq<u32>, DecodeError>(pixels.subrange(0, n)),
    decreases stream.len() - pos, 0int,
{
    if pos < stream.len() {
        lemma_spans_clipped(
            stream,
            palette,
            width,
            pos + 1,
            stream[pos] as int,
            row * width,
            row * width,
            row + 1,
            buf,
            n,
        );
    }
}

/// The same, from the middle of a row.
pub proof fn lemma_spans_clipped(
    stream: Seq<u8>,
    palette: Seq<u32>,
    width: int,
    pos: int,
    budget: int,
    cursor: int,
    cursor_cut: int,
    row: int,
    buf: Seq<u32>,
    n: int,
)
    requires
        0 <= n <= buf.len(),
        same_within(cursor_cut, cursor, n),
    ensures
        spans(stream, palette, width, pos, budget, cursor, row, buf) matches Ok(pixels) ==> spans(
            stream,
            palette,
            width,
            pos,
            budget,
            cursor_cut,
            row,
            buf.subrange(0, n),
        ) == Ok::<Seq<u32>, DecodeError>(pixels.subrange(0, n)),
    decreases stream.len() - pos, 1int,
{
    let cut = buf.subrange(0, n);
    if budget <= 0 {
        lemma_rows_clipped(stream, palette, width, pos, row, buf, n);
    } else if pos >= stream.len() {
    } else if budget - 2 <= 0 {
        lemma_spans_clipped(
            stream,
            palette,
            width,
            pos + 1,
            budget - 2,
            cursor + stream[pos],
            cursor_cut + stream[pos],
            row,
            buf,
            n,
        );
    } else if pos + 1 >= stream.len() {
    } else {
        let run = stream[pos + 1] as int;
        lemma_run_consumes(stream, palette, pos + 2, run, cursor + stream[pos], buf);
        lemma_run_clipped(
            stream,
            palette,
            pos + 2,
            run,
            cursor + stream[pos],
            cursor_cut + stream[pos],
            buf,
            n,
        );
        if let Ok((written, after)) = run_pixels(
            stream,
            palette,
            pos + 2,
            run,
            cursor + stream[pos],
            buf,
        ) {
            let (written_cut, after_cut) = run_pixels(
                stream,
                palette,
                pos + 2,
                run,
                cursor_cut + stream[pos],
                cut,
            )->Ok_0;
            lemma_spans_clipped(
                stream,
                palette,
                width,
                pos + 2 + run,
                budget - 2 - run,
                after,
                after_cut,
                row,
                written,
                n,
            );
        }
    }
}

/// `r` is what decoding `record` with `palette` gives.
pub open spec fn decodes_to(
    record: Seq<u8>,
    palette: Seq<u32>,
    r: Result<Sprite, DecodeError>,
) -> bool {
    match r {
        Ok(sprite) => sprite_of(record, palette) == Ok::<(Seq<u32>, TextureMeta), DecodeError>(
            (sprite.pixels@, sprite.meta),
        ),
        Err(e) => sprite_of(record, palette) == Err::<(Seq<u32>, TextureMeta), DecodeError>(e),
    }
}

/// Decoding is a function of the record and the palette: two results for the
/// same bytes are the same sprite, pixel for pixel, or the same failure.
pub proof fn lemma_decoding_is_unique(
    record: Seq<u8>,
    palette: Seq<u32>,
    a: Result<Sprite, DecodeError>,
    b: Result<Sprite, DecodeError>,
)
    requires
        decodes_to(record, palette, a),
        decodes_to(record, palette, b),
    ensures
        match (a, b) {
            (Ok(x), Ok(y)) => x.pixels@ == y.pixels@ && x.meta == y.meta,
            (Err(e), Err(f)) => e == f,
            _ => false,
        },
{
}

/// Writes one run.  `cursor` is the cursor, held at the buffer's length once
/// it has passed it; `place` is the cursor itself.
fn write_run(
    buf: &mut Vec<u32>,
    stream: &[u8],
    colors: &Vec<u32>,
    pos: usize,
    count: u8,
    cursor: usize,
    Ghost(place): Ghost<int>,
) -> (r: Result<usize, DecodeError>)
    requires
        pos <= stream@.len(),
        0 <= place,
        cursor == least(place, old(buf)@.len() as int),
    ensures
        final(buf)@.len() == old(buf)@.len(),
        match r {
            Ok(after) => {
                &&& pos + count <= stream@.len()
                &&& cursor <= after <= final(buf)@.len()
                &&& run_pixels(stream@, colors@, pos as int, count as int, place, old(buf)@) == Ok::<
                    (Seq<u32>, int),
                    DecodeError,
                >((final(buf)@, place + (after - cursor)))
            },
            Err(e) => run_pixels(stream@, colors@, pos as int, count as int, place, old(buf)@)
                == Err::<(Seq<u32>, int), DecodeError>(e),
        },
{
    let n: usize = buf.len();
    let len: usize = stream.len();
    let mut at: usize = pos;
    let mut left: u8 = count;
    let mut cur: usize = cursor;
    while left > 0
        invariant
            pos <= at <= len,
            len == stream@.len(),
            at - pos == count - left,
            buf@.len() == n,
            n == old(buf)@.len(),
            0 <= place,
            cursor <= cur <= n,
            cur == least(place + (cur - cursor), n as int),
            run_pixels(stream@, colors@, pos as int, count as int, place, old(buf)@) == run_pixels(
                stream@,
                colors@,
                at as int,
                left as int,
                place + (cur - cursor),
                buf@,
            ),
        decreases left,
    {
        if at >= len {
            return Err(DecodeError::TruncatedRecord);
        }
        let c: usize = stream[at] as usize;
        if cur < n {
            if c >= colors.len() {
                return Err(DecodeError::PaletteIndexOutOfRange);
            }
            buf.set(cur, colors[c]);
            cur += 1;
        }
        at += 1;
        left -= 1;
    }
    Ok(cur)
}

/// Decodes the rows of `stream` into `buf`, which the caller has sized and
/// cleared; `w` is the width of a row.
///
/// It fails with `TruncatedRecord` where the stream ends inside a row, and
/// with `PaletteIndexOutOfRange` where an index that would be written is not
/// in `colors`.  The buffer keeps its length in any case.
pub fn parse(buf: &mut Vec<u32>, w: usize, stream: &[u8], colors: &Vec<u32>) -> (r: Result<
    (),
    DecodeError,
>)
    ensures
        final(buf)@.len() == old(buf)@.len(),
        match r {
            Ok(()) => rows(stream@, colors@, w as int, 0, 0, old(buf)@) == Ok::<
                Seq<u32>,
                DecodeError,
            >(final(buf)@),
            Err(e) => rows(stream@, colors@, w as int, 0, 0, old(buf)@) == Err::<
                Seq<u32>,
                DecodeError,
            >(e),
        },
{
    let n: usize = buf.len();
    let len: usize = stream.len();
    let mut pos: usize = 0;
    let mut row: usize = 0;
    while pos < len
        invariant
            pos <= len,
            row <= pos,
            len == stream@.len(),
            buf@.len() == n,
            n == old(buf)@.len(),
            rows(stream@, colors@, w as int, 0, 0, old(buf)@) == rows(
                stream@,
                colors@,
                w as int,
                pos as int,
                row as int,
                buf@,
            ),
        decreases len - pos,
    {
        let ghost start: int = pos as int;
        let mut budget: i32 = stream[pos] as i32;
        pos += 1;
        let ghost mut place: int = row * w;
        let mut cursor: usize = match row.checked_mul(w) {
            Some(start) => if start < n {
                start
            } else {
                n
            },
            None => n,
        };
        assert(0 <= place) by (nonlinear_arith)
            requires
                place == row * w,
                row >= 0,
                w >= 0,
        ;
        row += 1;
        while budget > 0
            invariant
                start < pos <= len,
                row <= pos,
                len == stream@.len(),
                buf@.len() == n,
                n == old(buf)@.len(),
                -257 <= budget <= 255,
                0 <= place,
                cursor == least(place, n as int),
                rows(stream@, colors@, w as int, 0, 0, old(buf)@) == spans(
                    stream@,
                    colors@,
                    w as int,
                    pos as int,
                    budget as int,
                    place,
                    row as int,
                    buf@,
                ),
            decreases len - pos,
        {
            if pos >= len {
                return Err(DecodeError::TruncatedRecord);
            }
            let skip: usize = stream[pos] as usize;
            if budget <= 2 {
                proof {
                    place = place + skip;
                }
                cursor = if n - cursor <= skip {
                    n
                } else {
                    cursor + skip
                };
                budget -= 2;
                pos += 1;
            } else {
                if pos + 1 >= len {
                    return Err(DecodeError::TruncatedRecord);
                }
                let run: u8 = stream[pos + 1];
                proof {
                    place = place + skip;
                }
                cursor = if n - cursor <= skip {
                    n
                } else {
                    cursor + skip
                };
                match write_run(buf, stream, colors, pos + 2, run, cursor, Ghost(place)) {
                    Ok(after) => {
                        proof {
                            place = place + (after - cursor);
                        }
                        cursor = after;
                        budget = budget - 2 - run as i32;
                        pos = pos + 2 + run as usize;
                    },
                    Err(e) => {
                        return Err(e);
                    },
                }
            }
        }
    }
    Ok(())
}

/// Decodes a sprite record.
///
/// It fails with `TruncatedRecord` where the record is shorter than its
/// header or ends inside a row, and with `PaletteIndexOutOfRange` where an
/// index that would be written is not in `colors`.  A run that reaches beyond
/// the last pixel is cut off there, which is no failure.
pub fn decode_sprite(record: &[u8], colors: &Vec<u32>) -> (r: Result<Sprite, DecodeError>)
    ensures
        decodes_to(record@, colors@, r),
        r matches Ok(sprite) ==> sprite.pixels@.len() == sprite.meta.0 * sprite.meta.1,
{
    let len: usize = record.len();
    if len < SPRITE_HEADER {
        return Err(DecodeError::TruncatedRecord);
    }
    let w: u16 = get_u16(record, 0);
    let h: u16 = get_u16(record, 2);
    let xoff: i16 = get_i16(record, 4);
    let yoff: i16 = get_i16(record, 6);
    assert(w * h <= 65535 * 65535) by (nonlinear_arith)
        requires
            0 <= w <= 65535,
            0 <= h <= 65535,
    ;
    let size: usize = (w as usize) * (h as usize);
    let mut pixels: Vec<u32> = Vec::new();
    let mut i: usize = 0;
    while i < size
        invariant
            i <= size,
            pixels@.len() == i,
            forall|k: int| 0 <= k < i ==> pixels@[k] == 0u32,
        decreases size - i,
    {
        pixels.push(0u32);
        i += 1;
    }
    assert(pixels@ =~= Seq::new((w * h) as nat, |i: int| 0u32));
    match parse(&mut pixels, w as usize, slice_subrange(record, SPRITE_HEADER, len), colors) {
        Ok(()) => Ok(Sprite { pixels, meta: TextureMeta(w, h, xoff, yoff) }),
        Err(e) => Err(e),
    }
}

/// The sprites of an archive, one to a record.
pub struct TextureMap {
    pub gs: GrpAsset,
}

impl TextureMap {
    /// Takes the archive that holds the sprites.
    pub fn new(gs: GrpAsset) -> (r: TextureMap)
        ensures
            r.gs == gs,
    {
        TextureMap { gs }
    }

    /// Decodes the sprite in record `id`; `None` where the archive has no
    /// such record.
    pub fn get_image(&self, id: usize, colors: &Vec<u32>) -> (r: Option<
        Result<Sprite, DecodeError>,
    >)
        ensures
            match r {
                Some(decoded) => self.gs.record(id as int) matches Some(bytes) && decodes_to(
                    bytes,
                    colors@,
                    decoded,
                ),
                None => self.gs.record(id as int).is_none(),
            },
    {
        match self.gs.idx(id) {
            Some(bytes) => Some(decode_sprite(bytes, colors)),
            None => None,
        }
    }
}

} // verus!
