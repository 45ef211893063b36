//! Properties that hold of every writer and every colour pair.

use vstd::prelude::*;
use crate::colour::{Colour, ColourCode, ScreenChar};
use crate::writer::{
    blank_row, clear, grid_shaped, put_last, scroll, Console, BUFFER_HEIGHT, BUFFER_WIDTH,
    NEWLINE,
};

verus! {

/// No byte of `bs` is a newline.
pub open spec fn no_newline(bs: Seq<u8>) -> bool {
    forall|i: int| 0 <= i < bs.len() ==> bs[i] != NEWLINE
}

/// `row` with the bytes `bs`, in colours `attr`, laid over it from column `start`.
pub open spec fn laid_over(row: Seq<ScreenChar>, start: int, bs: Seq<u8>, attr: ColourCode) -> Seq<ScreenChar> {
    Seq::new(
        row.len(),
        |c: int|
            if start <= c < start + bs.len() {
                ScreenChar { ascii_character: bs[c - start], colour_code: attr }
            } else {
                row[c]
            },
    )
}

/// Bytes without a newline that fit in what is left of the last row are
/// written there left to right from the cursor, which moves past them;
/// nothing else changes.
pub proof fn lemma_write_within_row(s: Console, bs: Seq<u8>)
    requires
        s.wf(),
        no_newline(bs),
        s.column + bs.len() <= BUFFER_WIDTH,
    ensures
        s.write_bytes(bs) == (Console {
            column: s.column + bs.len(),
            attr: s.attr,
            grid: s.grid.update(
                BUFFER_HEIGHT - 1,
                laid_over(s.grid[BUFFER_HEIGHT - 1], s.column as int, bs, s.attr),
            ),
        }),
    decreases bs.len(),
{
    if bs.len() == 0 {
        assert(laid_over(s.grid[BUFFER_HEIGHT - 1], s.column as int, bs, s.attr)
            =~= s.grid[BUFFER_HEIGHT - 1]);
        assert(s.grid.update(BUFFER_HEIGHT - 1, s.grid[BUFFER_HEIGHT - 1]) =~= s.grid);
    } else {
        let init = bs.drop_last();
        assert forall|i: int| 0 <= i < init.len() implies init[i] != NEWLINE by {
            assert(init[i] == bs[i]);
        }
        lemma_write_within_row(s, init);
        let t = s.write_bytes(init);
        let last = s.grid[BUFFER_HEIGHT - 1];
        assert(laid_over(last, s.column as int, init, s.attr).update(
            t.column as int,
            ScreenChar { ascii_character: bs.last(), colour_code: s.attr },
        ) =~= laid_over(last, s.column as int, bs, s.attr));
        assert(put_last(t.grid, t.column as int, ScreenChar { ascii_character: bs.last(), colour_code: s.attr })
            =~= s.grid.update(BUFFER_HEIGHT - 1, laid_over(last, s.column as int, bs, s.attr)));
    }
}

/// From column 0, one byte more than a row holds, none a newline, scrolls
/// exactly once: the first `BUFFER_WIDTH` bytes fill the last row, that row
/// moves up, and the last byte starts the new last row at column 0, leaving
/// the cursor at column 1.
pub proof fn lemma_wrap_once(s: Console, bs: Seq<u8>)
    requires
        s.wf(),
        s.column == 0,
        no_newline(bs),
        bs.len() == BUFFER_WIDTH + 1,
    ensures
        s.write_bytes(bs) == (Console {
            column: 1,
            attr: s.attr,
            grid: put_last(
                scroll(
                    s.grid.update(
                        BUFFER_HEIGHT - 1,
                        laid_over(s.grid[BUFFER_HEIGHT - 1], 0, bs.drop_last(), s.attr),
                    ),
                    s.attr,
                ),
                0,
                ScreenChar { ascii_character: bs[BUFFER_WIDTH as int], colour_code: s.attr },
            ),
        }),
        s.write_bytes(bs).grid[BUFFER_HEIGHT - 1] == blank_row(s.attr).update(
            0,
            ScreenChar { ascii_character: bs[BUFFER_WIDTH as int], colour_code: s.attr },
        ),
{
    let init = bs.drop_last();
    assert forall|i: int| 0 <= i < init.len() implies init[i] != NEWLINE by {
        assert(init[i] == bs[i]);
    }
    lemma_write_within_row(s, init);
}

/// A newline, whatever the cursor column, scrolls exactly once and returns
/// the cursor to column 0.
pub proof fn lemma_newline_scrolls(s: Console)
    ensures
        s.write_byte(NEWLINE) == (Console { column: 0, attr: s.attr, grid: scroll(s.grid, s.attr) }),
{
}

/// After a scroll the last row is blank in the writer's colours, every other
/// row holds what the row below it held, and the former top row leaves no
/// trace: grids that differ only there scroll to the same grid.
pub proof fn lemma_scroll_result(g: Seq<Seq<ScreenChar>>, h: Seq<Seq<ScreenChar>>, attr: ColourCode)
    requires
        grid_shaped(g),
        grid_shaped(h),
        forall|r: int| 1 <= r < BUFFER_HEIGHT ==> #[trigger] g[r] == h[r],
    ensures
        scroll(g, attr)[BUFFER_HEIGHT - 1] == blank_row(attr),
        forall|r: int| 0 <= r < BUFFER_HEIGHT - 1 ==> #[trigger] scroll(g, attr)[r] == g[r + 1],
        scroll(g, attr) == scroll(h, attr),
{
    assert(scroll(g, attr) =~= scroll(h, attr));
}

/// Clearing a row twice leaves the grid as clearing it once does.
pub proof fn lemma_clear_row_idempotent(s: Console, row: int)
    requires
        0 <= row < BUFFER_HEIGHT,
        s.wf(),
    ensures
        s.clear_row(row).clear_row(row) == s.clear_row(row),
{
    assert(clear(clear(s.grid, row, s.attr), row, s.attr) =~= clear(s.grid, row, s.attr));
}

/// The attribute byte of a colour pair holds the foreground in its low
/// nibble and the background in its high nibble, and decodes to the pair.
pub proof fn lemma_attribute_round_trip(foreground: Colour, background: Colour)
    ensures
        ColourCode::spec_new(foreground, background).0 & 0xf == foreground.spec_index(),
        ColourCode::spec_new(foreground, background).0 >> 4u8 == background.spec_index(),
        ColourCode::spec_new(foreground, background).spec_foreground() == foreground,
        ColourCode::spec_new(foreground, background).spec_background() == background,
{
    foreground.lemma_index_bound();
    background.lemma_index_bound();
    let f = foreground.spec_index();
    let b = background.spec_index();
    assert((((b as u8) << 4u8) | f) & 0xf == f) by (bit_vector)
        requires
            f < 16,
            b < 16,
    ;
    assert((((b as u8) << 4u8) | f) >> 4u8 == b) by (bit_vector)
        requires
            f < 16,
            b < 16,
    ;
}

} // verus!
