use vstd::prelude::*;

use vstd::arithmetic::mul::{
    lemma_mul_inequality, lemma_mul_is_distributive_sub,
};

use crate::luma::luma_spec;
use crate::quantize::{lemma_ramp_index_in_range, ramp_index_spec};

verus! {

/// The luma of each of the first `count` pixels of an interleaved buffer
/// whose first three samples per pixel are the red, green and blue
/// channels.
pub open spec fn luma_seq(pixels: Seq<u8>, channels: int, count: int) -> Seq<u8> {
    Seq::new(
        count as nat,
        |i: int|
            luma_spec(pixels[channels * i], pixels[channels * i + 1], pixels[channels * i + 2]),
    )
}

/// The ramp character each luma value selects.
pub open spec fn cell_chars(lumas: Seq<u8>, texture: Seq<char>) -> Seq<char> {
    Seq::new(lumas.len(), |i: int| texture[ramp_index_spec(lumas[i], texture.len() as int)])
}

/// The cell characters laid out in rows of `width`, a newline after every
/// full row except the last.
pub open spec fn wrap_rows(cells: Seq<char>, width: int) -> Seq<char>
    recommends
        width >= 1,
    decreases cells.len(),
{
    if width <= 0 || cells.len() <= width {
        cells
    } else {
        cells.take(width) + seq!['\n'] + wrap_rows(cells.skip(width), width)
    }
}

/// The full pipeline from resized pixels to rendered text: per-pixel luma,
/// ramp lookup, and row wrapping at the resized width.
pub open spec fn rendered_spec(
    pixels: Seq<u8>,
    channels: int,
    width: int,
    height: int,
    texture: Seq<char>,
) -> Seq<char> {
    wrap_rows(cell_chars(luma_seq(pixels, channels, width * height), texture), width)
}

/// How many positions of `s` hold the character `c`.
pub open spec fn count_char(s: Seq<char>, c: char) -> int
    decreases s.len(),
{
    if s.len() == 0 {
        0
    } else {
        count_char(s.drop_last(), c) + (if s.last() == c {
            1int
        } else {
            0int
        })
    }
}

pub proof fn lemma_count_char_zero(s: Seq<char>, c: char)
    requires
        forall|i: int| 0 <= i < s.len() ==> s[i] != c,
    ensures
        count_char(s, c) == 0,
    decreases s.len(),
{
    if s.len() > 0 {
        lemma_count_char_zero(s.drop_last(), c);
    }
}

pub proof fn lemma_count_char_concat(a: Seq<char>, b: Seq<char>, c: char)
    ensures
        count_char(a + b, c) == count_char(a, c) + count_char(b, c),
    decreases b.len(),
{
    if b.len() == 0 {
        assert(a + b =~= a);
    } else {
        assert((a + b).drop_last() =~= a + b.drop_last());
        lemma_count_char_concat(a, b.drop_last(), c);
    }
}

/// Law (row wrapping, length): wrapping `width * height` cells into rows
/// of `width` yields `width * height + height - 1` characters in all.
pub proof fn lemma_wrap_rows_len(cells: Seq<char>, width: int, height: int)
    requires
        width >= 1,
        height >= 1,
        cells.len() == width * height,
    ensures
        wrap_rows(cells, width).len() == width * height + height - 1,
    decreases height,
{
    if height == 1 {
        assert(width * height == width) by (nonlinear_arith)
            requires
                height == 1,
        ;
    } else {
        assert(width * height - width == width * (height - 1)) by {
            lemma_mul_is_distributive_sub(width, height, 1);
        }
        assert(cells.len() > width) by {
            lemma_mul_inequality(2, height, width);
        }
        lemma_wrap_rows_len(cells.skip(width), width, height - 1);
    }
}

/// Law (row wrapping, separators): the wrapped text holds exactly
/// `height - 1` newlines when no cell character is itself a newline.
pub proof fn lemma_wrap_rows_newlines(cells: Seq<char>, width: int, height: int)
    requires
        width >= 1,
        height >= 1,
        cells.len() == width * height,
        forall|i: int| 0 <= i < cells.len() ==> cells[i] != '\n',
    ensures
        count_char(wrap_rows(cells, width), '\n') == height - 1,
    decreases height,
{
    if height == 1 {
        assert(width * height == width) by (nonlinear_arith)
            requires
                height == 1,
        ;
        lemma_count_char_zero(cells, '\n');
    } else {
        assert(width * height - width == width * (height - 1)) by {
            lemma_mul_is_distributive_sub(width, height, 1);
        }
        assert(cells.len() > width) by {
            lemma_mul_inequality(2, height, width);
        }
        let head = cells.take(width) + seq!['\n'];
        let rest = wrap_rows(cells.skip(width), width);
        lemma_count_char_concat(head, rest, '\n');
        lemma_count_char_concat(cells.take(width), seq!['\n'], '\n');
        lemma_count_char_zero(cells.take(width), '\n');
        assert(seq!['\n'].drop_last() =~= Seq::<char>::empty());
        lemma_count_char_zero(seq!['\n'].drop_last(), '\n');
        assert(count_char(seq!['\n'], '\n') == 1);
        lemma_wrap_rows_newlines(cells.skip(width), width, height - 1);
    }
}

/// The character of the cell grid at row `r`, column `c`.
pub open spec fn grid_cell(cells: Seq<char>, width: int, r: int, c: int) -> char {
    cells[r * width + c]
}

/// The character of a wrapped text at row `r`, column `c`, where each row
/// spans `width` cells plus its separator.
pub open spec fn wrapped_cell(s: Seq<char>, width: int, r: int, c: int) -> char {
    s[r * (width + 1) + c]
}

/// Law (row wrapping, lines): row `r` of the wrapped text starts at
/// position `r * (width + 1)`, holds exactly the `width` cells of row `r`
/// of the grid, and every row but the last is closed by a newline.
pub proof fn lemma_wrap_rows_lines(cells: Seq<char>, width: int, height: int)
    requires
        width >= 1,
        height >= 1,
        cells.len() == width * height,
    ensures
        forall|r: int, c: int|
            0 <= r < height && 0 <= c < width ==> #[trigger] wrapped_cell(
                wrap_rows(cells, width),
                width,
                r,
                c,
            ) == grid_cell(cells, width, r, c),
        forall|r: int|
            0 <= r < height - 1 ==> #[trigger] wrapped_cell(wrap_rows(cells, width), width, r, width)
                == '\n',
    decreases height,
{
    let out = wrap_rows(cells, width);
    if height == 1 {
        assert(width * height == width) by (nonlinear_arith)
            requires
                height == 1,
        ;
        assert forall|r: int, c: int|
            0 <= r < height && 0 <= c < width implies #[trigger] wrapped_cell(out, width, r, c)
            == grid_cell(cells, width, r, c) by {
            assert(r == 0);
        }
    } else {
        assert(width * height - width == width * (height - 1)) by {
            lemma_mul_is_distributive_sub(width, height, 1);
        }
        assert(cells.len() > width) by (nonlinear_arith)
            requires
                height >= 2,
                width >= 1,
                cells.len() == width * height,
        ;
        let tail = cells.skip(width);
        let rest = wrap_rows(tail, width);
        lemma_wrap_rows_lines(tail, width, height - 1);
        lemma_wrap_rows_len(tail, width, height - 1);
        assert forall|r: int, c: int|
            0 <= r < height && 0 <= c < width implies #[trigger] wrapped_cell(out, width, r, c)
            == grid_cell(cells, width, r, c) by {
            if r == 0 {
                assert(out[c] == cells.take(width)[c]);
            } else {
                assert(r * (width + 1) + c == (width + 1) + ((r - 1) * (width + 1) + c))
                    by (nonlinear_arith);
                assert(r * width + c == width + ((r - 1) * width + c)) by (nonlinear_arith);
                assert(0 <= (r - 1) * (width + 1) + c < width * (height - 1) + (height - 1)
                    - 1) by (nonlinear_arith)
                    requires
                        1 <= r < height,
                        0 <= c < width,
                        width >= 1,
                ;
                assert(0 <= (r - 1) * width + c < width * (height - 1)) by (nonlinear_arith)
                    requires
                        1 <= r < height,
                        0 <= c < width,
                        width >= 1,
                ;
                assert(wrapped_cell(rest, width, r - 1, c) == grid_cell(tail, width, r - 1, c));
                assert(out[r * (width + 1) + c] == rest[(r - 1) * (width + 1) + c]);
                assert(tail[(r - 1) * width + c] == cells[width + ((r - 1) * width + c)]);
            }
        }
        assert forall|r: int|
            0 <= r < height - 1 implies #[trigger] wrapped_cell(out, width, r, width)
            == '\n' by {
            if r == 0 {
                assert(out[width] == '\n');
            } else {
                assert(r * (width + 1) + width == (width + 1) + ((r - 1) * (width + 1) + width))
                    by (nonlinear_arith);
                assert(0 <= (r - 1) * (width + 1) + width < width * (height - 1) + (height - 1)
                    - 1) by (nonlinear_arith)
                    requires
                        1 <= r < height - 1,
                        width >= 1,
                ;
                assert(wrapped_cell(rest, width, r - 1, width) == '\n');
                assert(out[r * (width + 1) + width] == rest[(r - 1) * (width + 1) + width]);
            }
        }
    }
}

/// Cell characters are drawn from the ramp, so a ramp free of newlines
/// yields a newline-free cell grid; the separator count of
/// `lemma_wrap_rows_newlines` then applies to the rendered text.
pub proof fn lemma_cells_keep_ramp_chars(lumas: Seq<u8>, texture: Seq<char>)
    requires
        1 <= texture.len() <= 255,
        forall|i: int| 0 <= i < texture.len() ==> texture[i] != '\n',
    ensures
        forall|j: int|
            0 <= j < cell_chars(lumas, texture).len() ==> cell_chars(lumas, texture)[j] != '\n',
{
    assert forall|j: int|
        0 <= j < cell_chars(lumas, texture).len() implies cell_chars(lumas, texture)[j]
        != '\n' by {
        lemma_ramp_index_in_range(lumas[j], texture.len() as int);
    }
}

/// Law (row wrapping, applied to the pipeline): for a ramp free of
/// newlines, the rendered text of a `width` by `height` grid holds
/// exactly `width * height + height - 1` characters, `height - 1` of
/// them newlines.
pub proof fn lemma_rendered_shape(
    pixels: Seq<u8>,
    channels: int,
    width: int,
    height: int,
    texture: Seq<char>,
)
    requires
        width >= 1,
        height >= 1,
        1 <= texture.len() <= 255,
        forall|i: int| 0 <= i < texture.len() ==> texture[i] != '\n',
    ensures
        rendered_spec(pixels, channels, width, height, texture).len() == width * height + height
            - 1,
        count_char(rendered_spec(pixels, channels, width, height, texture), '\n') == height - 1,
{
    let lumas = luma_seq(pixels, channels, width * height);
    let cells = cell_chars(lumas, texture);
    assert(width * height >= 0) by (nonlinear_arith)
        requires
            width >= 1,
            height >= 1,
    ;
    lemma_cells_keep_ramp_chars(lumas, texture);
    lemma_wrap_rows_len(cells, width, height);
    lemma_wrap_rows_newlines(cells, width, height);
}

/// Law (round-trip stability): rendering is a pure function of the
/// pipeline's inputs, so two renderings of the same pixels, geometry and
/// ramp are identical, character for character.
pub proof fn lemma_render_stable(
    s1: Seq<char>,
    s2: Seq<char>,
    pixels: Seq<u8>,
    channels: int,
    width: int,
    height: int,
    texture: Seq<char>,
)
    requires
        s1 == rendered_spec(pixels, channels, width, height, texture),
        s2 == rendered_spec(pixels, channels, width, height, texture),
    ensures
        s1 == s2,
{
}

} // verus!
