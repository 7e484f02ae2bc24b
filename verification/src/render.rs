//! Frame renderer: walks the sampled grid over a decoded image,
//! classifies each sampled pixel to a glyph, and assembles the styled
//! text, one line per sampled row.

use vstd::prelude::*;
use crate::classify::nearest_index_spec;
use crate::classify::luminance_glyph;
use crate::palette::glyph;
use crate::plan::{SamplingStride, ceil_div, sample_count, plan, lemma_sample_in_bounds};

verus! {

/// One pixel: three 8-bit channels.  No alpha is consulted.
#[derive(Clone, Copy, PartialEq, Eq, Structural, Debug)]
pub struct Pixel {
    pub red: u8,
    pub green: u8,
    pub blue: u8,
}

/// One rendered cell: a glyph paired with the pixel's unmodified color.
#[derive(Clone, Copy, PartialEq, Eq, Structural, Debug)]
pub struct Cell {
    pub glyph: char,
    pub color: Pixel,
}

/// An immutable 2D grid of pixels, row-major.
pub struct Image {
    pub width: usize,
    pub height: usize,
    pub pixels: Vec<Pixel>,
}

impl Image {
    /// Positive dimensions, and exactly one pixel per grid point.
    pub open spec fn wf(self) -> bool {
        self.width >= 1 && self.height >= 1 && self.pixels@.len() == self.width * self.height
    }

    /// The pixel at column `x` of row `y`.
    pub open spec fn pixel_at(self, x: int, y: int) -> Pixel {
        self.pixels@[y * self.width + x]
    }

    /// Builds an image from row-major pixels; `None` unless the
    /// dimensions are positive and the pixel count matches them.
    pub fn new(width: usize, height: usize, pixels: Vec<Pixel>) -> (r: Option<Image>)
        ensures
            r is Some <==> (width >= 1 && height >= 1 && pixels@.len() == width * height),
            r is Some ==> r->0.width == width && r->0.height == height && r->0.pixels@
                == pixels@ && r->0.wf(),
    {
        if width >= 1 && height >= 1 {
            match width.checked_mul(height) {
                Some(n) => {
                    if pixels.len() == n {
                        Some(Image { width, height, pixels })
                    } else {
                        None
                    }
                },
                None => {
                    let n = pixels.len();
                    proof {
                        assert(n < width * height);
                    }
                    None
                },
            }
        } else {
            None
        }
    }

    /// Reads the pixel at `(x, y)`.
    pub fn get_pixel(&self, x: usize, y: usize) -> (p: Pixel)
        requires
            self.wf(),
            x < self.width,
            y < self.height,
        ensures
            p == self.pixel_at(x as int, y as int),
    {
        let n = self.pixels.len();
        proof {
            assert(y * self.width + x < self.width * self.height) by (nonlinear_arith)
                requires
                    x < self.width,
                    y < self.height,
            ;
            assert(y * self.width + x < n);
        }
        self.pixels[y * self.width + x]
    }
}

/// Mean-of-channels luminance of a pixel, as the numerator of the
/// exact rational `(red + green + blue) / 765`.
pub open spec fn luminance_num(p: Pixel) -> int {
    p.red + p.green + p.blue
}

/// The cell rendered for one pixel: the glyph aligned with the table
/// entry nearest to its luminance, and the pixel's true color.
pub open spec fn cell_for(p: Pixel) -> Cell {
    Cell { glyph: glyph(nearest_index_spec(luminance_num(p), 765)), color: p }
}

/// Computes one rendered cell from one pixel.  Pure black classifies
/// to the sparsest glyph, pure white to the densest.
pub fn render_cell(p: Pixel) -> (c: Cell)
    ensures
        c == cell_for(p),
        p.red == 0 && p.green == 0 && p.blue == 0 ==> c.glyph == ' ',
        p.red == 255 && p.green == 255 && p.blue == 255 ==> c.glyph == '@',
{
    let sum: u64 = p.red as u64 + p.green as u64 + p.blue as u64;
    let g = luminance_glyph(sum, 765);
    Cell { glyph: g, color: p }
}

/// How many sampled rows the grid has.
pub open spec fn rows_sampled(img: Image, sy: int) -> int {
    sample_count(img.height as int, sy)
}

/// How many sampled columns the grid has.
pub open spec fn cols_sampled(img: Image, sx: int) -> int {
    sample_count(img.width as int, sx)
}

/// The cell at sampled grid position (row `j`, column `k`): the pixel
/// at `(k * stride_x, j * stride_y)` rendered.
pub open spec fn sampled_cell(img: Image, sx: int, sy: int, j: int, k: int) -> Cell {
    cell_for(img.pixel_at(k * sx, j * sy))
}

/// Renders the sampled grid as lines of cells, one line per sampled
/// row, one cell per sampled column, in grid order.
pub fn render_lines(img: &Image, st: &SamplingStride) -> (lines: Vec<Vec<Cell>>)
    requires
        img.wf(),
        st.stride_x >= 1,
        st.stride_y >= 1,
    ensures
        lines@.len() == rows_sampled(*img, st.stride_y as int),
        forall|j: int|
            0 <= j < lines@.len() ==> #[trigger] lines@[j]@.len() == cols_sampled(
                *img,
                st.stride_x as int,
            ),
        forall|j: int, k: int|
            0 <= j < lines@.len() && 0 <= k < lines@[j]@.len() ==> #[trigger] lines@[j]@[k]
                == sampled_cell(*img, st.stride_x as int, st.stride_y as int, j, k),
{
    let n_rows = (img.height - 1) / st.stride_y + 1;
    let n_cols = (img.width - 1) / st.stride_x + 1;
    let mut lines: Vec<Vec<Cell>> = Vec::new();
    let mut j: usize = 0;
    while j < n_rows
        invariant
            img.wf(),
            st.stride_x >= 1,
            st.stride_y >= 1,
            n_rows == rows_sampled(*img, st.stride_y as int),
            n_cols == cols_sampled(*img, st.stride_x as int),
            j <= n_rows,
            lines@.len() == j,
            forall|a: int| 0 <= a < j ==> #[trigger] lines@[a]@.len() == n_cols,
            forall|a: int, k: int|
                0 <= a < j && 0 <= k < n_cols ==> #[trigger] lines@[a]@[k] == sampled_cell(
                    *img,
                    st.stride_x as int,
                    st.stride_y as int,
                    a,
                    k,
                ),
        decreases n_rows - j,
    {
        proof {
            lemma_sample_in_bounds(img.height as int, st.stride_y as int, j as int);
        }
        let y = j * st.stride_y;
        let mut row: Vec<Cell> = Vec::new();
        let mut k: usize = 0;
        while k < n_cols
            invariant
                img.wf(),
                st.stride_x >= 1,
                st.stride_y >= 1,
                n_cols == cols_sampled(*img, st.stride_x as int),
                k <= n_cols,
                y == j * st.stride_y,
                y < img.height,
                row@.len() == k,
                forall|t: int|
                    0 <= t < k ==> #[trigger] row@[t] == sampled_cell(
                        *img,
                        st.stride_x as int,
                        st.stride_y as int,
                        j as int,
                        t,
                    ),
            decreases n_cols - k,
        {
            proof {
                lemma_sample_in_bounds(img.width as int, st.stride_x as int, k as int);
            }
            let x = k * st.stride_x;
            let safe_x = if x <= img.width - 1 {
                x
            } else {
                img.width - 1
            };
            let safe_y = if y <= img.height - 1 {
                y
            } else {
                img.height - 1
            };
            let p = img.get_pixel(safe_x, safe_y);
            row.push(render_cell(p));
            k = k + 1;
        }
        lines.push(row);
        j = j + 1;
    }
    lines
}

/// What the terminal styling produces for one glyph in one RGB color:
/// a pure function of the four values.
pub uninterp spec fn painted(red: u8, green: u8, blue: u8, g: char) -> Seq<char>;

/// Relies on ansi_term::Colour::RGB(..).paint: it wraps the given text
/// in the escape codes for that true-color foreground, a deterministic
/// function of the color and the text.
#[verifier::external_body]
fn paint_glyph(color: &Pixel, g: char) -> (out: String)
    ensures
        out@ == painted(color.red, color.green, color.blue, g),
{
    let styled = ansi_term::Colour::RGB(color.red, color.green, color.blue).paint(g.to_string());
    format!("{}", styled)
}

/// The styled text of one cell.
pub open spec fn cell_text(c: Cell) -> Seq<char> {
    painted(c.color.red, c.color.green, c.color.blue, c.glyph)
}

/// The styled text of the first `k` cells of sampled row `j`,
/// concatenated left to right.
pub open spec fn row_text(img: Image, sx: int, sy: int, j: int, k: int) -> Seq<char>
    decreases k,
{
    if k <= 0 {
        Seq::empty()
    } else {
        row_text(img, sx, sy, j, k - 1) + cell_text(sampled_cell(img, sx, sy, j, k - 1))
    }
}

/// The styled text of the first `j` sampled rows, each full row
/// terminated by a line break.
pub open spec fn rows_text(img: Image, sx: int, sy: int, j: int) -> Seq<char>
    decreases j,
{
    if j <= 0 {
        Seq::empty()
    } else {
        rows_text(img, sx, sy, j - 1) + row_text(img, sx, sy, j - 1, cols_sampled(img, sx))
            + seq!['\n']
    }
}

/// The full styled frame for an image sampled at the given strides.
pub open spec fn frame_text(img: Image, sx: int, sy: int) -> Seq<char> {
    rows_text(img, sx, sy, rows_sampled(img, sy))
}

/// The full styled frame for an image and a terminal size: the frame
/// at the planned strides.
pub open spec fn frame_for_terminal(img: Image, columns: int, rows: int) -> Seq<char> {
    frame_text(img, ceil_div(img.width as int, columns), ceil_div(img.height as int, rows))
}

/// Assembles the styled text of the whole sampled grid: every cell of
/// a row painted left to right, every row closed by a line break.
pub fn styled_text(img: &Image, st: &SamplingStride) -> (out: String)
    requires
        img.wf(),
        st.stride_x >= 1,
        st.stride_y >= 1,
    ensures
        out@ == frame_text(*img, st.stride_x as int, st.stride_y as int),
{
    let ghost sx = st.stride_x as int;
    let ghost sy = st.stride_y as int;
    let n_rows = (img.height - 1) / st.stride_y + 1;
    let n_cols = (img.width - 1) / st.stride_x + 1;
    let mut out = String::new();
    let mut j: usize = 0;
    while j < n_rows
        invariant
            img.wf(),
            st.stride_x >= 1,
            st.stride_y >= 1,
            sx == st.stride_x as int,
            sy == st.stride_y as int,
            n_rows == rows_sampled(*img, sy),
            n_cols == cols_sampled(*img, sx),
            j <= n_rows,
            out@ == rows_text(*img, sx, sy, j as int),
        decreases n_rows - j,
    {
        proof {
            lemma_sample_in_bounds(img.height as int, st.stride_y as int, j as int);
        }
        let y = j * st.stride_y;
        let mut k: usize = 0;
        while k < n_cols
            invariant
                img.wf(),
                st.stride_x >= 1,
                st.stride_y >= 1,
                sx == st.stride_x as int,
                sy == st.stride_y as int,
                n_cols == cols_sampled(*img, sx),
                k <= n_cols,
                y == j * st.stride_y,
                y < img.height,
                out@ == rows_text(*img, sx, sy, j as int) + row_text(
                    *img,
                    sx,
                    sy,
                    j as int,
                    k as int,
                ),
            decreases n_cols - k,
        {
            proof {
                lemma_sample_in_bounds(img.width as int, st.stride_x as int, k as int);
            }
            let x = k * st.stride_x;
            let safe_x = if x <= img.width - 1 {
                x
            } else {
                img.width - 1
            };
            let safe_y = if y <= img.height - 1 {
                y
            } else {
                img.height - 1
            };
            let p = img.get_pixel(safe_x, safe_y);
            let c = render_cell(p);
            let styled = paint_glyph(&c.color, c.glyph);
            out.append(styled.as_str());
            k = k + 1;
        }
        out.append("\n");
        proof {
            reveal_strlit("\n");
            assert(("\n")@ =~= seq!['\n']);
            assert(out@ =~= rows_text(*img, sx, sy, j as int + 1));
        }
        j = j + 1;
    }
    out
}

/// Plans the stride for the terminal and renders the styled frame in
/// one pass.
pub fn render_frame(img: &Image, columns: usize, rows: usize) -> (out: String)
    requires
        img.wf(),
        columns >= 1,
        rows >= 1,
    ensures
        out@ == frame_for_terminal(*img, columns as int, rows as int),
{
    let st = plan(img.width, img.height, columns, rows);
    styled_text(img, &st)
}

/// Determinism: the same image rendered against the same terminal size
/// always yields the same styled frame.
pub proof fn lemma_render_deterministic(img1: Image, img2: Image, columns: int, rows: int)
    requires
        img1 == img2,
    ensures
        frame_for_terminal(img1, columns, rows) == frame_for_terminal(img2, columns, rows),
{
}

} // verus!
