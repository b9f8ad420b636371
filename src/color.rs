use vstd::prelude::*;

verus! {

/// One straight-alpha RGBA pixel with eight bits per channel.
#[derive(Clone, Copy, Debug, PartialEq, Eq, Structural)]
pub struct Pixel {
    pub r: u8,
    pub g: u8,
    pub b: u8,
    pub a: u8,
}

/// The fully transparent pixel that fresh layers are filled with.
pub open spec fn transparent() -> Pixel {
    Pixel { r: 0, g: 0, b: 0, a: 0 }
}

impl Pixel {
    pub fn transparent() -> (p: Pixel)
        ensures
            p == transparent(),
    {
        Pixel { r: 0, g: 0, b: 0, a: 0 }
    }
}

/// The pixel whose four channels start at byte `k` of an interleaved RGBA buffer.
pub open spec fn pixel_at_byte(data: Seq<u8>, k: int) -> Pixel {
    Pixel { r: data[k], g: data[k + 1], b: data[k + 2], a: data[k + 3] }
}

/// Pixel `(x, y)` of a row-major interleaved RGBA buffer whose rows are `width` pixels long.
pub open spec fn rgba_pixel(data: Seq<u8>, width: int, x: int, y: int) -> Pixel {
    pixel_at_byte(data, (y * width + x) * 4)
}

/// A row-major interleaved RGBA buffer laid out as rows of pixels.
pub open spec fn rgba_rows(data: Seq<u8>, width: nat, height: nat) -> Seq<Seq<Pixel>> {
    Seq::new(height, |y: int| Seq::new(width, |x: int| rgba_pixel(data, width as int, x, y)))
}

/// The view of a grid of pixels held as a vector of rows.
pub open spec fn grid_view(rows: Seq<Vec<Pixel>>) -> Seq<Seq<Pixel>> {
    rows.map_values(|r: Vec<Pixel>| r@)
}

/// A grid of `height` rows of `width` pixels.
pub open spec fn is_grid(g: Seq<Seq<Pixel>>, width: nat, height: nat) -> bool {
    &&& g.len() == height
    &&& forall|y: int| 0 <= y < height ==> (#[trigger] g[y]).len() == width
}

/// A decoded image in the canonical pixel format: `height` rows of `width` pixels each.
pub struct PixelImage {
    pub width: u32,
    pub height: u32,
    pub rows: Vec<Vec<Pixel>>,
}

impl PixelImage {
    pub open spec fn wf(&self) -> bool {
        is_grid(grid_view(self.rows@), self.width as nat, self.height as nat)
    }

    pub open spec fn grid(&self) -> Seq<Seq<Pixel>> {
        grid_view(self.rows@)
    }

    /// Normalizes an interleaved RGBA byte buffer into rows of pixels; `None` unless the
    /// buffer holds exactly four bytes for each of the `width * height` pixels.
    pub fn from_rgba(width: u32, height: u32, data: &Vec<u8>) -> (r: Option<PixelImage>)
        ensures
            r is Some <==> data@.len() == width * height * 4,
            r matches Some(img) ==> {
                &&& img.wf()
                &&& img.width == width
                &&& img.height == height
                &&& img.grid() == rgba_rows(data@, width as nat, height as nat)
            },
    {
        proof {
            assert(width * height <= 0xffff_ffffu64 * 0xffff_ffffu64) by (nonlinear_arith)
                requires width <= 0xffff_ffffu64, height <= 0xffff_ffffu64;
        }
        let n: u64 = (width as u64) * (height as u64);
        let len: usize = data.len();
        if len % 4 != 0 || (len / 4) as u64 != n {
            return None;
        }
        let ghost w = width as int;
        let mut rows: Vec<Vec<Pixel>> = Vec::new();
        let mut off: usize = 0;
        let mut y: u32 = 0;
        while y < height
            invariant
                data@.len() == width * height * 4,
                data@.len() == len,
                w == width,
                y <= height,
                off == y * w * 4,
                rows@.len() == y,
                forall|j: int| 0 <= j < y ==> #[trigger] rows@[j]@ == Seq::new(
                    width as nat,
                    |x: int| rgba_pixel(data@, w, x, j),
                ),
            decreases height - y,
        {
            let mut row: Vec<Pixel> = Vec::new();
            let mut x: u32 = 0;
            proof {
                assert((y + 1) * w <= width * height) by (nonlinear_arith)
                    requires y + 1 <= height, w == width;
            }
            while x < width
                invariant
                    data@.len() == width * height * 4,
                    data@.len() == len,
                    w == width,
                    y < height,
                    x <= width,
                    (y + 1) * w <= width * height,
                    off == (y * w + x) * 4,
                    row@.len() == x,
                    forall|i: int| 0 <= i < x ==> #[trigger] row@[i] == rgba_pixel(data@, w, i, y as int),
                decreases width - x,
            {
                proof {
                    assert((y * w + x) * 4 + 3 < width * height * 4) by (nonlinear_arith)
                        requires x < w, (y + 1) * w <= width * height;
                }
                let p = Pixel { r: data[off], g: data[off + 1], b: data[off + 2], a: data[off + 3] };
                row.push(p);
                off = off + 4;
                x = x + 1;
            }
            proof {
                assert(off == (y + 1) * w * 4) by (nonlinear_arith)
                    requires off == (y * w + x) * 4, x == w;
                assert(row@ =~= Seq::new(width as nat, |x: int| rgba_pixel(data@, w, x, y as int)));
            }
            rows.push(row);
            y = y + 1;
        }
        let img = PixelImage { width, height, rows };
        assert(img.grid() =~= Seq::new(height as nat, |j: int| img.rows@[j]@));
        assert(img.grid() =~= rgba_rows(data@, width as nat, height as nat));
        Some(img)
    }
}

} // verus!
