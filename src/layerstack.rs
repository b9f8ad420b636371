use vstd::prelude::*;

use crate::color::{grid_view, is_grid, transparent, Pixel, PixelImage};
use crate::error::ImageImportError;

verus! {

/// A grid of `height` rows of `width` copies of `fill`.
pub open spec fn filled(width: nat, height: nat, fill: Pixel) -> Seq<Seq<Pixel>> {
    Seq::new(height, |y: int| Seq::new(width, |x: int| fill))
}

/// Whether `(x, y)` lies in the rectangle of size `w` by `h` whose top left corner is
/// `(left, top)`.
pub open spec fn in_rect(x: int, y: int, left: int, top: int, w: int, h: int) -> bool {
    left <= x < left + w && top <= y < top + h
}

/// `dst` with the part of it under the rectangle at `(left, top)` of the size of `src`
/// (`w` by `h`) replaced by the corresponding pixels of `src`; what falls outside
/// `dst` is clipped away.
pub open spec fn replaced(
    dst: Seq<Seq<Pixel>>,
    src: Seq<Seq<Pixel>>,
    left: int,
    top: int,
    w: int,
    h: int,
) -> Seq<Seq<Pixel>> {
    Seq::new(
        dst.len(),
        |y: int|
            Seq::new(
                dst[y].len(),
                |x: int|
                    if in_rect(x, y, left, top, w, h) {
                        src[y - top][x - left]
                    } else {
                        dst[y][x]
                    },
            ),
    )
}

/// The value of a grid at `(x, y)`; fully transparent outside it.
pub open spec fn sample(g: Seq<Seq<Pixel>>, x: int, y: int) -> Pixel {
    if 0 <= y < g.len() && 0 <= x < g[y].len() {
        g[y][x]
    } else {
        transparent()
    }
}

/// A layer: an identifier, a title and a pixel surface of `width` by `height`.
pub struct Layer {
    pub id: u16,
    pub title: String,
    pub width: u32,
    pub height: u32,
    pub pixels: Vec<Vec<Pixel>>,
}

impl Layer {
    pub open spec fn grid(&self) -> Seq<Seq<Pixel>> {
        grid_view(self.pixels@)
    }

    pub open spec fn wf(&self) -> bool {
        is_grid(self.grid(), self.width as nat, self.height as nat)
    }

    /// A layer of `width` by `height` filled with `fill`, with an empty title.
    pub fn new(id: u16, width: u32, height: u32, fill: Pixel) -> (l: Layer)
        ensures
            l.wf(),
            l.id == id,
            l.title@ == Seq::<char>::empty(),
            l.width == width,
            l.height == height,
            l.grid() == filled(width as nat, height as nat, fill),
    {
        let mut pixels: Vec<Vec<Pixel>> = Vec::new();
        let mut y: u32 = 0;
        while y < height
            invariant
                y <= height,
                pixels@.len() == y,
                forall|j: int| 0 <= j < y ==> #[trigger] pixels@[j]@ == Seq::new(
                    width as nat,
                    |x: int| fill,
                ),
            decreases height - y,
        {
            let mut row: Vec<Pixel> = Vec::new();
            let mut x: u32 = 0;
            while x < width
                invariant
                    x <= width,
                    row@.len() == x,
                    forall|i: int| 0 <= i < x ==> #[trigger] row@[i] == fill,
                decreases width - x,
            {
                row.push(fill);
                x = x + 1;
            }
            assert(row@ =~= Seq::new(width as nat, |x: int| fill));
            pixels.push(row);
            y = y + 1;
        }
        let l = Layer { id, title: String::new(), width, height, pixels };
        assert(l.grid() =~= filled(width as nat, height as nat, fill));
        l
    }

    /// The pixel at `(x, y)`, or a fully transparent one outside the layer.
    pub fn sample_pixel(&self, x: u32, y: u32) -> (p: Pixel)
        requires
            self.wf(),
        ensures
            p == sample(self.grid(), x as int, y as int),
    {
        if y < self.height && x < self.width {
            assert(self.grid()[y as int] == self.pixels@[y as int]@);
            self.pixels[y as usize][x as usize]
        } else {
            Pixel::transparent()
        }
    }

    /// Paints `src` onto the layer with its top left corner at `(left, top)`, replacing
    /// what was under it at full opacity; the part outside the layer is clipped away.
    pub fn draw_image(&mut self, src: &PixelImage, left: u32, top: u32)
        requires
            old(self).wf(),
            src.wf(),
        ensures
            final(self).wf(),
            final(self).id == old(self).id,
            final(self).title == old(self).title,
            final(self).width == old(self).width,
            final(self).height == old(self).height,
            final(self).grid() == replaced(
                old(self).grid(),
                src.grid(),
                left as int,
                top as int,
                src.width as int,
                src.height as int,
            ),
    {
        let ghost g0 = self.grid();
        let ghost goal = replaced(
            g0,
            src.grid(),
            left as int,
            top as int,
            src.width as int,
            src.height as int,
        );
        let mut y: u32 = 0;
        while y < self.height
            invariant
                self.wf(),
                src.wf(),
                self.id == old(self).id,
                self.title == old(self).title,
                self.width == old(self).width,
                self.height == old(self).height,
                g0 == old(self).grid(),
                is_grid(g0, self.width as nat, self.height as nat),
                goal == replaced(
                    g0,
                    src.grid(),
                    left as int,
                    top as int,
                    src.width as int,
                    src.height as int,
                ),
                y <= self.height,
                forall|j: int| 0 <= j < y ==> #[trigger] self.grid()[j] == goal[j],
                forall|j: int| y <= j < self.height ==> #[trigger] self.grid()[j] == g0[j],
            decreases self.height - y,
        {
            if y >= top && y - top < src.height {
                let sy: u32 = y - top;
                let mut row: Vec<Pixel> = Vec::new();
                let mut x: u32 = 0;
                while x < self.width
                    invariant
                        self.wf(),
                        src.wf(),
                        y < self.height,
                        top <= y,
                        sy == y - top,
                        sy < src.height,
                        self.grid()[y as int] == g0[y as int],
                        g0 == old(self).grid(),
                        is_grid(g0, self.width as nat, self.height as nat),
                        goal == replaced(
                            g0,
                            src.grid(),
                            left as int,
                            top as int,
                            src.width as int,
                            src.height as int,
                        ),
                        x <= self.width,
                        row@.len() == x,
                        forall|i: int| 0 <= i < x ==> #[trigger] row@[i] == goal[y as int][i],
                    decreases self.width - x,
                {
                    proof {
                        assert(src.grid()[sy as int] == src.rows@[sy as int]@);
                        assert(self.grid()[y as int] == self.pixels@[y as int]@);
                    }
                    let p = if x >= left && x - left < src.width {
                        src.rows[sy as usize][(x - left) as usize]
                    } else {
                        self.pixels[y as usize][x as usize]
                    };
                    row.push(p);
                    x = x + 1;
                }
                assert(row@ =~= goal[y as int]);
                let ghost before = self.grid();
                self.pixels.set(y as usize, row);
                assert(self.grid() =~= before.update(y as int, goal[y as int]));
            } else {
                assert(self.grid()[y as int] =~= goal[y as int]);
            }
            y = y + 1;
        }
        assert(self.grid() =~= goal);
    }
}

/// A document: a canvas size and an ordered stack of layers of that size, bottom first.
pub struct LayerStack {
    pub width: u32,
    pub height: u32,
    pub layers: Vec<Layer>,
}

impl LayerStack {
    pub open spec fn wf(&self) -> bool {
        forall|i: int|
            0 <= i < self.layers@.len() ==> {
                &&& (#[trigger] self.layers@[i]).wf()
                &&& self.layers@[i].width == self.width
                &&& self.layers@[i].height == self.height
            }
    }

    /// Whether some layer has identifier `id`.
    pub open spec fn has_id(&self, id: u16) -> bool {
        exists|i: int| 0 <= i < self.layers@.len() && (#[trigger] self.layers@[i]).id == id
    }

    /// An empty document with a canvas of `width` by `height`.
    pub fn new(width: u32, height: u32) -> (ls: LayerStack)
        ensures
            ls.wf(),
            ls.width == width,
            ls.height == height,
            ls.layers@.len() == 0,
    {
        LayerStack { width, height, layers: Vec::new() }
    }

    /// Puts `layer` on top of the stack, unless a layer with its identifier is there.
    pub fn add_layer(&mut self, layer: Layer) -> (r: Result<(), ImageImportError>)
        requires
            old(self).wf(),
            layer.wf(),
            layer.width == old(self).width,
            layer.height == old(self).height,
        ensures
            final(self).wf(),
            final(self).width == old(self).width,
            final(self).height == old(self).height,
            r is Err <==> old(self).has_id(layer.id),
            r is Err ==> r == Err::<(), ImageImportError>(ImageImportError::DuplicateLayerId)
                && final(self).layers@ == old(self).layers@,
            r is Ok ==> final(self).layers@ == old(self).layers@.push(layer),
    {
        let mut i: usize = 0;
        while i < self.layers.len()
            invariant
                self.wf(),
                self.width == old(self).width,
                self.height == old(self).height,
                self.layers@ == old(self).layers@,
                i <= self.layers@.len(),
                forall|j: int| 0 <= j < i ==> (#[trigger] self.layers@[j]).id != layer.id,
            decreases self.layers@.len() - i,
        {
            if self.layers[i].id == layer.id {
                return Err(ImageImportError::DuplicateLayerId);
            }
            i = i + 1;
        }
        self.layers.push(layer);
        Ok(())
    }

    /// The layer with identifier `id`, if there is one.
    pub fn get_layer(&self, id: u16) -> (r: Option<&Layer>)
        ensures
            r is None <==> !self.has_id(id),
            r matches Some(l) ==> exists|i: int|
                0 <= i < self.layers@.len() && self.layers@[i] == *l && l.id == id,
    {
        let mut i: usize = 0;
        while i < self.layers.len()
            invariant
                i <= self.layers@.len(),
                forall|j: int| 0 <= j < i ==> (#[trigger] self.layers@[j]).id != id,
            decreases self.layers@.len() - i,
        {
            if self.layers[i].id == id {
                return Some(&self.layers[i]);
            }
            i = i + 1;
        }
        None
    }
}

} // verus!
