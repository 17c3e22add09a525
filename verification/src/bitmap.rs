use vstd::prelude::*;

verus! {

/// A colour of four channels, eight bits each: red, green, blue, alpha.
#[derive(Clone, Copy, Debug, PartialEq, Eq, Structural)]
pub struct Color {
    r: u8,
    g: u8,
    b: u8,
    a: u8,
}

impl View for Color {
    type V = (u8, u8, u8, u8);

    /// The channels: red, green, blue, alpha.
    closed spec fn view(&self) -> (u8, u8, u8, u8) {
        (self.r, self.g, self.b, self.a)
    }
}

impl Color {
    /// The colour with the given channels.
    pub fn new(r: u8, g: u8, b: u8, a: u8) -> (c: Color)
        ensures
            c@ == (r, g, b, a),
    {
        Color { r, g, b, a }
    }

    /// The channels: red, green, blue, alpha.
    pub fn rgba(&self) -> (c: (u8, u8, u8, u8))
        ensures
            c == self@,
    {
        (self.r, self.g, self.b, self.a)
    }

    /// A colour is its four channels.
    pub proof fn lemma_equal_by_channels(self, other: Color)
        requires
            self@ == other@,
        ensures
            self == other,
    {
    }
}

/// The bytes of the colours of `row`, four for each, in order.
pub open spec fn row_bytes(row: Seq<Color>) -> Seq<u8>
    decreases row.len(),
{
    if row.len() == 0 {
        Seq::empty()
    } else {
        let c = row.last()@;
        row_bytes(row.drop_last()) + seq![c.0, c.1, c.2, c.3]
    }
}

/// The bytes of the rows of `rows`, one row after the other.
pub open spec fn grid_bytes(rows: Seq<Vec<Color>>) -> Seq<u8>
    decreases rows.len(),
{
    if rows.len() == 0 {
        Seq::empty()
    } else {
        grid_bytes(rows.drop_last()) + row_bytes(rows.last()@)
    }
}

/// A grid of pixels, stored row by row from the top.
pub struct Bitmap {
    pub width: u32,
    pub height: u32,
    pub rows: Vec<Vec<Color>>,
}

impl Bitmap {
    /// There are `height` rows of `width` pixels each.
    pub open spec fn wf(&self) -> bool {
        &&& self.rows@.len() == self.height
        &&& forall|y: int| 0 <= y < self.height ==> (#[trigger] self.rows@[y])@.len() == self.width
    }

    /// The pixel in column `x` of row `y`.
    pub open spec fn pixel(&self, x: int, y: int) -> Color {
        self.rows@[y]@[x]
    }

    /// A bitmap whose every pixel is transparent black.
    pub fn new(width: u32, height: u32) -> (b: Bitmap)
        ensures
            b.wf(),
            b.width == width,
            b.height == height,
            forall|x: int, y: int|
                0 <= x < width && 0 <= y < height ==> (#[trigger] b.pixel(x, y))@ == (
                    0u8,
                    0u8,
                    0u8,
                    0u8,
                ),
    {
        let mut rows: Vec<Vec<Color>> = Vec::new();
        let mut y: u32 = 0;
        while y < height
            invariant
                y <= height,
                rows@.len() == y,
                forall|j: int| 0 <= j < y ==> (#[trigger] rows@[j])@.len() == width,
                forall|i: int, j: int|
                    0 <= i < width && 0 <= j < y ==> (#[trigger] rows@[j]@[i])@ == (
                        0u8,
                        0u8,
                        0u8,
                        0u8,
                    ),
            decreases height - y,
        {
            let mut row: Vec<Color> = Vec::new();
            let mut x: u32 = 0;
            while x < width
                invariant
                    x <= width,
                    row@.len() == x,
                    forall|i: int| 0 <= i < x ==> (#[trigger] row@[i])@ == (0u8, 0u8, 0u8, 0u8),
                decreases width - x,
            {
                row.push(Color { r: 0, g: 0, b: 0, a: 0 });
                x += 1;
            }
            rows.push(row);
            y += 1;
        }
        Bitmap { width, height, rows }
    }

    /// The pixel in column `x` of row `y`.
    pub fn get(&self, x: u32, y: u32) -> (c: Color)
        requires
            self.wf(),
            x < self.width,
            y < self.height,
        ensures
            c == self.pixel(x as int, y as int),
    {
        self.rows[y as usize][x as usize]
    }

    /// Gives the pixel in column `x` of row `y` the colour `color` and
    /// leaves every other pixel as it is.
    pub fn set(&mut self, x: u32, y: u32, color: Color)
        requires
            old(self).wf(),
            x < old(self).width,
            y < old(self).height,
        ensures
            final(self).wf(),
            final(self).width == old(self).width,
            final(self).height == old(self).height,
            forall|i: int, j: int|
                0 <= i < old(self).width && 0 <= j < old(self).height
                    ==> #[trigger] final(self).pixel(i, j) == (if i == x && j == y {
                    color
                } else {
                    old(self).pixel(i, j)
                }),
    {
        self.rows[y as usize][x as usize] = color;
    }

    /// The pixels as bytes: four for each pixel (red, green, blue, alpha),
    /// the pixels of a row from the left, the rows from the top.
    pub fn to_bytes(&self) -> (buf: Vec<u8>)
        ensures
            buf@ == grid_bytes(self.rows@),
    {
        let mut buf: Vec<u8> = Vec::new();
        let mut y: usize = 0;
        while y < self.rows.len()
            invariant
                y <= self.rows@.len(),
                buf@ == grid_bytes(self.rows@.take(y as int)),
            decreases self.rows@.len() - y,
        {
            let row = &self.rows[y];
            let ghost before = buf@;
            let mut x: usize = 0;
            while x < row.len()
                invariant
                    x <= row@.len(),
                    buf@ == before + row_bytes(row@.take(x as int)),
                decreases row@.len() - x,
            {
                let c = row[x].rgba();
                buf.push(c.0);
                buf.push(c.1);
                buf.push(c.2);
                buf.push(c.3);
                proof {
                    assert(row@.take(x + 1).drop_last() =~= row@.take(x as int));
                    assert(row@.take(x + 1).last() == row@[x as int]);
                    assert(buf@ =~= before + row_bytes(row@.take(x + 1)));
                }
                x += 1;
            }
            proof {
                assert(row@.take(x as int) =~= row@);
                assert(self.rows@.take(y + 1).drop_last() =~= self.rows@.take(y as int));
                assert(self.rows@.take(y + 1).last() == self.rows@[y as int]);
            }
            y += 1;
        }
        assert(self.rows@.take(y as int) =~= self.rows@);
        buf
    }
}

} // verus!
