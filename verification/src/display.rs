//! The display that the interpreter draws on, and the arithmetic of its
//! pixels.
use crate::error::Chip8Error;
use vstd::prelude::*;

verus! {

/// Display is used by the interpreter to draw things on the screen.  It hides
/// how the screen works, so that a variety of kinds of screen can be plugged
/// in.
pub trait Display {
    /// Draws `data`, one bit per pixel, row by row.  A display may refuse
    /// data that is not of the size it expects.
    fn draw(&mut self, data: &[u8]) -> Result<(), Chip8Error>;

    /// How big the display data should be.
    fn get_display_size_bytes(&mut self) -> usize;
}

/// The colour of one pixel of a monochrome display.
#[derive(Debug, Clone, Copy, PartialEq, Eq, Structural)]
pub enum PixelColor {
    Black,
    White,
}

/// Width and height in pixels, and the number of bitplanes.
pub struct Resolution(pub usize, pub usize, pub usize);

/// The bit of pixel number `count` in `data`; pixel 0 is the most significant
/// bit of the first byte.
pub open spec fn pixel_bit(data: Seq<u8>, count: int) -> u8 {
    1u8 & (data[count / 8] >> ((7 - count % 8) as usize))
}

/// Where pixel number `count` lies on a canvas `w` pixels wide whose top row
/// is at `y == 0` and whose rows go down from there.
pub open spec fn pixel_point(count: int, w: int) -> (i64, i64) {
    ((count % w) as i64, (-(count / w)) as i64)
}

/// The pixels numbered below `count` whose bit equals `bitplane`, the highest
/// number first.
pub open spec fn plane_points(data: Seq<u8>, w: int, count: int, bitplane: u8) -> Seq<(i64, i64)>
    decreases count,
{
    if count <= 0 {
        Seq::empty()
    } else if pixel_bit(data, count - 1) == bitplane {
        seq![pixel_point(count - 1, w)] + plane_points(data, w, count - 1, bitplane)
    } else {
        plane_points(data, w, count - 1, bitplane)
    }
}

/// The colour that a pixel bit stands for.
pub open spec fn bit_color(bit: u8) -> PixelColor {
    if bit == 1 {
        PixelColor::White
    } else {
        PixelColor::Black
    }
}

/// All pixels numbered below `count` with their colours, the highest number
/// first.
pub open spec fn colored_points(data: Seq<u8>, w: int, count: int) -> Seq<(i64, i64, PixelColor)> {
    Seq::new(
        if count >= 0 { count as nat } else { 0 },
        |k: int|
            (
                pixel_point(count - 1 - k, w).0,
                pixel_point(count - 1 - k, w).1,
                bit_color(pixel_bit(data, count - 1 - k)),
            ),
    )
}

proof fn lemma_width_positive(w: int, h: int)
    by (nonlinear_arith)
    requires
        0 <= w,
        0 <= h,
        w * h > 0,
    ensures
        w > 0,
{
}

proof fn lemma_row_bound(c: int, w: int)
    by (nonlinear_arith)
    requires
        0 <= c,
        0 < w,
    ensures
        0 <= c / w <= c,
        0 <= c % w < w,
{
}

impl Resolution {
    /// Whether the pixels can be counted and placed with machine integers.
    pub open spec fn countable(&self) -> bool {
        self.0 * self.1 <= usize::MAX && self.0 * self.1 <= i64::MAX
    }

    /// Whether `data` holds a bit for every pixel.
    pub open spec fn covered_by(&self, data: Seq<u8>) -> bool {
        self.0 * self.1 <= data.len() * 8
    }

    /// The number of pixels.
    pub fn pixel_count(&self) -> (n: usize)
        requires
            self.0 * self.1 <= usize::MAX,
        ensures
            n == self.0 * self.1,
    {
        self.0 * self.1
    }

    /// The number of bytes that hold all bitplanes of the display.
    pub fn byte_count(&self) -> (n: usize)
        requires
            self.0 * self.1 <= usize::MAX,
            self.0 * self.1 * self.2 <= usize::MAX,
        ensures
            n == (self.0 * self.1 * self.2) / 8,
    {
        self.0 * self.1 * self.2 / 8
    }

    /// The leftmost and rightmost pixel column.
    pub fn x_bounds(&self) -> (b: [i64; 2])
        requires
            1 <= self.0 <= i64::MAX,
        ensures
            b@ == seq![0i64, (self.0 - 1) as i64],
    {
        [0, (self.0 - 1) as i64]
    }

    /// The lowest and highest pixel row; rows go down from 0.
    pub fn y_bounds(&self) -> (b: [i64; 2])
        requires
            1 <= self.1 <= i64::MAX,
        ensures
            b@ == seq![(-(self.1 - 1)) as i64, 0i64],
    {
        [-((self.1 - 1) as i64), 0]
    }

    /// Every pixel of `data` with its place and colour, the last pixel first.
    pub fn points_from_data(&self, data: &[u8]) -> (points: Vec<(i64, i64, PixelColor)>)
        requires
            self.countable(),
            self.covered_by(data@),
        ensures
            points@ == colored_points(data@, self.0 as int, self.0 * self.1),
    {
        let total = self.pixel_count();
        let w = self.0;
        let mut count: usize = total;
        let mut points: Vec<(i64, i64, PixelColor)> = Vec::new();
        while count > 0
            invariant
                count <= total,
                total == self.0 * self.1,
                w == self.0,
                total <= i64::MAX,
                total <= data@.len() * 8,
                points@.len() == total - count,
                forall|k: int|
                    0 <= k < points@.len() ==> points@[k] == colored_points(
                        data@,
                        w as int,
                        total as int,
                    )[k],
            decreases count,
        {
            proof {
                lemma_width_positive(self.0 as int, self.1 as int);
                lemma_row_bound(count - 1, w as int);
            }
            count -= 1;
            let bit = 1 & (data[count / 8] >> (7 - count % 8));
            let color = if bit == 1 {
                PixelColor::White
            } else {
                PixelColor::Black
            };
            points.push(((count % w) as i64, -((count / w) as i64), color));
        }
        assert(points@ =~= colored_points(data@, self.0 as int, self.0 * self.1));
        points
    }

    /// The places of the pixels of `data` whose bit equals `bitplane`, the
    /// last pixel first.
    pub fn bitplane_from_data(&self, data: &[u8], bitplane: u8) -> (points: Vec<(i64, i64)>)
        requires
            self.countable(),
            self.covered_by(data@),
        ensures
            points@ == plane_points(data@, self.0 as int, self.0 * self.1, bitplane),
    {
        let total = self.pixel_count();
        let w = self.0;
        let mut count: usize = total;
        let mut points: Vec<(i64, i64)> = Vec::new();
        while count > 0
            invariant
                count <= total,
                total == self.0 * self.1,
                w == self.0,
                total <= i64::MAX,
                total <= data@.len() * 8,
                points@ + plane_points(data@, w as int, count as int, bitplane) == plane_points(
                    data@,
                    w as int,
                    total as int,
                    bitplane,
                ),
            decreases count,
        {
            proof {
                lemma_width_positive(self.0 as int, self.1 as int);
                lemma_row_bound(count - 1, w as int);
            }
            let ghost before = points@;
            count -= 1;
            let bit = 1 & (data[count / 8] >> (7 - count % 8));
            if bit == bitplane {
                points.push(((count % w) as i64, -((count / w) as i64)));
                assert(points@ + plane_points(data@, w as int, count as int, bitplane) =~= before
                    + plane_points(data@, w as int, count + 1, bitplane));
            }
        }
        assert(points@ =~= points@ + plane_points(data@, w as int, 0, bitplane));
        points
    }
}

/// The size of the frames that a `DummyDisplay` takes.
pub const DUMMY_DISPLAY_SIZE_BYTES: usize = 0x100;

/// A display that shows nothing; useful where no screen is wanted.  It takes
/// the frames of a 64 by 32 display and refuses all others.
pub struct DummyDisplay;

impl DummyDisplay {
    pub fn new() -> (r: Result<DummyDisplay, Chip8Error>)
        ensures
            r is Ok,
    {
        Ok(DummyDisplay {  })
    }
}

impl Display for DummyDisplay {
    fn draw(&mut self, data: &[u8]) -> (r: Result<(), Chip8Error>)
        ensures
            data@.len() == DUMMY_DISPLAY_SIZE_BYTES ==> r is Ok,
            data@.len() != DUMMY_DISPLAY_SIZE_BYTES ==> r == Err::<(), Chip8Error>(
                Chip8Error::Display,
            ),
    {
        if data.len() == DUMMY_DISPLAY_SIZE_BYTES {
            Ok(())
        } else {
            Err(Chip8Error::Display)
        }
    }

    fn get_display_size_bytes(&mut self) -> (n: usize)
        ensures
            n == DUMMY_DISPLAY_SIZE_BYTES,
    {
        DUMMY_DISPLAY_SIZE_BYTES
    }
}

/// A test card for a 64 by 32 display, for trying out display routines.
pub const CHIP8_TEST_CARD: [u8; 256] = [
    0xff, 0xff, 0xff, 0xff, 0xff, 0xff, 0xff, 0xff,
    0x80, 0x00, 0x00, 0x01, 0x80, 0x00, 0x00, 0x01,
    0x80, 0x00, 0x00, 0x03, 0xc2, 0x41, 0x55, 0x55,
    0x81, 0xff, 0xff, 0xc5, 0xa2, 0x40, 0xaa, 0xa9,
    0x80, 0x00, 0x00, 0x09, 0x92, 0x41, 0x55, 0x55,
    0x81, 0xff, 0xff, 0xc1, 0x82, 0x40, 0xaa, 0xa9,
    0xa0, 0x00, 0x00, 0x01, 0x83, 0xc1, 0x55, 0x55,
    0xa1, 0xff, 0xff, 0xc1, 0x80, 0x00, 0xaa, 0xa9,
    0xa0, 0x00, 0x00, 0x00, 0x00, 0x01, 0x55, 0x55,
    0xa1, 0xff, 0xff, 0xc0, 0x00, 0x00, 0xaa, 0xa9,
    0xbc, 0x00, 0x00, 0x00, 0x00, 0x00, 0x00, 0x01,
    0x81, 0xff, 0xff, 0xc0, 0x00, 0x00, 0x00, 0x01,
    0x88, 0x00, 0x00, 0x01, 0x80, 0x00, 0x00, 0x11,
    0x91, 0xff, 0xff, 0xc1, 0x80, 0x00, 0x00, 0x09,
    0xa0, 0x00, 0x00, 0x01, 0x80, 0x00, 0x00, 0x05,
    0xff, 0x80, 0x00, 0x1f, 0xf8, 0x00, 0x01, 0xff,
    0xff, 0x80, 0x00, 0x1f, 0xf8, 0x00, 0x01, 0xff,
    0xa0, 0x00, 0x00, 0x01, 0x80, 0x00, 0x00, 0x05,
    0x90, 0x00, 0x00, 0x01, 0x85, 0x55, 0x55, 0x09,
    0x88, 0x00, 0x00, 0x01, 0x85, 0x55, 0x55, 0x11,
    0x80, 0x00, 0x00, 0x00, 0x05, 0x55, 0x55, 0x01,
    0x80, 0x00, 0x00, 0x00, 0x05, 0x55, 0x55, 0x3d,
    0x95, 0x55, 0x40, 0x00, 0x05, 0x55, 0x55, 0x25,
    0xaa, 0xaa, 0x80, 0x00, 0x05, 0x55, 0x55, 0x3d,
    0x95, 0x55, 0x40, 0x01, 0x85, 0x55, 0x55, 0x29,
    0xaa, 0xaa, 0x83, 0xc1, 0x85, 0x55, 0x55, 0x25,
    0x95, 0x55, 0x41, 0x41, 0x85, 0x55, 0x55, 0x01,
    0xaa, 0xaa, 0x81, 0x49, 0x95, 0x55, 0x55, 0x01,
    0x95, 0x55, 0x41, 0x45, 0xa5, 0x55, 0x55, 0x01,
    0xaa, 0xaa, 0x83, 0xc3, 0xc5, 0x55, 0x55, 0x01,
    0x80, 0x00, 0x00, 0x01, 0x80, 0x00, 0x00, 0x01,
    0xff, 0xff, 0xff, 0xff, 0xff, 0xff, 0xff, 0xff,
];

} // verus!
