use vstd::prelude::*;
use crate::color::{TriColor, DEFAULT_BACKGROUND_COLOR};
use crate::graphics::{row_bytes, DisplayRotation, FrameBuffer, FrameView};
use embedded_graphics_core::geometry::{Point, Size};

verus! {

/// Panel width in pixels.
pub const WIDTH: u32 = 400;

/// Panel height in pixels.
pub const HEIGHT: u32 = 300;

/// Full-size two-plane buffer for the 4.2" tri-colour panel: the achromatic
/// plane followed by the chromatic plane.
pub struct Display4in2b {
    frame: FrameBuffer,
}

impl View for Display4in2b {
    type V = FrameView;

    closed spec fn view(&self) -> FrameView {
        self.frame@
    }
}

impl Display4in2b {
    /// A well-formed two-plane buffer of the panel's size.
    pub open spec fn wf(&self) -> bool {
        &&& self@.wf()
        &&& self@.bytes.len() <= usize::MAX
        &&& self@.width == WIDTH
        &&& self@.height == HEIGHT
        &&& self@.two_planes
    }

    pub fn size(&self) -> (r: Size)
        requires
            self.wf(),
        ensures
            r.width == self@.logical_width(),
            r.height == self@.logical_height(),
    {
        self.frame.size()
    }

    /// Writes one pixel given as an embedded-graphics point; points outside
    /// the rotated bounds are dropped.
    pub fn draw_pixel(&mut self, point: Point, color: TriColor)
        requires
            old(self).wf(),
        ensures
            final(self).wf(),
            final(self)@ == old(self)@.write(point.x as int, point.y as int, color),
    {
        self.frame.draw_pixel(point, color)
    }

    /// The colour at logical pixel (x, y), or `None` outside the bounds.
    pub fn pixel(&self, x: i32, y: i32) -> (r: Option<TriColor>)
        requires
            self.wf(),
        ensures
            r == (if self@.in_bounds(x as int, y as int) {
                Some(self@.pixel(x as int, y as int))
            } else {
                None
            }),
    {
        self.frame.pixel(x, y)
    }

    /// Sets every byte of both planes to `color`'s byte value.
    pub fn clear(&mut self, color: TriColor)
        requires
            old(self).wf(),
        ensures
            final(self).wf(),
            final(self)@ == old(self)@.cleared(color),
    {
        self.frame.clear(color)
    }

    pub fn buffer(&self) -> (r: &[u8])
        ensures
            r@ == self@.bytes,
    {
        self.frame.buffer()
    }

    pub fn get_mut_buffer(&mut self) -> (r: &mut [u8])
        requires
            old(self).wf(),
        ensures
            r@ == old(self)@.bytes,
            final(self)@ == (FrameView { bytes: final(r)@, ..old(self)@ }),
    {
        self.frame.get_mut_buffer()
    }

    pub fn set_rotation(&mut self, rotation: DisplayRotation)
        requires
            old(self).wf(),
        ensures
            final(self).wf(),
            final(self)@ == (FrameView { rotation, ..old(self)@ }),
    {
        self.frame.set_rotation(rotation)
    }

    pub fn rotation(&self) -> (r: DisplayRotation)
        ensures
            r == self@.rotation,
    {
        self.frame.rotation()
    }

    /// Start of the chromatic plane: `ceil(WIDTH / 8) * HEIGHT`.
    pub fn chromatic_offset(&self) -> (r: usize)
        requires
            self.wf(),
        ensures
            r == row_bytes(WIDTH as nat) * HEIGHT,
    {
        self.frame.chromatic_offset()
    }

    /// The achromatic plane.
    pub fn bw_buffer(&self) -> (r: &[u8])
        requires
            self.wf(),
        ensures
            r@ == self@.bytes.subrange(0, row_bytes(WIDTH as nat) * HEIGHT),
    {
        self.frame.achromatic_buffer()
    }

    /// The chromatic plane.
    pub fn chromatic_buffer(&self) -> (r: &[u8])
        requires
            self.wf(),
        ensures
            r@ == self@.bytes.subrange(row_bytes(WIDTH as nat) * HEIGHT, 2 * row_bytes(WIDTH as nat) * HEIGHT),
    {
        self.frame.chromatic_buffer()
    }
}

impl Default for Display4in2b {
    /// Both planes filled with the background colour, not rotated.
    fn default() -> (r: Self)
        ensures
            r.wf(),
            r@ == (FrameView {
                width: WIDTH as nat,
                height: HEIGHT as nat,
                two_planes: true,
                rotation: DisplayRotation::Rotate0,
                bytes: Seq::new((2 * row_bytes(WIDTH as nat) * HEIGHT) as nat, |i: int| DEFAULT_BACKGROUND_COLOR.byte_spec()),
            }),
    {
        let frame = FrameBuffer::filled(WIDTH, HEIGHT, true, DEFAULT_BACKGROUND_COLOR);
        Display4in2b { frame }
    }
}

} // verus!
