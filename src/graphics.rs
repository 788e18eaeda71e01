use vstd::prelude::*;
use crate::color::TriColor;
use embedded_graphics_core::geometry::{Point, Size};

verus! {

/// embedded-graphics-core's `Size`: public `width` and `height`, both `u32`.
#[verifier::external_type_specification]
pub struct ExSize(Size);

/// embedded-graphics-core's `Point`: public `x` and `y`, both `i32`.
#[verifier::external_type_specification]
pub struct ExPoint(Point);

/// Relies on `Size::new` of embedded-graphics-core: it stores its two arguments
/// as `width` and `height`.
pub assume_specification[ Size::new ](width: u32, height: u32) -> (r: Size)
    ensures
        r.width == width,
        r.height == height,
;

/// Rotation of the logical drawing surface relative to the panel's own rows.
#[derive(Clone, Copy, Debug, PartialEq, Eq, Structural)]
pub enum DisplayRotation {
    Rotate0,
    Rotate90,
    Rotate180,
    Rotate270,
}

impl Default for DisplayRotation {
    fn default() -> (r: Self)
        ensures
            r == DisplayRotation::Rotate0,
    {
        DisplayRotation::Rotate0
    }
}

/// A frame buffer was asked for with a shape that cannot be stored.
#[derive(Clone, Copy, Debug, PartialEq, Eq, Structural)]
pub enum ConfigurationError {
    /// Width or height is zero.
    EmptyDimension,
    /// The plane count is neither one nor two.
    UnsupportedPlanes,
    /// The packed storage would not fit in memory addresses.
    TooLarge,
    /// A window buffer's length is not `width / 8 * height`.
    BufferSizeMismatch,
}

/// Number of bytes in one packed row: `ceil(width / 8)`.
pub open spec fn row_bytes(width: nat) -> nat {
    (width + 7) / 8
}

/// `ceil(width / 8)`, the byte stride of one row of a packed plane.
pub fn bytes_per_row(width: u32) -> (r: u32)
    ensures
        r as nat == row_bytes(width as nat),
        r as int * 8 >= width,
        (r as int - 1) * 8 < width,
{
    (width / 8) + if width % 8 == 0 { 0 } else { 1 }
}

/// The value a byte takes after one pixel bit under `mask` is set or cleared.
pub open spec fn set_bit(b: u8, mask: u8, on: bool) -> u8 {
    if on {
        b | mask
    } else {
        b & !mask
    }
}

/// The colour shown for a pixel from its achromatic bit (set: white) and its
/// chromatic bit (clear: chromatic). The chromatic bit takes precedence.
pub open spec fn decode(two_planes: bool, achromatic_set: bool, chromatic_set: bool) -> TriColor {
    if two_planes && !chromatic_set {
        TriColor::Chromatic
    } else if achromatic_set {
        TriColor::White
    } else {
        TriColor::Black
    }
}

/// The achromatic bit written for a colour.
pub open spec fn achromatic_bit(c: TriColor, two_planes: bool) -> bool {
    c == TriColor::White || (two_planes && c == TriColor::Chromatic)
}

/// The chromatic bit written for a colour (clear means chromatic).
pub open spec fn chromatic_bit(c: TriColor) -> bool {
    c != TriColor::Chromatic
}

/// The colour that reading back a written colour gives: a single-plane buffer
/// has no chromatic plane, and chromatic is stored as black there.
pub open spec fn stored_color(c: TriColor, two_planes: bool) -> TriColor {
    if !two_planes && c == TriColor::Chromatic {
        TriColor::Black
    } else {
        c
    }
}

/// Mathematical model of a frame buffer.
pub struct FrameView {
    pub width: nat,
    pub height: nat,
    pub two_planes: bool,
    pub rotation: DisplayRotation,
    pub bytes: Seq<u8>,
}

impl FrameView {
    /// Positive dimensions, and storage of exactly `planes` full planes.
    pub open spec fn wf(self) -> bool {
        &&& self.width >= 1
        &&& self.height >= 1
        &&& self.bytes.len() == self.plane_len() * self.planes()
    }

    pub open spec fn plane_len(self) -> nat {
        row_bytes(self.width) * self.height
    }

    pub open spec fn planes(self) -> nat {
        if self.two_planes {
            2
        } else {
            1
        }
    }

    /// Width as seen through the rotation.
    pub open spec fn logical_width(self) -> nat {
        match self.rotation {
            DisplayRotation::Rotate0 | DisplayRotation::Rotate180 => self.width,
            _ => self.height,
        }
    }

    /// Height as seen through the rotation.
    pub open spec fn logical_height(self) -> nat {
        match self.rotation {
            DisplayRotation::Rotate0 | DisplayRotation::Rotate180 => self.height,
            _ => self.width,
        }
    }

    pub open spec fn in_bounds(self, x: int, y: int) -> bool {
        0 <= x < self.logical_width() && 0 <= y < self.logical_height()
    }

    /// Physical column of logical point (x, y).
    pub open spec fn phys_x(self, x: int, y: int) -> int {
        match self.rotation {
            DisplayRotation::Rotate0 => x,
            DisplayRotation::Rotate90 => self.width - 1 - y,
            DisplayRotation::Rotate180 => self.width - 1 - x,
            DisplayRotation::Rotate270 => y,
        }
    }

    /// Physical row of logical point (x, y).
    pub open spec fn phys_y(self, x: int, y: int) -> int {
        match self.rotation {
            DisplayRotation::Rotate0 => y,
            DisplayRotation::Rotate90 => x,
            DisplayRotation::Rotate180 => self.height - 1 - y,
            DisplayRotation::Rotate270 => self.height - 1 - x,
        }
    }

    /// Index, within a plane, of the byte that holds logical pixel (x, y).
    pub open spec fn byte_index(self, x: int, y: int) -> int {
        row_bytes(self.width) * self.phys_y(x, y) + self.phys_x(x, y) / 8
    }

    /// Mask of the bit that holds logical pixel (x, y): most significant first.
    pub open spec fn bit_mask(self, x: int, y: int) -> u8 {
        0x80u8 >> ((self.phys_x(x, y) % 8) as u8)
    }

    /// The colour shown at logical pixel (x, y).
    pub open spec fn pixel(self, x: int, y: int) -> TriColor {
        let i = self.byte_index(x, y);
        let m = self.bit_mask(x, y);
        decode(
            self.two_planes,
            self.bytes[i] & m != 0,
            self.two_planes ==> self.bytes[self.plane_len() + i] & m != 0,
        )
    }

    /// The buffer after writing colour `c` at logical pixel (x, y); points
    /// outside the logical bounds leave it unchanged.
    pub open spec fn write(self, x: int, y: int, c: TriColor) -> FrameView {
        if !self.in_bounds(x, y) {
            self
        } else {
            let i = self.byte_index(x, y);
            let m = self.bit_mask(x, y);
            let b1 = self.bytes.update(i, set_bit(self.bytes[i], m, achromatic_bit(c, self.two_planes)));
            let b2 = if self.two_planes {
                let j = self.plane_len() + i;
                b1.update(j, set_bit(b1[j], m, chromatic_bit(c)))
            } else {
                b1
            };
            FrameView { bytes: b2, ..self }
        }
    }

    /// Every byte of every plane set to the colour's byte value.
    pub open spec fn cleared(self, c: TriColor) -> FrameView {
        FrameView { bytes: Seq::new(self.bytes.len(), |i: int| c.byte_spec()), ..self }
    }
}

/// A packed pixel buffer of one or two planes, each `ceil(width / 8) * height`
/// bytes, rows most significant bit first; the chromatic plane follows the
/// achromatic one.
pub struct FrameBuffer {
    width: u32,
    height: u32,
    two_planes: bool,
    rotation: DisplayRotation,
    buffer: Vec<u8>,
}

impl View for FrameBuffer {
    type V = FrameView;

    closed spec fn view(&self) -> FrameView {
        FrameView {
            width: self.width as nat,
            height: self.height as nat,
            two_planes: self.two_planes,
            rotation: self.rotation,
            bytes: self.buffer@,
        }
    }
}

/// For fixed `width`, the row stride bounds every in-range byte index.
proof fn lemma_index_in_plane(width: nat, height: nat, px: int, py: int)
    requires
        0 <= px < width,
        0 <= py < height,
    ensures
        0 <= row_bytes(width) * py + px / 8 < row_bytes(width) * height,
        row_bytes(width) * py <= row_bytes(width) * height,
{
    let r = row_bytes(width);
    assert(px / 8 < r);
    assert(r * py + r <= r * height) by (nonlinear_arith)
        requires
            py + 1 <= height,
            r >= 0,
    ;
    assert(r * py >= 0) by (nonlinear_arith)
        requires
            py >= 0,
            r >= 0,
    ;
}

proof fn lemma_mask_bits(b: u8, k: u8)
    requires
        k < 8,
    ensures
        (b | (0x80u8 >> k)) & (0x80u8 >> k) != 0,
        (b & !(0x80u8 >> k)) & (0x80u8 >> k) == 0,
{
    assert((b | (0x80u8 >> k)) & (0x80u8 >> k) != 0) by (bit_vector)
        requires
            k < 8,
    ;
    assert((b & !(0x80u8 >> k)) & (0x80u8 >> k) == 0) by (bit_vector);
}

/// A point inside the logical bounds lands inside the physical panel.
proof fn lemma_phys_in_range(v: FrameView, x: int, y: int)
    requires
        v.wf(),
        v.in_bounds(x, y),
    ensures
        0 <= v.phys_x(x, y) < v.width,
        0 <= v.phys_y(x, y) < v.height,
        0 <= v.byte_index(x, y) < v.plane_len(),
{
    lemma_index_in_plane(v.width, v.height, v.phys_x(x, y), v.phys_y(x, y));
}

/// Writing a colour at a logical point and reading that point back gives the
/// colour again (chromatic reads as black on a single-plane buffer), under
/// every rotation; a quarter turn swaps the logical width and height.
pub proof fn lemma_write_then_read(v: FrameView, x: int, y: int, c: TriColor)
    requires
        v.wf(),
        v.in_bounds(x, y),
    ensures
        v.write(x, y, c).wf(),
        v.write(x, y, c).pixel(x, y) == stored_color(c, v.two_planes),
        v.rotation == DisplayRotation::Rotate90 || v.rotation == DisplayRotation::Rotate270
            ==> v.logical_width() == v.height && v.logical_height() == v.width,
        v.rotation == DisplayRotation::Rotate0 || v.rotation == DisplayRotation::Rotate180
            ==> v.logical_width() == v.width && v.logical_height() == v.height,
{
    lemma_phys_in_range(v, x, y);
    let i = v.byte_index(x, y);
    let k = (v.phys_x(x, y) % 8) as u8;
    let w = v.write(x, y, c);
    lemma_mask_bits(v.bytes[i], k);
    if v.two_planes {
        let j = v.plane_len() + i;
        lemma_mask_bits(v.bytes[j], k);
        assert(w.bytes[i] == set_bit(v.bytes[i], v.bit_mask(x, y), achromatic_bit(c, true)));
        assert(w.bytes[j] == set_bit(v.bytes[j], v.bit_mask(x, y), chromatic_bit(c)));
    }
}

/// Writing an achromatic colour and then the chromatic colour on the same
/// pixel leaves that pixel chromatic: the chromatic plane overrides the
/// achromatic one, whatever the achromatic bit holds.
pub proof fn lemma_chromatic_precedence(v: FrameView, x: int, y: int, c: TriColor)
    requires
        v.wf(),
        v.two_planes,
        v.in_bounds(x, y),
    ensures
        v.write(x, y, c).write(x, y, TriColor::Chromatic).pixel(x, y) == TriColor::Chromatic,
        forall|a: bool| decode(true, a, false) == TriColor::Chromatic,
{
    lemma_write_then_read(v, x, y, c);
    lemma_write_then_read(v.write(x, y, c), x, y, TriColor::Chromatic);
}

impl FrameBuffer {
    pub open spec fn wf(&self) -> bool {
        &&& self@.wf()
        &&& self@.bytes.len() <= usize::MAX
    }

    /// A buffer of `planes` planes (one: monochrome; two: achromatic and
    /// chromatic) for a `width` by `height` panel, every byte set to `color`'s
    /// byte value, not rotated.
    pub fn new(width: u32, height: u32, planes: u8, color: TriColor) -> (r: Result<
        FrameBuffer,
        ConfigurationError,
    >)
        ensures
            width == 0 || height == 0 ==> r == Err::<FrameBuffer, _>(ConfigurationError::EmptyDimension),
            width > 0 && height > 0 && planes != 1 && planes != 2 ==> r == Err::<FrameBuffer, _>(
                ConfigurationError::UnsupportedPlanes,
            ),
            width > 0 && height > 0 && (planes == 1 || planes == 2) && row_bytes(width as nat)
                * height * planes > usize::MAX ==> r == Err::<FrameBuffer, _>(
                ConfigurationError::TooLarge,
            ),
            width > 0 && height > 0 && (planes == 1 || planes == 2) && row_bytes(width as nat)
                * height * planes <= usize::MAX ==> (r matches Ok(fb) && fb.wf() && fb@ == (FrameView {
                width: width as nat,
                height: height as nat,
                two_planes: planes == 2,
                rotation: DisplayRotation::Rotate0,
                bytes: Seq::new(row_bytes(width as nat) * height as nat * planes as nat, |i: int| color.byte_spec()),
            })),
    {
        if width == 0 || height == 0 {
            return Err(ConfigurationError::EmptyDimension);
        }
        if planes != 1 && planes != 2 {
            return Err(ConfigurationError::UnsupportedPlanes);
        }
        let bpr = bytes_per_row(width) as u64;
        assert(bpr * (height as u64) <= 0x2000_0000u64 * 0x1_0000_0000u64) by (nonlinear_arith)
            requires
                bpr <= 0x2000_0000u64,
                height <= 0xffff_ffffu32,
        ;
        let total: u64 = bpr * (height as u64) * (planes as u64);
        if total > usize::MAX as u64 {
            return Err(ConfigurationError::TooLarge);
        }
        Ok(FrameBuffer::filled(width, height, planes == 2, color))
    }

    /// A buffer whose size is known to fit, every byte set to `color`'s byte
    /// value, not rotated.
    pub fn filled(width: u32, height: u32, two_planes: bool, color: TriColor) -> (r: FrameBuffer)
        requires
            width > 0,
            height > 0,
            row_bytes(width as nat) * height * (if two_planes { 2nat } else { 1nat }) <= usize::MAX,
        ensures
            r.wf(),
            r@ == (FrameView {
                width: width as nat,
                height: height as nat,
                two_planes,
                rotation: DisplayRotation::Rotate0,
                bytes: Seq::new(r@.bytes.len(), |i: int| color.byte_spec()),
            }),
    {
        let bpr = bytes_per_row(width) as usize;
        proof {
            let p: nat = if two_planes { 2 } else { 1 };
            assert(row_bytes(width as nat) * height <= row_bytes(width as nat) * height * p) by (nonlinear_arith)
                requires
                    p >= 1,
            ;
        }
        let plane = bpr * height as usize;
        let total = if two_planes { plane * 2 } else { plane };
        let buffer = vec![color.get_byte_value(); total];
        let fb = FrameBuffer { width, height, two_planes, rotation: DisplayRotation::Rotate0, buffer };
        assert(fb@.bytes =~= Seq::new(fb@.bytes.len(), |i: int| color.byte_spec()));
        fb
    }

    fn plane_len(&self) -> (r: usize)
        requires
            self.wf(),
        ensures
            r == self@.plane_len(),
    {
        proof {
            assert(self@.plane_len() <= self@.plane_len() * self@.planes()) by (nonlinear_arith)
                requires
                    self@.planes() >= 1,
            ;
        }
        bytes_per_row(self.width) as usize * self.height as usize
    }

    /// Physical (column, row) of an in-bounds logical point.
    fn physical(&self, x: u32, y: u32) -> (r: (u32, u32))
        requires
            self.wf(),
            self@.in_bounds(x as int, y as int),
        ensures
            r.0 == self@.phys_x(x as int, y as int),
            r.1 == self@.phys_y(x as int, y as int),
    {
        match self.rotation {
            DisplayRotation::Rotate0 => (x, y),
            DisplayRotation::Rotate90 => (self.width - 1 - y, x),
            DisplayRotation::Rotate180 => (self.width - 1 - x, self.height - 1 - y),
            DisplayRotation::Rotate270 => (y, self.height - 1 - x),
        }
    }

    /// Logical (x, y) as unsigned coordinates, if the point lies inside the
    /// rotated bounds.
    fn locate(&self, x: i32, y: i32) -> (r: Option<(u32, u32)>)
        requires
            self.wf(),
        ensures
            r is Some <==> self@.in_bounds(x as int, y as int),
            r matches Some(p) ==> p.0 == x && p.1 == y,
    {
        if x < 0 || y < 0 {
            return None;
        }
        let (xu, yu) = (x as u32, y as u32);
        if xu >= self.logical_width() || yu >= self.logical_height() {
            return None;
        }
        Some((xu, yu))
    }

    /// Sets logical pixel (x, y) to `color`, through the rotation; a point
    /// outside the logical bounds is dropped.
    pub fn write_pixel(&mut self, x: i32, y: i32, color: TriColor)
        requires
            old(self).wf(),
        ensures
            final(self).wf(),
            final(self)@ == old(self)@.write(x as int, y as int, color),
    {
        let (xu, yu) = match self.locate(x, y) {
            Some(p) => p,
            None => return,
        };
        proof {
            lemma_phys_in_range(self@, x as int, y as int);
        }
        let (nx, ny) = self.physical(xu, yu);
        let bpr = bytes_per_row(self.width) as usize;
        let plane = self.plane_len();
        let idx = bpr * (ny as usize) + (nx / 8) as usize;
        let mask: u8 = 0x80u8 >> ((nx % 8) as u8);
        assert(self@.two_planes ==> self@.bytes.len() == 2 * self@.plane_len());
        let achromatic_on = match color {
            TriColor::White => true,
            TriColor::Chromatic => self.two_planes,
            TriColor::Black => false,
        };
        let b = self.buffer[idx];
        self.buffer.set(idx, if achromatic_on { b | mask } else { b & !mask });
        if self.two_planes {
            let j = plane + idx;
            let b = self.buffer[j];
            let chromatic_on = match color {
                TriColor::Chromatic => false,
                _ => true,
            };
            self.buffer.set(j, if chromatic_on { b | mask } else { b & !mask });
        }
    }

    /// The colour at logical pixel (x, y), or `None` outside the logical bounds.
    pub fn pixel(&self, x: i32, y: i32) -> (r: Option<TriColor>)
        requires
            self.wf(),
        ensures
            r == (if self@.in_bounds(x as int, y as int) {
                Some(self@.pixel(x as int, y as int))
            } else {
                None
            }),
    {
        let (xu, yu) = match self.locate(x, y) {
            Some(p) => p,
            None => return None,
        };
        proof {
            lemma_phys_in_range(self@, x as int, y as int);
        }
        let (nx, ny) = self.physical(xu, yu);
        let bpr = bytes_per_row(self.width) as usize;
        let plane = self.plane_len();
        let idx = bpr * (ny as usize) + (nx / 8) as usize;
        let mask: u8 = 0x80u8 >> ((nx % 8) as u8);
        let achromatic_set = self.buffer[idx] & mask != 0;
        assert(self@.two_planes ==> self@.bytes.len() == 2 * self@.plane_len());
        if self.two_planes && self.buffer[plane + idx] & mask == 0 {
            Some(TriColor::Chromatic)
        } else if achromatic_set {
            Some(TriColor::White)
        } else {
            Some(TriColor::Black)
        }
    }

    /// Sets every byte of every plane to `color`'s byte value.
    pub fn clear(&mut self, color: TriColor)
        requires
            old(self).wf(),
        ensures
            final(self).wf(),
            final(self)@ == old(self)@.cleared(color),
    {
        let b = color.get_byte_value();
        let n = self.buffer.len();
        let mut i: usize = 0;
        while i < n
            invariant
                self.wf(),
                self@ == (FrameView { bytes: self@.bytes, ..old(self)@ }),
                n == self.buffer.len(),
                i <= n,
                forall|k: int| 0 <= k < i ==> self.buffer@[k] == b,
            decreases n - i,
        {
            self.buffer.set(i, b);
            i += 1;
        }
        assert(self@.bytes =~= old(self)@.cleared(color).bytes);
    }

    pub fn set_rotation(&mut self, rotation: DisplayRotation)
        requires
            old(self).wf(),
        ensures
            final(self).wf(),
            final(self)@ == (FrameView { rotation, ..old(self)@ }),
    {
        self.rotation = rotation;
    }

    pub fn rotation(&self) -> (r: DisplayRotation)
        ensures
            r == self@.rotation,
    {
        self.rotation
    }

    /// Width as seen through the rotation.
    pub fn logical_width(&self) -> (r: u32)
        ensures
            r == self@.logical_width(),
    {
        match self.rotation {
            DisplayRotation::Rotate0 | DisplayRotation::Rotate180 => self.width,
            _ => self.height,
        }
    }

    /// Height as seen through the rotation.
    pub fn logical_height(&self) -> (r: u32)
        ensures
            r == self@.logical_height(),
    {
        match self.rotation {
            DisplayRotation::Rotate0 | DisplayRotation::Rotate180 => self.height,
            _ => self.width,
        }
    }

    /// Logical dimensions, which swap under a quarter turn.
    pub fn size(&self) -> (r: Size)
        ensures
            r.width == self@.logical_width(),
            r.height == self@.logical_height(),
    {
        Size::new(self.logical_width(), self.logical_height())
    }

    /// Writes one pixel given as an embedded-graphics point.
    pub fn draw_pixel(&mut self, point: Point, color: TriColor)
        requires
            old(self).wf(),
        ensures
            final(self).wf(),
            final(self)@ == old(self)@.write(point.x as int, point.y as int, color),
    {
        self.write_pixel(point.x, point.y, color)
    }

    /// Mutable access to the whole storage, whose length stays fixed.
    pub fn get_mut_buffer(&mut self) -> (r: &mut [u8])
        requires
            old(self).wf(),
        ensures
            r@ == old(self)@.bytes,
            final(self)@ == (FrameView { bytes: final(r)@, ..old(self)@ }),
    {
        self.buffer.as_mut_slice()
    }

    /// The whole storage: the achromatic plane, then the chromatic one if any.
    pub fn buffer(&self) -> (r: &[u8])
        ensures
            r@ == self@.bytes,
    {
        self.buffer.as_slice()
    }

    /// Index at which the chromatic plane starts: the length of one plane.
    pub fn chromatic_offset(&self) -> (r: usize)
        requires
            self.wf(),
        ensures
            r == self@.plane_len(),
    {
        self.plane_len()
    }

    /// The achromatic plane.
    pub fn achromatic_buffer(&self) -> (r: &[u8])
        requires
            self.wf(),
        ensures
            r@ == self@.bytes.subrange(0, self@.plane_len() as int),
    {
        let off = self.plane_len();
        proof {
            assert(self@.plane_len() <= self@.plane_len() * self@.planes()) by (nonlinear_arith)
                requires
                    self@.planes() >= 1,
            ;
        }
        vstd::slice::slice_subrange(self.buffer.as_slice(), 0, off)
    }

    /// The chromatic plane; a single-plane buffer gives its only plane.
    pub fn chromatic_buffer(&self) -> (r: &[u8])
        requires
            self.wf(),
        ensures
            self@.two_planes ==> r@ == self@.bytes.subrange(
                self@.plane_len() as int,
                2 * self@.plane_len() as int,
            ),
            !self@.two_planes ==> r@ == self@.bytes,
    {
        if self.two_planes {
            let off = self.plane_len();
            vstd::slice::slice_subrange(self.buffer.as_slice(), off, self.buffer.len())
        } else {
            self.buffer.as_slice()
        }
    }
}

} // verus!
