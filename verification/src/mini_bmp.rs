//! A bitmap of 32 bits per pixel, held in memory as the bytes of its
//! file: a header of 54 bytes and then the pixels, four bytes each.

use vstd::prelude::*;
use vstd::slice::slice_subrange;
use crate::le::lemma_le32_sum;
use crate::le::push_le16;
use crate::le::push_le32;
use crate::le::push_zeros;
use crate::le::read_le16;
use crate::le::read_le32;
use crate::le::spec_le16;
use crate::le::spec_le32;

verus! {

/// A pixel: blue, green, red and alpha.
#[derive(Clone, Copy, Debug, PartialEq, Eq, Structural)]
pub struct BGRA {
    pub b: u8,
    pub g: u8,
    pub r: u8,
    pub a: u8,
}

/// A bitmap in memory. Only 32 bits per pixel without compression are
/// handled.
pub struct BitMap {
    data: Vec<u8>,
}

/// Where the size of the file stands.
pub const BM_OFFSET: usize = 2;

/// Where the offset of the pixels stands.
pub const BM_OFFSET_PIXEL_DATA: usize = 10;

/// Where the size of the second header stands.
pub const BM_HEADER_SIZE: usize = 14;

/// Where the width stands.
pub const BM_WIDTH: usize = 18;

/// Where the height stands.
pub const BM_HEIGHT: usize = 22;

/// Where the number of planes stands.
pub const BM_PLANES: usize = 26;

/// Where the bits per pixel stand.
pub const BM_BPP: usize = 28;

/// Where the compression stands.
pub const BM_COMPRESSION: usize = 30;

/// Where the horizontal resolution stands.
pub const BM_X_PPM: usize = 38;

/// Where the vertical resolution stands.
pub const BM_Y_PPM: usize = 42;

/// Where the pixels start.
pub const BM_PIXEL_START: usize = 54;

/// The resolution that a fresh bitmap states, in pixels per metre.
pub const PIXELS_PER_METRE: u16 = 2835;

/// Whether the bytes start as a bitmap that this library handles: the
/// two letters, pixels that start right after the header, 32 bits per
/// pixel and no compression.
pub open spec fn spec_compatible(data: Seq<u8>) -> bool {
    &&& data.len() >= 32
    &&& data[0] == 66
    &&& data[1] == 77
    &&& spec_le32(data, 10) == 54
    &&& spec_le32(data, 28) == 32
    &&& spec_le16(data, 30) == 0
}

/// Byte `k` of a number, the low byte being byte zero.
pub open spec fn spec_byte(value: u32, k: nat) -> u8 {
    if k == 0 {
        (value % 256) as u8
    } else if k == 1 {
        (value / 256 % 256) as u8
    } else if k == 2 {
        (value / 65536 % 256) as u8
    } else {
        (value / 16777216) as u8
    }
}

/// The header of a fresh bitmap of the given width and height whose file
/// is `size` bytes long: the two letters, the size, the offset of the
/// pixels, the size of the second header, width and height, one plane,
/// 32 bits per pixel, and the resolution in both directions.
pub open spec fn spec_header(width: u32, height: u32, size: u32) -> Seq<u8> {
    seq![
        66u8,
        77u8,
        spec_byte(size, 0),
        spec_byte(size, 1),
        spec_byte(size, 2),
        spec_byte(size, 3),
        0u8,
        0u8,
        0u8,
        0u8,
        54u8,
        0u8,
        0u8,
        0u8,
        40u8,
        0u8,
        0u8,
        0u8,
        spec_byte(width, 0),
        spec_byte(width, 1),
        spec_byte(width, 2),
        spec_byte(width, 3),
        spec_byte(height, 0),
        spec_byte(height, 1),
        spec_byte(height, 2),
        spec_byte(height, 3),
        1u8,
        0u8,
        32u8,
        0u8,
        0u8,
        0u8,
        0u8,
        0u8,
        0u8,
        0u8,
        0u8,
        0u8,
        19u8,
        11u8,
        0u8,
        0u8,
        19u8,
        11u8,
        0u8,
        0u8,
        0u8,
        0u8,
        0u8,
        0u8,
        0u8,
        0u8,
        0u8,
        0u8,
    ]
}

/// The bytes of a fresh bitmap: its header, and pixels that are all zero.
pub open spec fn spec_blank(width: int, height: int) -> Seq<u8> {
    spec_header(
        width as u32,
        height as u32,
        ((54 + 4 * (width * height)) % 0x1_0000_0000) as u32,
    ) + Seq::new((4 * (width * height)) as nat, |i: int| 0u8)
}

/// The pixel in the four bytes from `at` on.
pub open spec fn spec_pixel_at(data: Seq<u8>, at: int) -> BGRA {
    BGRA { b: data[at], g: data[at + 1], r: data[at + 2], a: data[at + 3] }
}

/// The first `count` windows of `size` bytes, the last of them first:
/// window `i` is the bytes from `i` on.
pub open spec fn spec_windows_reversed(bytes: Seq<u8>, size: int, count: nat) -> Seq<u8>
    decreases count,
{
    if count == 0 {
        Seq::empty()
    } else {
        bytes.subrange(count - 1, count - 1 + size) + spec_windows_reversed(
            bytes,
            size,
            (count - 1) as nat,
        )
    }
}

/// The number of windows of `size` bytes in `length` bytes.
pub open spec fn spec_window_count(length: int, size: int) -> nat {
    if size <= length {
        (length - size + 1) as nat
    } else {
        0
    }
}

#[verifier::rlimit(50)]
fn header_bytes(width: u32, height: u32, size: u32) -> (header: Vec<u8>)
    ensures
        header@ == spec_header(width, height, size),
        header@.len() == 54,
{
    let mut header: Vec<u8> = Vec::new();
    header.push(66);
    header.push(77);
    push_le32(&mut header, size);
    push_zeros(&mut header, 4);
    push_le32(&mut header, BM_PIXEL_START as u32);
    push_le32(&mut header, 40);
    push_le32(&mut header, width);
    push_le32(&mut header, height);
    push_le16(&mut header, 1);
    push_le16(&mut header, 32);
    push_zeros(&mut header, 8);
    push_le16(&mut header, PIXELS_PER_METRE);
    push_zeros(&mut header, 2);
    push_le16(&mut header, PIXELS_PER_METRE);
    push_zeros(&mut header, 10);
    assert(header@.len() == 54);
    assert(header@ =~= spec_header(width, height, size));
    header
}

/// The bytes of a fresh header at the places that are read back.
#[verifier::rlimit(50)]
proof fn lemma_header_bytes(width: u32, height: u32, size: u32)
    ensures
        spec_header(width, height, size).len() == 54,
        spec_marked(spec_header(width, height, size), width, height),
{
    let header = spec_header(width, height, size);
    assert(header.len() == 54);
    assert(header[0] == 66 && header[1] == 77);
    assert(header[10] == 54 && header[11] == 0 && header[12] == 0 && header[13] == 0);
    assert(header[18] == spec_byte(width, 0) && header[19] == spec_byte(width, 1));
    assert(header[20] == spec_byte(width, 2) && header[21] == spec_byte(width, 3));
    assert(header[22] == spec_byte(height, 0) && header[23] == spec_byte(height, 1));
    assert(header[24] == spec_byte(height, 2) && header[25] == spec_byte(height, 3));
    assert(header[28] == 32 && header[29] == 0 && header[30] == 0 && header[31] == 0);
}

/// Whether the bytes hold the marks of a bitmap that this library
/// handles, and the given width and height, byte by byte.
spec fn spec_marked(bytes: Seq<u8>, width: u32, height: u32) -> bool {
    &&& bytes.len() >= 32
    &&& bytes[0] == 66 && bytes[1] == 77
    &&& bytes[10] == 54 && bytes[11] == 0 && bytes[12] == 0 && bytes[13] == 0
    &&& bytes[18] == spec_byte(width, 0) && bytes[19] == spec_byte(width, 1)
    &&& bytes[20] == spec_byte(width, 2) && bytes[21] == spec_byte(width, 3)
    &&& bytes[22] == spec_byte(height, 0) && bytes[23] == spec_byte(height, 1)
    &&& bytes[24] == spec_byte(height, 2) && bytes[25] == spec_byte(height, 3)
    &&& bytes[28] == 32 && bytes[29] == 0 && bytes[30] == 0 && bytes[31] == 0
}

/// Bytes with the marks of a bitmap are compatible, and their fields
/// hold the width and the height.
proof fn lemma_fields_of_marked(bytes: Seq<u8>, width: u32, height: u32)
    requires
        spec_marked(bytes, width, height),
    ensures
        spec_compatible(bytes),
        spec_le32(bytes, 18) == width,
        spec_le32(bytes, 22) == height,
{
    lemma_le32_sum(width);
    lemma_le32_sum(height);
    assert(bytes[18] + bytes[19] * 256 + bytes[20] * 65536 + bytes[21] * 16777216 == width);
    assert(bytes[22] + bytes[23] * 256 + bytes[24] * 65536 + bytes[25] * 16777216 == height);
    assert(bytes[10] + bytes[11] * 256 + bytes[12] * 65536 + bytes[13] * 16777216 == 54);
    assert(bytes[28] + bytes[29] * 256 + bytes[30] * 65536 + bytes[31] * 16777216 == 32);
    assert(bytes[30] + bytes[31] * 256 == 0);
}

/// The fields of a fresh header hold what it was made of.
proof fn lemma_header_fields(width: u32, height: u32, size: u32)
    ensures
        spec_header(width, height, size).len() == 54,
        spec_compatible(spec_header(width, height, size)),
        spec_le32(spec_header(width, height, size), 18) == width,
        spec_le32(spec_header(width, height, size), 22) == height,
{
    lemma_header_bytes(width, height, size);
    lemma_fields_of_marked(spec_header(width, height, size), width, height);
}

/// The header fields of a bitmap are those of its first 54 bytes.
proof fn lemma_fields_of_front(all: Seq<u8>, front: Seq<u8>)
    requires
        front.len() == 54,
        all.len() >= 54,
        all.subrange(0, 54) =~= front,
    ensures
        spec_compatible(all) == spec_compatible(front),
        spec_le32(all, 18) == spec_le32(front, 18),
        spec_le32(all, 22) == spec_le32(front, 22),
{
    assert forall|i: int| 0 <= i < 54 implies all[i] == front[i] by {
        assert(all.subrange(0, 54)[i] == all[i]);
    }
}

impl View for BitMap {
    type V = Seq<u8>;

    closed spec fn view(&self) -> Seq<u8> {
        self.data@
    }
}

impl core::ops::Deref for BitMap {
    type Target = [u8];

    /// All bytes of the bitmap, header and pixels.
    fn deref(&self) -> (bytes: &[u8])
        ensures
            bytes@ == self@,
    {
        self.data.as_slice()
    }
}

impl BitMap {
    /// Whether the bitmap holds what this library handles.
    pub open spec fn spec_well_formed(&self) -> bool {
        spec_compatible(self@)
    }

    pub open spec fn spec_width(&self) -> u32 {
        spec_le32(self@, 18)
    }

    /// The bytes after the header.
    pub open spec fn spec_pixel_bytes(&self) -> Seq<u8> {
        self@.subrange(54, self@.len() as int)
    }

    /// Takes the bytes of a bitmap as they are.
    pub fn from_vec(data: Vec<u8>) -> (bitmap: BitMap)
        requires
            spec_compatible(data@),
        ensures
            bitmap@ == data@,
            bitmap.spec_well_formed(),
    {
        BitMap { data }
    }

    /// Copies the bytes of a bitmap, if they start as one that this
    /// library handles.
    pub fn from_raw(data: &[u8]) -> (bitmap: Option<BitMap>)
        ensures
            match bitmap {
                Some(copy) => spec_compatible(data@) && copy@ == data@ && copy.spec_well_formed(),
                None => !spec_compatible(data@),
            },
    {
        if !Self::validate_compatible_header(data) {
            return None;
        }
        let mut copy: Vec<u8> = Vec::new();
        copy.extend_from_slice(data);
        assert(copy@ =~= data@);
        Some(BitMap { data: copy })
    }

    /// Whether the bytes start as a bitmap that this library handles.
    pub fn validate_compatible_header(data: &[u8]) -> (r: bool)
        ensures
            r == spec_compatible(data@),
    {
        if data.len() < 32 {
            return false;
        }
        if data[0] != 66 || data[1] != 77 {
            return false;
        }
        if read_le32(data, BM_OFFSET_PIXEL_DATA) != 54 {
            return false;
        }
        if read_le32(data, BM_BPP) != 32 {
            return false;
        }
        if read_le16(data, BM_COMPRESSION) != 0 {
            return false;
        }
        true
    }

    /// A bitmap of the given width and height whose pixels are all zero.
    pub fn new(width: i32, height: i32) -> (bitmap: BitMap)
        requires
            width > 0,
            height > 0,
            width * height <= i32::MAX,
            54 + 4 * (width * height) <= usize::MAX,
        ensures
            bitmap@ == spec_blank(width as int, height as int),
            bitmap@.len() == 54 + 4 * (width * height),
            bitmap.spec_well_formed(),
            bitmap.spec_width() == width,
            spec_le32(bitmap@, 22) == height,
    {
        assert(0 < width * height) by (nonlinear_arith)
            requires
                width > 0,
                height > 0,
        ;
        let area: i32 = width * height;
        let pixels: usize = area as usize * 4;
        let length: usize = 54 + pixels;
        let size: u32 = (length as u64 % 0x1_0000_0000) as u32;
        let mut data: Vec<u8> = header_bytes(width as u32, height as u32, size);
        let ghost header = data@;
        push_zeros(&mut data, pixels);
        proof {
            lemma_header_fields(width as u32, height as u32, size);
            lemma_fields_of_front(data@, header);
            assert(data@ =~= spec_blank(width as int, height as int));
        }
        BitMap { data }
    }

    /// The width of the image.
    pub fn width(&self) -> (r: u32)
        requires
            self.spec_well_formed(),
        ensures
            r == self.spec_width(),
    {
        read_le32(self.data.as_slice(), BM_WIDTH)
    }

    /// The extent that the image reports for its second dimension. It is
    /// read from the header field of the width.
    pub fn height(&self) -> (r: u32)
        requires
            self.spec_well_formed(),
        ensures
            r == self.spec_width(),
    {
        read_le32(self.data.as_slice(), BM_WIDTH)
    }

    /// All bytes of the bitmap, header and pixels.
    pub fn bytes(&self) -> (r: &[u8])
        ensures
            r@ == self@,
    {
        self.data.as_slice()
    }

    /// The bytes of the pixels.
    pub fn pixel_bytes(&self) -> (r: &[u8])
        requires
            self@.len() >= 54,
        ensures
            r@ == self.spec_pixel_bytes(),
    {
        slice_subrange(self.data.as_slice(), BM_PIXEL_START, self.data.len())
    }

    /// The pixels: as many as the product of the two extents that the
    /// image reports.
    pub fn pixels(&self) -> (r: Vec<BGRA>)
        requires
            self.spec_well_formed(),
            54 + 4 * (self.spec_width() * self.spec_width()) <= self@.len(),
        ensures
            r@.len() == self.spec_width() * self.spec_width(),
            forall|i: int| 0 <= i < r@.len() ==> r@[i] == spec_pixel_at(self@, 54 + 4 * i),
    {
        let width: u32 = self.width();
        let height: u32 = self.height();
        let _ = self.data.len();
        assert(0 <= width * height <= 0xffff_ffff * 0xffff_ffff) by (nonlinear_arith)
            requires
                0 <= width <= 0xffff_ffff,
                0 <= height <= 0xffff_ffff,
        ;
        let area: u64 = (width as u64) * (height as u64);
        let count: usize = area as usize;
        self.first_pixels(count)
    }

    /// The first `count` pixels.
    fn first_pixels(&self, count: usize) -> (r: Vec<BGRA>)
        requires
            54 + 4 * count <= self@.len(),
        ensures
            r@.len() == count,
            forall|i: int| 0 <= i < count ==> r@[i] == spec_pixel_at(self@, 54 + 4 * i),
    {
        let mut out: Vec<BGRA> = Vec::new();
        let length: usize = self.data.len();
        let mut i: usize = 0;
        while i < count
            invariant
                i <= count,
                54 + 4 * count <= length,
                length == self.data@.len(),
                out@.len() == i,
                forall|j: int| 0 <= j < i ==> out@[j] == spec_pixel_at(self.data@, 54 + 4 * j),
            decreases count - i,
        {
            let at: usize = BM_PIXEL_START + 4 * i;
            out.push(
                BGRA {
                    b: self.data[at],
                    g: self.data[at + 1],
                    r: self.data[at + 2],
                    a: self.data[at + 3],
                },
            );
            i = i + 1;
        }
        out
    }

    /// Sets pixel `index`.
    pub fn set_pixel(&mut self, index: usize, pixel: BGRA)
        requires
            54 + 4 * index + 4 <= old(self)@.len(),
        ensures
            final(self)@.len() == old(self)@.len(),
            spec_pixel_at(final(self)@, 54 + 4 * index) == pixel,
            forall|i: int|
                0 <= i < old(self)@.len() && !(54 + 4 * index <= i < 54 + 4 * index + 4)
                    ==> final(self)@[i] == old(self)@[i],
            old(self).spec_well_formed() ==> final(self).spec_well_formed(),
    {
        let _ = self.data.len();
        let at: usize = BM_PIXEL_START + 4 * index;
        self.data[at] = pixel.b;
        self.data[at + 1] = pixel.g;
        self.data[at + 2] = pixel.r;
        self.data[at + 3] = pixel.a;
    }

    /// The bytes of the pixels for use as the data of a matrix: every
    /// window of one row's length over the pixel bytes, the last window
    /// first. Where a row is longer than the pixel bytes there is no
    /// window.
    pub fn build_mat(&self) -> (mat: Vec<u8>)
        requires
            self.spec_well_formed(),
            self@.len() >= 54,
            self.spec_width() > 0,
        ensures
            mat@ == spec_windows_reversed(
                self.spec_pixel_bytes(),
                4 * self.spec_width(),
                spec_window_count(self@.len() - 54, 4 * self.spec_width()),
            ),
    {
        let bytes: &[u8] = self.pixel_bytes();
        let row: u64 = self.width() as u64 * 4;
        let mut mat: Vec<u8> = Vec::new();
        if row > bytes.len() as u64 {
            return mat;
        }
        let size: usize = row as usize;
        let total: usize = bytes.len() - size + 1;
        let mut left: usize = total;
        while left > 0
            invariant
                left <= total,
                total == bytes@.len() - size + 1,
                size <= bytes@.len(),
                bytes@.len() <= usize::MAX,
                spec_windows_reversed(bytes@, size as int, total as nat) == mat@
                    + spec_windows_reversed(bytes@, size as int, left as nat),
            decreases left,
        {
            let window: &[u8] = slice_subrange(bytes, left - 1, left - 1 + size);
            let ghost before = mat@;
            mat.extend_from_slice(window);
            assert(mat@ =~= before + bytes@.subrange(left - 1, left - 1 + size));
            assert(before + spec_windows_reversed(bytes@, size as int, left as nat) =~= mat@
                + spec_windows_reversed(bytes@, size as int, (left - 1) as nat));
            left = left - 1;
        }
        assert(mat@ + spec_windows_reversed(bytes@, size as int, 0) =~= mat@);
        mat
    }
}

} // verus!
