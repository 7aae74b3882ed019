//! The compact binary form of an image matrix: a header of 32 bytes and
//! then the bytes of the elements, row after row.

use vstd::prelude::*;
use vstd::slice::slice_subrange;
use crate::le::push_le16;
use crate::le::push_le32;
use crate::le::push_le64;
use crate::le::read_le16;
use crate::le::read_le32;
use crate::le::read_le64;
use crate::le::signed;
use crate::le::spec_le16;
use crate::le::spec_le16_bytes;
use crate::le::spec_le32;
use crate::le::spec_le32_bytes;
use crate::le::spec_le64;
use crate::le::spec_le64_bytes;
use crate::le::spec_signed;
use crate::le::spec_unsigned;
use crate::le::unsigned;

verus! {

/// The version that a fresh header states.
pub const MAT_VER: u8 = 1;

/// The length of a header in bytes.
pub const HEADER_LEN: usize = 32;

/// The depth of unsigned bytes.
pub const CV_8U: i32 = 0;

/// The depth of signed bytes.
pub const CV_8S: i32 = 1;

/// The depth of unsigned 16-bit numbers.
pub const CV_16U: i32 = 2;

/// The depth of signed 16-bit numbers.
pub const CV_16S: i32 = 3;

/// The depth of signed 32-bit numbers.
pub const CV_32S: i32 = 4;

/// The depth of 32-bit floats.
pub const CV_32F: i32 = 5;

/// The depth of 64-bit floats.
pub const CV_64F: i32 = 6;

/// What stands before the elements of a matrix.
#[derive(Clone, Copy, Debug, PartialEq, Eq, Structural)]
pub struct MatHeader {
    /// The version; nothing reads it.
    pub ver: u8,
    pub reserved1: u8,
    pub reserved2: u16,
    pub reserved3: u32,
    /// The number of columns.
    pub width: i32,
    /// The number of rows.
    pub height: i32,
    /// The type of the elements: the depth in the low three bits, the
    /// number of channels less one in the three bits above them.
    pub mat_format: i32,
    pub reserved4: u32,
    pub reserved5: u64,
}

/// A matrix in its binary form.
pub struct CvMat {
    /// What the matrix is made of.
    pub header: MatHeader,
    /// The bytes of the elements.
    pub data: Vec<u8>,
}

/// Why the bytes of a matrix cannot be read.
#[derive(Clone, Copy, Debug, PartialEq, Eq, Structural)]
pub enum MatError {
    /// The bytes end before the header or the elements do.
    UnexpectedEof,
    /// The header states a negative extent, or more elements than can be
    /// held.
    BadExtent,
}

/// The bytes of a header.
pub open spec fn spec_header_bytes(header: MatHeader) -> Seq<u8> {
    seq![header.ver, header.reserved1] + spec_le16_bytes(header.reserved2) + spec_le32_bytes(
        header.reserved3,
    ) + spec_le32_bytes(spec_unsigned(header.width)) + spec_le32_bytes(
        spec_unsigned(header.height),
    ) + spec_le32_bytes(spec_unsigned(header.mat_format)) + spec_le32_bytes(header.reserved4)
        + spec_le64_bytes(header.reserved5)
}

/// The header in the first 32 bytes.
pub open spec fn spec_parse_header(bytes: Seq<u8>) -> MatHeader {
    MatHeader {
        ver: bytes[0],
        reserved1: bytes[1],
        reserved2: spec_le16(bytes, 2),
        reserved3: spec_le32(bytes, 4),
        width: spec_signed(spec_le32(bytes, 8)),
        height: spec_signed(spec_le32(bytes, 12)),
        mat_format: spec_signed(spec_le32(bytes, 16)),
        reserved4: spec_le32(bytes, 20),
        reserved5: spec_le64(bytes, 24),
    }
}

/// The bytes that one element of a depth takes in one channel.
pub open spec fn spec_depth_width(depth: int) -> int {
    if depth == 0 || depth == 1 {
        1
    } else if depth == 2 || depth == 3 {
        2
    } else if depth == 4 || depth == 5 {
        4
    } else if depth == 6 {
        8
    } else {
        1
    }
}

impl MatHeader {
    pub open spec fn spec_channels(self) -> int {
        (self.mat_format as int / 8) % 8 + 1
    }

    pub open spec fn spec_depth(self) -> int {
        self.mat_format as int % 8
    }

    /// The number of bytes that the elements take.
    pub open spec fn spec_data_len(self) -> int {
        self.width * self.height * spec_depth_width(self.spec_depth()) * self.spec_channels()
    }

    /// Whether the extents are not negative and the elements can be
    /// held.
    pub open spec fn spec_holdable(self) -> bool {
        &&& self.width >= 0
        &&& self.height >= 0
        &&& self.spec_data_len() <= usize::MAX
    }

    /// The products on the way to the number of bytes do not exceed it.
    proof fn lemma_products(self)
        requires
            self.width >= 0,
            self.height >= 0,
        ensures
            0 <= self.width * self.height <= self.width * self.height * spec_depth_width(
                self.spec_depth(),
            ) <= self.spec_data_len(),
    {
        let area = self.width * self.height;
        let depth_width = spec_depth_width(self.spec_depth());
        let channels = self.spec_channels();
        assert(0 <= area) by (nonlinear_arith)
            requires
                area == self.width * self.height,
                self.width >= 0,
                self.height >= 0,
        ;
        assert(area <= area * depth_width) by (nonlinear_arith)
            requires
                0 <= area,
                1 <= depth_width,
        ;
        assert(area * depth_width <= area * depth_width * channels) by (nonlinear_arith)
            requires
                0 <= area * depth_width,
                1 <= channels,
        ;
    }

    /// The header of a matrix of the given extents and type.
    pub fn new(width: i32, height: i32, mat_format: i32) -> (header: MatHeader)
        ensures
            header == (MatHeader {
                ver: MAT_VER,
                reserved1: 0,
                reserved2: 0,
                reserved3: 0,
                width,
                height,
                mat_format,
                reserved4: 0,
                reserved5: 0,
            }),
    {
        MatHeader {
            ver: MAT_VER,
            reserved1: 0,
            reserved2: 0,
            reserved3: 0,
            width,
            height,
            mat_format,
            reserved4: 0,
            reserved5: 0,
        }
    }

    /// The number of channels, from one to eight.
    #[inline]
    pub fn channels(&self) -> (r: u8)
        ensures
            r == self.spec_channels(),
            1 <= r <= 8,
    {
        let format: i32 = self.mat_format;
        let shifted: u8 = #[verifier::truncate]
        ((format >> 3) as u8);
        let low: u8 = shifted & 7;
        assert(((format >> 3) as u8) & 7 == ((format as int) / 8) % 8) by (bit_vector);
        low + 1
    }

    /// The depth of the elements, from zero to seven.
    #[inline]
    pub fn depth(&self) -> (r: i32)
        ensures
            r == self.spec_depth(),
            0 <= r <= 7,
    {
        let format: i32 = self.mat_format;
        let r: i32 = format & 7;
        assert(format & 7 == (format as int) % 8) by (bit_vector);
        r
    }

    /// The bytes that one element takes in one channel; one where the
    /// depth is not known.
    #[inline]
    pub fn depth_width(&self) -> (r: i32)
        ensures
            r == spec_depth_width(self.spec_depth()),
            1 <= r <= 8,
    {
        let depth: i32 = self.depth();
        if depth == CV_8U || depth == CV_8S {
            1
        } else if depth == CV_16U || depth == CV_16S {
            2
        } else if depth == CV_32F || depth == CV_32S {
            4
        } else if depth == CV_64F {
            8
        } else {
            1
        }
    }

    /// The number of bytes that the elements take, where the extents are
    /// not negative and that many bytes can be held.
    pub fn checked_data_len(&self) -> (r: Option<usize>)
        ensures
            match r {
                Some(n) => self.spec_holdable() && n == self.spec_data_len(),
                None => !self.spec_holdable(),
            },
    {
        if self.width < 0 || self.height < 0 {
            return None;
        }
        let width: usize = self.width as usize;
        let height: usize = self.height as usize;
        let depth_width: i32 = self.depth_width();
        let channels: u8 = self.channels();
        proof {
            self.lemma_products();
        }
        let area: usize = match width.checked_mul(height) {
            Some(n) => n,
            None => {
                return None;
            },
        };
        let plane: usize = match area.checked_mul(depth_width as usize) {
            Some(n) => n,
            None => {
                return None;
            },
        };
        match plane.checked_mul(channels as usize) {
            Some(n) => Some(n),
            None => None,
        }
    }

    /// The number of bytes that the elements take.
    pub fn data_len(&self) -> (r: usize)
        requires
            self.spec_holdable(),
        ensures
            r == self.spec_data_len(),
    {
        let width: usize = self.width as usize;
        let height: usize = self.height as usize;
        proof {
            self.lemma_products();
        }
        width * height * (self.depth_width() as usize) * (self.channels() as usize)
    }

    /// The elements of a matrix with this header, all zero.
    pub fn alloc_vec(&self) -> (data: Vec<u8>)
        requires
            self.spec_holdable(),
        ensures
            data@ == Seq::new(self.spec_data_len() as nat, |i: int| 0u8),
    {
        let mut data: Vec<u8> = Vec::new();
        crate::le::push_zeros(&mut data, self.data_len());
        assert(data@ =~= Seq::new(self.spec_data_len() as nat, |i: int| 0u8));
        data
    }

    /// The 32 bytes of the header.
    pub fn to_bytes(&self) -> (bytes: Vec<u8>)
        ensures
            bytes@ == spec_header_bytes(*self),
            bytes@.len() == HEADER_LEN,
    {
        let mut bytes: Vec<u8> = Vec::new();
        bytes.push(self.ver);
        bytes.push(self.reserved1);
        assert(bytes@ =~= seq![self.ver, self.reserved1]);
        push_le16(&mut bytes, self.reserved2);
        push_le32(&mut bytes, self.reserved3);
        push_le32(&mut bytes, unsigned(self.width));
        push_le32(&mut bytes, unsigned(self.height));
        push_le32(&mut bytes, unsigned(self.mat_format));
        push_le32(&mut bytes, self.reserved4);
        push_le64(&mut bytes, self.reserved5);
        bytes
    }

    /// The header in the first 32 bytes.
    pub fn from_bytes(bytes: &[u8]) -> (header: MatHeader)
        requires
            bytes@.len() >= HEADER_LEN,
        ensures
            header == spec_parse_header(bytes@),
    {
        MatHeader {
            ver: bytes[0],
            reserved1: bytes[1],
            reserved2: read_le16(bytes, 2),
            reserved3: read_le32(bytes, 4),
            width: signed(read_le32(bytes, 8)),
            height: signed(read_le32(bytes, 12)),
            mat_format: signed(read_le32(bytes, 16)),
            reserved4: read_le32(bytes, 20),
            reserved5: read_le64(bytes, 24),
        }
    }
}

/// What reading the bytes of a matrix gives: the header from the first 32
/// bytes, and as many bytes after it as the header states.
pub open spec fn spec_read(bytes: Seq<u8>) -> Result<(MatHeader, Seq<u8>), MatError> {
    if bytes.len() < 32 {
        Err(MatError::UnexpectedEof)
    } else {
        let header = spec_parse_header(bytes);
        if !header.spec_holdable() {
            Err(MatError::BadExtent)
        } else if bytes.len() - 32 < header.spec_data_len() {
            Err(MatError::UnexpectedEof)
        } else {
            Ok((header, bytes.subrange(32, 32 + header.spec_data_len())))
        }
    }
}

impl CvMat {
    /// Reads a matrix from the start of `bytes`. What follows the
    /// elements is not looked at.
    pub fn read(bytes: &[u8]) -> (r: Result<CvMat, MatError>)
        ensures
            match r {
                Ok(mat) => spec_read(bytes@) == Ok::<(MatHeader, Seq<u8>), MatError>(
                    (mat.header, mat.data@),
                ),
                Err(error) => spec_read(bytes@) == Err::<(MatHeader, Seq<u8>), MatError>(error),
            },
    {
        if bytes.len() < HEADER_LEN {
            return Err(MatError::UnexpectedEof);
        }
        let header = MatHeader::from_bytes(bytes);
        let length: usize = match header.checked_data_len() {
            Some(n) => n,
            None => {
                return Err(MatError::BadExtent);
            },
        };
        if bytes.len() - HEADER_LEN < length {
            return Err(MatError::UnexpectedEof);
        }
        let mut data: Vec<u8> = Vec::new();
        data.extend_from_slice(slice_subrange(bytes, HEADER_LEN, HEADER_LEN + length));
        assert(data@ =~= bytes@.subrange(32, 32 + header.spec_data_len()));
        Ok(CvMat { header, data })
    }

    /// The bytes of the matrix: the header, then the elements.
    pub fn write(&self) -> (bytes: Vec<u8>)
        ensures
            bytes@ == spec_header_bytes(self.header) + self.data@,
    {
        let mut bytes: Vec<u8> = self.header.to_bytes();
        bytes.extend_from_slice(self.data.as_slice());
        bytes
    }
}

/// The bytes of a header hold the header.
#[verifier::rlimit(50)]
pub proof fn lemma_header_round_trip(header: MatHeader)
    ensures
        spec_header_bytes(header).len() == 32,
        spec_parse_header(spec_header_bytes(header)) == header,
{
    let bytes = spec_header_bytes(header);
    let low = (header.reserved5 % 0x1_0000_0000) as u32;
    let high = (header.reserved5 / 0x1_0000_0000) as u32;
    assert(bytes.len() == 32);
    assert(bytes[0] == header.ver && bytes[1] == header.reserved1);
    assert(bytes.subrange(2, 4) =~= spec_le16_bytes(header.reserved2));
    assert(bytes.subrange(4, 8) =~= spec_le32_bytes(header.reserved3));
    assert(bytes.subrange(8, 12) =~= spec_le32_bytes(spec_unsigned(header.width)));
    assert(bytes.subrange(12, 16) =~= spec_le32_bytes(spec_unsigned(header.height)));
    assert(bytes.subrange(16, 20) =~= spec_le32_bytes(spec_unsigned(header.mat_format)));
    assert(bytes.subrange(20, 24) =~= spec_le32_bytes(header.reserved4));
    assert(bytes.subrange(24, 28) =~= spec_le32_bytes(low));
    assert(bytes.subrange(28, 32) =~= spec_le32_bytes(high));
    lemma_field16(bytes, 2, header.reserved2);
    lemma_field32(bytes, 4, header.reserved3);
    lemma_field32(bytes, 8, spec_unsigned(header.width));
    lemma_field32(bytes, 12, spec_unsigned(header.height));
    lemma_field32(bytes, 16, spec_unsigned(header.mat_format));
    lemma_field32(bytes, 20, header.reserved4);
    lemma_field32(bytes, 24, low);
    lemma_field32(bytes, 28, high);
}

proof fn lemma_field32(bytes: Seq<u8>, at: int, value: u32)
    requires
        0 <= at,
        at + 4 <= bytes.len(),
        bytes.subrange(at, at + 4) == spec_le32_bytes(value),
    ensures
        spec_le32(bytes, at) == value,
{
    let part = bytes.subrange(at, at + 4);
    assert(part[0] == bytes[at] && part[1] == bytes[at + 1] && part[2] == bytes[at + 2]
        && part[3] == bytes[at + 3]);
}

proof fn lemma_field16(bytes: Seq<u8>, at: int, value: u16)
    requires
        0 <= at,
        at + 2 <= bytes.len(),
        bytes.subrange(at, at + 2) == spec_le16_bytes(value),
    ensures
        spec_le16(bytes, at) == value,
{
    let part = bytes.subrange(at, at + 2);
    assert(part[0] == bytes[at] && part[1] == bytes[at + 1]);
}

/// What was written is read back: the bytes of a matrix whose elements
/// are as many as its header states give that header and those elements
/// again, whatever follows them.
pub proof fn lemma_read_what_was_written(header: MatHeader, data: Seq<u8>, rest: Seq<u8>)
    requires
        header.spec_holdable(),
        data.len() == header.spec_data_len(),
    ensures
        spec_read(spec_header_bytes(header) + data + rest) == Ok::<
            (MatHeader, Seq<u8>),
            MatError,
        >((header, data)),
{
    let head = spec_header_bytes(header);
    let bytes = head + data + rest;
    lemma_header_round_trip(header);
    assert(bytes.subrange(0, 32) =~= head);
    lemma_parse_reads_the_front(bytes, head);
    assert(bytes.subrange(32, 32 + header.spec_data_len()) =~= data);
}

/// The header is read from the first 32 bytes alone.
proof fn lemma_parse_reads_the_front(bytes: Seq<u8>, head: Seq<u8>)
    requires
        head.len() == 32,
        bytes.len() >= 32,
        bytes.subrange(0, 32) == head,
    ensures
        spec_parse_header(bytes) == spec_parse_header(head),
{
    assert forall|i: int| 0 <= i < 32 implies bytes[i] == head[i] by {
        assert(bytes.subrange(0, 32)[i] == bytes[i]);
    }
}

} // verus!
