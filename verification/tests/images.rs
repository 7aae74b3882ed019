use pedestal_rs::cv_mat::{CvMat, MatError, MatHeader, CV_16S, CV_32F, CV_64F, CV_8U, MAT_VER};
use pedestal_rs::le::{read_le16, read_le32, read_le64, signed, unsigned};
use pedestal_rs::mini_bmp::{BitMap, BGRA};

#[test]
fn test_bmp() {
    let bmp = BitMap::new(4, 4);
    let bytes = bmp.bytes();
    assert_eq!(bytes.len(), 54 + 64);
    assert_eq!(&bytes[..2], b"BM");
    assert_eq!(read_le32(bytes, 2), 118);
    assert_eq!(read_le32(bytes, 10), 54);
    assert_eq!(read_le32(bytes, 14), 40);
    assert_eq!(read_le32(bytes, 18), 4);
    assert_eq!(read_le32(bytes, 22), 4);
    assert_eq!(read_le16(bytes, 26), 1);
    assert_eq!(read_le16(bytes, 28), 32);
    assert_eq!(read_le32(bytes, 30), 0);
    assert_eq!(read_le32(bytes, 34), 0);
    assert_eq!(read_le16(bytes, 38), 2835);
    assert_eq!(read_le16(bytes, 42), 2835);
    assert!(bytes[46..].iter().all(|byte| *byte == 0));
    assert_eq!(bmp.width(), 4);
    assert_eq!(bmp.height(), 4);
    assert_eq!(bmp.pixel_bytes().len(), 64);
    assert_eq!(&*bmp, bmp.bytes());
    assert_eq!(bmp.len(), 118);
}

#[test]
fn bitmap_that_is_not_square() {
    let bmp = BitMap::new(3, 2);
    assert_eq!(bmp.bytes().len(), 54 + 24);
    assert_eq!(bmp.width(), 3);
    assert_eq!(read_le32(bmp.bytes(), 22), 2);
    // The second extent is read from the field of the width.
    assert_eq!(bmp.height(), 3);
}

#[test]
fn bitmap_from_raw_bytes() {
    let bmp = BitMap::new(2, 2);
    let copy = BitMap::from_raw(bmp.bytes()).expect("compatible");
    assert_eq!(copy.bytes(), bmp.bytes());
    assert!(BitMap::validate_compatible_header(bmp.bytes()));

    assert!(BitMap::from_raw(b"BM").is_none());
    assert!(BitMap::from_raw(&[]).is_none());
    let mut other = bmp.bytes().to_vec();
    other[0] = b'X';
    assert!(BitMap::from_raw(&other).is_none());
    let mut other = bmp.bytes().to_vec();
    other[10] = 55;
    assert!(BitMap::from_raw(&other).is_none());
    let mut other = bmp.bytes().to_vec();
    other[28] = 24;
    assert!(BitMap::from_raw(&other).is_none());
    let mut other = bmp.bytes().to_vec();
    other[31] = 1;
    assert!(BitMap::from_raw(&other).is_none());
    let header_only = &bmp.bytes()[..32];
    assert!(BitMap::from_raw(header_only).is_some());
    assert!(BitMap::from_raw(&bmp.bytes()[..31]).is_none());
}

#[test]
fn bitmap_pixels() {
    let mut bmp = BitMap::new(2, 2);
    bmp.set_pixel(1, BGRA { b: 1, g: 2, r: 127, a: 255 });
    let pixels = bmp.pixels();
    assert_eq!(pixels.len(), 4);
    assert_eq!(pixels[0], BGRA { b: 0, g: 0, r: 0, a: 0 });
    assert_eq!(pixels[1], BGRA { b: 1, g: 2, r: 127, a: 255 });
    assert_eq!(&bmp.pixel_bytes()[4..8], &[1, 2, 127, 255]);
    assert_eq!(bmp.width(), 2);
    let same = BitMap::from_vec(bmp.bytes().to_vec());
    assert_eq!(same.pixels(), pixels);
}

#[test]
fn bitmap_windows_for_a_matrix() {
    let mut bmp = BitMap::new(1, 2);
    bmp.set_pixel(0, BGRA { b: 1, g: 2, r: 3, a: 4 });
    bmp.set_pixel(1, BGRA { b: 5, g: 6, r: 7, a: 8 });
    // Windows of four bytes over eight bytes, the last window first.
    assert_eq!(
        bmp.build_mat(),
        vec![5, 6, 7, 8, 4, 5, 6, 7, 3, 4, 5, 6, 2, 3, 4, 5, 1, 2, 3, 4]
    );
    let one = BitMap::new(2, 1);
    assert_eq!(one.build_mat(), vec![0; 8]);
    let wide = BitMap::from_raw(&BitMap::new(4, 1).bytes()[..54 + 8]).expect("compatible");
    assert_eq!(wide.build_mat(), Vec::<u8>::new());
}

#[test]
fn matrix_header_fields() {
    let header = MatHeader::new(640, 480, 16);
    assert_eq!(header.ver, MAT_VER);
    assert_eq!(header.channels(), 3);
    assert_eq!(header.depth(), CV_8U);
    assert_eq!(header.depth_width(), 1);
    assert_eq!(header.data_len(), 640 * 480 * 3);
    assert_eq!(header.checked_data_len(), Some(921600));

    let header = MatHeader::new(2, 3, 8 + CV_16S);
    assert_eq!(header.channels(), 2);
    assert_eq!(header.depth(), 3);
    assert_eq!(header.depth_width(), 2);
    assert_eq!(header.data_len(), 24);

    assert_eq!(MatHeader::new(1, 1, CV_32F).depth_width(), 4);
    assert_eq!(MatHeader::new(1, 1, 4).depth_width(), 4);
    assert_eq!(MatHeader::new(1, 1, CV_64F).depth_width(), 8);
    assert_eq!(MatHeader::new(1, 1, 7).depth_width(), 1);
    assert_eq!(MatHeader::new(1, 1, 1).depth_width(), 1);
    assert_eq!(MatHeader::new(1, 1, 2).depth_width(), 2);
    assert_eq!(MatHeader::new(1, 1, 56 + 6).channels(), 8);
    assert_eq!(MatHeader::new(1, 1, 56 + 6).data_len(), 64);
    assert_eq!(MatHeader::new(1, 1, -1).channels(), 8);
    assert_eq!(MatHeader::new(1, 1, -1).depth(), 7);
    assert_eq!(MatHeader::new(1, 1, 64).channels(), 1);
    assert_eq!(MatHeader::new(5, 4, 0).alloc_vec(), vec![0u8; 20]);
}

#[test]
fn matrix_header_bytes() {
    let header = MatHeader::new(640, -2, 16);
    let bytes = header.to_bytes();
    assert_eq!(
        bytes,
        vec![
            1, 0, 0, 0, 0, 0, 0, 0, 0x80, 0x02, 0, 0, 0xfe, 0xff, 0xff, 0xff, 16, 0, 0, 0, 0, 0, 0,
            0, 0, 0, 0, 0, 0, 0, 0, 0
        ]
    );
    assert_eq!(MatHeader::from_bytes(&bytes), header);
    let mut odd = (0u8..32).collect::<Vec<u8>>();
    odd[11] = 0x80;
    let parsed = MatHeader::from_bytes(&odd);
    assert_eq!(parsed.ver, 0);
    assert_eq!(parsed.reserved1, 1);
    assert_eq!(parsed.reserved2, 0x0302);
    assert_eq!(parsed.reserved3, 0x07060504);
    assert_eq!(parsed.width, i32::from_le_bytes([8, 9, 10, 0x80]));
    assert_eq!(parsed.height, 0x0f0e0d0c);
    assert_eq!(parsed.mat_format, 0x13121110);
    assert_eq!(parsed.reserved4, 0x17161514);
    assert_eq!(parsed.reserved5, 0x1f1e1d1c1b1a1918);
    assert_eq!(parsed.to_bytes(), odd);
}

#[test]
fn matrix_round_trip() {
    let mat = CvMat { header: MatHeader::new(2, 2, 8), data: vec![1, 2, 3, 4, 5, 6, 7, 8] };
    let mut bytes = mat.write();
    assert_eq!(bytes.len(), 40);
    bytes.extend_from_slice(&[9, 9, 9]);
    let read = CvMat::read(&bytes).expect("readable");
    assert_eq!(read.header, mat.header);
    assert_eq!(read.data, mat.data);
}

#[test]
fn matrix_that_cannot_be_read() {
    let mat = CvMat { header: MatHeader::new(2, 2, 8), data: vec![1, 2, 3, 4, 5, 6, 7, 8] };
    let bytes = mat.write();
    assert_eq!(CvMat::read(&bytes[..31]).err(), Some(MatError::UnexpectedEof));
    assert_eq!(CvMat::read(&bytes[..39]).err(), Some(MatError::UnexpectedEof));
    assert_eq!(CvMat::read(&[]).err(), Some(MatError::UnexpectedEof));
    let negative = MatHeader::new(-1, 2, 0).to_bytes();
    assert_eq!(CvMat::read(&negative).err(), Some(MatError::BadExtent));
    assert_eq!(MatHeader::new(2, -1, 0).checked_data_len(), None);
    let empty = MatHeader::new(0, 5, 0).to_bytes();
    assert_eq!(CvMat::read(&empty).expect("readable").data, Vec::<u8>::new());
}

#[test]
fn numbers_as_bytes() {
    assert_eq!(unsigned(-1), u32::MAX);
    assert_eq!(unsigned(i32::MIN), 0x8000_0000);
    assert_eq!(unsigned(5), 5);
    assert_eq!(signed(u32::MAX), -1);
    assert_eq!(signed(0x8000_0000), i32::MIN);
    assert_eq!(signed(5), 5);
    assert_eq!(read_le16(&[0x34, 0x12], 0), 0x1234);
    assert_eq!(read_le32(&[0, 0x78, 0x56, 0x34, 0x12], 1), 0x12345678);
    assert_eq!(read_le64(&[1, 2, 3, 4, 5, 6, 7, 8], 0), 0x0807060504030201);
}
