use climeta::schema::signatures;
use climeta::DecodeError;

fn uncompress_unsigned(mut data: &[u8]) -> Result<u32, DecodeError> {
    signatures::uncompress_unsigned(&mut data)
}

#[test]
fn test_uncompress_unsigned() {
    assert_eq!(uncompress_unsigned(&[0x03]).unwrap(), 3);
    assert_eq!(uncompress_unsigned(&[0x7F]).unwrap(), 0x7F);
    assert_eq!(uncompress_unsigned(&[0x80, 0x80]).unwrap(), 0x80);
    assert_eq!(uncompress_unsigned(&[0xAE, 0x57]).unwrap(), 0x2E57);
    assert_eq!(uncompress_unsigned(&[0xBF, 0xFF]).unwrap(), 0x3FFF);
    assert_eq!(uncompress_unsigned(&[0xC0, 0x00, 0x40, 0x00]).unwrap(), 0x4000);
    assert_eq!(uncompress_unsigned(&[0xDF, 0xFF, 0xFF, 0xFF]).unwrap(), 0x1FFFFFFF);
    assert!(uncompress_unsigned(&[]).is_err());
}
