use content_delivery::digest::sha1_hex;
use content_delivery::render::{dec_render, hex_render};

#[test]
fn hex_render_empty() {
    assert_eq!(hex_render(&Vec::new()), b"".to_vec());
}

#[test]
fn hex_render_single_byte() {
    assert_eq!(hex_render(&vec![0x00]), b"00".to_vec());
    assert_eq!(hex_render(&vec![0x0f]), b"0f".to_vec());
    assert_eq!(hex_render(&vec![0xab]), b"ab".to_vec());
    assert_eq!(hex_render(&vec![0xff]), b"ff".to_vec());
}

#[test]
fn hex_render_keeps_order() {
    assert_eq!(hex_render(&vec![0x12, 0x34, 0xcd]), b"1234cd".to_vec());
}

#[test]
fn dec_render_zero() {
    assert_eq!(dec_render(0), b"0".to_vec());
}

#[test]
fn dec_render_small_and_large() {
    assert_eq!(dec_render(5), b"5".to_vec());
    assert_eq!(dec_render(42), b"42".to_vec());
    assert_eq!(dec_render(12345), b"12345".to_vec());
    assert_eq!(
        dec_render(u64::MAX),
        b"18446744073709551615".to_vec()
    );
}

#[test]
fn sha1_hex_of_known_content() {
    assert_eq!(
        sha1_hex(&b"hello".to_vec()),
        b"aaf4c61ddcc5e8a2dabede0f3b482cd9aea9434d".to_vec()
    );
}

#[test]
fn sha1_hex_of_empty_content() {
    assert_eq!(
        sha1_hex(&Vec::new()),
        b"da39a3ee5e6b4b0d3255bfef95601890afd80709".to_vec()
    );
}
