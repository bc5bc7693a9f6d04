use usb_echo::transform::transform_byte;
use usb_echo::transform::transform_prefix;

#[test]
fn lowercase_maps_to_uppercase() {
    assert_eq!(transform_byte(0x61), 0x41); // 'a' -> 'A'
    assert_eq!(transform_byte(0x6d), 0x4d); // 'm' -> 'M'
    assert_eq!(transform_byte(0x7a), 0x5a); // 'z' -> 'Z'
}

#[test]
fn other_bytes_pass_through() {
    assert_eq!(transform_byte(0x60), 0x60); // '`', just below 'a'
    assert_eq!(transform_byte(0x7b), 0x7b); // '{', just above 'z'
    assert_eq!(transform_byte(0x41), 0x41); // 'A' already uppercase
    assert_eq!(transform_byte(0x20), 0x20); // space
    assert_eq!(transform_byte(0x30), 0x30); // '0'
    assert_eq!(transform_byte(0x00), 0x00);
    assert_eq!(transform_byte(0xff), 0xff);
}

#[test]
fn transform_matches_formula_on_every_byte() {
    for b in 0..=255u8 {
        let expected = if (0x61..=0x7a).contains(&b) { b - 0x20 } else { b };
        assert_eq!(transform_byte(b), expected);
    }
}

#[test]
fn transform_is_idempotent_on_every_byte() {
    for b in 0..=255u8 {
        let once = transform_byte(b);
        assert_eq!(transform_byte(once), once);
    }
}

#[test]
fn prefix_is_transformed_and_tail_kept() {
    let mut buf: Vec<u8> = b"abcXYZ".to_vec();
    transform_prefix(&mut buf, 3);
    assert_eq!(buf, b"ABCXYZ".to_vec());

    let mut buf2: Vec<u8> = b"abc".to_vec();
    transform_prefix(&mut buf2, 0);
    assert_eq!(buf2, b"abc".to_vec());

    let mut buf3: Vec<u8> = b"helloWORLD".to_vec();
    transform_prefix(&mut buf3, 5);
    assert_eq!(buf3, b"HELLOWORLD".to_vec());
}

#[test]
fn hello_world_scenario() {
    let mut buf: Vec<u8> = b"Hello, World! 123".to_vec();
    assert_eq!(buf.len(), 17);
    let n = buf.len();
    transform_prefix(&mut buf, n);
    assert_eq!(buf, b"HELLO, WORLD! 123".to_vec());
    assert_eq!(buf.len(), 17);
}
