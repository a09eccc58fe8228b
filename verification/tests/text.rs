use instance_spec::text::{chars_of, find_sep, parse_unsigned, push_decimal, str_eq};

#[test]
fn strings_compare_by_their_characters() {
    assert!(str_eq("", ""));
    assert!(str_eq("virtio", "virtio"));
    assert!(!str_eq("virtio", "virtio-scsi"));
    assert!(!str_eq("virtio", "virtiO"));
    assert!(str_eq("héllo", "héllo"));
    assert!(!str_eq("héllo", "hèllo"));
}

#[test]
fn characters_come_out_in_order() {
    assert_eq!(chars_of(""), Vec::<char>::new());
    assert_eq!(chars_of("0.é"), vec!['0', '.', 'é']);
}

#[test]
fn separator_is_found_from_a_position() {
    let chars = chars_of("10.20.30");
    assert_eq!(find_sep(&chars, '.', 0), 2);
    assert_eq!(find_sep(&chars, '.', 2), 2);
    assert_eq!(find_sep(&chars, '.', 3), 5);
    assert_eq!(find_sep(&chars, '.', 6), 8);
    assert_eq!(find_sep(&chars, '.', 8), 8);
}

#[test]
fn unsigned_decimals_are_read_up_to_a_bound() {
    let read = |text: &str, max: u32| {
        let chars = chars_of(text);
        parse_unsigned(&chars, 0, chars.len(), max)
    };
    assert_eq!(read("0", 255), Some(0));
    assert_eq!(read("255", 255), Some(255));
    assert_eq!(read("256", 255), None);
    assert_eq!(read("+17", 255), Some(17));
    assert_eq!(read("0017", 255), Some(17));
    assert_eq!(read("", 255), None);
    assert_eq!(read("+", 255), None);
    assert_eq!(read("-1", 255), None);
    assert_eq!(read("1a", 255), None);
    assert_eq!(read("2560", 255), None);
    assert_eq!(read("65536", u32::MAX), Some(65536));
    assert_eq!(read("4294967295", u32::MAX), Some(4294967295));
    assert_eq!(read("4294967296", u32::MAX), None);
    assert_eq!(read("42949672950", u32::MAX), None);
    let chars = chars_of("ab12cd");
    assert_eq!(parse_unsigned(&chars, 2, 4, 255), Some(12));
}

#[test]
fn bytes_are_written_in_decimal() {
    for (n, text) in [(0u8, "0"), (9, "9"), (10, "10"), (99, "99"), (100, "100"), (205, "205"), (255, "255")] {
        let mut out = String::from("n=");
        push_decimal(&mut out, n);
        assert_eq!(out, format!("n={}", text));
    }
    for n in 0..=255u8 {
        let mut out = String::new();
        push_decimal(&mut out, n);
        assert_eq!(out, format!("{}", n));
    }
}
