use cc3200::format::{fill_buf, format_fixed_into, shown_places_for, format_hex_into, format_int_into, format_mac_addr_into};

fn format_int_into_ref(buf: &mut [u8], num: i32, fill: char) -> bool {
    let s = if fill == '0' {
        format!("{:01$}", num, buf.len())
    } else {
        format!("{:1$}", num, buf.len())
    };
    let s_len = s.len();
    let buf_len = buf.len();

    // The width is a minimum, but the buffer is not: text that is longer
    // does not fit.
    if s_len > buf_len {
        false
    } else {
        buf.copy_from_slice(&(s.into_bytes())[0..buf_len]);
        true
    }
}

fn check_against_reference() {
    let test_nums = vec![123456, 12345, 1234, 123, 12, 1, 0, -1, -12, -123, -1234, -12345,
                         -123456];

    let mut int_buf: [u8; 5] = [0; 5];
    let mut ref_buf: [u8; 5] = [0; 5];

    for num in test_nums.iter() {
        let ok1 = format_int_into(&mut int_buf[..], *num, ' ');
        let ok2 = format_int_into_ref(&mut ref_buf[..], *num, ' ');

        assert_eq!(ok1, ok2);
        if ok1 {
            assert_eq!(int_buf, ref_buf);
        }
    }

    for num in test_nums.iter() {
        let ok1 = format_int_into(&mut int_buf[..], *num, '0');
        let ok2 = format_int_into_ref(&mut ref_buf[..], *num, '0');

        assert_eq!(ok1, ok2);
        if ok1 {
            assert_eq!(int_buf, ref_buf);
        }
    }
}

#[test]
fn test_format_test_int() {
    check_against_reference();
}

#[test]
fn format_test_int() {
    check_against_reference();
}

fn fmt_int(len: usize, num: i32, fill: char) -> (bool, String) {
    let mut buf = vec![b'?'; len];
    let ok = format_int_into(&mut buf, num, fill);
    (ok, String::from_utf8(buf).unwrap())
}

#[test]
fn int_examples() {
    assert_eq!(fmt_int(5, 123, ' '), (true, "  123".to_string()));
    assert_eq!(fmt_int(5, -123, ' '), (true, " -123".to_string()));
    assert_eq!(fmt_int(5, -123, '0'), (true, "-0123".to_string()));
    assert_eq!(fmt_int(5, 0, ' '), (true, "    0".to_string()));
    assert_eq!(fmt_int(5, 0, '0'), (true, "00000".to_string()));
    assert_eq!(fmt_int(3, 7, 'x'), (true, "xx7".to_string()));
}

#[test]
fn int_overflow_fills_with_stars() {
    assert_eq!(fmt_int(5, 123456, ' '), (false, "*****".to_string()));
    assert_eq!(fmt_int(4, -1234, ' '), (false, "****".to_string()));
    assert_eq!(fmt_int(4, -1234, '0'), (false, "****".to_string()));
    assert_eq!(fmt_int(0, 5, ' '), (false, "".to_string()));
}

#[test]
fn int_extremes() {
    assert_eq!(fmt_int(11, i32::MIN, ' '), (true, "-2147483648".to_string()));
    assert_eq!(fmt_int(12, i32::MIN, '0'), (true, "-02147483648".to_string()));
    assert_eq!(fmt_int(10, i32::MAX, ' '), (true, "2147483647".to_string()));
    assert_eq!(fmt_int(10, i32::MIN, ' '), (false, "**********".to_string()));
}

#[test]
fn int_matches_printf_for_all_widths() {
    let nums = [0, 1, -1, 9, -9, 10, -10, 99999, -99999, i32::MAX, i32::MIN, 2000000000, -7];
    for len in 1..=12usize {
        for num in nums.iter() {
            for fill in [' ', '0'] {
                let mut buf = vec![0u8; len];
                let mut ref_buf = vec![0u8; len];
                let ok = format_int_into(&mut buf, *num, fill);
                let ok_ref = format_int_into_ref(&mut ref_buf, *num, fill);
                assert_eq!(ok, ok_ref);
                if ok {
                    assert_eq!(buf, ref_buf);
                } else {
                    assert!(buf.iter().all(|b| *b == b'*'));
                }
            }
        }
    }
}

#[test]
fn fill_buf_sets_every_byte() {
    let mut buf = [1u8, 2, 3];
    fill_buf(&mut buf, b'z');
    assert_eq!(&buf, b"zzz");
}

#[test]
fn hex_right_aligned_and_truncated() {
    let mut buf = [0u8; 4];
    assert!(format_hex_into(&mut buf, 0xab));
    assert_eq!(&buf, b"00ab");
    let mut buf = [0u8; 2];
    assert!(format_hex_into(&mut buf, 0x12345));
    assert_eq!(&buf, b"45");
    let mut buf = [0u8; 8];
    assert!(format_hex_into(&mut buf, 0xdeadbeef));
    assert_eq!(&buf, b"deadbeef");
    let mut empty: [u8; 0] = [];
    assert!(!format_hex_into(&mut empty, 1));
}

#[test]
fn mac_address_text() {
    let mut buf = [0u8; 17];
    assert!(format_mac_addr_into(&mut buf, [0x00, 0x1a, 0x2b, 0xc3, 0xd4, 0xff]));
    assert_eq!(&buf, b"00:1a:2b:c3:d4:ff");
}

fn fmt_fixed(len: usize, scaled: i32, digits: u32) -> (bool, String) {
    let mut buf = vec![b'?'; len];
    let ok = format_fixed_into(&mut buf, scaled, digits);
    (ok, String::from_utf8(buf).unwrap())
}

#[test]
fn fixed_examples() {
    // 1.2345 at two places rounds to 123 hundredths.
    assert_eq!(fmt_fixed(8, 123, 2), (true, "    1.23".to_string()));
    // -0.5 at two places: the integer part is forced to "-0".
    assert_eq!(fmt_fixed(8, -50, 2), (true, "   -0.50".to_string()));
    assert_eq!(fmt_fixed(8, -100, 2), (true, "   -1.00".to_string()));
    assert_eq!(fmt_fixed(8, 0, 2), (true, "    0.00".to_string()));
}

#[test]
fn fixed_overflow_and_short_buffers() {
    assert_eq!(fmt_fixed(8, 12345679, 2), (false, "********".to_string()));
    assert_eq!(fmt_fixed(8, -1234568, 2), (false, "********".to_string()));
    assert_eq!(fmt_fixed(2, 1, 1), (false, "**".to_string()));
    // "-0" needs two columns before the point.
    assert_eq!(fmt_fixed(3, -5, 1), (false, "***".to_string()));
    assert_eq!(fmt_fixed(4, -5, 1), (true, "-0.5".to_string()));
}

#[test]
fn fixed_without_places_and_with_clamped_places() {
    assert_eq!(fmt_fixed(5, 42, 0), (true, "   42".to_string()));
    // Places are cut to the buffer before scaling: 1.5 wanted at four or
    // five places is handed over scaled by 10^2 in four bytes, by 10^3 in five.
    assert_eq!(fmt_fixed(4, 150, 4), (true, "1.50".to_string()));
    assert_eq!(fmt_fixed(4, 150, 5), (true, "1.50".to_string()));
    assert_eq!(fmt_fixed(5, 1500, 4), (true, "1.500".to_string()));
    // 1.00005 at five places in four bytes shows as 1.00.
    assert_eq!(fmt_fixed(4, 100, 5), (true, "1.00".to_string()));
    assert_eq!(fmt_fixed(6, 12, 4), (true, "0.0012".to_string()));
}

#[test]
fn fixed_with_many_places() {
    assert_eq!(shown_places_for(14, 12), 12);
    assert_eq!(shown_places_for(4, 5), 2);
    assert_eq!(shown_places_for(2, 10), 0);
    assert_eq!(fmt_fixed(14, 5, 12), (true, "0.000000000005".to_string()));
    assert_eq!(fmt_fixed(15, -5, 12), (true, "-0.000000000005".to_string()));
    assert_eq!(fmt_fixed(15, i32::MIN, 12), (true, "-0.002147483648".to_string()));
    assert_eq!(fmt_fixed(2, 1, 10), (false, "**".to_string()));
    assert_eq!(fmt_fixed(1, 0, 40), (false, "*".to_string()));
}
