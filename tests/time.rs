use std::str;

use cc3200::time::{Seconds, Tm};

fn spot_test(time: Seconds, tup: (i32, i32, i32, i32, i32, i32, i32, i32)) {
    println!("Testing time = {}", time);
    let tm = Tm::gmtime(time);
    println!("{:?}", tm);
    let (year, month, day, hour, minute, second, wday, yday) = tup;

    assert_eq!(tm.tm_year + 1900, year);
    assert_eq!(tm.tm_mon + 1, month);
    assert_eq!(tm.tm_mday, day);
    assert_eq!(tm.tm_hour, hour);
    assert_eq!(tm.tm_min, minute);
    assert_eq!(tm.tm_sec, second);
    assert_eq!(tm.tm_wday, wday);
    assert_eq!(tm.tm_yday + 1, yday);
}

#[test]
fn spot_tests() {
    let tests = vec![
        (          0,  (1970,  1,  1,  0,  0,  0, 4,   1)),
        (         -1,  (1969, 12, 31, 23, 59, 59, 3, 365)),
        (          1,  (1970,  1,  1,  0,  0,  1, 4,   1)),
        (         59,  (1970,  1,  1,  0,  0, 59, 4,   1)),
        (         60,  (1970,  1,  1,  0,  1,  0, 4,   1)),
        (       3599,  (1970,  1,  1,  0, 59, 59, 4,   1)),
        (       3600,  (1970,  1,  1,  1,  0,  0, 4,   1)),
        (  447549467,  (1984,  3,  7, 23, 17, 47, 3,  67)),
        ( -940984933,  (1940,  3,  7, 23, 17, 47, 4,  67)),
        (-1073001599,  (1936,  1,  1,  0,  0,  1, 3,   1)),
        (-1073001600,  (1936,  1,  1,  0,  0,  0, 3,   1)),
        (-1073001601,  (1935, 12, 31, 23, 59, 59, 2, 365)),
    ];

    for test in tests {
        spot_test(test.0, test.1);
    }
}

#[test]
fn more_exhaustive_test() {
    let mut days_in_month: [i32; 12] = [31, 28, 31, 30, 31, 30, 31, 31, 30, 31, 30, 31];
    let mut seconds: Seconds = 0;
    let mut wday = 4; // 1970-01-01 was a Thursday
    for year in 1970..2076 {
        println!("Testing {}", year);
        let mut yday = 0;
        if year % 4 == 0 {
            days_in_month[1] = 29;
        } else {
            days_in_month[1] = 28;
        }
        for month in 0..12 {
            for mday in 1..days_in_month[month] + 1 {
                let tm = Tm::gmtime(seconds);

                assert_eq!(year, tm.tm_year + 1900);
                assert_eq!(month as i32, tm.tm_mon);
                assert_eq!(mday, tm.tm_mday);
                assert_eq!(0, tm.tm_hour);
                assert_eq!(0, tm.tm_min);
                assert_eq!(0, tm.tm_sec);
                assert_eq!(wday, tm.tm_wday);
                assert_eq!(yday, tm.tm_yday);

                let mut buf: [u8; 24] = *b"yyyy-mm-ddthh:mm:ss.sssz";
                tm.format_iso_into(&mut buf);

                assert_eq!(str::from_utf8(&buf).unwrap(),
                           format!("{:4}-{:02}-{:02}T{:02}:{:02}:{:02}.000Z",
                                   tm.tm_year + 1900,
                                   tm.tm_mon + 1,
                                   tm.tm_mday,
                                   tm.tm_hour,
                                   tm.tm_min,
                                   tm.tm_sec));

                seconds += 86400;
                yday += 1;
                wday = (wday + 1) % 7;
            }
        }
    }
}

#[test]
fn century_rules() {
    // 2000 is a leap year, 2100 is not, 1900 is not.
    let tm = Tm::gmtime(951782400); // 2000-02-29
    assert_eq!((tm.tm_year + 1900, tm.tm_mon + 1, tm.tm_mday), (2000, 2, 29));
    let tm = Tm::gmtime(4107542400); // 2100-03-01
    assert_eq!((tm.tm_year + 1900, tm.tm_mon + 1, tm.tm_mday, tm.tm_yday), (2100, 3, 1, 59));
    let tm = Tm::gmtime(-2203891200); // 1900-03-01
    assert_eq!((tm.tm_year + 1900, tm.tm_mon + 1, tm.tm_mday), (1900, 3, 1));
}

#[test]
fn iso_text_and_short_buffer() {
    let tm = Tm::gmtime(447549467);
    let mut buf = [b'#'; 26];
    assert!(tm.format_iso_into(&mut buf));
    assert_eq!(&buf[..24], b"1984-03-07T23:17:47.000Z");
    assert_eq!(&buf[24..], b"##");
    let mut short = [b'#'; 23];
    assert!(!tm.format_iso_into(&mut short));
    assert_eq!(short, [b'#'; 23]);
}

#[test]
fn new_is_all_zero() {
    let tm = Tm::new();
    assert_eq!((tm.tm_year, tm.tm_mon, tm.tm_mday, tm.tm_nsec), (0, 0, 0, 0));
}
