use cc3200::parse::{scan_decimal, FloatErrorKind};

fn parts(s: &str) -> Option<(bool, Vec<u8>, Vec<u8>, bool, Vec<u8>)> {
    scan_decimal(s.as_bytes())
        .ok()
        .map(|p| (p.negative, p.int_digits, p.frac_digits, p.exp_negative, p.exp_digits))
}

fn kind(s: &str) -> Option<FloatErrorKind> {
    scan_decimal(s.as_bytes()).err().map(|e| e.kind)
}

#[test]
fn literals_split_into_parts() {
    assert_eq!(parts("1"), Some((false, vec![1], vec![], false, vec![])));
    assert_eq!(parts("-12.34"), Some((true, vec![1, 2], vec![3, 4], false, vec![])));
    assert_eq!(parts("+3"), Some((false, vec![3], vec![], false, vec![])));
    assert_eq!(parts("1e+6"), Some((false, vec![1], vec![], false, vec![6])));
    assert_eq!(parts("1E6"), Some((false, vec![1], vec![], false, vec![6])));
    assert_eq!(parts("12.34e-3"), Some((false, vec![1, 2], vec![3, 4], true, vec![3])));
    assert_eq!(parts("-.1"), Some((true, vec![], vec![1], false, vec![])));
    assert_eq!(parts(".1"), Some((false, vec![], vec![1], false, vec![])));
}

#[test]
fn bare_signs_and_points_have_empty_parts() {
    assert_eq!(parts("-"), Some((true, vec![], vec![], false, vec![])));
    assert_eq!(parts("1e"), Some((false, vec![1], vec![], false, vec![])));
    assert_eq!(parts("1."), Some((false, vec![1], vec![], false, vec![])));
}

#[test]
fn refused_literals() {
    assert_eq!(kind(""), Some(FloatErrorKind::Empty));
    assert_eq!(kind("1.2.3"), Some(FloatErrorKind::Invalid));
    assert_eq!(kind("+-1"), Some(FloatErrorKind::Invalid));
    assert_eq!(kind("1e5.0"), Some(FloatErrorKind::Invalid));
    assert_eq!(kind("12x"), Some(FloatErrorKind::Invalid));
    assert_eq!(kind("1e+-2"), Some(FloatErrorKind::Invalid));
    assert_eq!(kind("é"), Some(FloatErrorKind::Invalid));
}
