use furse::decimal::decimal_text;

#[test]
fn small_numbers() {
    assert_eq!(decimal_text(0), "0");
    assert_eq!(decimal_text(7), "7");
    assert_eq!(decimal_text(10), "10");
    assert_eq!(decimal_text(99), "99");
    assert_eq!(decimal_text(100), "100");
    assert_eq!(decimal_text(432), "432");
    assert_eq!(decimal_text(513688), "513688");
    assert_eq!(decimal_text(1000000007), "1000000007");
}

#[test]
fn negative_numbers_have_a_minus_sign() {
    assert_eq!(decimal_text(-1), "-1");
    assert_eq!(decimal_text(-10), "-10");
    assert_eq!(decimal_text(-513688), "-513688");
}

#[test]
fn the_ends_of_the_range() {
    assert_eq!(decimal_text(i32::MAX), "2147483647");
    assert_eq!(decimal_text(i32::MIN), "-2147483648");
}

#[test]
fn as_the_standard_library_writes_them() {
    let mut n: i32 = i32::MIN;
    loop {
        assert_eq!(decimal_text(n), n.to_string());
        match n.checked_add(7_654_321) {
            Some(next) => n = next,
            None => break,
        }
    }
    for n in -1000..=1000 {
        assert_eq!(decimal_text(n), n.to_string());
    }
}
