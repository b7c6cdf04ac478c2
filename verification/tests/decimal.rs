use my_errors::decimal::{push_decimal, push_decimal_digits};

fn digits(n: u32) -> String {
    let mut out = String::new();
    push_decimal_digits(&mut out, n);
    out
}

fn text(i: i32) -> String {
    let mut out = String::new();
    push_decimal(&mut out, i);
    out
}

#[test]
fn zero_is_a_single_digit() {
    assert_eq!(digits(0), "0");
    assert_eq!(text(0), "0");
}

#[test]
fn single_digits() {
    let expected = ["0", "1", "2", "3", "4", "5", "6", "7", "8", "9"];
    for n in 0..10u32 {
        assert_eq!(digits(n), expected[n as usize]);
    }
}

#[test]
fn powers_of_ten_and_their_neighbours() {
    assert_eq!(digits(9), "9");
    assert_eq!(digits(10), "10");
    assert_eq!(digits(11), "11");
    assert_eq!(digits(99), "99");
    assert_eq!(digits(100), "100");
    assert_eq!(digits(1000000000), "1000000000");
    assert_eq!(digits(999999999), "999999999");
}

#[test]
fn largest_u32() {
    assert_eq!(digits(u32::MAX), "4294967295");
}

#[test]
fn negative_numbers_carry_a_minus_sign() {
    assert_eq!(text(-1), "-1");
    assert_eq!(text(-10), "-10");
    assert_eq!(text(-2147483647), "-2147483647");
}

#[test]
fn extremes_of_i32() {
    assert_eq!(text(i32::MAX), "2147483647");
    assert_eq!(text(i32::MIN), "-2147483648");
}

#[test]
fn digits_are_appended_after_what_is_there() {
    let mut out = String::from("n=");
    push_decimal_digits(&mut out, 42);
    push_decimal(&mut out, -7);
    assert_eq!(out, "n=42-7");
}

#[test]
fn agrees_with_std_formatting() {
    let mut n: u32 = 1;
    for _ in 0..40 {
        assert_eq!(digits(n), n.to_string());
        let i = n as i32;
        assert_eq!(text(i), i.to_string());
        n = n.wrapping_mul(2654435761).wrapping_add(12345);
    }
}

#[test]
fn text_reads_back_as_the_number() {
    for n in [0u32, 5, 10, 907, 65536, 4294967295] {
        assert_eq!(digits(n).parse::<u32>(), Ok(n));
    }
    for i in [-2147483648i32, -1, 0, 1, 2147483647] {
        assert_eq!(text(i).parse::<i32>(), Ok(i));
    }
}
