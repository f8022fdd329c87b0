use waddle::{Decimal, Number, Point};

fn decimal(negative: bool, mantissa: u64, exponent: i32) -> Decimal {
    Decimal { negative, mantissa, exponent }
}

#[test]
fn whole_numbers_convert_exactly() {
    assert_eq!(Number::Int(5).as_int(), Some(5));
    assert_eq!(Number::Int(5).as_float(), None);
    assert_eq!(Number::Int(-7).into_int(), -7);
    assert_eq!(Number::Int(-7).into_float(), decimal(true, 7, 0));
    assert_eq!(Number::Int(i32::MIN).into_float(), decimal(true, 2147483648, 0));
    assert_eq!(Number::Int(i32::MAX).into_float(), decimal(false, 2147483647, 0));
    assert_eq!(Number::Int(0).into_float(), decimal(false, 0, 0));
    assert_eq!(Decimal::from_int(i32::MIN).to_int_saturating(), i32::MIN);
    assert_eq!(Number::default(), Number::Int(0));
    assert_eq!(Number::from(3), Number::Int(3));
    assert_eq!(Number::from(decimal(false, 3, 0)), Number::Float(decimal(false, 3, 0)));
}

#[test]
fn fractions_lose_their_fractional_part() {
    let cases: [(Decimal, f64); 10] = [
        (decimal(false, 50, -1), 5.0),
        (decimal(false, 55, -1), 5.5),
        (decimal(true, 55, -1), -5.5),
        (decimal(false, 12345, -2), 123.45),
        (decimal(false, 999, -3), 0.999),
        (decimal(false, 7, 2), 700.0),
        (decimal(true, 1, 9), -1e9),
        (decimal(false, 0, -5), 0.0),
        (decimal(false, 1, -400), 1e-400),
        (decimal(false, 2147483647, 0), 2147483647.0),
    ];
    for (d, f) in cases {
        assert_eq!(Number::Float(d).into_int(), f as i32, "{:?}", d);
        assert_eq!(Number::Float(d).as_float(), Some(d));
        assert_eq!(Number::Float(d).as_int(), None);
        assert_eq!(Number::Float(d).into_float(), d);
    }
}

#[test]
fn fractions_out_of_range_saturate() {
    assert_eq!(Number::Float(decimal(false, 1, 20)).into_int(), 1e20 as i32);
    assert_eq!(Number::Float(decimal(false, 1, 20)).into_int(), i32::MAX);
    assert_eq!(Number::Float(decimal(true, 1, 20)).into_int(), i32::MIN);
    assert_eq!(Number::Float(decimal(false, 2147483648, 0)).into_int(), i32::MAX);
    assert_eq!(Number::Float(decimal(true, 2147483648, 0)).into_int(), i32::MIN);
    assert_eq!(Number::Float(decimal(true, 2147483649, 0)).into_int(), i32::MIN);
    assert_eq!(Number::Float(decimal(false, u64::MAX, i32::MAX)).into_int(), i32::MAX);
    assert_eq!(Number::Float(decimal(false, u64::MAX, i32::MIN)).into_int(), 0);
    assert_eq!(Number::Float(decimal(false, u64::MAX, -10)).into_int(), 1844674407);
    assert_eq!(decimal(false, 21474836470, -1).capped_magnitude(), 2147483647);
    assert_eq!(decimal(false, 21474836480, -1).capped_magnitude(), 2147483648);
    assert_eq!(decimal(false, 3, 12).capped_magnitude(), 2147483648);
}

#[test]
fn fractional_part_is_told() {
    assert!(Number::Int(3).is_integral());
    assert!(decimal(false, 50, -1).is_integral());
    assert!(!decimal(false, 55, -1).is_integral());
    assert!(decimal(false, 5, 3).is_integral());
    assert!(decimal(true, 1230000, -4).is_integral());
    assert!(!decimal(true, 1230001, -4).is_integral());
    assert!(decimal(false, 0, -7).is_integral());
    assert!(decimal(false, 0, i32::MIN).is_integral());
    assert!(!decimal(false, 1, i32::MIN).is_integral());
    assert!(!decimal(false, 10000000000000000000, -20).is_integral());
    assert!(decimal(false, 10000000000000000000, -19).is_integral());
    assert!(Number::Float(decimal(false, 50, -1)).is_integral());
}

#[test]
fn zero_is_told() {
    assert!(Number::Int(0).is_zero());
    assert!(!Number::Int(1).is_zero());
    assert!(Number::Float(decimal(false, 0, 3)).is_zero());
    assert!(Number::Float(decimal(true, 0, -3)).is_zero());
    assert!(!Number::Float(decimal(false, 1, -300)).is_zero());
    assert!(decimal(true, 0, 0).is_zero());
}

#[test]
fn numbers_read_as_text() {
    assert_eq!(Number::Int(-12).to_text(), "-12");
    assert_eq!(Number::Float(decimal(true, 55, -1)).to_text(), "-55e-1");
    assert_eq!(Number::Float(decimal(false, 7, 2)).to_text(), "7e2");
}

#[test]
fn point_holds_its_coordinates() {
    let p = Point::new(3i16, -4i16);
    assert_eq!(p.x, 3);
    assert_eq!(p.y, -4);
    assert_eq!(p, Point { x: 3, y: -4 });
}
