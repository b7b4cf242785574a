use rectangle::decimal::append_decimal;
use rectangle::{display_rectangle, Rectangle};

fn written(n: u32) -> String {
    let mut text = String::new();
    append_decimal(&mut text, n);
    text
}

#[test]
fn display_of_ten_by_five() {
    let text = display_rectangle(&Rectangle::new(10, 5));
    assert_eq!(text, "Rectangle width: 10, height: 5\nArea of rectangle: 50\n");
}

#[test]
fn display_has_two_lines() {
    let text = display_rectangle(&Rectangle::new(10, 5));
    let lines: Vec<&str> = text.lines().collect();
    assert_eq!(lines, vec!["Rectangle width: 10, height: 5", "Area of rectangle: 50"]);
    assert!(text.ends_with('\n'));
}

#[test]
fn display_with_a_zero_side() {
    assert_eq!(
        display_rectangle(&Rectangle::new(0, 7)),
        "Rectangle width: 0, height: 7\nArea of rectangle: 0\n"
    );
    assert_eq!(
        display_rectangle(&Rectangle::new(7, 0)),
        "Rectangle width: 7, height: 0\nArea of rectangle: 0\n"
    );
    assert_eq!(
        display_rectangle(&Rectangle::new(0, 0)),
        "Rectangle width: 0, height: 0\nArea of rectangle: 0\n"
    );
}

#[test]
fn display_of_the_largest_area() {
    assert_eq!(
        display_rectangle(&Rectangle::new(65535, 65537)),
        "Rectangle width: 65535, height: 65537\nArea of rectangle: 4294967295\n"
    );
    assert_eq!(
        display_rectangle(&Rectangle::new(1, u32::MAX)),
        "Rectangle width: 1, height: 4294967295\nArea of rectangle: 4294967295\n"
    );
}

#[test]
fn display_keeps_width_before_height() {
    assert_eq!(
        display_rectangle(&Rectangle::new(3, 200)),
        "Rectangle width: 3, height: 200\nArea of rectangle: 600\n"
    );
    assert_eq!(
        display_rectangle(&Rectangle::new(200, 3)),
        "Rectangle width: 200, height: 3\nArea of rectangle: 600\n"
    );
}

#[test]
fn display_agrees_with_std_formatting() {
    let sides: [u32; 7] = [0, 1, 9, 10, 99, 1024, 65535];
    for &w in sides.iter() {
        for &h in sides.iter() {
            let expected = format!(
                "Rectangle width: {}, height: {}\nArea of rectangle: {}\n",
                w,
                h,
                w * h
            );
            assert_eq!(display_rectangle(&Rectangle::new(w, h)), expected);
        }
    }
}

#[test]
fn display_is_the_same_on_every_call() {
    let r = Rectangle::new(12, 12);
    assert_eq!(display_rectangle(&r), display_rectangle(&r));
    assert_eq!(display_rectangle(&r), display_rectangle(&Rectangle::new(12, 12)));
}

#[test]
fn decimal_of_single_digits() {
    assert_eq!(written(0), "0");
    assert_eq!(written(1), "1");
    assert_eq!(written(2), "2");
    assert_eq!(written(3), "3");
    assert_eq!(written(4), "4");
    assert_eq!(written(5), "5");
    assert_eq!(written(6), "6");
    assert_eq!(written(7), "7");
    assert_eq!(written(8), "8");
    assert_eq!(written(9), "9");
}

#[test]
fn decimal_of_longer_numbers() {
    assert_eq!(written(10), "10");
    assert_eq!(written(50), "50");
    assert_eq!(written(100), "100");
    assert_eq!(written(1009), "1009");
    assert_eq!(written(1234567890), "1234567890");
    assert_eq!(written(u32::MAX), "4294967295");
}

#[test]
fn decimal_agrees_with_std_formatting() {
    for n in 0..3000u32 {
        assert_eq!(written(n), n.to_string());
    }
    let mut n: u32 = u32::MAX;
    while n > 0 {
        assert_eq!(written(n), n.to_string());
        n /= 3;
    }
}

#[test]
fn decimal_is_added_at_the_end() {
    let mut text = String::from("n = ");
    append_decimal(&mut text, 42);
    assert_eq!(text, "n = 42");
    append_decimal(&mut text, 0);
    assert_eq!(text, "n = 420");
}
