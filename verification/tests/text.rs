use progressors::layout::amounts;
use progressors::text::{push_decimal, push_repeated};
use progressors::ValueDisplay;

#[test]
fn decimal_digits_of_a_number() {
    for number in [0u32, 7, 10, 99, 100, 105, 4096, 1_000_000, u32::MAX] {
        let mut text = String::from("n=");
        push_decimal(&mut text, number);
        assert_eq!(text, format!("n={}", number));
    }
}

#[test]
fn a_piece_is_repeated_in_order() {
    let mut text = String::from(">");
    push_repeated(&mut text, "ab", 3);
    assert_eq!(text, ">ababab");
    push_repeated(&mut text, "c", 0);
    assert_eq!(text, ">ababab");
    push_repeated(&mut text, "", 5);
    assert_eq!(text, ">ababab");
}

#[test]
fn amounts_of_the_fill_extent() {
    assert_eq!(amounts(0, 10, 40, 0), (0, false, 0, 0));
    assert_eq!(amounts(5, 10, 40, 0), (20, false, 0, 50));
    assert_eq!(amounts(10, 10, 40, 0), (40, false, 0, 100));
    assert_eq!(amounts(6, 20, 4, 1), (1, true, 0, 30));
    assert_eq!(amounts(1, 3, 10, 8), (3, true, 2, 33));
    assert_eq!(amounts(2, 3, 10, 8), (6, true, 5, 66));
    assert_eq!(amounts(200, 400, 40, 4), (20, false, 0, 50));
}

#[test]
fn amounts_at_the_limits() {
    assert_eq!(amounts(7, 0, 4, 1), (0, false, 0, 0));
    assert_eq!(amounts(21, 20, 4, 1), (4, false, 0, 105));
    assert_eq!(amounts(u64::MAX, u64::MAX, usize::MAX, usize::MAX), (usize::MAX, false, 0, 100));
    assert_eq!(amounts(u64::MAX, 1, usize::MAX, 3), (usize::MAX, false, 0, u32::MAX));
    assert_eq!(
        amounts(u64::MAX - 1, u64::MAX, usize::MAX, 0),
        (usize::MAX - 1, false, 0, 99)
    );
    assert_eq!(amounts(3, 7, 0, 4), (0, false, 0, 42));
}

#[test]
fn only_percentage_shows_the_percentage() {
    assert!(ValueDisplay::Percentage.is_percentage());
    assert!(!ValueDisplay::Hidden.is_percentage());
    assert!(!ValueDisplay::CurrentValueOnly.is_percentage());
    assert!(!ValueDisplay::CurrentAndMaxValue.is_percentage());
}

#[test]
fn partial_cell_needs_a_fraction_above_the_threshold() {
    assert_eq!(amounts(1, 8388608, 1, 1), (0, false, 0, 0));
    assert_eq!(amounts(2, 8388608, 1, 1), (0, true, 0, 0));
    assert_eq!(amounts(1, 8388607, 1, 1), (0, true, 0, 0));
    assert_eq!(amounts(1, 1_000_000_000, 40, 8), (0, false, 0, 0));
    assert_eq!(amounts(1, 100_000_000, 40, 8), (0, true, 0, 0));
}
