use progressors::{Progresso, ProgressoBar, Style, Symbol, ValueDisplay};

fn test_pb_output(pb: &mut Progresso, val: u64, expected: &str) {
    let mut output = Vec::new();
    pb.set_value(val);

    pb.draw_to(&mut output);
    let output_str = std::str::from_utf8(&output).expect("Not UTF-8");
    assert_eq!(expected, output_str);
}

fn no_fill_style() -> Style {
    Style {
        value_display: ValueDisplay::Hidden,
        value_suffix: None,
        value_divisor: 1,
        left_cap: Symbol::new('['),
        right_cap: Symbol::new(']'),
        empty_char: Symbol::new('.'),
        done_char: Symbol::new('='),
        fill_chars: vec![],
    }
}

fn one_fill_style() -> Style {
    Style {
        value_display: ValueDisplay::Hidden,
        value_suffix: None,
        value_divisor: 1,
        left_cap: Symbol::new('['),
        right_cap: Symbol::new(']'),
        empty_char: Symbol::new('.'),
        done_char: Symbol::new('='),
        fill_chars: vec![Symbol::new('-')],
    }
}

fn small_bar() -> Progresso {
    let mut pb = Progresso::new(one_fill_style());
    pb.set_display_len(4);
    pb.set_total(20);
    pb
}

#[test]
fn check_empty_ascii_pb() {
    let mut pb = Progresso::new(no_fill_style());
    test_pb_output(&mut pb, 0, "[........................................]");
}

#[test]
fn check_half_full_ascii_pb() {
    let mut pb = Progresso::new(no_fill_style());
    test_pb_output(&mut pb, 5, "[====================....................]");
}

#[test]
fn check_full_ascii_pb() {
    let mut pb = Progresso::new(no_fill_style());
    test_pb_output(&mut pb, 10, "[========================================]");
}

#[test]
fn lib_check_empty_ascii_pb() {
    let mut pb = small_bar();
    test_pb_output(&mut pb, 0, "[....]");
}

#[test]
fn lib_check_half_full_ascii_pb() {
    let mut pb = small_bar();
    test_pb_output(&mut pb, 6, "[=-..]");
}

#[test]
fn lib_check_full_ascii_pb() {
    let mut pb = small_bar();
    test_pb_output(&mut pb, 20, "[====]");
}

#[test]
fn new_bar_starts_at_zero_of_ten_on_forty_cells() {
    let pb = Progresso::new(no_fill_style());
    assert_eq!(pb.get_value(), 0);
    assert_eq!(pb.get_total(), 10);
    assert_eq!(pb.get_display_len(), 40);
}

#[test]
fn setters_store_what_they_are_given() {
    let mut pb = Progresso::new(no_fill_style());
    pb.set_total(3);
    pb.set_value(7);
    pb.set_display_len(0);
    assert_eq!(pb.get_total(), 3);
    assert_eq!(pb.get_value(), 7);
    assert_eq!(pb.get_display_len(), 0);
    pb.set_total(0);
    assert_eq!(pb.get_total(), 0);
    assert_eq!(pb.get_value(), 7);
}

#[test]
fn percentage_follows_the_right_cap() {
    let mut style = no_fill_style();
    style.value_display = ValueDisplay::Percentage;
    let mut pb = Progresso::new(style);
    pb.set_total(400);
    pb.set_value(200);
    let line = pb.render();
    assert!(line.ends_with(" 50 %"));
    assert_eq!(line, "[====================....................] 50 %");
}

#[test]
fn percentage_rounds_toward_zero() {
    let mut style = no_fill_style();
    style.value_display = ValueDisplay::Percentage;
    let mut pb = Progresso::new(style);
    pb.set_display_len(2);
    pb.set_total(3);
    pb.set_value(2);
    assert_eq!(pb.percent_done(), 66);
    assert_eq!(pb.render(), "[=.] 66 %");
    pb.set_value(0);
    assert_eq!(pb.render(), "[..] 0 %");
    pb.set_value(3);
    assert_eq!(pb.render(), "[==] 100 %");
}

#[test]
fn reserved_displays_draw_no_annotation() {
    let mut style = no_fill_style();
    style.value_display = ValueDisplay::CurrentValueOnly;
    style.value_suffix = Some("MB");
    style.value_divisor = 1024;
    let mut pb = Progresso::new(style);
    pb.set_display_len(2);
    pb.set_value(5);
    assert_eq!(pb.render(), "[=.]");

    let mut style = no_fill_style();
    style.value_display = ValueDisplay::CurrentAndMaxValue;
    let mut pb = Progresso::new(style);
    pb.set_display_len(2);
    pb.set_value(5);
    assert_eq!(pb.render(), "[=.]");
}

#[test]
fn zero_total_counts_as_no_progress() {
    let mut style = one_fill_style();
    style.value_display = ValueDisplay::Percentage;
    let mut pb = Progresso::new(style);
    pb.set_display_len(4);
    pb.set_total(0);
    pb.set_value(0);
    assert_eq!(pb.render(), "[....] 0 %");
    pb.set_value(7);
    assert_eq!(pb.char_amounts(), (0, false, 0, 0));
    assert_eq!(pb.render(), "[....] 0 %");
}

#[test]
fn over_full_bar_is_drawn_full() {
    let mut style = one_fill_style();
    style.value_display = ValueDisplay::Percentage;
    let mut pb = Progresso::new(style);
    pb.set_display_len(4);
    pb.set_total(20);
    pb.set_value(21);
    assert_eq!(pb.render(), "[====] 105 %");
    pb.set_value(u64::MAX);
    assert_eq!(pb.render(), "[====] 4294967295 %");
    assert_eq!(pb.percent_done(), u32::MAX);
}

#[test]
fn zero_width_bar_is_two_caps() {
    let mut pb = small_bar();
    pb.set_display_len(0);
    for val in [0u64, 6, 20, 21] {
        pb.set_value(val);
        assert_eq!(pb.render(), "[]");
    }
}

#[test]
fn empty_palette_draws_no_partial_glyph() {
    let mut pb = Progresso::new(no_fill_style());
    pb.set_display_len(4);
    pb.set_total(20);
    pb.set_value(6);
    assert_eq!(pb.char_amounts(), (1, false, 0, 30));
    assert_eq!(pb.render(), "[=...]");
}

#[test]
fn palette_index_follows_the_fraction() {
    let mut style = no_fill_style();
    style.fill_chars = vec![
        Symbol::new('a'),
        Symbol::new('b'),
        Symbol::new('c'),
        Symbol::new('d'),
    ];
    let mut pb = Progresso::new(style);
    pb.set_display_len(4);
    pb.set_total(20);
    pb.set_value(6);
    assert_eq!(pb.char_amounts(), (1, true, 0, 30));
    assert_eq!(pb.render(), "[=a..]");
    pb.set_value(7);
    assert_eq!(pb.char_amounts(), (1, true, 1, 35));
    assert_eq!(pb.render(), "[=b..]");
    pb.set_value(8);
    assert_eq!(pb.char_amounts(), (1, true, 2, 40));
    assert_eq!(pb.render(), "[=c..]");
    pb.set_value(9);
    assert_eq!(pb.char_amounts(), (1, true, 3, 45));
    assert_eq!(pb.render(), "[=d..]");
    pb.set_value(10);
    assert_eq!(pb.char_amounts(), (2, false, 0, 50));
    assert_eq!(pb.render(), "[==..]");
    pb.set_value(19);
    assert_eq!(pb.char_amounts(), (3, true, 3, 95));
    assert_eq!(pb.render(), "[===d]");
}

#[test]
fn nothing_is_done_at_zero() {
    for width in [0usize, 1, 4, 40, 97] {
        for total in [1u64, 3, 10, 400, u64::MAX] {
            let mut pb = Progresso::new(one_fill_style());
            pb.set_display_len(width);
            pb.set_total(total);
            pb.set_value(0);
            let expected = format!("[{}]", ".".repeat(width));
            assert_eq!(pb.render(), expected);
        }
    }
}

#[test]
fn everything_is_done_at_total() {
    for width in [0usize, 1, 4, 40, 97] {
        for total in [1u64, 3, 10, 400, u64::MAX] {
            let mut pb = Progresso::new(one_fill_style());
            pb.set_display_len(width);
            pb.set_total(total);
            pb.set_value(total);
            let expected = format!("[{}]", "=".repeat(width));
            assert_eq!(pb.render(), expected);
        }
    }
}

#[test]
fn drawing_twice_gives_the_same_line() {
    let mut pb = small_bar();
    pb.set_value(6);
    let mut first = Vec::new();
    pb.draw_to(&mut first);
    let mut second = Vec::new();
    pb.draw_to(&mut second);
    assert_eq!(first, second);
    assert_eq!(first, b"[=-..]".to_vec());
    assert_eq!(pb.render(), pb.render());
}

#[test]
fn done_cells_never_fall_as_the_value_grows() {
    let mut pb = Progresso::new(one_fill_style());
    pb.set_display_len(7);
    pb.set_total(33);
    let mut before = 0;
    for val in 0..=40u64 {
        pb.set_value(val);
        let done = pb.char_amounts().0;
        assert!(done >= before);
        assert!(done <= 7);
        before = done;
    }
    assert_eq!(before, 7);
}

#[test]
fn every_line_is_as_wide_as_the_bar() {
    let mut pb = Progresso::new(one_fill_style());
    pb.set_display_len(7);
    pb.set_total(33);
    for val in 0..=40u64 {
        pb.set_value(val);
        assert_eq!(pb.render().chars().count(), 9);
    }
}

#[test]
fn draw_appends_to_what_the_sink_holds() {
    let mut pb = small_bar();
    pb.set_value(6);
    let mut output = b"abc".to_vec();
    pb.draw_to(&mut output);
    assert_eq!(output, b"abc[=-..]".to_vec());
}

#[test]
fn erase_appends_a_carriage_return() {
    let pb = small_bar();
    let mut output = Vec::new();
    pb.erase_to(&mut output);
    assert_eq!(output, vec![b'\r']);
    pb.erase_to(&mut output);
    assert_eq!(output, vec![b'\r', b'\r']);
    assert_eq!(pb.get_value(), 0);
}

#[test]
fn erase_then_draw_redraws_in_place() {
    let mut pb = small_bar();
    let mut output = Vec::new();
    pb.draw_to(&mut output);
    pb.erase_to(&mut output);
    pb.set_value(20);
    pb.draw_to(&mut output);
    assert_eq!(output, b"[....]\r[====]".to_vec());
}

#[test]
fn unicode_glyphs_are_written_as_utf8() {
    let mut style = no_fill_style();
    style.left_cap = Symbol::new('\u{2595}');
    style.right_cap = Symbol::new('\u{258f}');
    style.done_char = Symbol::new('\u{2588}');
    let mut pb = Progresso::new(style);
    pb.set_display_len(2);
    pb.set_value(5);
    let mut output = Vec::new();
    pb.draw_to(&mut output);
    assert_eq!(output, "\u{2595}\u{2588}.\u{258f}".as_bytes().to_vec());
}
