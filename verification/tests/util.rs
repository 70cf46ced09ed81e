use artem_util::dimensions::{
    columns_for_tile_width, height_axis_plan, rows_for_tile_height, width_axis_plan,
};
use artem_util::term::{colorterm_signals_truecolor, contains_subslice, exit_code};
use artem_util::{nearest_ansi, range, rgb_to_ansi, AnsiColor, ResizingDimension, UtilError};
use colored::Colorize;

/// The full layout computation: the verified halves around the
/// floating-point aspect-ratio step, panicking on rejected inputs.
fn calculate_dimensions(
    target_size: u32,
    height: u32,
    width: u32,
    scale: f64,
    border: bool,
    dimension: ResizingDimension,
) -> (u32, u32, u32, u32) {
    match dimension {
        ResizingDimension::Width => {
            let (columns, tile_width) = width_axis_plan(target_size, width, border).unwrap();
            let tile_height = (tile_width as f64 / scale).floor() as u32;
            let rows = rows_for_tile_height(height, tile_height).unwrap();
            (columns, rows, tile_width, tile_height)
        }
        ResizingDimension::Height => {
            let (rows, tile_height) = height_axis_plan(target_size, height).unwrap();
            let tile_width = (tile_height as f64 * scale).ceil() as u32;
            let columns = columns_for_tile_width(width, tile_width, border).unwrap();
            (columns, rows, tile_width, tile_height)
        }
    }
}

#[test]
fn convert_vga_normal_values() {
    //convert black to ansi black color
    assert_eq!("input".black(), rgb_to_ansi("input", 0, 0, 0));
    //convert red to ansi red color
    assert_eq!("input".red(), rgb_to_ansi("input", 170, 0, 0));
    //convert green to ansi green color
    assert_eq!("input".green(), rgb_to_ansi("input", 0, 170, 0));
    //convert yellow to ansi yellow color
    assert_eq!("input".yellow(), rgb_to_ansi("input", 170, 85, 0));
    //convert blue to ansi blue color
    assert_eq!("input".blue(), rgb_to_ansi("input", 0, 0, 170));
    //convert magenta to ansi magenta color
    assert_eq!("input".magenta(), rgb_to_ansi("input", 170, 0, 170));
    //convert cyan to ansi cyan color
    assert_eq!("input".cyan(), rgb_to_ansi("input", 0, 170, 170));
    //convert white to ansi white color
    assert_eq!("input".white(), rgb_to_ansi("input", 170, 170, 170));
}

#[test]
fn convert_vga_bright_values() {
    //convert bright black to ansi bright black color
    assert_eq!("input".bright_black(), rgb_to_ansi("input", 128, 128, 128));
    //convert bright red to ansi bright red color
    assert_eq!("input".bright_red(), rgb_to_ansi("input", 255, 0, 0));
    //convert bright green to ansi bright green color
    assert_eq!("input".bright_green(), rgb_to_ansi("input", 0, 255, 0));
    //convert bright yellow to ansi bright yellow color
    assert_eq!("input".bright_yellow(), rgb_to_ansi("input", 255, 255, 0));
    //convert bright blue to ansi bright blue color
    assert_eq!("input".bright_blue(), rgb_to_ansi("input", 0, 0, 255));
    //convert bright magenta to ansi bright magenta color
    assert_eq!("input".bright_magenta(), rgb_to_ansi("input", 255, 0, 255));
    //convert bright cyan to ansi bright cyan color
    assert_eq!("input".bright_cyan(), rgb_to_ansi("input", 0, 255, 255));
    //convert bright white to ansi bright white color
    assert_eq!("input".bright_white(), rgb_to_ansi("input", 255, 255, 255));
}

#[test]
fn rgb_blue() {
    //convert a blue rgb tone to ansi blue
    assert_eq!("input".blue(), rgb_to_ansi("input", 0, 0, 88));
}

#[test]
fn quantize_off_palette_gray() {
    //a dark tone lands on black, not on the gray entry
    assert_eq!(AnsiColor::Black, nearest_ansi(10, 10, 10));
}

#[test]
fn quantize_is_total_on_extremes() {
    //every corner of the cube resolves to some tag without a fallback
    assert_eq!(AnsiColor::Black, nearest_ansi(0, 0, 0));
    assert_eq!(AnsiColor::BrightWhite, nearest_ansi(255, 255, 255));
    assert_eq!(AnsiColor::BrightRed, nearest_ansi(255, 0, 0));
    assert_eq!(AnsiColor::BrightBlue, nearest_ansi(0, 0, 255));
}

#[test]
fn calculate_dimensions_width() {
    assert_eq!(
        (100, 46, 5, 11),
        calculate_dimensions(100, 512, 512, 0.42, false, ResizingDimension::Width)
    );
}

#[test]
fn calculate_dimensions_width_119() {
    assert_eq!(
        (119, 56, 4, 9),
        calculate_dimensions(119, 512, 512, 0.42, false, ResizingDimension::Width)
    );
}

#[test]
fn calculate_dimensions_height() {
    assert_eq!(
        (170, 100, 3, 5),
        calculate_dimensions(100, 512, 512, 0.42, false, ResizingDimension::Height)
    );
}

#[test]
#[should_panic]
fn calculate_dimensions_height_zero() {
    calculate_dimensions(0, 512, 512, 0.42, false, ResizingDimension::Height);
}

#[test]
#[should_panic]
fn calculate_dimensions_width_zero() {
    calculate_dimensions(0, 512, 512, 0.42, false, ResizingDimension::Width);
}

#[test]
#[should_panic]
fn calculate_dimensions_img_width_zero() {
    calculate_dimensions(100, 512, 0, 0.42, false, ResizingDimension::Width);
}

#[test]
#[should_panic]
fn calculate_dimensions_img_height_zero() {
    calculate_dimensions(100, 0, 512, 0.42, false, ResizingDimension::Height);
}

#[test]
fn calculate_dimensions_scale_zero() {
    assert_eq!(
        (100, 0, 5, 4294967295),
        calculate_dimensions(100, 512, 512, 0f64, false, ResizingDimension::Width)
    );
}

#[test]
fn calculate_border_smaller_columns() {
    assert_eq!(
        (98, 0, 5, 4294967295),
        calculate_dimensions(100, 512, 512, 0f64, true, ResizingDimension::Width)
    );
}

#[test]
fn width_plan_rejects_zero_extent() {
    assert_eq!(
        Err(UtilError::InvalidDimension),
        width_axis_plan(0, 512, false)
    );
    assert_eq!(
        Err(UtilError::InvalidDimension),
        width_axis_plan(100, 0, false)
    );
}

#[test]
fn width_plan_border_can_eat_all_columns() {
    assert_eq!(Err(UtilError::InvalidDimension), width_axis_plan(2, 2, true));
}

#[test]
fn height_plan_rejects_zero_extent() {
    assert_eq!(
        Err(UtilError::InvalidDimension),
        height_axis_plan(0, 512)
    );
    assert_eq!(
        Err(UtilError::InvalidDimension),
        height_axis_plan(100, 0)
    );
}

#[test]
fn zero_tile_extents_are_rejected() {
    assert_eq!(
        Err(UtilError::InvalidDimension),
        rows_for_tile_height(512, 0)
    );
    assert_eq!(
        Err(UtilError::InvalidDimension),
        columns_for_tile_width(512, 0, false)
    );
}

#[test]
fn default_is_width() {
    assert_eq!(ResizingDimension::Width, ResizingDimension::default());
}

#[test]
fn create_range_0_2() {
    let mut range = range(0, 2, false).unwrap();
    assert_eq!(Some(0), range.next());
    assert_eq!(Some(1), range.next());
    assert_eq!(None, range.next());
}

#[test]
fn create_range_2_0() {
    let mut range = range(0, 2, true).unwrap();
    assert_eq!(Some(1), range.next());
    assert_eq!(Some(0), range.next());
    assert_eq!(None, range.next());
}

#[test]
fn range_stays_exhausted() {
    let mut counter = range(0, 2, false).unwrap();
    counter.next();
    counter.next();
    assert_eq!(None, counter.next());
    assert_eq!(None, counter.next());
}

#[test]
fn range_rejects_end_before_start() {
    assert!(matches!(
        range(3, 2, false),
        Err(UtilError::InvalidCounterRange)
    ));
    assert!(matches!(
        range(3, 2, true),
        Err(UtilError::InvalidCounterRange)
    ));
}

#[test]
fn range_empty_when_bounds_equal() {
    let mut counter = range(5, 5, false).unwrap();
    assert_eq!(None, counter.next());
    let mut rev = range(5, 5, true).unwrap();
    assert_eq!(None, rev.next());
}

#[test]
fn range_handles_full_width_bounds() {
    let mut counter = range(u32::MAX - 1, u32::MAX, false).unwrap();
    assert_eq!(Some(u32::MAX - 1), counter.next());
    assert_eq!(None, counter.next());
    let mut rev = range(0, 1, true).unwrap();
    assert_eq!(Some(0), rev.next());
    assert_eq!(None, rev.next());
}

#[test]
fn truecolor_value_is_detected() {
    assert!(colorterm_signals_truecolor(b"truecolor"));
    assert!(colorterm_signals_truecolor(b"24bit"));
}

#[test]
fn truecolor_value_inside_larger_text() {
    assert!(colorterm_signals_truecolor(b"xterm-truecolor-like"));
    assert!(colorterm_signals_truecolor(b"supports 24bit colors"));
}

#[test]
fn other_values_do_not_signal_truecolor() {
    assert!(!colorterm_signals_truecolor(b"asdas"));
    assert!(!colorterm_signals_truecolor(b""));
    assert!(!colorterm_signals_truecolor(b"24-bit"));
}

#[test]
fn contains_finds_empty_needle() {
    assert!(contains_subslice(b"abc", b""));
    assert!(contains_subslice(b"", b""));
    assert!(!contains_subslice(b"", b"a"));
}

#[test]
fn exit_code_defaults_to_one() {
    assert_eq!(66, exit_code(Some(66)));
    assert_eq!(1, exit_code(None));
}
