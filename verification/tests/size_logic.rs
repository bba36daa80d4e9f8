use term_size::console::{console_size, ConsoleRect};
use term_size::size::{normalize, select_first};

#[test]
fn stdout_result_wins_whatever_the_other_streams_report() {
    let out = Some((80usize, 24usize));
    assert_eq!(select_first(out, None, None), out);
    assert_eq!(select_first(out, Some((100, 2)), None), out);
    assert_eq!(select_first(out, None, Some((100, 2))), out);
    assert_eq!(select_first(out, Some((1, 1)), Some((100, 2))), out);
}

#[test]
fn stdout_redirected_falls_back_to_stdin() {
    // stdout piped to a file, stdin and stderr on an 80x24 terminal
    let out = normalize(None);
    let inp = normalize(Some((80, 24)));
    let err = normalize(Some((80, 24)));
    assert_eq!(out, None);
    assert_eq!(inp, Some((80, 24)));
    assert_eq!(select_first(out, inp, err), Some((80, 24)));
}

#[test]
fn stdin_redirected_too_falls_back_to_stderr() {
    assert_eq!(select_first(None, None, Some((132, 43))), Some((132, 43)));
}

#[test]
fn absent_only_when_all_three_queries_fail() {
    assert_eq!(select_first(None, None, None), None);
    assert_eq!(select_first(Some((1, 1)), None, None), Some((1, 1)));
    assert_eq!(select_first(None, Some((1, 1)), None), Some((1, 1)));
    assert_eq!(select_first(None, None, Some((1, 1))), Some((1, 1)));
}

#[test]
fn zero_width_or_height_is_preserved_not_coerced_to_absence() {
    assert_eq!(normalize(Some((0, 24))), Some((0, 24)));
    assert_eq!(normalize(Some((80, 0))), Some((80, 0)));
    assert_eq!(normalize(Some((0, 0))), Some((0, 0)));
}

#[test]
fn failed_query_maps_to_absence() {
    assert_eq!(normalize(None), None);
}

#[test]
fn normalization_and_selection_are_deterministic() {
    let raw = Some((80u16, 24u16));
    assert_eq!(normalize(raw), normalize(raw));
    let out = Some((80usize, 24usize));
    let err = Some((132usize, 43usize));
    assert_eq!(select_first(out, None, err), select_first(out, None, err));
}

#[test]
fn largest_counts_survive_normalization() {
    assert_eq!(normalize(Some((u16::MAX, u16::MAX))), Some((65535, 65535)));
}

#[test]
fn console_window_size_uses_inclusive_edges() {
    let window = ConsoleRect { left: 0, top: 0, right: 79, bottom: 23 };
    assert_eq!(console_size(true, window), Some((80, 24)));
}

#[test]
fn console_window_with_offset_origin() {
    let window = ConsoleRect { left: 2, top: 5, right: 81, bottom: 28 };
    assert_eq!(console_size(true, window), Some((80, 24)));
}

#[test]
fn one_cell_console_window() {
    let window = ConsoleRect { left: 7, top: 9, right: 7, bottom: 9 };
    assert_eq!(console_size(true, window), Some((1, 1)));
}

#[test]
fn failed_console_call_maps_to_absence() {
    let window = ConsoleRect { left: 0, top: 0, right: 79, bottom: 23 };
    assert_eq!(console_size(false, window), None);
}

#[test]
fn widest_console_window() {
    let window = ConsoleRect { left: i16::MIN, top: i16::MIN, right: i16::MAX, bottom: i16::MAX };
    assert_eq!(console_size(true, window), Some((65536, 65536)));
}
