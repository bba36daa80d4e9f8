use term_size::{dimensions, dimensions_stderr, dimensions_stdin, dimensions_stdout};

#[test]
fn any_present_size_fits_the_raw_counts() {
    let results = [
        dimensions(),
        dimensions_stdout(),
        dimensions_stdin(),
        dimensions_stderr(),
    ];
    for result in results {
        if let Some((width, height)) = result {
            assert!(width <= u16::MAX as usize);
            assert!(height <= u16::MAX as usize);
        }
    }
}

#[test]
fn probes_never_panic_and_may_be_repeated() {
    let first = dimensions_stdout();
    let second = dimensions_stdout();
    // without an intervening resize the same stream reports the same outcome
    assert_eq!(first.is_some(), second.is_some());
    let _ = dimensions();
    let _ = dimensions_stdin();
    let _ = dimensions_stderr();
}
