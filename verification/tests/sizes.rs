use task_service::size::{parse_size, size_from_parsed};

#[test]
fn plain_number_is_a_count_of_bytes() {
    assert_eq!(parse_size("1024"), Ok(1024));
    assert_eq!(parse_size("0"), Ok(0));
}

#[test]
fn binary_units_are_powers_of_1024() {
    assert_eq!(parse_size("1kib"), Ok(1024));
    assert_eq!(parse_size("1mib"), Ok(1024 * 1024));
    assert_eq!(parse_size("1gib"), Ok(1024 * 1024 * 1024));
    assert_eq!(parse_size("4 MiB"), Ok(4 * 1024 * 1024));
}

#[test]
fn decimal_units_are_powers_of_1000() {
    assert_eq!(parse_size("1kb"), Ok(1000));
    assert_eq!(parse_size("1mb"), Ok(1000 * 1000));
    assert_eq!(parse_size("1gb"), Ok(1000 * 1000 * 1000));
    assert_eq!(parse_size("1.5 KB"), Ok(1500));
}

#[test]
fn text_without_a_number_is_refused() {
    assert!(parse_size("invalid").is_err());
    assert!(parse_size("").is_err());
    assert!(parse_size("12 parsecs").is_err());
}

#[test]
fn refusal_is_passed_on_with_its_message() {
    assert_eq!(size_from_parsed(Err("no".to_string())), Err("no".to_string()));
    assert_eq!(size_from_parsed(Ok(77)), Ok(77));
}
