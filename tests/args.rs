use lines::args::{BAD_LINE_COUNT, BAD_REPEAT_COUNT, BAD_RESOLUTION, MISSING_ARGS};
use lines::{parse_args, Config};

fn strings(args: &[&str]) -> Vec<String> {
    args.iter().map(|a| a.to_string()).collect()
}

#[test]
fn parses_three_integers() {
    let args = strings(&["prog", "800", "1000", "5"]);
    assert_eq!(
        parse_args(&args),
        Ok(Config { resolucion: 800, lineas: 1000, veces: 5 })
    );
}

#[test]
fn extra_arguments_are_ignored() {
    let args = strings(&["prog", "1", "2", "3", "junk"]);
    assert_eq!(parse_args(&args), Ok(Config { resolucion: 1, lineas: 2, veces: 3 }));
}

#[test]
fn plus_sign_and_leading_zeros_are_accepted() {
    let args = strings(&["prog", "+16", "007", "0"]);
    assert_eq!(parse_args(&args), Ok(Config { resolucion: 16, lineas: 7, veces: 0 }));
}

#[test]
fn largest_value_is_accepted() {
    let args = strings(&["prog", "4294967295", "1", "1"]);
    assert_eq!(parse_args(&args).unwrap().resolucion, u32::MAX);
}

#[test]
fn missing_arguments() {
    assert_eq!(parse_args(&strings(&["prog", "1", "2"])), Err(MISSING_ARGS));
    assert_eq!(parse_args(&strings(&[])), Err(MISSING_ARGS));
}

#[test]
fn bad_resolution() {
    assert_eq!(parse_args(&strings(&["prog", "x", "2", "3"])), Err(BAD_RESOLUTION));
    assert_eq!(parse_args(&strings(&["prog", "4294967296", "2", "3"])), Err(BAD_RESOLUTION));
    assert_eq!(parse_args(&strings(&["prog", "-1", "2", "3"])), Err(BAD_RESOLUTION));
}

#[test]
fn bad_line_count() {
    assert_eq!(parse_args(&strings(&["prog", "1", " 2", "y"])), Err(BAD_LINE_COUNT));
    assert_eq!(parse_args(&strings(&["prog", "1", "", "3"])), Err(BAD_LINE_COUNT));
}

#[test]
fn bad_repeat_count() {
    assert_eq!(parse_args(&strings(&["prog", "1", "2", "+"])), Err(BAD_REPEAT_COUNT));
    assert_eq!(parse_args(&strings(&["prog", "1", "2", "3.5"])), Err(BAD_REPEAT_COUNT));
}

#[test]
fn error_messages_name_the_argument() {
    assert!(MISSING_ARGS.starts_with("Faltan argumentos"));
    assert!(BAD_RESOLUTION.contains("#1"));
    assert!(BAD_LINE_COUNT.contains("#2"));
    assert!(BAD_REPEAT_COUNT.contains("#3"));
}
