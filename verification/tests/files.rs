use barcore::files::{read_int_from_file_path, ReadIntError};
use std::io::{Error, ErrorKind};

fn text(s: &str) -> Result<String, Error> {
    Ok(s.to_string())
}

#[test]
fn count_is_read_without_the_white_space_around_it() {
    assert!(matches!(read_int_from_file_path(text(" 42\n")), Ok(42)));
    assert!(matches!(read_int_from_file_path(text("100")), Ok(100)));
    assert!(matches!(read_int_from_file_path(text("\t+7\u{a0}\u{3000}\r\n")), Ok(7)));
    assert!(matches!(read_int_from_file_path(text("007")), Ok(7)));
    assert!(matches!(read_int_from_file_path(text("0")), Ok(0)));
}

#[test]
fn largest_count_is_read_and_one_more_is_refused() {
    let max = usize::MAX.to_string();
    assert!(matches!(read_int_from_file_path(text(&max)), Ok(usize::MAX)));
    let mut over = max.clone();
    over.push('0');
    assert!(matches!(read_int_from_file_path(text(&over)), Err(ReadIntError::Parsing(_))));
}

#[test]
fn text_that_is_no_count_is_a_parsing_error() {
    for bad in ["", "   ", "+", "-", "-5", "12a", "1 2", "0x10", "1.5", "++1"] {
        assert!(
            matches!(read_int_from_file_path(text(bad)), Err(ReadIntError::Parsing(_))),
            "{:?}",
            bad
        );
    }
}

#[test]
fn failed_read_is_handed_on() {
    let r = read_int_from_file_path(Err(Error::new(ErrorKind::NotFound, "gone")));
    match r {
        Err(ReadIntError::StdIoError(e)) => assert_eq!(e.kind(), ErrorKind::NotFound),
        _ => panic!("expected the read's own failure"),
    }
}

#[test]
fn errors_convert_into_the_read_error() {
    let parse = "x".parse::<usize>().unwrap_err();
    assert!(matches!(ReadIntError::from(parse), ReadIntError::Parsing(_)));
    let io = Error::new(ErrorKind::PermissionDenied, "no");
    assert!(matches!(ReadIntError::from(io), ReadIntError::StdIoError(_)));
}
