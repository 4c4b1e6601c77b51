use qrep::digits::decimal_string;
use qrep::error::{usage, QrepError};

#[test]
fn decimal_renders_zero() {
    assert_eq!(decimal_string(0), "0");
}

#[test]
fn decimal_renders_a_single_digit() {
    assert_eq!(decimal_string(7), "7");
}

#[test]
fn decimal_renders_every_digit() {
    assert_eq!(decimal_string(1234567890), "1234567890");
}

#[test]
fn decimal_keeps_inner_zeros() {
    assert_eq!(decimal_string(905), "905");
}

#[test]
fn argument_count_message_reports_the_count() {
    let e = QrepError::ArgumentCount { got: 7 };
    assert_eq!(e.message(), "wrong number of arguments, expected 4, got 7");
}

#[test]
fn input_read_message_names_path_and_cause() {
    let e = QrepError::InputRead {
        path: "in.txt".to_string(),
        message: "boom".to_string(),
    };
    assert_eq!(e.message(), "failed to read input file 'in.txt': boom");
}

#[test]
fn pattern_compile_message_names_pattern_and_replacement() {
    let e = QrepError::PatternCompile {
        pattern: "(".to_string(),
        replacement: "y".to_string(),
        message: "boom".to_string(),
    };
    assert_eq!(
        e.message(),
        "failed to replace with regular expression '(' and replacement 'y': boom"
    );
}

#[test]
fn output_write_message_names_path_and_cause() {
    let e = QrepError::OutputWrite {
        path: "out.txt".to_string(),
        message: "boom".to_string(),
    };
    assert_eq!(e.message(), "failed to write data to output file 'out.txt': boom");
}

#[test]
fn usage_names_the_four_arguments() {
    assert_eq!(
        usage(),
        "qrep - quickly replace a string with another in a file\nUsage: qrep <target string> <replacement string> <input file> <output file>"
    );
}
