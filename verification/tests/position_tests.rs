use expect_test_bytes::position::{Expect, Position};

#[test]
fn position_displays_file_line_and_column() {
    let pos = Position { file: "src/lib.rs", line: 10, column: 5 };
    assert_eq!(pos.display_string(), "src/lib.rs:10:5");
}

#[test]
fn position_displays_multi_digit_numbers() {
    let pos = Position { file: "tests/a.rs", line: 120, column: 40 };
    assert_eq!(pos.display_string(), "tests/a.rs:120:40");
    let pos = Position { file: "x.rs", line: 0, column: 0 };
    assert_eq!(pos.display_string(), "x.rs:0:0");
}

#[test]
fn expect_carries_its_position_and_data() {
    let e = Expect {
        position: Position { file: "src/main.rs", line: 3, column: 9 },
        data: b"example",
    };
    assert_eq!(e.data, b"example");
    assert_eq!(e.position.display_string(), "src/main.rs:3:9");
}
