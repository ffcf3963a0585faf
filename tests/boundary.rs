use panama::arith;
use panama::record::{grade_print, Grade, User};
use panama::text::{c_text, has_nul, ret_hello, say_hello, str_to_upper, Greeting};

#[test]
fn add_and_multiply_small_values() {
    assert_eq!(arith::add(2, 3), 5);
    assert_eq!(arith::mul(4, 5), 20);
    assert_eq!(arith::add(-7, 3), -4);
    assert_eq!(arith::mul(-6, 7), -42);
}

#[test]
fn add_wraps_past_the_maximum() {
    assert_eq!(arith::add(i32::MAX, 1), i32::MIN);
    assert_eq!(arith::add(i32::MIN, -1), i32::MAX);
}

#[test]
fn multiply_wraps_on_overflow() {
    assert_eq!(arith::mul(i32::MAX, 2), -2);
    assert_eq!(arith::mul(65536, 65536), 0);
    assert_eq!(arith::mul(i32::MIN, -1), i32::MIN);
}

#[test]
fn uppercase_of_ascii_text() {
    assert_eq!(str_to_upper(Some(b"hello, world")), Some(String::from("HELLO, WORLD")));
}

#[test]
fn uppercase_is_locale_independent_unicode() {
    let input = "straße ǆ é";
    assert_eq!(str_to_upper(Some(input.as_bytes())), Some(String::from("STRASSE Ǆ É")));
}

#[test]
fn uppercase_of_empty_text() {
    assert_eq!(str_to_upper(Some(b"")), Some(String::new()));
}

#[test]
fn uppercase_of_missing_input_is_none() {
    assert_eq!(str_to_upper(None), None);
}

#[test]
fn uppercase_of_invalid_utf8_is_none() {
    assert_eq!(str_to_upper(Some(&[0x61, 0xff, 0x62])), None);
    assert_eq!(str_to_upper(Some(&[0xc3])), None);
}

#[test]
fn uppercase_result_is_independently_owned() {
    let a = str_to_upper(Some(b"abc")).unwrap();
    let b = str_to_upper(Some(b"abc")).unwrap();
    drop(a);
    assert_eq!(b, "ABC");
}

#[test]
fn null_characters_cannot_form_a_c_string() {
    assert!(has_nul("a\0b"));
    assert!(!has_nul("abc"));
    assert!(!has_nul(""));
    assert_eq!(c_text(String::from("x\0")), None);
    assert_eq!(c_text(String::from("xy")), Some(String::from("xy")));
}

#[test]
fn greeting_without_input_is_silent() {
    assert!(matches!(say_hello(None), Greeting::Silent));
}

#[test]
fn greeting_of_a_name() {
    match say_hello(Some(b"world")) {
        Greeting::Print(line) => assert_eq!(line, "hello world"),
        _ => panic!("expected a line to print"),
    }
}

#[test]
fn greeting_of_invalid_utf8() {
    assert!(matches!(say_hello(Some(&[0xfe, 0x41])), Greeting::InvalidText));
}

#[test]
fn greeting_message_is_fixed() {
    let a = ret_hello();
    let b = ret_hello();
    assert_eq!(a, "Hello, Rust");
    drop(a);
    assert_eq!(b, "Hello, Rust");
}

#[test]
fn grade_dump_with_null_addresses() {
    let g = Grade {
        id: 1,
        class_ids: [1, 2, 3],
        user: User { id: 10, age: 20 },
        class_ids_ptr: 0,
        user_ptr: 0,
    };
    assert_eq!(
        grade_print(g),
        "Grade { id: 1, class_ids: [1, 2, 3], user: User { id: 10, age: 20 }, class_ids_ptr: 0x0, user_ptr: 0x0 }"
    );
    assert_eq!(grade_print(g), grade_print(g));
}

#[test]
fn grade_dump_of_extreme_values() {
    let g = Grade {
        id: i64::MIN,
        class_ids: [-1, 0, i64::MAX],
        user: User { id: -10, age: 0 },
        class_ids_ptr: 0x7ffd_1234_abcd,
        user_ptr: 0xff,
    };
    assert_eq!(
        grade_print(g),
        "Grade { id: -9223372036854775808, class_ids: [-1, 0, 9223372036854775807], \
         user: User { id: -10, age: 0 }, class_ids_ptr: 0x7ffd1234abcd, user_ptr: 0xff }"
    );
}
