use langserver::algorithm;
use langserver::template::{apply, Input};

#[test]
fn lib_test_apply() {
    assert_eq!(&algorithm::apply("Jane").unwrap(), "Hello Jane");
}

#[test]
fn main_test_apply() {
    let input = Input {
        name: "Jane".to_string(),
    };
    assert_eq!(&apply(input).unwrap().msg, "Hello Jane");
}

#[test]
fn greeting_of_empty_name() {
    assert_eq!(&algorithm::apply("").unwrap(), "Hello ");
    let input = Input { name: String::new() };
    assert_eq!(&apply(input).unwrap().msg, "Hello ");
}
