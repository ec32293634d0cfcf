use greet::greeting;
use greet::program_output;

#[test]
fn greeting_world() {
    assert_eq!(greeting("world"), "Hi world\n");
}

#[test]
fn greeting_rust() {
    assert_eq!(greeting("rust"), "Hi rust\n");
}

#[test]
fn greeting_empty_name() {
    assert_eq!(greeting(""), "Hi \n");
}

#[test]
fn greeting_arbitrary_text() {
    assert_eq!(greeting("a longer name"), "Hi a longer name\n");
}

#[test]
fn two_calls_in_order() {
    let mut out = greeting("world");
    out.push_str(&greeting("rust"));
    assert_eq!(out, "Hi world\nHi rust\n");
}

#[test]
fn program_output_text() {
    assert_eq!(program_output(), "Hi world\nHi rust\n");
}
