use hello_wasm::console::{add_line, greet_line, hello_world_line, startup_line};
use hello_wasm::{greet, hello_world};

#[test]
fn greet_line_quotes_the_greeting() {
    assert_eq!(
        greet_line("World"),
        "Greeting generated: Hello, World! This message is from Rust and WebAssembly."
    );
    assert!(greet_line("World").contains(greet("World").as_str()));
}

#[test]
fn greet_line_follows_the_name() {
    let name = "Grace {} <i>";
    assert_eq!(greet_line(name), format!("Greeting generated: {}", greet(name)));
    assert_eq!(greet_line(""), "Greeting generated: Hello, ! This message is from Rust and WebAssembly.");
}

#[test]
fn hello_world_line_is_fixed() {
    assert_eq!(hello_world_line(), "Hello world function called");
    assert!(!hello_world_line().contains(hello_world().as_str()));
}

#[test]
fn add_line_shows_operands_and_sum() {
    assert_eq!(add_line(-5, 10), "Adding -5 + 10 = 5");
    assert_eq!(add_line(1, 2), "Adding 1 + 2 = 3");
    assert_eq!(add_line(0, 0), "Adding 0 + 0 = 0");
}

#[test]
fn add_line_shows_the_wrapped_sum() {
    assert_eq!(add_line(2147483647, 1), "Adding 2147483647 + 1 = -2147483648");
    assert_eq!(add_line(-2147483648, -1), "Adding -2147483648 + -1 = 2147483647");
}

#[test]
fn add_line_agrees_with_add() {
    let samples: [i32; 5] = [i32::MIN, -17, 0, 300, i32::MAX];
    for a in samples.iter() {
        for b in samples.iter() {
            let sum: i32 = hello_wasm::add(*a, *b);
            assert_eq!(add_line(*a, *b), format!("Adding {} + {} = {}", a, b, sum));
        }
    }
}

#[test]
fn startup_line_is_fixed() {
    assert_eq!(startup_line(), "Hello from Rust and WebAssembly!");
}
