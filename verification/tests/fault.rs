use boot_rt::fault::panic_fmt;
use boot_rt::reset::Action;

fn text(message: &str, file: &str, line: u32) -> String {
    let outcome = panic_fmt(message, file, line, true);
    assert_eq!(outcome.action, Action::Halt);
    String::from_utf8(outcome.report.unwrap()).unwrap()
}

#[test]
fn report_names_message_file_and_line() {
    assert_eq!(
        text("You've met with a terrible fate, haven't you?", "examples/init.rs", 15),
        "panicked at 'You've met with a terrible fate, haven't you?', examples/init.rs:15\n"
    );
}

#[test]
fn report_is_exactly_as_formatted() {
    for (message, file, line) in [
        ("boom", "src/main.rs", 0u32),
        ("", "", 7),
        ("index out of bounds", "a.rs", 10),
        ("x", "b.rs", 99),
        ("x", "b.rs", 100),
        ("x", "b.rs", 1_000_000),
        ("caf\u{e9} \u{2014} non-ASCII", "d\u{e9}j\u{e0}.rs", 4_294_967_295),
    ] {
        assert_eq!(text(message, file, line), format!("panicked at '{}', {}:{}\n", message, file, line));
    }
}

#[test]
fn line_numbers_are_decimal_without_padding() {
    assert_eq!(text("m", "f", 0), "panicked at 'm', f:0\n");
    assert_eq!(text("m", "f", 9), "panicked at 'm', f:9\n");
    assert_eq!(text("m", "f", 10), "panicked at 'm', f:10\n");
    assert_eq!(text("m", "f", 4_294_967_295), "panicked at 'm', f:4294967295\n");
}

#[test]
fn without_a_debug_channel_nothing_is_reported() {
    let outcome = panic_fmt("boom", "src/main.rs", 3, false);
    assert_eq!(outcome.report, None);
    assert_eq!(outcome.action, Action::Halt);
}

#[test]
fn the_hook_always_halts() {
    for semihosting in [false, true] {
        assert_eq!(panic_fmt("", "", 0, semihosting).action, Action::Halt);
    }
}
