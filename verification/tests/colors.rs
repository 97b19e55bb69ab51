use oxide::colors::{ColorScheme, Paint};
use oxide::iostreams::IoStreams;

#[test]
fn colours_are_escape_sequences() {
    let cs = ColorScheme::new(true);
    assert_eq!(cs.red("x"), "\u{1b}[31mx\u{1b}[0m");
    assert_eq!(cs.green("x"), "\u{1b}[32mx\u{1b}[0m");
    assert_eq!(cs.yellow("x"), "\u{1b}[33mx\u{1b}[0m");
    assert_eq!(cs.purple("x"), "\u{1b}[35mx\u{1b}[0m");
    assert_eq!(cs.cyan("x"), "\u{1b}[36mx\u{1b}[0m");
    assert_eq!(cs.bold("x y"), "\u{1b}[1mx y\u{1b}[0m");
    assert_eq!(cs.gray(""), "\u{1b}[38;5;242m\u{1b}[0m");
    assert_eq!(cs.paint(Paint::Fixed(0), "x"), "\u{1b}[38;5;0mx\u{1b}[0m");
    assert_eq!(cs.paint(Paint::Fixed(7), "x"), "\u{1b}[38;5;7mx\u{1b}[0m");
    assert_eq!(cs.paint(Paint::Fixed(255), "x"), "\u{1b}[38;5;255mx\u{1b}[0m");
    assert_eq!(cs.success_icon(), "\u{1b}[32m\u{2714}\u{1b}[0m");
    assert_eq!(cs.success_icon_with_color(Paint::Red), "\u{1b}[31m\u{2714}\u{1b}[0m");
}

#[test]
fn without_colour_text_stays_as_it_is() {
    let cs = ColorScheme::new(false);
    assert_eq!(cs.red("x"), "x");
    assert_eq!(cs.bold("x y"), "x y");
    assert_eq!(cs.gray("2 days ago"), "2 days ago");
    assert_eq!(cs.success_icon(), "\u{2714}");
    assert_eq!(cs.success_icon_with_color(Paint::Red), "\u{2714}");
}

#[test]
fn prompting_needs_two_terminals() {
    let mut io = IoStreams::new(true, true, false);
    assert!(io.can_prompt());
    io.never_prompt = true;
    assert!(!io.can_prompt());
    io.never_prompt = false;
    io.stdin_tty = false;
    assert!(!io.can_prompt());
    io.stdin_tty = true;
    io.stdout_tty = false;
    assert!(!io.can_prompt());
    assert!(!IoStreams::test().can_prompt());
}

#[test]
fn streams_are_appended_to() {
    let mut io = IoStreams::test();
    io.print("a\u{e9}");
    io.write_out(&[0, 255]);
    io.eprint("err");
    io.write_err(b"!");
    io.print("");
    assert_eq!(io.out, vec![b'a', 0xc3, 0xa9, 0, 255]);
    assert_eq!(io.err_out, b"err!".to_vec());
}
