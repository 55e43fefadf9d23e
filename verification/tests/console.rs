use coop_kernel::console::{print, putchar, sbi_call, Console};

#[test]
fn new_console_is_empty() {
    let console = Console::new();
    assert!(console.output().is_empty());
}

#[test]
fn putchar_appends_one_byte() {
    let mut console = Console::new();
    putchar(&mut console, b'x');
    assert_eq!(console.output(), &vec![b'x']);
    putchar(&mut console, 0);
    putchar(&mut console, 255);
    assert_eq!(console.output(), &vec![b'x', 0, 255]);
}

#[test]
fn print_emits_bytes_in_order() {
    let mut console = Console::new();
    print(&mut console, "Hello, world!\n");
    assert_eq!(console.output().as_slice(), b"Hello, world!\n");
    print(&mut console, "A ");
    assert_eq!(console.output().as_slice(), b"Hello, world!\nA ");
}

#[test]
fn print_of_empty_string_emits_nothing() {
    let mut console = Console::new();
    print(&mut console, "");
    assert!(console.output().is_empty());
}

#[test]
fn print_emits_every_byte_of_a_wide_character() {
    let mut console = Console::new();
    print(&mut console, "\u{e9}!");
    assert_eq!(console.output(), &vec![0xc3, 0xa9, b'!']);
}

#[test]
fn sbi_console_call_takes_the_low_byte() {
    let mut console = Console::new();
    sbi_call(&mut console, 0x41, 0, 0, 1);
    sbi_call(&mut console, 0x142, 7, 0, 1);
    sbi_call(&mut console, -1, 0, 0, 1);
    assert_eq!(console.output(), &vec![0x41, 0x42, 0xff]);
}

#[test]
fn sbi_call_with_another_identifier_is_ignored() {
    let mut console = Console::new();
    sbi_call(&mut console, 0x41, 0, 0, 2);
    sbi_call(&mut console, 0x41, 0, 1, 1);
    sbi_call(&mut console, 0x41, 0, 0, 0);
    assert!(console.output().is_empty());
}

#[test]
fn take_hands_out_the_bytes_and_empties_the_console() {
    let mut console = Console::new();
    print(&mut console, "ab");
    let bytes = console.take();
    assert_eq!(bytes, vec![b'a', b'b']);
    assert!(console.output().is_empty());
    print(&mut console, "c");
    assert_eq!(console.take(), vec![b'c']);
}
