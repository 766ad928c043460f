use std::cell::RefCell;

use starry_drivers::platform::early_console::{EarlyConsole, crlf_expand};

/// Mock early console that captures all `putchar` calls into a `Vec<u8>`.
struct MockEarlyConsole {
    buf: RefCell<Vec<u8>>,
}

impl MockEarlyConsole {
    fn new() -> Self {
        Self {
            buf: RefCell::new(Vec::new()),
        }
    }

    fn into_bytes(self) -> Vec<u8> {
        self.buf.into_inner()
    }
}

impl EarlyConsole for MockEarlyConsole {
    fn putchar(&self, ch: u8) {
        self.buf.borrow_mut().push(ch);
    }
}

#[test]
fn write_str_converts_lf_to_crlf() {
    let mock = MockEarlyConsole::new();
    mock.write_str("a\nb");
    assert_eq!(mock.into_bytes(), vec![b'a', b'\r', b'\n', b'b']);
}

#[test]
fn write_str_no_newline() {
    let mock = MockEarlyConsole::new();
    mock.write_str("hello");
    assert_eq!(mock.into_bytes(), vec![b'h', b'e', b'l', b'l', b'o']);
}

#[test]
fn write_str_multiple_newlines() {
    let mock = MockEarlyConsole::new();
    mock.write_str("a\nb\nc");
    assert_eq!(
        mock.into_bytes(),
        vec![b'a', b'\r', b'\n', b'b', b'\r', b'\n', b'c']
    );
}

#[test]
fn write_str_only_newline() {
    let mock = MockEarlyConsole::new();
    mock.write_str("\n");
    assert_eq!(mock.into_bytes(), vec![b'\r', b'\n']);
}

#[test]
fn write_str_empty() {
    let mock = MockEarlyConsole::new();
    mock.write_str("");
    assert_eq!(mock.into_bytes(), Vec::<u8>::new());
}

#[test]
fn dw_apb_uart_register_offsets() {
    // stride=4 means: THR at base+0, LSR at base+20
    let stride: usize = 4;
    assert_eq!(0 * stride, 0); // THR offset
    assert_eq!(5 * stride, 20); // LSR offset
    // LSR THRE bit 5
    assert_eq!(1 << 5, 0x20);
}

#[test]
fn crlf_expand_keeps_existing_carriage_returns() {
    assert_eq!(crlf_expand(b"\r\n"), vec![b'\r', b'\r', b'\n']);
    assert_eq!(crlf_expand(b"\n\n"), vec![b'\r', b'\n', b'\r', b'\n']);
}
