use batch_kernel::console::print;
use batch_kernel::sbi::{console_putchar, shutdown, SbiCall, SBI_CONSOLE_PUTCHAR, SBI_SHUTDOWN};

#[test]
fn putchar_call_carries_the_character() {
    let call = console_putchar(65);
    assert_eq!(call, SbiCall { which: 1, arg0: 65, arg1: 0, arg2: 0 });
    assert_eq!(call.which, SBI_CONSOLE_PUTCHAR);
}

#[test]
fn putchar_call_keeps_large_arguments() {
    let call = console_putchar(usize::MAX);
    assert_eq!(call, SbiCall { which: 1, arg0: usize::MAX, arg1: 0, arg2: 0 });
}

#[test]
fn shutdown_call_has_no_arguments() {
    let call = shutdown();
    assert_eq!(call, SbiCall { which: 8, arg0: 0, arg1: 0, arg2: 0 });
    assert_eq!(call.which, SBI_SHUTDOWN);
}

#[test]
fn print_makes_one_call_for_each_character() {
    let calls = print("ok\n");
    assert_eq!(
        calls,
        vec![
            SbiCall { which: 1, arg0: 111, arg1: 0, arg2: 0 },
            SbiCall { which: 1, arg0: 107, arg1: 0, arg2: 0 },
            SbiCall { which: 1, arg0: 10, arg1: 0, arg2: 0 },
        ]
    );
}

#[test]
fn print_of_nothing_makes_no_call() {
    assert!(print("").is_empty());
}

#[test]
fn print_counts_characters_not_bytes() {
    let calls = print("\u{e9}\u{4e2d}!");
    assert_eq!(calls.len(), 3);
    assert_eq!(calls[0].arg0, 0xe9);
    assert_eq!(calls[1].arg0, 0x4e2d);
    assert_eq!(calls[2].arg0, 0x21);
    assert!(calls.iter().all(|call| call.which == 1 && call.arg1 == 0 && call.arg2 == 0));
}
