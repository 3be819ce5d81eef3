use up_safe_cell::fatal::panic_line;
use up_safe_cell::location::Location;
use up_safe_cell::sync::conflict::BorrowConflict;
use up_safe_cell::text::append_decimal;

#[test]
fn panic_line_with_location() {
    let line = panic_line("divide by zero", Some(Location::new("trap.rs", 42)));
    assert_eq!(line, "[kernel] Panicked at trap.rs:42 divide by zero");
    assert!(line.contains("kernel"));
    assert!(line.contains("trap.rs"));
    assert!(line.contains("42"));
    assert!(line.contains("divide by zero"));
}

#[test]
fn panic_line_without_location() {
    let line = panic_line("divide by zero", None);
    assert_eq!(line, "[kernel] Panicked: divide by zero");
    assert!(line.contains("kernel"));
    assert!(line.contains("divide by zero"));
}

#[test]
fn panic_line_with_empty_cause() {
    assert_eq!(panic_line("", None), "[kernel] Panicked: ");
    assert_eq!(panic_line("", Some(Location::new("", 0))), "[kernel] Panicked at :0 ");
}

#[test]
fn panic_line_takes_a_borrowed_file_name() {
    let file = String::from("src/mm/heap.rs");
    let line = panic_line("out of memory", Some(Location::new(file.as_str(), 1234)));
    assert_eq!(line, "[kernel] Panicked at src/mm/heap.rs:1234 out of memory");
}

#[test]
fn conflict_message_names_owner_then_requester() {
    let conflict = BorrowConflict {
        owner: Some(Location::new("os/src/task/mod.rs", 58)),
        requester: Location::new("os/src/trap/mod.rs", 101),
    };
    let message = conflict.message();
    assert_eq!(
        message,
        "UPSafeCell: already borrowed! \n  -> Current Owner: os/src/task/mod.rs:58 \n  -> New Request: os/src/trap/mod.rs:101"
    );
    let owner_at = message.find("os/src/task/mod.rs:58").unwrap();
    let requester_at = message.find("os/src/trap/mod.rs:101").unwrap();
    assert!(owner_at < requester_at);
    assert!(message.ends_with("os/src/trap/mod.rs:101"));
}

#[test]
fn conflict_message_same_location_twice() {
    let here = Location::new("a.rs", 7);
    let conflict = BorrowConflict { owner: Some(here), requester: here };
    assert_eq!(
        conflict.message(),
        "UPSafeCell: already borrowed! \n  -> Current Owner: a.rs:7 \n  -> New Request: a.rs:7"
    );
}

#[test]
fn conflict_message_without_provenance() {
    let conflict = BorrowConflict { owner: None, requester: Location::new("os/src/trap/mod.rs", 101) };
    let message = conflict.message();
    assert_eq!(message, "UPSafeCell: already borrowed (No trace info)!");
    assert!(!message.contains("os/src/trap/mod.rs"));
    assert!(!message.contains("101"));
    let other = BorrowConflict { owner: None, requester: Location::new("z.rs", 1) };
    assert_eq!(other.message(), message);
}

#[test]
fn conflict_fatal_line_reports_at_the_requester() {
    let conflict = BorrowConflict {
        owner: Some(Location::new("a.rs", 1)),
        requester: Location::new("b.rs", 2),
    };
    assert_eq!(
        conflict.fatal_line(),
        "[kernel] Panicked at b.rs:2 UPSafeCell: already borrowed! \n  -> Current Owner: a.rs:1 \n  -> New Request: b.rs:2"
    );
    let unknown = BorrowConflict { owner: None, requester: Location::new("b.rs", 2) };
    assert_eq!(
        unknown.fatal_line(),
        "[kernel] Panicked at b.rs:2 UPSafeCell: already borrowed (No trace info)!"
    );
}

#[test]
fn location_text_is_file_colon_line() {
    assert_eq!(Location::new("trap.rs", 42).to_text(), "trap.rs:42");
    assert_eq!(Location::new("", 0).to_text(), ":0");
    assert_eq!(Location::new("a:b.rs", 5).to_text(), "a:b.rs:5");
}

#[test]
fn location_append_keeps_what_was_there() {
    let mut out = String::from("at ");
    Location::new("x.rs", 10).append_to(&mut out);
    assert_eq!(out, "at x.rs:10");
    Location::new("y.rs", 0).append_to(&mut out);
    assert_eq!(out, "at x.rs:10y.rs:0");
}

#[test]
fn decimal_of_single_digits() {
    let expected = ["0", "1", "2", "3", "4", "5", "6", "7", "8", "9"];
    for n in 0..10u32 {
        let mut out = String::new();
        append_decimal(&mut out, n);
        assert_eq!(out, expected[n as usize]);
    }
}

#[test]
fn decimal_of_boundaries() {
    let cases: [(u32, &str); 9] = [
        (10, "10"),
        (11, "11"),
        (99, "99"),
        (100, "100"),
        (101, "101"),
        (1000, "1000"),
        (907060, "907060"),
        (4294967294, "4294967294"),
        (u32::MAX, "4294967295"),
    ];
    for (n, text) in cases {
        let mut out = String::new();
        append_decimal(&mut out, n);
        assert_eq!(out, text);
    }
}

#[test]
fn decimal_agrees_with_std_formatting() {
    let mut n: u32 = 1;
    for _ in 0..200 {
        let mut out = String::new();
        append_decimal(&mut out, n);
        assert_eq!(out, format!("{}", n));
        assert_eq!(out.parse::<u32>().unwrap(), n);
        n = n.wrapping_mul(1664525).wrapping_add(1013904223);
    }
}

#[test]
fn decimal_appends_after_existing_text() {
    let mut out = String::from("line ");
    append_decimal(&mut out, 305);
    assert_eq!(out, "line 305");
}
