use ion::commands::{EvalCommand, RunCommand, TestCommand};
use ion::memory::{push_decimal, Bytes, MemoryStats};
use ion::paths::{resolve_run_entry, resolve_test_entries};

#[test]
fn decimal_text() {
    let mut s = String::new();
    push_decimal(&mut s, 0);
    assert_eq!(s, "0");
    let mut t = String::from("n=");
    push_decimal(&mut t, 1234567);
    assert_eq!(t, "n=1234567");
}

#[test]
fn bytes_text_units() {
    assert_eq!(Bytes(0).to_display_string(), "0 bytes");
    assert_eq!(Bytes(4095).to_display_string(), "4095 bytes");
    assert_eq!(Bytes(4096).to_display_string(), "4kb");
    assert_eq!(Bytes(4096 * 1024 - 1).to_display_string(), "4095kb");
    assert_eq!(Bytes(4096 * 1024).to_display_string(), "4mb");
    assert_eq!(Bytes(10 * 1024 * 1024 + 5).to_display_string(), "10mb");
}

#[test]
fn bytes_add() {
    let mut b = Bytes(10);
    b.add_assign(5);
    assert_eq!(b.0, 15);
}

#[test]
fn memory_stats_text() {
    let stats = MemoryStats::from_readings(100, 8192);
    assert_eq!(stats.to_display_string(), "100 bytes allocated 8kb resident");
}

#[test]
fn memory_stats_read_from_the_allocator() {
    let stats = MemoryStats::current().expect("allocator statistics");
    assert!(stats.to_display_string().contains(" allocated "));
}

#[test]
fn run_entry_of_a_relative_path() {
    assert_eq!(resolve_run_entry("/home/user", "src/../main.js"), "/home/user/main.js");
    assert_eq!(resolve_run_entry("/home/user/", "./a/./b.ts"), "/home/user/a/b.ts");
}

#[test]
fn run_entry_of_an_absolute_path_ignores_cwd() {
    assert_eq!(resolve_run_entry("/anywhere", "/srv/app/../index.js"), "/srv/index.js");
    assert_eq!(resolve_run_entry("/elsewhere", "/srv/app/../index.js"), "/srv/index.js");
}

#[test]
fn test_entries_in_order() {
    let files = vec![String::from("a.test.js"), String::from("/abs/./b.test.js"), String::from("x/../c.test.js")];
    assert_eq!(
        resolve_test_entries("/work", &files),
        vec![String::from("/work/a.test.js"), String::from("/abs/b.test.js"), String::from("/work/c.test.js")]
    );
}

#[test]
fn commands_hold_their_arguments() {
    let e = EvalCommand { code: String::from("1 + 1") };
    let r = RunCommand { path: String::from("main.js") };
    let t = TestCommand { files: vec![String::from("a.js")] };
    assert_eq!(e.code, "1 + 1");
    assert_eq!(r.path, "main.js");
    assert_eq!(t.files.len(), 1);
}

#[test]
fn memory_stats_from_outcomes() {
    let s = MemoryStats::from_outcomes(true, Some(100), Some(8192)).unwrap();
    assert_eq!(s.allocated.0, 100);
    assert_eq!(s.resident.0, 8192);
    assert!(MemoryStats::from_outcomes(false, Some(1), Some(2)).is_none());
    assert!(MemoryStats::from_outcomes(true, None, Some(2)).is_none());
    assert!(MemoryStats::from_outcomes(true, Some(1), None).is_none());
}
