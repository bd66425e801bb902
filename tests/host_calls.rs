use wasm_runner::host::{
    boot_console_write, checked_span, get_dt, get_stacktrace, return_address, stacktrace_patch,
    worker_name_span, HostError, Span,
};

#[test]
fn console_write_in_range() {
    assert_eq!(boot_console_write(100, 10, 20), Ok(Span { start: 10, end: 30 }));
    assert_eq!(boot_console_write(100, 80, 20), Ok(Span { start: 80, end: 100 }));
    assert_eq!(boot_console_write(100, 100, 0), Ok(Span { start: 100, end: 100 }));
}

#[test]
fn console_write_past_region_fails() {
    assert_eq!(boot_console_write(100, 81, 20), Err(HostError::OutOfBounds));
    assert_eq!(boot_console_write(100, 101, 0), Err(HostError::OutOfBounds));
    assert_eq!(boot_console_write(65536, u32::MAX, u32::MAX), Err(HostError::OutOfBounds));
}

#[test]
fn checked_span_exact() {
    assert_eq!(checked_span(10, 3, 4), Ok(Span { start: 3, end: 7 }));
    assert_eq!(checked_span(0, 0, 1), Err(HostError::OutOfBounds));
}

#[test]
fn get_dt_truncates_to_request() {
    let dt: Vec<u8> = (1..=10).collect();
    let p = get_dt(1000, &dt, 50, 4).ok().unwrap();
    assert_eq!(p.start, 50);
    assert_eq!(p.bytes, vec![1, 2, 3, 4]);
}

#[test]
fn get_dt_never_reads_past_descriptor() {
    let dt: Vec<u8> = (1..=10).collect();
    let p = get_dt(1000, &dt, 0, 100).ok().unwrap();
    assert_eq!(p.bytes, dt);
    let empty = get_dt(1000, &dt, 7, 0).ok().unwrap();
    assert!(empty.bytes.is_empty());
}

#[test]
fn get_dt_outside_region_fails() {
    let dt: Vec<u8> = vec![7; 10];
    assert!(matches!(get_dt(100, &dt, 95, 10), Err(HostError::OutOfBounds)));
    assert!(get_dt(100, &dt, 95, 5).is_ok());
    assert!(get_dt(100, &dt, 90, 100).is_ok());
}

#[test]
fn stacktrace_clamps() {
    let trace = b"frame 0\nframe 1\n".to_vec();
    let p = stacktrace_patch(4096, &trace, 8, 5).ok().unwrap();
    assert_eq!(p.start, 8);
    assert_eq!(p.bytes, b"frame".to_vec());
    let all = stacktrace_patch(4096, &trace, 8, 1000).ok().unwrap();
    assert_eq!(all.bytes, trace);
}

#[test]
fn stacktrace_capture_bounded() {
    let p = get_stacktrace(1 << 20, 16, 64).ok().unwrap();
    assert_eq!(p.start, 16);
    assert!(p.bytes.len() <= 64);
    let none = get_stacktrace(1 << 20, 16, 0).ok().unwrap();
    assert!(none.bytes.is_empty());
}

#[test]
fn return_address_is_sentinel() {
    assert_eq!(return_address(0), -1);
    assert_eq!(return_address(5), -1);
}

#[test]
fn worker_name_range() {
    assert_eq!(worker_name_span(64, 60, 4), Ok(Span { start: 60, end: 64 }));
    assert_eq!(worker_name_span(64, 60, 5), Err(HostError::OutOfBounds));
}
