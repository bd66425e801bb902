use wasm_runner::clock::{clamp_nanos, Clock};
use wasm_runner::context::{
    advance, secondary_launch, worker_launch, Entry, Phase, Shutdown, Step,
};
use wasm_runner::irq::IrqFlag;
use wasm_runner::region::Region;
use wasm_runner::region_size;

#[test]
fn secondary_bringup_launch() {
    let l = secondary_launch(3, 42);
    assert_eq!(l.entry, Entry::Secondary);
    assert_eq!(l.entry.symbol(), "secondary");
    assert_eq!(l.args, vec![3, 42]);
    assert_eq!(l.name, b"entry3".to_vec());
    assert_eq!(secondary_launch(1024, 0).name, b"entry1024".to_vec());
    assert_eq!(secondary_launch(0, 0).name, b"entry0".to_vec());
}

#[test]
fn worker_launch_passes_literal_argument() {
    let l = worker_launch(0xdead_beef, b"kworker".to_vec());
    assert_eq!(l.entry, Entry::Task);
    assert_eq!(l.entry.symbol(), "task");
    assert_eq!(l.entry.arity(), 1);
    assert_eq!(l.args, vec![0xdead_beef]);
    assert_eq!(l.name, b"kworker".to_vec());
}

#[test]
fn entry_symbols() {
    assert_eq!(Entry::Boot.symbol(), "boot");
    assert_eq!(Entry::Boot.arity(), 0);
    assert_eq!(Entry::Secondary.arity(), 2);
}

#[test]
fn context_life_is_one_shot() {
    let mut p = Phase::Created;
    for s in [Step::Instantiate, Step::Invoke, Step::Finish] {
        p = advance(p, s).unwrap();
    }
    assert_eq!(p, Phase::Terminated);
    assert_eq!(advance(Phase::Terminated, Step::Instantiate), None);
    assert_eq!(advance(Phase::Terminated, Step::Fail), None);
    assert_eq!(advance(Phase::Created, Step::Invoke), None);
    assert_eq!(advance(Phase::Instantiated, Step::Fail), Some(Phase::Terminated));
}

#[test]
fn shutdown_exits_non_zero() {
    assert_eq!(Shutdown::Halt.exit_status(), 1);
    assert_eq!(Shutdown::Restart.exit_status(), 1);
    assert_eq!(Shutdown::Halt.message(), "halt");
    assert_eq!(Shutdown::Restart.message(), "restart");
}

#[test]
fn irq_flag_seen_by_every_handle() {
    let flag = IrqFlag::new(0);
    let early = flag.share();
    flag.set(1);
    let late = flag.share();
    assert_eq!(early.get(), 1);
    assert_eq!(late.get(), 1);
    late.set(0);
    assert_eq!(flag.get(), 0);
    assert_eq!(early.get(), 0);
}

#[test]
fn clock_is_monotonic() {
    let clock = Clock::start();
    let other = clock;
    let mut last = clock.now_nsec();
    for _ in 0..1000 {
        let now = other.now_nsec();
        assert!(now >= last);
        last = now;
    }
}

#[test]
fn clamp_nanos_values() {
    assert_eq!(clamp_nanos(0), 0);
    assert_eq!(clamp_nanos(1_500), 1_500);
    assert_eq!(clamp_nanos(u64::MAX as u128), u64::MAX);
    assert_eq!(clamp_nanos(u64::MAX as u128 + 1), u64::MAX);
}

#[test]
fn region_size_is_pages_times_page() {
    assert_eq!(region_size(0), 0);
    assert_eq!(region_size(1), 65536);
    assert_eq!(region_size(1024), 67_108_864);
    assert_eq!(region_size(u32::MAX), u32::MAX as u64 * 65536);
    assert_eq!(Region::new(2).len(), 131072);
}

#[test]
fn region_write_visible_to_read() {
    let mut r = Region::new(1);
    assert_eq!(r.read(0, 4).ok().unwrap(), vec![0, 0, 0, 0]);
    r.write(100, &b"hello".to_vec()).ok().unwrap();
    assert_eq!(r.read(100, 5).ok().unwrap(), b"hello".to_vec());
    assert_eq!(r.read(99, 7).ok().unwrap(), b"\0hello\0".to_vec());
    assert_eq!(r.len(), 65536);
}

#[test]
fn region_rejects_out_of_range() {
    let mut r = Region::new(1);
    assert!(r.read(65530, 7).is_err());
    assert_eq!(r.read(65530, 6).ok().unwrap().len(), 6);
    assert!(r.write(65535, &vec![1, 2]).is_err());
    assert_eq!(r.read(65535, 1).ok().unwrap(), vec![0]);
    assert_eq!(r.len(), 65536);
}

#[test]
fn region_applies_get_dt_patch() {
    let mut r = Region::new(1);
    let dt = vec![0xd0, 0x0d, 0xfe, 0xed, 1, 2];
    let p = wasm_runner::host::get_dt(r.len(), &dt, 10, 4).ok().unwrap();
    r.apply(&p).ok().unwrap();
    assert_eq!(r.read(10, 6).ok().unwrap(), vec![0xd0, 0x0d, 0xfe, 0xed, 0, 0]);
}
