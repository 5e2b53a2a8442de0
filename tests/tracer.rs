use leak_tracer::capture::capture_stack;
use leak_tracer::{LeakTracer, LeakTracerDefault};

#[test]
fn it_works() {
    let _aa = LeakTracer::<15>::new();
}

#[test]
fn three_blocks_then_free_one() {
    let mut t = LeakTracerDefault::new();
    assert_eq!(t.alloc_accounting(8, 0x1000), 0x1000);
    assert_eq!(t.alloc_accounting(16, 0x2000), 0x2000);
    assert_eq!(t.alloc_accounting(32, 0x3000), 0x3000);
    let leaks = t.get_leaks();
    assert_eq!(leaks.len(), 3);
    assert_eq!(leaks.get(0x1000).unwrap().size, 8);
    assert_eq!(leaks.get(0x2000).unwrap().size, 16);
    assert_eq!(leaks.get(0x3000).unwrap().size, 32);
    let mut addrs = leaks.addresses();
    addrs.sort();
    assert_eq!(addrs, vec![0x1000, 0x2000, 0x3000]);
    for a in addrs {
        assert_eq!(leaks.get(a).unwrap().ptr, a);
    }
    t.dealloc_accounting(0x2000);
    let leaks = t.get_leaks();
    assert_eq!(leaks.len(), 2);
    assert!(!leaks.contains_key(0x2000));
    assert!(leaks.contains_key(0x1000));
    assert!(leaks.contains_key(0x3000));
}

#[test]
fn disabled_allocations_are_not_recorded() {
    let mut t = LeakTracer::<4>::new();
    t.alloc_accounting(8, 0x10);
    t.disable();
    assert_eq!(t.alloc_accounting(64, 0x20), 0x20);
    assert_eq!(t.realloc_accounting(0x20, 0x30, 128), 0x30);
    t.enable();
    let leaks = t.get_leaks();
    assert_eq!(leaks.len(), 1);
    assert!(leaks.contains_key(0x10));
    assert!(!leaks.contains_key(0x20));
    assert!(!leaks.contains_key(0x30));
}

#[test]
fn release_while_disabled_keeps_record() {
    let mut t = LeakTracer::<4>::new();
    t.alloc_accounting(8, 0x10);
    t.disable();
    t.dealloc_accounting(0x10);
    t.enable();
    assert!(t.get_leaks().contains_key(0x10));
}

#[test]
fn snapshot_keeps_flag() {
    let mut t = LeakTracer::<4>::new();
    assert!(t.is_enabled());
    let _ = t.get_leaks();
    assert!(t.is_enabled());
    t.disable();
    let _ = t.get_leaks();
    assert!(!t.is_enabled());
}

#[test]
fn snapshot_leaves_records() {
    let mut t = LeakTracer::<4>::new();
    t.alloc_accounting(24, 0x40);
    let first = t.get_leaks();
    let second = t.get_leaks();
    assert_eq!(first.len(), 1);
    assert_eq!(second.len(), 1);
    assert_eq!(second.get(0x40).unwrap().size, 24);
}

#[test]
fn failed_allocation_is_not_recorded() {
    let mut t = LeakTracer::<4>::new();
    assert_eq!(t.alloc_accounting(8, 0), 0);
    assert_eq!(t.get_leaks().len(), 0);
}

#[test]
fn same_address_twice_keeps_one_record() {
    let mut t = LeakTracer::<4>::new();
    t.alloc_accounting(8, 0x50);
    t.dealloc_accounting(0x50);
    t.alloc_accounting(16, 0x50);
    t.alloc_accounting(32, 0x50);
    let leaks = t.get_leaks();
    assert_eq!(leaks.len(), 1);
    assert_eq!(leaks.get(0x50).unwrap().size, 32);
}

#[test]
fn moving_realloc_replaces_record() {
    let mut t = LeakTracer::<4>::new();
    t.alloc_accounting(8, 0x100);
    assert_eq!(t.realloc_accounting(0x100, 0x200, 64), 0x200);
    let leaks = t.get_leaks();
    assert_eq!(leaks.len(), 1);
    assert!(!leaks.contains_key(0x100));
    assert_eq!(leaks.get(0x200).unwrap().size, 64);
    assert_eq!(leaks.get(0x200).unwrap().ptr, 0x200);
}

#[test]
fn in_place_realloc_keeps_old_size() {
    let mut t = LeakTracer::<4>::new();
    t.alloc_accounting(8, 0x100);
    assert_eq!(t.realloc_accounting(0x100, 0x100, 64), 0x100);
    let leaks = t.get_leaks();
    assert_eq!(leaks.len(), 1);
    assert_eq!(leaks.get(0x100).unwrap().size, 8);
}

#[test]
fn failed_realloc_keeps_old_record() {
    let mut t = LeakTracer::<4>::new();
    t.alloc_accounting(8, 0x100);
    assert_eq!(t.realloc_accounting(0x100, 0, 64), 0);
    let leaks = t.get_leaks();
    assert_eq!(leaks.len(), 1);
    assert_eq!(leaks.get(0x100).unwrap().size, 8);
}

fn deep(n: u32, t: &mut LeakTracer<3>, ptr: usize) -> usize {
    if n == 0 {
        t.alloc_accounting(1, ptr)
    } else {
        deep(n - 1, t, ptr) + 0
    }
}

#[test]
fn stack_depth_is_bounded() {
    let mut t = LeakTracer::<3>::new();
    deep(40, &mut t, 0x77);
    let leaks = t.get_leaks();
    assert!(leaks.get(0x77).unwrap().stack.len() <= 3);
    assert!(capture_stack(5).len() <= 5);
    assert_eq!(capture_stack(0).len(), 0);
}

#[test]
fn zero_depth_records_no_frames() {
    let mut t = LeakTracer::<0>::new();
    t.alloc_accounting(4, 0x8);
    assert_eq!(t.get_leaks().get(0x8).unwrap().stack.len(), 0);
}

#[test]
fn record_allocation_keeps_given_stack() {
    let mut t = LeakTracer::<4>::new();
    let frame = leak_tracer::Call::from_parts(None, None, Some(7), None, Some(0xabc));
    assert_eq!(t.record_allocation(12, 0x900, vec![frame]), 0x900);
    let leaks = t.get_leaks();
    let rec = leaks.get(0x900).unwrap();
    assert_eq!(rec.size, 12);
    assert_eq!(rec.ptr, 0x900);
    assert_eq!(rec.stack.len(), 1);
    assert_eq!(rec.stack[0].addr, 0xabc);
    assert_eq!(rec.stack[0].line, Some(7));
}

#[test]
fn record_allocation_while_disabled_changes_nothing() {
    let mut t = LeakTracer::<4>::new();
    t.disable();
    assert_eq!(t.record_allocation(12, 0x900, Vec::new()), 0x900);
    assert_eq!(t.get_leaks().len(), 0);
}

#[test]
fn record_reallocation_moves_record() {
    let mut t = LeakTracer::<4>::new();
    t.record_allocation(8, 0x10, Vec::new());
    assert_eq!(t.record_reallocation(0x10, 0x20, 80, Vec::new()), 0x20);
    let leaks = t.get_leaks();
    assert_eq!(leaks.len(), 1);
    assert_eq!(leaks.get(0x20).unwrap().size, 80);
    assert_eq!(t.record_reallocation(0x20, 0x20, 160, Vec::new()), 0x20);
    assert_eq!(t.get_leaks().get(0x20).unwrap().size, 80);
}

#[test]
fn snapshot_copies_frames() {
    let mut t = LeakTracer::<4>::new();
    let frame = leak_tracer::Call::from_parts(
        Some(b"f".as_slice()),
        None,
        Some(3),
        Some(4),
        Some(0x55),
    );
    t.record_allocation(1, 0x60, vec![frame]);
    let a = t.get_leaks();
    let b = t.get_leaks();
    let fa = &a.get(0x60).unwrap().stack[0];
    let fb = &b.get(0x60).unwrap().stack[0];
    assert_eq!(fa.name.as_ref().unwrap().as_str(), "f");
    assert_eq!(fb.name.as_ref().unwrap().as_str(), "f");
    assert_eq!((fa.line, fa.col, fa.addr), (fb.line, fb.col, fb.addr));
}
