use extension_host::{allocate, GuestArena, GuestMemoryHandle};

#[test]
fn buffers_follow_one_another() {
    let mut arena = GuestArena::new(1024, 65536);
    assert_eq!(allocate(&mut arena, 28), 1024);
    assert_eq!(allocate(&mut arena, 0), 1052);
    assert_eq!(allocate(&mut arena, 4), 1052);
    assert_eq!(allocate(&mut arena, 1), 1056);
    assert_eq!(arena, GuestArena { next: 1057, limit: 65536 });
    assert_eq!(arena.remaining(), 65536 - 1057);
}

#[test]
fn a_request_that_does_not_fit_is_told_beforehand() {
    let mut arena = GuestArena::new(10, 50);
    assert!(!arena.fits(41));
    assert!(arena.fits(40));
    assert_eq!(allocate(&mut arena, 40), 10);
    assert!(!arena.fits(1));
    assert!(arena.fits(0));
    assert_eq!(allocate(&mut arena, 0), 50);
    assert_eq!(arena.remaining(), 0);
    let mut top = GuestArena::new(u32::MAX - 3, u32::MAX);
    assert!(!top.fits(4));
    assert!(!top.fits(u32::MAX));
    assert!(top.fits(3));
    assert_eq!(allocate(&mut top, 3), u32::MAX - 3);
    assert_eq!(top, GuestArena { next: u32::MAX, limit: u32::MAX });
}

#[test]
fn an_arena_that_starts_behind_its_limit_holds_nothing() {
    let arena = GuestArena::new(60, 50);
    assert_eq!(arena.remaining(), 0);
    assert!(!arena.fits(0));
    assert!(!arena.fits(1));
}

#[test]
fn buffers_do_not_alias() {
    let mut arena = GuestArena::new(0, 4096);
    let mut handed_out: Vec<GuestMemoryHandle> = Vec::new();
    for length in [28usize, 1, 0, 100, 28, 5000, 7, 3000, 931, 1] {
        if arena.fits(length as u32) {
            let offset = allocate(&mut arena, length as u32);
            let buffer = GuestMemoryHandle::new(offset as usize, length);
            assert!(buffer.within(4096));
            for earlier in &handed_out {
                assert!(earlier.base + earlier.length <= buffer.base);
            }
            handed_out.push(buffer);
        }
    }
    assert_eq!(handed_out.len(), 9);
    assert_eq!(arena.remaining(), 0);
}
