use move_mut_tracker::{
    KeyedMutTracker, MoveMutSentinel, MoveMutTracker, MoveRelMutSentinel, MoveRelMutTracker,
    MutTracker,
};

struct Token;
struct OtherToken;

#[derive(Clone, Copy, PartialEq, Eq)]
struct Id(u64);

struct Record {
    id: Id,
    tracker: MoveRelMutTracker<String, Id>,
}

#[test]
fn fresh_wrappers_report_dirty() {
    let plain = MutTracker::new(String::from("a"));
    assert!(MutTracker::was_mutated(&plain));
    let keyed: KeyedMutTracker<Vec<u8>, Token> = KeyedMutTracker::new(vec![1, 2]);
    assert!(KeyedMutTracker::was_mutated(&keyed));
    let abs: MoveMutTracker<(), OtherToken> = MoveMutTracker::new(());
    assert!(MoveMutTracker::was_moved_or_mutated(&abs));
    let rel: MoveRelMutTracker<i64, u8> = MoveRelMutTracker::new(-3);
    assert!(MoveRelMutTracker::was_moved_or_mutated(&rel, &0));
    assert!(MoveRelMutTracker::was_moved_or_mutated(&rel, &255));
    let from: MoveMutTracker<u16, Token> = MoveMutTracker::from(7);
    assert!(MoveMutTracker::was_moved_or_mutated(&from));
    assert_eq!(*from, 7);
    let s: MoveMutSentinel<Token> = MoveMutSentinel::mutated();
    assert!(s.was_moved_or_mutated());
    let r: MoveRelMutSentinel<u32> = MoveRelMutSentinel::mutated();
    assert!(r.was_moved_or_mutated(&0));
}

#[test]
fn plain_reset_then_writes() {
    let mut t = MutTracker::new(10u32);
    MutTracker::reset(&mut t);
    assert!(!MutTracker::was_mutated(&t));
    let read = *t + 1;
    assert_eq!(read, 11);
    assert!(!MutTracker::was_mutated(&t));
    *t = 10;
    assert!(MutTracker::was_mutated(&t));
    assert_eq!(*t, 10);
    MutTracker::reset(&mut t);
    assert!(!MutTracker::was_mutated(&t));
}

#[test]
fn keyed_reset_and_change_key() {
    let mut t: KeyedMutTracker<String, Token> = KeyedMutTracker::new(String::from("x"));
    KeyedMutTracker::reset(&mut t, Token);
    assert!(!KeyedMutTracker::was_mutated(&t));
    assert_eq!(t.len(), 1);
    assert!(!KeyedMutTracker::was_mutated(&t));
    let mut t: KeyedMutTracker<String, OtherToken> = KeyedMutTracker::change_key(t);
    assert!(!KeyedMutTracker::was_mutated(&t));
    t.push('y');
    assert!(KeyedMutTracker::was_mutated(&t));
    let t: KeyedMutTracker<String, Token> = KeyedMutTracker::change_key(t);
    assert!(KeyedMutTracker::was_mutated(&t));
    assert_eq!(t.as_str(), "xy");
}

#[test]
fn absolute_reads_keep_clean_and_moves_dirty() {
    let mut t: Box<MoveMutTracker<Vec<u32>, Token>> = Box::new(MoveMutTracker::new(vec![4, 5]));
    MoveMutTracker::set_unmutated(&mut t, Token);
    assert!(!MoveMutTracker::was_moved_or_mutated(&t));
    assert_eq!(t.len(), 2);
    assert_eq!(t[1], 5);
    assert!(!MoveMutTracker::was_moved_or_mutated(&t));
    let moved_out: MoveMutTracker<Vec<u32>, Token> = *t;
    let v = vec![moved_out];
    assert!(MoveMutTracker::was_moved_or_mutated(&v[0]));
}

#[test]
fn absolute_change_key_keeps_state() {
    let mut t: Box<MoveMutTracker<u8, Token>> = Box::new(MoveMutTracker::new(1));
    let fresh: MoveMutTracker<u8, OtherToken> = MoveMutTracker::change_key(*t);
    assert!(MoveMutTracker::was_moved_or_mutated(&fresh));
    t = Box::new(MoveMutTracker::change_key(fresh));
    MoveMutTracker::set_unmutated(&mut t, Token);
    assert!(!MoveMutTracker::was_moved_or_mutated(&t));
    assert_eq!(**t, 1);
}

#[test]
fn clones_and_clone_from() {
    let mut a: Box<MoveMutTracker<String, Token>> = Box::new(MoveMutTracker::new(String::from("p")));
    MoveMutTracker::set_unmutated(&mut a, Token);
    let b = Box::new((*a).clone());
    assert_eq!(b.as_str(), "p");
    assert!(MoveMutTracker::was_moved_or_mutated(&b));
    assert!(!MoveMutTracker::was_moved_or_mutated(&a));
    let src: MoveMutTracker<String, Token> = MoveMutTracker::new(String::from("q"));
    (*a).clone_from(&src);
    assert_eq!(a.as_str(), "q");
    assert!(MoveMutTracker::was_moved_or_mutated(&a));

    let mut r = Box::new(Record { id: Id(1), tracker: MoveRelMutTracker::new(String::from("r")) });
    MoveRelMutTracker::set_unmutated(&mut r.tracker, &r.id);
    assert!(!MoveRelMutTracker::was_moved_or_mutated(&r.tracker, &r.id));
    let other = MoveRelMutTracker::new(String::from("s"));
    r.tracker.clone_from(&other);
    assert_eq!(r.tracker.as_str(), "s");
    assert!(MoveRelMutTracker::was_moved_or_mutated(&r.tracker, &r.id));
}

#[test]
fn relative_swap_then_clear_then_move_units() {
    let mut a = Box::new(Record { id: Id(1), tracker: MoveRelMutTracker::new(String::from("a")) });
    let mut b = Box::new(Record { id: Id(2), tracker: MoveRelMutTracker::new(String::from("b")) });
    MoveRelMutTracker::set_unmutated(&mut a.tracker, &a.id);
    MoveRelMutTracker::set_unmutated(&mut b.tracker, &b.id);
    assert!(!MoveRelMutTracker::was_moved_or_mutated(&a.tracker, &a.id));
    assert!(!MoveRelMutTracker::was_moved_or_mutated(&b.tracker, &b.id));

    std::mem::swap(&mut a.tracker, &mut b.tracker);
    assert!(MoveRelMutTracker::was_moved_or_mutated(&a.tracker, &a.id));
    assert!(MoveRelMutTracker::was_moved_or_mutated(&b.tracker, &b.id));

    MoveRelMutTracker::set_unmutated(&mut a.tracker, &a.id);
    MoveRelMutTracker::set_unmutated(&mut b.tracker, &b.id);
    let a = *a;
    let b = *b;
    let records = vec![b, a];
    assert!(!MoveRelMutTracker::was_moved_or_mutated(&records[0].tracker, &records[0].id));
    assert!(!MoveRelMutTracker::was_moved_or_mutated(&records[1].tracker, &records[1].id));
    assert_eq!(records[0].tracker.as_str(), "a");
    assert_eq!(records[1].tracker.as_str(), "b");
}

#[test]
fn relative_changed_key_is_dirty() {
    let mut r = Record { id: Id(5), tracker: MoveRelMutTracker::new(String::new()) };
    MoveRelMutTracker::set_unmutated(&mut r.tracker, &r.id);
    assert!(!MoveRelMutTracker::was_moved_or_mutated(&r.tracker, &r.id));
    r.id = Id(6);
    assert!(MoveRelMutTracker::was_moved_or_mutated(&r.tracker, &r.id));
}

#[test]
fn queries_repeat() {
    let mut t: Box<MoveMutTracker<u8, Token>> = Box::new(MoveMutTracker::new(0));
    for _ in 0..5 {
        assert!(MoveMutTracker::was_moved_or_mutated(&t));
    }
    MoveMutTracker::set_unmutated(&mut t, Token);
    for _ in 0..5 {
        assert!(!MoveMutTracker::was_moved_or_mutated(&t));
    }
    let p = MutTracker::new(0u8);
    for _ in 0..5 {
        assert!(MutTracker::was_mutated(&p));
    }
}

#[test]
fn scenario_contrast_between_variants() {
    let mut plain: KeyedMutTracker<i32, Token> = KeyedMutTracker::new(0);
    let mut abs: MoveMutTracker<i32, Token> = MoveMutTracker::new(0);
    assert!(KeyedMutTracker::was_mutated(&plain));
    assert!(MoveMutTracker::was_moved_or_mutated(&abs));

    KeyedMutTracker::reset(&mut plain, Token);
    MoveMutTracker::set_unmutated(&mut abs, Token);
    assert!(!KeyedMutTracker::was_mutated(&plain));
    assert!(!MoveMutTracker::was_moved_or_mutated(&abs));

    *plain = 1;
    *abs = 1;
    assert!(KeyedMutTracker::was_mutated(&plain));
    assert!(MoveMutTracker::was_moved_or_mutated(&abs));

    KeyedMutTracker::reset(&mut plain, Token);
    MoveMutTracker::set_unmutated(&mut abs, Token);
    assert!(!KeyedMutTracker::was_mutated(&plain));
    assert!(!MoveMutTracker::was_moved_or_mutated(&abs));

    let plain = Box::new(plain);
    let abs = Box::new(abs);
    assert!(!KeyedMutTracker::was_mutated(&plain));
    assert!(MoveMutTracker::was_moved_or_mutated(&abs));
    assert_eq!(**plain, 1);
    assert_eq!(**abs, 1);
}

#[test]
fn sentinel_answers_at_given_locations() {
    let mut s: MoveMutSentinel<Token> = MoveMutSentinel::mutated();
    assert!(s.moved_or_mutated_at(64));
    s.set_unmutated_at(64);
    assert!(!s.moved_or_mutated_at(64));
    assert!(s.moved_or_mutated_at(72));
    s.set_mutated();
    assert!(s.moved_or_mutated_at(64));

    let mut r: MoveRelMutSentinel<u32> = MoveRelMutSentinel::mutated();
    assert!(r.moved_or_mutated_at(40, 8, &897));
    r.set_unmutated_at(40, 8, &897);
    assert!(!r.moved_or_mutated_at(40, 8, &897));
    assert!(!r.moved_or_mutated_at(4136, 4104, &897));
    assert!(r.moved_or_mutated_at(4136, 4104, &231));
    assert!(r.moved_or_mutated_at(4136, 4112, &897));
    assert!(r.moved_or_mutated_at(8, 40, &897));
    r.set_mutated();
    assert!(r.moved_or_mutated_at(40, 8, &897));
}

#[test]
fn sentinel_status_text() {
    let mut s: Box<MoveMutSentinel<Token>> = Box::new(MoveMutSentinel::mutated());
    assert_eq!(s.status(), "MovedOrMutated");
    s.set_unmutated(Token);
    assert_eq!(s.status(), "Unmutated");
    let moved = vec![*s];
    assert_eq!(moved[0].status(), "MovedOrMutated");
}
