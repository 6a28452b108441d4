use rosu_pp_older::util::sync::{Arena, RefCount};

#[test]
fn values_live_at_their_index() {
    let mut arena = Arena::new();
    let first = RefCount::new(&mut arena, 10u32);
    let second = RefCount::new(&mut arena, 20u32);

    assert_eq!(arena.len(), 2);
    assert_eq!(*first.get(&arena), 10);
    assert_eq!(*second.get(&arena), 20);
}

#[test]
fn clones_share_the_value() {
    let mut arena = Arena::new();
    let run = RefCount::new(&mut arena, vec![1usize]);
    let other = RefCount::clone(&run);

    other.get_mut(&mut arena).push(2);

    assert_eq!(run, other);
    assert_eq!(*run.get(&arena), vec![1, 2]);
}

#[test]
fn weak_handles_upgrade_while_the_value_lives() {
    let mut arena = Arena::new();
    let run = RefCount::new(&mut arena, 'a');
    let weak = run.downgrade();

    assert_eq!(weak.upgrade(&arena), Some(run));
    assert_eq!(*weak.upgrade(&arena).unwrap().get(&arena), 'a');

    let empty: Arena<char> = Arena::new();

    assert_eq!(weak.upgrade(&empty), None);
}

#[test]
fn get_mut_changes_one_value_only() {
    let mut arena = Arena::new();
    let first = RefCount::new(&mut arena, 1i32);
    let second = RefCount::new(&mut arena, 2i32);

    *second.get_mut(&mut arena) = 7;

    assert_eq!(*first.get(&arena), 1);
    assert_eq!(*second.get(&arena), 7);
}
