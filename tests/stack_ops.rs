use rustwm::stack::Stack;

fn stack_of(items: &[u64]) -> Stack<u64> {
    let mut s = Stack::new();
    for &i in items {
        s.push(i);
    }
    s
}

#[test]
fn push_focuses_first_item_only() {
    let mut s: Stack<u64> = Stack::new();
    assert_eq!(s.focused(), None);
    s.push(10);
    assert_eq!(s.focused(), Some(&10));
    s.push(20);
    assert_eq!(s.focused(), Some(&10));
    assert_eq!(s.len(), 2);
}

#[test]
fn remove_focused_prefers_previous() {
    let mut s = stack_of(&[1, 2, 3]);
    s.focus(2);
    assert_eq!(s.remove(2), 3);
    assert_eq!(s.focused(), Some(&2));
}

#[test]
fn remove_focused_first_takes_next() {
    let mut s = stack_of(&[1, 2, 3]);
    s.remove(0);
    assert_eq!(s.focused(), Some(&2));
    assert_eq!(s.items, vec![2, 3]);
}

#[test]
fn remove_last_item_leaves_no_focus() {
    let mut s = stack_of(&[7]);
    s.remove(0);
    assert_eq!(s.focused(), None);
    assert_eq!(s.len(), 0);
}

#[test]
fn remove_before_focus_keeps_focused_item() {
    let mut s = stack_of(&[1, 2, 3]);
    s.focus(2);
    s.remove(0);
    assert_eq!(s.focused(), Some(&3));
}

#[test]
fn focus_next_wraps_around() {
    let mut s = stack_of(&[1, 2, 3]);
    s.focus(2);
    s.focus_next();
    assert_eq!(s.focused(), Some(&1));
    s.focus_previous();
    assert_eq!(s.focused(), Some(&3));
}

#[test]
fn focus_full_cycle_is_identity() {
    let mut s = stack_of(&[1, 2, 3, 4]);
    s.focus(1);
    for _ in 0..4 {
        s.focus_next();
    }
    assert_eq!(s.focused(), Some(&2));
    for _ in 0..4 {
        s.focus_previous();
    }
    assert_eq!(s.focused(), Some(&2));
}

#[test]
fn focus_moves_on_empty_stack_do_nothing() {
    let mut s: Stack<u64> = Stack::new();
    s.focus_next();
    s.focus_previous();
    s.shuffle_next();
    s.shuffle_previous();
    assert_eq!(s.focused(), None);
    assert_eq!(s.len(), 0);
}

#[test]
fn shuffle_next_swaps_with_neighbour() {
    let mut s = stack_of(&[1, 2, 3]);
    s.shuffle_next();
    assert_eq!(s.items, vec![2, 1, 3]);
    assert_eq!(s.focused(), Some(&1));
}

#[test]
fn shuffle_wraps_at_the_ends() {
    let mut s = stack_of(&[1, 2, 3]);
    s.focus(2);
    s.shuffle_next();
    assert_eq!(s.items, vec![3, 2, 1]);
    assert_eq!(s.focused(), Some(&3));
    s.shuffle_previous();
    assert_eq!(s.items, vec![1, 2, 3]);
    assert_eq!(s.focused(), Some(&3));
}
