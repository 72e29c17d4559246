use linked_stack::{Stack, Tile};

#[test]
fn basics() {
    let mut stack = Stack::<u8>::new();
    stack.push(3);
    stack.push(6);
    stack.push(9);
    assert_eq!(3, stack.size);
    assert_eq!(Some(&9), stack.peek());
    assert_eq!(Some(9), stack.pop());
    assert_eq!(Some(2), stack.search(6));
    assert_eq!(2, stack.size);
    assert_eq!(Some(6), stack.pop());
    assert_eq!(Some(&3), stack.peek());
    assert_eq!(3, stack.head.unwrap().as_ref().value);
}

#[test]
fn new_stack_is_empty() {
    let mut stack = Stack::<i32>::new();
    assert_eq!(0, stack.size);
    assert!(stack.head.is_none());
    assert_eq!(None, stack.peek());
    assert_eq!(None, stack.pop());
}

#[test]
fn positions_count_from_the_bottom() {
    let mut stack = Stack::<u32>::new();
    stack.push(3);
    stack.push(6);
    stack.push(9);
    assert_eq!(Some(2), stack.search(6));
    assert_eq!(3, stack.size);
    assert_eq!(Some(9), stack.pop());
    assert_eq!(2, stack.size);
    assert_eq!(Some(&6), stack.peek());
}

#[test]
fn push_pop_search_in_turn() {
    let mut stack = Stack::<u64>::new();
    stack.push(3);
    stack.push(6);
    stack.push(9);
    assert_eq!(3, stack.size);
    assert_eq!(Some(&9), stack.peek());
    assert_eq!(Some(9), stack.pop());
    assert_eq!(Some(2), stack.search(6));
    assert_eq!(2, stack.size);
    assert_eq!(Some(6), stack.pop());
    assert_eq!(Some(&3), stack.peek());
    assert_eq!(1, stack.size);
    assert_eq!(Some(3), stack.pop());
    assert_eq!(0, stack.size);
    assert!(stack.head.is_none());
    assert_eq!(None, stack.pop());
}

#[test]
fn search_gives_top_and_bottom_positions() {
    let mut stack = Stack::<u8>::new();
    stack.push(10);
    stack.push(20);
    stack.push(30);
    stack.push(40);
    assert_eq!(Some(4), stack.search(40));
    assert_eq!(Some(3), stack.search(30));
    assert_eq!(Some(2), stack.search(20));
    assert_eq!(Some(1), stack.search(10));
    assert_eq!(4, stack.size);
}

#[test]
fn search_reports_the_topmost_of_equal_elements() {
    let mut stack = Stack::<char>::new();
    stack.push('a');
    stack.push('b');
    stack.push('a');
    stack.push('c');
    assert_eq!(Some(3), stack.search('a'));
    assert_eq!(Some(2), stack.search('b'));
    assert_eq!(Some('c'), stack.pop());
    assert_eq!(Some('a'), stack.pop());
    assert_eq!(Some(1), stack.search('a'));
}

#[test]
fn search_for_a_missing_value_finds_nothing() {
    let mut stack = Stack::<i64>::new();
    stack.push(-1);
    stack.push(0);
    stack.push(1);
    assert_eq!(None, stack.search(2));
    assert_eq!(3, stack.size);
    assert_eq!(Some(&1), stack.peek());
}

#[test]
fn search_takes_elements_that_are_not_copied() {
    let mut stack = Stack::<String>::new();
    stack.push(String::from("low"));
    stack.push(String::from("mid"));
    stack.push(String::from("high"));
    assert_eq!(Some(1), stack.search(String::from("low")));
    assert_eq!(Some(3), stack.search(String::from("high")));
    assert_eq!(None, stack.search(String::from("none")));
    assert_eq!(Some(String::from("high")), stack.pop());
    assert_eq!(Some(&String::from("mid")), stack.peek());
}

#[test]
fn tile_new_has_nothing_below() {
    let tile = Tile::new(7u16);
    assert_eq!(7, tile.value);
    assert!(tile.next.is_none());
}

#[test]
fn stack_built_on_a_single_tile() {
    let mut stack = Stack { head: Some(Box::new(Tile::new(5u8))), size: 1 };
    assert_eq!(Some(&5), stack.peek());
    assert_eq!(Some(1), stack.search(5));
    stack.push(8);
    assert_eq!(2, stack.size);
    assert_eq!(Some(2), stack.search(8));
    assert_eq!(Some(8), stack.pop());
    assert_eq!(Some(5), stack.pop());
    assert_eq!(None, stack.pop());
    assert_eq!(0, stack.size);
}
