use append_vec::linked_list::LinkedListVec;
use std::cell::Cell;
use std::rc::Rc;

/// An element that counts how often it is constructed and dropped, to
/// check that the node chain is reclaimed exactly once, with no leak and
/// no double free.
struct ChainProbe {
    drops: Rc<Cell<usize>>,
}

impl ChainProbe {
    fn new(made: &Rc<Cell<usize>>, drops: &Rc<Cell<usize>>) -> ChainProbe {
        made.set(made.get() + 1);
        ChainProbe { drops: Rc::clone(drops) }
    }
}

impl Drop for ChainProbe {
    fn drop(&mut self) {
        self.drops.set(self.drops.get() + 1);
    }
}

#[test]
fn linked_list_it_works() {
    let mut vec = LinkedListVec::new();

    // Five writers, each committing its own id five times; their pushes
    // are interleaved round-robin.
    for _round in 0..5 {
        for writer_id in 0..5 {
            vec.push(writer_id);
        }
    }

    assert_eq!(vec.len(), 25);
    let mut counter = [0_usize; 5];
    for idx in 0..25 {
        let num = *vec.get(idx).unwrap();
        counter[num as usize] += 1;
    }

    for item in counter {
        assert_eq!(item, 5);
    }
}

#[test]
fn linked_list_get_beyond_len_is_absent() {
    let mut vec = LinkedListVec::new();
    vec.push(1_u64);
    vec.push(2);
    vec.push(3);

    assert_eq!(vec.len(), 3);
    assert!(vec.get(3).is_none());
    assert!(vec.get(100).is_none());
    assert!(vec.get(usize::MAX).is_none());
}

#[test]
fn linked_list_get_twice_same_value() {
    let mut vec = LinkedListVec::new();
    vec.push(42_u8);
    vec.push(43);

    let first = *vec.get(1).unwrap();
    let second = *vec.get(1).unwrap();
    assert_eq!(first, 43);
    assert_eq!(second, 43);
}

#[test]
fn linked_list_positions_are_write_once() {
    let mut vec = LinkedListVec::new();
    for value in [11_u32, 22, 33, 44] {
        vec.push(value);
    }

    // Repeated walks of the chain keep yielding the same value at each
    // position, and no value shows up at two positions.
    let first_pass: Vec<u32> = (0..4).map(|i| *vec.get(i).unwrap()).collect();
    let second_pass: Vec<u32> = (0..4).map(|i| *vec.get(i).unwrap()).collect();
    assert_eq!(first_pass, vec![11, 22, 33, 44]);
    assert_eq!(first_pass, second_pass);
}

#[test]
fn linked_list_starts_empty() {
    let vec: LinkedListVec<i32> = LinkedListVec::new();
    assert_eq!(vec.len(), 0);
    assert!(vec.get(0).is_none());
}

#[test]
fn linked_list_order_within_one_writer_is_kept() {
    let mut vec = LinkedListVec::new();
    vec.push("first");
    vec.push("second");
    vec.push("third");

    assert_eq!(vec.get(0), Some(&"first"));
    assert_eq!(vec.get(1), Some(&"second"));
    assert_eq!(vec.get(2), Some(&"third"));
}

#[test]
fn linked_list_drop_reclaims_each_node_once() {
    let made = Rc::new(Cell::new(0));
    let drops = Rc::new(Cell::new(0));

    {
        let mut vec = LinkedListVec::new();
        for _ in 0..10 {
            vec.push(ChainProbe::new(&made, &drops));
        }
        assert_eq!(made.get(), 10);
        assert_eq!(drops.get(), 0);
    }

    // Every node from head to tail was reclaimed exactly once.
    assert_eq!(drops.get(), made.get());
}
