use manfob::man::Man;
use std::cell::Cell;
use std::rc::Rc;

/// Counts how often values of it are destroyed.
struct Counted {
    drops: Rc<Cell<u32>>,
    tag: u32,
}

impl Drop for Counted {
    fn drop(&mut self) {
        self.drops.set(self.drops.get() + 1);
    }
}

#[test]
pub fn test_man_dereference() {
    let p = Man::new(42);
    assert_eq!(*p.as_ref(), 42);
    p.free()
}

#[test]
pub fn test_man_string() {
    let p = Man::new(String::from("foobar"));
    assert_eq!(p.as_ref().as_str(), "foobar");
    p.free()
}

#[test]
pub fn test_man_big_drop() {
    const KILOBYTE: usize = 1024;
    // Sixty-four gigabytes in all: without the release in each round the
    // heap would run out on most machines.
    for _ in 0..(64 * 1024 * 1024) {
        let p = Man::new(Box::new([0u8; KILOBYTE]));
        p.free();
    }
}

#[test]
fn free_destroys_the_value_exactly_once() {
    let drops = Rc::new(Cell::new(0));
    let p = Man::new(Counted { drops: drops.clone(), tag: 7 });
    assert_eq!(drops.get(), 0);
    assert_eq!(p.as_ref().tag, 7);
    p.free();
    assert_eq!(drops.get(), 1);
}

#[test]
fn new_does_not_destroy_the_moved_value() {
    let drops = Rc::new(Cell::new(0));
    let value = Counted { drops: drops.clone(), tag: 1 };
    let p = Man::new(value);
    assert_eq!(drops.get(), 0);
    p.free();
    assert_eq!(drops.get(), 1);
}

#[test]
fn a_handle_that_is_not_freed_keeps_its_value_alive() {
    let drops = Rc::new(Cell::new(0));
    {
        let p = Man::new(Counted { drops: drops.clone(), tag: 3 });
        assert_eq!(p.as_ref().tag, 3);
    }
    assert_eq!(drops.get(), 0);
}

#[test]
fn as_mut_writes_through() {
    let mut p = Man::new(1u64);
    *p.as_mut() = 99;
    assert_eq!(*p.as_ref(), 99);
    *p.as_mut() += 1;
    assert_eq!(*p.as_ref(), 100);
    p.free();
}

#[test]
fn as_mut_edits_a_string_in_place() {
    let mut p = Man::new(String::from("foo"));
    p.as_mut().push_str("bar");
    assert_eq!(p.as_ref().as_str(), "foobar");
    p.free();
}

#[test]
fn clone_is_an_independent_copy() {
    let mut a = Man::new(String::from("left"));
    let b = a.clone();
    a.as_mut().push_str("-changed");
    assert_eq!(a.as_ref().as_str(), "left-changed");
    assert_eq!(b.as_ref().as_str(), "left");
    a.free();
    assert_eq!(b.as_ref().as_str(), "left");
    b.free();
}

#[test]
fn clone_and_source_are_destroyed_separately() {
    let drops = Rc::new(Cell::new(0));
    let a = Man::new(drops.clone());
    let b = a.clone();
    assert_eq!(Rc::strong_count(&drops), 3);
    a.free();
    assert_eq!(Rc::strong_count(&drops), 2);
    b.free();
    assert_eq!(Rc::strong_count(&drops), 1);
}

#[test]
fn repeated_create_and_free_destroys_each_value() {
    let drops = Rc::new(Cell::new(0));
    for round in 0..1000u32 {
        let p = Man::new(Counted { drops: drops.clone(), tag: round });
        assert_eq!(p.as_ref().tag, round);
        p.free();
        assert_eq!(drops.get(), round + 1);
    }
}

#[test]
fn zero_sized_values_are_held_too() {
    let p = Man::new(());
    assert_eq!(*p.as_ref(), ());
    p.free();
}

fn read_through<H: AsRef<u32>>(handle: &H) -> u32 {
    *handle.as_ref()
}

fn bump_through<H: AsMut<u32>>(handle: &mut H) {
    *handle.as_mut() += 1;
}

#[test]
fn the_handle_serves_generic_borrowers() {
    let mut p = Man::new(10u32);
    assert_eq!(read_through(&p), 10);
    bump_through(&mut p);
    assert_eq!(read_through(&p), 11);
    assert_eq!(*p.as_ref(), 11);
    p.free();
}
