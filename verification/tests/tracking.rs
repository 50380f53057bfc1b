//! Tests of the runtime tracking behaviour: structures written out the
//! way the generator emits them, with the bitmask operations of the
//! library behind every generated method body.

use struct_tracker::mask::{bit_mask, ChangeMask};
use struct_tracker::IntWidth;

#[derive(Debug, PartialEq)]
enum NoCopy {
    Do,
    Not,
    _Copy,
}

impl Default for NoCopy {
    fn default() -> Self {
        NoCopy::Do
    }
}

struct Empty {
    tracker: ChangeMask,
}

impl Empty {
    fn track_all() -> u128 {
        IntWidth::W8.all_ones()
    }

    fn changed(&self, mask: u128) -> bool {
        self.tracker.changed(mask)
    }

    fn reset(&mut self) {
        self.tracker.reset()
    }
}

// The field list of the tracked structure: x, y, _z, a (do_not_track),
// b, c (no_eq), _d, _e (do_not_track), _o, no_copy (no_eq).  The tracked
// fields x, y, _z, b, c, _d, _o, no_copy get bits 0..=7; eight tracked
// fields pick the 8-bit width.
struct Test {
    x: u8,
    y: u8,
    _z: u8,
    a: u8,
    b: u8,
    c: u8,
    _d: u8,
    _e: u8,
    _o: Option<u128>,
    no_copy: NoCopy,
    tracker: ChangeMask,
}

impl Default for Test {
    fn default() -> Self {
        Test {
            x: 0,
            y: 0,
            _z: 0,
            a: 0,
            b: 0,
            c: 0,
            _d: 0,
            _e: 0,
            _o: None,
            no_copy: NoCopy::default(),
            tracker: ChangeMask::new(IntWidth::W8),
        }
    }
}

impl Test {
    fn x() -> u128 {
        bit_mask(0)
    }

    fn y() -> u128 {
        bit_mask(1)
    }

    fn b() -> u128 {
        bit_mask(3)
    }

    fn c() -> u128 {
        bit_mask(4)
    }

    fn no_copy() -> u128 {
        bit_mask(7)
    }

    fn track_all() -> u128 {
        IntWidth::W8.all_ones()
    }

    fn changed(&self, mask: u128) -> bool {
        self.tracker.changed(mask)
    }

    fn reset(&mut self) {
        self.tracker.reset()
    }

    fn get_x(&self) -> &u8 {
        &self.x
    }

    fn get_b(&self) -> &u8 {
        &self.b
    }

    fn get_no_copy(&self) -> &NoCopy {
        &self.no_copy
    }

    fn get_mut_y(&mut self) -> &mut u8 {
        self.tracker.mark(Self::y());
        &mut self.y
    }

    fn update_no_copy<F: FnOnce(&mut NoCopy)>(&mut self, f: F) {
        self.tracker.mark(Self::no_copy());
        f(&mut self.no_copy);
    }

    fn set_b(&mut self, value: u8) {
        self.tracker.record_set(Self::b(), false, self.b == value);
        self.b = value;
    }

    fn set_c(&mut self, value: u8) {
        self.tracker.record_set(Self::c(), true, false);
        self.c = value;
    }
}

struct Generic<T: std::fmt::Debug> {
    test: T,
    int: u8,
    tracker: ChangeMask,
}

impl<T: std::fmt::Debug> Generic<T> {
    fn test() -> u128 {
        bit_mask(0)
    }

    fn changed(&self, mask: u128) -> bool {
        self.tracker.changed(mask)
    }

    fn set_test(&mut self, value: T) {
        self.tracker.record_set(Self::test(), true, false);
        self.test = value;
    }
}

#[test]
fn test_all() {
    let mut empty = Empty { tracker: ChangeMask::with_bits(IntWidth::W8, 1) };
    assert!(empty.changed(Empty::track_all()));
    empty.reset();

    let mut t = Test::default();
    t.set_b(10);
    assert_eq!(10, *t.get_b());
    // b should be 2^3 because a is ignored
    assert!(t.changed(8));

    t.set_c(10);
    assert!(t.changed(Test::c()));

    t.reset();

    // b and c are already 10. But only for b eq is checked and no change bit is set.
    t.set_b(10);
    t.set_c(10);
    assert!(!t.changed(Test::b()));
    assert!(t.changed(Test::c()));
    assert!(t.changed(Test::track_all()));

    t.reset();

    t.update_no_copy(|no_copy| {
        *no_copy = NoCopy::Not;
    });
    assert_eq!(*t.get_no_copy(), NoCopy::Not);
    assert!(t.changed(Test::no_copy()));

    t.get_x();
    assert!(!t.changed(Test::x()));

    t.get_mut_y();
    assert!(t.changed(Test::y()));

    t.reset();

    t.a = 10;
    assert!(!t.changed(Test::track_all()));

    let mut g = Generic { test: 0u8, int: 1, tracker: ChangeMask::new(IntWidth::W8) };

    g.set_test(1);
    assert!(g.changed(Generic::<u8>::test()));
}

// Two tracked byte fields, bitmask starting at zero: setting y marks y
// and only y; reset clears the record.
struct Pair {
    x: u8,
    y: u8,
    tracker: ChangeMask,
}

impl Pair {
    fn x() -> u128 {
        bit_mask(0)
    }

    fn y() -> u128 {
        bit_mask(1)
    }

    fn get_y(&self) -> &u8 {
        &self.y
    }

    fn set_y(&mut self, value: u8) {
        self.tracker.record_set(Self::y(), false, self.y == value);
        self.y = value;
    }

    fn changed_x(&self) -> bool {
        self.tracker.changed(Self::x())
    }

    fn changed_y(&self) -> bool {
        self.tracker.changed(Self::y())
    }

    fn changed_any(&self) -> bool {
        self.tracker.changed_any()
    }

    fn reset(&mut self) {
        self.tracker.reset()
    }
}

#[test]
fn scenario_two_tracked_bytes() {
    let mut p = Pair { x: 0, y: 0, tracker: ChangeMask::with_bits(IntWidth::W8, 0) };
    p.set_y(10);
    assert_eq!(*p.get_y(), 10);
    assert!(p.changed_y());
    assert!(!p.changed_x());
    assert!(p.changed_any());
    p.reset();
    assert!(!p.changed_any());
}

#[test]
fn scenario_no_eq_marks_on_equal_value() {
    // Field c is marked no_eq and currently holds 10; setting it to 10
    // again still marks it changed.
    let mut t = Test::default();
    t.c = 10;
    t.reset();
    t.set_c(10);
    assert!(t.changed(Test::c()));
}

#[test]
fn scenario_excluded_field_mutation_is_invisible() {
    // Field a is marked do_not_track: mutating it directly never sets a
    // tracking bit.
    let mut t = Test::default();
    t.a = 77;
    t.a += 1;
    assert!(!t.changed(Test::track_all()));
    assert!(!t.tracker.changed_any());
}

#[test]
fn equality_gated_set_is_idempotent() {
    let mut p = Pair { x: 0, y: 5, tracker: ChangeMask::new(IntWidth::W8) };
    p.set_y(5);
    assert!(!p.changed_y());
    p.set_y(5);
    assert!(!p.changed_y());
    p.set_y(6);
    assert!(p.changed_y());
}

#[test]
fn mask_composition_matches_single_queries() {
    let mut p = Pair { x: 0, y: 0, tracker: ChangeMask::new(IntWidth::W8) };
    p.set_y(3);
    let combined = Pair::x() | Pair::y();
    assert!(p.tracker.changed(combined));
    assert!(!p.changed_x() && p.changed_y());
    p.reset();
    assert!(!p.tracker.changed(combined));
}

#[test]
fn mark_all_and_track_all() {
    let mut m = ChangeMask::new(IntWidth::W16);
    assert!(!m.changed_any());
    assert_eq!(m.track_all(), 0xffff);
    m.mark_all_changed();
    assert!(m.changed_any());
    assert!(m.changed(bit_mask(15)));
    m.reset();
    assert!(!m.changed(m.track_all()));
    assert!(!m.changed_any());
}

#[test]
fn bit_masks_are_single_shifted_bits() {
    assert_eq!(bit_mask(0), 1);
    assert_eq!(bit_mask(3), 8);
    assert_eq!(bit_mask(7), 128);
    assert_eq!(bit_mask(127), 1u128 << 127);
}
