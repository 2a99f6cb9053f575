use tetris::commons::Rotation;
use tetris::system::env_allocator::EnvAllocator;
use tetris::world::blockage::Blockage;
use tetris::world::input_cache::{AxisType, InputCache};
use tetris::world::physics_queue::PhysicsQueue;
use tetris::world::score_text::ScoreText;
use tetris::text::{decimal_string, zero_padded_string};

#[test]
fn queue_keeps_translations_in_order() {
    let mut q = PhysicsQueue::default();
    assert_eq!(q.get_queue(), None);
    q.add_to_queue((45, 0));
    q.add_to_queue((0, -45));
    assert_eq!(q.get_queue(), Some(vec![(45, 0), (0, -45)]));
}

#[test]
fn spans_are_read_back() {
    let mut q = PhysicsQueue::default();
    assert_eq!(q.get_offset(), (0, 0));
    assert_eq!(q.get_sub_offset(), (0, 0));
    q.set_offset((-1, 2));
    q.set_sub_offset((3, 4));
    assert_eq!(q.get_offset(), (-1, 2));
    assert_eq!(q.get_sub_offset(), (3, 4));
}

#[test]
fn turn_request_forgets_earlier_requests() {
    let mut q = PhysicsQueue::default();
    q.add_to_queue((45, 0));
    q.set_offset((1, 1));
    q.set_shoot(true);
    q.set_rotation(Rotation::Left);
    assert_eq!(q.get_rotation(), Some(Rotation::Left));
    assert_eq!(q.get_queue(), None);
    assert_eq!(q.get_offset(), (0, 0));
    assert!(!q.get_shoot());
}

#[test]
fn shot_drops_other_requests() {
    let mut q = PhysicsQueue::default();
    q.add_to_queue((45, 0));
    assert!(!q.shoot_check());
    assert_eq!(q.get_queue(), Some(vec![(45, 0)]));
    q.set_shoot(true);
    q.set_offset((1, 2));
    assert!(q.shoot_check());
    assert_eq!(q.get_queue(), None);
    assert_eq!(q.get_offset(), (0, 0));
    assert!(q.get_shoot());
    assert!(q.shoot_check());
    q.clear();
    assert!(!q.get_shoot());
}

#[test]
fn blockage_clear_and_block_rotation() {
    let mut b = Blockage::default();
    b.axis_down = true;
    b.rotate_left = true;
    b.rotate_right = true;
    b.block_rotation();
    assert!(b.axis_down && !b.rotate_left && !b.rotate_right);
    b.clear();
    assert!(!b.axis_down && !b.axis_left && !b.axis_right && !b.shoot);
}

#[test]
fn input_cache_takes_the_first_request() {
    let mut c = InputCache::default();
    c.update_input(1, -1, true, true, true);
    assert_eq!(c.axis, AxisType::Right);
    assert_eq!(c.rotation, Rotation::Still);
    assert!(!c.shoot);
    let mut c = InputCache::default();
    c.update_input(0, -1, true, false, false);
    assert_eq!(c.axis, AxisType::Down);
    assert_eq!(c.rotation, Rotation::Still);
    let mut c = InputCache::default();
    c.update_input(0, 1, false, true, true);
    assert_eq!(c.axis, AxisType::Still);
    assert_eq!(c.rotation, Rotation::Left);
    assert!(!c.shoot);
    c.update_input(0, 0, false, false, true);
    assert_eq!(c.rotation, Rotation::Left);
    assert!(c.shoot);
    c.update_input(-1, 0, false, false, false);
    assert_eq!(c.axis, AxisType::Left);
    c.clear();
    assert_eq!(c.axis, AxisType::Still);
    assert_eq!(c.rotation, Rotation::Still);
    assert!(!c.shoot);
}

#[test]
fn env_allocator_resets_the_frame() {
    let mut c = InputCache::default();
    c.update_input(1, 0, false, false, false);
    let mut q = PhysicsQueue::default();
    q.add_to_queue((45, 0));
    let mut b = Blockage::default();
    b.shoot = true;
    EnvAllocator.run(&mut c, &mut q, &mut b);
    assert_eq!(c.axis, AxisType::Still);
    assert_eq!(q.get_queue(), None);
    assert!(!b.shoot);
}

#[test]
fn score_text_is_padded_to_six_digits() {
    let mut s = ScoreText::new();
    assert_eq!(s.score, 0);
    assert_eq!(s.score_text, "000000");
    s.add_score(1000);
    assert_eq!(s.score, 1000);
    assert_eq!(s.score_text, "001000");
    s.add_score(1_234_567 - 1000);
    assert_eq!(s.score_text, "1234567");
    s.add_score(-1_234_572);
    assert_eq!(s.score, -5);
    assert_eq!(s.score_text, "-00005");
}

#[test]
fn decimal_rendering_matches_format() {
    for v in [0i64, 7, -7, 10, 45, -900, i64::MAX, i64::MIN, 1_000_000] {
        assert_eq!(decimal_string(v), format!("{}", v));
        assert_eq!(zero_padded_string(v, 6), format!("{:06}", v));
    }
    assert_eq!(zero_padded_string(42, 0), "42");
}
