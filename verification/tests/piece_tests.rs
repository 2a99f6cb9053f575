use tetris::commons::Rotation;
use tetris::component::dyn_block::DynBlockHandler;
use tetris::config::{ActionBinding, AxisBinding, Block, BlocksConfig, Offset};

fn handler_with(offset: Option<Offset>, sub_offset: Option<Offset>) -> DynBlockHandler {
    let mut h = DynBlockHandler::default();
    h.config = Block { locations: vec![], origin: 0, offset, sub_offset };
    h
}

#[test]
fn default_handler_is_upright_and_empty() {
    let h = DynBlockHandler::default();
    assert!(h.blocks.is_empty());
    assert_eq!(h.parent, None);
    assert_eq!(h.rotation, Rotation::Up);
    assert_eq!(h.config.origin, 0);
}

#[test]
fn turning_right_cycles_through_the_orientations() {
    let mut h = DynBlockHandler::default();
    h.rotate_handler(Rotation::Right);
    assert_eq!(h.rotation, Rotation::Right);
    h.rotate_handler(Rotation::Right);
    assert_eq!(h.rotation, Rotation::Down);
    h.rotate_handler(Rotation::Right);
    assert_eq!(h.rotation, Rotation::Left);
    h.rotate_handler(Rotation::Right);
    assert_eq!(h.rotation, Rotation::Up);
}

#[test]
fn a_turn_is_undone_by_the_opposite_turn() {
    for start in [Rotation::Up, Rotation::Right, Rotation::Down, Rotation::Left, Rotation::Still] {
        let mut h = DynBlockHandler::default();
        h.rotation = start;
        h.rotate_handler(Rotation::Left);
        h.rotate_handler(Rotation::Right);
        assert_eq!(h.rotation, start);
    }
    let mut h = DynBlockHandler::default();
    h.rotate_handler(Rotation::Down);
    assert_eq!(h.rotation, Rotation::Up);
}

#[test]
fn main_spans_follow_the_orientation() {
    let o = Offset { right_rotate: (-1, 2), left_rotate: (-2, 1) };
    let mut h = handler_with(Some(o), None);
    assert_eq!(h.get_count(Rotation::Right), (-1, 2));
    assert_eq!(h.get_count(Rotation::Left), (-2, 1));
    assert_eq!(h.get_count(Rotation::Up), (0, 0));
    h.rotation = Rotation::Right;
    assert_eq!(h.get_count(Rotation::Right), (-2, 1));
    h.rotation = Rotation::Down;
    assert_eq!(h.get_count(Rotation::Left), (-1, 2));
    h.rotation = Rotation::Left;
    assert_eq!(h.get_count(Rotation::Right), (-1, 2));
    h.rotation = Rotation::Still;
    assert_eq!(h.get_count(Rotation::Right), (0, 0));
    let none = handler_with(None, None);
    assert_eq!(none.get_count(Rotation::Right), (0, 0));
}

#[test]
fn secondary_spans_follow_the_orientation() {
    let o = Offset { right_rotate: (0, 3), left_rotate: (1, 2) };
    let mut h = handler_with(None, Some(o));
    assert_eq!(h.get_sub_count(Rotation::Right), (0, 3));
    assert_eq!(h.get_sub_count(Rotation::Left), (1, 2));
    h.rotation = Rotation::Left;
    assert_eq!(h.get_sub_count(Rotation::Right), (-3, 0));
    assert_eq!(h.get_sub_count(Rotation::Left), (-2, -1));
    h.rotation = Rotation::Down;
    assert_eq!(h.get_sub_count(Rotation::Right), (0, 3));
    assert_eq!(h.get_sub_count(Rotation::Left), (-2, -1));
    h.rotation = Rotation::Right;
    assert_eq!(h.get_sub_count(Rotation::Left), (1, 2));
    assert_eq!(handler_with(None, None).get_sub_count(Rotation::Right), (0, 0));
}

#[test]
fn spans_of_extreme_offsets_do_not_overflow() {
    let o = Offset { right_rotate: (i32::MIN, i32::MAX), left_rotate: (0, 0) };
    let mut h = handler_with(Some(o), None);
    h.rotation = Rotation::Right;
    assert_eq!(h.get_count(Rotation::Right), (-(i32::MAX as i64), -(i32::MIN as i64)));
}

#[test]
fn blocks_config_new_holds_one_default_shape() {
    let c = BlocksConfig::new();
    assert_eq!(c.blocks.len(), 1);
    assert!(c.blocks[0].locations.is_empty());
    assert_eq!(c.blocks[0].origin, 0);
    assert!(c.blocks[0].offset.is_none());
    assert!(c.blocks[0].sub_offset.is_none());
    assert!(BlocksConfig::default().blocks.is_empty());
}

#[test]
fn shape_duplicate_keeps_every_field() {
    let b = Block {
        locations: vec![(0, 0), (45, 0)],
        origin: 1,
        offset: Some(Offset { right_rotate: (1, 2), left_rotate: (3, 4) }),
        sub_offset: None,
    };
    let d = b.duplicate();
    assert_eq!(d.locations, b.locations);
    assert_eq!(d.origin, 1);
    assert_eq!(d.offset.unwrap().left_rotate, (3, 4));
}

#[test]
fn binding_names() {
    assert_eq!(AxisBinding::Horizontal.to_display_string(), "Horizontal");
    assert_eq!(AxisBinding::Vertical.to_display_string(), "Vertical");
    assert_eq!(ActionBinding::Shoot.to_display_string(), "Shoot");
    assert_eq!(ActionBinding::RotateRight.to_display_string(), "RotateRight");
    assert_eq!(ActionBinding::RotateLeft.to_display_string(), "RotateLeft");
    assert_eq!(ActionBinding::Debug.to_display_string(), "Debug");
    assert_eq!(ActionBinding::NoGrav.to_display_string(), "NoGrav");
}
