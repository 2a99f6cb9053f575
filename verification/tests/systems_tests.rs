use tetris::commons::Rotation;
use tetris::component::dyn_block::DynBlockHandler;
use tetris::config::{Block, BlocksConfig, Offset};
use tetris::events::GameEvent;
use tetris::system::gravity_system::{Gravity, GravitySystem};
use tetris::system::keyinput_system::{KeyInputSystem, KeyPressType, KeyStatus};
use tetris::system::physics_allocator::PhysicsAllocator;
use tetris::system::physics_executor::PhysicsExecutor;
use tetris::system::physics_system::{OffsetType, PhysicsOutcome, PhysicsSystem};
use tetris::system::put_inside::PutInsideSystem;
use tetris::system::spawner_system::SpawnerSystem;
use tetris::system::stack_system::StackSystem;
use tetris::world::block_data::BlockData;
use tetris::world::blockage::Blockage;
use tetris::world::input_cache::{AxisType, InputCache};
use tetris::world::physics_queue::PhysicsQueue;

fn piece(blocks: usize) -> DynBlockHandler {
    let mut h = DynBlockHandler::default();
    h.blocks = (0..blocks as u32).collect();
    h.parent = Some(99);
    h
}

fn input(axis: AxisType, rotation: Rotation, shoot: bool) -> InputCache {
    InputCache { axis, rotation, shoot }
}

#[test]
fn gravity_drops_the_piece_when_the_delay_is_over() {
    let mut g = GravitySystem::new();
    let mut q = PhysicsQueue::default();
    assert!(!g.run(None, 600_000, &mut q));
    assert_eq!(g.time_delay, 600_000);
    assert!(g.run(Some(Gravity::Idle), 400_000, &mut q));
    assert_eq!(q.get_queue(), Some(vec![(0, -45)]));
    assert_eq!(g.time_delay, 0);
    assert_eq!(g.move_delay, 995_000);
}

#[test]
fn gravity_reset_restarts_the_wait() {
    let mut g = GravitySystem::new();
    let mut q = PhysicsQueue::default();
    assert!(!g.run(None, 900_000, &mut q));
    assert!(!g.run(Some(Gravity::Reset), 900_000, &mut q));
    assert_eq!(g.time_delay, 900_000);
    assert_eq!(q.get_queue(), None);
}

#[test]
fn gravity_delay_stops_shortening() {
    let mut g = GravitySystem::new();
    g.move_delay = 300_000;
    let mut q = PhysicsQueue::default();
    assert!(g.run(None, 300_000, &mut q));
    assert_eq!(g.move_delay, 295_000);
    assert!(g.run(None, 300_000, &mut q));
    assert_eq!(g.move_delay, 295_000);
}

#[test]
fn key_states_click_then_hold() {
    let mut k = KeyStatus::default();
    k.update_right(false);
    assert_eq!(k.right_rotate, KeyPressType::Click);
    k.update_right(false);
    assert_eq!(k.right_rotate, KeyPressType::Hold);
    k.update_right(false);
    assert_eq!(k.right_rotate, KeyPressType::Hold);
    k.update_right(true);
    assert_eq!(k.right_rotate, KeyPressType::Released);
    k.update_left(false);
    assert_eq!(k.left_rotate, KeyPressType::Click);
    k.update_shoot(false);
    k.update_shoot(false);
    assert_eq!(k.shoot, KeyPressType::Hold);
    k.update_hor(1);
    assert_eq!(k.horizontal, KeyPressType::Click);
    k.update_hor(0);
    assert_eq!(k.horizontal, KeyPressType::Released);
    k.update_ver(-1);
    assert_eq!(k.vertical, KeyPressType::Click);
}

#[test]
fn held_turn_passes_once_and_held_axis_repeats_slowly() {
    let mut k = KeyInputSystem::new();
    let mut cache = InputCache::default();
    assert_eq!(k.run(&mut cache, 0, 0, true, false, false, 16_000), (0, 0, true, false, false));
    assert_eq!(cache.rotation, Rotation::Right);
    assert_eq!(k.run(&mut cache, 0, 0, true, false, false, 16_000), (0, 0, false, false, false));
    let mut k = KeyInputSystem::new();
    assert_eq!(k.run(&mut cache, 1, 0, false, false, false, 100_000).0, 1);
    assert_eq!(k.run(&mut cache, 1, 0, false, false, false, 100_000).0, 0);
    assert_eq!(k.axis_delay.0, 50_000);
    assert_eq!(k.run(&mut cache, 1, 0, false, false, false, 100_000).0, 0);
    assert_eq!(k.axis_delay.0, -50_000);
    assert_eq!(k.run(&mut cache, 1, 0, false, false, false, 100_000).0, 1);
    assert_eq!(k.axis_delay.0, 150_000);
}

#[test]
fn delay_hold_input_blocks_held_actions() {
    let mut k = KeyInputSystem::new();
    k.update_key_status(0, 0, true, true, true);
    k.update_key_status(0, 0, true, false, true);
    let (mut h, mut v, mut r, mut l, mut s) = (0, 0, true, true, true);
    k.delay_hold_input(&mut h, &mut v, &mut r, &mut l, &mut s, 10);
    assert!(!r);
    assert!(l);
    assert!(!s);
}

#[test]
fn physics_allocator_queues_the_input() {
    let mut h = piece(1);
    h.config.offset = Some(Offset { right_rotate: (-1, 2), left_rotate: (0, 1) });
    let mut q = PhysicsQueue::default();
    PhysicsAllocator.run(&h, &input(AxisType::Left, Rotation::Right, false), &mut q);
    assert_eq!(q.get_queue(), Some(vec![(-45, 0)]));
    assert_eq!(q.get_offset(), (-1, 2));
    assert_eq!(q.get_sub_offset(), (0, 0));
    let mut q = PhysicsQueue::default();
    PhysicsAllocator.run(&h, &input(AxisType::Down, Rotation::Still, true), &mut q);
    assert_eq!(q.get_queue(), Some(vec![(0, -45)]));
    q.set_shoot(true);
    PhysicsAllocator.run(&h, &input(AxisType::Down, Rotation::Still, false), &mut q);
    assert_eq!(q.get_queue(), None);
}

#[test]
fn put_inside_pushes_blocks_back() {
    let pushes = PutInsideSystem.run(&vec![450, -45, 200, 405, 0]);
    assert_eq!(pushes, vec![-45, 45, 0, 0, 0]);
}

#[test]
fn physics_moves_the_piece_right() {
    let data = BlockData::new();
    let mut h = piece(1);
    let mut blockage = Blockage::default();
    let mut q = PhysicsQueue::default();
    let mut p = PhysicsSystem::default();
    let out = p.run(&mut h, &input(AxisType::Right, Rotation::Still, false), &mut blockage, &mut q, &data, &vec![(90, 450)], (90, 450));
    match out {
        PhysicsOutcome::Moved { translations, rotation } => {
            assert_eq!(translations, vec![(45, 0)]);
            assert_eq!(rotation, Rotation::Still);
        }
        _ => panic!("expected a move"),
    }
    assert!(!blockage.axis_right);
}

#[test]
fn physics_stops_at_the_wall_and_on_the_floor() {
    let data = BlockData::new();
    let mut h = piece(1);
    let mut blockage = Blockage::default();
    let mut q = PhysicsQueue::default();
    q.add_to_queue((0, -45));
    let mut p = PhysicsSystem::default();
    let out = p.run(&mut h, &input(AxisType::Right, Rotation::Still, false), &mut blockage, &mut q, &data, &vec![(405, 45)], (405, 45));
    match out {
        PhysicsOutcome::Moved { translations, .. } => assert_eq!(translations, vec![(0, 0)]),
        _ => panic!("expected a move"),
    }
    assert!(blockage.axis_right);
    assert!(blockage.axis_down);
    assert!(blockage.shoot);
}

#[test]
fn physics_without_a_piece_is_idle() {
    let data = BlockData::new();
    let mut h = DynBlockHandler::default();
    let mut blockage = Blockage::default();
    let mut q = PhysicsQueue::default();
    let mut p = PhysicsSystem::default();
    let out = p.run(&mut h, &input(AxisType::Right, Rotation::Still, false), &mut blockage, &mut q, &data, &vec![], (0, 0));
    assert!(matches!(out, PhysicsOutcome::Idle));
    assert_eq!(q.get_queue(), None);
}

#[test]
fn physics_shoots_the_piece_down() {
    let mut data = BlockData::new();
    data.add_block(90, 45, 1).unwrap();
    let mut h = piece(2);
    let mut blockage = Blockage::default();
    let mut q = PhysicsQueue::default();
    let mut p = PhysicsSystem::default();
    let blocks = vec![(90, 450), (135, 450)];
    let out = p.run(&mut h, &input(AxisType::Still, Rotation::Still, true), &mut blockage, &mut q, &data, &blocks, (90, 450));
    match out {
        PhysicsOutcome::Shoot(dy) => assert_eq!(dy, -8 * 45),
        _ => panic!("expected a shot"),
    }
    assert_eq!(p.get_shoot_distance(&blocks, &data), 8 * 45);
}

#[test]
fn physics_turns_the_piece_when_free() {
    let data = BlockData::new();
    let mut h = piece(4);
    h.config.offset = Some(Offset { right_rotate: (-1, 2), left_rotate: (-2, 1) });
    let mut blockage = Blockage::default();
    let mut q = PhysicsQueue::default();
    let mut p = PhysicsSystem::default();
    let blocks = vec![(135, 450), (180, 450), (225, 450), (270, 450)];
    let out = p.run(&mut h, &input(AxisType::Still, Rotation::Right, false), &mut blockage, &mut q, &data, &blocks, (180, 450));
    match out {
        PhysicsOutcome::Moved { rotation, .. } => assert_eq!(rotation, Rotation::Right),
        _ => panic!("expected a move"),
    }
    assert_eq!(h.rotation, Rotation::Right);
}

#[test]
fn physics_refuses_a_turn_into_the_wall() {
    let data = BlockData::new();
    let mut h = piece(4);
    h.config.offset = Some(Offset { right_rotate: (-1, 2), left_rotate: (-2, 1) });
    let mut blockage = Blockage::default();
    let p = PhysicsSystem::default();
    p.check_rotataion_block(&h, (0, 450), &data, &mut blockage, OffsetType::Main);
    assert!(blockage.rotate_right);
    assert!(blockage.rotate_left);
    let mut blockage = Blockage::default();
    p.check_rotataion_block(&h, (180, 450), &data, &mut blockage, OffsetType::Main);
    assert!(!blockage.rotate_right);
    assert!(!blockage.rotate_left);
}

#[test]
fn set_blockage_filters_moves() {
    let p = PhysicsSystem::default();
    let mut b = Blockage::default();
    b.axis_left = true;
    b.rotate_right = true;
    let mut queue = vec![(-45, 0), (45, 0), (0, -45)];
    let mut rotation = Rotation::Right;
    p.set_blockage(&mut queue, &mut rotation, &b);
    assert_eq!(queue, vec![(45, 0), (0, -45)]);
    assert_eq!(rotation, Rotation::Still);
}

#[test]
fn executor_moves_and_turns() {
    let data = BlockData::new();
    let mut h = piece(1);
    let mut blockage = Blockage::default();
    let mut q = PhysicsQueue::default();
    let mut e = PhysicsExecutor;
    let out = e.run(&mut h, &input(AxisType::Left, Rotation::Still, false), &mut blockage, &mut q, &data, &vec![(180, 450)], (180, 450));
    match out {
        PhysicsOutcome::Moved { translations, rotation } => {
            assert_eq!(translations, vec![(-45, 0)]);
            assert_eq!(rotation, Rotation::Still);
        }
        _ => panic!("expected a move"),
    }
    let mut blockage = Blockage::default();
    e.check_axis_block(&vec![(405, 450)], &data, &mut blockage);
    assert!(blockage.rotate_right);
    assert!(!blockage.axis_right);
    assert_eq!(e.get_shoot_distance(&vec![]), 0);
}

#[test]
fn stacking_settles_after_the_rest() {
    let mut s = StackSystem::new();
    let h = piece(1);
    let q = PhysicsQueue::default();
    let mut b = Blockage::default();
    b.axis_down = true;
    let still = input(AxisType::Still, Rotation::Still, false);
    assert!(!s.advance(&h, &q, &b, &still, 100_000));
    assert!(!s.advance(&h, &q, &b, &still, 200_000));
    assert!(s.advance(&h, &q, &b, &still, 100_000));
}

#[test]
fn stacking_puts_blocks_and_ends_the_game_on_a_clash() {
    let mut s = StackSystem::new();
    let mut data = BlockData::new();
    data.add_block(0, 45, 7).unwrap();
    let mut h = piece(2);
    let mut event = GameEvent::Normal;
    let clashes = s.stack_blocks(&mut h, &vec![(45, 45), (0, 45)], &mut data, &mut event);
    assert_eq!(clashes, vec![(0, 0)]);
    assert_eq!(event, GameEvent::GameOver);
    assert_eq!(data.cell(0, 1), Some(0));
    assert_eq!(data.cell(0, 0), Some(7));
    assert!(h.blocks.is_empty());
    assert_eq!(h.parent, None);
}

#[test]
fn shot_settles_at_once() {
    let mut s = StackSystem::new();
    let h = piece(1);
    let mut q = PhysicsQueue::default();
    q.set_shoot(true);
    let mut b = Blockage::default();
    b.axis_down = true;
    assert!(s.advance(&h, &q, &b, &input(AxisType::Still, Rotation::Still, false), 0));
}

fn seven_shapes() -> BlocksConfig {
    let mut blocks = Vec::new();
    for k in 0..7i64 {
        blocks.push(Block { locations: vec![(0, 0), (45, 0), (90, k * 45)], origin: 1, offset: None, sub_offset: None });
    }
    BlocksConfig { blocks }
}

#[test]
fn spawn_plan_lays_out_the_piece() {
    let config = seven_shapes();
    let mut s = SpawnerSystem::default();
    let h = DynBlockHandler::default();
    let plan = s.plan(&h, &config, 3, 5).unwrap();
    assert_eq!(plan.block_index, 3);
    assert_eq!(plan.next_index, 5);
    assert_eq!(plan.removed_parent, None);
    assert_eq!(plan.block_positions, vec![(0, 0), (45, 0), (90, 135), (0, 0)]);
    assert_eq!(plan.parent_position, (270, 810));
    assert_eq!(plan.next_parent_position, (550, 675));
    let mut handler = DynBlockHandler::default();
    s.commit(&mut handler, &config, plan.block_index, 10, 11, &vec![1, 2, 3, 4]);
    assert_eq!(handler.parent, Some(10));
    assert_eq!(handler.blocks, vec![1, 2, 3, 4]);
    let plan = s.plan(&DynBlockHandler::default(), &config, 0, 2).unwrap();
    assert_eq!(plan.block_index, 5);
    assert_eq!(plan.removed_parent, Some(11));
    assert!(s.plan(&handler, &config, 0, 0).is_none());
}

#[test]
fn random_spawn_chooses_among_seven_kinds() {
    let config = seven_shapes();
    for _ in 0..50 {
        let mut s = SpawnerSystem::default();
        let plan = s.spawn(&DynBlockHandler::default(), &config).unwrap();
        assert!(plan.block_index < 7);
        assert!(plan.next_index < 7);
    }
}

#[test]
fn random_rolls_are_not_all_the_same() {
    let config = seven_shapes();
    let mut seen = std::collections::HashSet::new();
    for _ in 0..200 {
        let mut s = SpawnerSystem::default();
        let plan = s.spawn(&DynBlockHandler::default(), &config).unwrap();
        seen.insert(plan.next_index);
        seen.insert(plan.block_index);
    }
    assert!(seen.len() > 1);
}

#[test]
fn blockage_filter_twice_drops_nothing_more() {
    let p = PhysicsSystem::default();
    let mut b = Blockage::default();
    b.axis_down = true;
    b.axis_right = true;
    let mut queue = vec![(45, 0), (0, -45), (-45, 0), (0, 45), (45, -45)];
    let mut rotation = Rotation::Left;
    p.set_blockage(&mut queue, &mut rotation, &b);
    let once = queue.clone();
    p.set_blockage(&mut queue, &mut rotation, &b);
    assert_eq!(queue, once);
    assert_eq!(queue, vec![(-45, 0), (0, 45)]);
    assert_eq!(rotation, Rotation::Left);
}

#[test]
fn gravity_delay_stays_within_bounds() {
    let mut g = GravitySystem::new();
    let mut q = PhysicsQueue::default();
    for _ in 0..500 {
        g.run(None, 2_000_000, &mut q);
        assert!(g.move_delay >= 295_000 && g.move_delay <= 1_000_000);
    }
    assert_eq!(g.move_delay, 295_000);
}

#[test]
fn physics_keeps_every_blocked_move_blocked() {
    let data = BlockData::new();
    let mut h = piece(1);
    h.config.offset = Some(Offset { right_rotate: (-1, 2), left_rotate: (-2, 1) });
    let mut blockage = Blockage {
        axis_right: true,
        axis_left: true,
        axis_down: true,
        rotate_right: true,
        rotate_left: true,
        shoot: true,
    };
    let mut q = PhysicsQueue::default();
    let mut p = PhysicsSystem::default();
    let out = p.run(&mut h, &input(AxisType::Right, Rotation::Still, true), &mut blockage, &mut q, &data, &vec![(180, 450)], (180, 450));
    match out {
        PhysicsOutcome::Moved { translations, rotation } => {
            assert_eq!(translations, vec![(0, 0)]);
            assert_eq!(rotation, Rotation::Still);
        }
        _ => panic!("expected a move"),
    }
    assert!(blockage.axis_right && blockage.axis_left && blockage.axis_down);
    assert!(blockage.rotate_right && blockage.rotate_left && blockage.shoot);
}

#[test]
fn physics_unblocks_turns_of_a_piece_without_main_spans() {
    let data = BlockData::new();
    let mut h = piece(1);
    let mut blockage = Blockage { axis_left: true, rotate_right: true, rotate_left: true, ..Blockage::default() };
    let mut q = PhysicsQueue::default();
    let mut p = PhysicsSystem::default();
    p.run(&mut h, &input(AxisType::Still, Rotation::Right, false), &mut blockage, &mut q, &data, &vec![(180, 450)], (180, 450));
    assert!(!blockage.rotate_right);
    assert!(!blockage.rotate_left);
    assert!(blockage.axis_left);
}

#[test]
fn physics_moves_stop_before_a_settled_block() {
    let mut data = BlockData::new();
    data.add_block(180, 450, 7).unwrap();
    let mut h = piece(1);
    let mut blockage = Blockage::default();
    let mut q = PhysicsQueue::default();
    q.add_to_queue((45, 0));
    q.add_to_queue((45, 0));
    let mut p = PhysicsSystem::default();
    let out = p.run(&mut h, &input(AxisType::Right, Rotation::Still, false), &mut blockage, &mut q, &data, &vec![(90, 450)], (90, 450));
    match out {
        PhysicsOutcome::Moved { translations, .. } => assert_eq!(translations, vec![(45, 0)]),
        _ => panic!("expected a move"),
    }
    assert!(blockage.axis_right);
    assert!(!data.find_block(135, 450));
}

#[test]
fn stacking_on_free_cells_reports_no_clash() {
    let mut s = StackSystem::new();
    let mut data = BlockData::new();
    let mut h = piece(2);
    let mut event = GameEvent::Normal;
    let clashes = s.stack_blocks(&mut h, &vec![(90, 450), (135, 450)], &mut data, &mut event);
    assert!(clashes.is_empty());
    assert_eq!(event, GameEvent::Normal);
    assert_eq!(data.cell(9, 2), Some(0));
    assert_eq!(data.cell(9, 3), Some(1));
}

#[test]
fn preview_sits_at_the_new_pieces_origin_block() {
    let config = BlocksConfig {
        blocks: vec![
            Block { locations: vec![(0, 0), (45, 0)], origin: 0, offset: None, sub_offset: None },
            Block { locations: vec![(45, 0), (0, 0)], origin: 1, offset: None, sub_offset: None },
        ],
    };
    let mut s = SpawnerSystem::default();
    let plan = s.plan(&DynBlockHandler::default(), &config, 0, 1).unwrap();
    assert_eq!(plan.next_block_positions, vec![(45, 0), (0, 0), (0, 0), (0, 0)]);
    assert_eq!(plan.parent_position, (225, 810));
    assert_eq!(plan.next_parent_position, (505, 675));
}
