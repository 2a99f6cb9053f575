use tetris::events::CollapseStatus;
use tetris::system::collapse_system::CollapseSystem;
use tetris::world::block_data::BlockData;
use tetris::world::score_text::ScoreText;

#[test]
fn triggered_collapse_clears_every_full_row() {
    let mut data = BlockData::new();
    for col in 0..10i64 {
        data.add_block(col * 45, 45, col as u32).unwrap();
        data.add_block(col * 45, 135, 20 + col as u32).unwrap();
    }
    data.add_block(0, 90, 50).unwrap();
    let mut status = CollapseStatus::Triggered;
    let mut system = CollapseSystem;
    let mut score = ScoreText::new();
    assert_eq!(CollapseSystem::full_row_count(&data), 2);
    let outcomes = system.run(&mut status, &mut data, &mut score, 1);
    assert_eq!(status, CollapseStatus::Idle);
    assert_eq!(outcomes.len(), 2);
    assert_eq!(score.score, 2000);
    assert_eq!(score.score_text, "002000");
    assert_eq!(CollapseSystem::full_row_count(&data), 0);
    assert_eq!(outcomes[0].removed, (0..10u32).map(Some).collect::<Vec<_>>());
    assert_eq!(outcomes[0].moved[0], Some(50));
    assert_eq!(outcomes[1].removed, (20..30u32).map(Some).collect::<Vec<_>>());
    assert_eq!(data.cell(0, 0), Some(50));
    for row in 0..20usize {
        assert!(!data.check_full((row as i64 + 1) * 45));
    }
    assert_eq!(data.cell(1, 0), None);
}

#[test]
fn idle_collapse_does_nothing() {
    let mut data = BlockData::new();
    for col in 0..10i64 {
        data.add_block(col * 45, 45, col as u32).unwrap();
    }
    let mut status = CollapseStatus::Idle;
    let mut system = CollapseSystem;
    let mut score = ScoreText::new();
    let outcomes = system.run(&mut status, &mut data, &mut score, 1);
    assert!(outcomes.is_empty());
    assert!(data.check_full(45));
    assert_eq!(score.score, 0);
    assert_eq!(score.score_text, "000000");
}

#[test]
fn first_full_row_is_the_lowest() {
    let mut data = BlockData::new();
    assert_eq!(CollapseSystem::first_full_row(&data), None);
    for col in 0..10i64 {
        data.add_block(col * 45, 180, col as u32).unwrap();
        data.add_block(col * 45, 360, 10 + col as u32).unwrap();
    }
    assert_eq!(CollapseSystem::first_full_row(&data), Some(3));
}

#[test]
fn each_score_text_earns_the_row_points() {
    let mut data = BlockData::new();
    for col in 0..10i64 {
        data.add_block(col * 45, 45, col as u32).unwrap();
    }
    let mut status = CollapseStatus::Triggered;
    let mut score = ScoreText::new();
    let outcomes = CollapseSystem.run(&mut status, &mut data, &mut score, 2);
    assert_eq!(outcomes.len(), 1);
    assert_eq!(score.score, 2000);
    assert_eq!(score.score_text, "002000");
}

#[test]
fn collapse_without_score_text_keeps_score() {
    let mut data = BlockData::new();
    for col in 0..10i64 {
        data.add_block(col * 45, 45, col as u32).unwrap();
    }
    let mut status = CollapseStatus::Triggered;
    let mut score = ScoreText::new();
    let outcomes = CollapseSystem.run(&mut status, &mut data, &mut score, 0);
    assert_eq!(outcomes.len(), 1);
    assert_eq!(score.score, 0);
    assert_eq!(score.score_text, "000000");
}
