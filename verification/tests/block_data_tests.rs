use tetris::world::block_data::BlockData;

fn fill_row(data: &mut BlockData, y: i64, first_entity: u32) {
    for col in 0..10i64 {
        assert!(data.add_block(col * 45, y, first_entity + col as u32).is_ok());
    }
}

#[test]
fn new_field_is_empty() {
    let data = BlockData::new();
    for row in 0..20usize {
        for col in 0..10usize {
            assert_eq!(data.cell(row, col), None);
        }
    }
}

#[test]
fn column_index_of_vertical_position() {
    assert_eq!(BlockData::get_col_index_from_m24(45), Ok(0));
    assert_eq!(BlockData::get_col_index_from_m24(89), Ok(0));
    assert_eq!(BlockData::get_col_index_from_m24(90), Ok(1));
    assert_eq!(BlockData::get_col_index_from_m24(900), Ok(19));
}

#[test]
fn column_index_below_the_field_is_an_error() {
    assert_eq!(
        BlockData::get_col_index_from_m24(44),
        Err("Index out of bounds given value with :44".to_string())
    );
    assert_eq!(
        BlockData::get_col_index_from_m24(-90),
        Err("Index out of bounds given value with :-90".to_string())
    );
    assert_eq!(
        BlockData::get_col_index_from_m24(0),
        Err("Index out of bounds given value with :0".to_string())
    );
}

#[test]
fn row_index_of_horizontal_position() {
    assert_eq!(BlockData::get_row_index_from_m14(0), Ok(0));
    assert_eq!(BlockData::get_row_index_from_m14(44), Ok(0));
    assert_eq!(BlockData::get_row_index_from_m14(405), Ok(9));
    assert_eq!(
        BlockData::get_row_index_from_m14(-1),
        Err("Index out of bounds given value with :-1".to_string())
    );
}

#[test]
fn added_block_is_found() {
    let mut data = BlockData::new();
    assert!(!data.find_block(90, 135));
    assert_eq!(data.add_block(90, 135, 7), Ok(()));
    assert!(data.find_block(90, 135));
    assert_eq!(data.cell(2, 2), Some(7));
    assert!(!data.find_block(135, 135));
    assert!(!data.find_block(-45, 135));
    assert!(!data.find_block(450, 135));
    assert!(!data.find_block(90, 0));
}

#[test]
fn adding_on_a_taken_cell_is_refused() {
    let mut data = BlockData::new();
    assert_eq!(data.add_block(0, 45, 1), Ok(()));
    assert_eq!(
        data.add_block(0, 45, 2),
        Err("Game Over ... OR Hardly detected problem occured.")
    );
    assert_eq!(data.cell(0, 0), Some(1));
}

#[test]
fn full_row_is_detected() {
    let mut data = BlockData::new();
    for col in 0..9i64 {
        data.add_block(col * 45, 45, col as u32).unwrap();
    }
    assert!(!data.check_full(45));
    data.add_block(405, 45, 9).unwrap();
    assert!(data.check_full(45));
    assert!(!data.check_full(90));
}

#[test]
fn row_is_read_and_cleared() {
    let mut data = BlockData::new();
    data.add_block(45, 90, 3).unwrap();
    let row = data.get_row(90);
    assert_eq!(row.len(), 10);
    assert_eq!(row[1], Some(3));
    assert_eq!(row[0], None);
    data.clear_row(90);
    assert_eq!(data.get_row(90), vec![None; 10]);
    assert!(!data.check_full(90));
    data.add_block(45, 90, 4).unwrap();
    assert_eq!(data.cell(1, 1), Some(4));
}

#[test]
fn removing_a_row_moves_the_rows_above_down() {
    let mut data = BlockData::new();
    fill_row(&mut data, 45, 100);
    data.add_block(0, 90, 1).unwrap();
    data.add_block(45, 135, 2).unwrap();
    data.add_block(405, 900, 3).unwrap();
    let moved = data.remove_lows(45);
    assert_eq!(moved.len(), 19 * 10);
    assert_eq!(moved[0], Some(1));
    assert_eq!(moved[11], Some(2));
    assert_eq!(moved[189], Some(3));
    assert_eq!(data.cell(0, 0), Some(1));
    assert_eq!(data.cell(1, 1), Some(2));
    assert_eq!(data.cell(18, 9), Some(3));
    assert_eq!(data.cell(19, 9), None);
    assert!(!data.check_full(45));
}

#[test]
fn removing_the_top_row_only_empties_it() {
    let mut data = BlockData::new();
    data.add_block(0, 900, 5).unwrap();
    data.add_block(0, 45, 6).unwrap();
    let moved = data.remove_lows(900);
    assert!(moved.is_empty());
    assert_eq!(data.cell(19, 0), None);
    assert_eq!(data.cell(0, 0), Some(6));
}

#[test]
fn top_block_below_a_row() {
    let mut data = BlockData::new();
    data.add_block(90, 45, 1).unwrap();
    data.add_block(90, 135, 2).unwrap();
    assert_eq!(data.get_top_block(90, 450), Some(2));
    assert_eq!(data.get_top_block(90, 135), Some(1));
    assert_eq!(data.get_top_block(45, 450), None);
    assert_eq!(data.get_top_block_index(2, 9), Some((2, 2)));
    assert_eq!(data.get_top_block_index(2, 2), Some((2, 0)));
    assert_eq!(data.get_top_block_index(2, 0), None);
    assert_eq!(data.get_top_block_index(3, 20), None);
}

#[test]
fn field_text_shows_top_row_first() {
    let mut data = BlockData::new();
    data.add_block(0, 45, 1).unwrap();
    let text = data.to_display_string();
    let lines: Vec<&str> = text.lines().collect();
    assert_eq!(lines.len(), 20);
    assert_eq!(lines[0], "ㅡㅡㅡㅡㅡㅡㅡㅡㅡㅡ");
    assert_eq!(lines[19], "ㅁㅡㅡㅡㅡㅡㅡㅡㅡㅡ");
    assert!(text.ends_with('\n'));
}
