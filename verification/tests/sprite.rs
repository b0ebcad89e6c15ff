use tarot::sprite::{
    AtlasLayout, SpriteData, SpriteSheet, SpriteSheetError, SpriteSheetGrid, SpriteSheetLayout,
};

fn grid_sheet(rows: u32, cols: u32, size: (u32, u32)) -> SpriteSheet {
    SpriteSheet::new(SpriteSheetLayout::Grid(SpriteSheetGrid { rows, cols }), size).unwrap()
}

#[test]
fn grid_sheet_len_and_lookup() {
    let sheet = grid_sheet(2, 5, (100, 50));
    assert_eq!(sheet.len(), 10);
    assert_eq!(sheet.size(), (100, 50));
    assert_eq!(sheet.get(0), Some(SpriteData { min: (0, 0), max: (20, 25) }));
    // index 6 is row 1, column 1
    assert_eq!(sheet.get(6), Some(SpriteData { min: (20, 25), max: (40, 50) }));
    assert_eq!(sheet.get(10), None);
}

#[test]
fn grid_sheet_enumerates_row_major() {
    let sheet = grid_sheet(2, 3, (30, 20));
    assert_eq!(sheet.get(0).unwrap().min, (0, 0));
    assert_eq!(sheet.get(1).unwrap().min, (10, 0));
    assert_eq!(sheet.get(2).unwrap().min, (20, 0));
    assert_eq!(sheet.get(3).unwrap().min, (0, 10));
    assert_eq!(sheet.get(5).unwrap().min, (20, 10));
    assert_eq!(sheet.get(6), None);
}

#[test]
fn list_sheet_returns_stored_entries_unchanged() {
    let entries = vec![
        SpriteData::new((0, 0), (10, 10)),
        SpriteData::new((10, 0), (20, 10)),
    ];
    let sheet = SpriteSheet::new(SpriteSheetLayout::List(entries), (20, 10)).unwrap();
    assert_eq!(sheet.len(), 2);
    assert_eq!(sheet.get(1), Some(SpriteData { min: (10, 0), max: (20, 10) }));
    assert_eq!(sheet.get(0), Some(SpriteData { min: (0, 0), max: (10, 10) }));
    assert_eq!(sheet.get(2), None);
}

#[test]
fn atlas_layout_has_one_region_per_index_in_order() {
    let sheet = grid_sheet(2, 5, (100, 50));
    let atlas: AtlasLayout = sheet.to_atlas_layout();
    assert_eq!(atlas.size, (100, 50));
    assert_eq!(atlas.textures.len(), sheet.len());
    for i in 0..sheet.len() {
        assert_eq!(Some(atlas.textures[i]), sheet.get(i as u32));
    }
}

#[test]
fn atlas_layout_of_a_list_sheet_keeps_list_order() {
    let entries = vec![
        SpriteData::new((5, 5), (6, 6)),
        SpriteData::new((0, 0), (3, 3)),
        SpriteData::new((3, 0), (5, 2)),
    ];
    let sheet = SpriteSheet::new(SpriteSheetLayout::List(entries.clone()), (10, 10)).unwrap();
    let atlas = sheet.to_atlas_layout();
    assert_eq!(atlas.textures, entries);
}

#[test]
fn degenerate_grids_are_rejected_at_construction() {
    let no_rows =
        SpriteSheet::new(SpriteSheetLayout::Grid(SpriteSheetGrid { rows: 0, cols: 5 }), (100, 50));
    assert_eq!(no_rows.err().unwrap(), SpriteSheetError::DegenerateGrid);
    let no_cols =
        SpriteSheet::new(SpriteSheetLayout::Grid(SpriteSheetGrid { rows: 2, cols: 0 }), (100, 50));
    assert_eq!(no_cols.err().unwrap(), SpriteSheetError::DegenerateGrid);
}

#[test]
fn oversized_grid_is_rejected_at_construction() {
    let too_many = SpriteSheet::new(
        SpriteSheetLayout::Grid(SpriteSheetGrid { rows: u32::MAX, cols: 2 }),
        (100, 50),
    );
    assert_eq!(too_many.err().unwrap(), SpriteSheetError::OversizedGrid);
}

#[test]
fn uneven_grid_division_truncates_like_the_cell_size() {
    // 100 / 3 = 33: cells are 33 wide and the remainder is unused
    let sheet = grid_sheet(1, 3, (100, 10));
    assert_eq!(sheet.get(2), Some(SpriteData { min: (66, 0), max: (99, 10) }));
}

#[test]
fn sheet_files_use_the_ron_extension() {
    assert_eq!(SpriteSheet::file_extension(), Some("ron"));
}

#[test]
fn sprite_data_size_is_the_corner_difference() {
    let data = SpriteData::new((10, 0), (20, 10));
    assert_eq!(data.size(), (10, 10));
    let grid = SpriteSheetGrid { rows: 4, cols: 4 };
    assert_eq!(grid.len(), 16);
}
