use platformer_rules::tile_map_rules::{
    cell_add, probe_cells, probe_offsets, tile_code, Cell, NodeManager, EMPTY_TILE_CODE,
    SLIDE_TILE_CODE, TILE_SET_COLUMNS,
};

#[test]
fn probe_offsets_go_counter_clockwise() {
    let offsets = probe_offsets();
    assert_eq!(
        offsets,
        vec![
            Cell { x: -1, y: -1 },
            Cell { x: -1, y: 0 },
            Cell { x: 0, y: 1 },
            Cell { x: 1, y: 0 },
            Cell { x: 1, y: -1 },
        ]
    );
}

#[test]
fn cell_add_is_componentwise() {
    assert_eq!(cell_add(Cell { x: 7, y: -3 }, Cell { x: -1, y: 1 }), Cell { x: 6, y: -2 });
}

#[test]
fn probe_cells_surround_the_player() {
    let cells = probe_cells(Cell { x: 10, y: 4 });
    assert_eq!(
        cells,
        vec![
            Cell { x: 9, y: 3 },
            Cell { x: 9, y: 4 },
            Cell { x: 10, y: 5 },
            Cell { x: 11, y: 4 },
            Cell { x: 11, y: 3 },
        ]
    );
    for (i, a) in cells.iter().enumerate() {
        assert_ne!(*a, Cell { x: 10, y: 4 });
        assert!((a.x - 10).abs() <= 1 && (a.y - 4).abs() <= 1);
        for b in cells.iter().skip(i + 1) {
            assert_ne!(a, b);
        }
    }
}

#[test]
fn tile_code_formula() {
    assert_eq!(TILE_SET_COLUMNS, 32);
    assert_eq!(tile_code(Cell { x: 3, y: 0 }), SLIDE_TILE_CODE);
    assert_eq!(tile_code(Cell { x: 5, y: 2 }), 69);
    assert_eq!(tile_code(Cell { x: -1, y: -1 }), EMPTY_TILE_CODE);
    assert_eq!(tile_code(Cell { x: 0, y: 0 }), 0);
}

#[test]
fn tile_codes_of_atlas_columns_differ() {
    let mut seen = Vec::new();
    for y in 0..4 {
        for x in 0..32 {
            let code = tile_code(Cell { x, y });
            assert_ne!(code, EMPTY_TILE_CODE);
            assert!(!seen.contains(&code));
            seen.push(code);
        }
    }
}

#[test]
fn node_manager_records_codes_in_probing_order() {
    let mut manager = NodeManager::new(true);
    assert!(manager.tile_collide.is_empty());
    let atlases = vec![
        Cell { x: -1, y: -1 },
        Cell { x: 1, y: 0 },
        Cell { x: 3, y: 0 },
        Cell { x: 2, y: 1 },
        Cell { x: -1, y: -1 },
    ];
    manager.record_tiles(&atlases);
    assert!(manager.debug);
    assert_eq!(manager.tile_collide, vec![-33, 1, 3, 34, -33]);
    manager.record_tiles(&vec![Cell { x: 0, y: 0 }]);
    assert_eq!(manager.tile_collide, vec![0]);
}
