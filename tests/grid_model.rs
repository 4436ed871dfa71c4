use nexus_workspace::{
    all_module_meta, clamp_size, snap_position, GridPosition, GridSize, ModuleInstanceId,
    OptionKind, PlacedModule,
};

#[test]
fn clamp_size_raises_zero_to_one() {
    assert_eq!(clamp_size(GridSize { w: 0, h: 0 }), GridSize { w: 1, h: 1 });
}

#[test]
fn clamp_size_caps_at_limits() {
    assert_eq!(clamp_size(GridSize { w: 13, h: 9 }), GridSize { w: 12, h: 8 });
    assert_eq!(
        clamp_size(GridSize { w: u32::MAX, h: u32::MAX }),
        GridSize { w: 12, h: 8 }
    );
}

#[test]
fn clamp_size_keeps_valid_sizes() {
    assert_eq!(clamp_size(GridSize { w: 5, h: 3 }), GridSize { w: 5, h: 3 });
    assert_eq!(clamp_size(GridSize { w: 12, h: 8 }), GridSize { w: 12, h: 8 });
    assert_eq!(clamp_size(GridSize { w: 1, h: 1 }), GridSize { w: 1, h: 1 });
}

#[test]
fn clamp_size_always_in_range() {
    for w in [0u32, 1, 2, 11, 12, 13, 1000, u32::MAX] {
        for h in [0u32, 1, 7, 8, 9, 1000, u32::MAX] {
            let r = clamp_size(GridSize { w, h });
            assert!(1 <= r.w && r.w <= 12);
            assert!(1 <= r.h && r.h <= 8);
        }
    }
}

#[test]
fn snap_position_pulls_anchor_inside() {
    let p = snap_position(GridPosition { col: 100, row: 100 }, 12, 24);
    assert_eq!(p, GridPosition { col: 11, row: 23 });
    let q = snap_position(GridPosition { col: u32::MAX, row: 5 }, 12, 24);
    assert_eq!(q, GridPosition { col: 11, row: 5 });
}

#[test]
fn snap_position_keeps_inside_positions() {
    let p = snap_position(GridPosition { col: 3, row: 7 }, 12, 24);
    assert_eq!(p, GridPosition { col: 3, row: 7 });
}

#[test]
fn snap_position_always_inside() {
    for col in [0u32, 1, 11, 12, 50, u32::MAX] {
        for row in [0u32, 1, 23, 24, 99, u32::MAX] {
            for (cols, rows) in [(12u32, 24u32), (1, 1), (3, 5)] {
                let p = snap_position(GridPosition { col, row }, cols, rows);
                assert!(p.col < cols);
                assert!(p.row < rows);
            }
        }
    }
}

#[test]
fn snap_position_on_empty_grid_goes_to_zero() {
    let p = snap_position(GridPosition { col: 4, row: 9 }, 0, 0);
    assert_eq!(p, GridPosition { col: 0, row: 0 });
}

#[test]
fn placed_module_new_keeps_fields() {
    let m = PlacedModule::new(
        ModuleInstanceId(7),
        "iv_metrics".to_string(),
        GridPosition { col: 1, row: 2 },
        GridSize { w: 3, h: 4 },
    );
    assert_eq!(m.id, ModuleInstanceId(7));
    assert_eq!(m.kind, "iv_metrics");
    assert_eq!(m.position, GridPosition { col: 1, row: 2 });
    assert_eq!(m.size, GridSize { w: 3, h: 4 });
}

#[test]
fn module_catalog_lists_every_kind() {
    let metas = all_module_meta();
    assert_eq!(metas.len(), 8);
    assert_eq!(metas[0].id, "price_chart");
    assert_eq!((metas[0].default_width, metas[0].default_height), (4, 2));
    assert_eq!(metas[2].id, "options_chain");
    assert_eq!((metas[2].default_width, metas[2].default_height), (4, 3));
    assert_eq!(metas[7].id, "backtest_editor");
    assert_eq!((metas[7].default_width, metas[7].default_height), (4, 3));
    for m in &metas {
        assert!(clamp_size(GridSize { w: m.default_width, h: m.default_height })
            == GridSize { w: m.default_width, h: m.default_height });
    }
}

#[test]
fn option_kind_defaults_to_put() {
    assert_eq!(OptionKind::default(), OptionKind::Put);
    assert_ne!(OptionKind::Call, OptionKind::Put);
}
