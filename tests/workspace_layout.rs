use nexus_workspace::{GridPosition, GridSize, ModuleInstanceId, WorkspaceLayoutState};

fn pos(col: u32, row: u32) -> GridPosition {
    GridPosition { col, row }
}

fn size(w: u32, h: u32) -> GridSize {
    GridSize { w, h }
}

#[test]
fn new_state_is_empty_twelve_by_twenty_four() {
    let s = WorkspaceLayoutState::new();
    assert!(s.modules.is_empty());
    assert_eq!(s.next_id, 1);
    assert_eq!(s.grid_cols, 12);
    assert_eq!(s.grid_rows, 24);
}

#[test]
fn add_module_assigns_increasing_ids() {
    let mut s = WorkspaceLayoutState::new();
    for i in 0..5u32 {
        s.add_module("price_chart".to_string(), pos(i, 0), size(1, 1));
    }
    let ids: Vec<u64> = s.modules.iter().map(|m| m.id.0).collect();
    assert_eq!(ids, vec![1, 2, 3, 4, 5]);
    assert_eq!(s.next_id, 6);
}

#[test]
fn add_module_snaps_and_clamps() {
    let mut s = WorkspaceLayoutState::new();
    s.add_module("greeks_summary".to_string(), pos(40, 99), size(0, 20));
    let m = &s.modules[0];
    assert_eq!(m.kind, "greeks_summary");
    assert_eq!(m.position, pos(11, 23));
    assert_eq!(m.size, size(1, 8));
}

#[test]
fn add_module_counts_ids_even_when_overlapping() {
    let mut s = WorkspaceLayoutState::new();
    s.add_module("a".to_string(), pos(0, 0), size(4, 2));
    s.add_module("b".to_string(), pos(0, 0), size(4, 2));
    assert_eq!(s.modules.len(), 2);
    assert_eq!(s.modules[1].id, ModuleInstanceId(2));
    assert_eq!(s.next_id, 3);
}

#[test]
fn remove_module_twice_is_a_no_op_the_second_time() {
    let mut s = WorkspaceLayoutState::new();
    s.add_module("a".to_string(), pos(0, 0), size(1, 1));
    s.add_module("b".to_string(), pos(1, 0), size(1, 1));
    s.add_module("c".to_string(), pos(2, 0), size(1, 1));
    s.remove_module(ModuleInstanceId(2));
    let after_first: Vec<u64> = s.modules.iter().map(|m| m.id.0).collect();
    assert_eq!(after_first, vec![1, 3]);
    s.remove_module(ModuleInstanceId(2));
    let after_second: Vec<u64> = s.modules.iter().map(|m| m.id.0).collect();
    assert_eq!(after_second, after_first);
}

#[test]
fn remove_module_of_unknown_id_changes_nothing() {
    let mut s = WorkspaceLayoutState::new();
    s.add_module("a".to_string(), pos(0, 0), size(1, 1));
    s.remove_module(ModuleInstanceId(42));
    assert_eq!(s.modules.len(), 1);
    assert_eq!(s.modules[0].id, ModuleInstanceId(1));
    assert_eq!(s.next_id, 2);
}

#[test]
fn remove_then_add_never_reuses_an_id() {
    let mut s = WorkspaceLayoutState::new();
    s.add_module("a".to_string(), pos(0, 0), size(1, 1));
    s.remove_module(ModuleInstanceId(1));
    s.add_module("b".to_string(), pos(0, 0), size(1, 1));
    assert_eq!(s.modules[0].id, ModuleInstanceId(2));
}

#[test]
fn move_module_snaps_position() {
    let mut s = WorkspaceLayoutState::new();
    s.add_module("a".to_string(), pos(0, 0), size(2, 2));
    s.add_module("b".to_string(), pos(2, 0), size(2, 2));
    s.move_module(ModuleInstanceId(2), pos(5, 6));
    assert_eq!(s.modules[1].position, pos(5, 6));
    s.move_module(ModuleInstanceId(2), pos(500, 600));
    assert_eq!(s.modules[1].position, pos(11, 23));
    assert_eq!(s.modules[0].position, pos(0, 0));
}

#[test]
fn move_module_of_unknown_id_changes_nothing() {
    let mut s = WorkspaceLayoutState::new();
    s.add_module("a".to_string(), pos(3, 3), size(2, 2));
    s.move_module(ModuleInstanceId(9), pos(0, 0));
    assert_eq!(s.modules[0].position, pos(3, 3));
}

#[test]
fn resize_module_clamps_size() {
    let mut s = WorkspaceLayoutState::new();
    s.add_module("a".to_string(), pos(0, 0), size(2, 2));
    s.resize_module(ModuleInstanceId(1), size(6, 5));
    assert_eq!(s.modules[0].size, size(6, 5));
    s.resize_module(ModuleInstanceId(1), size(0, 100));
    assert_eq!(s.modules[0].size, size(1, 8));
}

#[test]
fn resize_module_of_unknown_id_changes_nothing() {
    let mut s = WorkspaceLayoutState::new();
    s.add_module("a".to_string(), pos(0, 0), size(2, 2));
    s.resize_module(ModuleInstanceId(2), size(6, 6));
    assert_eq!(s.modules[0].size, size(2, 2));
}

#[test]
fn free_region_on_empty_grid_is_origin() {
    let s = WorkspaceLayoutState::new();
    assert_eq!(s.find_free_region(4, 2), Some(pos(0, 0)));
}

#[test]
fn free_region_skips_placed_module() {
    let mut s = WorkspaceLayoutState::new();
    s.add_module("price_chart".to_string(), pos(0, 0), size(4, 2));
    assert_eq!(s.find_free_region(4, 2), Some(pos(4, 0)));
}

#[test]
fn free_region_moves_to_next_row_when_row_is_full() {
    let mut s = WorkspaceLayoutState::new();
    s.add_module("a".to_string(), pos(0, 0), size(6, 1));
    s.add_module("b".to_string(), pos(6, 0), size(6, 1));
    assert_eq!(s.find_free_region(2, 1), Some(pos(0, 1)));
}

#[test]
fn free_region_none_on_fully_tiled_grid() {
    let mut s = WorkspaceLayoutState::new();
    for row in 0..24u32 {
        for col in 0..12u32 {
            s.add_module("tile".to_string(), pos(col, row), size(1, 1));
        }
    }
    assert_eq!(s.modules.len(), 288);
    assert_eq!(s.find_free_region(1, 1), None);
}

#[test]
fn free_region_none_when_region_cannot_fit() {
    let s = WorkspaceLayoutState::new();
    assert_eq!(s.find_free_region(12, 1), None);
    assert_eq!(s.find_free_region(1, 24), None);
    assert_eq!(s.find_free_region(13, 30), None);
    assert_eq!(s.find_free_region(11, 23), Some(pos(0, 0)));
}

#[test]
fn free_region_leaves_state_alone() {
    let mut s = WorkspaceLayoutState::new();
    s.add_module("a".to_string(), pos(0, 0), size(4, 2));
    let _ = s.find_free_region(2, 2);
    assert_eq!(s.modules.len(), 1);
    assert_eq!(s.next_id, 2);
}

#[test]
fn add_module_auto_uses_first_free_anchor() {
    let mut s = WorkspaceLayoutState::new();
    s.add_module_auto("price_chart".to_string(), 4, 2);
    s.add_module_auto("iv_metrics".to_string(), 4, 2);
    assert_eq!(s.modules[0].position, pos(0, 0));
    assert_eq!(s.modules[1].position, pos(4, 0));
    assert_eq!(s.modules[1].size, size(4, 2));
    assert_eq!(s.modules[1].kind, "iv_metrics");
}

#[test]
fn add_module_auto_falls_back_to_origin() {
    let mut s = WorkspaceLayoutState::new();
    s.add_module_auto("options_chain".to_string(), 12, 3);
    assert_eq!(s.modules[0].position, pos(0, 0));
    assert_eq!(s.modules[0].size, size(12, 3));
}
