//! Tests of the command engine over the schematic action family: exact
//! reversibility, coalescing, annulment, the saved watermark, and the
//! discarding of the redo branch.

use schematic_editor::component::ComponentVariantReference;
use schematic_editor::general::{ColorMode, Coordinates, Length, StoragePath};
use schematic_editor::schematic::{Colors, Schematic, SchematicAction, SchematicHolder,
    TextOnPage};

fn holder_with_example() -> SchematicHolder {
    SchematicHolder::new_example()
}

fn text_location(h: &SchematicHolder, page: usize, tn: usize) -> Coordinates {
    h.schematic.pages[page].texts[tn].location
}

fn text_string(h: &SchematicHolder, page: usize, tn: usize) -> String {
    h.schematic.pages[page].texts[tn].text.clone()
}

#[test]
fn apply_then_undo_restores_document_move_text() {
    let mut h = holder_with_example();
    let before = Schematic::new_example();
    h.apply(SchematicAction::MoveText {
        pagenum: 0,
        textnum: 1,
        delta: Coordinates::Inches(127000, -2540),
    });
    assert_eq!(text_location(&h, 0, 1), Coordinates::Inches(127000, 5080 - 2540));
    assert!(h.undo());
    assert_eq!(h.schematic, before);
}

#[test]
fn apply_then_undo_restores_document_create_text() {
    let mut h = holder_with_example();
    let before = Schematic::new_example();
    h.apply(SchematicAction::CreateText {
        pagenum: 0,
        text: TextOnPage {
            text: "extra".to_string(),
            location: Coordinates::Millimeters(5, 5),
            color: Colors::Border,
            size: Length::Millimeters(2000),
        },
    });
    assert_eq!(h.schematic.pages[0].texts.len(), 6);
    assert!(h.undo());
    assert_eq!(h.schematic, before);
}

#[test]
fn apply_then_undo_restores_document_edit_and_color() {
    let mut h = holder_with_example();
    let before = Schematic::new_example();
    h.apply(SchematicAction::EditText {
        pagenum: 0,
        textnum: 0,
        old: "demo text".to_string(),
        new: "changed".to_string(),
    });
    assert_eq!(text_string(&h, 0, 0), "changed");
    h.apply(SchematicAction::ChangeTextColor {
        pagenum: 0,
        textnum: 0,
        old: Colors::Standard,
        new: Colors::Custom(1, 2, 3, 4),
    });
    assert_eq!(h.schematic.pages[0].texts[0].color, Colors::Custom(1, 2, 3, 4));
    assert!(h.undo());
    assert!(h.undo());
    assert_eq!(h.schematic, before);
}

#[test]
fn missing_target_is_a_silent_no_op() {
    let mut h = holder_with_example();
    let before = Schematic::new_example();
    h.apply(SchematicAction::MoveText {
        pagenum: 7,
        textnum: 0,
        delta: Coordinates::Inches(100, 100),
    });
    assert_eq!(h.schematic, before);
    h.apply(SchematicAction::EditText {
        pagenum: 0,
        textnum: 99,
        old: String::new(),
        new: "x".to_string(),
    });
    assert_eq!(h.schematic, before);
}

#[test]
fn n_applies_then_n_undos_restore_and_exhaust_undo() {
    let mut h = holder_with_example();
    let before = Schematic::new_example();
    let n = 4;
    for i in 0..n {
        h.apply(SchematicAction::EditText {
            pagenum: 0,
            textnum: 0,
            old: text_string(&h, 0, 0),
            new: format!("step {}", i),
        });
    }
    for _ in 0..n {
        h.undo();
    }
    assert_eq!(h.schematic, before);
    assert!(!h.undo());
}

#[test]
fn redo_replays_an_undone_entry() {
    let mut h = holder_with_example();
    h.apply(SchematicAction::MoveText {
        pagenum: 0,
        textnum: 2,
        delta: Coordinates::Inches(2540, 2540),
    });
    let after = text_location(&h, 0, 2);
    assert!(h.undo());
    assert!(h.redo());
    assert_eq!(text_location(&h, 0, 2), after);
    assert!(!h.redo());
}

#[test]
fn cancelling_moves_annul_and_restore() {
    let mut h = holder_with_example();
    let before = Schematic::new_example();
    h.apply(SchematicAction::MoveText {
        pagenum: 0,
        textnum: 3,
        delta: Coordinates::Inches(127000, 0),
    });
    h.apply(SchematicAction::MoveText {
        pagenum: 0,
        textnum: 3,
        delta: Coordinates::Inches(-127000, 0),
    });
    assert_eq!(h.schematic, before);
    // the annulled gesture left no history entries
    assert!(!h.undo());
}

#[test]
fn merging_moves_collapse_to_one_entry() {
    let mut h = holder_with_example();
    h.apply(SchematicAction::MoveText {
        pagenum: 0,
        textnum: 3,
        delta: Coordinates::Inches(1000, 0),
    });
    h.apply(SchematicAction::MoveText {
        pagenum: 0,
        textnum: 3,
        delta: Coordinates::Inches(500, 100),
    });
    assert_eq!(text_location(&h, 0, 3), Coordinates::Inches(1500, 35560 + 100));
    // one undo reverts the whole merged gesture
    assert!(h.undo());
    assert_eq!(text_location(&h, 0, 3), Coordinates::Inches(0, 35560));
    assert!(!h.undo());
}

#[test]
fn moves_of_different_targets_do_not_merge() {
    let mut h = holder_with_example();
    h.apply(SchematicAction::MoveText {
        pagenum: 0,
        textnum: 1,
        delta: Coordinates::Inches(10, 0),
    });
    h.apply(SchematicAction::MoveText {
        pagenum: 0,
        textnum: 2,
        delta: Coordinates::Inches(10, 0),
    });
    assert!(h.undo());
    assert!(h.undo());
    assert!(!h.undo());
}

#[test]
fn redo_branch_is_discarded_by_apply() {
    let mut h = holder_with_example();
    h.apply(SchematicAction::EditText {
        pagenum: 0,
        textnum: 0,
        old: "demo text".to_string(),
        new: "first".to_string(),
    });
    assert!(h.undo());
    // a different, non-mergeable action
    h.apply(SchematicAction::MoveText {
        pagenum: 0,
        textnum: 0,
        delta: Coordinates::Inches(5, 5),
    });
    assert!(!h.redo());
}

#[test]
fn saved_watermark_lifecycle() {
    // A freshly loaded schematic reports saved.
    let mut h = SchematicHolder::from_loaded(Schematic::new_example(), None, Default::default());
    assert!(!h.has_unsaved_changes());
    // Any non-annulling apply makes it unsaved.
    h.apply(SchematicAction::MoveText {
        pagenum: 0,
        textnum: 0,
        delta: Coordinates::Inches(7, 0),
    });
    assert!(h.has_unsaved_changes());
    // An explicit save restores the saved state.
    h.set_saved(true);
    assert!(!h.has_unsaved_changes());
    // Invalidating the watermark keeps it unsaved forever, even when undo
    // and redo return to the same cursor position.
    h.set_saved(false);
    assert!(h.has_unsaved_changes());
    h.undo();
    assert!(h.has_unsaved_changes());
    h.redo();
    assert!(h.has_unsaved_changes());
}

#[test]
fn example_holder_reports_unsaved() {
    let mut h = holder_with_example();
    assert!(h.has_unsaved_changes());
    assert_eq!(h.check_for_saved_status_change(), Some(false));
    assert_eq!(h.check_for_saved_status_change(), None);
}

#[test]
fn edit_back_annuls_and_restores_watermark() {
    let mut h = SchematicHolder::from_loaded(Schematic::new_example(), None, Default::default());
    h.set_saved(true);
    assert!(!h.has_unsaved_changes());
    h.apply(SchematicAction::EditText {
        pagenum: 0,
        textnum: 0,
        old: "demo text".to_string(),
        new: "B".to_string(),
    });
    assert!(h.has_unsaved_changes());
    h.apply(SchematicAction::EditText {
        pagenum: 0,
        textnum: 0,
        old: "B".to_string(),
        new: "demo text".to_string(),
    });
    // The two edits collapsed to a no-op entry and vanished; the document
    // is saved again, exactly as before either edit.
    assert!(!h.has_unsaved_changes());
    assert_eq!(text_string(&h, 0, 0), "demo text");
    assert!(!h.undo());
}

#[test]
fn add_component_variant_round_trip() {
    let mut h = holder_with_example();
    let before = Schematic::new_example();
    h.apply(SchematicAction::AddComponentVariant {
        pagenum: 0,
        var: ComponentVariantReference {
            lib: "L".to_string(),
            com: "C".to_string(),
            var: "V".to_string(),
            pos: Coordinates::Inches(100, 100),
        },
    });
    assert_eq!(h.schematic.pages[0].syms.len(), 1);
    h.apply(SchematicAction::MoveSymbol {
        pagenum: 0,
        symnum: 0,
        delta: Coordinates::Inches(50, 0),
    });
    assert_eq!(h.schematic.pages[0].syms[0].pos, Coordinates::Inches(150, 100));
    assert!(h.undo());
    assert!(h.undo());
    assert_eq!(h.schematic, before);
}

#[test]
fn holder_name_depends_on_path() {
    let mut h = holder_with_example();
    assert_eq!(h.name(), "Unsaved schematic");
    assert!(!h.has_path());
    h.set_path(StoragePath::LocalFilesystem("/tmp/x.uos".to_string()));
    assert!(h.has_path());
    assert_eq!(h.name(), "Example Schematic");
}

#[test]
fn color_parts_follow_the_mode_table() {
    assert_eq!(Colors::Standard.get_rgba(ColorMode::ScreenModeDark), (255, 255, 255, 255));
    assert_eq!(Colors::Standard.get_rgba(ColorMode::ScreenModeLight), (0, 0, 0, 255));
    assert_eq!(Colors::Standard.get_rgba(ColorMode::PrintingMode), (0, 0, 0, 255));
    assert_eq!(Colors::Border.get_rgba(ColorMode::ScreenModeDark), (0, 0, 255, 255));
    assert_eq!(Colors::Border.get_rgba(ColorMode::PrintingMode), (255, 255, 255, 255));
    assert_eq!(Colors::Custom(9, 8, 7, 6).get_rgba(ColorMode::ScreenModeDark), (9, 8, 7, 6));
}
