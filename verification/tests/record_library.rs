//! Tests of the command engine over the library action family: exact
//! reversibility of every structural edit, coalescing on symbol texts, and
//! the concrete gesture scenario on a fresh library.

use schematic_editor::general::{Coordinates, Length, StoragePath};
use schematic_editor::library::{LibraryAction, LibraryHolder};
use schematic_editor::name_map::NameMap;
use schematic_editor::record::{Action, Record};
use schematic_editor::schematic::{Colors, TextOnPage};
use schematic_editor::symbol::{LibraryReference, Pin, SymbolReference};

type Libs = NameMap<LibraryHolder>;
type LibRecord = Record<Libs, LibraryAction>;

fn fresh() -> (Libs, LibRecord) {
    let libs: Libs = NameMap::new();
    let rec: LibRecord = Record::new(&libs);
    (libs, rec)
}

fn demo_text() -> TextOnPage {
    TextOnPage {
        text: "label".to_string(),
        location: Coordinates::Inches(1000, 2000),
        color: Colors::Standard,
        size: Length::Inches(5080),
    }
}

fn with_symbol() -> (Libs, LibRecord) {
    let (mut libs, mut rec) = fresh();
    rec.apply(&mut libs, LibraryAction::CreateNewLibrary { name: "L".to_string(), lib: None });
    rec.apply(
        &mut libs,
        LibraryAction::CreateSymbol { libname: "L".to_string(), symname: "S".to_string() },
    );
    (libs, rec)
}

fn symbol_text_location(libs: &Libs) -> Coordinates {
    let holder = libs.get(&"L".to_string()).unwrap();
    let lib = holder.library.as_ref().unwrap();
    let sym = lib.syms.get(&"S".to_string()).unwrap();
    sym.texts[0].location
}

#[test]
fn create_library_and_undo() {
    let (mut libs, mut rec) = fresh();
    rec.apply(&mut libs, LibraryAction::CreateNewLibrary { name: "L".to_string(), lib: None });
    assert!(libs.contains_key(&"L".to_string()));
    assert!(rec.undo(&mut libs));
    assert!(!libs.contains_key(&"L".to_string()));
    assert_eq!(libs.len(), 0);
    // redo brings the library back
    assert!(rec.redo(&mut libs));
    assert!(libs.contains_key(&"L".to_string()));
}

#[test]
fn delete_library_and_undo() {
    let (mut libs, mut rec) = with_symbol();
    rec.apply(
        &mut libs,
        LibraryAction::DeleteLibrary { name: "L".to_string(), old_lib: None },
    );
    assert_eq!(libs.len(), 0);
    assert!(rec.undo(&mut libs));
    let holder = libs.get(&"L".to_string()).unwrap();
    let lib = holder.library.as_ref().unwrap();
    assert!(lib.syms.get(&"S".to_string()).is_some());
}

#[test]
fn delete_symbol_and_undo() {
    let (mut libs, mut rec) = with_symbol();
    rec.apply(
        &mut libs,
        LibraryAction::DeleteSymbol {
            libname: "L".to_string(),
            symname: "S".to_string(),
            symbol: None,
        },
    );
    {
        let holder = libs.get(&"L".to_string()).unwrap();
        let lib = holder.library.as_ref().unwrap();
        assert!(lib.syms.get(&"S".to_string()).is_none());
    }
    assert!(rec.undo(&mut libs));
    let holder = libs.get(&"L".to_string()).unwrap();
    let lib = holder.library.as_ref().unwrap();
    assert!(lib.syms.get(&"S".to_string()).is_some());
}

#[test]
fn create_pin_and_undo() {
    let (mut libs, mut rec) = with_symbol();
    rec.apply(
        &mut libs,
        LibraryAction::CreatePin {
            libname: "L".to_string(),
            symname: "S".to_string(),
            pin: Some(Pin::new(Coordinates::Inches(10, 20), 90_000)),
        },
    );
    {
        let holder = libs.get(&"L".to_string()).unwrap();
        let sym = holder.library.as_ref().unwrap().syms.get(&"S".to_string()).unwrap();
        assert_eq!(sym.pins.len(), 1);
        assert_eq!(sym.pins[0], Pin::new(Coordinates::Inches(10, 20), 90_000));
    }
    assert!(rec.undo(&mut libs));
    let holder = libs.get(&"L".to_string()).unwrap();
    let sym = holder.library.as_ref().unwrap().syms.get(&"S".to_string()).unwrap();
    assert_eq!(sym.pins.len(), 0);
}

#[test]
fn component_variant_lifecycle_and_undo() {
    let (mut libs, mut rec) = with_symbol();
    rec.apply(
        &mut libs,
        LibraryAction::CreateComponent { libname: "L".to_string(), comname: "C".to_string() },
    );
    rec.apply(
        &mut libs,
        LibraryAction::CreateComponentVariant {
            libname: "L".to_string(),
            comname: "C".to_string(),
            varname: "V".to_string(),
            variant: None,
        },
    );
    let sref = SymbolReference { lib: LibraryReference::ThisOne, sym: "S".to_string() };
    rec.apply(
        &mut libs,
        LibraryAction::ChangeComponentVariantSymbol {
            libname: "L".to_string(),
            comname: "C".to_string(),
            varname: "V".to_string(),
            sref: Some(sref),
        },
    );
    {
        let holder = libs.get(&"L".to_string()).unwrap();
        let lib = holder.library.as_ref().unwrap();
        let comp = lib.components.get(&"C".to_string()).unwrap();
        let v = comp.variants.get(&"V".to_string()).unwrap();
        assert_eq!(v.symbol.as_ref().unwrap().sym, "S");
    }
    // undo the symbol binding: the variant is unbound again
    assert!(rec.undo(&mut libs));
    {
        let holder = libs.get(&"L".to_string()).unwrap();
        let comp = holder.library.as_ref().unwrap().components.get(&"C".to_string()).unwrap();
        assert!(comp.variants.get(&"V".to_string()).unwrap().symbol.is_none());
    }
    // undo variant creation, then component creation
    assert!(rec.undo(&mut libs));
    assert!(rec.undo(&mut libs));
    let holder = libs.get(&"L".to_string()).unwrap();
    assert!(holder.library.as_ref().unwrap().components.get(&"C".to_string()).is_none());
}

#[test]
fn delete_component_variant_and_undo() {
    let (mut libs, mut rec) = with_symbol();
    rec.apply(
        &mut libs,
        LibraryAction::CreateComponent { libname: "L".to_string(), comname: "C".to_string() },
    );
    rec.apply(
        &mut libs,
        LibraryAction::CreateComponentVariant {
            libname: "L".to_string(),
            comname: "C".to_string(),
            varname: "V".to_string(),
            variant: None,
        },
    );
    rec.apply(
        &mut libs,
        LibraryAction::DeleteComponentVariant {
            libname: "L".to_string(),
            comname: "C".to_string(),
            varname: "V".to_string(),
            variant: None,
        },
    );
    {
        let holder = libs.get(&"L".to_string()).unwrap();
        let comp = holder.library.as_ref().unwrap().components.get(&"C".to_string()).unwrap();
        assert!(comp.variants.get(&"V".to_string()).is_none());
    }
    assert!(rec.undo(&mut libs));
    let holder = libs.get(&"L".to_string()).unwrap();
    let comp = holder.library.as_ref().unwrap().components.get(&"C".to_string()).unwrap();
    assert!(comp.variants.get(&"V".to_string()).is_some());
}

#[test]
fn edit_text_and_color_round_trip() {
    let (mut libs, mut rec) = with_symbol();
    let mut create = LibraryAction::CreateText {
        libname: "L".to_string(),
        symname: "S".to_string(),
        text: demo_text(),
    };
    create.apply(&mut libs);
    rec.apply(
        &mut libs,
        LibraryAction::EditText {
            libname: "L".to_string(),
            symname: "S".to_string(),
            textnum: 0,
            old: "label".to_string(),
            new: "renamed".to_string(),
        },
    );
    rec.apply(
        &mut libs,
        LibraryAction::ChangeTextColor {
            libname: "L".to_string(),
            symname: "S".to_string(),
            textnum: 0,
            old: Colors::Standard,
            new: Colors::Border,
        },
    );
    {
        let holder = libs.get(&"L".to_string()).unwrap();
        let sym = holder.library.as_ref().unwrap().syms.get(&"S".to_string()).unwrap();
        assert_eq!(sym.texts[0].text, "renamed");
        assert_eq!(sym.texts[0].color, Colors::Border);
    }
    assert!(rec.undo(&mut libs));
    assert!(rec.undo(&mut libs));
    let holder = libs.get(&"L".to_string()).unwrap();
    let sym = holder.library.as_ref().unwrap().syms.get(&"S".to_string()).unwrap();
    assert_eq!(sym.texts[0].text, "label");
    assert_eq!(sym.texts[0].color, Colors::Standard);
}

#[test]
fn drag_gesture_that_returns_home_leaves_no_trace() {
    // Create library "L", create symbol "S" in it, give the symbol a text,
    // then drag the text one inch right and back again: the two moves
    // annul, the text stands at its creation offset, and only the two
    // structural edits remain undoable.
    let (mut libs, mut rec) = with_symbol();
    let mut create = LibraryAction::CreateText {
        libname: "L".to_string(),
        symname: "S".to_string(),
        text: demo_text(),
    };
    create.apply(&mut libs);
    let home = symbol_text_location(&libs);
    rec.apply(
        &mut libs,
        LibraryAction::MoveText {
            libname: "L".to_string(),
            symname: "S".to_string(),
            textnum: 0,
            delta: Coordinates::Inches(127_000, 0),
        },
    );
    rec.apply(
        &mut libs,
        LibraryAction::MoveText {
            libname: "L".to_string(),
            symname: "S".to_string(),
            textnum: 0,
            delta: Coordinates::Inches(-127_000, 0),
        },
    );
    assert_eq!(symbol_text_location(&libs), home);
    assert_eq!(rec.len(), 2);
    // what is left to undo is exactly: create symbol, create library
    assert!(rec.undo(&mut libs));
    assert!(rec.undo(&mut libs));
    assert!(!rec.undo(&mut libs));
    assert_eq!(libs.len(), 0);
}

#[test]
fn library_moves_merge_into_one_gesture() {
    let (mut libs, mut rec) = with_symbol();
    let mut create = LibraryAction::CreateText {
        libname: "L".to_string(),
        symname: "S".to_string(),
        text: demo_text(),
    };
    create.apply(&mut libs);
    let home = symbol_text_location(&libs);
    rec.apply(
        &mut libs,
        LibraryAction::MoveText {
            libname: "L".to_string(),
            symname: "S".to_string(),
            textnum: 0,
            delta: Coordinates::Inches(100, 0),
        },
    );
    rec.apply(
        &mut libs,
        LibraryAction::MoveText {
            libname: "L".to_string(),
            symname: "S".to_string(),
            textnum: 0,
            delta: Coordinates::Inches(0, 200),
        },
    );
    assert_eq!(rec.len(), 3);
    assert!(rec.undo(&mut libs));
    assert_eq!(symbol_text_location(&libs), home);
}

#[test]
fn holder_path_and_can_save() {
    let mut h = LibraryHolder::new("L".to_string());
    assert!(!h.can_save());
    h.set_path(StoragePath::LocalFilesystem("/tmp/l.uol".to_string()));
    assert!(h.can_save());
}

#[test]
fn create_new_library_can_reinstall_a_taken_holder() {
    let (mut libs, mut rec) = fresh();
    let taken = LibraryHolder::new("M".to_string());
    rec.apply(
        &mut libs,
        LibraryAction::CreateNewLibrary { name: "M".to_string(), lib: Some(taken) },
    );
    assert!(libs.contains_key(&"M".to_string()));
    assert!(rec.undo(&mut libs));
    assert_eq!(libs.len(), 0);
}
