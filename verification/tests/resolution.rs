//! Tests of target resolution: component and symbol lookups through the
//! collection of libraries, and the name map they rest on.

use schematic_editor::component::{ComponentDefinition, ComponentVariant,
    ComponentVariantReference};
use schematic_editor::general::Coordinates;
use schematic_editor::library::{LibraryAction, LibraryHolder};
use schematic_editor::name_map::NameMap;
use schematic_editor::record::{Action, Record};
use schematic_editor::symbol::{LibraryReference, SymbolReference};

type Libs = NameMap<LibraryHolder>;

fn build_libs() -> Libs {
    let mut libs: Libs = NameMap::new();
    let mut rec: Record<Libs, LibraryAction> = Record::new(&libs);
    rec.apply(&mut libs, LibraryAction::CreateNewLibrary { name: "L".to_string(), lib: None });
    rec.apply(
        &mut libs,
        LibraryAction::CreateSymbol { libname: "L".to_string(), symname: "S".to_string() },
    );
    rec.apply(
        &mut libs,
        LibraryAction::CreateComponent { libname: "L".to_string(), comname: "C".to_string() },
    );
    rec.apply(
        &mut libs,
        LibraryAction::CreateComponentVariant {
            libname: "L".to_string(),
            comname: "C".to_string(),
            varname: "V".to_string(),
            variant: None,
        },
    );
    let mut bind = LibraryAction::ChangeComponentVariantSymbol {
        libname: "L".to_string(),
        comname: "C".to_string(),
        varname: "V".to_string(),
        sref: Some(SymbolReference { lib: LibraryReference::ThisOne, sym: "S".to_string() }),
    };
    bind.apply(&mut libs);
    libs
}

fn reference(var: &str) -> ComponentVariantReference {
    ComponentVariantReference {
        lib: "L".to_string(),
        com: "C".to_string(),
        var: var.to_string(),
        pos: Coordinates::Inches(0, 0),
    }
}

#[test]
fn get_component_resolves_the_path() {
    let libs = build_libs();
    let r = reference("V");
    let v = r.get_component(&libs);
    assert!(v.is_some());
    assert_eq!(v.unwrap().name, "V");
}

#[test]
fn get_component_is_none_on_any_missing_link() {
    let libs = build_libs();
    assert!(reference("other").get_component(&libs).is_none());
    let mut r = reference("V");
    r.lib = "missing".to_string();
    assert!(r.get_component(&libs).is_none());
    let mut r2 = reference("V");
    r2.com = "missing".to_string();
    assert!(r2.get_component(&libs).is_none());
}

#[test]
fn get_symbol_follows_the_variant_binding() {
    let libs = build_libs();
    let r = reference("V");
    let s = r.get_symbol(&libs);
    assert!(s.is_some());
    assert_eq!(s.unwrap().name, "S");
}

#[test]
fn get_symbol_is_none_when_unbound() {
    let mut libs = build_libs();
    let mut unbind = LibraryAction::ChangeComponentVariantSymbol {
        libname: "L".to_string(),
        comname: "C".to_string(),
        varname: "V".to_string(),
        sref: None,
    };
    unbind.apply(&mut libs);
    assert!(reference("V").get_symbol(&libs).is_none());
}

#[test]
fn library_reference_names() {
    let libs = build_libs();
    let holder = libs.get(&"L".to_string()).unwrap();
    let lib = holder.library.as_ref().unwrap();
    assert_eq!(LibraryReference::ThisOne.get_name(lib), "L");
    assert_eq!(LibraryReference::Another("other".to_string()).get_name(lib), "other");
}

#[test]
fn name_map_insert_get_remove() {
    let mut m: NameMap<ComponentVariant> = NameMap::new();
    assert_eq!(m.len(), 0);
    m.insert("a".to_string(), ComponentVariant::new("a".to_string()));
    m.insert("b".to_string(), ComponentVariant::new("b".to_string()));
    assert_eq!(m.len(), 2);
    assert!(m.contains_key(&"a".to_string()));
    assert_eq!(m.get(&"b".to_string()).unwrap().name, "b");
    // overwrite keeps one entry per name
    m.insert("a".to_string(), ComponentVariant::new("a2".to_string()));
    assert_eq!(m.len(), 2);
    assert_eq!(m.get(&"a".to_string()).unwrap().name, "a2");
    let taken = m.remove(&"a".to_string());
    assert_eq!(taken.unwrap().name, "a2");
    assert_eq!(m.len(), 1);
    assert!(m.remove(&"missing".to_string()).is_none());
}

#[test]
fn name_map_entry_at_enumerates() {
    let mut m: NameMap<ComponentDefinition> = NameMap::new();
    m.insert("x".to_string(), ComponentDefinition::new("x".to_string()));
    m.insert("y".to_string(), ComponentDefinition::new("y".to_string()));
    let mut seen: Vec<String> = Vec::new();
    for i in 0..m.len() {
        let (k, v) = m.entry_at(i);
        assert_eq!(*k, v.name);
        seen.push(k.clone());
    }
    seen.sort();
    assert_eq!(seen, vec!["x".to_string(), "y".to_string()]);
}
