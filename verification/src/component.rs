//! Defines what a component is. It brings together the schematic symbol of
//! a part and the places that refer to it.

use vstd::prelude::*;
use crate::general::Coordinates;
use crate::library::{LibraryHolder, lib_at, libsym_at, libsym_valid, var_at, var_valid,
    LibrariesView};
use crate::name_map::NameMap;
use crate::symbol::{SymbolDefinition, SymbolDefinitionView, SymbolReference,
    SymbolReferenceView};

verus! {

/// A reference to a variant of a component: the path of names that places
/// a library variant onto a page, plus its position there.
#[derive(Clone, Debug, PartialEq)]
pub struct ComponentVariantReference {
    /// The library the component belongs to
    pub lib: String,
    /// The component name in the library
    pub com: String,
    /// The variant name of the component
    pub var: String,
    /// The position of the variant
    pub pos: Coordinates,
}

/// The abstract value of a `ComponentVariantReference`.
#[verifier::ext_equal]
pub struct ComponentVariantReferenceView {
    /// The library the component belongs to.
    pub lib: Seq<char>,
    /// The component name in the library.
    pub com: Seq<char>,
    /// The variant name of the component.
    pub var: Seq<char>,
    /// The position of the variant.
    pub pos: Coordinates,
}

impl View for ComponentVariantReference {
    type V = ComponentVariantReferenceView;

    open spec fn view(&self) -> ComponentVariantReferenceView {
        ComponentVariantReferenceView {
            lib: self.lib@,
            com: self.com@,
            var: self.var@,
            pos: self.pos,
        }
    }
}

impl ComponentVariantReference {
    /// An exact copy of the reference.
    pub fn duplicate(&self) -> (r: Self)
        ensures
            r@ == self@,
    {
        ComponentVariantReference {
            lib: self.lib.clone(),
            com: self.com.clone(),
            var: self.var.clone(),
            pos: self.pos,
        }
    }
}

/// A variant of a component, with a link to the schematic symbol that
/// might draw it.
#[derive(Clone, Debug, PartialEq)]
pub struct ComponentVariant {
    /// The symbol for the variant
    pub symbol: Option<SymbolReference>,
    /// The name of the variant
    pub name: String,
}

/// The abstract value of a `ComponentVariant`.
#[verifier::ext_equal]
pub struct ComponentVariantView {
    /// The symbol for the variant.
    pub symbol: Option<SymbolReferenceView>,
    /// The name of the variant.
    pub name: Seq<char>,
}

impl View for ComponentVariant {
    type V = ComponentVariantView;

    open spec fn view(&self) -> ComponentVariantView {
        ComponentVariantView {
            symbol: match &self.symbol {
                Some(s) => Some(s@),
                None => None,
            },
            name: self.name@,
        }
    }
}

impl ComponentVariant {
    /// Create a named component variant.
    pub fn new(name: String) -> (r: Self)
        ensures
            r@.symbol is None,
            r@.name == name@,
    {
        ComponentVariant { symbol: None, name }
    }

    /// An exact copy of the variant.
    pub fn duplicate(&self) -> (r: Self)
        ensures
            r@ == self@,
    {
        ComponentVariant {
            symbol: match &self.symbol {
                Some(s) => Some(s.duplicate()),
                None => None,
            },
            name: self.name.clone(),
        }
    }
}

/// The definition of a component.
#[derive(Debug, PartialEq)]
pub struct ComponentDefinition {
    /// The name of the component
    pub name: String,
    /// The variants of a component are intended to be somewhat
    /// interchangable with each other.
    pub variants: NameMap<ComponentVariant>,
}

/// The abstract value of a `ComponentDefinition`.
#[verifier::ext_equal]
pub struct ComponentDefinitionView {
    /// The name of the component.
    pub name: Seq<char>,
    /// The variants of the component, by name.
    pub variants: Map<Seq<char>, ComponentVariantView>,
}

impl View for ComponentDefinition {
    type V = ComponentDefinitionView;

    open spec fn view(&self) -> ComponentDefinitionView {
        ComponentDefinitionView { name: self.name@, variants: self.variants@ }
    }
}

impl ComponentDefinition {
    /// Create a blank component with the given name.
    pub fn new(name: String) -> (r: Self)
        ensures
            r@.name == name@,
            r@.variants == Map::<Seq<char>, ComponentVariantView>::empty(),
    {
        ComponentDefinition { name, variants: NameMap::new() }
    }
}


/// The component variant a reference resolves to inside a collection of
/// libraries, if every link of its path is present.
pub open spec fn spec_variant_lookup(
    t: LibrariesView,
    ln: Seq<char>,
    cn: Seq<char>,
    vn: Seq<char>,
) -> Option<ComponentVariantView> {
    if var_valid(t, ln, cn, vn) {
        Some(var_at(t, ln, cn, vn))
    } else {
        None
    }
}

/// The symbol definition a reference resolves to: the variant's symbol
/// reference, followed into the library it names, if every link of the
/// path is present.
pub open spec fn spec_symbol_lookup(
    t: LibrariesView,
    ln: Seq<char>,
    cn: Seq<char>,
    vn: Seq<char>,
) -> Option<SymbolDefinitionView> {
    if var_valid(t, ln, cn, vn) && var_at(t, ln, cn, vn).symbol is Some {
        let sr = var_at(t, ln, cn, vn).symbol->0;
        let target_lib = sr.lib.spec_name(lib_at(t, ln).name);
        if libsym_valid(t, target_lib, sr.sym) {
            Some(libsym_at(t, target_lib, sr.sym))
        } else {
            None
        }
    } else {
        None
    }
}

impl ComponentVariantReference {
    /// Get the component variant that the reference refers to. The lookup
    /// chain silently yields nothing when any link of the path is absent.
    pub fn get_component<'a>(&self, libs: &'a NameMap<LibraryHolder>) -> (r: Option<
        &'a ComponentVariant,
    >)
        ensures
            match r {
                Some(v) => spec_variant_lookup(libs@, self.lib@, self.com@, self.var@) == Some(v@),
                None => spec_variant_lookup(libs@, self.lib@, self.com@, self.var@) is None,
            },
    {
        if let Some(libh) = libs.get(&self.lib) {
            if let Some(lib) = &libh.library {
                if let Some(component) = lib.components.get(&self.com) {
                    return component.variants.get(&self.var);
                }
            }
        }
        None
    }

    /// Get a symbol definition from the component variant reference,
    /// following the variant's symbol reference into the library it names.
    pub fn get_symbol<'a>(&self, libs: &'a NameMap<LibraryHolder>) -> (r: Option<
        &'a SymbolDefinition,
    >)
        ensures
            match r {
                Some(s) => spec_symbol_lookup(libs@, self.lib@, self.com@, self.var@) == Some(s@),
                None => spec_symbol_lookup(libs@, self.lib@, self.com@, self.var@) is None,
            },
    {
        if let Some(component) = self.get_component(libs) {
            if let Some(sym) = &component.symbol {
                if let Some(libraryh) = libs.get(&self.lib) {
                    if let Some(library) = &libraryh.library {
                        let name = sym.lib.get_name(library);
                        if let Some(libh) = libs.get(&name) {
                            if let Some(lib) = &libh.library {
                                return lib.syms.get(&sym.sym);
                            }
                        }
                    }
                }
            }
        }
        None
    }
}

} // verus!
