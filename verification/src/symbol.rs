//! Definitions and code pertaining to schematic symbols and their
//! definitions.

use vstd::prelude::*;
use crate::general::Coordinates;
use crate::library::Library;
use crate::schematic::TextOnPage;
use crate::schematic::TextOnPageView;

verus! {

/// Defines a pin for a symbol definition.
#[derive(Clone, Copy, PartialEq, Eq, Structural, Debug)]
pub struct Pin {
    /// The location of the pin
    pub location: Coordinates,
    /// The rotation of the pin, in thousandths of a degree
    pub rotation: i64,
}

impl View for Pin {
    type V = Pin;

    open spec fn view(&self) -> Pin {
        *self
    }
}

impl Pin {
    /// A pin at the given location, rotated by the given thousandths of a
    /// degree.
    pub fn new(location: Coordinates, rotation: i64) -> (r: Pin)
        ensures
            r == (Pin { location, rotation }),
    {
        Pin { location, rotation }
    }
}

/// Defines the mode for mouse interaction for symbols.
#[derive(PartialEq, Eq, Structural, Debug)]
pub enum MouseMode {
    /// Allows a user to select objects on the current schematic page
    Selection,
    /// Allows a user to drag text around on the current schematic page
    TextDrag,
    /// Allows new text to be placed on a page
    NewText,
    /// Allows creating new pins for a symbol, with a specified rotation
    NewPin,
}

/// A reference to either the library that has this reference or another
/// library.
#[derive(Clone, Debug, PartialEq)]
pub enum LibraryReference {
    /// The library reference refers to the containing library
    ThisOne,
    /// The library reference refers to another library by name
    Another(String),
}

/// The abstract value of a `LibraryReference`.
pub enum LibraryReferenceView {
    /// Refers to the containing library.
    ThisOne,
    /// Refers to another library by name.
    Another(Seq<char>),
}

impl View for LibraryReference {
    type V = LibraryReferenceView;

    open spec fn view(&self) -> LibraryReferenceView {
        match self {
            LibraryReference::ThisOne => LibraryReferenceView::ThisOne,
            LibraryReference::Another(s) => LibraryReferenceView::Another(s@),
        }
    }
}

impl LibraryReferenceView {
    /// The name the reference denotes, inside a library of the given name.
    pub open spec fn spec_name(self, containing: Seq<char>) -> Seq<char> {
        match self {
            LibraryReferenceView::ThisOne => containing,
            LibraryReferenceView::Another(s) => s,
        }
    }
}

impl LibraryReference {
    /// Return the name of the referenced library.
    pub fn get_name(&self, r: &Library) -> (name: String)
        ensures
            name@ == self@.spec_name(r.name@),
    {
        match self {
            LibraryReference::ThisOne => r.name.clone(),
            LibraryReference::Another(s) => s.clone(),
        }
    }

    /// An exact copy of the reference.
    pub fn duplicate(&self) -> (r: Self)
        ensures
            r@ == self@,
    {
        match self {
            LibraryReference::ThisOne => LibraryReference::ThisOne,
            LibraryReference::Another(s) => LibraryReference::Another(s.clone()),
        }
    }
}

/// A reference to a symbol in a library somewhere.
#[derive(Clone, Debug, PartialEq)]
pub struct SymbolReference {
    /// The library the symbol belongs to
    pub lib: LibraryReference,
    /// The symbol name in the library
    pub sym: String,
}

/// The abstract value of a `SymbolReference`.
#[verifier::ext_equal]
pub struct SymbolReferenceView {
    /// The library the symbol belongs to.
    pub lib: LibraryReferenceView,
    /// The symbol name in the library.
    pub sym: Seq<char>,
}

impl View for SymbolReference {
    type V = SymbolReferenceView;

    open spec fn view(&self) -> SymbolReferenceView {
        SymbolReferenceView { lib: self.lib@, sym: self.sym@ }
    }
}

impl SymbolReference {
    /// An exact copy of the reference.
    pub fn duplicate(&self) -> (r: Self)
        ensures
            r@ == self@,
    {
        SymbolReference { lib: self.lib.duplicate(), sym: self.sym.clone() }
    }
}

/// Defines what a symbol should look like.
#[derive(Debug, PartialEq)]
pub struct SymbolDefinition {
    /// The name of the Symbol
    pub name: String,
    /// The text in a symbol
    pub texts: Vec<TextOnPage>,
    /// The pins for a symbol
    pub pins: Vec<Pin>,
}

/// The abstract value of a `SymbolDefinition`.
#[verifier::ext_equal]
pub struct SymbolDefinitionView {
    /// The name of the symbol.
    pub name: Seq<char>,
    /// The text in the symbol.
    pub texts: Seq<TextOnPageView>,
    /// The pins of the symbol.
    pub pins: Seq<Pin>,
}

impl View for SymbolDefinition {
    type V = SymbolDefinitionView;

    open spec fn view(&self) -> SymbolDefinitionView {
        SymbolDefinitionView {
            name: self.name@,
            texts: self.texts@.map_values(|t: TextOnPage| t@),
            pins: self.pins@.map_values(|p: Pin| p@),
        }
    }
}

impl SymbolDefinition {
    /// Create a new named definition.
    pub fn new(name: String) -> (r: Self)
        ensures
            r@.name == name@,
            r@.texts == Seq::<TextOnPageView>::empty(),
            r@.pins == Seq::<Pin>::empty(),
    {
        let r = SymbolDefinition { name, texts: Vec::new(), pins: Vec::new() };
        proof {
            assert(r@.texts =~= Seq::<TextOnPageView>::empty());
            assert(r@.pins =~= Seq::<Pin>::empty());
        }
        r
    }
}

/// The possible objects to select in a symbol widget.
#[derive(Debug)]
pub enum SymbolWidgetSelection {
    /// A basic text field of a symbol
    Text {
        /// The text identifier
        textnum: usize,
    },
    /// A pin of a symbol
    Pin {
        /// The pin identifier
        pinnum: usize,
    },
}

} // verus!
