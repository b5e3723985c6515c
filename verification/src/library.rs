//! Defines what a library is, and the family of reversible actions that
//! edit the application's collection of libraries.

use vstd::prelude::*;
use crate::component::{ComponentDefinition, ComponentDefinitionView, ComponentVariant,
    ComponentVariantView};
use crate::general::{Coordinates, StorageFormat, StoragePath, StoragePathView};
use crate::name_map::NameMap;
use crate::record::{Action, Merged, MergedView};
use crate::schematic::{Colors, TextOnPage, TextOnPageView};
use crate::symbol::{Pin, SymbolDefinition, SymbolDefinitionView, SymbolReference,
    SymbolReferenceView};

verus! {

/// A library: a collection of symbols and components under one name.
#[derive(Debug, PartialEq)]
pub struct Library {
    /// The name of the library. Must be unique for the system
    pub name: String,
    /// The symbols defined in the library
    pub syms: NameMap<SymbolDefinition>,
    /// The components defined in the library
    pub components: NameMap<ComponentDefinition>,
}

/// The abstract value of a `Library`.
#[verifier::ext_equal]
pub struct LibraryView {
    /// The name of the library.
    pub name: Seq<char>,
    /// The symbols defined in the library, by name.
    pub syms: Map<Seq<char>, SymbolDefinitionView>,
    /// The components defined in the library, by name.
    pub components: Map<Seq<char>, ComponentDefinitionView>,
}

impl View for Library {
    type V = LibraryView;

    open spec fn view(&self) -> LibraryView {
        LibraryView { name: self.name@, syms: self.syms@, components: self.components@ }
    }
}

impl Library {
    /// Create a new blank library.
    fn new(name: String) -> (r: Self)
        ensures
            r@.name == name@,
            r@.syms == Map::<Seq<char>, SymbolDefinitionView>::empty(),
            r@.components == Map::<Seq<char>, ComponentDefinitionView>::empty(),
    {
        Library { name, syms: NameMap::new(), components: NameMap::new() }
    }
}


/// Separates data to be stored from data that is not to be stored.
#[derive(Debug, PartialEq)]
pub struct LibraryHolder {
    /// The library, containing stored data
    pub library: Option<Library>,
    /// Where the library is stored
    pub path: Option<StoragePath>,
    /// The file format to save the library in
    pub format: StorageFormat,
}

/// The abstract value of a `LibraryHolder`.
#[verifier::ext_equal]
pub struct LibraryHolderView {
    /// The library, containing stored data.
    pub library: Option<LibraryView>,
    /// Where the library is stored.
    pub path: Option<StoragePathView>,
    /// The file format to save the library in.
    pub format: StorageFormat,
}

impl View for LibraryHolder {
    type V = LibraryHolderView;

    open spec fn view(&self) -> LibraryHolderView {
        LibraryHolderView {
            library: match &self.library {
                Some(l) => Some(l@),
                None => None,
            },
            path: match &self.path {
                Some(p) => Some(p@),
                None => None,
            },
            format: self.format,
        }
    }
}

impl LibraryHolder {
    /// Sets the save path for the library.
    pub fn set_path(&mut self, p: StoragePath)
        ensures
            final(self)@ == (LibraryHolderView { path: Some(p@), ..old(self)@ }),
    {
        self.path = Some(p);
    }

    /// Returns true when the save function can probably run properly.
    pub fn can_save(&self) -> (r: bool)
        ensures
            r == (self@.path is Some),
    {
        self.path.is_some()
    }

    /// Create a new blank library holder, with a new library.
    pub fn new(name: String) -> (r: Self)
        ensures
            r@ == fresh_holder(name@),
    {
        let r = LibraryHolder {
            library: Some(Library::new(name)),
            path: None,
            format: StorageFormat::Toml,
        };
        proof {
            assert(r@ =~~= fresh_holder(r.library->0.name@));
        }
        r
    }

    /// Install a library that was just loaded from storage.
    pub fn from_loaded(library: Library, path: Option<StoragePath>, format: StorageFormat) -> (
        r: Self)
        ensures
            r@.library == Some(library@),
            r@.path == match path {
                Some(p) => Some(p@),
                None => None::<StoragePathView>,
            },
            r@.format == format,
    {
        LibraryHolder { library: Some(library), path, format }
    }
}

/// The value of a holder freshly made around an empty library of the given
/// name.
pub open spec fn fresh_holder(name: Seq<char>) -> LibraryHolderView {
    LibraryHolderView {
        library: Some(
            LibraryView {
                name,
                syms: Map::empty(),
                components: Map::empty(),
            },
        ),
        path: None,
        format: StorageFormat::Toml,
    }
}

/// The collection of libraries an action family edits: holders by name.
pub type LibrariesView = Map<Seq<char>, LibraryHolderView>;

/// Whether the named holder exists and holds a library.
pub open spec fn lib_valid(t: LibrariesView, ln: Seq<char>) -> bool {
    t.contains_key(ln) && t[ln].library is Some
}

/// The named library.
pub open spec fn lib_at(t: LibrariesView, ln: Seq<char>) -> LibraryView {
    t[ln].library->0
}

/// The collection with the named library replaced.
pub open spec fn upd_lib(t: LibrariesView, ln: Seq<char>, lv: LibraryView) -> LibrariesView {
    t.insert(ln, LibraryHolderView { library: Some(lv), ..t[ln] })
}

/// Whether the named library holds the named symbol.
pub open spec fn libsym_valid(t: LibrariesView, ln: Seq<char>, sn: Seq<char>) -> bool {
    lib_valid(t, ln) && lib_at(t, ln).syms.contains_key(sn)
}

/// The named symbol of the named library.
pub open spec fn libsym_at(t: LibrariesView, ln: Seq<char>, sn: Seq<char>) -> SymbolDefinitionView {
    lib_at(t, ln).syms[sn]
}

/// The collection with the named symbol replaced.
pub open spec fn upd_libsym(
    t: LibrariesView,
    ln: Seq<char>,
    sn: Seq<char>,
    sd: SymbolDefinitionView,
) -> LibrariesView {
    upd_lib(t, ln, LibraryView { syms: lib_at(t, ln).syms.insert(sn, sd), ..lib_at(t, ln) })
}

/// Whether the named symbol has a text at the index.
pub open spec fn symtext_valid(t: LibrariesView, ln: Seq<char>, sn: Seq<char>, tn: int) -> bool {
    libsym_valid(t, ln, sn) && 0 <= tn < libsym_at(t, ln, sn).texts.len()
}

/// The text at the index of the named symbol.
pub open spec fn symtext_at(t: LibrariesView, ln: Seq<char>, sn: Seq<char>, tn: int) -> TextOnPageView {
    libsym_at(t, ln, sn).texts[tn]
}

/// The collection with one text of one symbol replaced.
pub open spec fn upd_symtext(
    t: LibrariesView,
    ln: Seq<char>,
    sn: Seq<char>,
    tn: int,
    tx: TextOnPageView,
) -> LibrariesView {
    upd_libsym(
        t,
        ln,
        sn,
        SymbolDefinitionView { texts: libsym_at(t, ln, sn).texts.update(tn, tx), ..libsym_at(t, ln, sn) },
    )
}

/// Whether the named library holds the named component.
pub open spec fn comp_valid(t: LibrariesView, ln: Seq<char>, cn: Seq<char>) -> bool {
    lib_valid(t, ln) && lib_at(t, ln).components.contains_key(cn)
}

/// The named component of the named library.
pub open spec fn comp_at(t: LibrariesView, ln: Seq<char>, cn: Seq<char>) -> ComponentDefinitionView {
    lib_at(t, ln).components[cn]
}

/// The collection with the named component replaced.
pub open spec fn upd_comp(
    t: LibrariesView,
    ln: Seq<char>,
    cn: Seq<char>,
    cd: ComponentDefinitionView,
) -> LibrariesView {
    upd_lib(
        t,
        ln,
        LibraryView { components: lib_at(t, ln).components.insert(cn, cd), ..lib_at(t, ln) },
    )
}

/// Whether the named component has the named variant.
pub open spec fn var_valid(t: LibrariesView, ln: Seq<char>, cn: Seq<char>, vn: Seq<char>) -> bool {
    comp_valid(t, ln, cn) && comp_at(t, ln, cn).variants.contains_key(vn)
}

/// The named variant of the named component.
pub open spec fn var_at(t: LibrariesView, ln: Seq<char>, cn: Seq<char>, vn: Seq<char>) -> ComponentVariantView {
    comp_at(t, ln, cn).variants[vn]
}

/// The collection with the named variant replaced.
pub open spec fn upd_var(
    t: LibrariesView,
    ln: Seq<char>,
    cn: Seq<char>,
    vn: Seq<char>,
    v: ComponentVariantView,
) -> LibrariesView {
    upd_comp(
        t,
        ln,
        cn,
        ComponentDefinitionView { variants: comp_at(t, ln, cn).variants.insert(vn, v), ..comp_at(t, ln, cn) },
    )
}

/// Replacing a text keeps the path shape and stores the text.
pub proof fn lemma_upd_symtext_read(
    t: LibrariesView,
    ln: Seq<char>,
    sn: Seq<char>,
    tn: int,
    tx: TextOnPageView,
)
    requires
        symtext_valid(t, ln, sn, tn),
    ensures
        symtext_valid(upd_symtext(t, ln, sn, tn, tx), ln, sn, tn),
        symtext_at(upd_symtext(t, ln, sn, tn, tx), ln, sn, tn) == tx,
        libsym_at(upd_symtext(t, ln, sn, tn, tx), ln, sn).texts.len() == libsym_at(
            t,
            ln,
            sn,
        ).texts.len(),
{
}

/// Replacing a text twice is replacing it once, with the second value.
pub proof fn lemma_upd_symtext_collapse(
    t: LibrariesView,
    ln: Seq<char>,
    sn: Seq<char>,
    tn: int,
    tx1: TextOnPageView,
    tx2: TextOnPageView,
)
    requires
        symtext_valid(t, ln, sn, tn),
    ensures
        upd_symtext(upd_symtext(t, ln, sn, tn, tx1), ln, sn, tn, tx2) == upd_symtext(
            t,
            ln,
            sn,
            tn,
            tx2,
        ),
{
    assert(upd_symtext(upd_symtext(t, ln, sn, tn, tx1), ln, sn, tn, tx2) =~~= upd_symtext(
        t,
        ln,
        sn,
        tn,
        tx2,
    ));
}

/// Replacing a text by itself changes nothing.
pub proof fn lemma_upd_symtext_same(t: LibrariesView, ln: Seq<char>, sn: Seq<char>, tn: int)
    requires
        symtext_valid(t, ln, sn, tn),
    ensures
        upd_symtext(t, ln, sn, tn, symtext_at(t, ln, sn, tn)) == t,
{
    assert(upd_symtext(t, ln, sn, tn, symtext_at(t, ln, sn, tn)) =~~= t);
}


/// The actions that can be done to the collection of libraries.
#[derive(Debug, PartialEq)]
pub enum LibraryAction {
    /// Create a new empty library, lib should be None
    CreateNewLibrary {
        /// The name of the library
        name: String,
        /// The holder for when creation is undone
        lib: Option<LibraryHolder>,
    },
    /// Delete an existing library, old_lib should be None
    DeleteLibrary {
        /// The name of the library
        name: String,
        /// Hold the old library when required
        old_lib: Option<LibraryHolder>,
    },
    /// Move text on a symbol by a certain amount
    MoveText {
        /// The name of the library
        libname: String,
        /// The symbol name
        symname: String,
        /// The text number
        textnum: usize,
        /// The delta to move by
        delta: Coordinates,
    },
    /// Create a new text
    CreateText {
        /// The name of the library
        libname: String,
        /// The symbol name
        symname: String,
        /// The new text
        text: TextOnPage,
    },
    /// Edits the text of a text object
    EditText {
        /// The name of the library
        libname: String,
        /// The symbol name
        symname: String,
        /// The text number
        textnum: usize,
        /// The old text
        old: String,
        /// The new text
        new: String,
    },
    /// Change the text color of a text object
    ChangeTextColor {
        /// The name of the library
        libname: String,
        /// The symbol name
        symname: String,
        /// The text number
        textnum: usize,
        /// The old color
        old: Colors,
        /// The new color
        new: Colors,
    },
    /// Delete a symbol from the library, symbol must be None
    DeleteSymbol {
        /// The name of the library
        libname: String,
        /// The name of the symbol to delete
        symname: String,
        /// The deleted object
        symbol: Option<SymbolDefinition>,
    },
    /// Add a new blank symbol to the library
    CreateSymbol {
        /// The name of the library
        libname: String,
        /// The name of the symbol to create
        symname: String,
    },
    /// Add a pin to a symbol in the library
    CreatePin {
        /// The name of the library
        libname: String,
        /// The name of the symbol to add the pin to
        symname: String,
        /// The pin to add, must be a Some variant
        pin: Option<Pin>,
    },
    /// Add a new component to the library
    CreateComponent {
        /// The name of the library
        libname: String,
        /// The name of the component to create
        comname: String,
    },
    /// Delete a component from the library, component must be None
    DeleteComponent {
        /// The name of the library
        libname: String,
        /// The name of the component to delete
        comname: String,
        /// The deleted object
        component: Option<ComponentDefinition>,
    },
    /// Create a variant for a component in a library, variant should be None
    CreateComponentVariant {
        /// The name of the library
        libname: String,
        /// The name of the component to modify
        comname: String,
        /// The name of the variant
        varname: String,
        /// Temporary storage for the variant. This should be a None
        variant: Option<ComponentVariant>,
    },
    /// Delete a variant for a component in a library, variant should be None
    DeleteComponentVariant {
        /// The name of the library
        libname: String,
        /// The name of the component to modify
        comname: String,
        /// The name of the variant
        varname: String,
        /// Temporary storage for the variant. This should be a None
        variant: Option<ComponentVariant>,
    },
    /// Change the symbol for a variant of a component
    ChangeComponentVariantSymbol {
        /// The name of the library
        libname: String,
        /// The name of the component to modify
        comname: String,
        /// The name of the variant
        varname: String,
        /// The symbol reference to exchange with the variant's present one
        sref: Option<SymbolReference>,
    },
}

/// The abstract value of a `LibraryAction`.
#[verifier::ext_equal]
pub enum LibraryActionView {
    /// Create a new empty library.
    CreateNewLibrary {
        /// The name of the library.
        name: Seq<char>,
        /// The holder for when creation is undone.
        lib: Option<LibraryHolderView>,
    },
    /// Delete an existing library.
    DeleteLibrary {
        /// The name of the library.
        name: Seq<char>,
        /// Holds the old library while deleted.
        old_lib: Option<LibraryHolderView>,
    },
    /// Move text on a symbol by a certain amount.
    MoveText {
        /// The name of the library.
        libname: Seq<char>,
        /// The symbol name.
        symname: Seq<char>,
        /// The text number.
        textnum: int,
        /// The delta to move by.
        delta: Coordinates,
    },
    /// Create a new text.
    CreateText {
        /// The name of the library.
        libname: Seq<char>,
        /// The symbol name.
        symname: Seq<char>,
        /// The new text.
        text: TextOnPageView,
    },
    /// Edit the text of a text object.
    EditText {
        /// The name of the library.
        libname: Seq<char>,
        /// The symbol name.
        symname: Seq<char>,
        /// The text number.
        textnum: int,
        /// The old text.
        old: Seq<char>,
        /// The new text.
        new: Seq<char>,
    },
    /// Change the text color of a text object.
    ChangeTextColor {
        /// The name of the library.
        libname: Seq<char>,
        /// The symbol name.
        symname: Seq<char>,
        /// The text number.
        textnum: int,
        /// The old color.
        old: Colors,
        /// The new color.
        new: Colors,
    },
    /// Delete a symbol from the library.
    DeleteSymbol {
        /// The name of the library.
        libname: Seq<char>,
        /// The name of the symbol to delete.
        symname: Seq<char>,
        /// The deleted object.
        symbol: Option<SymbolDefinitionView>,
    },
    /// Add a new blank symbol to the library.
    CreateSymbol {
        /// The name of the library.
        libname: Seq<char>,
        /// The name of the symbol to create.
        symname: Seq<char>,
    },
    /// Add a pin to a symbol in the library.
    CreatePin {
        /// The name of the library.
        libname: Seq<char>,
        /// The name of the symbol to add the pin to.
        symname: Seq<char>,
        /// The pin to add.
        pin: Option<Pin>,
    },
    /// Add a new component to the library.
    CreateComponent {
        /// The name of the library.
        libname: Seq<char>,
        /// The name of the component to create.
        comname: Seq<char>,
    },
    /// Delete a component from the library.
    DeleteComponent {
        /// The name of the library.
        libname: Seq<char>,
        /// The name of the component to delete.
        comname: Seq<char>,
        /// The deleted object.
        component: Option<ComponentDefinitionView>,
    },
    /// Create a variant for a component in a library.
    CreateComponentVariant {
        /// The name of the library.
        libname: Seq<char>,
        /// The name of the component to modify.
        comname: Seq<char>,
        /// The name of the variant.
        varname: Seq<char>,
        /// Temporary storage for the variant.
        variant: Option<ComponentVariantView>,
    },
    /// Delete a variant for a component in a library.
    DeleteComponentVariant {
        /// The name of the library.
        libname: Seq<char>,
        /// The name of the component to modify.
        comname: Seq<char>,
        /// The name of the variant.
        varname: Seq<char>,
        /// Temporary storage for the variant.
        variant: Option<ComponentVariantView>,
    },
    /// Change the symbol for a variant of a component.
    ChangeComponentVariantSymbol {
        /// The name of the library.
        libname: Seq<char>,
        /// The name of the component to modify.
        comname: Seq<char>,
        /// The name of the variant.
        varname: Seq<char>,
        /// The symbol reference to exchange with the variant's present one.
        sref: Option<SymbolReferenceView>,
    },
}

impl View for LibraryAction {
    type V = LibraryActionView;

    open spec fn view(&self) -> LibraryActionView {
        match self {
            LibraryAction::CreateNewLibrary { name, lib } => LibraryActionView::CreateNewLibrary {
                name: name@,
                lib: match lib {
                    Some(l) => Some(l@),
                    None => None,
                },
            },
            LibraryAction::DeleteLibrary { name, old_lib } => LibraryActionView::DeleteLibrary {
                name: name@,
                old_lib: match old_lib {
                    Some(l) => Some(l@),
                    None => None,
                },
            },
            LibraryAction::MoveText { libname, symname, textnum, delta } => LibraryActionView::MoveText {
                libname: libname@,
                symname: symname@,
                textnum: *textnum as int,
                delta: *delta,
            },
            LibraryAction::CreateText { libname, symname, text } => LibraryActionView::CreateText {
                libname: libname@,
                symname: symname@,
                text: text@,
            },
            LibraryAction::EditText { libname, symname, textnum, old, new } => LibraryActionView::EditText {
                libname: libname@,
                symname: symname@,
                textnum: *textnum as int,
                old: old@,
                new: new@,
            },
            LibraryAction::ChangeTextColor { libname, symname, textnum, old, new } => LibraryActionView::ChangeTextColor {
                libname: libname@,
                symname: symname@,
                textnum: *textnum as int,
                old: *old,
                new: *new,
            },
            LibraryAction::DeleteSymbol { libname, symname, symbol } => LibraryActionView::DeleteSymbol {
                libname: libname@,
                symname: symname@,
                symbol: match symbol {
                    Some(s) => Some(s@),
                    None => None,
                },
            },
            LibraryAction::CreateSymbol { libname, symname } => LibraryActionView::CreateSymbol {
                libname: libname@,
                symname: symname@,
            },
            LibraryAction::CreatePin { libname, symname, pin } => LibraryActionView::CreatePin {
                libname: libname@,
                symname: symname@,
                pin: match pin {
                    Some(p) => Some(*p),
                    None => None,
                },
            },
            LibraryAction::CreateComponent { libname, comname } => LibraryActionView::CreateComponent {
                libname: libname@,
                comname: comname@,
            },
            LibraryAction::DeleteComponent { libname, comname, component } => LibraryActionView::DeleteComponent {
                libname: libname@,
                comname: comname@,
                component: match component {
                    Some(c) => Some(c@),
                    None => None,
                },
            },
            LibraryAction::CreateComponentVariant {
                libname,
                comname,
                varname,
                variant,
            } => LibraryActionView::CreateComponentVariant {
                libname: libname@,
                comname: comname@,
                varname: varname@,
                variant: match variant {
                    Some(v) => Some(v@),
                    None => None,
                },
            },
            LibraryAction::DeleteComponentVariant {
                libname,
                comname,
                varname,
                variant,
            } => LibraryActionView::DeleteComponentVariant {
                libname: libname@,
                comname: comname@,
                varname: varname@,
                variant: match variant {
                    Some(v) => Some(v@),
                    None => None,
                },
            },
            LibraryAction::ChangeComponentVariantSymbol {
                libname,
                comname,
                varname,
                sref,
            } => LibraryActionView::ChangeComponentVariantSymbol {
                libname: libname@,
                comname: comname@,
                varname: varname@,
                sref: match sref {
                    Some(s) => Some(s@),
                    None => None,
                },
            },
        }
    }
}

/// What applying a library action does: the stored entry and the new
/// collection of libraries. An action whose target path does not resolve
/// is a no-op.
pub open spec fn lib_apply(a: LibraryActionView, t: LibrariesView) -> (
    LibraryActionView,
    LibrariesView,
) {
    match a {
        LibraryActionView::CreateNewLibrary { name, lib } => match lib {
            Some(l) => (
                LibraryActionView::CreateNewLibrary { name, lib: None },
                t.insert(name, l),
            ),
            None => (a, t.insert(name, fresh_holder(name))),
        },
        LibraryActionView::DeleteLibrary { name, old_lib } => {
            if t.contains_key(name) {
                (
                    LibraryActionView::DeleteLibrary { name, old_lib: Some(t[name]) },
                    t.remove(name),
                )
            } else {
                (a, t)
            }
        },
        LibraryActionView::MoveText { libname, symname, textnum, delta } => {
            if symtext_valid(t, libname, symname, textnum) {
                let tx = symtext_at(t, libname, symname, textnum);
                (
                    a,
                    upd_symtext(
                        t,
                        libname,
                        symname,
                        textnum,
                        TextOnPageView { location: tx.location.spec_add(delta), ..tx },
                    ),
                )
            } else {
                (a, t)
            }
        },
        LibraryActionView::CreateText { libname, symname, text } => {
            if libsym_valid(t, libname, symname) {
                let sym = libsym_at(t, libname, symname);
                (
                    a,
                    upd_libsym(
                        t,
                        libname,
                        symname,
                        SymbolDefinitionView { texts: sym.texts.push(text), ..sym },
                    ),
                )
            } else {
                (a, t)
            }
        },
        LibraryActionView::EditText { libname, symname, textnum, old, new } => {
            if symtext_valid(t, libname, symname, textnum) {
                let tx = symtext_at(t, libname, symname, textnum);
                (
                    a,
                    upd_symtext(t, libname, symname, textnum, TextOnPageView { text: new, ..tx }),
                )
            } else {
                (a, t)
            }
        },
        LibraryActionView::ChangeTextColor { libname, symname, textnum, old, new } => {
            if symtext_valid(t, libname, symname, textnum) {
                let tx = symtext_at(t, libname, symname, textnum);
                (
                    a,
                    upd_symtext(t, libname, symname, textnum, TextOnPageView { color: new, ..tx }),
                )
            } else {
                (a, t)
            }
        },
        LibraryActionView::DeleteSymbol { libname, symname, symbol } => {
            if lib_valid(t, libname) {
                let lib = lib_at(t, libname);
                if lib.syms.contains_key(symname) {
                    (
                        LibraryActionView::DeleteSymbol {
                            libname,
                            symname,
                            symbol: Some(lib.syms[symname]),
                        },
                        upd_lib(t, libname, LibraryView { syms: lib.syms.remove(symname), ..lib }),
                    )
                } else {
                    (LibraryActionView::DeleteSymbol { libname, symname, symbol: None }, t)
                }
            } else {
                (a, t)
            }
        },
        LibraryActionView::CreateSymbol { libname, symname } => {
            if lib_valid(t, libname) {
                let lib = lib_at(t, libname);
                (
                    a,
                    upd_lib(
                        t,
                        libname,
                        LibraryView {
                            syms: lib.syms.insert(
                                symname,
                                SymbolDefinitionView {
                                    name: symname,
                                    texts: Seq::empty(),
                                    pins: Seq::empty(),
                                },
                            ),
                            ..lib
                        },
                    ),
                )
            } else {
                (a, t)
            }
        },
        LibraryActionView::CreatePin { libname, symname, pin } => match pin {
            Some(p) => {
                let a1 = LibraryActionView::CreatePin { libname, symname, pin: None };
                if libsym_valid(t, libname, symname) {
                    let sym = libsym_at(t, libname, symname);
                    (
                        a1,
                        upd_libsym(
                            t,
                            libname,
                            symname,
                            SymbolDefinitionView { pins: sym.pins.push(p), ..sym },
                        ),
                    )
                } else {
                    (a1, t)
                }
            },
            None => (a, t),
        },
        LibraryActionView::CreateComponent { libname, comname } => {
            if lib_valid(t, libname) {
                let lib = lib_at(t, libname);
                (
                    a,
                    upd_lib(
                        t,
                        libname,
                        LibraryView {
                            components: lib.components.insert(
                                comname,
                                ComponentDefinitionView { name: comname, variants: Map::empty() },
                            ),
                            ..lib
                        },
                    ),
                )
            } else {
                (a, t)
            }
        },
        LibraryActionView::DeleteComponent { libname, comname, component } => {
            if lib_valid(t, libname) {
                let lib = lib_at(t, libname);
                if lib.components.contains_key(comname) {
                    (
                        LibraryActionView::DeleteComponent {
                            libname,
                            comname,
                            component: Some(lib.components[comname]),
                        },
                        upd_lib(
                            t,
                            libname,
                            LibraryView { components: lib.components.remove(comname), ..lib },
                        ),
                    )
                } else {
                    (LibraryActionView::DeleteComponent { libname, comname, component: None }, t)
                }
            } else {
                (a, t)
            }
        },
        LibraryActionView::CreateComponentVariant { libname, comname, varname, variant } => {
            let a1 = LibraryActionView::CreateComponentVariant {
                libname,
                comname,
                varname,
                variant: None,
            };
            if comp_valid(t, libname, comname) {
                (
                    a1,
                    upd_var(
                        t,
                        libname,
                        comname,
                        varname,
                        ComponentVariantView { symbol: None, name: varname },
                    ),
                )
            } else {
                (a1, t)
            }
        },
        LibraryActionView::DeleteComponentVariant { libname, comname, varname, variant } => {
            if comp_valid(t, libname, comname) {
                let comp = comp_at(t, libname, comname);
                if comp.variants.contains_key(varname) {
                    (
                        LibraryActionView::DeleteComponentVariant {
                            libname,
                            comname,
                            varname,
                            variant: Some(comp.variants[varname]),
                        },
                        upd_comp(
                            t,
                            libname,
                            comname,
                            ComponentDefinitionView {
                                variants: comp.variants.remove(varname),
                                ..comp
                            },
                        ),
                    )
                } else {
                    (
                        LibraryActionView::DeleteComponentVariant {
                            libname,
                            comname,
                            varname,
                            variant: None,
                        },
                        t,
                    )
                }
            } else {
                (a, t)
            }
        },
        LibraryActionView::ChangeComponentVariantSymbol { libname, comname, varname, sref } => {
            if var_valid(t, libname, comname, varname) {
                let v = var_at(t, libname, comname, varname);
                (
                    LibraryActionView::ChangeComponentVariantSymbol {
                        libname,
                        comname,
                        varname,
                        sref: v.symbol,
                    },
                    upd_var(
                        t,
                        libname,
                        comname,
                        varname,
                        ComponentVariantView { symbol: sref, ..v },
                    ),
                )
            } else {
                (a, t)
            }
        },
    }
}

/// What undoing a library action does: the restored ready action and the
/// collection with the mutation inverted. An action whose target path does
/// not resolve is a no-op.
pub open spec fn lib_undo(a: LibraryActionView, t: LibrariesView) -> (
    LibraryActionView,
    LibrariesView,
) {
    match a {
        LibraryActionView::CreateNewLibrary { name, lib } => {
            if t.contains_key(name) {
                (
                    LibraryActionView::CreateNewLibrary { name, lib: Some(t[name]) },
                    t.remove(name),
                )
            } else {
                (a, t)
            }
        },
        LibraryActionView::DeleteLibrary { name, old_lib } => match old_lib {
            Some(l) => (
                LibraryActionView::DeleteLibrary { name, old_lib: None },
                t.insert(name, l),
            ),
            None => (a, t),
        },
        LibraryActionView::MoveText { libname, symname, textnum, delta } => {
            if symtext_valid(t, libname, symname, textnum) {
                let tx = symtext_at(t, libname, symname, textnum);
                (
                    a,
                    upd_symtext(
                        t,
                        libname,
                        symname,
                        textnum,
                        TextOnPageView { location: tx.location.spec_sub(delta), ..tx },
                    ),
                )
            } else {
                (a, t)
            }
        },
        LibraryActionView::CreateText { libname, symname, text } => {
            if libsym_valid(t, libname, symname) && libsym_at(t, libname, symname).texts.len() > 0 {
                let sym = libsym_at(t, libname, symname);
                (
                    a,
                    upd_libsym(
                        t,
                        libname,
                        symname,
                        SymbolDefinitionView { texts: sym.texts.drop_last(), ..sym },
                    ),
                )
            } else {
                (a, t)
            }
        },
        LibraryActionView::EditText { libname, symname, textnum, old, new } => {
            if symtext_valid(t, libname, symname, textnum) {
                let tx = symtext_at(t, libname, symname, textnum);
                (
                    a,
                    upd_symtext(t, libname, symname, textnum, TextOnPageView { text: old, ..tx }),
                )
            } else {
                (a, t)
            }
        },
        LibraryActionView::ChangeTextColor { libname, symname, textnum, old, new } => {
            if symtext_valid(t, libname, symname, textnum) {
                let tx = symtext_at(t, libname, symname, textnum);
                (
                    a,
                    upd_symtext(t, libname, symname, textnum, TextOnPageView { color: old, ..tx }),
                )
            } else {
                (a, t)
            }
        },
        LibraryActionView::DeleteSymbol { libname, symname, symbol } => match symbol {
            Some(s) => {
                if lib_valid(t, libname) {
                    let lib = lib_at(t, libname);
                    (
                        LibraryActionView::DeleteSymbol { libname, symname, symbol: None },
                        upd_lib(
                            t,
                            libname,
                            LibraryView { syms: lib.syms.insert(symname, s), ..lib },
                        ),
                    )
                } else {
                    (a, t)
                }
            },
            None => (a, t),
        },
        LibraryActionView::CreateSymbol { libname, symname } => {
            if lib_valid(t, libname) {
                let lib = lib_at(t, libname);
                (
                    a,
                    upd_lib(t, libname, LibraryView { syms: lib.syms.remove(symname), ..lib }),
                )
            } else {
                (a, t)
            }
        },
        LibraryActionView::CreatePin { libname, symname, pin } => {
            if libsym_valid(t, libname, symname) {
                let sym = libsym_at(t, libname, symname);
                if sym.pins.len() > 0 {
                    (
                        LibraryActionView::CreatePin { libname, symname, pin: Some(sym.pins.last()) },
                        upd_libsym(
                            t,
                            libname,
                            symname,
                            SymbolDefinitionView { pins: sym.pins.drop_last(), ..sym },
                        ),
                    )
                } else {
                    (LibraryActionView::CreatePin { libname, symname, pin: None }, t)
                }
            } else {
                (a, t)
            }
        },
        LibraryActionView::CreateComponent { libname, comname } => {
            if lib_valid(t, libname) {
                let lib = lib_at(t, libname);
                (
                    a,
                    upd_lib(
                        t,
                        libname,
                        LibraryView { components: lib.components.remove(comname), ..lib },
                    ),
                )
            } else {
                (a, t)
            }
        },
        LibraryActionView::DeleteComponent { libname, comname, component } => match component {
            Some(c) => {
                if lib_valid(t, libname) {
                    let lib = lib_at(t, libname);
                    (
                        LibraryActionView::DeleteComponent { libname, comname, component: None },
                        upd_lib(
                            t,
                            libname,
                            LibraryView { components: lib.components.insert(comname, c), ..lib },
                        ),
                    )
                } else {
                    (a, t)
                }
            },
            None => (a, t),
        },
        LibraryActionView::CreateComponentVariant { libname, comname, varname, variant } => {
            if comp_valid(t, libname, comname) {
                let comp = comp_at(t, libname, comname);
                if comp.variants.contains_key(varname) {
                    (
                        LibraryActionView::CreateComponentVariant {
                            libname,
                            comname,
                            varname,
                            variant: Some(comp.variants[varname]),
                        },
                        upd_comp(
                            t,
                            libname,
                            comname,
                            ComponentDefinitionView {
                                variants: comp.variants.remove(varname),
                                ..comp
                            },
                        ),
                    )
                } else {
                    (
                        LibraryActionView::CreateComponentVariant {
                            libname,
                            comname,
                            varname,
                            variant: None,
                        },
                        t,
                    )
                }
            } else {
                (a, t)
            }
        },
        LibraryActionView::DeleteComponentVariant { libname, comname, varname, variant } => match variant {
            Some(v) => {
                if comp_valid(t, libname, comname) {
                    let comp = comp_at(t, libname, comname);
                    (
                        LibraryActionView::DeleteComponentVariant {
                            libname,
                            comname,
                            varname,
                            variant: None,
                        },
                        upd_comp(
                            t,
                            libname,
                            comname,
                            ComponentDefinitionView {
                                variants: comp.variants.insert(v.name, v),
                                ..comp
                            },
                        ),
                    )
                } else {
                    (a, t)
                }
            },
            None => (a, t),
        },
        LibraryActionView::ChangeComponentVariantSymbol { libname, comname, varname, sref } => {
            if var_valid(t, libname, comname, varname) {
                let v = var_at(t, libname, comname, varname);
                (
                    LibraryActionView::ChangeComponentVariantSymbol {
                        libname,
                        comname,
                        varname,
                        sref: v.symbol,
                    },
                    upd_var(
                        t,
                        libname,
                        comname,
                        varname,
                        ComponentVariantView { symbol: sref, ..v },
                    ),
                )
            } else {
                (a, t)
            }
        },
    }
}

/// What coalescing does for library actions: two actions merge only when
/// they are the same variant on the identical target path. Summed deltas
/// of zero, and a value edit back to the first old value, annul. All
/// structural actions never merge.
pub open spec fn lib_merge(e: LibraryActionView, b: LibraryActionView) -> MergedView<
    LibraryActionView,
> {
    match e {
        LibraryActionView::MoveText { libname, symname, textnum, delta } => match b {
            LibraryActionView::MoveText { libname: l2, symname: s2, textnum: t2, delta: d2 } => {
                if libname == l2 && symname == s2 && textnum == t2 {
                    if delta.spec_add(d2).spec_is_zero() {
                        MergedView::Annul
                    } else {
                        MergedView::Yes(
                            LibraryActionView::MoveText {
                                libname,
                                symname,
                                textnum,
                                delta: delta.spec_add(d2),
                            },
                        )
                    }
                } else {
                    MergedView::No
                }
            },
            _ => MergedView::No,
        },
        LibraryActionView::EditText { libname, symname, textnum, old, new } => match b {
            LibraryActionView::EditText {
                libname: l2,
                symname: s2,
                textnum: t2,
                old: o2,
                new: n2,
            } => {
                if libname == l2 && symname == s2 && textnum == t2 {
                    if old == n2 {
                        MergedView::Annul
                    } else {
                        MergedView::Yes(
                            LibraryActionView::EditText { libname, symname, textnum, old, new: n2 },
                        )
                    }
                } else {
                    MergedView::No
                }
            },
            _ => MergedView::No,
        },
        LibraryActionView::ChangeTextColor { libname, symname, textnum, old, new } => match b {
            LibraryActionView::ChangeTextColor {
                libname: l2,
                symname: s2,
                textnum: t2,
                old: o2,
                new: n2,
            } => {
                if libname == l2 && symname == s2 && textnum == t2 {
                    if old == n2 {
                        MergedView::Annul
                    } else {
                        MergedView::Yes(
                            LibraryActionView::ChangeTextColor {
                                libname,
                                symname,
                                textnum,
                                old,
                                new: n2,
                            },
                        )
                    }
                } else {
                    MergedView::No
                }
            },
            _ => MergedView::No,
        },
        _ => MergedView::No,
    }
}

/// The inputs on which a library action, applied and then undone, gives
/// the collection back exactly: creation names must be fresh, deletion
/// payload slots empty, a pin present, and value-replacing edits must
/// carry the value presently in the document as their old value.
pub open spec fn lib_can_invert(a: LibraryActionView, t: LibrariesView) -> bool {
    match a {
        LibraryActionView::CreateNewLibrary { name, lib } => !t.contains_key(name),
        LibraryActionView::DeleteLibrary { name, old_lib } => t.contains_key(name) && old_lib is None,
        LibraryActionView::MoveText { .. } => true,
        LibraryActionView::CreateText { .. } => true,
        LibraryActionView::EditText { libname, symname, textnum, old, new } => symtext_valid(
            t,
            libname,
            symname,
            textnum,
        ) ==> symtext_at(t, libname, symname, textnum).text == old,
        LibraryActionView::ChangeTextColor { libname, symname, textnum, old, new } => symtext_valid(
            t,
            libname,
            symname,
            textnum,
        ) ==> symtext_at(t, libname, symname, textnum).color == old,
        LibraryActionView::DeleteSymbol { libname, symname, symbol } => symbol is None,
        LibraryActionView::CreateSymbol { libname, symname } => lib_valid(t, libname) ==> !lib_at(
            t,
            libname,
        ).syms.contains_key(symname),
        LibraryActionView::CreatePin { libname, symname, pin } => pin is Some,
        LibraryActionView::CreateComponent { libname, comname } => lib_valid(t, libname)
            ==> !lib_at(t, libname).components.contains_key(comname),
        LibraryActionView::DeleteComponent { libname, comname, component } => component is None,
        LibraryActionView::CreateComponentVariant { libname, comname, varname, variant } => comp_valid(
            t,
            libname,
            comname,
        ) ==> !comp_at(t, libname, comname).variants.contains_key(varname),
        LibraryActionView::DeleteComponentVariant { libname, comname, varname, variant } => variant is None
            && (var_valid(t, libname, comname, varname) ==> var_at(
            t,
            libname,
            comname,
            varname,
        ).name == varname),
        LibraryActionView::ChangeComponentVariantSymbol { .. } => true,
    }
}


impl Action<NameMap<LibraryHolder>> for LibraryAction {
    open spec fn can_invert(a: LibraryActionView, t: LibrariesView) -> bool {
        lib_can_invert(a, t)
    }

    open spec fn apply_view(a: LibraryActionView, t: LibrariesView) -> (
        LibraryActionView,
        LibrariesView,
    ) {
        lib_apply(a, t)
    }

    open spec fn undo_view(a: LibraryActionView, t: LibrariesView) -> (
        LibraryActionView,
        LibrariesView,
    ) {
        lib_undo(a, t)
    }

    open spec fn merge_view(a: LibraryActionView, b: LibraryActionView) -> MergedView<
        LibraryActionView,
    > {
        lib_merge(a, b)
    }

    fn apply(&mut self, target: &mut NameMap<LibraryHolder>) {
        let ghost a0 = self@;
        let ghost t0 = target@;
        match self {
            LibraryAction::CreateNewLibrary { name, lib } => {
                match lib.take() {
                    Some(l) => {
                        target.insert(name.clone(), l);
                    },
                    None => {
                        target.insert(name.clone(), LibraryHolder::new(name.clone()));
                    },
                }
                proof {
                    assert(target@ =~~= lib_apply(a0, t0).1);
                }
            },
            LibraryAction::DeleteLibrary { name, old_lib } => {
                match target.remove(name) {
                    Some(h) => {
                        *old_lib = Some(h);
                    },
                    None => {},
                }
                proof {
                    assert(target@ =~~= lib_apply(a0, t0).1);
                }
            },
            LibraryAction::MoveText { libname, symname, textnum, delta } => {
                let tn = *textnum;
                let d = *delta;
                if let Some(mut holder) = target.remove(libname) {
                    if let Some(mut lib) = holder.library.take() {
                        if let Some(mut sym) = lib.syms.remove(symname) {
                            if tn < sym.texts.len() {
                                let mut tx = sym.texts.remove(tn);
                                tx.location = tx.location.add(d);
                                sym.texts.insert(tn, tx);
                            }
                            lib.syms.insert(symname.clone(), sym);
                        }
                        holder.library = Some(lib);
                    }
                    target.insert(libname.clone(), holder);
                }
                proof {
                    assert(target@ =~~= lib_apply(a0, t0).1);
                }
            },
            LibraryAction::CreateText { libname, symname, text } => {
                if let Some(mut holder) = target.remove(libname) {
                    if let Some(mut lib) = holder.library.take() {
                        if let Some(mut sym) = lib.syms.remove(symname) {
                            sym.texts.push(text.duplicate());
                            lib.syms.insert(symname.clone(), sym);
                        }
                        holder.library = Some(lib);
                    }
                    target.insert(libname.clone(), holder);
                }
                proof {
                    assert(target@ =~~= lib_apply(a0, t0).1);
                }
            },
            LibraryAction::EditText { libname, symname, textnum, old, new } => {
                let tn = *textnum;
                if let Some(mut holder) = target.remove(libname) {
                    if let Some(mut lib) = holder.library.take() {
                        if let Some(mut sym) = lib.syms.remove(symname) {
                            if tn < sym.texts.len() {
                                let mut tx = sym.texts.remove(tn);
                                tx.text = new.clone();
                                sym.texts.insert(tn, tx);
                            }
                            lib.syms.insert(symname.clone(), sym);
                        }
                        holder.library = Some(lib);
                    }
                    target.insert(libname.clone(), holder);
                }
                proof {
                    assert(target@ =~~= lib_apply(a0, t0).1);
                }
            },
            LibraryAction::ChangeTextColor { libname, symname, textnum, old, new } => {
                let tn = *textnum;
                let c = *new;
                if let Some(mut holder) = target.remove(libname) {
                    if let Some(mut lib) = holder.library.take() {
                        if let Some(mut sym) = lib.syms.remove(symname) {
                            if tn < sym.texts.len() {
                                let mut tx = sym.texts.remove(tn);
                                tx.color = c;
                                sym.texts.insert(tn, tx);
                            }
                            lib.syms.insert(symname.clone(), sym);
                        }
                        holder.library = Some(lib);
                    }
                    target.insert(libname.clone(), holder);
                }
                proof {
                    assert(target@ =~~= lib_apply(a0, t0).1);
                }
            },
            LibraryAction::DeleteSymbol { libname, symname, symbol } => {
                if let Some(mut holder) = target.remove(libname) {
                    if let Some(mut lib) = holder.library.take() {
                        *symbol = lib.syms.remove(symname);
                        holder.library = Some(lib);
                    }
                    target.insert(libname.clone(), holder);
                }
                proof {
                    assert(target@ =~~= lib_apply(a0, t0).1);
                    assert(self@ =~~= lib_apply(a0, t0).0);
                }
            },
            LibraryAction::CreateSymbol { libname, symname } => {
                if let Some(mut holder) = target.remove(libname) {
                    if let Some(mut lib) = holder.library.take() {
                        lib.syms.insert(symname.clone(), SymbolDefinition::new(symname.clone()));
                        holder.library = Some(lib);
                    }
                    target.insert(libname.clone(), holder);
                }
                proof {
                    assert(target@ =~~= lib_apply(a0, t0).1);
                }
            },
            LibraryAction::CreatePin { libname, symname, pin } => {
                match pin.take() {
                    Some(p) => {
                        if let Some(mut holder) = target.remove(libname) {
                            if let Some(mut lib) = holder.library.take() {
                                if let Some(mut sym) = lib.syms.remove(symname) {
                                    sym.pins.push(p);
                                    lib.syms.insert(symname.clone(), sym);
                                }
                                holder.library = Some(lib);
                            }
                            target.insert(libname.clone(), holder);
                        }
                    },
                    None => {},
                }
                proof {
                    assert(target@ =~~= lib_apply(a0, t0).1);
                    assert(self@ =~~= lib_apply(a0, t0).0);
                }
            },
            LibraryAction::CreateComponent { libname, comname } => {
                if let Some(mut holder) = target.remove(libname) {
                    if let Some(mut lib) = holder.library.take() {
                        lib.components.insert(
                            comname.clone(),
                            ComponentDefinition::new(comname.clone()),
                        );
                        holder.library = Some(lib);
                    }
                    target.insert(libname.clone(), holder);
                }
                proof {
                    assert(target@ =~~= lib_apply(a0, t0).1);
                }
            },
            LibraryAction::DeleteComponent { libname, comname, component } => {
                if let Some(mut holder) = target.remove(libname) {
                    if let Some(mut lib) = holder.library.take() {
                        *component = lib.components.remove(comname);
                        holder.library = Some(lib);
                    }
                    target.insert(libname.clone(), holder);
                }
                proof {
                    assert(target@ =~~= lib_apply(a0, t0).1);
                    assert(self@ =~~= lib_apply(a0, t0).0);
                }
            },
            LibraryAction::CreateComponentVariant { libname, comname, varname, variant } => {
                let _ = variant.take();
                if let Some(mut holder) = target.remove(libname) {
                    if let Some(mut lib) = holder.library.take() {
                        if let Some(mut comp) = lib.components.remove(comname) {
                            comp.variants.insert(
                                varname.clone(),
                                ComponentVariant::new(varname.clone()),
                            );
                            lib.components.insert(comname.clone(), comp);
                        }
                        holder.library = Some(lib);
                    }
                    target.insert(libname.clone(), holder);
                }
                proof {
                    assert(target@ =~~= lib_apply(a0, t0).1);
                    assert(self@ =~~= lib_apply(a0, t0).0);
                }
            },
            LibraryAction::DeleteComponentVariant { libname, comname, varname, variant } => {
                if let Some(mut holder) = target.remove(libname) {
                    if let Some(mut lib) = holder.library.take() {
                        if let Some(mut comp) = lib.components.remove(comname) {
                            *variant = comp.variants.remove(varname);
                            lib.components.insert(comname.clone(), comp);
                        }
                        holder.library = Some(lib);
                    }
                    target.insert(libname.clone(), holder);
                }
                proof {
                    assert(target@ =~~= lib_apply(a0, t0).1);
                    assert(self@ =~~= lib_apply(a0, t0).0);
                }
            },
            LibraryAction::ChangeComponentVariantSymbol { libname, comname, varname, sref } => {
                if let Some(mut holder) = target.remove(libname) {
                    if let Some(mut lib) = holder.library.take() {
                        if let Some(mut comp) = lib.components.remove(comname) {
                            if let Some(mut v) = comp.variants.remove(varname) {
                                let old_sym = v.symbol.take();
                                v.symbol = sref.take();
                                *sref = old_sym;
                                comp.variants.insert(varname.clone(), v);
                            }
                            lib.components.insert(comname.clone(), comp);
                        }
                        holder.library = Some(lib);
                    }
                    target.insert(libname.clone(), holder);
                }
                proof {
                    assert(target@ =~~= lib_apply(a0, t0).1);
                    assert(self@ =~~= lib_apply(a0, t0).0);
                }
            },
        }
        proof {
            assert(self@ == lib_apply(a0, t0).0);
            assert(target@ == lib_apply(a0, t0).1);
        }
    }

    fn undo(&mut self, target: &mut NameMap<LibraryHolder>) {
        let ghost a0 = self@;
        let ghost t0 = target@;
        match self {
            LibraryAction::CreateNewLibrary { name, lib } => {
                match target.remove(name) {
                    Some(h) => {
                        *lib = Some(h);
                    },
                    None => {},
                }
                proof {
                    assert(target@ =~~= lib_undo(a0, t0).1);
                }
            },
            LibraryAction::DeleteLibrary { name, old_lib } => {
                match old_lib.take() {
                    Some(l) => {
                        target.insert(name.clone(), l);
                    },
                    None => {},
                }
                proof {
                    assert(target@ =~~= lib_undo(a0, t0).1);
                }
            },
            LibraryAction::MoveText { libname, symname, textnum, delta } => {
                let tn = *textnum;
                let d = *delta;
                if let Some(mut holder) = target.remove(libname) {
                    if let Some(mut lib) = holder.library.take() {
                        if let Some(mut sym) = lib.syms.remove(symname) {
                            if tn < sym.texts.len() {
                                let mut tx = sym.texts.remove(tn);
                                tx.location = tx.location.sub(d);
                                sym.texts.insert(tn, tx);
                            }
                            lib.syms.insert(symname.clone(), sym);
                        }
                        holder.library = Some(lib);
                    }
                    target.insert(libname.clone(), holder);
                }
                proof {
                    assert(target@ =~~= lib_undo(a0, t0).1);
                }
            },
            LibraryAction::CreateText { libname, symname, text } => {
                if let Some(mut holder) = target.remove(libname) {
                    if let Some(mut lib) = holder.library.take() {
                        if let Some(mut sym) = lib.syms.remove(symname) {
                            let _ = sym.texts.pop();
                            lib.syms.insert(symname.clone(), sym);
                        }
                        holder.library = Some(lib);
                    }
                    target.insert(libname.clone(), holder);
                }
                proof {
                    assert(target@ =~~= lib_undo(a0, t0).1);
                }
            },
            LibraryAction::EditText { libname, symname, textnum, old, new } => {
                let tn = *textnum;
                if let Some(mut holder) = target.remove(libname) {
                    if let Some(mut lib) = holder.library.take() {
                        if let Some(mut sym) = lib.syms.remove(symname) {
                            if tn < sym.texts.len() {
                                let mut tx = sym.texts.remove(tn);
                                tx.text = old.clone();
                                sym.texts.insert(tn, tx);
                            }
                            lib.syms.insert(symname.clone(), sym);
                        }
                        holder.library = Some(lib);
                    }
                    target.insert(libname.clone(), holder);
                }
                proof {
                    assert(target@ =~~= lib_undo(a0, t0).1);
                }
            },
            LibraryAction::ChangeTextColor { libname, symname, textnum, old, new } => {
                let tn = *textnum;
                let c = *old;
                if let Some(mut holder) = target.remove(libname) {
                    if let Some(mut lib) = holder.library.take() {
                        if let Some(mut sym) = lib.syms.remove(symname) {
                            if tn < sym.texts.len() {
                                let mut tx = sym.texts.remove(tn);
                                tx.color = c;
                                sym.texts.insert(tn, tx);
                            }
                            lib.syms.insert(symname.clone(), sym);
                        }
                        holder.library = Some(lib);
                    }
                    target.insert(libname.clone(), holder);
                }
                proof {
                    assert(target@ =~~= lib_undo(a0, t0).1);
                }
            },
            LibraryAction::DeleteSymbol { libname, symname, symbol } => {
                if let Some(mut holder) = target.remove(libname) {
                    if let Some(mut lib) = holder.library.take() {
                        match symbol.take() {
                            Some(s) => {
                                lib.syms.insert(symname.clone(), s);
                            },
                            None => {},
                        }
                        holder.library = Some(lib);
                    }
                    target.insert(libname.clone(), holder);
                }
                proof {
                    assert(target@ =~~= lib_undo(a0, t0).1);
                    assert(self@ =~~= lib_undo(a0, t0).0);
                }
            },
            LibraryAction::CreateSymbol { libname, symname } => {
                if let Some(mut holder) = target.remove(libname) {
                    if let Some(mut lib) = holder.library.take() {
                        let _ = lib.syms.remove(symname);
                        holder.library = Some(lib);
                    }
                    target.insert(libname.clone(), holder);
                }
                proof {
                    assert(target@ =~~= lib_undo(a0, t0).1);
                }
            },
            LibraryAction::CreatePin { libname, symname, pin } => {
                if let Some(mut holder) = target.remove(libname) {
                    if let Some(mut lib) = holder.library.take() {
                        if let Some(mut sym) = lib.syms.remove(symname) {
                            *pin = sym.pins.pop();
                            lib.syms.insert(symname.clone(), sym);
                        }
                        holder.library = Some(lib);
                    }
                    target.insert(libname.clone(), holder);
                }
                proof {
                    assert(target@ =~~= lib_undo(a0, t0).1);
                    assert(self@ =~~= lib_undo(a0, t0).0);
                }
            },
            LibraryAction::CreateComponent { libname, comname } => {
                if let Some(mut holder) = target.remove(libname) {
                    if let Some(mut lib) = holder.library.take() {
                        let _ = lib.components.remove(comname);
                        holder.library = Some(lib);
                    }
                    target.insert(libname.clone(), holder);
                }
                proof {
                    assert(target@ =~~= lib_undo(a0, t0).1);
                }
            },
            LibraryAction::DeleteComponent { libname, comname, component } => {
                if let Some(mut holder) = target.remove(libname) {
                    if let Some(mut lib) = holder.library.take() {
                        match component.take() {
                            Some(c) => {
                                lib.components.insert(comname.clone(), c);
                            },
                            None => {},
                        }
                        holder.library = Some(lib);
                    }
                    target.insert(libname.clone(), holder);
                }
                proof {
                    assert(target@ =~~= lib_undo(a0, t0).1);
                    assert(self@ =~~= lib_undo(a0, t0).0);
                }
            },
            LibraryAction::CreateComponentVariant { libname, comname, varname, variant } => {
                if let Some(mut holder) = target.remove(libname) {
                    if let Some(mut lib) = holder.library.take() {
                        if let Some(mut comp) = lib.components.remove(comname) {
                            *variant = comp.variants.remove(varname);
                            lib.components.insert(comname.clone(), comp);
                        }
                        holder.library = Some(lib);
                    }
                    target.insert(libname.clone(), holder);
                }
                proof {
                    assert(target@ =~~= lib_undo(a0, t0).1);
                    assert(self@ =~~= lib_undo(a0, t0).0);
                }
            },
            LibraryAction::DeleteComponentVariant { libname, comname, varname, variant } => {
                if let Some(mut holder) = target.remove(libname) {
                    if let Some(mut lib) = holder.library.take() {
                        if let Some(mut comp) = lib.components.remove(comname) {
                            match variant.take() {
                                Some(v) => {
                                    let key = v.name.clone();
                                    comp.variants.insert(key, v);
                                },
                                None => {},
                            }
                            lib.components.insert(comname.clone(), comp);
                        }
                        holder.library = Some(lib);
                    }
                    target.insert(libname.clone(), holder);
                }
                proof {
                    assert(target@ =~~= lib_undo(a0, t0).1);
                    assert(self@ =~~= lib_undo(a0, t0).0);
                }
            },
            LibraryAction::ChangeComponentVariantSymbol { libname, comname, varname, sref } => {
                if let Some(mut holder) = target.remove(libname) {
                    if let Some(mut lib) = holder.library.take() {
                        if let Some(mut comp) = lib.components.remove(comname) {
                            if let Some(mut v) = comp.variants.remove(varname) {
                                let old_sym = v.symbol.take();
                                v.symbol = sref.take();
                                *sref = old_sym;
                                comp.variants.insert(varname.clone(), v);
                            }
                            lib.components.insert(comname.clone(), comp);
                        }
                        holder.library = Some(lib);
                    }
                    target.insert(libname.clone(), holder);
                }
                proof {
                    assert(target@ =~~= lib_undo(a0, t0).1);
                    assert(self@ =~~= lib_undo(a0, t0).0);
                }
            },
        }
        proof {
            assert(self@ == lib_undo(a0, t0).0);
            assert(target@ == lib_undo(a0, t0).1);
        }
    }

    fn merge(&mut self, other: Self) -> (r: Merged<Self>) {
        match self {
            LibraryAction::MoveText { libname, symname, textnum, delta } => match other {
                LibraryAction::MoveText { libname: l2, symname: s2, textnum: t2, delta: d2 } => {
                    if *libname == l2 && *symname == s2 && *textnum == t2 {
                        let nd = (*delta).add(d2);
                        if nd.less_than_epsilon() {
                            Merged::Annul
                        } else {
                            *delta = nd;
                            Merged::Yes
                        }
                    } else {
                        Merged::No(
                            LibraryAction::MoveText {
                                libname: l2,
                                symname: s2,
                                textnum: t2,
                                delta: d2,
                            },
                        )
                    }
                },
                o => Merged::No(o),
            },
            LibraryAction::EditText { libname, symname, textnum, old, new } => match other {
                LibraryAction::EditText {
                    libname: l2,
                    symname: s2,
                    textnum: t2,
                    old: o2,
                    new: n2,
                } => {
                    if *libname == l2 && *symname == s2 && *textnum == t2 {
                        if *old == n2 {
                            Merged::Annul
                        } else {
                            *new = n2;
                            Merged::Yes
                        }
                    } else {
                        Merged::No(
                            LibraryAction::EditText {
                                libname: l2,
                                symname: s2,
                                textnum: t2,
                                old: o2,
                                new: n2,
                            },
                        )
                    }
                },
                o => Merged::No(o),
            },
            LibraryAction::ChangeTextColor { libname, symname, textnum, old, new } => match other {
                LibraryAction::ChangeTextColor {
                    libname: l2,
                    symname: s2,
                    textnum: t2,
                    old: o2,
                    new: n2,
                } => {
                    if *libname == l2 && *symname == s2 && *textnum == t2 {
                        if *old == n2 {
                            Merged::Annul
                        } else {
                            *new = n2;
                            Merged::Yes
                        }
                    } else {
                        Merged::No(
                            LibraryAction::ChangeTextColor {
                                libname: l2,
                                symname: s2,
                                textnum: t2,
                                old: o2,
                                new: n2,
                            },
                        )
                    }
                },
                o => Merged::No(o),
            },
            _ => Merged::No(other),
        }
    }

    proof fn lemma_apply_invert(a: LibraryActionView, t: LibrariesView) {
        lib_lemma_apply_invert(a, t);
    }

    proof fn lemma_merge_ok(
        e: LibraryActionView,
        s0: LibrariesView,
        s1: LibrariesView,
        b: LibraryActionView,
        s2: LibrariesView,
    ) {
        lib_lemma_merge_ok(e, s0, s1, b, s2);
    }
}


/// Replacing a symbol keeps the path shape and stores the symbol.
pub proof fn lemma_upd_libsym_read(
    t: LibrariesView,
    ln: Seq<char>,
    sn: Seq<char>,
    sd: SymbolDefinitionView,
)
    requires
        libsym_valid(t, ln, sn),
    ensures
        libsym_valid(upd_libsym(t, ln, sn, sd), ln, sn),
        libsym_at(upd_libsym(t, ln, sn, sd), ln, sn) == sd,
{
}

/// Replacing a symbol twice is replacing it once, with the second value.
pub proof fn lemma_upd_libsym_collapse(
    t: LibrariesView,
    ln: Seq<char>,
    sn: Seq<char>,
    sd1: SymbolDefinitionView,
    sd2: SymbolDefinitionView,
)
    requires
        libsym_valid(t, ln, sn),
    ensures
        upd_libsym(upd_libsym(t, ln, sn, sd1), ln, sn, sd2) == upd_libsym(t, ln, sn, sd2),
{
    assert(upd_libsym(upd_libsym(t, ln, sn, sd1), ln, sn, sd2) =~~= upd_libsym(t, ln, sn, sd2));
}

/// Replacing a symbol by itself changes nothing.
pub proof fn lemma_upd_libsym_same(t: LibrariesView, ln: Seq<char>, sn: Seq<char>)
    requires
        libsym_valid(t, ln, sn),
    ensures
        upd_libsym(t, ln, sn, libsym_at(t, ln, sn)) == t,
{
    assert(upd_libsym(t, ln, sn, libsym_at(t, ln, sn)) =~~= t);
}

/// Replacing a variant keeps the path shape and stores the variant.
pub proof fn lemma_upd_var_read(
    t: LibrariesView,
    ln: Seq<char>,
    cn: Seq<char>,
    vn: Seq<char>,
    v: ComponentVariantView,
)
    requires
        var_valid(t, ln, cn, vn),
    ensures
        var_valid(upd_var(t, ln, cn, vn, v), ln, cn, vn),
        var_at(upd_var(t, ln, cn, vn, v), ln, cn, vn) == v,
{
}

/// Replacing a variant twice is replacing it once, with the second value.
pub proof fn lemma_upd_var_collapse(
    t: LibrariesView,
    ln: Seq<char>,
    cn: Seq<char>,
    vn: Seq<char>,
    v1: ComponentVariantView,
    v2: ComponentVariantView,
)
    requires
        var_valid(t, ln, cn, vn),
    ensures
        upd_var(upd_var(t, ln, cn, vn, v1), ln, cn, vn, v2) == upd_var(t, ln, cn, vn, v2),
{
    assert(upd_var(upd_var(t, ln, cn, vn, v1), ln, cn, vn, v2) =~~= upd_var(t, ln, cn, vn, v2));
}

/// Replacing a variant by itself changes nothing.
pub proof fn lemma_upd_var_same(t: LibrariesView, ln: Seq<char>, cn: Seq<char>, vn: Seq<char>)
    requires
        var_valid(t, ln, cn, vn),
    ensures
        upd_var(t, ln, cn, vn, var_at(t, ln, cn, vn)) == t,
{
    assert(upd_var(t, ln, cn, vn, var_at(t, ln, cn, vn)) =~~= t);
}

/// A well-formed library action, applied and then undone, restores the
/// collection, and its undone form redoes to the same entry and state.
pub proof fn lib_lemma_apply_invert(a: LibraryActionView, t: LibrariesView)
    requires
        lib_can_invert(a, t),
    ensures
        ({
            let (a1, t1) = lib_apply(a, t);
            let (a0, t0) = lib_undo(a1, t1);
            t0 == t && lib_apply(a0, t) == (a1, t1)
        }),
{
    let (a1, t1) = lib_apply(a, t);
    let (a0, t0) = lib_undo(a1, t1);
    match a {
        LibraryActionView::CreateNewLibrary { name, lib } => {
            assert(t1.contains_key(name));
            assert(t0 =~~= t);
            assert(lib_apply(a0, t).0 =~~= a1);
            assert(lib_apply(a0, t).1 =~~= t1);
        },
        LibraryActionView::DeleteLibrary { name, old_lib } => {
            assert(t0 =~~= t);
            assert(lib_apply(a0, t).0 =~~= a1);
            assert(lib_apply(a0, t).1 =~~= t1);
        },
        LibraryActionView::MoveText { libname: ln, symname: sn, textnum: tn, delta: d } => {
            if symtext_valid(t, ln, sn, tn) {
                let tx = symtext_at(t, ln, sn, tn);
                let tx1 = TextOnPageView { location: tx.location.spec_add(d), ..tx };
                lemma_upd_symtext_read(t, ln, sn, tn, tx1);
                tx.location.lemma_add_then_sub(d);
                lemma_upd_symtext_collapse(
                    t,
                    ln,
                    sn,
                    tn,
                    tx1,
                    TextOnPageView { location: tx.location, ..tx1 },
                );
                assert(TextOnPageView { location: tx.location, ..tx1 } =~= tx);
                lemma_upd_symtext_same(t, ln, sn, tn);
                assert(t0 == t);
            }
        },
        LibraryActionView::CreateText { libname: ln, symname: sn, text: tx } => {
            if libsym_valid(t, ln, sn) {
                let sym = libsym_at(t, ln, sn);
                let sym1 = SymbolDefinitionView { texts: sym.texts.push(tx), ..sym };
                lemma_upd_libsym_read(t, ln, sn, sym1);
                assert(sym1.texts.drop_last() =~= sym.texts);
                lemma_upd_libsym_collapse(
                    t,
                    ln,
                    sn,
                    sym1,
                    SymbolDefinitionView { texts: sym1.texts.drop_last(), ..sym1 },
                );
                assert(SymbolDefinitionView { texts: sym1.texts.drop_last(), ..sym1 } =~~= sym);
                lemma_upd_libsym_same(t, ln, sn);
                assert(t0 == t);
            }
        },
        LibraryActionView::EditText { libname: ln, symname: sn, textnum: tn, old, new } => {
            if symtext_valid(t, ln, sn, tn) {
                let tx = symtext_at(t, ln, sn, tn);
                let tx1 = TextOnPageView { text: new, ..tx };
                lemma_upd_symtext_read(t, ln, sn, tn, tx1);
                lemma_upd_symtext_collapse(t, ln, sn, tn, tx1, TextOnPageView { text: old, ..tx1 });
                assert(TextOnPageView { text: old, ..tx1 } =~= tx);
                lemma_upd_symtext_same(t, ln, sn, tn);
                assert(t0 == t);
            }
        },
        LibraryActionView::ChangeTextColor { libname: ln, symname: sn, textnum: tn, old, new } => {
            if symtext_valid(t, ln, sn, tn) {
                let tx = symtext_at(t, ln, sn, tn);
                let tx1 = TextOnPageView { color: new, ..tx };
                lemma_upd_symtext_read(t, ln, sn, tn, tx1);
                lemma_upd_symtext_collapse(t, ln, sn, tn, tx1, TextOnPageView { color: old, ..tx1 });
                assert(TextOnPageView { color: old, ..tx1 } =~= tx);
                lemma_upd_symtext_same(t, ln, sn, tn);
                assert(t0 == t);
            }
        },
        LibraryActionView::DeleteSymbol { libname: ln, symname: sn, symbol } => {
            if lib_valid(t, ln) {
                let lib = lib_at(t, ln);
                if lib.syms.contains_key(sn) {
                    assert(lib_valid(t1, ln));
                    assert(t0 =~~= t);
                    assert(lib_apply(a0, t).0 =~~= a1);
                    assert(lib_apply(a0, t).1 =~~= t1);
                } else {
                    assert(a1 =~~= a);
                    assert(t0 == t);
                }
            }
        },
        LibraryActionView::CreateSymbol { libname: ln, symname: sn } => {
            if lib_valid(t, ln) {
                assert(lib_valid(t1, ln));
                assert(t0 =~~= t);
            }
        },
        LibraryActionView::CreatePin { libname: ln, symname: sn, pin } => {
            if pin is Some {
                let p = pin->0;
                if libsym_valid(t, ln, sn) {
                    let sym = libsym_at(t, ln, sn);
                    let sym1 = SymbolDefinitionView { pins: sym.pins.push(p), ..sym };
                    lemma_upd_libsym_read(t, ln, sn, sym1);
                    assert(sym1.pins.drop_last() =~= sym.pins);
                    lemma_upd_libsym_collapse(
                        t,
                        ln,
                        sn,
                        sym1,
                        SymbolDefinitionView { pins: sym1.pins.drop_last(), ..sym1 },
                    );
                    assert(SymbolDefinitionView { pins: sym1.pins.drop_last(), ..sym1 } =~~= sym);
                    lemma_upd_libsym_same(t, ln, sn);
                    assert(t0 == t);
                    assert(a0 =~~= a);
                }
            }
        },
        LibraryActionView::CreateComponent { libname: ln, comname: cn } => {
            if lib_valid(t, ln) {
                assert(lib_valid(t1, ln));
                assert(t0 =~~= t);
            }
        },
        LibraryActionView::DeleteComponent { libname: ln, comname: cn, component } => {
            if lib_valid(t, ln) {
                let lib = lib_at(t, ln);
                if lib.components.contains_key(cn) {
                    assert(lib_valid(t1, ln));
                    assert(t0 =~~= t);
                    assert(lib_apply(a0, t).0 =~~= a1);
                    assert(lib_apply(a0, t).1 =~~= t1);
                } else {
                    assert(a1 =~~= a);
                    assert(t0 == t);
                }
            }
        },
        LibraryActionView::CreateComponentVariant { libname: ln, comname: cn, varname: vn, variant } => {
            if comp_valid(t, ln, cn) {
                assert(comp_valid(t1, ln, cn));
                assert(comp_at(t1, ln, cn).variants.contains_key(vn));
                assert(t0 =~~= t);
                assert(lib_apply(a0, t).0 =~~= a1);
                assert(lib_apply(a0, t).1 =~~= t1);
            } else {
                assert(t0 == t);
                assert(lib_apply(a0, t).0 =~~= a1);
            }
        },
        LibraryActionView::DeleteComponentVariant { libname: ln, comname: cn, varname: vn, variant } => {
            if comp_valid(t, ln, cn) {
                let comp = comp_at(t, ln, cn);
                if comp.variants.contains_key(vn) {
                    assert(comp_valid(t1, ln, cn));
                    assert(t0 =~~= t);
                    assert(lib_apply(a0, t).0 =~~= a1);
                    assert(lib_apply(a0, t).1 =~~= t1);
                } else {
                    assert(a1 =~~= a);
                    assert(t0 == t);
                }
            }
        },
        LibraryActionView::ChangeComponentVariantSymbol { libname: ln, comname: cn, varname: vn, sref } => {
            if var_valid(t, ln, cn, vn) {
                let v = var_at(t, ln, cn, vn);
                let v1 = ComponentVariantView { symbol: sref, ..v };
                lemma_upd_var_read(t, ln, cn, vn, v1);
                lemma_upd_var_collapse(t, ln, cn, vn, v1, ComponentVariantView { symbol: v.symbol, ..v1 });
                assert(ComponentVariantView { symbol: v.symbol, ..v1 } =~~= v);
                lemma_upd_var_same(t, ln, cn, vn);
                assert(t0 == t);
                assert(lib_apply(a0, t).0 =~~= a1);
                assert(lib_apply(a0, t).1 =~~= t1);
            }
        },
    }
}

/// Coalescing adjacent applied library actions on one path yields one
/// applied entry for the combined step, or, on annulment, certifies the
/// document returned to where the first step began.
pub proof fn lib_lemma_merge_ok(
    e: LibraryActionView,
    s0: LibrariesView,
    s1: LibrariesView,
    b: LibraryActionView,
    s2: LibrariesView,
)
    requires
        ({
            let (e0, es) = lib_undo(e, s1);
            es == s0 && lib_apply(e0, s0) == (e, s1)
        }),
        ({
            let (b0, bs) = lib_undo(b, s2);
            bs == s1 && lib_apply(b0, s1) == (b, s2)
        }),
    ensures
        match lib_merge(e, b) {
            MergedView::Yes(m) => ({
                let (m0, ms) = lib_undo(m, s2);
                ms == s0 && lib_apply(m0, s0) == (m, s2)
            }),
            MergedView::Annul => s2 == s0,
            MergedView::No => true,
        },
{
    match e {
        LibraryActionView::MoveText { libname: ln, symname: sn, textnum: tn, delta: d1 } => {
            match b {
                LibraryActionView::MoveText { libname: l2, symname: sn2, textnum: tn2, delta: d2 } => {
                    if ln == l2 && sn == sn2 && tn == tn2 {
                        let d12 = d1.spec_add(d2);
                        if symtext_valid(s1, ln, sn, tn) {
                            let x1 = symtext_at(s1, ln, sn, tn);
                            let back1 = TextOnPageView { location: x1.location.spec_sub(d1), ..x1 };
                            assert(s0 == upd_symtext(s1, ln, sn, tn, back1));
                            lemma_upd_symtext_read(s1, ln, sn, tn, back1);
                            assert(s2 == upd_symtext(
                                s1,
                                ln,
                                sn,
                                tn,
                                TextOnPageView { location: x1.location.spec_add(d2), ..x1 },
                            ));
                            lemma_upd_symtext_read(
                                s1,
                                ln,
                                sn,
                                tn,
                                TextOnPageView { location: x1.location.spec_add(d2), ..x1 },
                            );
                            if d12.spec_is_zero() {
                                x1.location.lemma_add_cancel(d1, d2);
                                assert(s2 =~~= s0);
                            } else {
                                let m = LibraryActionView::MoveText {
                                    libname: ln,
                                    symname: sn,
                                    textnum: tn,
                                    delta: d12,
                                };
                                let x2 = symtext_at(s2, ln, sn, tn);
                                assert(x2 == TextOnPageView {
                                    location: x1.location.spec_add(d2),
                                    ..x1
                                });
                                x1.location.lemma_add_sub_sum(d1, d2);
                                assert(x2.location.spec_sub(d12) == x1.location.spec_sub(d1));
                                lemma_upd_symtext_collapse(
                                    s1,
                                    ln,
                                    sn,
                                    tn,
                                    TextOnPageView { location: x1.location.spec_add(d2), ..x1 },
                                    TextOnPageView { location: x2.location.spec_sub(d12), ..x2 },
                                );
                                assert(lib_undo(m, s2).1 =~~= s0);
                                let x0 = symtext_at(s0, ln, sn, tn);
                                assert(x0 == back1);
                                assert(x0.location.spec_add(d12) == x1.location.spec_add(d2)) by {
                                    x1.location.lemma_add_sub_sum(d1, d2);
                                }
                                lemma_upd_symtext_collapse(
                                    s1,
                                    ln,
                                    sn,
                                    tn,
                                    back1,
                                    TextOnPageView { location: x0.location.spec_add(d12), ..x0 },
                                );
                                assert(lib_apply(lib_undo(m, s2).0, s0).1 =~~= s2);
                                assert(lib_apply(lib_undo(m, s2).0, s0) == (m, s2));
                            }
                        } else {
                            if symtext_valid(s2, ln, sn, tn) {
                                assert(symtext_valid(s1, ln, sn, tn));
                            }
                            assert(s1 == s2 && s0 == s1);
                        }
                    }
                },
                _ => {},
            }
        },
        LibraryActionView::EditText { libname: ln, symname: sn, textnum: tn, old: o1, new: n1 } => {
            match b {
                LibraryActionView::EditText {
                    libname: l2,
                    symname: sn2,
                    textnum: tn2,
                    old: o2,
                    new: n2,
                } => {
                    if ln == l2 && sn == sn2 && tn == tn2 {
                        if symtext_valid(s1, ln, sn, tn) {
                            let x1 = symtext_at(s1, ln, sn, tn);
                            let back1 = TextOnPageView { text: o1, ..x1 };
                            assert(s0 == upd_symtext(s1, ln, sn, tn, back1));
                            lemma_upd_symtext_read(s1, ln, sn, tn, back1);
                            assert(s2 == upd_symtext(s1, ln, sn, tn, TextOnPageView { text: n2, ..x1 }));
                            lemma_upd_symtext_read(s1, ln, sn, tn, TextOnPageView { text: n2, ..x1 });
                            if o1 == n2 {
                                assert(s2 =~~= s0);
                            } else {
                                let m = LibraryActionView::EditText {
                                    libname: ln,
                                    symname: sn,
                                    textnum: tn,
                                    old: o1,
                                    new: n2,
                                };
                                let x2 = symtext_at(s2, ln, sn, tn);
                                assert(x2 == TextOnPageView { text: n2, ..x1 });
                                lemma_upd_symtext_collapse(
                                    s1,
                                    ln,
                                    sn,
                                    tn,
                                    TextOnPageView { text: n2, ..x1 },
                                    TextOnPageView { text: o1, ..x2 },
                                );
                                assert(lib_undo(m, s2).1 =~~= s0);
                                let x0 = symtext_at(s0, ln, sn, tn);
                                assert(x0 == back1);
                                lemma_upd_symtext_collapse(
                                    s1,
                                    ln,
                                    sn,
                                    tn,
                                    back1,
                                    TextOnPageView { text: n2, ..x0 },
                                );
                                assert(lib_apply(lib_undo(m, s2).0, s0).1 =~~= s2);
                                assert(lib_apply(lib_undo(m, s2).0, s0) == (m, s2));
                            }
                        } else {
                            if symtext_valid(s2, ln, sn, tn) {
                                assert(symtext_valid(s1, ln, sn, tn));
                            }
                            assert(s1 == s2 && s0 == s1);
                        }
                    }
                },
                _ => {},
            }
        },
        LibraryActionView::ChangeTextColor { libname: ln, symname: sn, textnum: tn, old: o1, new: n1 } => {
            match b {
                LibraryActionView::ChangeTextColor {
                    libname: l2,
                    symname: sn2,
                    textnum: tn2,
                    old: o2,
                    new: n2,
                } => {
                    if ln == l2 && sn == sn2 && tn == tn2 {
                        if symtext_valid(s1, ln, sn, tn) {
                            let x1 = symtext_at(s1, ln, sn, tn);
                            let back1 = TextOnPageView { color: o1, ..x1 };
                            assert(s0 == upd_symtext(s1, ln, sn, tn, back1));
                            lemma_upd_symtext_read(s1, ln, sn, tn, back1);
                            assert(s2 == upd_symtext(s1, ln, sn, tn, TextOnPageView { color: n2, ..x1 }));
                            lemma_upd_symtext_read(s1, ln, sn, tn, TextOnPageView { color: n2, ..x1 });
                            if o1 == n2 {
                                assert(s2 =~~= s0);
                            } else {
                                let m = LibraryActionView::ChangeTextColor {
                                    libname: ln,
                                    symname: sn,
                                    textnum: tn,
                                    old: o1,
                                    new: n2,
                                };
                                let x2 = symtext_at(s2, ln, sn, tn);
                                assert(x2 == TextOnPageView { color: n2, ..x1 });
                                lemma_upd_symtext_collapse(
                                    s1,
                                    ln,
                                    sn,
                                    tn,
                                    TextOnPageView { color: n2, ..x1 },
                                    TextOnPageView { color: o1, ..x2 },
                                );
                                assert(lib_undo(m, s2).1 =~~= s0);
                                let x0 = symtext_at(s0, ln, sn, tn);
                                assert(x0 == back1);
                                lemma_upd_symtext_collapse(
                                    s1,
                                    ln,
                                    sn,
                                    tn,
                                    back1,
                                    TextOnPageView { color: n2, ..x0 },
                                );
                                assert(lib_apply(lib_undo(m, s2).0, s0).1 =~~= s2);
                                assert(lib_apply(lib_undo(m, s2).0, s0) == (m, s2));
                            }
                        } else {
                            if symtext_valid(s2, ln, sn, tn) {
                                assert(symtext_valid(s1, ln, sn, tn));
                            }
                            assert(s1 == s2 && s0 == s1);
                        }
                    }
                },
                _ => {},
            }
        },
        _ => {},
    }
}

} // verus!
