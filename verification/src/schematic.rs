//! The schematic module covers code related to an electronics schematic,
//! consisting of one or more pages of stuff, and the family of reversible
//! actions that edit a schematic.

use vstd::prelude::*;
use crate::component::{ComponentVariantReference, ComponentVariantReferenceView};
use crate::general::{ColorMode, Coordinates, Length, StorageFormat, StoragePath};
use crate::record::{Action, Merged, MergedView, Record, record_apply, record_redo, record_undo};

verus! {

/// The kinds of colors to use on a schematic.
#[derive(Clone, Copy, PartialEq, Eq, Structural, Debug)]
pub enum Colors {
    /// The standard color for visibility
    Standard,
    /// The color for the paper border
    Border,
    /// A custom color, as red, green, blue and alpha parts
    Custom(u8, u8, u8, u8),
}


impl Colors {
    /// The color as red, green, blue and alpha parts under the given
    /// rendering mode.
    pub open spec fn spec_rgba(self, mode: ColorMode) -> (u8, u8, u8, u8) {
        match self {
            Colors::Standard => match mode {
                ColorMode::ScreenModeDark => (255u8, 255u8, 255u8, 255u8),
                ColorMode::ScreenModeLight => (0u8, 0u8, 0u8, 255u8),
                ColorMode::PrintingMode => (0u8, 0u8, 0u8, 255u8),
            },
            Colors::Border => match mode {
                ColorMode::ScreenModeDark => (0u8, 0u8, 255u8, 255u8),
                ColorMode::ScreenModeLight => (0u8, 0u8, 255u8, 255u8),
                ColorMode::PrintingMode => (255u8, 255u8, 255u8, 255u8),
            },
            Colors::Custom(r, g, b, a) => (r, g, b, a),
        }
    }

    /// Returns the specific color parts for the color specified and the
    /// given color mode; the rendering surface turns them into its own
    /// color type.
    pub fn get_rgba(&self, mode: ColorMode) -> (r: (u8, u8, u8, u8))
        ensures
            r == self.spec_rgba(mode),
    {
        match self {
            Colors::Standard => match mode {
                ColorMode::ScreenModeDark => (255, 255, 255, 255),
                ColorMode::ScreenModeLight => (0, 0, 0, 255),
                ColorMode::PrintingMode => (0, 0, 0, 255),
            },
            Colors::Border => match mode {
                ColorMode::ScreenModeDark => (0, 0, 255, 255),
                ColorMode::ScreenModeLight => (0, 0, 255, 255),
                ColorMode::PrintingMode => (255, 255, 255, 255),
            },
            Colors::Custom(r, g, b, a) => (*r, *g, *b, *a),
        }
    }
}

/// Represents free text anywhere on a page or symbol.
#[derive(Clone, Debug, PartialEq)]
pub struct TextOnPage {
    /// The text to display
    pub text: String,
    /// The location of the text
    pub location: Coordinates,
    /// The color for the text
    pub color: Colors,
    /// The size of the text in physical dimensions
    pub size: Length,
}

/// The abstract value of a `TextOnPage`.
#[verifier::ext_equal]
pub struct TextOnPageView {
    /// The text to display.
    pub text: Seq<char>,
    /// The location of the text.
    pub location: Coordinates,
    /// The color for the text.
    pub color: Colors,
    /// The size of the text in physical dimensions.
    pub size: Length,
}

impl View for TextOnPage {
    type V = TextOnPageView;

    open spec fn view(&self) -> TextOnPageView {
        TextOnPageView {
            text: self.text@,
            location: self.location,
            color: self.color,
            size: self.size,
        }
    }
}

impl TextOnPage {
    /// An exact copy of the text.
    pub fn duplicate(&self) -> (r: Self)
        ensures
            r@ == self@,
    {
        TextOnPage {
            text: self.text.clone(),
            location: self.location,
            color: self.color,
            size: self.size,
        }
    }
}

/// A single page of an electronic schematic.
#[derive(Debug, PartialEq)]
pub struct Page {
    /// The symbols on the page
    pub syms: Vec<ComponentVariantReference>,
    /// The free text items on the page
    pub texts: Vec<TextOnPage>,
    /// The physical size of the page
    pub size: Coordinates,
}

/// The abstract value of a `Page`.
#[verifier::ext_equal]
pub struct PageView {
    /// The symbols on the page.
    pub syms: Seq<ComponentVariantReferenceView>,
    /// The free text items on the page.
    pub texts: Seq<TextOnPageView>,
    /// The physical size of the page.
    pub size: Coordinates,
}

impl View for Page {
    type V = PageView;

    open spec fn view(&self) -> PageView {
        PageView {
            syms: self.syms@.map_values(|s: ComponentVariantReference| s@),
            texts: self.texts@.map_values(|t: TextOnPage| t@),
            size: self.size,
        }
    }
}

/// Represents an entire electronic schematic.
#[derive(Debug, PartialEq)]
pub struct Schematic {
    /// The list of pages for the schematic
    pub pages: Vec<Page>,
    /// The name of the schematic
    pub name: String,
}

/// The abstract value of a `Schematic`.
#[verifier::ext_equal]
pub struct SchematicView {
    /// The pages of the schematic.
    pub pages: Seq<PageView>,
    /// The name of the schematic.
    pub name: Seq<char>,
}

impl View for Schematic {
    type V = SchematicView;

    open spec fn view(&self) -> SchematicView {
        SchematicView { pages: self.pages@.map_values(|p: Page| p@), name: self.name@ }
    }
}

/// Defines the mode for mouse interaction for schematics.
#[derive(PartialEq, Eq, Structural, Debug)]
pub enum MouseMode {
    /// Allows a user to select objects on the current schematic page
    Selection,
    /// Allows a user to drag text around on the current schematic page
    TextDrag,
    /// Allows new text to be placed on a page
    NewText,
    /// Allows a user to add components to a schematic
    NewComponent,
}

/// The things that can be selected on a schematic.
#[derive(Debug)]
pub enum SchematicSelection {
    /// A text object is selected
    Text {
        /// The page number
        page: usize,
        /// The text number
        textnum: usize,
    },
    /// A symbol has been selected
    Symbol {
        /// The page number
        page: usize,
        /// The symbol number
        sym: usize,
    },
}

impl Schematic {
    /// Create a new example schematic: one page of demonstration text.
    pub fn new_example() -> (r: Self)
        ensures
            r@.pages.len() == 1,
            r@.pages[0].texts.len() == 5,
            r@.pages[0].syms.len() == 0,
    {
        let mut t: Vec<TextOnPage> = Vec::new();
        t.push(
            TextOnPage {
                text: "demo text".to_owned(),
                location: Coordinates::Inches(0, 0),
                color: Colors::Standard,
                size: Length::Inches(5080),
            },
        );
        t.push(
            TextOnPage {
                text: "moredemo text".to_owned(),
                location: Coordinates::Inches(0, 5080),
                color: Colors::Standard,
                size: Length::Inches(10160),
            },
        );
        t.push(
            TextOnPage {
                text: "moredemo text".to_owned(),
                location: Coordinates::Inches(0, 15240),
                color: Colors::Standard,
                size: Length::Inches(20320),
            },
        );
        t.push(
            TextOnPage {
                text: "moredemo text".to_owned(),
                location: Coordinates::Inches(0, 35560),
                color: Colors::Standard,
                size: Length::Inches(40640),
            },
        );
        t.push(
            TextOnPage {
                text: "moredemo text".to_owned(),
                location: Coordinates::Inches(0, 76200),
                color: Colors::Standard,
                size: Length::Inches(81280),
            },
        );
        let page = Page { syms: Vec::new(), texts: t, size: Coordinates::Inches(279400, 215900) };
        let mut pages: Vec<Page> = Vec::new();
        pages.push(page);
        Schematic { pages, name: "Example Schematic".to_owned() }
    }
}

/// Whether a schematic has a text at the given page and text position.
pub open spec fn text_valid(t: SchematicView, p: int, tn: int) -> bool {
    0 <= p < t.pages.len() && 0 <= tn < t.pages[p].texts.len()
}

/// The text at the given page and text position.
pub open spec fn text_at(t: SchematicView, p: int, tn: int) -> TextOnPageView {
    t.pages[p].texts[tn]
}

/// The schematic with the text at the given position replaced.
pub open spec fn upd_text(t: SchematicView, p: int, tn: int, tx: TextOnPageView) -> SchematicView {
    let pg = t.pages[p];
    SchematicView { pages: t.pages.update(p, PageView { texts: pg.texts.update(tn, tx), ..pg }), ..t }
}

/// Whether a schematic has a placement at the given page and position.
pub open spec fn sym_valid(t: SchematicView, p: int, sn: int) -> bool {
    0 <= p < t.pages.len() && 0 <= sn < t.pages[p].syms.len()
}

/// The placement at the given page and position.
pub open spec fn sym_at(t: SchematicView, p: int, sn: int) -> ComponentVariantReferenceView {
    t.pages[p].syms[sn]
}

/// The schematic with the placement at the given position replaced.
pub open spec fn upd_sym(
    t: SchematicView,
    p: int,
    sn: int,
    s: ComponentVariantReferenceView,
) -> SchematicView {
    let pg = t.pages[p];
    SchematicView { pages: t.pages.update(p, PageView { syms: pg.syms.update(sn, s), ..pg }), ..t }
}

/// Replacing a text twice is replacing it once, with the second value.
pub proof fn lemma_upd_text_collapse(
    t: SchematicView,
    p: int,
    tn: int,
    tx1: TextOnPageView,
    tx2: TextOnPageView,
)
    requires
        text_valid(t, p, tn),
    ensures
        upd_text(upd_text(t, p, tn, tx1), p, tn, tx2) == upd_text(t, p, tn, tx2),
        text_valid(upd_text(t, p, tn, tx1), p, tn),
        text_at(upd_text(t, p, tn, tx1), p, tn) == tx1,
{
    assert(upd_text(upd_text(t, p, tn, tx1), p, tn, tx2) =~~= upd_text(t, p, tn, tx2));
}

/// Replacing a text keeps the shape of the schematic and stores the text.
pub proof fn lemma_upd_text_read(t: SchematicView, p: int, tn: int, tx: TextOnPageView)
    requires
        text_valid(t, p, tn),
    ensures
        text_valid(upd_text(t, p, tn, tx), p, tn),
        text_at(upd_text(t, p, tn, tx), p, tn) == tx,
        upd_text(t, p, tn, tx).pages.len() == t.pages.len(),
        upd_text(t, p, tn, tx).pages[p].texts.len() == t.pages[p].texts.len(),
{
}

/// Replacing a text by itself changes nothing.
pub proof fn lemma_upd_text_same(t: SchematicView, p: int, tn: int)
    requires
        text_valid(t, p, tn),
    ensures
        upd_text(t, p, tn, text_at(t, p, tn)) == t,
{
    assert(upd_text(t, p, tn, text_at(t, p, tn)) =~~= t);
}

/// Replacing a placement twice is replacing it once, with the second value.
pub proof fn lemma_upd_sym_collapse(
    t: SchematicView,
    p: int,
    sn: int,
    s1: ComponentVariantReferenceView,
    s2: ComponentVariantReferenceView,
)
    requires
        sym_valid(t, p, sn),
    ensures
        upd_sym(upd_sym(t, p, sn, s1), p, sn, s2) == upd_sym(t, p, sn, s2),
        sym_valid(upd_sym(t, p, sn, s1), p, sn),
        sym_at(upd_sym(t, p, sn, s1), p, sn) == s1,
{
    assert(upd_sym(upd_sym(t, p, sn, s1), p, sn, s2) =~~= upd_sym(t, p, sn, s2));
}

/// Replacing a placement keeps the shape of the schematic and stores it.
pub proof fn lemma_upd_sym_read(
    t: SchematicView,
    p: int,
    sn: int,
    s: ComponentVariantReferenceView,
)
    requires
        sym_valid(t, p, sn),
    ensures
        sym_valid(upd_sym(t, p, sn, s), p, sn),
        sym_at(upd_sym(t, p, sn, s), p, sn) == s,
        upd_sym(t, p, sn, s).pages.len() == t.pages.len(),
        upd_sym(t, p, sn, s).pages[p].syms.len() == t.pages[p].syms.len(),
{
}

/// Replacing a placement by itself changes nothing.
pub proof fn lemma_upd_sym_same(t: SchematicView, p: int, sn: int)
    requires
        sym_valid(t, p, sn),
    ensures
        upd_sym(t, p, sn, sym_at(t, p, sn)) == t,
{
    assert(upd_sym(t, p, sn, sym_at(t, p, sn)) =~~= t);
}


/// The actions that can be done to a schematic. This allows the undo/redo
/// functionality to exist.
#[derive(Clone, Debug, PartialEq)]
pub enum SchematicAction {
    /// Move a symbol on the page by a certain amount
    MoveSymbol {
        /// The page number
        pagenum: usize,
        /// The symbol number
        symnum: usize,
        /// The delta to move by
        delta: Coordinates,
    },
    /// Move text on a schematic page by a certain amount
    MoveText {
        /// The page number
        pagenum: usize,
        /// The text number
        textnum: usize,
        /// The delta to move by
        delta: Coordinates,
    },
    /// Create a new text for a schematic
    CreateText {
        /// The page number
        pagenum: usize,
        /// The new text
        text: TextOnPage,
    },
    /// Edits the text of a text object for a schematic page
    EditText {
        /// The page number
        pagenum: usize,
        /// The text number
        textnum: usize,
        /// The old text
        old: String,
        /// The new text
        new: String,
    },
    /// Change the text color of a text object for a schematic page
    ChangeTextColor {
        /// The page number
        pagenum: usize,
        /// The text number
        textnum: usize,
        /// The old color
        old: Colors,
        /// The new color
        new: Colors,
    },
    /// Add a component variant to the schematic
    AddComponentVariant {
        /// The page number
        pagenum: usize,
        /// The variant
        var: ComponentVariantReference,
    },
}

/// The abstract value of a `SchematicAction`.
#[verifier::ext_equal]
pub enum SchematicActionView {
    /// Move a symbol on the page by a certain amount.
    MoveSymbol {
        /// The page number.
        pagenum: int,
        /// The symbol number.
        symnum: int,
        /// The delta to move by.
        delta: Coordinates,
    },
    /// Move text on a schematic page by a certain amount.
    MoveText {
        /// The page number.
        pagenum: int,
        /// The text number.
        textnum: int,
        /// The delta to move by.
        delta: Coordinates,
    },
    /// Create a new text for a schematic.
    CreateText {
        /// The page number.
        pagenum: int,
        /// The new text.
        text: TextOnPageView,
    },
    /// Edit the text of a text object for a schematic page.
    EditText {
        /// The page number.
        pagenum: int,
        /// The text number.
        textnum: int,
        /// The old text.
        old: Seq<char>,
        /// The new text.
        new: Seq<char>,
    },
    /// Change the text color of a text object for a schematic page.
    ChangeTextColor {
        /// The page number.
        pagenum: int,
        /// The text number.
        textnum: int,
        /// The old color.
        old: Colors,
        /// The new color.
        new: Colors,
    },
    /// Add a component variant to the schematic.
    AddComponentVariant {
        /// The page number.
        pagenum: int,
        /// The variant.
        var: ComponentVariantReferenceView,
    },
}

impl View for SchematicAction {
    type V = SchematicActionView;

    open spec fn view(&self) -> SchematicActionView {
        match self {
            SchematicAction::MoveSymbol { pagenum, symnum, delta } => SchematicActionView::MoveSymbol {
                pagenum: *pagenum as int,
                symnum: *symnum as int,
                delta: *delta,
            },
            SchematicAction::MoveText { pagenum, textnum, delta } => SchematicActionView::MoveText {
                pagenum: *pagenum as int,
                textnum: *textnum as int,
                delta: *delta,
            },
            SchematicAction::CreateText { pagenum, text } => SchematicActionView::CreateText {
                pagenum: *pagenum as int,
                text: text@,
            },
            SchematicAction::EditText { pagenum, textnum, old, new } => SchematicActionView::EditText {
                pagenum: *pagenum as int,
                textnum: *textnum as int,
                old: old@,
                new: new@,
            },
            SchematicAction::ChangeTextColor { pagenum, textnum, old, new } => SchematicActionView::ChangeTextColor {
                pagenum: *pagenum as int,
                textnum: *textnum as int,
                old: *old,
                new: *new,
            },
            SchematicAction::AddComponentVariant { pagenum, var } => SchematicActionView::AddComponentVariant {
                pagenum: *pagenum as int,
                var: var@,
            },
        }
    }
}

/// What applying a schematic action does: the stored entry and the new
/// schematic. An action whose target path does not resolve is a no-op.
pub open spec fn sch_apply(a: SchematicActionView, t: SchematicView) -> (
    SchematicActionView,
    SchematicView,
) {
    match a {
        SchematicActionView::MoveSymbol { pagenum, symnum, delta } => {
            if sym_valid(t, pagenum, symnum) {
                let s = sym_at(t, pagenum, symnum);
                (
                    a,
                    upd_sym(
                        t,
                        pagenum,
                        symnum,
                        ComponentVariantReferenceView { pos: s.pos.spec_add(delta), ..s },
                    ),
                )
            } else {
                (a, t)
            }
        },
        SchematicActionView::MoveText { pagenum, textnum, delta } => {
            if text_valid(t, pagenum, textnum) {
                let tx = text_at(t, pagenum, textnum);
                (
                    a,
                    upd_text(
                        t,
                        pagenum,
                        textnum,
                        TextOnPageView { location: tx.location.spec_add(delta), ..tx },
                    ),
                )
            } else {
                (a, t)
            }
        },
        SchematicActionView::CreateText { pagenum, text } => {
            if 0 <= pagenum < t.pages.len() {
                let pg = t.pages[pagenum];
                (
                    a,
                    SchematicView {
                        pages: t.pages.update(pagenum, PageView { texts: pg.texts.push(text), ..pg }),
                        ..t
                    },
                )
            } else {
                (a, t)
            }
        },
        SchematicActionView::EditText { pagenum, textnum, old, new } => {
            if text_valid(t, pagenum, textnum) {
                let tx = text_at(t, pagenum, textnum);
                (a, upd_text(t, pagenum, textnum, TextOnPageView { text: new, ..tx }))
            } else {
                (a, t)
            }
        },
        SchematicActionView::ChangeTextColor { pagenum, textnum, old, new } => {
            if text_valid(t, pagenum, textnum) {
                let tx = text_at(t, pagenum, textnum);
                (a, upd_text(t, pagenum, textnum, TextOnPageView { color: new, ..tx }))
            } else {
                (a, t)
            }
        },
        SchematicActionView::AddComponentVariant { pagenum, var } => {
            if 0 <= pagenum < t.pages.len() {
                let pg = t.pages[pagenum];
                (
                    a,
                    SchematicView {
                        pages: t.pages.update(pagenum, PageView { syms: pg.syms.push(var), ..pg }),
                        ..t
                    },
                )
            } else {
                (a, t)
            }
        },
    }
}

/// What undoing a schematic action does: the restored ready action and the
/// schematic with the mutation inverted. An action whose target path does
/// not resolve is a no-op.
pub open spec fn sch_undo(a: SchematicActionView, t: SchematicView) -> (
    SchematicActionView,
    SchematicView,
) {
    match a {
        SchematicActionView::MoveSymbol { pagenum, symnum, delta } => {
            if sym_valid(t, pagenum, symnum) {
                let s = sym_at(t, pagenum, symnum);
                (
                    a,
                    upd_sym(
                        t,
                        pagenum,
                        symnum,
                        ComponentVariantReferenceView { pos: s.pos.spec_sub(delta), ..s },
                    ),
                )
            } else {
                (a, t)
            }
        },
        SchematicActionView::MoveText { pagenum, textnum, delta } => {
            if text_valid(t, pagenum, textnum) {
                let tx = text_at(t, pagenum, textnum);
                (
                    a,
                    upd_text(
                        t,
                        pagenum,
                        textnum,
                        TextOnPageView { location: tx.location.spec_sub(delta), ..tx },
                    ),
                )
            } else {
                (a, t)
            }
        },
        SchematicActionView::CreateText { pagenum, text } => {
            if 0 <= pagenum < t.pages.len() && t.pages[pagenum].texts.len() > 0 {
                let pg = t.pages[pagenum];
                (
                    a,
                    SchematicView {
                        pages: t.pages.update(
                            pagenum,
                            PageView { texts: pg.texts.drop_last(), ..pg },
                        ),
                        ..t
                    },
                )
            } else {
                (a, t)
            }
        },
        SchematicActionView::EditText { pagenum, textnum, old, new } => {
            if text_valid(t, pagenum, textnum) {
                let tx = text_at(t, pagenum, textnum);
                (a, upd_text(t, pagenum, textnum, TextOnPageView { text: old, ..tx }))
            } else {
                (a, t)
            }
        },
        SchematicActionView::ChangeTextColor { pagenum, textnum, old, new } => {
            if text_valid(t, pagenum, textnum) {
                let tx = text_at(t, pagenum, textnum);
                (a, upd_text(t, pagenum, textnum, TextOnPageView { color: old, ..tx }))
            } else {
                (a, t)
            }
        },
        SchematicActionView::AddComponentVariant { pagenum, var } => {
            if 0 <= pagenum < t.pages.len() && t.pages[pagenum].syms.len() > 0 {
                let pg = t.pages[pagenum];
                (
                    SchematicActionView::AddComponentVariant { pagenum, var: pg.syms.last() },
                    SchematicView {
                        pages: t.pages.update(pagenum, PageView { syms: pg.syms.drop_last(), ..pg }),
                        ..t
                    },
                )
            } else {
                (a, t)
            }
        },
    }
}

/// What coalescing does for schematic actions: two actions merge only when
/// they are the same variant on the identical target path. Summed deltas of
/// zero, and a value edit back to the first old value, annul.
pub open spec fn sch_merge(e: SchematicActionView, b: SchematicActionView) -> MergedView<
    SchematicActionView,
> {
    match e {
        SchematicActionView::MoveSymbol { pagenum, symnum, delta } => match b {
            SchematicActionView::MoveSymbol { pagenum: p2, symnum: s2, delta: d2 } => {
                if pagenum == p2 && symnum == s2 {
                    if delta.spec_add(d2).spec_is_zero() {
                        MergedView::Annul
                    } else {
                        MergedView::Yes(
                            SchematicActionView::MoveSymbol {
                                pagenum,
                                symnum,
                                delta: delta.spec_add(d2),
                            },
                        )
                    }
                } else {
                    MergedView::No
                }
            },
            _ => MergedView::No,
        },
        SchematicActionView::MoveText { pagenum, textnum, delta } => match b {
            SchematicActionView::MoveText { pagenum: p2, textnum: t2, delta: d2 } => {
                if pagenum == p2 && textnum == t2 {
                    if delta.spec_add(d2).spec_is_zero() {
                        MergedView::Annul
                    } else {
                        MergedView::Yes(
                            SchematicActionView::MoveText {
                                pagenum,
                                textnum,
                                delta: delta.spec_add(d2),
                            },
                        )
                    }
                } else {
                    MergedView::No
                }
            },
            _ => MergedView::No,
        },
        SchematicActionView::EditText { pagenum, textnum, old, new } => match b {
            SchematicActionView::EditText { pagenum: p2, textnum: t2, old: o2, new: n2 } => {
                if pagenum == p2 && textnum == t2 {
                    if old == n2 {
                        MergedView::Annul
                    } else {
                        MergedView::Yes(
                            SchematicActionView::EditText { pagenum, textnum, old, new: n2 },
                        )
                    }
                } else {
                    MergedView::No
                }
            },
            _ => MergedView::No,
        },
        SchematicActionView::ChangeTextColor { pagenum, textnum, old, new } => match b {
            SchematicActionView::ChangeTextColor { pagenum: p2, textnum: t2, old: o2, new: n2 } => {
                if pagenum == p2 && textnum == t2 {
                    if old == n2 {
                        MergedView::Annul
                    } else {
                        MergedView::Yes(
                            SchematicActionView::ChangeTextColor { pagenum, textnum, old, new: n2 },
                        )
                    }
                } else {
                    MergedView::No
                }
            },
            _ => MergedView::No,
        },
        _ => MergedView::No,
    }
}

/// The inputs on which a schematic action, applied and then undone, gives
/// the schematic back exactly: value-replacing edits must carry the value
/// presently in the document as their old value.
pub open spec fn sch_can_invert(a: SchematicActionView, t: SchematicView) -> bool {
    match a {
        SchematicActionView::EditText { pagenum, textnum, old, new } => text_valid(
            t,
            pagenum,
            textnum,
        ) ==> text_at(t, pagenum, textnum).text == old,
        SchematicActionView::ChangeTextColor { pagenum, textnum, old, new } => text_valid(
            t,
            pagenum,
            textnum,
        ) ==> text_at(t, pagenum, textnum).color == old,
        _ => true,
    }
}


impl Action<Schematic> for SchematicAction {
    open spec fn can_invert(a: SchematicActionView, t: SchematicView) -> bool {
        sch_can_invert(a, t)
    }

    open spec fn apply_view(a: SchematicActionView, t: SchematicView) -> (
        SchematicActionView,
        SchematicView,
    ) {
        sch_apply(a, t)
    }

    open spec fn undo_view(a: SchematicActionView, t: SchematicView) -> (
        SchematicActionView,
        SchematicView,
    ) {
        sch_undo(a, t)
    }

    open spec fn merge_view(a: SchematicActionView, b: SchematicActionView) -> MergedView<
        SchematicActionView,
    > {
        sch_merge(a, b)
    }

    fn apply(&mut self, target: &mut Schematic) {
        let ghost a0 = self@;
        let ghost t0 = target@;
        match &*self {
            SchematicAction::MoveSymbol { pagenum, symnum, delta } => {
                let p = *pagenum;
                let sn = *symnum;
                let d = *delta;
                if p < target.pages.len() {
                    let mut pg = target.pages.remove(p);
                    if sn < pg.syms.len() {
                        let mut s = pg.syms.remove(sn);
                        s.pos = s.pos.add(d);
                        pg.syms.insert(sn, s);
                    }
                    target.pages.insert(p, pg);
                }
                proof {
                    assert(target@ =~~= sch_apply(a0, t0).1);
                }
            },
            SchematicAction::MoveText { pagenum, textnum, delta } => {
                let p = *pagenum;
                let tn = *textnum;
                let d = *delta;
                if p < target.pages.len() {
                    let mut pg = target.pages.remove(p);
                    if tn < pg.texts.len() {
                        let mut tx = pg.texts.remove(tn);
                        tx.location = tx.location.add(d);
                        pg.texts.insert(tn, tx);
                    }
                    target.pages.insert(p, pg);
                }
                proof {
                    assert(target@ =~~= sch_apply(a0, t0).1);
                }
            },
            SchematicAction::CreateText { pagenum, text } => {
                let p = *pagenum;
                if p < target.pages.len() {
                    let mut pg = target.pages.remove(p);
                    pg.texts.push(text.duplicate());
                    target.pages.insert(p, pg);
                }
                proof {
                    assert(target@ =~~= sch_apply(a0, t0).1);
                }
            },
            SchematicAction::EditText { pagenum, textnum, old, new } => {
                let p = *pagenum;
                let tn = *textnum;
                if p < target.pages.len() {
                    let mut pg = target.pages.remove(p);
                    if tn < pg.texts.len() {
                        let mut tx = pg.texts.remove(tn);
                        tx.text = new.clone();
                        pg.texts.insert(tn, tx);
                    }
                    target.pages.insert(p, pg);
                }
                proof {
                    assert(target@ =~~= sch_apply(a0, t0).1);
                }
            },
            SchematicAction::ChangeTextColor { pagenum, textnum, old, new } => {
                let p = *pagenum;
                let tn = *textnum;
                let c = *new;
                if p < target.pages.len() {
                    let mut pg = target.pages.remove(p);
                    if tn < pg.texts.len() {
                        let mut tx = pg.texts.remove(tn);
                        tx.color = c;
                        pg.texts.insert(tn, tx);
                    }
                    target.pages.insert(p, pg);
                }
                proof {
                    assert(target@ =~~= sch_apply(a0, t0).1);
                }
            },
            SchematicAction::AddComponentVariant { pagenum, var } => {
                let p = *pagenum;
                if p < target.pages.len() {
                    let mut pg = target.pages.remove(p);
                    pg.syms.push(var.duplicate());
                    target.pages.insert(p, pg);
                }
                proof {
                    assert(target@ =~~= sch_apply(a0, t0).1);
                }
            },
        }
        proof {
            assert(self@ == sch_apply(a0, t0).0);
            assert(target@ == sch_apply(a0, t0).1);
        }
    }

    fn undo(&mut self, target: &mut Schematic) {
        let ghost a0 = self@;
        let ghost t0 = target@;
        match self {
            SchematicAction::MoveSymbol { pagenum, symnum, delta } => {
                let p = *pagenum;
                let sn = *symnum;
                let d = *delta;
                if p < target.pages.len() {
                    let mut pg = target.pages.remove(p);
                    if sn < pg.syms.len() {
                        let mut s = pg.syms.remove(sn);
                        s.pos = s.pos.sub(d);
                        pg.syms.insert(sn, s);
                    }
                    target.pages.insert(p, pg);
                }
                proof {
                    assert(target@ =~~= sch_undo(a0, t0).1);
                }
            },
            SchematicAction::MoveText { pagenum, textnum, delta } => {
                let p = *pagenum;
                let tn = *textnum;
                let d = *delta;
                if p < target.pages.len() {
                    let mut pg = target.pages.remove(p);
                    if tn < pg.texts.len() {
                        let mut tx = pg.texts.remove(tn);
                        tx.location = tx.location.sub(d);
                        pg.texts.insert(tn, tx);
                    }
                    target.pages.insert(p, pg);
                }
                proof {
                    assert(target@ =~~= sch_undo(a0, t0).1);
                }
            },
            SchematicAction::CreateText { pagenum, text } => {
                let p = *pagenum;
                if p < target.pages.len() {
                    let mut pg = target.pages.remove(p);
                    let _ = pg.texts.pop();
                    target.pages.insert(p, pg);
                }
                proof {
                    assert(target@ =~~= sch_undo(a0, t0).1);
                }
            },
            SchematicAction::EditText { pagenum, textnum, old, new } => {
                let p = *pagenum;
                let tn = *textnum;
                if p < target.pages.len() {
                    let mut pg = target.pages.remove(p);
                    if tn < pg.texts.len() {
                        let mut tx = pg.texts.remove(tn);
                        tx.text = old.clone();
                        pg.texts.insert(tn, tx);
                    }
                    target.pages.insert(p, pg);
                }
                proof {
                    assert(target@ =~~= sch_undo(a0, t0).1);
                }
            },
            SchematicAction::ChangeTextColor { pagenum, textnum, old, new } => {
                let p = *pagenum;
                let tn = *textnum;
                let c = *old;
                if p < target.pages.len() {
                    let mut pg = target.pages.remove(p);
                    if tn < pg.texts.len() {
                        let mut tx = pg.texts.remove(tn);
                        tx.color = c;
                        pg.texts.insert(tn, tx);
                    }
                    target.pages.insert(p, pg);
                }
                proof {
                    assert(target@ =~~= sch_undo(a0, t0).1);
                }
            },
            SchematicAction::AddComponentVariant { pagenum, var } => {
                let p = *pagenum;
                if p < target.pages.len() {
                    let mut pg = target.pages.remove(p);
                    match pg.syms.pop() {
                        Some(v) => {
                            *var = v;
                        },
                        None => {},
                    }
                    target.pages.insert(p, pg);
                }
                proof {
                    assert(target@ =~~= sch_undo(a0, t0).1);
                    assert(self@ =~~= sch_undo(a0, t0).0);
                }
            },
        }
        proof {
            assert(self@ == sch_undo(a0, t0).0);
            assert(target@ == sch_undo(a0, t0).1);
        }
    }

    fn merge(&mut self, other: Self) -> (r: Merged<Self>) {
        let ghost e0 = self@;
        let ghost b0 = other@;
        match self {
            SchematicAction::MoveSymbol { pagenum, symnum, delta } => match other {
                SchematicAction::MoveSymbol { pagenum: p2, symnum: s2, delta: d2 } => {
                    if *pagenum == p2 && *symnum == s2 {
                        let nd = (*delta).add(d2);
                        if nd.less_than_epsilon() {
                            Merged::Annul
                        } else {
                            *delta = nd;
                            Merged::Yes
                        }
                    } else {
                        Merged::No(
                            SchematicAction::MoveSymbol { pagenum: p2, symnum: s2, delta: d2 },
                        )
                    }
                },
                o => Merged::No(o),
            },
            SchematicAction::MoveText { pagenum, textnum, delta } => match other {
                SchematicAction::MoveText { pagenum: p2, textnum: t2, delta: d2 } => {
                    if *pagenum == p2 && *textnum == t2 {
                        let nd = (*delta).add(d2);
                        if nd.less_than_epsilon() {
                            Merged::Annul
                        } else {
                            *delta = nd;
                            Merged::Yes
                        }
                    } else {
                        Merged::No(SchematicAction::MoveText { pagenum: p2, textnum: t2, delta: d2 })
                    }
                },
                o => Merged::No(o),
            },
            SchematicAction::EditText { pagenum, textnum, old, new } => match other {
                SchematicAction::EditText { pagenum: p2, textnum: t2, old: o2, new: n2 } => {
                    if *pagenum == p2 && *textnum == t2 {
                        if *old == n2 {
                            Merged::Annul
                        } else {
                            *new = n2;
                            Merged::Yes
                        }
                    } else {
                        Merged::No(
                            SchematicAction::EditText { pagenum: p2, textnum: t2, old: o2, new: n2 },
                        )
                    }
                },
                o => Merged::No(o),
            },
            SchematicAction::ChangeTextColor { pagenum, textnum, old, new } => match other {
                SchematicAction::ChangeTextColor { pagenum: p2, textnum: t2, old: o2, new: n2 } => {
                    if *pagenum == p2 && *textnum == t2 {
                        if *old == n2 {
                            Merged::Annul
                        } else {
                            *new = n2;
                            Merged::Yes
                        }
                    } else {
                        Merged::No(
                            SchematicAction::ChangeTextColor {
                                pagenum: p2,
                                textnum: t2,
                                old: o2,
                                new: n2,
                            },
                        )
                    }
                },
                o => Merged::No(o),
            },
            SchematicAction::CreateText { pagenum, text } => Merged::No(other),
            SchematicAction::AddComponentVariant { pagenum, var } => Merged::No(other),
        }
    }

    proof fn lemma_apply_invert(a: SchematicActionView, t: SchematicView) {
        sch_lemma_apply_invert(a, t);
    }

    proof fn lemma_merge_ok(
        e: SchematicActionView,
        s0: SchematicView,
        s1: SchematicView,
        b: SchematicActionView,
        s2: SchematicView,
    ) {
        sch_lemma_merge_ok(e, s0, s1, b, s2);
    }
}

/// A well-formed schematic action, applied and then undone, restores the
/// schematic, and its undone form redoes to the same entry and state.
pub proof fn sch_lemma_apply_invert(a: SchematicActionView, t: SchematicView)
    requires
        sch_can_invert(a, t),
    ensures
        ({
            let (a1, t1) = sch_apply(a, t);
            let (a0, t0) = sch_undo(a1, t1);
            t0 == t && sch_apply(a0, t) == (a1, t1)
        }),
{
    let (a1, t1) = sch_apply(a, t);
    let (a0, t0) = sch_undo(a1, t1);
    match a {
        SchematicActionView::MoveSymbol { pagenum: p, symnum: sn, delta: d } => {
            if sym_valid(t, p, sn) {
                let s = sym_at(t, p, sn);
                let s1 = ComponentVariantReferenceView { pos: s.pos.spec_add(d), ..s };
                lemma_upd_sym_read(t, p, sn, s1);
                s.pos.lemma_add_then_sub(d);
                lemma_upd_sym_collapse(
                    t,
                    p,
                    sn,
                    s1,
                    ComponentVariantReferenceView { pos: s.pos, ..s1 },
                );
                assert(ComponentVariantReferenceView { pos: s.pos, ..s1 } =~= s);
                lemma_upd_sym_same(t, p, sn);
                assert(t0 == t);
            }
        },
        SchematicActionView::MoveText { pagenum: p, textnum: tn, delta: d } => {
            if text_valid(t, p, tn) {
                let tx = text_at(t, p, tn);
                let tx1 = TextOnPageView { location: tx.location.spec_add(d), ..tx };
                lemma_upd_text_read(t, p, tn, tx1);
                tx.location.lemma_add_then_sub(d);
                lemma_upd_text_collapse(
                    t,
                    p,
                    tn,
                    tx1,
                    TextOnPageView { location: tx.location, ..tx1 },
                );
                assert(TextOnPageView { location: tx.location, ..tx1 } =~= tx);
                lemma_upd_text_same(t, p, tn);
                assert(t0 == t);
            }
        },
        SchematicActionView::CreateText { pagenum: p, text: tx } => {
            if 0 <= p < t.pages.len() {
                let pg = t.pages[p];
                assert(t1.pages[p].texts.len() > 0);
                assert(t1.pages[p].texts.drop_last() =~= pg.texts);
                assert(t0 =~~= t);
            }
        },
        SchematicActionView::EditText { pagenum: p, textnum: tn, old, new } => {
            if text_valid(t, p, tn) {
                let tx = text_at(t, p, tn);
                let tx1 = TextOnPageView { text: new, ..tx };
                lemma_upd_text_read(t, p, tn, tx1);
                lemma_upd_text_collapse(t, p, tn, tx1, TextOnPageView { text: old, ..tx1 });
                assert(TextOnPageView { text: old, ..tx1 } =~= tx);
                lemma_upd_text_same(t, p, tn);
                assert(t0 == t);
            }
        },
        SchematicActionView::ChangeTextColor { pagenum: p, textnum: tn, old, new } => {
            if text_valid(t, p, tn) {
                let tx = text_at(t, p, tn);
                let tx1 = TextOnPageView { color: new, ..tx };
                lemma_upd_text_read(t, p, tn, tx1);
                lemma_upd_text_collapse(t, p, tn, tx1, TextOnPageView { color: old, ..tx1 });
                assert(TextOnPageView { color: old, ..tx1 } =~= tx);
                lemma_upd_text_same(t, p, tn);
                assert(t0 == t);
            }
        },
        SchematicActionView::AddComponentVariant { pagenum: p, var } => {
            if 0 <= p < t.pages.len() {
                let pg = t.pages[p];
                assert(t1.pages[p].syms.len() > 0);
                assert(t1.pages[p].syms.last() == var);
                assert(t1.pages[p].syms.drop_last() =~= pg.syms);
                assert(a0 =~~= a);
                assert(t0 =~~= t);
            }
        },
    }
}

/// Coalescing adjacent applied schematic actions on one path yields one
/// applied entry for the combined step, or, on annulment, certifies the
/// document returned to where the first step began.
pub proof fn sch_lemma_merge_ok(
    e: SchematicActionView,
    s0: SchematicView,
    s1: SchematicView,
    b: SchematicActionView,
    s2: SchematicView,
)
    requires
        ({
            let (e0, es) = sch_undo(e, s1);
            es == s0 && sch_apply(e0, s0) == (e, s1)
        }),
        ({
            let (b0, bs) = sch_undo(b, s2);
            bs == s1 && sch_apply(b0, s1) == (b, s2)
        }),
    ensures
        match sch_merge(e, b) {
            MergedView::Yes(m) => ({
                let (m0, ms) = sch_undo(m, s2);
                ms == s0 && sch_apply(sch_undo(m, s2).0, s0) == (m, s2)
            }),
            MergedView::Annul => s2 == s0,
            MergedView::No => true,
        },
{
    match e {
        SchematicActionView::MoveSymbol { pagenum: p, symnum: sn, delta: d1 } => {
            match b {
                SchematicActionView::MoveSymbol { pagenum: p2, symnum: sn2, delta: d2 } => {
                    if p == p2 && sn == sn2 {
                        lemma_merge_move_sym(e, s0, s1, b, s2, p, sn, d1, d2);
                    }
                },
                _ => {},
            }
        },
        SchematicActionView::MoveText { pagenum: p, textnum: tn, delta: d1 } => {
            match b {
                SchematicActionView::MoveText { pagenum: p2, textnum: tn2, delta: d2 } => {
                    if p == p2 && tn == tn2 {
                        lemma_merge_move_text(e, s0, s1, b, s2, p, tn, d1, d2);
                    }
                },
                _ => {},
            }
        },
        SchematicActionView::EditText { pagenum: p, textnum: tn, old: o1, new: n1 } => {
            match b {
                SchematicActionView::EditText { pagenum: p2, textnum: tn2, old: o2, new: n2 } => {
                    if p == p2 && tn == tn2 {
                        lemma_merge_edit_text(e, s0, s1, b, s2, p, tn, o1, n1, o2, n2);
                    }
                },
                _ => {},
            }
        },
        SchematicActionView::ChangeTextColor { pagenum: p, textnum: tn, old: o1, new: n1 } => {
            match b {
                SchematicActionView::ChangeTextColor {
                    pagenum: p2,
                    textnum: tn2,
                    old: o2,
                    new: n2,
                } => {
                    if p == p2 && tn == tn2 {
                        lemma_merge_color_text(e, s0, s1, b, s2, p, tn, o1, n1, o2, n2);
                    }
                },
                _ => {},
            }
        },
        _ => {},
    }
}

/// Coalescing two symbol moves on one placement: the summed delta carries
/// the combined transition, and cancelling deltas annul it.
proof fn lemma_merge_move_sym(
    e: SchematicActionView,
    s0: SchematicView,
    s1: SchematicView,
    b: SchematicActionView,
    s2: SchematicView,
    p: int,
    sn: int,
    d1: Coordinates,
    d2: Coordinates,
)
    requires
        e == (SchematicActionView::MoveSymbol { pagenum: p, symnum: sn, delta: d1 }),
        b == (SchematicActionView::MoveSymbol { pagenum: p, symnum: sn, delta: d2 }),
        sch_undo(e, s1).1 == s0,
        sch_apply(sch_undo(e, s1).0, s0) == (e, s1),
        sch_undo(b, s2).1 == s1,
        sch_apply(sch_undo(b, s2).0, s1) == (b, s2),
    ensures
        match sch_merge(e, b) {
            MergedView::Yes(m) => sch_undo(m, s2).1 == s0 && sch_apply(sch_undo(m, s2).0, s0) == (
                m,
                s2,
            ),
            MergedView::Annul => s2 == s0,
            MergedView::No => true,
        },
{
    let d12 = d1.spec_add(d2);
    if sym_valid(s1, p, sn) {
        let x1 = sym_at(s1, p, sn);
        let back1 = ComponentVariantReferenceView { pos: x1.pos.spec_sub(d1), ..x1 };
        assert(s0 == upd_sym(s1, p, sn, back1));
        lemma_upd_sym_read(s1, p, sn, back1);
        assert(s2 == upd_sym(s1, p, sn, ComponentVariantReferenceView { pos: x1.pos.spec_add(d2), ..x1 }));
        lemma_upd_sym_read(s1, p, sn, ComponentVariantReferenceView { pos: x1.pos.spec_add(d2), ..x1 });
        if d12.spec_is_zero() {
            x1.pos.lemma_add_cancel(d1, d2);
            assert(s2 =~~= s0);
        } else {
            let m = SchematicActionView::MoveSymbol { pagenum: p, symnum: sn, delta: d12 };
            let x2 = sym_at(s2, p, sn);
            assert(x2 == ComponentVariantReferenceView { pos: x1.pos.spec_add(d2), ..x1 });
            x1.pos.lemma_add_sub_sum(d1, d2);
            assert(x2.pos.spec_sub(d12) == x1.pos.spec_sub(d1));
            lemma_upd_sym_collapse(
                s1,
                p,
                sn,
                ComponentVariantReferenceView { pos: x1.pos.spec_add(d2), ..x1 },
                ComponentVariantReferenceView { pos: x2.pos.spec_sub(d12), ..x2 },
            );
            assert(sch_undo(m, s2).1 =~~= s0);
            let x0 = sym_at(s0, p, sn);
            lemma_upd_sym_read(s1, p, sn, back1);
            assert(x0 == back1);
            x1.pos.lemma_add_then_sub(d1);
            x1.pos.lemma_add_sub_sum(d1, d2);
            assert(x0.pos.spec_add(d12) == x1.pos.spec_add(d2)) by {
                x1.pos.lemma_add_sub_sum(d1, d2);
            }
            lemma_upd_sym_collapse(
                s1,
                p,
                sn,
                back1,
                ComponentVariantReferenceView { pos: x0.pos.spec_add(d12), ..x0 },
            );
            assert(sch_apply(sch_undo(m, s2).0, s0).1 =~~= s2);
            assert(sch_apply(sch_undo(m, s2).0, s0) == (m, s2));
        }
    } else {
        if sym_valid(s2, p, sn) {
            assert(sym_valid(s1, p, sn));
        }
        assert(s1 == s2 && s0 == s1);
    }
}

/// Coalescing two text moves on one text: the summed delta carries the
/// combined transition, and cancelling deltas annul it.
proof fn lemma_merge_move_text(
    e: SchematicActionView,
    s0: SchematicView,
    s1: SchematicView,
    b: SchematicActionView,
    s2: SchematicView,
    p: int,
    tn: int,
    d1: Coordinates,
    d2: Coordinates,
)
    requires
        e == (SchematicActionView::MoveText { pagenum: p, textnum: tn, delta: d1 }),
        b == (SchematicActionView::MoveText { pagenum: p, textnum: tn, delta: d2 }),
        sch_undo(e, s1).1 == s0,
        sch_apply(sch_undo(e, s1).0, s0) == (e, s1),
        sch_undo(b, s2).1 == s1,
        sch_apply(sch_undo(b, s2).0, s1) == (b, s2),
    ensures
        match sch_merge(e, b) {
            MergedView::Yes(m) => sch_undo(m, s2).1 == s0 && sch_apply(sch_undo(m, s2).0, s0) == (
                m,
                s2,
            ),
            MergedView::Annul => s2 == s0,
            MergedView::No => true,
        },
{
    let d12 = d1.spec_add(d2);
    if text_valid(s1, p, tn) {
        let x1 = text_at(s1, p, tn);
        let back1 = TextOnPageView { location: x1.location.spec_sub(d1), ..x1 };
        assert(s0 == upd_text(s1, p, tn, back1));
        lemma_upd_text_read(s1, p, tn, back1);
        assert(s2 == upd_text(s1, p, tn, TextOnPageView { location: x1.location.spec_add(d2), ..x1 }));
        lemma_upd_text_read(s1, p, tn, TextOnPageView { location: x1.location.spec_add(d2), ..x1 });
        if d12.spec_is_zero() {
            x1.location.lemma_add_cancel(d1, d2);
            assert(s2 =~~= s0);
        } else {
            let m = SchematicActionView::MoveText { pagenum: p, textnum: tn, delta: d12 };
            let x2 = text_at(s2, p, tn);
            assert(x2 == TextOnPageView { location: x1.location.spec_add(d2), ..x1 });
            x1.location.lemma_add_sub_sum(d1, d2);
            assert(x2.location.spec_sub(d12) == x1.location.spec_sub(d1));
            lemma_upd_text_collapse(
                s1,
                p,
                tn,
                TextOnPageView { location: x1.location.spec_add(d2), ..x1 },
                TextOnPageView { location: x2.location.spec_sub(d12), ..x2 },
            );
            assert(sch_undo(m, s2).1 =~~= s0);
            let x0 = text_at(s0, p, tn);
            assert(x0 == back1);
            assert(x0.location.spec_add(d12) == x1.location.spec_add(d2)) by {
                x1.location.lemma_add_sub_sum(d1, d2);
            }
            lemma_upd_text_collapse(
                s1,
                p,
                tn,
                back1,
                TextOnPageView { location: x0.location.spec_add(d12), ..x0 },
            );
            assert(sch_apply(sch_undo(m, s2).0, s0).1 =~~= s2);
            assert(sch_apply(sch_undo(m, s2).0, s0) == (m, s2));
        }
    } else {
        if text_valid(s2, p, tn) {
            assert(text_valid(s1, p, tn));
        }
        assert(s1 == s2 && s0 == s1);
    }
}

/// Coalescing two edits of one text: the first old and the second new
/// value carry the combined transition; editing back to the first old
/// value annuls.
proof fn lemma_merge_edit_text(
    e: SchematicActionView,
    s0: SchematicView,
    s1: SchematicView,
    b: SchematicActionView,
    s2: SchematicView,
    p: int,
    tn: int,
    o1: Seq<char>,
    n1: Seq<char>,
    o2: Seq<char>,
    n2: Seq<char>,
)
    requires
        e == (SchematicActionView::EditText { pagenum: p, textnum: tn, old: o1, new: n1 }),
        b == (SchematicActionView::EditText { pagenum: p, textnum: tn, old: o2, new: n2 }),
        sch_undo(e, s1).1 == s0,
        sch_apply(sch_undo(e, s1).0, s0) == (e, s1),
        sch_undo(b, s2).1 == s1,
        sch_apply(sch_undo(b, s2).0, s1) == (b, s2),
    ensures
        match sch_merge(e, b) {
            MergedView::Yes(m) => sch_undo(m, s2).1 == s0 && sch_apply(sch_undo(m, s2).0, s0) == (
                m,
                s2,
            ),
            MergedView::Annul => s2 == s0,
            MergedView::No => true,
        },
{
    if text_valid(s1, p, tn) {
        let x1 = text_at(s1, p, tn);
        let back1 = TextOnPageView { text: o1, ..x1 };
        assert(s0 == upd_text(s1, p, tn, back1));
        lemma_upd_text_read(s1, p, tn, back1);
        assert(s2 == upd_text(s1, p, tn, TextOnPageView { text: n2, ..x1 }));
        lemma_upd_text_read(s1, p, tn, TextOnPageView { text: n2, ..x1 });
        if o1 == n2 {
            assert(s2 =~~= s0);
        } else {
            let m = SchematicActionView::EditText { pagenum: p, textnum: tn, old: o1, new: n2 };
            let x2 = text_at(s2, p, tn);
            assert(x2 == TextOnPageView { text: n2, ..x1 });
            lemma_upd_text_collapse(
                s1,
                p,
                tn,
                TextOnPageView { text: n2, ..x1 },
                TextOnPageView { text: o1, ..x2 },
            );
            assert(sch_undo(m, s2).1 =~~= s0);
            let x0 = text_at(s0, p, tn);
            assert(x0 == back1);
            lemma_upd_text_collapse(s1, p, tn, back1, TextOnPageView { text: n2, ..x0 });
            assert(sch_apply(sch_undo(m, s2).0, s0).1 =~~= s2);
            assert(sch_apply(sch_undo(m, s2).0, s0) == (m, s2));
        }
    } else {
        if text_valid(s2, p, tn) {
            assert(text_valid(s1, p, tn));
        }
        assert(s1 == s2 && s0 == s1);
    }
}

/// Coalescing two recolorings of one text: the first old and the second
/// new color carry the combined transition; recoloring back to the first
/// old color annuls.
proof fn lemma_merge_color_text(
    e: SchematicActionView,
    s0: SchematicView,
    s1: SchematicView,
    b: SchematicActionView,
    s2: SchematicView,
    p: int,
    tn: int,
    o1: Colors,
    n1: Colors,
    o2: Colors,
    n2: Colors,
)
    requires
        e == (SchematicActionView::ChangeTextColor { pagenum: p, textnum: tn, old: o1, new: n1 }),
        b == (SchematicActionView::ChangeTextColor { pagenum: p, textnum: tn, old: o2, new: n2 }),
        sch_undo(e, s1).1 == s0,
        sch_apply(sch_undo(e, s1).0, s0) == (e, s1),
        sch_undo(b, s2).1 == s1,
        sch_apply(sch_undo(b, s2).0, s1) == (b, s2),
    ensures
        match sch_merge(e, b) {
            MergedView::Yes(m) => sch_undo(m, s2).1 == s0 && sch_apply(sch_undo(m, s2).0, s0) == (
                m,
                s2,
            ),
            MergedView::Annul => s2 == s0,
            MergedView::No => true,
        },
{
    if text_valid(s1, p, tn) {
        let x1 = text_at(s1, p, tn);
        let back1 = TextOnPageView { color: o1, ..x1 };
        assert(s0 == upd_text(s1, p, tn, back1));
        lemma_upd_text_read(s1, p, tn, back1);
        assert(s2 == upd_text(s1, p, tn, TextOnPageView { color: n2, ..x1 }));
        lemma_upd_text_read(s1, p, tn, TextOnPageView { color: n2, ..x1 });
        if o1 == n2 {
            assert(s2 =~~= s0);
        } else {
            let m = SchematicActionView::ChangeTextColor { pagenum: p, textnum: tn, old: o1, new: n2 };
            let x2 = text_at(s2, p, tn);
            assert(x2 == TextOnPageView { color: n2, ..x1 });
            lemma_upd_text_collapse(
                s1,
                p,
                tn,
                TextOnPageView { color: n2, ..x1 },
                TextOnPageView { color: o1, ..x2 },
            );
            assert(sch_undo(m, s2).1 =~~= s0);
            let x0 = text_at(s0, p, tn);
            assert(x0 == back1);
            lemma_upd_text_collapse(s1, p, tn, back1, TextOnPageView { color: n2, ..x0 });
            assert(sch_apply(sch_undo(m, s2).0, s0).1 =~~= s2);
            assert(sch_apply(sch_undo(m, s2).0, s0) == (m, s2));
        }
    } else {
        if text_valid(s2, p, tn) {
            assert(text_valid(s1, p, tn));
        }
        assert(s1 == s2 && s0 == s1);
    }
}


/// Separates schematic information that is saved to disk from information
/// that is not saved to disk.
pub struct SchematicHolder {
    /// The actual schematic, saved to disk when requested by the user
    pub schematic: Schematic,
    /// The history log for the schematic
    pub schematic_log: Record<Schematic, SchematicAction>,
    /// Flag that mirrors, for change notification, whether the schematic
    /// stood saved when last checked
    pub schematic_was_saved: bool,
    /// The path where the schematic is saved
    pub path: Option<StoragePath>,
    /// The file format to save the object in
    pub format: StorageFormat,
}

impl SchematicHolder {
    /// Create an example schematic holder: a fresh example schematic that
    /// has never been saved anywhere, so its record reports unsaved.
    pub fn new_example() -> (r: Self)
        ensures
            r.schematic@.pages.len() == 1,
            r.schematic_log@.entries.len() == 0,
            r.schematic_log@.cursor == 0,
            r.schematic_log@.saved is None,
            r.schematic_log@.snaps == seq![r.schematic@],
            r.schematic_was_saved == true,
            r.path is None,
            r.format == StorageFormat::Toml,
    {
        let schematic = Schematic::new_example();
        let mut rec = Record::new(&schematic);
        rec.set_saved(false);
        SchematicHolder {
            schematic,
            schematic_log: rec,
            schematic_was_saved: true,
            path: None,
            format: StorageFormat::Toml,
        }
    }

    /// Install a schematic that was just loaded from storage: the history
    /// is fresh and the document reports saved until it is edited.
    pub fn from_loaded(
        schematic: Schematic,
        path: Option<StoragePath>,
        format: StorageFormat,
    ) -> (r: Self)
        ensures
            r.schematic == schematic,
            r.schematic_log@.entries.len() == 0,
            r.schematic_log@.cursor == 0,
            r.schematic_log@.saved == Some(0int),
            r.schematic_log@.snaps == seq![schematic@],
            r.schematic_was_saved == true,
            r.path == path,
            r.format == format,
            !r.has_unsaved_changes_spec(),
    {
        let rec = Record::new(&schematic);
        SchematicHolder { schematic, schematic_log: rec, schematic_was_saved: true, path, format }
    }

    /// Whether the record reports changes since the last persisted state.
    pub open spec fn has_unsaved_changes_spec(&self) -> bool {
        self.schematic_log@.saved != Some(self.schematic_log@.cursor)
    }

    /// Retrieve the name of the schematic.
    pub fn name(&self) -> (r: String)
        ensures
            self.path is Some ==> r@ == self.schematic@.name,
            self.path is None ==> r@ == "Unsaved schematic"@,
    {
        if self.path.is_some() {
            self.schematic.name.clone()
        } else {
            "Unsaved schematic".to_owned()
        }
    }

    /// Returns true when there are unsaved changes on the schematic object.
    pub fn has_unsaved_changes(&self) -> (r: bool)
        ensures
            r == self.has_unsaved_changes_spec(),
    {
        !self.schematic_log.is_saved()
    }

    /// True when the schematic has a path to save to.
    pub fn has_path(&self) -> (r: bool)
        ensures
            r == (self.path is Some),
    {
        self.path.is_some()
    }

    /// Set the path for the schematic when saving.
    pub fn set_path(&mut self, p: StoragePath)
        ensures
            final(self).path == Some(p),
            final(self).schematic == old(self).schematic,
            final(self).schematic_log == old(self).schematic_log,
            final(self).schematic_was_saved == old(self).schematic_was_saved,
            final(self).format == old(self).format,
    {
        self.path = Some(p);
    }

    /// Apply an action to the schematic, logging it in the record.
    pub fn apply(&mut self, action: SchematicAction)
        ensures
            final(self).schematic_log@ == record_apply::<Schematic, SchematicAction>(
                old(self).schematic_log@,
                old(self).schematic@,
                action@,
            ).0,
            final(self).schematic@ == record_apply::<Schematic, SchematicAction>(
                old(self).schematic_log@,
                old(self).schematic@,
                action@,
            ).1,
            final(self).schematic_was_saved == old(self).schematic_was_saved,
            final(self).path == old(self).path,
            final(self).format == old(self).format,
    {
        self.schematic_log.apply(&mut self.schematic, action);
    }

    /// Undo the latest applied action, if any; reports whether one was.
    pub fn undo(&mut self) -> (r: bool)
        ensures
            final(self).schematic_log@ == record_undo::<Schematic, SchematicAction>(
                old(self).schematic_log@,
                old(self).schematic@,
            ).0,
            final(self).schematic@ == record_undo::<Schematic, SchematicAction>(
                old(self).schematic_log@,
                old(self).schematic@,
            ).1,
            r == (old(self).schematic_log@.cursor > 0),
            final(self).schematic_was_saved == old(self).schematic_was_saved,
            final(self).path == old(self).path,
            final(self).format == old(self).format,
    {
        self.schematic_log.undo(&mut self.schematic)
    }

    /// Redo the next undone action, if any; reports whether one was.
    pub fn redo(&mut self) -> (r: bool)
        ensures
            final(self).schematic_log@ == record_redo::<Schematic, SchematicAction>(
                old(self).schematic_log@,
                old(self).schematic@,
            ).0,
            final(self).schematic@ == record_redo::<Schematic, SchematicAction>(
                old(self).schematic_log@,
                old(self).schematic@,
            ).1,
            r == (old(self).schematic_log@.cursor < old(self).schematic_log@.entries.len()),
            final(self).schematic_was_saved == old(self).schematic_was_saved,
            final(self).path == old(self).path,
            final(self).format == old(self).format,
    {
        self.schematic_log.redo(&mut self.schematic)
    }

    /// Mark the record at the present cursor as persisted, or invalidate
    /// the watermark.
    pub fn set_saved(&mut self, saved: bool)
        ensures
            final(self).schematic_log@.entries == old(self).schematic_log@.entries,
            final(self).schematic_log@.cursor == old(self).schematic_log@.cursor,
            final(self).schematic_log@.snaps == old(self).schematic_log@.snaps,
            final(self).schematic_log@.saved == if saved {
                Some(old(self).schematic_log@.cursor)
            } else {
                None::<int>
            },
            final(self).schematic == old(self).schematic,
            final(self).schematic_was_saved == old(self).schematic_was_saved,
            final(self).path == old(self).path,
            final(self).format == old(self).format,
    {
        self.schematic_log.set_saved(saved);
    }

    /// A function that determines if the status of changes made has
    /// changed. If it has, the new status is returned for the caller to
    /// act on.
    pub fn check_for_saved_status_change(&mut self) -> (r: Option<bool>)
        ensures
            final(self).schematic_was_saved == !old(self).has_unsaved_changes_spec(),
            r == if old(self).schematic_was_saved != !old(self).has_unsaved_changes_spec() {
                Some(!old(self).has_unsaved_changes_spec())
            } else {
                None::<bool>
            },
            final(self).schematic == old(self).schematic,
            final(self).schematic_log == old(self).schematic_log,
            final(self).path == old(self).path,
            final(self).format == old(self).format,
    {
        let schematic_is_saved = self.schematic_log.is_saved();
        if self.schematic_was_saved != schematic_is_saved {
            self.schematic_was_saved = schematic_is_saved;
            Some(schematic_is_saved)
        } else {
            None
        }
    }
}

} // verus!
