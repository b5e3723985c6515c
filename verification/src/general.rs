//! General value types: unit-tagged coordinates and lengths on a fixed-point
//! grid, display and color modes, and the storage-path and storage-format
//! types of the persistence boundary.

use vstd::prelude::*;

verus! {

/// Coordinate grid units in one inch. One grid unit is 1/25400 inch, which
/// is exactly one micrometre, so inch and millimetre values share one grid
/// and unit conversion in arithmetic is lossless.
pub const UNITS_PER_INCH: i64 = 25400;

/// Coordinate grid units in one millimetre (one unit is one micrometre).
pub const UNITS_PER_MM: i64 = 1000;

/// The units mode for the program.
#[derive(Clone, Copy, PartialEq, Eq, Structural, Debug)]
pub enum DisplayMode {
    /// Imperial inches
    Inches,
    /// Standard millimeters
    Millimeters,
}

/// The various modes of interpreting colors for the system.
#[derive(Clone, Copy, PartialEq, Eq, Structural, Debug)]
pub enum ColorMode {
    /// The colors for displaying on a screen in dark mode
    ScreenModeDark,
    /// The colors for displaying on a screen in light mode
    ScreenModeLight,
    /// The colors for printing
    PrintingMode,
}

/// Wrap-around addition on the coordinate grid, so that coordinate
/// arithmetic is total and moving by a delta is always exactly reversible.
pub open spec fn wrap_add(a: i64, b: i64) -> i64 {
    vstd::wrapping::i64_specs::wrapping_add(a, b)
}

/// Wrap-around subtraction on the coordinate grid; the exact inverse of
/// `wrap_add` with the same right operand.
pub open spec fn wrap_sub(a: i64, b: i64) -> i64 {
    vstd::wrapping::i64_specs::wrapping_sub(a, b)
}

/// Adding and then subtracting the same delta restores the start value.
pub proof fn lemma_wrap_add_then_sub(a: i64, b: i64)
    ensures
        wrap_sub(wrap_add(a, b), b) == a,
        wrap_add(wrap_sub(a, b), b) == a,
{
}

/// When two deltas cancel, adding both in turn restores the start value.
pub proof fn lemma_wrap_add_cancel(a: i64, d1: i64, d2: i64)
    requires
        wrap_add(d1, d2) == 0,
    ensures
        wrap_add(wrap_add(a, d1), d2) == a,
{
}

/// Two deltas added in turn land where the single summed delta lands.
pub proof fn lemma_wrap_add_assoc(a: i64, d1: i64, d2: i64)
    ensures
        wrap_add(wrap_add(a, d1), d2) == wrap_add(a, wrap_add(d1, d2)),
{
}

/// Coordinates that can be used in the program. Both variants hold a point
/// as grid units (see `UNITS_PER_INCH` and `UNITS_PER_MM`); the variant only
/// records which unit the point was specified in, and is kept by arithmetic
/// from the left operand.
#[derive(Clone, Copy, PartialEq, Eq, Structural, Debug)]
pub enum Coordinates {
    /// A point specified in imperial inches.
    Inches(i64, i64),
    /// A point specified in metric millimeters.
    Millimeters(i64, i64),
}

impl Coordinates {
    /// The horizontal position in grid units.
    pub open spec fn spec_x(self) -> i64 {
        match self {
            Coordinates::Inches(x, _) => x,
            Coordinates::Millimeters(x, _) => x,
        }
    }

    /// The vertical position in grid units.
    pub open spec fn spec_y(self) -> i64 {
        match self {
            Coordinates::Inches(_, y) => y,
            Coordinates::Millimeters(_, y) => y,
        }
    }

    /// True when the point was specified in inches.
    pub open spec fn spec_is_inches(self) -> bool {
        match self {
            Coordinates::Inches(_, _) => true,
            Coordinates::Millimeters(_, _) => false,
        }
    }

    /// The same unit tag as `self`, around the given grid position.
    pub open spec fn spec_with_xy(self, x: i64, y: i64) -> Coordinates {
        if self.spec_is_inches() {
            Coordinates::Inches(x, y)
        } else {
            Coordinates::Millimeters(x, y)
        }
    }

    /// The sum of two points: both axes combine by wrap-around addition and
    /// the left operand's unit tag is kept.
    pub open spec fn spec_add(self, rhs: Coordinates) -> Coordinates {
        self.spec_with_xy(wrap_add(self.spec_x(), rhs.spec_x()), wrap_add(self.spec_y(), rhs.spec_y()))
    }

    /// The difference of two points: both axes combine by wrap-around
    /// subtraction and the left operand's unit tag is kept.
    pub open spec fn spec_sub(self, rhs: Coordinates) -> Coordinates {
        self.spec_with_xy(wrap_sub(self.spec_x(), rhs.spec_x()), wrap_sub(self.spec_y(), rhs.spec_y()))
    }

    /// True when both axes are exactly zero on the grid. This is the
    /// decision oracle that annuls a gesture whose deltas cancel.
    pub open spec fn spec_is_zero(self) -> bool {
        self.spec_x() == 0 && self.spec_y() == 0
    }

    /// Moving by a delta and back restores the point exactly.
    pub proof fn lemma_add_then_sub(self, d: Coordinates)
        ensures
            self.spec_add(d).spec_sub(d) == self,
            self.spec_sub(d).spec_add(d) == self,
    {
    }

    /// Two moves in turn land where the single summed move lands.
    pub proof fn lemma_add_add(self, d1: Coordinates, d2: Coordinates)
        ensures
            self.spec_add(d1).spec_add(d2) == self.spec_add(d1.spec_add(d2)),
    {
    }

    /// When the summed delta is zero, the two moves cancel exactly.
    pub proof fn lemma_add_cancel(self, d1: Coordinates, d2: Coordinates)
        requires
            d1.spec_add(d2).spec_is_zero(),
        ensures
            self.spec_add(d1).spec_add(d2) == self,
            self.spec_sub(d1) == self.spec_add(d2),
    {
        assert(wrap_add(wrap_add(self.spec_x(), d1.spec_x()), d2.spec_x()) == self.spec_x());
        assert(wrap_add(wrap_add(self.spec_y(), d1.spec_y()), d2.spec_y()) == self.spec_y());
        assert(wrap_sub(self.spec_x(), d1.spec_x()) == wrap_add(self.spec_x(), d2.spec_x()));
        assert(wrap_sub(self.spec_y(), d1.spec_y()) == wrap_add(self.spec_y(), d2.spec_y()));
    }

    /// Undoing one delta of a pair commutes with applying their sum.
    pub proof fn lemma_add_sub_sum(self, d1: Coordinates, d2: Coordinates)
        ensures
            self.spec_add(d2).spec_sub(d1.spec_add(d2)) == self.spec_sub(d1),
            self.spec_sub(d1).spec_add(d1.spec_add(d2)) == self.spec_add(d2),
    {
    }

    /// Add another point to this one.
    pub fn add(self, rhs: Coordinates) -> (r: Coordinates)
        ensures
            r == self.spec_add(rhs),
    {
        let x = self.x_units().wrapping_add(rhs.x_units());
        let y = self.y_units().wrapping_add(rhs.y_units());
        self.with_xy(x, y)
    }

    /// Subtract another point from this one.
    pub fn sub(self, rhs: Coordinates) -> (r: Coordinates)
        ensures
            r == self.spec_sub(rhs),
    {
        let x = self.x_units().wrapping_sub(rhs.x_units());
        let y = self.y_units().wrapping_sub(rhs.y_units());
        self.with_xy(x, y)
    }

    /// Add another point to this one in place.
    pub fn add_assign(&mut self, rhs: Coordinates)
        ensures
            *final(self) == old(self).spec_add(rhs),
    {
        *self = self.add(rhs);
    }

    /// Subtract another point from this one in place.
    pub fn sub_assign(&mut self, rhs: Coordinates)
        ensures
            *final(self) == old(self).spec_sub(rhs),
    {
        *self = self.sub(rhs);
    }

    /// The horizontal position in grid units.
    pub fn x_units(self) -> (r: i64)
        ensures
            r == self.spec_x(),
    {
        match self {
            Coordinates::Inches(x, _) => x,
            Coordinates::Millimeters(x, _) => x,
        }
    }

    /// The vertical position in grid units.
    pub fn y_units(self) -> (r: i64)
        ensures
            r == self.spec_y(),
    {
        match self {
            Coordinates::Inches(_, y) => y,
            Coordinates::Millimeters(_, y) => y,
        }
    }

    /// The same unit tag as `self`, around the given grid position.
    pub fn with_xy(self, x: i64, y: i64) -> (r: Coordinates)
        ensures
            r == self.spec_with_xy(x, y),
    {
        match self {
            Coordinates::Inches(_, _) => Coordinates::Inches(x, y),
            Coordinates::Millimeters(_, _) => Coordinates::Millimeters(x, y),
        }
    }

    /// Get the coordinates in thousandths of a millimeter. On this grid
    /// that is the raw pair, exactly.
    pub fn get_mm(&self) -> (r: (i64, i64))
        ensures
            r.0 == self.spec_x(),
            r.1 == self.spec_y(),
    {
        (self.x_units(), self.y_units())
    }

    /// Get the coordinates in millionths of an inch, rounded toward zero.
    pub fn get_inches(&self) -> (r: (i64, i64))
        requires
            in_inch_range(self.spec_x()),
            in_inch_range(self.spec_y()),
        ensures
            r.0 == micro_inches_of(self.spec_x() as int),
            r.1 == micro_inches_of(self.spec_y() as int),
    {
        (to_micro_inches(self.x_units()), to_micro_inches(self.y_units()))
    }

    /// Get coordinates according to the specified units: thousandths of a
    /// millimeter, or millionths of an inch.
    pub fn get_units(&self, units: DisplayMode) -> (r: (i64, i64))
        requires
            units is Inches ==> in_inch_range(self.spec_x()) && in_inch_range(self.spec_y()),
        ensures
            units is Millimeters ==> r.0 == self.spec_x() && r.1 == self.spec_y(),
            units is Inches ==> r.0 == micro_inches_of(self.spec_x() as int) && r.1 == micro_inches_of(
                self.spec_y() as int,
            ),
    {
        match units {
            DisplayMode::Inches => self.get_inches(),
            DisplayMode::Millimeters => self.get_mm(),
        }
    }

    /// Are both coordinates effectively 0? On the integer grid no rounding
    /// drift accumulates, so the test is an exact comparison with zero.
    pub fn less_than_epsilon(&self) -> (r: bool)
        ensures
            r == self.spec_is_zero(),
    {
        self.x_units() == 0 && self.y_units() == 0
    }
}

/// Grid values whose micro-inch equivalent stays within the machine word.
pub open spec fn in_inch_range(v: i64) -> bool {
    -1_844_674_407_370_955 <= v <= 1_844_674_407_370_955
}

/// A grid value scaled to millionths of an inch, rounded toward zero:
/// 25400 grid units are one inch, so one grid unit is 5000/127 micro-inches.
pub open spec fn micro_inches_of(v: int) -> int {
    if v >= 0 {
        (v * 5000) / 127
    } else {
        -(((-v) * 5000) / 127)
    }
}

/// Scale one grid value to millionths of an inch, rounded toward zero.
fn to_micro_inches(v: i64) -> (r: i64)
    requires
        in_inch_range(v),
    ensures
        r == micro_inches_of(v as int),
{
    if v >= 0 {
        let m: u64 = (v as u64) * 5000;
        (m / 127) as i64
    } else {
        let m: u64 = (-(v as i128)) as u64 * 5000;
        -((m / 127) as i64)
    }
}

/// A single dimension value of length, as grid units (see `UNITS_PER_INCH`
/// and `UNITS_PER_MM`) under the unit it was specified in.
#[derive(Clone, Copy, PartialEq, Eq, Structural, Debug)]
pub enum Length {
    /// A length specified in imperial inches.
    Inches(i64),
    /// A length specified in metric millimeters.
    Millimeters(i64),
}

impl Length {
    /// The length in grid units.
    pub open spec fn spec_units(self) -> i64 {
        match self {
            Length::Inches(v) => v,
            Length::Millimeters(v) => v,
        }
    }

    /// The length in grid units.
    pub fn units(self) -> (r: i64)
        ensures
            r == self.spec_units(),
    {
        match self {
            Length::Inches(v) => v,
            Length::Millimeters(v) => v,
        }
    }

    /// Get the length in thousandths of a millimeter: the raw value, exactly.
    pub fn get_mm(&self) -> (r: i64)
        ensures
            r == self.spec_units(),
    {
        self.units()
    }

    /// Get the length in millionths of an inch, rounded toward zero.
    pub fn get_inches(&self) -> (r: i64)
        requires
            in_inch_range(self.spec_units()),
        ensures
            r == micro_inches_of(self.spec_units() as int),
    {
        to_micro_inches(self.units())
    }
}

/// The kinds of file formats that can be used for various files that are
/// exported.
#[derive(Clone, Copy, PartialEq, Eq, Structural, Debug)]
pub enum StorageFormat {
    /// The toml format
    Toml,
}

impl Default for StorageFormat {
    /// The default export format.
    fn default() -> (r: Self)
        ensures
            r == StorageFormat::Toml,
    {
        StorageFormat::Toml
    }
}

/// The ways design files can be saved.
#[derive(Clone, Debug, PartialEq)]
pub enum StoragePath {
    /// The design file is saved to a file on a local filesystem
    LocalFilesystem(String),
}

/// The external path-buffer type of std, held opaquely; the caller that
/// performs the file input and output interprets it.
#[verifier::external_type_specification]
#[verifier::external_body]
pub struct ExPathBuf(std::path::PathBuf);

/// Relies on std's `PathBuf::from` to turn an owned string into an owned
/// filesystem path; nothing further is assumed of the result.
#[verifier::external_body]
fn path_buf_from_string(s: String) -> std::path::PathBuf {
    std::path::PathBuf::from(s)
}

impl StoragePath {
    /// The backing string of the path, as a view.
    pub open spec fn spec_name(self) -> Seq<char> {
        match self {
            StoragePath::LocalFilesystem(p) => p@,
        }
    }

    /// Convert the storage path to a user viewable representation of the
    /// option. Used to display the kinds of options available to users.
    pub fn display(&self) -> (r: String)
        ensures
            r@ == "Local Filesystem"@,
    {
        match self {
            StoragePath::LocalFilesystem(_) => "Local Filesystem".to_owned(),
        }
    }

    /// Returns a path (if applicable) for the open command.
    pub fn open_path(&self) -> (r: Option<std::path::PathBuf>)
        ensures
            r is Some,
    {
        match self {
            StoragePath::LocalFilesystem(p) => Some(path_buf_from_string(p.clone())),
        }
    }
}

/// The abstract value of a `StoragePath`.
pub enum StoragePathView {
    /// A file on a local filesystem, by pathname.
    LocalFilesystem(Seq<char>),
}

impl View for StoragePath {
    type V = StoragePathView;

    open spec fn view(&self) -> StoragePathView {
        match self {
            StoragePath::LocalFilesystem(p) => StoragePathView::LocalFilesystem(p@),
        }
    }
}

impl StoragePath {
    /// An exact copy of the path.
    pub fn duplicate(&self) -> (r: Self)
        ensures
            r@ == self@,
    {
        match self {
            StoragePath::LocalFilesystem(p) => StoragePath::LocalFilesystem(p.clone()),
        }
    }
}

impl View for StorageFormat {
    type V = StorageFormat;

    open spec fn view(&self) -> StorageFormat {
        *self
    }
}

impl Default for StoragePath {
    /// An empty local-filesystem path.
    fn default() -> (r: Self)
        ensures
            r.spec_name() == Seq::<char>::empty(),
    {
        StoragePath::LocalFilesystem(String::new())
    }
}

/// The kinds of errors that can occur connecting to a storage path. The
/// boundary that performs the input and output reports the fault as text.
#[derive(Clone, Debug, PartialEq)]
pub enum StoragePathError {
    /// A generic filesystem error
    IoError(String),
}

impl StoragePathError {
    /// The fault as text.
    pub fn message(&self) -> (r: String)
        ensures
            match self {
                StoragePathError::IoError(m) => r@ == m@,
            },
    {
        match self {
            StoragePathError::IoError(m) => m.clone(),
        }
    }
}

/// The kinds of errors that can occur when loading from storage.
#[derive(Clone, Debug, PartialEq)]
pub enum StorageLoadError {
    /// A filesystem error of some sort occurred.
    IoError(String),
    /// An error occurred deserializing
    DeserializeError(String),
    /// A storage path error occurred
    StoragePathError(StoragePathError),
}

impl StorageLoadError {
    /// The fault as text.
    pub fn message(&self) -> (r: String)
        ensures
            match self {
                StorageLoadError::IoError(m) => r@ == m@,
                StorageLoadError::DeserializeError(m) => r@ == m@,
                StorageLoadError::StoragePathError(StoragePathError::IoError(m)) => r@ == m@,
            },
    {
        match self {
            StorageLoadError::IoError(m) => m.clone(),
            StorageLoadError::DeserializeError(m) => m.clone(),
            StorageLoadError::StoragePathError(p) => p.message(),
        }
    }
}

/// The kinds of errors that can occur when saving to storage.
#[derive(Clone, Debug, PartialEq)]
pub enum StorageSaveError {
    /// A filesystem error of some sort occurred.
    IoError(String),
    /// An error occurred serializing the data
    SerializeError(String),
    /// A storage path error occurred
    StoragePathError(StoragePathError),
}

impl StorageSaveError {
    /// The fault as text.
    pub fn message(&self) -> (r: String)
        ensures
            match self {
                StorageSaveError::IoError(m) => r@ == m@,
                StorageSaveError::SerializeError(m) => r@ == m@,
                StorageSaveError::StoragePathError(StoragePathError::IoError(m)) => r@ == m@,
            },
    {
        match self {
            StorageSaveError::IoError(m) => m.clone(),
            StorageSaveError::SerializeError(m) => m.clone(),
            StorageSaveError::StoragePathError(p) => p.message(),
        }
    }
}

} // verus!
