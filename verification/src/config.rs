//! The values that describe one open request.

use crate::flags::{bit_set, members, FileDialogFlags};
use vstd::prelude::*;

verus! {

/// How the extension of a file name is settled against the active filter
/// when the name is read back.
#[derive(Debug, Clone, Copy, PartialEq, Eq, Structural)]
pub enum ResultMode {
    /// Append the filter's extension where the name has none.
    AddIfNoFileExt,
    /// Replace whatever extension the name has by the filter's.
    OverwriteFileExt,
    /// Leave the name as it was typed.
    KeepInputFile,
}

impl ResultMode {
    /// The number by which the renderer knows the mode.
    pub open spec fn spec_code(self) -> i32 {
        match self {
            ResultMode::AddIfNoFileExt => 0,
            ResultMode::OverwriteFileExt => 1,
            ResultMode::KeepInputFile => 2,
        }
    }

    /// The number by which the renderer knows the mode.
    #[verifier::when_used_as_spec(spec_code)]
    pub fn code(self) -> (r: i32)
        ensures
            r == self.spec_code(),
    {
        match self {
            ResultMode::AddIfNoFileExt => 0,
            ResultMode::OverwriteFileExt => 1,
            ResultMode::KeepInputFile => 2,
        }
    }
}

impl Default for ResultMode {
    fn default() -> (r: Self)
        ensures
            r == ResultMode::AddIfNoFileExt,
    {
        ResultMode::AddIfNoFileExt
    }
}

/// A 32-bit IEEE 754 number, carried as its bit pattern so that it passes
/// through unchanged. `==` compares the patterns; `le` compares the numbers.
#[derive(Debug, Clone, Copy, PartialEq, Eq, Structural)]
pub struct Scalar(pub u32);

impl Scalar {
    /// Whether the sign bit is set.
    pub open spec fn is_negative(self) -> bool {
        self.0 >= 0x8000_0000
    }

    /// The pattern without its sign bit.
    pub open spec fn magnitude(self) -> int {
        if self.is_negative() {
            self.0 - 0x8000_0000
        } else {
            self.0 as int
        }
    }

    /// Whether the pattern stands for no number: all exponent bits set and a
    /// fraction that is not zero.
    pub open spec fn spec_is_nan(self) -> bool {
        self.magnitude() > 0x7f80_0000
    }

    /// An integer that orders the patterns of numbers as the numbers are
    /// ordered; both zeros have rank 0.
    pub open spec fn rank(self) -> int {
        if self.is_negative() {
            -self.magnitude()
        } else {
            self.magnitude()
        }
    }

    /// Whether both are numbers and `self` is not above `other`.
    pub open spec fn spec_le(self, other: Scalar) -> bool {
        !self.spec_is_nan() && !other.spec_is_nan() && self.rank() <= other.rank()
    }

    /// The larger of the two; where one is no number, the other one.
    pub open spec fn spec_larger(self, other: Scalar) -> Scalar {
        if self.spec_is_nan() {
            other
        } else if other.spec_is_nan() {
            self
        } else if self.rank() < other.rank() {
            other
        } else {
            self
        }
    }

    fn rank_of(self) -> (r: i64)
        ensures
            r == self.rank(),
    {
        if self.0 >= 0x8000_0000 {
            let magnitude: i64 = (self.0 - 0x8000_0000) as i64;
            -magnitude
        } else {
            self.0 as i64
        }
    }

    /// Whether the pattern stands for no number.
    #[verifier::when_used_as_spec(spec_is_nan)]
    pub fn is_nan(self) -> (r: bool)
        ensures
            r == self.spec_is_nan(),
    {
        if self.0 >= 0x8000_0000 {
            self.0 - 0x8000_0000 > 0x7f80_0000
        } else {
            self.0 > 0x7f80_0000
        }
    }

    /// Whether both are numbers and `self` is not above `other`.
    #[verifier::when_used_as_spec(spec_le)]
    pub fn le(self, other: Scalar) -> (r: bool)
        ensures
            r == self.spec_le(other),
    {
        !self.is_nan() && !other.is_nan() && self.rank_of() <= other.rank_of()
    }

    /// The larger of the two; where one is no number, the other one. Of two
    /// zeros it is `self`.
    #[verifier::when_used_as_spec(spec_larger)]
    pub fn larger(self, other: Scalar) -> (r: Scalar)
        ensures
            r == self.spec_larger(other),
    {
        if self.is_nan() {
            other
        } else if other.is_nan() {
            self
        } else if self.rank_of() < other.rank_of() {
            other
        } else {
            self
        }
    }

    /// Among numbers, `le` is reflexive, transitive and total, and `larger`
    /// is one of its operands and not below either.
    pub proof fn law_order(a: Scalar, b: Scalar, c: Scalar)
        requires
            !a.is_nan(),
            !b.is_nan(),
            !c.is_nan(),
        ensures
            a.le(a),
            a.le(b) || b.le(a),
            a.le(b) && b.le(c) ==> a.le(c),
            a.larger(b) == a || a.larger(b) == b,
            a.le(a.larger(b)) && b.le(a.larger(b)),
    {
    }
}

/// A window size, width and height in pixels.
#[derive(Debug, Clone, Copy, PartialEq, Eq, Structural)]
pub struct Size {
    pub width: Scalar,
    pub height: Scalar,
}

/// A colour: red, green, blue and opacity, each from 0 to 1.
#[derive(Debug, Clone, Copy, PartialEq, Eq, Structural)]
pub struct Rgba {
    pub r: Scalar,
    pub g: Scalar,
    pub b: Scalar,
    pub a: Scalar,
}

/// The pattern of 250, the usual width of the side pane.
pub const SIDE_PANE_WIDTH: u32 = 0x437a_0000;

/// What one open request asks for.
#[derive(Debug, Clone)]
pub struct FileDialogConfig {
    /// The directory to start in; absent for the one last used.
    pub path: Option<String>,
    /// The file name to start with.
    pub file_name: Option<String>,
    /// Directory and file name in one; where present it is used and the two
    /// above are not.
    pub file_path_name: Option<String>,
    /// How many files may be chosen at most; 0 for any number.
    pub count_selection_max: i32,
    /// The behaviour flags.
    pub flags: FileDialogFlags,
    /// The width of the side pane in pixels.
    pub side_pane_width: Scalar,
}

impl Default for FileDialogConfig {
    /// No path and no name, one file to choose, the usual flags and a side
    /// pane of 250 pixels.
    fn default() -> (r: Self)
        ensures
            r.path is None,
            r.file_name is None,
            r.file_path_name is None,
            r.count_selection_max == 1,
            r.flags == FileDialogFlags(FileDialogFlags::DEFAULT),
            r.side_pane_width == Scalar(SIDE_PANE_WIDTH),
    {
        FileDialogConfig {
            path: None,
            file_name: None,
            file_path_name: None,
            count_selection_max: 1,
            flags: FileDialogFlags(FileDialogFlags::DEFAULT),
            side_pane_width: Scalar(SIDE_PANE_WIDTH),
        }
    }
}

/// The flags of the configuration that `default` gives are exactly
/// confirm-overwrite, hide-type-column and modal, which are the bits 0, 3
/// and 9.
pub proof fn law_default_flags()
    ensures
        FileDialogFlags(FileDialogFlags::DEFAULT)@ == set![0u32, 3u32, 9u32],
        FileDialogFlags(FileDialogFlags::CONFIRM_OVERWRITE)@ == set![0u32],
        FileDialogFlags(FileDialogFlags::HIDE_COLUMN_TYPE)@ == set![3u32],
        FileDialogFlags(FileDialogFlags::MODAL)@ == set![9u32],
{
    assert forall|i: u32| i < 32 implies (#[trigger] bit_set(0x0209u32, i) <==> (i == 0 || i == 3
        || i == 9)) by {
        assert((((0x0209u32 >> i) & 1) == 1) <==> (i == 0 || i == 3 || i == 9)) by (bit_vector)
            requires
                i < 32,
        ;
    }
    assert forall|i: u32| i < 32 implies (#[trigger] bit_set(0x0001u32, i) <==> i == 0) by {
        assert((((0x0001u32 >> i) & 1) == 1) <==> i == 0) by (bit_vector)
            requires
                i < 32,
        ;
    }
    assert forall|i: u32| i < 32 implies (#[trigger] bit_set(0x0008u32, i) <==> i == 3) by {
        assert((((0x0008u32 >> i) & 1) == 1) <==> i == 3) by (bit_vector)
            requires
                i < 32,
        ;
    }
    assert forall|i: u32| i < 32 implies (#[trigger] bit_set(0x0200u32, i) <==> i == 9) by {
        assert((((0x0200u32 >> i) & 1) == 1) <==> i == 9) by (bit_vector)
            requires
                i < 32,
        ;
    }
    assert(members(0x0209u32) =~= set![0u32, 3u32, 9u32]);
    assert(members(0x0001u32) =~= set![0u32]);
    assert(members(0x0008u32) =~= set![3u32]);
    assert(members(0x0200u32) =~= set![9u32]);
}

} // verus!
