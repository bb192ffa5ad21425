//! Bit-set value types: dialog behaviour flags and file style flags.
//!
//! A flag set is a 32-bit word; its view is the set of the positions of the
//! bits that are set. The contracts state every operation twice: as the word
//! that comes out, and as the set it stands for.

use vstd::prelude::*;

verus! {

/// Whether bit `i` of `bits` is set.
pub open spec fn bit_set(bits: u32, i: u32) -> bool {
    (bits >> i) & 1 == 1
}

proof fn lemma_or_members(a: u32, b: u32)
    by (bit_vector)
    ensures
        forall|i: u32| i < 32 ==> #[trigger] bit_set(a | b, i) == (bit_set(a, i) || bit_set(b, i)),
{
}

proof fn lemma_and_members(a: u32, b: u32)
    by (bit_vector)
    ensures
        forall|i: u32| i < 32 ==> #[trigger] bit_set(a & b, i) == (bit_set(a, i) && bit_set(b, i)),
{
}

proof fn lemma_and_not_members(a: u32, b: u32)
    by (bit_vector)
    ensures
        forall|i: u32| i < 32 ==> #[trigger] bit_set(a & !b, i) == (bit_set(a, i) && !bit_set(b, i)),
{
}

proof fn lemma_xor_members(a: u32, b: u32)
    by (bit_vector)
    ensures
        forall|i: u32| i < 32 ==> #[trigger] bit_set(a ^ b, i) == (bit_set(a, i) != bit_set(b, i)),
{
}

proof fn lemma_not_members(a: u32)
    by (bit_vector)
    ensures
        forall|i: u32| i < 32 ==> #[trigger] bit_set(!a, i) == !bit_set(a, i),
{
}

proof fn lemma_zero_members()
    by (bit_vector)
    ensures
        forall|i: u32| i < 32 ==> !#[trigger] bit_set(0u32, i),
        forall|i: u32| i < 32 ==> #[trigger] bit_set(0xffff_ffffu32, i),
{
}

proof fn lemma_nonzero_member(x: u32)
    requires
        x != 0,
    ensures
        exists|i: u32| i < 32 && #[trigger] bit_set(x, i),
{
    assert(bit_set(x, 0) || bit_set(x, 1) || bit_set(x, 2) || bit_set(x, 3) || bit_set(x, 4)
        || bit_set(x, 5) || bit_set(x, 6) || bit_set(x, 7) || bit_set(x, 8) || bit_set(x, 9)
        || bit_set(x, 10) || bit_set(x, 11) || bit_set(x, 12) || bit_set(x, 13) || bit_set(x, 14)
        || bit_set(x, 15) || bit_set(x, 16) || bit_set(x, 17) || bit_set(x, 18) || bit_set(x, 19)
        || bit_set(x, 20) || bit_set(x, 21) || bit_set(x, 22) || bit_set(x, 23) || bit_set(x, 24)
        || bit_set(x, 25) || bit_set(x, 26) || bit_set(x, 27) || bit_set(x, 28) || bit_set(x, 29)
        || bit_set(x, 30) || bit_set(x, 31)) by (bit_vector)
        requires
            x != 0,
    ;
}

proof fn lemma_contains_members(a: u32, b: u32)
    ensures
        (a & b == b) <==> (forall|i: u32| i < 32 && #[trigger] bit_set(b, i) ==> bit_set(a, i)),
{
    lemma_and_members(a, b);
    lemma_and_not_members(b, a);
    if a & b == b {
        assert forall|i: u32| i < 32 && #[trigger] bit_set(b, i) implies bit_set(a, i) by {
            assert(bit_set(a & b, i));
        }
    } else {
        assert(b & !a != 0) by (bit_vector)
            requires
                a & b != b,
        ;
        lemma_nonzero_member(b & !a);
        let i = choose|i: u32| i < 32 && #[trigger] bit_set(b & !a, i);
        assert(bit_set(b, i) && !bit_set(a, i));
    }
}

proof fn lemma_intersects_members(a: u32, b: u32)
    ensures
        (a & b != 0) <==> (exists|i: u32| i < 32 && #[trigger] bit_set(a, i) && bit_set(b, i)),
{
    lemma_and_members(a, b);
    lemma_zero_members();
    if a & b != 0 {
        lemma_nonzero_member(a & b);
        let i = choose|i: u32| i < 32 && #[trigger] bit_set(a & b, i);
        assert(bit_set(a, i) && bit_set(b, i));
    } else {
        assert forall|i: u32| i < 32 && #[trigger] bit_set(a, i) implies !bit_set(b, i) by {
            assert(!bit_set(a & b, i));
        }
    }
}

proof fn lemma_zero_iff_no_member(x: u32)
    ensures
        (x == 0) <==> (forall|i: u32| i < 32 ==> !#[trigger] bit_set(x, i)),
        (x == 0xffff_ffffu32) <==> (forall|i: u32| i < 32 ==> #[trigger] bit_set(x, i)),
{
    lemma_zero_members();
    lemma_not_members(x);
    if x != 0 {
        lemma_nonzero_member(x);
    }
    if x != 0xffff_ffffu32 {
        assert(!x != 0) by (bit_vector)
            requires
                x != 0xffff_ffffu32,
        ;
        lemma_nonzero_member(!x);
        let i = choose|i: u32| i < 32 && #[trigger] bit_set(!x, i);
        assert(!bit_set(x, i));
    }
}

proof fn lemma_members_determine(a: u32, b: u32)
    requires
        forall|i: u32| i < 32 ==> #[trigger] bit_set(a, i) == bit_set(b, i),
    ensures
        a == b,
{
    lemma_xor_members(a, b);
    if a ^ b != 0 {
        lemma_nonzero_member(a ^ b);
        let i = choose|i: u32| i < 32 && #[trigger] bit_set(a ^ b, i);
        assert(bit_set(a, i) != bit_set(b, i));
    }
    assert(a ^ b == 0 ==> a == b) by (bit_vector);
}

/// The positions of the bits that are set in `bits`.
pub open spec fn members(bits: u32) -> Set<u32> {
    Set::new(|i: u32| i < 32 && bit_set(bits, i))
}

proof fn lemma_sets_of_words(a: u32, b: u32)
    ensures
        members(a | b) == members(a).union(members(b)),
        members(a & b) == members(a).intersect(members(b)),
        members(a & !b) == members(a).difference(members(b)),
        members(a ^ b) == members(a).difference(members(b)).union(
            members(b).difference(members(a)),
        ),
        members(!a) == members(0xffff_ffffu32).difference(members(a)),
        (a & b == b) <==> members(b).subset_of(members(a)),
        (a & b != 0) <==> !members(a).disjoint(members(b)),
{
    lemma_or_members(a, b);
    lemma_and_members(a, b);
    lemma_and_not_members(a, b);
    lemma_xor_members(a, b);
    lemma_not_members(a);
    lemma_zero_members();
    lemma_contains_members(a, b);
    lemma_intersects_members(a, b);
    assert(members(a | b) =~= members(a).union(members(b)));
    assert(members(a & b) =~= members(a).intersect(members(b)));
    assert(members(a & !b) =~= members(a).difference(members(b)));
    assert(members(a ^ b) =~= members(a).difference(members(b)).union(
        members(b).difference(members(a)),
    ));
    assert(members(!a) =~= members(0xffff_ffffu32).difference(members(a)));
    if a & b != b {
        let i = choose|i: u32| i < 32 && #[trigger] bit_set(b, i) && !bit_set(a, i);
        assert(members(b).contains(i) && !members(a).contains(i));
    }
    if a & b != 0 {
        let i = choose|i: u32| i < 32 && #[trigger] bit_set(a, i) && bit_set(b, i);
        assert(members(a).contains(i) && members(b).contains(i));
    } else {
        assert forall|i: u32| !(members(a).contains(i) && members(b).contains(i)) by {
            if i < 32 && bit_set(a, i) {
                assert(!bit_set(b, i));
            }
        }
    }
}

proof fn lemma_extreme_sets(x: u32)
    ensures
        members(0) == Set::<u32>::empty(),
        members(0xffff_ffffu32) == Set::new(|i: u32| i < 32),
        (x == 0) <==> members(x) == Set::<u32>::empty(),
        (x == 0xffff_ffffu32) <==> members(x) == members(0xffff_ffffu32),
{
    lemma_zero_members();
    lemma_zero_iff_no_member(x);
    assert(members(0) =~= Set::<u32>::empty());
    assert(members(0xffff_ffffu32) =~= Set::new(|i: u32| i < 32));
    if x != 0 {
        let i = choose|i: u32| i < 32 && #[trigger] bit_set(x, i);
        assert(members(x).contains(i));
    }
    if x != 0xffff_ffffu32 {
        let i = choose|i: u32| i < 32 && !#[trigger] bit_set(x, i);
        assert(members(0xffff_ffffu32).contains(i) && !members(x).contains(i));
    }
}

proof fn lemma_set_algebra(a: u32, b: u32)
    by (bit_vector)
    ensures
        (a | b) & a == a,
        (a | b) & b == b,
        a & (a & b) == a & b,
        b & (a & b) == a & b,
        !!a == a,
        a & !a == 0,
        a & 0xffff_ffffu32 == a,
{
}

/// Behaviour switches of a file dialog, one bit each. The constants are the
/// masks of the single flags; `FileDialogFlags(mask)` is the set.
#[derive(Debug, Copy, Clone, PartialEq, Eq, Hash, Structural)]
pub struct FileDialogFlags(pub u32);

impl View for FileDialogFlags {
    type V = Set<u32>;

    open spec fn view(&self) -> Set<u32> {
        members(self.0)
    }
}

impl FileDialogFlags {
    /// No special flags.
    pub const NONE: u32 = 0;

    /// Ask before an existing file is overwritten.
    pub const CONFIRM_OVERWRITE: u32 = 0x0001;

    /// Leave out hidden files, those whose name starts with a dot.
    pub const DONT_SHOW_HIDDEN_FILES: u32 = 0x0002;

    /// Take away the button that creates a directory.
    pub const DISABLE_CREATE_DIRECTORY_BUTTON: u32 = 0x0004;

    /// Hide the file type column.
    pub const HIDE_COLUMN_TYPE: u32 = 0x0008;

    /// Hide the file size column.
    pub const HIDE_COLUMN_SIZE: u32 = 0x0010;

    /// Hide the file date column.
    pub const HIDE_COLUMN_DATE: u32 = 0x0020;

    /// Draw inside the caller's own window scope instead of a separate window.
    pub const NO_DIALOG: u32 = 0x0040;

    /// Make the file name field read-only.
    pub const READONLY_FILENAME_FIELD: u32 = 0x0080;

    /// Match file extensions without regard to case.
    pub const CASE_INSENSITIVE_EXTENSION_FILTERING: u32 = 0x0100;

    /// Make the dialog modal.
    pub const MODAL: u32 = 0x0200;

    /// Switch the thumbnail mode off.
    pub const DISABLE_THUMBNAIL_MODE: u32 = 0x0400;

    /// Switch the place mode off.
    pub const DISABLE_PLACE_MODE: u32 = 0x0800;

    /// Switch quick path selection off.
    pub const DISABLE_QUICK_PATH_SELECTION: u32 = 0x1000;

    /// Show the button that selects a device.
    pub const SHOW_DEVICES_BUTTON: u32 = 0x2000;

    /// Sort file names naturally, which is slower than the standard order.
    pub const NATURAL_SORTING: u32 = 0x4000;

    /// The usual combination: `CONFIRM_OVERWRITE`, `MODAL` and `HIDE_COLUMN_TYPE`.
    pub const DEFAULT: u32 = 0x0209;

    pub open spec fn spec_empty() -> Self {
        FileDialogFlags(0)
    }

    pub open spec fn spec_all() -> Self {
        FileDialogFlags(0xffff_ffff)
    }

    pub open spec fn spec_bits(&self) -> u32 {
        self.0
    }

    pub open spec fn spec_from_bits(bits: u32) -> Option<Self> {
        Some(FileDialogFlags(bits))
    }

    pub open spec fn spec_from_bits_truncate(bits: u32) -> Self {
        FileDialogFlags(bits & 0xffff_ffff)
    }

    pub open spec fn spec_is_empty(&self) -> bool {
        self.0 == 0
    }

    pub open spec fn spec_is_all(&self) -> bool {
        self.0 == 0xffff_ffff
    }

    pub open spec fn spec_intersects(&self, other: Self) -> bool {
        self.0 & other.0 != 0
    }

    pub open spec fn spec_contains(&self, other: Self) -> bool {
        self.0 & other.0 == other.0
    }

    pub open spec fn spec_intersection(self, other: Self) -> Self {
        FileDialogFlags(self.0 & other.0)
    }

    pub open spec fn spec_union(self, other: Self) -> Self {
        FileDialogFlags(self.0 | other.0)
    }

    pub open spec fn spec_difference(self, other: Self) -> Self {
        FileDialogFlags(self.0 & !other.0)
    }

    pub open spec fn spec_symmetric_difference(self, other: Self) -> Self {
        FileDialogFlags(self.0 ^ other.0)
    }

    pub open spec fn spec_complement(self) -> Self {
        FileDialogFlags(!self.0)
    }

    /// The set without any flag.
    #[verifier::when_used_as_spec(spec_empty)]
    pub fn empty() -> (r: Self)
        ensures
            r == Self::spec_empty(),
            r@ == Set::<u32>::empty(),
    {
        proof {
            lemma_extreme_sets(0);
        }
        FileDialogFlags(0)
    }

    /// The set of every flag: all 32 bits count as defined.
    #[verifier::when_used_as_spec(spec_all)]
    pub fn all() -> (r: Self)
        ensures
            r == Self::spec_all(),
            r@ == Set::new(|i: u32| i < 32),
    {
        proof {
            lemma_extreme_sets(0);
        }
        FileDialogFlags(0xffff_ffffu32)
    }

    /// The underlying word.
    #[verifier::when_used_as_spec(spec_bits)]
    pub fn bits(&self) -> (r: u32)
        ensures
            r == self.0,
    {
        self.0
    }

    /// The set whose word is `bits`. Every bit is defined, so every word is
    /// accepted.
    #[verifier::when_used_as_spec(spec_from_bits)]
    pub fn from_bits(bits: u32) -> (r: Option<Self>)
        ensures
            r == Some(FileDialogFlags(bits)),
    {
        Some(FileDialogFlags(bits))
    }

    /// The set whose word is `bits` without the bits that lie outside
    /// `all()`.
    #[verifier::when_used_as_spec(spec_from_bits_truncate)]
    pub fn from_bits_truncate(bits: u32) -> (r: Self)
        ensures
            r == Self::spec_from_bits_truncate(bits),
            r.0 == bits,
    {
        proof {
            lemma_set_algebra(bits, 0);
        }
        FileDialogFlags(bits & 0xffff_ffffu32)
    }

    /// Whether no flag is set.
    #[verifier::when_used_as_spec(spec_is_empty)]
    pub fn is_empty(&self) -> (r: bool)
        ensures
            r == (self.0 == 0),
            r == (*self == Self::empty()),
            r == (self@ == Set::<u32>::empty()),
    {
        proof {
            lemma_extreme_sets(self.0);
        }
        self.0 == 0
    }

    /// Whether every flag is set.
    #[verifier::when_used_as_spec(spec_is_all)]
    pub fn is_all(&self) -> (r: bool)
        ensures
            r == (self.0 == 0xffff_ffff),
            r == (*self == Self::all()),
            r == (self@ == Self::all()@),
    {
        proof {
            lemma_extreme_sets(self.0);
        }
        self.0 == 0xffff_ffffu32
    }

    /// Whether some flag of `other` is set.
    #[verifier::when_used_as_spec(spec_intersects)]
    pub fn intersects(&self, other: Self) -> (r: bool)
        ensures
            r == (self.0 & other.0 != 0),
            r == !self@.disjoint(other@),
    {
        proof {
            lemma_sets_of_words(self.0, other.0);
        }
        self.0 & other.0 != 0
    }

    /// Whether every flag of `other` is set.
    #[verifier::when_used_as_spec(spec_contains)]
    pub fn contains(&self, other: Self) -> (r: bool)
        ensures
            r == (self.0 & other.0 == other.0),
            r == other@.subset_of(self@),
    {
        proof {
            lemma_sets_of_words(self.0, other.0);
        }
        self.0 & other.0 == other.0
    }

    /// Adds the flags of `other`.
    pub fn insert(&mut self, other: Self)
        ensures
            *final(self) == old(self).union(other),
    {
        self.0 = self.0 | other.0;
    }

    /// Takes the flags of `other` out.
    pub fn remove(&mut self, other: Self)
        ensures
            *final(self) == old(self).difference(other),
    {
        self.0 = self.0 & !other.0;
    }

    /// Flips the flags of `other`.
    pub fn toggle(&mut self, other: Self)
        ensures
            *final(self) == old(self).symmetric_difference(other),
    {
        self.0 = self.0 ^ other.0;
    }

    /// Adds the flags of `other` when `value` holds, takes them out when not.
    pub fn set(&mut self, other: Self, value: bool)
        ensures
            value ==> *final(self) == old(self).union(other),
            !value ==> *final(self) == old(self).difference(other),
    {
        if value {
            self.insert(other);
        } else {
            self.remove(other);
        }
    }

    /// The flags that are in both sets.
    #[verifier::when_used_as_spec(spec_intersection)]
    pub fn intersection(self, other: Self) -> (r: Self)
        ensures
            r.0 == self.0 & other.0,
            r@ == self@.intersect(other@),
    {
        proof {
            lemma_sets_of_words(self.0, other.0);
        }
        FileDialogFlags(self.0 & other.0)
    }

    /// The flags that are in either set.
    #[verifier::when_used_as_spec(spec_union)]
    pub fn union(self, other: Self) -> (r: Self)
        ensures
            r.0 == self.0 | other.0,
            r@ == self@.union(other@),
    {
        proof {
            lemma_sets_of_words(self.0, other.0);
        }
        FileDialogFlags(self.0 | other.0)
    }

    /// The flags of `self` that are not in `other`.
    #[verifier::when_used_as_spec(spec_difference)]
    pub fn difference(self, other: Self) -> (r: Self)
        ensures
            r.0 == self.0 & !other.0,
            r@ == self@.difference(other@),
    {
        proof {
            lemma_sets_of_words(self.0, other.0);
        }
        FileDialogFlags(self.0 & !other.0)
    }

    /// The flags that are in exactly one of the two sets.
    #[verifier::when_used_as_spec(spec_symmetric_difference)]
    pub fn symmetric_difference(self, other: Self) -> (r: Self)
        ensures
            r.0 == self.0 ^ other.0,
            r@ == self@.difference(other@).union(other@.difference(self@)),
    {
        proof {
            lemma_sets_of_words(self.0, other.0);
        }
        FileDialogFlags(self.0 ^ other.0)
    }

    /// The flags that are not in the set.
    #[verifier::when_used_as_spec(spec_complement)]
    pub fn complement(self) -> (r: Self)
        ensures
            r.0 == !self.0,
            r@ == Self::all()@.difference(self@),
    {
        proof {
            lemma_sets_of_words(self.0, self.0);
        }
        FileDialogFlags(!self.0)
    }

    /// Two words that stand for the same set are the same word.
    pub proof fn law_members_determine(a: Self, b: Self)
        requires
            a@ == b@,
        ensures
            a == b,
    {
        assert forall|i: u32| i < 32 implies #[trigger] bit_set(a.0, i) == bit_set(b.0, i) by {
            assert(members(a.0).contains(i) == bit_set(a.0, i));
            assert(members(b.0).contains(i) == bit_set(b.0, i));
        }
        lemma_members_determine(a.0, b.0);
    }

    /// The union holds both of its operands.
    pub proof fn law_union_contains(a: Self, b: Self)
        ensures
            a.union(b).contains(a),
            a.union(b).contains(b),
    {
        lemma_set_algebra(a.0, b.0);
    }

    /// Both operands hold their intersection.
    pub proof fn law_intersection_contained(a: Self, b: Self)
        ensures
            a.contains(a.intersection(b)),
            b.contains(a.intersection(b)),
    {
        lemma_set_algebra(a.0, b.0);
    }

    /// The complement of the complement is the set itself.
    pub proof fn law_complement_involution(a: Self)
        ensures
            a.complement().complement() == a,
    {
        lemma_set_algebra(a.0, a.0);
    }

    /// A set without its own flags is empty.
    pub proof fn law_difference_self_empty(a: Self)
        ensures
            a.difference(a).is_empty(),
    {
        lemma_set_algebra(a.0, a.0);
    }

    /// A word read in as a set is read out unchanged.
    pub proof fn law_bits_round_trip(x: u32)
        ensures
            Self::from_bits(x) is Some,
            Self::from_bits(x).unwrap().bits() == x,
    {
    }

    /// Truncation yields no flag outside `all()`, and keeps every word as it is.
    pub proof fn law_truncate_within_all(x: u32)
        ensures
            Self::all().contains(Self::from_bits_truncate(x)),
            Self::from_bits_truncate(x).bits() == x,
    {
        lemma_set_algebra(x, 0xffff_ffffu32);
        lemma_set_algebra(0xffff_ffffu32, x);
    }

    /// The usual combination is made of exactly its three flags.
    pub proof fn law_default_combination()
        ensures
            FileDialogFlags(Self::DEFAULT) == FileDialogFlags(Self::CONFIRM_OVERWRITE).union(
                FileDialogFlags(Self::MODAL),
            ).union(FileDialogFlags(Self::HIDE_COLUMN_TYPE)),
    {
        assert(0x0209u32 == (0x0001u32 | 0x0200u32) | 0x0008u32) by (bit_vector);
    }
}

impl Default for FileDialogFlags {
    /// The empty set.
    fn default() -> (r: Self)
        ensures
            r == FileDialogFlags::empty(),
    {
        FileDialogFlags(0)
    }
}

impl core::ops::BitOr for FileDialogFlags {
    type Output = FileDialogFlags;

    /// The union.
    fn bitor(self, rhs: Self) -> (r: Self) {
        FileDialogFlags(self.0 | rhs.0)
    }
}

impl vstd::std_specs::ops::BitOrSpecImpl for FileDialogFlags {
    open spec fn obeys_bitor_spec() -> bool {
        true
    }

    open spec fn bitor_req(self, rhs: Self) -> bool {
        true
    }

    open spec fn bitor_spec(self, rhs: Self) -> Self {
        self.union(rhs)
    }
}

impl core::ops::BitAnd for FileDialogFlags {
    type Output = FileDialogFlags;

    /// The intersection.
    fn bitand(self, rhs: Self) -> (r: Self) {
        FileDialogFlags(self.0 & rhs.0)
    }
}

impl vstd::std_specs::ops::BitAndSpecImpl for FileDialogFlags {
    open spec fn obeys_bitand_spec() -> bool {
        true
    }

    open spec fn bitand_req(self, rhs: Self) -> bool {
        true
    }

    open spec fn bitand_spec(self, rhs: Self) -> Self {
        self.intersection(rhs)
    }
}

impl core::ops::BitXor for FileDialogFlags {
    type Output = FileDialogFlags;

    /// The symmetric difference.
    fn bitxor(self, rhs: Self) -> (r: Self) {
        FileDialogFlags(self.0 ^ rhs.0)
    }
}

impl vstd::std_specs::ops::BitXorSpecImpl for FileDialogFlags {
    open spec fn obeys_bitxor_spec() -> bool {
        true
    }

    open spec fn bitxor_req(self, rhs: Self) -> bool {
        true
    }

    open spec fn bitxor_spec(self, rhs: Self) -> Self {
        self.symmetric_difference(rhs)
    }
}

impl core::ops::Not for FileDialogFlags {
    type Output = FileDialogFlags;

    /// The complement.
    fn not(self) -> (r: Self) {
        FileDialogFlags(!self.0)
    }
}

impl vstd::std_specs::ops::NotSpecImpl for FileDialogFlags {
    open spec fn obeys_not_spec() -> bool {
        true
    }

    open spec fn not_req(self) -> bool {
        true
    }

    open spec fn not_spec(self) -> Self {
        self.complement()
    }
}

impl core::ops::BitOrAssign for FileDialogFlags {
    /// Adds the flags of `rhs`.
    fn bitor_assign(&mut self, rhs: Self)
        ensures
            *final(self) == old(self).union(rhs),
    {
        self.0 = self.0 | rhs.0;
    }
}

impl core::ops::BitAndAssign for FileDialogFlags {
    /// Keeps the flags that `rhs` has too.
    fn bitand_assign(&mut self, rhs: Self)
        ensures
            *final(self) == old(self).intersection(rhs),
    {
        self.0 = self.0 & rhs.0;
    }
}

impl core::ops::BitXorAssign for FileDialogFlags {
    /// Flips the flags of `rhs`.
    fn bitxor_assign(&mut self, rhs: Self)
        ensures
            *final(self) == old(self).symmetric_difference(rhs),
    {
        self.0 = self.0 ^ rhs.0;
    }
}

impl From<u32> for FileDialogFlags {
    /// The set whose word is `value`.
    fn from(value: u32) -> (r: Self) {
        FileDialogFlags(value)
    }
}

impl vstd::std_specs::convert::FromSpecImpl<u32> for FileDialogFlags {
    open spec fn obeys_from_spec() -> bool {
        true
    }

    open spec fn from_spec(value: u32) -> Self {
        FileDialogFlags(value)
    }
}

impl From<FileDialogFlags> for u32 {
    /// The word of the set.
    fn from(value: FileDialogFlags) -> (r: u32) {
        value.0
    }
}

impl vstd::std_specs::convert::FromSpecImpl<FileDialogFlags> for u32 {
    open spec fn obeys_from_spec() -> bool {
        true
    }

    open spec fn from_spec(value: FileDialogFlags) -> u32 {
        value.0
    }
}

/// The criteria by which a style rule picks its files, one bit each. The
/// constants are the masks of the single flags; `FileStyleFlags(mask)` is the
/// set.
#[derive(Debug, Copy, Clone, PartialEq, Eq, Hash, Structural)]
pub struct FileStyleFlags(pub u32);

impl View for FileStyleFlags {
    type V = Set<u32>;

    open spec fn view(&self) -> Set<u32> {
        members(self.0)
    }
}

impl FileStyleFlags {
    /// No style.
    pub const NONE: u32 = 0;

    /// Applies to every file.
    pub const BY_TYPE_FILE: u32 = 0x01;

    /// Applies to every directory.
    pub const BY_TYPE_DIR: u32 = 0x02;

    /// Applies to every link.
    pub const BY_TYPE_LINK: u32 = 0x04;

    /// Matches by file extension.
    pub const BY_EXTENSION: u32 = 0x08;

    /// Matches by the full name, extension included.
    pub const BY_FULL_NAME: u32 = 0x10;

    /// Matches where the criterion occurs inside the full name.
    pub const BY_CONTAINED_IN_FULL_NAME: u32 = 0x20;

    pub open spec fn spec_empty() -> Self {
        FileStyleFlags(0)
    }

    pub open spec fn spec_all() -> Self {
        FileStyleFlags(0xffff_ffff)
    }

    pub open spec fn spec_bits(&self) -> u32 {
        self.0
    }

    pub open spec fn spec_from_bits(bits: u32) -> Option<Self> {
        Some(FileStyleFlags(bits))
    }

    pub open spec fn spec_from_bits_truncate(bits: u32) -> Self {
        FileStyleFlags(bits & 0xffff_ffff)
    }

    pub open spec fn spec_is_empty(&self) -> bool {
        self.0 == 0
    }

    pub open spec fn spec_is_all(&self) -> bool {
        self.0 == 0xffff_ffff
    }

    pub open spec fn spec_intersects(&self, other: Self) -> bool {
        self.0 & other.0 != 0
    }

    pub open spec fn spec_contains(&self, other: Self) -> bool {
        self.0 & other.0 == other.0
    }

    pub open spec fn spec_intersection(self, other: Self) -> Self {
        FileStyleFlags(self.0 & other.0)
    }

    pub open spec fn spec_union(self, other: Self) -> Self {
        FileStyleFlags(self.0 | other.0)
    }

    pub open spec fn spec_difference(self, other: Self) -> Self {
        FileStyleFlags(self.0 & !other.0)
    }

    pub open spec fn spec_symmetric_difference(self, other: Self) -> Self {
        FileStyleFlags(self.0 ^ other.0)
    }

    pub open spec fn spec_complement(self) -> Self {
        FileStyleFlags(!self.0)
    }

    /// The set without any flag.
    #[verifier::when_used_as_spec(spec_empty)]
    pub fn empty() -> (r: Self)
        ensures
            r == Self::spec_empty(),
            r@ == Set::<u32>::empty(),
    {
        proof {
            lemma_extreme_sets(0);
        }
        FileStyleFlags(0)
    }

    /// The set of every flag: all 32 bits count as defined.
    #[verifier::when_used_as_spec(spec_all)]
    pub fn all() -> (r: Self)
        ensures
            r == Self::spec_all(),
            r@ == Set::new(|i: u32| i < 32),
    {
        proof {
            lemma_extreme_sets(0);
        }
        FileStyleFlags(0xffff_ffffu32)
    }

    /// The underlying word.
    #[verifier::when_used_as_spec(spec_bits)]
    pub fn bits(&self) -> (r: u32)
        ensures
            r == self.0,
    {
        self.0
    }

    /// The set whose word is `bits`. Every bit is defined, so every word is
    /// accepted.
    #[verifier::when_used_as_spec(spec_from_bits)]
    pub fn from_bits(bits: u32) -> (r: Option<Self>)
        ensures
            r == Some(FileStyleFlags(bits)),
    {
        Some(FileStyleFlags(bits))
    }

    /// The set whose word is `bits` without the bits that lie outside
    /// `all()`.
    #[verifier::when_used_as_spec(spec_from_bits_truncate)]
    pub fn from_bits_truncate(bits: u32) -> (r: Self)
        ensures
            r == Self::spec_from_bits_truncate(bits),
            r.0 == bits,
    {
        proof {
            lemma_set_algebra(bits, 0);
        }
        FileStyleFlags(bits & 0xffff_ffffu32)
    }

    /// Whether no flag is set.
    #[verifier::when_used_as_spec(spec_is_empty)]
    pub fn is_empty(&self) -> (r: bool)
        ensures
            r == (self.0 == 0),
            r == (*self == Self::empty()),
            r == (self@ == Set::<u32>::empty()),
    {
        proof {
            lemma_extreme_sets(self.0);
        }
        self.0 == 0
    }

    /// Whether every flag is set.
    #[verifier::when_used_as_spec(spec_is_all)]
    pub fn is_all(&self) -> (r: bool)
        ensures
            r == (self.0 == 0xffff_ffff),
            r == (*self == Self::all()),
            r == (self@ == Self::all()@),
    {
        proof {
            lemma_extreme_sets(self.0);
        }
        self.0 == 0xffff_ffffu32
    }

    /// Whether some flag of `other` is set.
    #[verifier::when_used_as_spec(spec_intersects)]
    pub fn intersects(&self, other: Self) -> (r: bool)
        ensures
            r == (self.0 & other.0 != 0),
            r == !self@.disjoint(other@),
    {
        proof {
            lemma_sets_of_words(self.0, other.0);
        }
        self.0 & other.0 != 0
    }

    /// Whether every flag of `other` is set.
    #[verifier::when_used_as_spec(spec_contains)]
    pub fn contains(&self, other: Self) -> (r: bool)
        ensures
            r == (self.0 & other.0 == other.0),
            r == other@.subset_of(self@),
    {
        proof {
            lemma_sets_of_words(self.0, other.0);
        }
        self.0 & other.0 == other.0
    }

    /// Adds the flags of `other`.
    pub fn insert(&mut self, other: Self)
        ensures
            *final(self) == old(self).union(other),
    {
        self.0 = self.0 | other.0;
    }

    /// Takes the flags of `other` out.
    pub fn remove(&mut self, other: Self)
        ensures
            *final(self) == old(self).difference(other),
    {
        self.0 = self.0 & !other.0;
    }

    /// Flips the flags of `other`.
    pub fn toggle(&mut self, other: Self)
        ensures
            *final(self) == old(self).symmetric_difference(other),
    {
        self.0 = self.0 ^ other.0;
    }

    /// Adds the flags of `other` when `value` holds, takes them out when not.
    pub fn set(&mut self, other: Self, value: bool)
        ensures
            value ==> *final(self) == old(self).union(other),
            !value ==> *final(self) == old(self).difference(other),
    {
        if value {
            self.insert(other);
        } else {
            self.remove(other);
        }
    }

    /// The flags that are in both sets.
    #[verifier::when_used_as_spec(spec_intersection)]
    pub fn intersection(self, other: Self) -> (r: Self)
        ensures
            r.0 == self.0 & other.0,
            r@ == self@.intersect(other@),
    {
        proof {
            lemma_sets_of_words(self.0, other.0);
        }
        FileStyleFlags(self.0 & other.0)
    }

    /// The flags that are in either set.
    #[verifier::when_used_as_spec(spec_union)]
    pub fn union(self, other: Self) -> (r: Self)
        ensures
            r.0 == self.0 | other.0,
            r@ == self@.union(other@),
    {
        proof {
            lemma_sets_of_words(self.0, other.0);
        }
        FileStyleFlags(self.0 | other.0)
    }

    /// The flags of `self` that are not in `other`.
    #[verifier::when_used_as_spec(spec_difference)]
    pub fn difference(self, other: Self) -> (r: Self)
        ensures
            r.0 == self.0 & !other.0,
            r@ == self@.difference(other@),
    {
        proof {
            lemma_sets_of_words(self.0, other.0);
        }
        FileStyleFlags(self.0 & !other.0)
    }

    /// The flags that are in exactly one of the two sets.
    #[verifier::when_used_as_spec(spec_symmetric_difference)]
    pub fn symmetric_difference(self, other: Self) -> (r: Self)
        ensures
            r.0 == self.0 ^ other.0,
            r@ == self@.difference(other@).union(other@.difference(self@)),
    {
        proof {
            lemma_sets_of_words(self.0, other.0);
        }
        FileStyleFlags(self.0 ^ other.0)
    }

    /// The flags that are not in the set.
    #[verifier::when_used_as_spec(spec_complement)]
    pub fn complement(self) -> (r: Self)
        ensures
            r.0 == !self.0,
            r@ == Self::all()@.difference(self@),
    {
        proof {
            lemma_sets_of_words(self.0, self.0);
        }
        FileStyleFlags(!self.0)
    }

    /// Two words that stand for the same set are the same word.
    pub proof fn law_members_determine(a: Self, b: Self)
        requires
            a@ == b@,
        ensures
            a == b,
    {
        assert forall|i: u32| i < 32 implies #[trigger] bit_set(a.0, i) == bit_set(b.0, i) by {
            assert(members(a.0).contains(i) == bit_set(a.0, i));
            assert(members(b.0).contains(i) == bit_set(b.0, i));
        }
        lemma_members_determine(a.0, b.0);
    }

    /// The union holds both of its operands.
    pub proof fn law_union_contains(a: Self, b: Self)
        ensures
            a.union(b).contains(a),
            a.union(b).contains(b),
    {
        lemma_set_algebra(a.0, b.0);
    }

    /// Both operands hold their intersection.
    pub proof fn law_intersection_contained(a: Self, b: Self)
        ensures
            a.contains(a.intersection(b)),
            b.contains(a.intersection(b)),
    {
        lemma_set_algebra(a.0, b.0);
    }

    /// The complement of the complement is the set itself.
    pub proof fn law_complement_involution(a: Self)
        ensures
            a.complement().complement() == a,
    {
        lemma_set_algebra(a.0, a.0);
    }

    /// A set without its own flags is empty.
    pub proof fn law_difference_self_empty(a: Self)
        ensures
            a.difference(a).is_empty(),
    {
        lemma_set_algebra(a.0, a.0);
    }

    /// A word read in as a set is read out unchanged.
    pub proof fn law_bits_round_trip(x: u32)
        ensures
            Self::from_bits(x) is Some,
            Self::from_bits(x).unwrap().bits() == x,
    {
    }

    /// Truncation yields no flag outside `all()`, and keeps every word as it is.
    pub proof fn law_truncate_within_all(x: u32)
        ensures
            Self::all().contains(Self::from_bits_truncate(x)),
            Self::from_bits_truncate(x).bits() == x,
    {
        lemma_set_algebra(x, 0xffff_ffffu32);
        lemma_set_algebra(0xffff_ffffu32, x);
    }
}

impl Default for FileStyleFlags {
    /// The empty set.
    fn default() -> (r: Self)
        ensures
            r == FileStyleFlags::empty(),
    {
        FileStyleFlags(0)
    }
}

impl core::ops::BitOr for FileStyleFlags {
    type Output = FileStyleFlags;

    /// The union.
    fn bitor(self, rhs: Self) -> (r: Self) {
        FileStyleFlags(self.0 | rhs.0)
    }
}

impl vstd::std_specs::ops::BitOrSpecImpl for FileStyleFlags {
    open spec fn obeys_bitor_spec() -> bool {
        true
    }

    open spec fn bitor_req(self, rhs: Self) -> bool {
        true
    }

    open spec fn bitor_spec(self, rhs: Self) -> Self {
        self.union(rhs)
    }
}

impl core::ops::BitAnd for FileStyleFlags {
    type Output = FileStyleFlags;

    /// The intersection.
    fn bitand(self, rhs: Self) -> (r: Self) {
        FileStyleFlags(self.0 & rhs.0)
    }
}

impl vstd::std_specs::ops::BitAndSpecImpl for FileStyleFlags {
    open spec fn obeys_bitand_spec() -> bool {
        true
    }

    open spec fn bitand_req(self, rhs: Self) -> bool {
        true
    }

    open spec fn bitand_spec(self, rhs: Self) -> Self {
        self.intersection(rhs)
    }
}

impl core::ops::BitXor for FileStyleFlags {
    type Output = FileStyleFlags;

    /// The symmetric difference.
    fn bitxor(self, rhs: Self) -> (r: Self) {
        FileStyleFlags(self.0 ^ rhs.0)
    }
}

impl vstd::std_specs::ops::BitXorSpecImpl for FileStyleFlags {
    open spec fn obeys_bitxor_spec() -> bool {
        true
    }

    open spec fn bitxor_req(self, rhs: Self) -> bool {
        true
    }

    open spec fn bitxor_spec(self, rhs: Self) -> Self {
        self.symmetric_difference(rhs)
    }
}

impl core::ops::Not for FileStyleFlags {
    type Output = FileStyleFlags;

    /// The complement.
    fn not(self) -> (r: Self) {
        FileStyleFlags(!self.0)
    }
}

impl vstd::std_specs::ops::NotSpecImpl for FileStyleFlags {
    open spec fn obeys_not_spec() -> bool {
        true
    }

    open spec fn not_req(self) -> bool {
        true
    }

    open spec fn not_spec(self) -> Self {
        self.complement()
    }
}

impl core::ops::BitOrAssign for FileStyleFlags {
    /// Adds the flags of `rhs`.
    fn bitor_assign(&mut self, rhs: Self)
        ensures
            *final(self) == old(self).union(rhs),
    {
        self.0 = self.0 | rhs.0;
    }
}

impl core::ops::BitAndAssign for FileStyleFlags {
    /// Keeps the flags that `rhs` has too.
    fn bitand_assign(&mut self, rhs: Self)
        ensures
            *final(self) == old(self).intersection(rhs),
    {
        self.0 = self.0 & rhs.0;
    }
}

impl core::ops::BitXorAssign for FileStyleFlags {
    /// Flips the flags of `rhs`.
    fn bitxor_assign(&mut self, rhs: Self)
        ensures
            *final(self) == old(self).symmetric_difference(rhs),
    {
        self.0 = self.0 ^ rhs.0;
    }
}

impl From<u32> for FileStyleFlags {
    /// The set whose word is `value`.
    fn from(value: u32) -> (r: Self) {
        FileStyleFlags(value)
    }
}

impl vstd::std_specs::convert::FromSpecImpl<u32> for FileStyleFlags {
    open spec fn obeys_from_spec() -> bool {
        true
    }

    open spec fn from_spec(value: u32) -> Self {
        FileStyleFlags(value)
    }
}

impl From<FileStyleFlags> for u32 {
    /// The word of the set.
    fn from(value: FileStyleFlags) -> (r: u32) {
        value.0
    }
}

impl vstd::std_specs::convert::FromSpecImpl<FileStyleFlags> for u32 {
    open spec fn obeys_from_spec() -> bool {
        true
    }

    open spec fn from_spec(value: FileStyleFlags) -> u32 {
        value.0
    }
}

} // verus!
