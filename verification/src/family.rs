//! The families of tags.

use vstd::prelude::*;

verus! {

/// The families of tags that can be detected.
#[derive(Debug, Clone, Copy, PartialEq, Eq, Structural)]
pub enum TagFamilyKind {
    /// Sixteen data bits, at Hamming distance five.
    Tag16H5,
    /// Twenty-five data bits, at Hamming distance nine.
    Tag25H9,
    /// Thirty-six data bits, at Hamming distance eleven.
    Tag36H11,
    /// Round, with twenty-one data bits, at Hamming distance seven.
    TagCircle21H7,
    /// Round, with forty-nine data bits, at Hamming distance twelve.
    TagCircle49H12,
    /// With an empty centre and forty-eight data bits, at Hamming distance twelve.
    TagCustom48H12,
    /// Forty-one data bits, at Hamming distance twelve.
    TagStandard41H12,
    /// Fifty-two data bits, at Hamming distance thirteen.
    TagStandard52H13,
}

impl TagFamilyKind {
    /// All kinds of tag families.
    pub fn all() -> (r: Vec<TagFamilyKind>)
        ensures
            r@ == all_kinds(),
            r@.len() == 8,
            r@.no_duplicates(),
    {
        let kinds = vec![
            TagFamilyKind::Tag16H5,
            TagFamilyKind::Tag25H9,
            TagFamilyKind::Tag36H11,
            TagFamilyKind::TagCircle21H7,
            TagFamilyKind::TagCircle49H12,
            TagFamilyKind::TagCustom48H12,
            TagFamilyKind::TagStandard41H12,
            TagFamilyKind::TagStandard52H13,
        ];
        assert(kinds@ =~= all_kinds());
        kinds
    }
}

/// All kinds of tag families, in the order of their declaration.
pub open spec fn all_kinds() -> Seq<TagFamilyKind> {
    seq![
        TagFamilyKind::Tag16H5,
        TagFamilyKind::Tag25H9,
        TagFamilyKind::Tag36H11,
        TagFamilyKind::TagCircle21H7,
        TagFamilyKind::TagCircle49H12,
        TagFamilyKind::TagCustom48H12,
        TagFamilyKind::TagStandard41H12,
        TagFamilyKind::TagStandard52H13,
    ]
}

/// Every kind of tag family is among [`all_kinds`], and none is there twice.
pub proof fn law_all_kinds_once(kind: TagFamilyKind)
    ensures
        all_kinds().contains(kind),
        all_kinds().no_duplicates(),
        all_kinds().len() == 8,
{
    let place: int = match kind {
        TagFamilyKind::Tag16H5 => 0,
        TagFamilyKind::Tag25H9 => 1,
        TagFamilyKind::Tag36H11 => 2,
        TagFamilyKind::TagCircle21H7 => 3,
        TagFamilyKind::TagCircle49H12 => 4,
        TagFamilyKind::TagCustom48H12 => 5,
        TagFamilyKind::TagStandard41H12 => 6,
        TagFamilyKind::TagStandard52H13 => 7,
    };
    assert(all_kinds()[place] == kind);
}

/// What the detector needs to know of a family of tags.
#[derive(Debug, Clone, Copy, PartialEq, Eq, Structural)]
pub struct TagFamily {
    /// The kind of the family, which fixes its code words and where their bits lie.
    pub kind: TagFamilyKind,
    /// The width of a tag, measured at its border, in cells.
    pub width_at_border: usize,
    /// Whether black and white are swapped in the border.
    pub reversed_border: bool,
    /// How many wrong bits decoding may correct; `None` leaves that to the family's default.
    pub hamming_distance: Option<u8>,
}

impl TagFamily {
    /// The family of the given kind, with its default error correction.
    pub open spec fn of_kind(kind: TagFamilyKind) -> TagFamily {
        let (width_at_border, reversed_border) = match kind {
            TagFamilyKind::Tag16H5 => (6usize, false),
            TagFamilyKind::Tag25H9 => (7usize, false),
            TagFamilyKind::Tag36H11 => (8usize, false),
            TagFamilyKind::TagCircle21H7 => (5usize, true),
            TagFamilyKind::TagCircle49H12 => (5usize, true),
            TagFamilyKind::TagCustom48H12 => (6usize, true),
            TagFamilyKind::TagStandard41H12 => (5usize, true),
            TagFamilyKind::TagStandard52H13 => (6usize, true),
        };
        TagFamily { kind, width_at_border, reversed_border, hamming_distance: None }
    }

    /// The same family, with up to `hamming_distance` wrong bits corrected.
    pub open spec fn correcting(self, hamming_distance: u8) -> TagFamily {
        TagFamily { hamming_distance: Some(hamming_distance), ..self }
    }

    /// Makes `base_family` correct up to `hamming_distance` wrong bits.
    pub fn with_hamming_distance(base_family: TagFamily, hamming_distance: u8) -> (r: TagFamily)
        ensures
            r == base_family.correcting(hamming_distance),
            r.kind == base_family.kind,
            r.width_at_border == base_family.width_at_border,
            r.reversed_border == base_family.reversed_border,
            r.hamming_distance == Some(hamming_distance),
    {
        TagFamily { hamming_distance: Some(hamming_distance), ..base_family }
    }
}

impl From<&TagFamilyKind> for TagFamily {
    fn from(kind: &TagFamilyKind) -> (r: Self) {
        let (width_at_border, reversed_border) = match kind {
            TagFamilyKind::Tag16H5 => (6usize, false),
            TagFamilyKind::Tag25H9 => (7usize, false),
            TagFamilyKind::Tag36H11 => (8usize, false),
            TagFamilyKind::TagCircle21H7 => (5usize, true),
            TagFamilyKind::TagCircle49H12 => (5usize, true),
            TagFamilyKind::TagCustom48H12 => (6usize, true),
            TagFamilyKind::TagStandard41H12 => (5usize, true),
            TagFamilyKind::TagStandard52H13 => (6usize, true),
        };
        TagFamily { kind: *kind, width_at_border, reversed_border, hamming_distance: None }
    }
}

impl vstd::std_specs::convert::FromSpecImpl<&TagFamilyKind> for TagFamily {
    open spec fn obeys_from_spec() -> bool {
        true
    }

    open spec fn from_spec(kind: &TagFamilyKind) -> Self {
        TagFamily::of_kind(*kind)
    }
}

/// What a family is, kind by kind: its kind, its default error correction, its border, which is
/// reversed in all but three families, and its width.
pub proof fn law_family_of_each_kind(kind: TagFamilyKind)
    ensures
        TagFamily::of_kind(kind).kind == kind,
        TagFamily::of_kind(kind).hamming_distance is None,
        !TagFamily::of_kind(kind).reversed_border <==> (kind is Tag16H5 || kind is Tag25H9
            || kind is Tag36H11),
        TagFamily::of_kind(kind).reversed_border <==> (kind is TagCircle21H7
            || kind is TagCircle49H12 || kind is TagCustom48H12 || kind is TagStandard41H12
            || kind is TagStandard52H13),
        TagFamily::of_kind(kind).width_at_border == 5 <==> (kind is TagCircle21H7
            || kind is TagCircle49H12 || kind is TagStandard41H12),
        TagFamily::of_kind(kind).width_at_border == 6 <==> (kind is Tag16H5
            || kind is TagCustom48H12 || kind is TagStandard52H13),
        TagFamily::of_kind(kind).width_at_border == 7 <==> kind is Tag25H9,
        TagFamily::of_kind(kind).width_at_border == 8 <==> kind is Tag36H11,
{
}

/// What `TagFamily::from` promises for a kind: the kind itself, no error correction of its own,
/// and the border and the width of that kind.
pub proof fn law_from_kind(kind: TagFamilyKind, family: TagFamily)
    requires
        family == <TagFamily as vstd::std_specs::convert::FromSpec<&TagFamilyKind>>::from_spec(
            &kind,
        ),
    ensures
        family.kind == kind,
        family.hamming_distance is None,
        family.reversed_border <==> !(kind is Tag16H5 || kind is Tag25H9 || kind is Tag36H11),
        family.width_at_border == 8 <==> kind is Tag36H11,
        family.width_at_border == 7 <==> kind is Tag25H9,
        family.width_at_border == 6 <==> (kind is Tag16H5 || kind is TagCustom48H12
            || kind is TagStandard52H13),
        family.width_at_border == 5 <==> (kind is TagCircle21H7 || kind is TagCircle49H12
            || kind is TagStandard41H12),
{
}

/// Families of different kinds are different.
pub proof fn law_kinds_tell_families_apart(a: TagFamilyKind, b: TagFamilyKind)
    requires
        TagFamily::of_kind(a) == TagFamily::of_kind(b),
    ensures
        a == b,
{
}

/// Setting how many wrong bits are corrected changes that number and nothing else; of two settings
/// the later one holds.
pub proof fn law_correcting_sets_the_distance(family: TagFamily, hamming_distance: u8, later: u8)
    ensures
        family.correcting(hamming_distance).kind == family.kind,
        family.correcting(hamming_distance).width_at_border == family.width_at_border,
        family.correcting(hamming_distance).reversed_border == family.reversed_border,
        family.correcting(hamming_distance).hamming_distance == Some(hamming_distance),
        family.correcting(hamming_distance).correcting(later) == family.correcting(later),
{
}

} // verus!
