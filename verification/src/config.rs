//! The configuration of a decoder.

use crate::family::{all_kinds, TagFamily, TagFamilyKind};
use vstd::prelude::*;

verus! {

/// By how much input images are shrunk unless the configuration says otherwise.
pub const DEFAULT_DOWNSCALE_FACTOR: usize = 2;

/// The width below which no tag is looked for, unless a family was added that is narrower.
pub const MIN_TAG_WIDTH: usize = 3;

/// The difference between white and black that thresholding asks for by default.
pub const DEFAULT_MIN_WHITE_BLACK_DIFFERENCE: u8 = 5;

/// The bits of the single-precision number one quarter.
pub const QUARTER_BITS: u32 = 0x3E80_0000;

/// The bit that holds the sign of a single-precision number; those below hold its magnitude.
pub const SIGN_BIT: u32 = 0x8000_0000;

/// The magnitude of infinity, above which magnitudes are those of no number.
pub const INFINITY_BITS: u32 = 0x7F80_0000;

/// A single-precision number, held by its bits.
#[derive(Debug, Clone, Copy)]
pub struct Float32 {
    /// The bits, as IEEE 754 lays them out.
    pub bits: u32,
}

impl Float32 {
    /// The bits without the sign.
    pub open spec fn magnitude(self) -> u32 {
        self.bits % SIGN_BIT
    }

    /// The bits are those of no number.
    pub open spec fn is_nan(self) -> bool {
        self.magnitude() > INFINITY_BITS
    }
}

/// Equality as IEEE 754 has it: the two zeros are equal, and what is no number equals nothing.
impl PartialEq for Float32 {
    fn eq(&self, other: &Self) -> (r: bool) {
        let magnitude: u32 = self.bits % SIGN_BIT;
        let other_magnitude: u32 = other.bits % SIGN_BIT;
        if magnitude > INFINITY_BITS || other_magnitude > INFINITY_BITS {
            false
        } else {
            self.bits == other.bits || magnitude == 0 && other_magnitude == 0
        }
    }
}

impl vstd::std_specs::cmp::PartialEqSpecImpl for Float32 {
    open spec fn obeys_eq_spec() -> bool {
        true
    }

    open spec fn eq_spec(&self, other: &Self) -> bool {
        &&& !self.is_nan()
        &&& !other.is_nan()
        &&& self.bits == other.bits || self.magnitude() == 0 && other.magnitude() == 0
    }
}

/// Configuration for decoding AprilTags; `Q` configures the fitting of quads.
#[derive(Debug, Clone, PartialEq)]
pub struct DecodeTagsConfig<Q> {
    /// List of tag families to detect.
    pub tag_families: Vec<TagFamily>,
    /// Configuration for quad fitting.
    pub fit_quad_config: Q,
    /// Whether to enable edge refinement before decoding.
    pub refine_edges_enabled: bool,
    /// Sharpening factor applied during decoding.
    pub decode_sharpening: Float32,
    /// Whether normal border tags are present.
    pub normal_border: bool,
    /// Whether reversed border tags are present.
    pub reversed_border: bool,
    /// Minimum tag width at border among all families.
    pub min_tag_width: usize,
    /// Minimum difference between white and black pixels for thresholding.
    pub min_white_black_difference: u8,
    /// Downscale factor for input images.
    pub downscale_factor: usize,
}

/// The least width at border among `families`, or `usize::MAX` if there are none.
pub open spec fn narrowest(families: Seq<TagFamily>) -> usize
    decreases families.len(),
{
    if families.len() == 0 {
        usize::MAX
    } else {
        let rest = narrowest(families.drop_last());
        if families.last().width_at_border < rest {
            families.last().width_at_border
        } else {
            rest
        }
    }
}

/// Some family has the given kind of border.
pub open spec fn has_border(families: Seq<TagFamily>, reversed: bool) -> bool {
    exists|i: int| 0 <= i < families.len() && #[trigger] families[i].reversed_border == reversed
}

/// `width`, raised to [`MIN_TAG_WIDTH`].
pub open spec fn searchable_width(width: usize) -> usize {
    if width < MIN_TAG_WIDTH {
        MIN_TAG_WIDTH
    } else {
        width
    }
}

/// The families of the given kinds, in order.
pub open spec fn families_of(kinds: Seq<TagFamilyKind>) -> Seq<TagFamily> {
    kinds.map_values(|kind: TagFamilyKind| TagFamily::of_kind(kind))
}

/// The families of the given kinds, in order, each correcting up to `hamming_distance` wrong bits.
pub open spec fn correcting_families_of(kinds: Seq<TagFamilyKind>, hamming_distance: u8) -> Seq<
    TagFamily,
> {
    kinds.map_values(
        |kind: TagFamilyKind| TagFamily::of_kind(kind).correcting(hamming_distance),
    )
}

impl<Q> DecodeTagsConfig<Q> {
    /// The two border flags say which kinds of border the families have.
    pub open spec fn borders_match(&self) -> bool {
        &&& self.normal_border == has_border(self.tag_families@, false)
        &&& self.reversed_border == has_border(self.tag_families@, true)
    }

    /// No family is narrower than the least width that is looked for.
    pub open spec fn covers_families(&self) -> bool {
        forall|i: int|
            0 <= i < self.tag_families@.len() ==> self.min_tag_width <= (
            #[trigger] self.tag_families@[i]).width_at_border
    }

    /// The two configurations agree in all but the families.
    pub open spec fn same_settings(self, other: Self) -> bool {
        &&& self.fit_quad_config == other.fit_quad_config
        &&& self.refine_edges_enabled == other.refine_edges_enabled
        &&& self.decode_sharpening == other.decode_sharpening
        &&& self.normal_border == other.normal_border
        &&& self.reversed_border == other.reversed_border
        &&& self.min_tag_width == other.min_tag_width
        &&& self.min_white_black_difference == other.min_white_black_difference
        &&& self.downscale_factor == other.downscale_factor
    }

    /// The two configurations agree, and list the same families in the same order.
    pub open spec fn same_as(self, other: Self) -> bool {
        &&& self.same_settings(other)
        &&& self.tag_families@ == other.tag_families@
    }

    /// `post` is this configuration with `family` added.
    pub open spec fn extended_by(self, family: TagFamily, post: Self) -> bool {
        &&& post.tag_families@ == self.tag_families@.push(family)
        &&& post.normal_border == (self.normal_border || !family.reversed_border)
        &&& post.reversed_border == (self.reversed_border || family.reversed_border)
        &&& post.min_tag_width == if family.width_at_border < self.min_tag_width {
            family.width_at_border
        } else {
            self.min_tag_width
        }
        &&& post.fit_quad_config == self.fit_quad_config
        &&& post.refine_edges_enabled == self.refine_edges_enabled
        &&& post.decode_sharpening == self.decode_sharpening
        &&& post.min_white_black_difference == self.min_white_black_difference
        &&& post.downscale_factor == self.downscale_factor
    }
}

/// There is but one default value of `Q`.
pub open spec fn one_default<Q: Default>() -> bool {
    forall|a: Q, b: Q|
        #[trigger] call_ensures(Q::default, (), a) && #[trigger] call_ensures(Q::default, (), b)
            ==> a == b
}

impl<Q: Default> DecodeTagsConfig<Q> {
    /// This is what [`DecodeTagsConfig::new`] makes of the given kinds.
    pub open spec fn is_new(&self, kinds: Seq<TagFamilyKind>) -> bool {
        self.is_default_for(families_of(kinds), searchable_width(narrowest(families_of(kinds))))
    }

    /// This is what [`DecodeTagsConfig::with_hamming_distance`] makes of the given kinds.
    pub open spec fn is_correcting(
        &self,
        kinds: Seq<TagFamilyKind>,
        hamming_distance: u8,
    ) -> bool {
        let families = correcting_families_of(kinds, hamming_distance);
        self.is_default_for(
            families,
            searchable_width(narrowest(families) / DEFAULT_DOWNSCALE_FACTOR),
        )
    }

    /// This is the default configuration for the given families, looking for tags of at least
    /// the given width.
    pub open spec fn is_default_for(&self, families: Seq<TagFamily>, min_tag_width: usize) -> bool {
        &&& self.tag_families@ == families
        &&& self.borders_match()
        &&& self.min_tag_width == min_tag_width
        &&& call_ensures(Q::default, (), self.fit_quad_config)
        &&& self.refine_edges_enabled
        &&& self.decode_sharpening.bits == QUARTER_BITS
        &&& self.min_white_black_difference == DEFAULT_MIN_WHITE_BLACK_DIFFERENCE
        &&& self.downscale_factor == DEFAULT_DOWNSCALE_FACTOR
    }

    /// Creates a new `DecodeTagsConfig` with the given tag family kinds.
    pub fn new(tag_family_kinds: Vec<TagFamilyKind>) -> (r: Self)
        ensures
            r.is_new(tag_family_kinds@),
            r.covers_families(),
            r.tag_families@.len() == tag_family_kinds@.len(),
            forall|i: int|
                0 <= i < tag_family_kinds@.len() ==> {
                    &&& (#[trigger] r.tag_families@[i]).kind == tag_family_kinds@[i]
                    &&& r.tag_families@[i].hamming_distance is None
                },
    {
        let mut tag_families: Vec<TagFamily> = Vec::with_capacity(tag_family_kinds.len());
        let mut normal_border = false;
        let mut reversed_border = false;
        let mut min_tag_width: usize = usize::MAX;

        let ghost families = families_of(tag_family_kinds@);
        for i in 0..tag_family_kinds.len()
            invariant
                families == families_of(tag_family_kinds@),
                tag_families@ == families.take(i as int),
                normal_border == has_border(tag_families@, false),
                reversed_border == has_border(tag_families@, true),
                min_tag_width == narrowest(tag_families@),
        {
            let family = TagFamily::from(&tag_family_kinds[i]);
            proof {
                lemma_one_more(tag_families@, family);
                assert(families.take(i + 1) =~= families.take(i as int).push(family));
            }
            if family.width_at_border < min_tag_width {
                min_tag_width = family.width_at_border;
            }
            normal_border = normal_border || !family.reversed_border;
            reversed_border = reversed_border || family.reversed_border;
            tag_families.push(family);
        }
        proof {
            assert(families.take(families.len() as int) =~= families);
            law_narrowest_is_least(families);
        }

        if min_tag_width < MIN_TAG_WIDTH {
            min_tag_width = MIN_TAG_WIDTH;
        }
        Self {
            tag_families,
            fit_quad_config: Default::default(),
            normal_border,
            refine_edges_enabled: true,
            decode_sharpening: Float32 { bits: QUARTER_BITS },
            reversed_border,
            min_tag_width,
            min_white_black_difference: DEFAULT_MIN_WHITE_BLACK_DIFFERENCE,
            downscale_factor: DEFAULT_DOWNSCALE_FACTOR,
        }
    }

    /// Creates a new `DecodeTagsConfig` with the given tag family kinds and hamming distance.
    ///
    /// Up to `hamming_distance` wrong bits are corrected (0-3 recommended). The least width is that
    /// of a tag once the image has been shrunk by the default factor.
    pub fn with_hamming_distance(
        tag_family_kinds: Vec<TagFamilyKind>,
        hamming_distance: u8,
    ) -> (r: Self)
        ensures
            r.is_correcting(tag_family_kinds@, hamming_distance),
            r.covers_families(),
            r.tag_families@.len() == tag_family_kinds@.len(),
            forall|i: int|
                0 <= i < tag_family_kinds@.len() ==> {
                    &&& (#[trigger] r.tag_families@[i]).kind == tag_family_kinds@[i]
                    &&& r.tag_families@[i].hamming_distance == Some(hamming_distance)
                },
    {
        let mut tag_families: Vec<TagFamily> = Vec::with_capacity(tag_family_kinds.len());
        let mut normal_border = false;
        let mut reversed_border = false;
        let mut min_tag_width: usize = usize::MAX;

        let ghost families = correcting_families_of(tag_family_kinds@, hamming_distance);
        for i in 0..tag_family_kinds.len()
            invariant
                families == correcting_families_of(tag_family_kinds@, hamming_distance),
                tag_families@ == families.take(i as int),
                normal_border == has_border(tag_families@, false),
                reversed_border == has_border(tag_families@, true),
                min_tag_width == narrowest(tag_families@),
        {
            let base_family = TagFamily::from(&tag_family_kinds[i]);
            let family = TagFamily::with_hamming_distance(base_family, hamming_distance);
            proof {
                lemma_one_more(tag_families@, family);
                assert(families.take(i + 1) =~= families.take(i as int).push(family));
            }
            if family.width_at_border < min_tag_width {
                min_tag_width = family.width_at_border;
            }
            normal_border = normal_border || !family.reversed_border;
            reversed_border = reversed_border || family.reversed_border;
            tag_families.push(family);
        }
        proof {
            assert(families.take(families.len() as int) =~= families);
            law_narrowest_is_least(families);
        }

        min_tag_width = min_tag_width / DEFAULT_DOWNSCALE_FACTOR;

        if min_tag_width < MIN_TAG_WIDTH {
            min_tag_width = MIN_TAG_WIDTH;
        }
        Self {
            tag_families,
            fit_quad_config: Default::default(),
            normal_border,
            refine_edges_enabled: true,
            decode_sharpening: Float32 { bits: QUARTER_BITS },
            reversed_border,
            min_tag_width,
            min_white_black_difference: DEFAULT_MIN_WHITE_BLACK_DIFFERENCE,
            downscale_factor: DEFAULT_DOWNSCALE_FACTOR,
        }
    }

    /// Creates a `DecodeTagsConfig` with all supported tag families.
    pub fn all() -> (r: Self)
        ensures
            r.is_new(all_kinds()),
            r.covers_families(),
    {
        Self::new(TagFamilyKind::all())
    }

    /// Creates a `DecodeTagsConfig` with all supported tag families and custom hamming distance
    /// (0-3 recommended).
    pub fn all_with_hamming_distance(hamming_distance: u8) -> (r: Self)
        ensures
            r.is_correcting(all_kinds(), hamming_distance),
            r.covers_families(),
    {
        Self::with_hamming_distance(TagFamilyKind::all(), hamming_distance)
    }
}

impl<Q> DecodeTagsConfig<Q> {
    /// Adds a tag family to the configuration.
    pub fn add(&mut self, family: TagFamily)
        ensures
            old(self).extended_by(family, *final(self)),
            final(self).tag_families@ == old(self).tag_families@.push(family),
            family.reversed_border ==> final(self).reversed_border,
            !family.reversed_border ==> final(self).normal_border,
            final(self).min_tag_width <= family.width_at_border,
            old(self).borders_match() ==> final(self).borders_match(),
            old(self).covers_families() ==> final(self).covers_families(),
    {
        proof {
            lemma_one_more(self.tag_families@, family);
        }
        if family.width_at_border < self.min_tag_width {
            self.min_tag_width = family.width_at_border;
        }
        self.normal_border = self.normal_border || !family.reversed_border;
        self.reversed_border = self.reversed_border || family.reversed_border;

        self.tag_families.push(family);
    }
}

/// How the least width and the borders change with one more family.
proof fn lemma_one_more(families: Seq<TagFamily>, family: TagFamily)
    ensures
        narrowest(families.push(family)) == if family.width_at_border < narrowest(families) {
            family.width_at_border
        } else {
            narrowest(families)
        },
        forall|reversed: bool|
            #[trigger] has_border(families.push(family), reversed) == (has_border(families, reversed)
                || family.reversed_border == reversed),
{
    assert(families.push(family).drop_last() =~= families);
    assert forall|reversed: bool|
        #[trigger] has_border(families.push(family), reversed) == (has_border(families, reversed)
            || family.reversed_border == reversed) by {
        let more = families.push(family);
        if has_border(families, reversed) {
            let i = choose|i: int|
                0 <= i < families.len() && #[trigger] families[i].reversed_border == reversed;
            assert(more[i].reversed_border == reversed);
        }
        if family.reversed_border == reversed {
            assert(more[families.len() as int].reversed_border == reversed);
        }
    }
}

/// The narrowest width is a lower bound of the families' widths, and one of them has it.
pub proof fn law_narrowest_is_least(families: Seq<TagFamily>)
    ensures
        forall|i: int|
            0 <= i < families.len() ==> narrowest(families) <= (
            #[trigger] families[i]).width_at_border,
        families.len() > 0 ==> exists|i: int|
            0 <= i < families.len() && (#[trigger] families[i]).width_at_border == narrowest(
                families,
            ),
    decreases families.len(),
{
    if families.len() > 0 {
        let rest = families.drop_last();
        law_narrowest_is_least(rest);
        assert forall|i: int| 0 <= i < families.len() implies narrowest(families) <= (
        #[trigger] families[i]).width_at_border by {
            if i < rest.len() {
                assert(rest[i] == families[i]);
            }
        }
        if families.last().width_at_border == narrowest(families) {
            assert(families[families.len() - 1].width_at_border == narrowest(families));
        } else {
            let i = choose|i: int|
                0 <= i < rest.len() && (#[trigger] rest[i]).width_at_border == narrowest(rest);
            assert(families[i].width_at_border == narrowest(families));
        }
    }
}

/// The order in which families are listed makes no difference to the least width, nor to which
/// borders are present.
pub proof fn law_order_of_families(a: Seq<TagFamily>, b: Seq<TagFamily>)
    requires
        a.to_multiset() == b.to_multiset(),
    ensures
        narrowest(a) == narrowest(b),
        forall|reversed: bool| #[trigger] has_border(a, reversed) == has_border(b, reversed),
{
    broadcast use vstd::seq_lib::group_to_multiset_ensures;

    assert forall|i: int| 0 <= i < a.len() implies b.contains(#[trigger] a[i]) by {
        assert(a.contains(a[i]));
        assert(a.to_multiset().count(a[i]) > 0);
    }
    assert forall|i: int| 0 <= i < b.len() implies a.contains(#[trigger] b[i]) by {
        assert(b.contains(b[i]));
        assert(b.to_multiset().count(b[i]) > 0);
    }
    lemma_listed_in(a, b);
    lemma_listed_in(b, a);
}

/// What one list of families has, another in which all of them are has too.
proof fn lemma_listed_in(a: Seq<TagFamily>, b: Seq<TagFamily>)
    requires
        forall|i: int| 0 <= i < a.len() ==> b.contains(#[trigger] a[i]),
    ensures
        narrowest(b) <= narrowest(a),
        forall|reversed: bool| #[trigger] has_border(a, reversed) ==> has_border(b, reversed),
{
    law_narrowest_is_least(a);
    law_narrowest_is_least(b);
    if a.len() > 0 {
        let i = choose|i: int|
            0 <= i < a.len() && (#[trigger] a[i]).width_at_border == narrowest(a);
        assert(b.contains(a[i]));
    }
    assert forall|reversed: bool| #[trigger] has_border(a, reversed) implies has_border(
        b,
        reversed,
    ) by {
        let i = choose|i: int| 0 <= i < a.len() && #[trigger] a[i].reversed_border == reversed;
        let j = choose|j: int| 0 <= j < b.len() && b[j] == a[i];
        assert(b.contains(a[i]));
        assert(b[j].reversed_border == reversed);
    }
}

/// Adding a family that is not narrower than the least searchable width to a default
/// configuration gives the default configuration for one more family.
pub proof fn law_add_extends_default<Q: Default>(
    before: DecodeTagsConfig<Q>,
    family: TagFamily,
    after: DecodeTagsConfig<Q>,
)
    requires
        before.is_default_for(
            before.tag_families@,
            searchable_width(narrowest(before.tag_families@)),
        ),
        family.width_at_border >= MIN_TAG_WIDTH,
        before.extended_by(family, after),
    ensures
        after.is_default_for(
            before.tag_families@.push(family),
            searchable_width(narrowest(before.tag_families@.push(family))),
        ),
{
    lemma_one_more(before.tag_families@, family);
}

/// Asking for a Hamming distance changes how many wrong bits are corrected, and nothing else of
/// the families.
pub proof fn law_hamming_distance_keeps_shape(kinds: Seq<TagFamilyKind>, hamming_distance: u8)
    ensures
        correcting_families_of(kinds, hamming_distance).len() == families_of(kinds).len(),
        forall|i: int|
            0 <= i < kinds.len() ==> (#[trigger] correcting_families_of(kinds, hamming_distance)[i])
                == families_of(kinds)[i].correcting(hamming_distance),
        narrowest(correcting_families_of(kinds, hamming_distance)) == narrowest(families_of(kinds)),
        forall|reversed: bool|
            #[trigger] has_border(correcting_families_of(kinds, hamming_distance), reversed)
                == has_border(families_of(kinds), reversed),
    decreases kinds.len(),
{
    let plain = families_of(kinds);
    let correcting = correcting_families_of(kinds, hamming_distance);
    if kinds.len() > 0 {
        let rest = kinds.drop_last();
        law_hamming_distance_keeps_shape(rest, hamming_distance);
        assert(plain =~= families_of(rest).push(plain.last()));
        assert(correcting =~= correcting_families_of(rest, hamming_distance).push(
            correcting.last(),
        ));
        lemma_one_more(families_of(rest), plain.last());
        lemma_one_more(correcting_families_of(rest, hamming_distance), correcting.last());
    }
}

/// The families and the least width settle a default configuration, where quad fitting has but one
/// default: in particular, all supported families give what listing their kinds gives.
pub proof fn law_default_is_settled<Q: Default>(
    a: DecodeTagsConfig<Q>,
    b: DecodeTagsConfig<Q>,
    families: Seq<TagFamily>,
    min_tag_width: usize,
)
    requires
        one_default::<Q>(),
        a.is_default_for(families, min_tag_width),
        b.is_default_for(families, min_tag_width),
    ensures
        a.same_as(b),
{
}

/// Adding the family of one more kind to what [`DecodeTagsConfig::new`] made gives what it makes of
/// one more kind.
pub proof fn law_add_is_one_more_kind<Q: Default>(
    kinds: Seq<TagFamilyKind>,
    kind: TagFamilyKind,
    before: DecodeTagsConfig<Q>,
    after: DecodeTagsConfig<Q>,
    made: DecodeTagsConfig<Q>,
)
    requires
        one_default::<Q>(),
        before.is_new(kinds),
        before.extended_by(TagFamily::of_kind(kind), after),
        made.is_new(kinds.push(kind)),
    ensures
        after.is_new(kinds.push(kind)),
        after.same_as(made),
{
    assert(families_of(kinds.push(kind)) =~= families_of(kinds).push(TagFamily::of_kind(kind)));
    law_add_extends_default(before, TagFamily::of_kind(kind), after);
}

/// What [`DecodeTagsConfig::with_hamming_distance`] makes of some kinds is what
/// [`DecodeTagsConfig::new`] makes of them, but that the families correct wrong bits and the least
/// width is halved.
pub proof fn law_hamming_distance_halves_least_width<Q: Default>(
    kinds: Seq<TagFamilyKind>,
    hamming_distance: u8,
    plain: DecodeTagsConfig<Q>,
    correcting: DecodeTagsConfig<Q>,
)
    requires
        one_default::<Q>(),
        plain.is_new(kinds),
        correcting.is_correcting(kinds, hamming_distance),
    ensures
        correcting.tag_families@ == plain.tag_families@.map_values(
            |family: TagFamily| family.correcting(hamming_distance),
        ),
        correcting.min_tag_width == searchable_width(plain.min_tag_width / 2),
        correcting.same_settings(
            (DecodeTagsConfig { min_tag_width: correcting.min_tag_width, ..plain }),
        ),
{
    law_hamming_distance_keeps_shape(kinds, hamming_distance);
    assert(correcting.tag_families@ =~= plain.tag_families@.map_values(
        |family: TagFamily| family.correcting(hamming_distance),
    ));
}

/// Two Hamming distances make a difference to the families only.
pub proof fn law_hamming_distances_differ_in_families<Q: Default>(
    kinds: Seq<TagFamilyKind>,
    one: u8,
    other: u8,
    a: DecodeTagsConfig<Q>,
    b: DecodeTagsConfig<Q>,
)
    requires
        one_default::<Q>(),
        a.is_correcting(kinds, one),
        b.is_correcting(kinds, other),
    ensures
        a.same_settings(b),
        a.tag_families@.len() == b.tag_families@.len(),
{
    law_hamming_distance_keeps_shape(kinds, one);
    law_hamming_distance_keeps_shape(kinds, other);
}

/// Kinds in another order give the families in that order, and the same configuration otherwise.
/// The `i`th kind of the other order is the one at `order[i]`.
pub proof fn law_order_of_kinds<Q: Default>(
    kinds: Seq<TagFamilyKind>,
    order: Seq<int>,
    a: DecodeTagsConfig<Q>,
    b: DecodeTagsConfig<Q>,
)
    requires
        one_default::<Q>(),
        order.len() == kinds.len(),
        order.no_duplicates(),
        forall|i: int| 0 <= i < order.len() ==> 0 <= #[trigger] order[i] < kinds.len(),
        forall|j: int| 0 <= j < kinds.len() ==> #[trigger] order.contains(j),
        a.is_new(kinds),
        b.is_new(order.map_values(|j: int| kinds[j])),
    ensures
        b.tag_families@ == order.map_values(|j: int| a.tag_families@[j]),
        a.same_settings(b),
{
    let (fa, fb) = (a.tag_families@, b.tag_families@);
    assert(fb =~= order.map_values(|j: int| fa[j]));
    assert forall|j: int| 0 <= j < fa.len() implies fb.contains(#[trigger] fa[j]) by {
        assert(order.contains(j));
        let i = order.index_of(j);
        assert(fb[i] == fa[j]);
    }
    assert forall|i: int| 0 <= i < fb.len() implies fa.contains(#[trigger] fb[i]) by {
        assert(fb[i] == fa[order[i]]);
    }
    lemma_listed_in(fa, fb);
    lemma_listed_in(fb, fa);
}

/// Equality of sharpening factors: it is symmetric, all that is a number equals itself, what is no
/// number equals nothing, and of different bits only those of the two zeros are equal.
pub proof fn law_equality_of_floats(a: Float32, b: Float32)
    ensures
        vstd::std_specs::cmp::PartialEqSpec::eq_spec(&a, &b)
            == vstd::std_specs::cmp::PartialEqSpec::eq_spec(&b, &a),
        a.bits % 0x8000_0000 <= 0x7F80_0000 ==> vstd::std_specs::cmp::PartialEqSpec::eq_spec(&a, &a),
        a.bits % 0x8000_0000 > 0x7F80_0000 ==> !vstd::std_specs::cmp::PartialEqSpec::eq_spec(&a, &b),
        a.bits != b.bits && vstd::std_specs::cmp::PartialEqSpec::eq_spec(&a, &b) ==> {
            ||| a.bits == 0 && b.bits == 0x8000_0000
            ||| a.bits == 0x8000_0000 && b.bits == 0
        },
        a.bits == 0 && b.bits == 0x8000_0000 ==> vstd::std_specs::cmp::PartialEqSpec::eq_spec(
            &a,
            &b,
        ),
{
}

/// The least of no widths is the greatest number.
pub proof fn law_narrowest_of_none(families: Seq<TagFamily>)
    requires
        families.len() == 0,
    ensures
        narrowest(families) == usize::MAX,
{
}

/// No width below three is looked for, and any other is left as it is.
pub proof fn law_searchable_widths(width: usize)
    ensures
        width >= 3 ==> searchable_width(width) == width,
        width < 3 ==> searchable_width(width) == 3,
{
}

/// A border is present where one of the families has it, and nowhere else; the flags of a
/// configuration that match its families say just that.
pub proof fn law_borders_come_from_families<Q>(config: DecodeTagsConfig<Q>, reversed: bool)
    ensures
        has_border(config.tag_families@, reversed) <==> (exists|i: int|
            0 <= i < config.tag_families@.len() && (
            #[trigger] config.tag_families@[i]).reversed_border == reversed),
        config.borders_match() ==> {
            &&& config.normal_border <==> (exists|i: int|
                0 <= i < config.tag_families@.len() && !(
                #[trigger] config.tag_families@[i]).reversed_border)
            &&& config.reversed_border <==> (exists|i: int|
                0 <= i < config.tag_families@.len() && (
                #[trigger] config.tag_families@[i]).reversed_border)
        },
{
    let families = config.tag_families@;
    if config.borders_match() {
        if has_border(families, false) {
            let i = choose|i: int|
                0 <= i < families.len() && #[trigger] families[i].reversed_border == false;
            assert(!families[i].reversed_border);
        }
        if exists|i: int| 0 <= i < families.len() && !(#[trigger] families[i]).reversed_border {
            let i = choose|i: int|
                0 <= i < families.len() && !(#[trigger] families[i]).reversed_border;
            assert(families[i].reversed_border == false);
        }
    }
}

/// No family of a configuration that covers its families is narrower than the least width.
pub proof fn law_covered_families<Q>(config: DecodeTagsConfig<Q>)
    ensures
        config.covers_families() <==> (forall|i: int|
            0 <= i < config.tag_families@.len() ==> (
            #[trigger] config.tag_families@[i]).width_at_border >= config.min_tag_width),
{
}

/// Configurations with the same settings agree field by field; if they are the same, they list the
/// same families too.
pub proof fn law_same_configurations<Q>(a: DecodeTagsConfig<Q>, b: DecodeTagsConfig<Q>)
    ensures
        a.same_settings(b) <==> {
            &&& a.fit_quad_config == b.fit_quad_config
            &&& a.refine_edges_enabled == b.refine_edges_enabled
            &&& a.decode_sharpening.bits == b.decode_sharpening.bits
            &&& a.normal_border == b.normal_border
            &&& a.reversed_border == b.reversed_border
            &&& a.min_tag_width == b.min_tag_width
            &&& a.min_white_black_difference == b.min_white_black_difference
            &&& a.downscale_factor == b.downscale_factor
        },
        a.same_as(b) ==> a.same_settings(b),
        a.same_as(b) ==> a.tag_families@.len() == b.tag_families@.len(),
        a.same_as(b) ==> forall|i: int|
            0 <= i < a.tag_families@.len() ==> #[trigger] a.tag_families@[i] == b.tag_families@[i],
{
}

/// The defaults: edges are refined, bits are sharpened by a quarter, white and black differ by at
/// least five, images are halved, and quads are fitted as is default.
pub proof fn law_default_settings<Q: Default>(
    config: DecodeTagsConfig<Q>,
    families: Seq<TagFamily>,
    min_tag_width: usize,
)
    requires
        config.is_default_for(families, min_tag_width),
    ensures
        config.tag_families@ == families,
        config.min_tag_width == min_tag_width,
        config.refine_edges_enabled,
        config.decode_sharpening.bits == 0x3E80_0000,
        config.min_white_black_difference == 5,
        config.downscale_factor == 2,
        call_ensures(Q::default, (), config.fit_quad_config),
        config.normal_border <==> (exists|i: int|
            0 <= i < families.len() && !(#[trigger] families[i]).reversed_border),
        config.reversed_border <==> (exists|i: int|
            0 <= i < families.len() && (#[trigger] families[i]).reversed_border),
{
    law_borders_come_from_families(config, true);
}

/// What [`DecodeTagsConfig::new`] makes of some kinds: the `i`th family is that of the `i`th kind,
/// a border is present if one of the kinds has it, and the least width is that of the narrowest
/// kind. The settings are the defaults.
pub proof fn law_new_follows_the_kinds<Q: Default>(
    kinds: Seq<TagFamilyKind>,
    config: DecodeTagsConfig<Q>,
)
    requires
        config.is_new(kinds),
    ensures
        config.tag_families@.len() == kinds.len(),
        forall|i: int|
            0 <= i < kinds.len() ==> {
                &&& (#[trigger] config.tag_families@[i]).kind == kinds[i]
                &&& config.tag_families@[i].hamming_distance is None
                &&& config.tag_families@[i].width_at_border == TagFamily::of_kind(
                    kinds[i],
                ).width_at_border
                &&& config.tag_families@[i].reversed_border == TagFamily::of_kind(
                    kinds[i],
                ).reversed_border
                &&& config.min_tag_width <= config.tag_families@[i].width_at_border
            },
        config.normal_border <==> (exists|i: int|
            0 <= i < kinds.len() && ((#[trigger] kinds[i]) is Tag16H5 || kinds[i] is Tag25H9
                || kinds[i] is Tag36H11)),
        config.reversed_border <==> (exists|i: int|
            0 <= i < kinds.len() && !((#[trigger] kinds[i]) is Tag16H5 || kinds[i] is Tag25H9
                || kinds[i] is Tag36H11)),
        kinds.len() == 0 ==> config.min_tag_width == usize::MAX,
        kinds.len() > 0 ==> exists|i: int|
            0 <= i < kinds.len() && config.min_tag_width == (
            #[trigger] config.tag_families@[i]).width_at_border,
        config.refine_edges_enabled,
        config.decode_sharpening.bits == 0x3E80_0000,
        config.min_white_black_difference == 5,
        config.downscale_factor == 2,
        call_ensures(Q::default, (), config.fit_quad_config),
{
    let families = config.tag_families@;
    law_default_settings(config, families_of(kinds), config.min_tag_width);
    law_narrowest_is_least(families);
    lemma_borders_of_kinds(kinds, families);
}

/// Where each family has the border of its kind, the borders are those of the kinds.
proof fn lemma_borders_of_kinds(kinds: Seq<TagFamilyKind>, families: Seq<TagFamily>)
    requires
        families.len() == kinds.len(),
        forall|i: int|
            0 <= i < kinds.len() ==> (#[trigger] families[i]).reversed_border == !(
            kinds[i] is Tag16H5 || kinds[i] is Tag25H9 || kinds[i] is Tag36H11),
    ensures
        (exists|i: int| 0 <= i < families.len() && !(#[trigger] families[i]).reversed_border) <==> (
        exists|i: int|
            0 <= i < kinds.len() && ((#[trigger] kinds[i]) is Tag16H5 || kinds[i] is Tag25H9
                || kinds[i] is Tag36H11)),
        (exists|i: int| 0 <= i < families.len() && (#[trigger] families[i]).reversed_border) <==> (
        exists|i: int|
            0 <= i < kinds.len() && !((#[trigger] kinds[i]) is Tag16H5 || kinds[i] is Tag25H9
                || kinds[i] is Tag36H11)),
{
    assert forall|i: int| 0 <= i < kinds.len() implies (
    (#[trigger] kinds[i]) is Tag16H5 || kinds[i] is Tag25H9 || kinds[i] is Tag36H11) == !(
    families[i].reversed_border) by {}
}

/// For one kind of tags, just the border of that kind is present, and the least width is its own.
pub proof fn law_new_for_one_kind<Q: Default>(kind: TagFamilyKind, config: DecodeTagsConfig<Q>)
    requires
        config.is_new(seq![kind]),
    ensures
        config.tag_families@.len() == 1,
        config.tag_families@[0].kind == kind,
        config.normal_border <==> (kind is Tag16H5 || kind is Tag25H9 || kind is Tag36H11),
        config.reversed_border <==> (kind is TagCircle21H7 || kind is TagCircle49H12
            || kind is TagCustom48H12 || kind is TagStandard41H12 || kind is TagStandard52H13),
        config.min_tag_width == 8 <==> kind is Tag36H11,
        config.min_tag_width == 7 <==> kind is Tag25H9,
        config.min_tag_width == 6 <==> (kind is Tag16H5 || kind is TagCustom48H12
            || kind is TagStandard52H13),
        config.min_tag_width == 5 <==> (kind is TagCircle21H7 || kind is TagCircle49H12
            || kind is TagStandard41H12),
{
    law_new_follows_the_kinds(seq![kind], config);
    assert(seq![kind][0] == kind);
}

/// What [`DecodeTagsConfig::with_hamming_distance`] makes of some kinds: the `i`th family is that of
/// the `i`th kind, but that it corrects as many wrong bits as was asked; a border is present if one
/// of the kinds has it; the least width is half of that of the narrowest kind, but at least three.
/// The settings are the defaults.
pub proof fn law_correcting_follows_the_kinds<Q: Default>(
    kinds: Seq<TagFamilyKind>,
    hamming_distance: u8,
    config: DecodeTagsConfig<Q>,
)
    requires
        config.is_correcting(kinds, hamming_distance),
    ensures
        config.tag_families@.len() == kinds.len(),
        forall|i: int|
            0 <= i < kinds.len() ==> {
                &&& (#[trigger] config.tag_families@[i]).kind == kinds[i]
                &&& config.tag_families@[i].hamming_distance == Some(hamming_distance)
                &&& config.tag_families@[i].width_at_border == TagFamily::of_kind(
                    kinds[i],
                ).width_at_border
                &&& config.tag_families@[i].reversed_border == TagFamily::of_kind(
                    kinds[i],
                ).reversed_border
                &&& config.min_tag_width <= config.tag_families@[i].width_at_border
            },
        config.normal_border <==> (exists|i: int|
            0 <= i < kinds.len() && ((#[trigger] kinds[i]) is Tag16H5 || kinds[i] is Tag25H9
                || kinds[i] is Tag36H11)),
        config.reversed_border <==> (exists|i: int|
            0 <= i < kinds.len() && !((#[trigger] kinds[i]) is Tag16H5 || kinds[i] is Tag25H9
                || kinds[i] is Tag36H11)),
        kinds.len() == 0 ==> config.min_tag_width == usize::MAX / 2,
        config.min_tag_width >= 3,
        forall|i: int|
            0 <= i < kinds.len() ==> config.min_tag_width == 3 || config.min_tag_width * 2 <= (
            #[trigger] config.tag_families@[i]).width_at_border,
        kinds.len() > 0 ==> exists|i: int|
            0 <= i < kinds.len() && (#[trigger] config.tag_families@[i]).width_at_border
                <= config.min_tag_width * 2 + 1,
        config.refine_edges_enabled,
        config.decode_sharpening.bits == 0x3E80_0000,
        config.min_white_black_difference == 5,
        config.downscale_factor == 2,
        call_ensures(Q::default, (), config.fit_quad_config),
{
    let families = config.tag_families@;
    law_default_settings(
        config,
        correcting_families_of(kinds, hamming_distance),
        config.min_tag_width,
    );
    law_narrowest_is_least(families);
    lemma_borders_of_kinds(kinds, families);
    if kinds.len() > 0 {
        let i = choose|i: int|
            0 <= i < families.len() && (#[trigger] families[i]).width_at_border == narrowest(
                families,
            );
        assert(families[i].width_at_border <= config.min_tag_width * 2 + 1);
    }
}

/// Adding a family to a configuration, whatever its settings: the family is listed last, behind
/// those that were there; its border is present from then on, and none that was not present before
/// but its own; the least width sinks to that of the family where it was greater, and is otherwise
/// left; no other setting changes.
pub proof fn law_adding_a_family<Q>(
    before: DecodeTagsConfig<Q>,
    family: TagFamily,
    after: DecodeTagsConfig<Q>,
)
    requires
        before.extended_by(family, after),
    ensures
        after.tag_families@.len() == before.tag_families@.len() + 1,
        after.tag_families@.last() == family,
        forall|i: int|
            0 <= i < before.tag_families@.len() ==> #[trigger] after.tag_families@[i]
                == before.tag_families@[i],
        family.reversed_border ==> after.reversed_border && after.normal_border
            == before.normal_border,
        !family.reversed_border ==> after.normal_border && after.reversed_border
            == before.reversed_border,
        after.min_tag_width <= family.width_at_border,
        after.min_tag_width <= before.min_tag_width,
        after.min_tag_width == family.width_at_border || after.min_tag_width
            == before.min_tag_width,
        after.fit_quad_config == before.fit_quad_config,
        after.refine_edges_enabled == before.refine_edges_enabled,
        after.decode_sharpening.bits == before.decode_sharpening.bits,
        after.min_white_black_difference == before.min_white_black_difference,
        after.downscale_factor == before.downscale_factor,
{
}

/// Of two families it makes no difference which is added first, but to their places in the list.
pub proof fn law_order_of_adding<Q>(
    start: DecodeTagsConfig<Q>,
    f: TagFamily,
    g: TagFamily,
    with_f: DecodeTagsConfig<Q>,
    with_f_then_g: DecodeTagsConfig<Q>,
    with_g: DecodeTagsConfig<Q>,
    with_g_then_f: DecodeTagsConfig<Q>,
)
    requires
        start.extended_by(f, with_f),
        with_f.extended_by(g, with_f_then_g),
        start.extended_by(g, with_g),
        with_g.extended_by(f, with_g_then_f),
    ensures
        with_f_then_g.same_settings(with_g_then_f),
        with_f_then_g.tag_families@ == start.tag_families@ + seq![f, g],
        with_g_then_f.tag_families@ == start.tag_families@ + seq![g, f],
{
}

} // verus!
