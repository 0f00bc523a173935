//! The format/modifier negotiator.
//!
//! For each pixel layout the import layer is asked which buffer-layout
//! modifiers it accepts; the answer, with the linear/no-modifier fallback
//! always appended last, becomes the modifier choice-set of the offer sent
//! to the producer.  A layout the import layer cannot express at all is
//! omitted from the offer set; a layout whose modifiers merely cannot be
//! enumerated is offered with the single-element fallback list.

use vstd::prelude::*;

use crate::format::{drm_format_spec, Fraction, Modifier, PixelLayout};

verus! {

/// Default width offered to the producer.
pub const DEFAULT_WIDTH: u32 = 320;

/// Default height offered to the producer.
pub const DEFAULT_HEIGHT: u32 = 240;

/// Default frame-rate numerator offered to the producer.
pub const DEFAULT_RATE_NUM: u32 = 25;

/// Default frame-rate denominator offered to the producer.
pub const DEFAULT_RATE_DENOM: u32 = 1;

pub open spec fn modifier_list_spec(queried: Option<Seq<u64>>) -> Seq<Modifier> {
    match queried {
        Some(q) => q.map_values(|m: u64| Modifier::from_raw_spec(m)).push(Modifier::NoModifier),
        None => seq![Modifier::NoModifier],
    }
}

pub open spec fn query_view(queried: Option<&Vec<u64>>) -> Option<Seq<u64>> {
    match queried {
        Some(q) => Some(q@),
        None => None,
    }
}

/// The ordered modifier choice-set for one layout: the import layer's
/// answer most-preferred first, and the no-modifier fallback always last.
/// `None` — the import layer could not enumerate — yields the
/// single-element fallback list rather than an error.
pub fn modifier_list(queried: Option<&Vec<u64>>) -> (r: Vec<Modifier>)
    ensures
        r@ =~= modifier_list_spec(query_view(queried)),
        r@.len() >= 1,
        r@.last() == Modifier::NoModifier,
{
    let mut out: Vec<Modifier> = Vec::new();
    match queried {
        Some(q) => {
            let n = q.len();
            let mut i: usize = 0;
            while i < n
                invariant
                    n == q@.len(),
                    i <= n,
                    out@ =~= q@.take(i as int).map_values(|m: u64| Modifier::from_raw_spec(m)),
                decreases n - i,
            {
                out.push(Modifier::from_raw(q[i]));
                proof {
                    assert(q@.take(i + 1).drop_last() =~= q@.take(i as int));
                    assert(q@.take(i + 1).map_values(|m: u64| Modifier::from_raw_spec(m)) =~= q@
                        .take(i as int).map_values(|m: u64| Modifier::from_raw_spec(m)).push(
                        Modifier::from_raw_spec(q@[i as int]),
                    ));
                }
                i = i + 1;
            }
            proof {
                assert(q@.take(n as int) =~= q@);
            }
        },
        None => {},
    }
    out.push(Modifier::NoModifier);
    out
}

/// The import layer's modifier answer for one layout, as the worker
/// collected it: `None` when the enumeration extension is absent or the
/// query failed.
#[derive(Clone, Debug)]
pub struct ModifierQuery {
    pub layout: PixelLayout,
    pub result: Option<Vec<u64>>,
}

impl ModifierQuery {
    pub open spec fn result_view(self) -> Option<Seq<u64>> {
        match self.result {
            Some(v) => Some(v@),
            None => None,
        }
    }
}

/// One entry of the enumeration offered to the producer: a raw-video offer
/// for one pixel layout, with its modifier choice-set and the allowed size
/// and frame-rate ranges.
#[derive(Clone, Debug)]
pub struct FormatOffer {
    pub layout: PixelLayout,
    /// The import layer's fourcc tag for the layout.
    pub fourcc: i32,
    /// Default choice first, no-modifier fallback last.
    pub modifiers: Vec<Modifier>,
    pub min_width: u32,
    pub min_height: u32,
    pub default_width: u32,
    pub default_height: u32,
    pub max_width: u32,
    pub max_height: u32,
    pub min_rate: Fraction,
    pub default_rate: Fraction,
    pub max_rate: Fraction,
}

/// The spec-level shape of one offer.
pub struct OfferModel {
    pub layout: PixelLayout,
    pub fourcc: i32,
    pub modifiers: Seq<Modifier>,
}

impl FormatOffer {
    pub open spec fn model(self) -> OfferModel {
        OfferModel { layout: self.layout, fourcc: self.fourcc, modifiers: self.modifiers@ }
    }

    /// A well-formed offer: a negotiable layout with its fourcc tag, a
    /// modifier choice-set ending in the fallback, and the advertised
    /// ranges.
    pub open spec fn wf(self) -> bool {
        &&& self.layout.is_negotiable()
        &&& drm_format_spec(self.layout) == Some(self.fourcc)
        &&& self.modifiers@.len() >= 1
        &&& self.modifiers@.last() == Modifier::NoModifier
        &&& self.min_width == crate::format::MIN_DIMENSION
        &&& self.min_height == crate::format::MIN_DIMENSION
        &&& self.default_width == DEFAULT_WIDTH
        &&& self.default_height == DEFAULT_HEIGHT
        &&& self.max_width == crate::format::MAX_DIMENSION
        &&& self.max_height == crate::format::MAX_DIMENSION
        &&& self.min_rate == (Fraction { num: 0, denom: 1 })
        &&& self.default_rate == (Fraction { num: DEFAULT_RATE_NUM, denom: DEFAULT_RATE_DENOM })
        &&& self.max_rate == (Fraction { num: crate::format::MAX_FRAMERATE, denom: 1 })
    }
}

/// What one layout's query contributes to the offer set: nothing when the
/// import layer has no format for the layout, one offer otherwise.
pub open spec fn offer_of_spec(q: ModifierQuery) -> Seq<OfferModel> {
    match drm_format_spec(q.layout) {
        None => Seq::empty(),
        Some(fc) => seq![
            OfferModel {
                layout: q.layout,
                fourcc: fc,
                modifiers: modifier_list_spec(q.result_view()),
            },
        ],
    }
}

/// The offer set built from the layout queries, in order.
pub open spec fn offers_spec(queries: Seq<ModifierQuery>) -> Seq<OfferModel>
    decreases queries.len(),
{
    if queries.len() == 0 {
        Seq::empty()
    } else {
        offers_spec(queries.drop_last()) + offer_of_spec(queries.last())
    }
}

/// Build the offer enumeration for the producer from the per-layout
/// modifier queries.  Layouts without an import-layer format are omitted;
/// every produced offer is well formed.
pub fn build_format_offers(queries: &Vec<ModifierQuery>) -> (r: Vec<FormatOffer>)
    ensures
        r@.map_values(|o: FormatOffer| o.model()) =~= offers_spec(queries@),
        forall|j: int| 0 <= j < r@.len() ==> (#[trigger] r@[j]).wf(),
{
    let mut out: Vec<FormatOffer> = Vec::new();
    let n = queries.len();
    let mut i: usize = 0;
    while i < n
        invariant
            n == queries@.len(),
            i <= n,
            out@.map_values(|o: FormatOffer| o.model()) =~= offers_spec(queries@.take(i as int)),
            forall|j: int| 0 <= j < out@.len() ==> (#[trigger] out@[j]).wf(),
        decreases n - i,
    {
        let q = &queries[i];
        match crate::format::spa_pixel_format_to_drm_format(q.layout) {
            None => {},
            Some(fc) => {
                let modifiers = modifier_list(q.result.as_ref());
                let offer = FormatOffer {
                    layout: q.layout,
                    fourcc: fc,
                    modifiers,
                    min_width: crate::format::MIN_DIMENSION,
                    min_height: crate::format::MIN_DIMENSION,
                    default_width: DEFAULT_WIDTH,
                    default_height: DEFAULT_HEIGHT,
                    max_width: crate::format::MAX_DIMENSION,
                    max_height: crate::format::MAX_DIMENSION,
                    min_rate: Fraction { num: 0, denom: 1 },
                    default_rate: Fraction { num: DEFAULT_RATE_NUM, denom: DEFAULT_RATE_DENOM },
                    max_rate: Fraction { num: crate::format::MAX_FRAMERATE, denom: 1 },
                };
                out.push(offer);
            },
        }
        proof {
            assert(queries@.take(i + 1).drop_last() =~= queries@.take(i as int));
            assert(queries@.take(i + 1).last() == queries@[i as int]);
            assert(out@.map_values(|o: FormatOffer| o.model()) =~= offers_spec(
                queries@.take(i + 1),
            ));
        }
        i = i + 1;
    }
    proof {
        assert(queries@.take(n as int) =~= queries@);
    }
    out
}

/// Every offer the negotiator ever emits carries a non-empty modifier
/// choice-set whose last entry is the no-modifier fallback.
pub proof fn lemma_offers_modifier_fallback(queries: Seq<ModifierQuery>)
    ensures
        forall|j: int|
            0 <= j < offers_spec(queries).len() ==> {
                let m = #[trigger] offers_spec(queries)[j].modifiers;
                m.len() >= 1 && m.last() == Modifier::NoModifier
            },
    decreases queries.len(),
{
    if queries.len() > 0 {
        lemma_offers_modifier_fallback(queries.drop_last());
    }
}

/// No negotiable layout is ever dropped: every queried layout the import
/// layer has a format for appears in the offer set.
pub proof fn lemma_offers_cover_negotiable_layouts(queries: Seq<ModifierQuery>, i: int)
    requires
        0 <= i < queries.len(),
        queries[i].layout.is_negotiable(),
    ensures
        exists|j: int|
            0 <= j < offers_spec(queries).len() && (#[trigger] offers_spec(queries)[j]).layout
                == queries[i].layout,
    decreases queries.len(),
{
    if i == queries.len() - 1 {
        let offers = offers_spec(queries);
        assert(offers[offers.len() - 1].layout == queries[i].layout);
    } else {
        lemma_offers_cover_negotiable_layouts(queries.drop_last(), i);
        let prefix = offers_spec(queries.drop_last());
        let j = choose|j: int|
            0 <= j < prefix.len() && (#[trigger] prefix[j]).layout == queries.drop_last()[i].layout;
        assert(offers_spec(queries)[j].layout == queries[i].layout);
    }
}

} // verus!
