use screencast::format::{Modifier, PixelLayout, MODIFIER_NONE};
use screencast::negotiate::{
    build_format_offers, modifier_list, FormatOffer, ModifierQuery, DEFAULT_HEIGHT,
    DEFAULT_RATE_DENOM, DEFAULT_RATE_NUM, DEFAULT_WIDTH,
};

#[test]
fn modifier_list_fallback_when_enumeration_absent() {
    let list = modifier_list(None);
    assert_eq!(list, vec![Modifier::NoModifier]);
}

#[test]
fn modifier_list_appends_sentinel_last() {
    let queried = vec![0u64, 42, 7];
    let list = modifier_list(Some(&queried));
    assert_eq!(
        list,
        vec![
            Modifier::Specific(0),
            Modifier::Specific(42),
            Modifier::Specific(7),
            Modifier::NoModifier,
        ]
    );
    assert_eq!(*list.last().unwrap(), Modifier::NoModifier);
}

#[test]
fn modifier_list_folds_reserved_value() {
    let queried = vec![MODIFIER_NONE];
    let list = modifier_list(Some(&queried));
    assert_eq!(list, vec![Modifier::NoModifier, Modifier::NoModifier]);
}

fn four_layout_queries() -> Vec<ModifierQuery> {
    vec![
        ModifierQuery {
            layout: PixelLayout::Bgra,
            result: Some(vec![0, 42]),
        },
        ModifierQuery {
            layout: PixelLayout::Rgba,
            result: None,
        },
        ModifierQuery {
            layout: PixelLayout::Rgbx,
            result: Some(vec![]),
        },
        ModifierQuery {
            layout: PixelLayout::Bgrx,
            result: None,
        },
    ]
}

#[test]
fn offers_for_all_four_layouts_end_in_sentinel() {
    let offers = build_format_offers(&four_layout_queries());
    assert_eq!(offers.len(), 4);
    for offer in &offers {
        assert!(!offer.modifiers.is_empty());
        assert_eq!(*offer.modifiers.last().unwrap(), Modifier::NoModifier);
    }
    assert_eq!(offers[0].layout, PixelLayout::Bgra);
    assert_eq!(
        offers[0].modifiers,
        vec![
            Modifier::Specific(0),
            Modifier::Specific(42),
            Modifier::NoModifier
        ]
    );
    assert_eq!(offers[1].modifiers, vec![Modifier::NoModifier]);
    assert_eq!(offers[2].modifiers, vec![Modifier::NoModifier]);
}

#[test]
fn offers_carry_advertised_ranges() {
    let offers = build_format_offers(&four_layout_queries());
    for offer in &offers {
        assert_eq!(offer.min_width, 1);
        assert_eq!(offer.min_height, 1);
        assert_eq!(offer.max_width, 4096);
        assert_eq!(offer.max_height, 4096);
        assert_eq!(offer.default_width, DEFAULT_WIDTH);
        assert_eq!(offer.default_height, DEFAULT_HEIGHT);
        assert_eq!(offer.default_rate.num, DEFAULT_RATE_NUM);
        assert_eq!(offer.default_rate.denom, DEFAULT_RATE_DENOM);
        assert_eq!(offer.min_rate.num, 0);
        assert_eq!(offer.max_rate.num, 1000);
    }
    assert_eq!(DEFAULT_WIDTH, 320);
    assert_eq!(DEFAULT_HEIGHT, 240);
    assert_eq!(DEFAULT_RATE_NUM, 25);
    assert_eq!(DEFAULT_RATE_DENOM, 1);
}

#[test]
fn unsupported_layout_omitted_from_offers() {
    let queries = vec![
        ModifierQuery {
            layout: PixelLayout::Rgb,
            result: None,
        },
        ModifierQuery {
            layout: PixelLayout::Bgra,
            result: None,
        },
        ModifierQuery {
            layout: PixelLayout::Bgr,
            result: Some(vec![1, 2]),
        },
    ];
    let offers: Vec<FormatOffer> = build_format_offers(&queries);
    assert_eq!(offers.len(), 1);
    assert_eq!(offers[0].layout, PixelLayout::Bgra);
}
