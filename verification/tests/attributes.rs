use sgx_quoteverify::attributes::{Attributes, MiscellaneousAttribute, MiscellaneousSelect};

#[test]
fn sgx_attributes_to_attributes() {
    let attributes = Attributes::from_raw(1, 2);
    assert_eq!((attributes.flags, attributes.xfrm), (1, 2));
}

#[test]
fn attributes_to_sgx_attributes() {
    let attributes = Attributes { flags: 9, xfrm: 12 };
    assert_eq!(attributes.to_raw(), (9, 12));
}

#[test]
fn attributes_round_trip_is_bitwise() {
    let attributes = Attributes::from_raw(0xFFFF_0000_ABCD_0123, 0x8000_0000_0000_0001);
    let (flags, xfrm) = attributes.to_raw();
    assert_eq!(Attributes::from_raw(flags, xfrm), attributes);
}

#[test]
fn attributes_builder_three_five() {
    let attributes = Attributes::default().set_flags(3).set_extended_features_mask(5);
    assert_eq!(attributes.flags, 3);
    assert_eq!(attributes.xfrm, 5);
}

#[test]
fn attributes_builder_four_nine() {
    let attributes = Attributes::default().set_flags(4).set_extended_features_mask(9);
    assert_eq!(attributes.flags, 4);
    assert_eq!(attributes.xfrm, 9);
}

#[test]
fn attributes_builder_order_is_irrelevant() {
    let one = Attributes::default().set_flags(3).set_extended_features_mask(5);
    let other = Attributes::default().set_extended_features_mask(5).set_flags(3);
    assert_eq!(one, other);
}

#[test]
fn display_initted_and_debug() {
    let attributes = Attributes::default().set_flags(1 | 2);
    assert_eq!(
        attributes.display_string(),
        "The following flags are set: SGX_FLAGS_INITTED,SGX_FLAGS_DEBUG"
    );
}

#[test]
fn display_no_flags() {
    assert_eq!(
        Attributes::default().display_string(),
        "The following flags are set: "
    );
}

#[test]
fn display_avx_without_legacy() {
    let attributes = Attributes::default().set_extended_features_mask(6);
    assert_eq!(
        attributes.display_string(),
        "The following flags are set: SGX_XFRM_AVX"
    );
}

#[test]
fn display_avx512_includes_avx_and_legacy() {
    let attributes = Attributes::default().set_extended_features_mask(0xE7);
    assert_eq!(
        attributes.display_string(),
        "The following flags are set: SGX_XFRM_LEGACY,SGX_XFRM_AVX,SGX_XFRM_AVX512"
    );
}

#[test]
fn display_mixes_flag_and_feature_names() {
    let attributes = Attributes::default().set_flags(1).set_extended_features_mask(3);
    assert_eq!(
        attributes.display_string(),
        "The following flags are set: SGX_FLAGS_INITTED,SGX_XFRM_LEGACY"
    );
}

#[test]
fn display_feature_bits_in_flags_word_are_not_reported() {
    // The feature-mask constants are judged against the xfrm field alone,
    // so flag bits 0-1 never surface as SGX_XFRM_LEGACY.
    let attributes = Attributes::default().set_flags(0x0004);
    assert_eq!(
        attributes.display_string(),
        "The following flags are set: SGX_FLAGS_MODE64BIT"
    );
}

#[test]
fn miscellaneous_select_round_trip() {
    let select = MiscellaneousSelect::from(7u32);
    assert_eq!(u32::from(select), 7);
}

#[test]
fn miscellaneous_select_default_is_zero() {
    assert_eq!(MiscellaneousSelect::default(), MiscellaneousSelect(0));
}

#[test]
fn miscellaneous_attribute_fields() {
    let misc = MiscellaneousAttribute {
        secs_attr: Attributes::from_raw(9, 12),
        misc_select: MiscellaneousSelect(1),
    };
    assert_eq!(misc.secs_attr.to_raw(), (9, 12));
    assert_eq!(u32::from(misc.misc_select), 1);
}
