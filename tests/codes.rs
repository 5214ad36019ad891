use pnte::{
    CapStyle, CoInit, FontLineGapUsage, GradientMode, Interpolation, ParagraphAlignment, PathEnd,
    TextAlignment,
};

#[test]
fn cap_style_codes() {
    assert_eq!(CapStyle::Flat.code(), 0);
    assert_eq!(CapStyle::Square.code(), 1);
    assert_eq!(CapStyle::Round.code(), 2);
    assert_eq!(CapStyle::Triangle.code(), 3);
}

#[test]
fn gradient_mode_codes() {
    assert_eq!(GradientMode::Clamp.code(), 0);
    assert_eq!(GradientMode::Wrap.code(), 1);
    assert_eq!(GradientMode::Mirror.code(), 2);
}

#[test]
fn path_end_codes() {
    assert_eq!(PathEnd::Open.code(), 0);
    assert_eq!(PathEnd::Closed.code(), 1);
}

#[test]
fn interpolation_codes() {
    assert_eq!(Interpolation::NearestNeighbor.code(), 0);
    assert_eq!(Interpolation::Linear.code(), 1);
    assert_eq!(Interpolation::Cubic.code(), 2);
    assert_eq!(Interpolation::MultiSampleLinear.code(), 3);
    assert_eq!(Interpolation::Anisotropic.code(), 4);
    assert_eq!(Interpolation::HighQualityCubic.code(), 5);
}

#[test]
fn co_init_flags_include_disable_ole1dde() {
    assert_eq!(CoInit::ApartmentThreaded.flags(), 2 | 4);
    assert_eq!(CoInit::MultiThreaded.flags(), 4);
}

#[test]
fn text_alignment_codes_round_trip() {
    let all = [
        (TextAlignment::Leading, 0),
        (TextAlignment::Trailing, 1),
        (TextAlignment::Center, 2),
        (TextAlignment::Justified, 3),
    ];
    for (a, v) in all {
        assert_eq!(a.code(), v);
        assert_eq!(TextAlignment::from_code(v), Some(a));
    }
    assert_eq!(TextAlignment::from_code(4), None);
    assert_eq!(TextAlignment::from_code(-1), None);
}

#[test]
fn paragraph_alignment_codes_round_trip() {
    let all = [
        (ParagraphAlignment::Near, 0),
        (ParagraphAlignment::Far, 1),
        (ParagraphAlignment::Center, 2),
    ];
    for (a, v) in all {
        assert_eq!(a.code(), v);
        assert_eq!(ParagraphAlignment::from_code(v), Some(a));
    }
    assert_eq!(ParagraphAlignment::from_code(3), None);
}

#[test]
fn font_line_gap_usage_codes_round_trip() {
    let all = [
        (FontLineGapUsage::Default, 0),
        (FontLineGapUsage::Disabled, 1),
        (FontLineGapUsage::Enabled, 2),
    ];
    for (a, v) in all {
        assert_eq!(a.code(), v);
        assert_eq!(FontLineGapUsage::from_code(v), Some(a));
    }
    assert_eq!(FontLineGapUsage::from_code(i32::MAX), None);
    assert_eq!(FontLineGapUsage::default(), FontLineGapUsage::Default);
}
