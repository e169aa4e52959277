use stereo_camera::camera::configuration::{
    numbers_equal, AnaglyphFormat, Configuration, Convergence, InvalidMultiviewMode,
    MultiviewMode, NullableConfiguration, PixelFormat, VideoCodec,
};

fn every_mode() -> Vec<MultiviewMode> {
    vec![
        MultiviewMode::Unset,
        MultiviewMode::Mono,
        MultiviewMode::Left,
        MultiviewMode::Right,
        MultiviewMode::SideBySide,
        MultiviewMode::SideBySideQuincunx,
        MultiviewMode::ColumnInterleaved,
        MultiviewMode::RowInterleaved,
        MultiviewMode::TopBottom,
        MultiviewMode::Checkerboard,
        MultiviewMode::FrameByFrame,
        MultiviewMode::MultiviewFrameByFrame,
        MultiviewMode::Separated,
    ]
}

fn empty_patch() -> NullableConfiguration {
    NullableConfiguration::default()
}

#[test]
fn default_configuration_is_fully_populated() {
    let configuration = Configuration::default();
    assert_eq!(configuration.width, 1280);
    assert_eq!(configuration.height, 720);
    assert_eq!(configuration.fps, 60);
    assert_eq!(configuration.format, PixelFormat::NV12);
    assert_eq!(configuration.convergence, Convergence::from_bits(0, 0));
    assert_eq!(configuration.convergence.x, 0.0f32.to_bits());
    assert_eq!(configuration.multiview_mode, MultiviewMode::SideBySide);
    assert_eq!(configuration.anaglyph_format, AnaglyphFormat::RedCyan);
    assert_eq!(configuration.codec, VideoCodec::MotionJpeg);
}

#[test]
fn defaults_of_the_parts() {
    assert_eq!(AnaglyphFormat::default(), AnaglyphFormat::RedCyan);
    assert_eq!(VideoCodec::default(), VideoCodec::MotionJpeg);
    assert_eq!(MultiviewMode::default(), MultiviewMode::Unset);
    assert_eq!(PixelFormat::default(), PixelFormat::NV12);
    assert_eq!(Convergence::default(), Convergence { x: 0, y: 0 });
    let patch = NullableConfiguration::default();
    assert_eq!(patch.width, None);
    assert_eq!(patch.height, None);
    assert_eq!(patch.fps, None);
    assert_eq!(patch.format, None);
    assert_eq!(patch.convergence, None);
    assert_eq!(patch.multiview_mode, None);
    assert_eq!(patch.anaglyph_format, None);
    assert_eq!(patch.codec, None);
}

#[test]
fn anaglyph_formats_as_downmix_modes() {
    assert_eq!(AnaglyphFormat::GreenMagenta.as_gst_str(), "0");
    assert_eq!(AnaglyphFormat::RedCyan.as_gst_str(), "1");
    assert_eq!(AnaglyphFormat::AmberBlue.as_gst_str(), "2");
}

#[test]
fn pixel_format_is_written_by_name() {
    assert_eq!(PixelFormat::NV12.to_string(), "NV12");
}

#[test]
fn merging_an_empty_patch_is_identity() {
    let configuration = Configuration {
        width: 640,
        height: 480,
        fps: 25,
        format: PixelFormat::NV12,
        convergence: Convergence::from_bits(0.5f32.to_bits(), (-0.25f32).to_bits()),
        multiview_mode: MultiviewMode::TopBottom,
        anaglyph_format: AnaglyphFormat::AmberBlue,
        codec: VideoCodec::Prores,
    };
    assert_eq!(configuration.merge(&empty_patch()), configuration);
    assert_eq!(Configuration::default().merge(&empty_patch()), Configuration::default());
}

#[test]
fn merge_takes_each_field_of_the_patch_alone() {
    let base = Configuration::default();

    let mut patch = empty_patch();
    patch.width = Some(1920);
    assert_eq!(base.merge(&patch), Configuration { width: 1920, ..base });

    let mut patch = empty_patch();
    patch.height = Some(1080);
    assert_eq!(base.merge(&patch), Configuration { height: 1080, ..base });

    let mut patch = empty_patch();
    patch.fps = Some(30);
    assert_eq!(base.merge(&patch), Configuration { fps: 30, ..base });

    let mut patch = empty_patch();
    patch.format = Some(PixelFormat::NV12);
    assert_eq!(base.merge(&patch), base);

    let convergence = Convergence::from_bits(0.2f32.to_bits(), (-0.1f32).to_bits());
    let mut patch = empty_patch();
    patch.convergence = Some(convergence);
    assert_eq!(base.merge(&patch), Configuration { convergence, ..base });

    let mut patch = empty_patch();
    patch.multiview_mode = Some(MultiviewMode::Checkerboard);
    assert_eq!(
        base.merge(&patch),
        Configuration { multiview_mode: MultiviewMode::Checkerboard, ..base }
    );

    let mut patch = empty_patch();
    patch.anaglyph_format = Some(AnaglyphFormat::GreenMagenta);
    assert_eq!(
        base.merge(&patch),
        Configuration { anaglyph_format: AnaglyphFormat::GreenMagenta, ..base }
    );

    let mut patch = empty_patch();
    patch.codec = Some(VideoCodec::Prores);
    assert_eq!(base.merge(&patch), Configuration { codec: VideoCodec::Prores, ..base });
}

#[test]
fn merge_of_a_full_patch_replaces_everything() {
    let wanted = Configuration {
        width: 800,
        height: 600,
        fps: 24,
        format: PixelFormat::NV12,
        convergence: Convergence::from_bits(1, 2),
        multiview_mode: MultiviewMode::Mono,
        anaglyph_format: AnaglyphFormat::AmberBlue,
        codec: VideoCodec::Prores,
    };
    let patch = NullableConfiguration::from(wanted);
    assert_eq!(patch.width, Some(800));
    assert_eq!(patch.codec, Some(VideoCodec::Prores));
    assert_eq!(Configuration::default().merge(&patch), wanted);
    assert_eq!(Configuration::from(patch), wanted);
}

#[test]
fn configuration_from_a_patch_fills_in_the_defaults() {
    let mut patch = empty_patch();
    patch.fps = Some(30);
    let configuration = Configuration::from(patch);
    assert_eq!(configuration, Configuration { fps: 30, ..Configuration::default() });
    assert_eq!(Configuration::from(empty_patch()), Configuration::default());
}

#[test]
fn patches_merge_with_the_later_one_winning() {
    let mut first = empty_patch();
    first.width = Some(100);
    first.height = Some(200);
    let mut second = empty_patch();
    second.height = Some(300);
    second.fps = Some(15);
    let both = first.merge(&second);
    assert_eq!(both.width, Some(100));
    assert_eq!(both.height, Some(300));
    assert_eq!(both.fps, Some(15));
    assert_eq!(both.codec, None);
    assert_eq!(first.merge(&empty_patch()), first);
    let base = Configuration::default();
    assert_eq!(base.merge(&first).merge(&second), base.merge(&both));
}

#[test]
fn multiview_modes_are_written_by_their_wire_names() {
    assert_eq!(MultiviewMode::SideBySide.serialize(), "side-by-side");
    assert_eq!(MultiviewMode::TopBottom.serialize(), "top-bottom");
    assert_eq!(MultiviewMode::Checkerboard.serialize(), "checkerboard");
    assert_eq!(MultiviewMode::SideBySideQuincunx.serialize(), "side-by-side-quincunx");
    assert_eq!(MultiviewMode::ColumnInterleaved.serialize(), "column-interleaved");
    assert_eq!(MultiviewMode::RowInterleaved.serialize(), "row-interleaved");
    assert_eq!(MultiviewMode::Mono.serialize(), "mono");
    assert_eq!(MultiviewMode::Left.serialize(), "left");
    assert_eq!(MultiviewMode::Right.serialize(), "right");
    assert_eq!(MultiviewMode::FrameByFrame.serialize(), "frame-by-frame");
    assert_eq!(MultiviewMode::MultiviewFrameByFrame.serialize(), "multiview-frame-by-frame");
    assert_eq!(MultiviewMode::Separated.serialize(), "separated");
    assert_eq!(MultiviewMode::Unset.serialize(), "none");
}

#[test]
fn multiview_modes_read_back_from_their_wire_names() {
    for mode in every_mode() {
        assert_eq!(MultiviewMode::deserialize(mode.serialize()), Ok(mode));
    }
    assert_eq!(MultiviewMode::deserialize("top-bottom"), Ok(MultiviewMode::TopBottom));
    assert_eq!(MultiviewMode::deserialize("none"), Ok(MultiviewMode::Unset));
}

#[test]
fn multiview_wire_names_are_distinct() {
    let modes = every_mode();
    for a in &modes {
        for b in &modes {
            if a != b {
                assert_ne!(a.serialize(), b.serialize());
            }
        }
    }
}

#[test]
fn unknown_multiview_names_are_rejected() {
    assert_eq!(MultiviewMode::deserialize(""), Err(InvalidMultiviewMode));
    assert_eq!(MultiviewMode::deserialize("Side-By-Side"), Err(InvalidMultiviewMode));
    assert_eq!(MultiviewMode::deserialize(" mono"), Err(InvalidMultiviewMode));
    assert_eq!(MultiviewMode::deserialize("side-by-side "), Err(InvalidMultiviewMode));
    assert_eq!(MultiviewMode::deserialize("stereo"), Err(InvalidMultiviewMode));
    assert_eq!(InvalidMultiviewMode.message(), "invalid multiview mode");
}

#[test]
fn numbers_compare_as_their_floats_do() {
    let samples: Vec<f32> = vec![
        0.0,
        -0.0,
        1.0,
        -1.0,
        0.2,
        -0.1,
        0.5,
        f32::MIN_POSITIVE,
        f32::MAX,
        f32::MIN,
        f32::EPSILON,
        f32::INFINITY,
        f32::NEG_INFINITY,
        f32::NAN,
        -f32::NAN,
        f32::from_bits(0x7f80_0001),
        f32::from_bits(0xffff_ffff),
        f32::from_bits(1),
        f32::from_bits(0x8000_0001),
    ];
    for a in &samples {
        for b in &samples {
            assert_eq!(numbers_equal(a.to_bits(), b.to_bits()), a == b, "{a:?} against {b:?}");
        }
    }
}

#[test]
fn the_two_zeros_are_one_number_and_a_nan_is_none() {
    assert!(numbers_equal(0x0000_0000, 0x8000_0000));
    assert!(!numbers_equal(0x7fc0_0000, 0x7fc0_0000));
    assert!(numbers_equal(0x7f80_0000, 0x7f80_0000));
    assert!(!numbers_equal(0x7f80_0000, 0xff80_0000));
    assert!(!numbers_equal(1, 2));
}

#[test]
fn convergence_differs_as_a_pair_of_floats_does() {
    let pairs: Vec<(f32, f32)> =
        vec![(0.0, 0.0), (-0.0, 0.0), (0.2, -0.1), (0.2, 0.1), (f32::NAN, 0.0), (1.5, 1.5)];
    for a in &pairs {
        for b in &pairs {
            let left = Convergence::from_bits(a.0.to_bits(), a.1.to_bits());
            let right = Convergence::from_bits(b.0.to_bits(), b.1.to_bits());
            assert_eq!(left.differs_from(&right), a != b, "{a:?} against {b:?}");
        }
    }
}
