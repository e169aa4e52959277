//! The configuration model: a fully populated record, its patch form in which
//! every field is optional, and the merge rule between the two.

use crate::camera::text::same_text;
use vstd::prelude::*;

verus! {

/// Memory layout of the frames that the sensors deliver.
#[derive(Copy, Clone, PartialEq, Eq, Structural, Debug)]
pub enum PixelFormat {
    NV12,
}

impl PixelFormat {
    /// The format's name as it is written in a stream description.
    pub open spec fn name(self) -> Seq<char> {
        match self {
            PixelFormat::NV12 => "NV12"@,
        }
    }

    pub fn to_string(&self) -> (text: String)
        ensures
            text@ == self.name(),
    {
        match self {
            PixelFormat::NV12 => String::from_str("NV12"),
        }
    }
}

impl Default for PixelFormat {
    fn default() -> (format: Self)
        ensures
            format == PixelFormat::NV12,
    {
        PixelFormat::NV12
    }
}

/// Colour scheme used when both eyes are mixed down into one anaglyph image.
#[derive(Copy, Clone, PartialEq, Eq, Structural, Debug)]
pub enum AnaglyphFormat {
    GreenMagenta,
    RedCyan,
    AmberBlue,
}

impl AnaglyphFormat {
    /// The value of the view converter's `downmix-mode` for this scheme.
    pub open spec fn gst_str(self) -> Seq<char> {
        match self {
            AnaglyphFormat::GreenMagenta => "0"@,
            AnaglyphFormat::RedCyan => "1"@,
            AnaglyphFormat::AmberBlue => "2"@,
        }
    }

    pub fn as_gst_str(&self) -> (text: &str)
        ensures
            text@ == self.gst_str(),
    {
        match self {
            AnaglyphFormat::GreenMagenta => "0",
            AnaglyphFormat::RedCyan => "1",
            AnaglyphFormat::AmberBlue => "2",
        }
    }
}

impl Default for AnaglyphFormat {
    fn default() -> (format: Self)
        ensures
            format == AnaglyphFormat::RedCyan,
    {
        AnaglyphFormat::RedCyan
    }
}

/// Encoder used for recordings.
#[derive(Copy, Clone, PartialEq, Eq, Structural, Debug)]
pub enum VideoCodec {
    Prores,
    MotionJpeg,
}

impl Default for VideoCodec {
    fn default() -> (codec: Self)
        ensures
            codec == VideoCodec::MotionJpeg,
    {
        VideoCodec::MotionJpeg
    }
}

/// How the two eyes are packed into the frames of the preview stream.
#[derive(Copy, Clone, PartialEq, Eq, Structural, Debug)]
pub enum MultiviewMode {
    /// No multiview packing is announced.
    Unset,
    Mono,
    Left,
    Right,
    SideBySide,
    SideBySideQuincunx,
    ColumnInterleaved,
    RowInterleaved,
    TopBottom,
    Checkerboard,
    FrameByFrame,
    MultiviewFrameByFrame,
    Separated,
}

/// The error of [`MultiviewMode::deserialize`]: the text names no mode.
#[derive(Copy, Clone, PartialEq, Eq, Debug)]
pub struct InvalidMultiviewMode;

impl InvalidMultiviewMode {
    pub open spec fn text() -> Seq<char> {
        "invalid multiview mode"@
    }

    /// The message that goes with this error.
    pub fn message(&self) -> (message: &'static str)
        ensures
            message@ == Self::text(),
    {
        "invalid multiview mode"
    }
}

impl MultiviewMode {
    /// The name under which the mode travels in a configuration document.
    pub open spec fn wire_name(self) -> Seq<char> {
        match self {
            MultiviewMode::Unset => "none"@,
            MultiviewMode::Mono => "mono"@,
            MultiviewMode::Left => "left"@,
            MultiviewMode::Right => "right"@,
            MultiviewMode::SideBySide => "side-by-side"@,
            MultiviewMode::SideBySideQuincunx => "side-by-side-quincunx"@,
            MultiviewMode::ColumnInterleaved => "column-interleaved"@,
            MultiviewMode::RowInterleaved => "row-interleaved"@,
            MultiviewMode::TopBottom => "top-bottom"@,
            MultiviewMode::Checkerboard => "checkerboard"@,
            MultiviewMode::FrameByFrame => "frame-by-frame"@,
            MultiviewMode::MultiviewFrameByFrame => "multiview-frame-by-frame"@,
            MultiviewMode::Separated => "separated"@,
        }
    }

    /// Writes the mode as its wire name.
    pub fn serialize(&self) -> (name: &'static str)
        ensures
            name@ == self.wire_name(),
    {
        match self {
            MultiviewMode::Unset => "none",
            MultiviewMode::Mono => "mono",
            MultiviewMode::Left => "left",
            MultiviewMode::Right => "right",
            MultiviewMode::SideBySide => "side-by-side",
            MultiviewMode::SideBySideQuincunx => "side-by-side-quincunx",
            MultiviewMode::ColumnInterleaved => "column-interleaved",
            MultiviewMode::RowInterleaved => "row-interleaved",
            MultiviewMode::TopBottom => "top-bottom",
            MultiviewMode::Checkerboard => "checkerboard",
            MultiviewMode::FrameByFrame => "frame-by-frame",
            MultiviewMode::MultiviewFrameByFrame => "multiview-frame-by-frame",
            MultiviewMode::Separated => "separated",
        }
    }

    /// Reads a mode from its wire name. The text is taken as it stands: no
    /// trimming, no folding of case.
    pub fn deserialize(text: &str) -> (parsed: Result<MultiviewMode, InvalidMultiviewMode>)
        ensures
            match parsed {
                Ok(mode) => mode.wire_name() == text@,
                Err(_) => forall|mode: MultiviewMode| mode.wire_name() != text@,
            },
    {
        if same_text(text, "side-by-side") {
            Ok(MultiviewMode::SideBySide)
        } else if same_text(text, "top-bottom") {
            Ok(MultiviewMode::TopBottom)
        } else if same_text(text, "checkerboard") {
            Ok(MultiviewMode::Checkerboard)
        } else if same_text(text, "side-by-side-quincunx") {
            Ok(MultiviewMode::SideBySideQuincunx)
        } else if same_text(text, "column-interleaved") {
            Ok(MultiviewMode::ColumnInterleaved)
        } else if same_text(text, "row-interleaved") {
            Ok(MultiviewMode::RowInterleaved)
        } else if same_text(text, "mono") {
            Ok(MultiviewMode::Mono)
        } else if same_text(text, "left") {
            Ok(MultiviewMode::Left)
        } else if same_text(text, "right") {
            Ok(MultiviewMode::Right)
        } else if same_text(text, "frame-by-frame") {
            Ok(MultiviewMode::FrameByFrame)
        } else if same_text(text, "multiview-frame-by-frame") {
            Ok(MultiviewMode::MultiviewFrameByFrame)
        } else if same_text(text, "separated") {
            Ok(MultiviewMode::Separated)
        } else if same_text(text, "none") {
            Ok(MultiviewMode::Unset)
        } else {
            Err(InvalidMultiviewMode)
        }
    }
}

/// No two modes share a wire name, so a name that reads back as a mode reads
/// back as one mode only.
pub proof fn lemma_wire_names_are_distinct(a: MultiviewMode, b: MultiviewMode)
    requires
        a != b,
    ensures
        a.wire_name() != b.wire_name(),
{
    reveal_strlit("none");
    reveal_strlit("mono");
    reveal_strlit("left");
    reveal_strlit("right");
    reveal_strlit("side-by-side");
    reveal_strlit("side-by-side-quincunx");
    reveal_strlit("column-interleaved");
    reveal_strlit("row-interleaved");
    reveal_strlit("top-bottom");
    reveal_strlit("checkerboard");
    reveal_strlit("frame-by-frame");
    reveal_strlit("multiview-frame-by-frame");
    reveal_strlit("separated");
    if a.wire_name().len() == b.wire_name().len() {
        assert(a.wire_name()[0] != b.wire_name()[0]);
    }
}

/// A mode that is written and read back is the mode that was written.
pub proof fn lemma_wire_name_round_trip(mode: MultiviewMode, read: MultiviewMode)
    requires
        read.wire_name() == mode.wire_name(),
    ensures
        read == mode,
{
    if read != mode {
        lemma_wire_names_are_distinct(read, mode);
    }
}

impl Default for MultiviewMode {
    fn default() -> (mode: Self)
        ensures
            mode == MultiviewMode::Unset,
    {
        MultiviewMode::Unset
    }
}

/// Whether `bits`, read as an IEEE 754 binary32 value, is a NaN.
pub open spec fn encodes_nan(bits: u32) -> bool {
    bits & 0x7fff_ffff > 0x7f80_0000
}

/// Whether `bits`, read as an IEEE 754 binary32 value, is positive or
/// negative zero.
pub open spec fn encodes_zero(bits: u32) -> bool {
    bits & 0x7fff_ffff == 0
}

/// Numeric equality of two IEEE 754 binary32 values given by their bits: a
/// NaN equals nothing, the two zeros equal each other, and every other number
/// has one encoding only.
pub open spec fn same_number(a: u32, b: u32) -> bool {
    &&& !encodes_nan(a)
    &&& !encodes_nan(b)
    &&& (a == b || (encodes_zero(a) && encodes_zero(b)))
}

/// Compares two binary32 values, given by their bits, as numbers.
pub fn numbers_equal(a: u32, b: u32) -> (equal: bool)
    ensures
        equal == same_number(a, b),
{
    let a_magnitude: u32 = a & 0x7fff_ffff;
    let b_magnitude: u32 = b & 0x7fff_ffff;
    if a_magnitude > 0x7f80_0000 || b_magnitude > 0x7f80_0000 {
        false
    } else {
        a == b || (a_magnitude == 0 && b_magnitude == 0)
    }
}

/// Stereo convergence: the horizontal and vertical offset between the eyes.
///
/// Each offset is kept as the bits of an IEEE 754 binary32 number, so that
/// the record stays a plain value; only comparing two offsets looks inside.
#[derive(Copy, Clone, PartialEq, Eq, Structural, Debug)]
pub struct Convergence {
    pub x: u32,
    pub y: u32,
}

impl Convergence {
    /// Both offsets agree as numbers.
    pub open spec fn same_offsets(self, other: Convergence) -> bool {
        same_number(self.x, other.x) && same_number(self.y, other.y)
    }

    /// The offsets from their binary32 encodings.
    pub fn from_bits(x: u32, y: u32) -> (convergence: Convergence)
        ensures
            convergence == (Convergence { x, y }),
    {
        Convergence { x, y }
    }

    /// Whether `other` would move either eye, that is, whether the two
    /// records differ as pairs of numbers.
    pub fn differs_from(&self, other: &Convergence) -> (differs: bool)
        ensures
            differs == !self.same_offsets(*other),
    {
        !(numbers_equal(self.x, other.x) && numbers_equal(self.y, other.y))
    }
}

impl Default for Convergence {
    fn default() -> (convergence: Self)
        ensures
            convergence == (Convergence { x: 0, y: 0 }),
    {
        Convergence { x: 0, y: 0 }
    }
}

/// The camera's settings. Every field is always populated.
#[derive(Copy, Clone, PartialEq, Eq, Debug)]
pub struct Configuration {
    pub width: u16,
    pub height: u16,
    pub fps: u16,
    pub format: PixelFormat,
    pub convergence: Convergence,
    pub multiview_mode: MultiviewMode,
    pub anaglyph_format: AnaglyphFormat,
    pub codec: VideoCodec,
}

/// A partial update of a [`Configuration`]: a field that is absent leaves the
/// setting as it was.
#[derive(Copy, Clone, PartialEq, Eq, Debug)]
pub struct NullableConfiguration {
    pub width: Option<u16>,
    pub height: Option<u16>,
    pub fps: Option<u16>,
    pub format: Option<PixelFormat>,
    pub convergence: Option<Convergence>,
    pub multiview_mode: Option<MultiviewMode>,
    pub anaglyph_format: Option<AnaglyphFormat>,
    pub codec: Option<VideoCodec>,
}

/// The merge rule for one field: the patch wins where it is present.
pub open spec fn patched<T>(patch: Option<T>, prior: T) -> T {
    match patch {
        Some(value) => value,
        None => prior,
    }
}

/// The merge rule for one field of two patches: the later one wins where it
/// is present.
pub open spec fn overlaid<T>(patch: Option<T>, prior: Option<T>) -> Option<T> {
    match patch {
        Some(value) => Some(value),
        None => prior,
    }
}

impl Configuration {
    /// The settings in force before anything was changed.
    pub open spec fn initial() -> Configuration {
        Configuration {
            width: 1280,
            height: 720,
            fps: 60,
            format: PixelFormat::NV12,
            convergence: Convergence { x: 0, y: 0 },
            multiview_mode: MultiviewMode::SideBySide,
            anaglyph_format: AnaglyphFormat::RedCyan,
            codec: VideoCodec::MotionJpeg,
        }
    }

    /// These settings with `patch` laid over them, field by field.
    pub open spec fn merged(self, patch: NullableConfiguration) -> Configuration {
        Configuration {
            width: patched(patch.width, self.width),
            height: patched(patch.height, self.height),
            fps: patched(patch.fps, self.fps),
            format: patched(patch.format, self.format),
            convergence: patched(patch.convergence, self.convergence),
            multiview_mode: patched(patch.multiview_mode, self.multiview_mode),
            anaglyph_format: patched(patch.anaglyph_format, self.anaglyph_format),
            codec: patched(patch.codec, self.codec),
        }
    }

    pub fn merge(&self, other: &NullableConfiguration) -> (merged: Self)
        ensures
            merged == self.merged(*other),
    {
        Configuration {
            width: other.width.unwrap_or(self.width),
            height: other.height.unwrap_or(self.height),
            fps: other.fps.unwrap_or(self.fps),
            format: other.format.unwrap_or(self.format),
            convergence: other.convergence.unwrap_or(self.convergence),
            multiview_mode: other.multiview_mode.unwrap_or(self.multiview_mode),
            anaglyph_format: other.anaglyph_format.unwrap_or(self.anaglyph_format),
            codec: other.codec.unwrap_or(self.codec),
        }
    }
}

impl Default for Configuration {
    fn default() -> (configuration: Self)
        ensures
            configuration == Configuration::initial(),
    {
        Configuration {
            width: 1280,
            height: 720,
            fps: 60,
            format: PixelFormat::NV12,
            convergence: Convergence { x: 0, y: 0 },
            multiview_mode: MultiviewMode::SideBySide,
            anaglyph_format: AnaglyphFormat::RedCyan,
            codec: VideoCodec::MotionJpeg,
        }
    }
}

impl NullableConfiguration {
    /// The patch that changes nothing.
    pub open spec fn empty() -> NullableConfiguration {
        NullableConfiguration {
            width: None,
            height: None,
            fps: None,
            format: None,
            convergence: None,
            multiview_mode: None,
            anaglyph_format: None,
            codec: None,
        }
    }

    /// The patch that sets every field to what `configuration` holds.
    pub open spec fn full(configuration: Configuration) -> NullableConfiguration {
        NullableConfiguration {
            width: Some(configuration.width),
            height: Some(configuration.height),
            fps: Some(configuration.fps),
            format: Some(configuration.format),
            convergence: Some(configuration.convergence),
            multiview_mode: Some(configuration.multiview_mode),
            anaglyph_format: Some(configuration.anaglyph_format),
            codec: Some(configuration.codec),
        }
    }

    /// This patch followed by `patch`, as one patch.
    pub open spec fn merged(self, patch: NullableConfiguration) -> NullableConfiguration {
        NullableConfiguration {
            width: overlaid(patch.width, self.width),
            height: overlaid(patch.height, self.height),
            fps: overlaid(patch.fps, self.fps),
            format: overlaid(patch.format, self.format),
            convergence: overlaid(patch.convergence, self.convergence),
            multiview_mode: overlaid(patch.multiview_mode, self.multiview_mode),
            anaglyph_format: overlaid(patch.anaglyph_format, self.anaglyph_format),
            codec: overlaid(patch.codec, self.codec),
        }
    }

    pub fn merge(&self, other: &NullableConfiguration) -> (merged: Self)
        ensures
            merged == self.merged(*other),
    {
        NullableConfiguration {
            width: later(other.width, self.width),
            height: later(other.height, self.height),
            fps: later(other.fps, self.fps),
            format: later(other.format, self.format),
            convergence: later(other.convergence, self.convergence),
            multiview_mode: later(other.multiview_mode, self.multiview_mode),
            anaglyph_format: later(other.anaglyph_format, self.anaglyph_format),
            codec: later(other.codec, self.codec),
        }
    }
}

fn later<T>(patch: Option<T>, prior: Option<T>) -> (field: Option<T>)
    ensures
        field == overlaid(patch, prior),
{
    match patch {
        Some(value) => Some(value),
        None => prior,
    }
}

impl Default for NullableConfiguration {
    fn default() -> (patch: Self)
        ensures
            patch == NullableConfiguration::empty(),
    {
        NullableConfiguration {
            width: None,
            height: None,
            fps: None,
            format: None,
            convergence: None,
            multiview_mode: None,
            anaglyph_format: None,
            codec: None,
        }
    }
}

impl From<Configuration> for NullableConfiguration {
    fn from(config: Configuration) -> (patch: Self) {
        NullableConfiguration {
            width: Some(config.width),
            height: Some(config.height),
            fps: Some(config.fps),
            format: Some(config.format),
            convergence: Some(config.convergence),
            multiview_mode: Some(config.multiview_mode),
            anaglyph_format: Some(config.anaglyph_format),
            codec: Some(config.codec),
        }
    }
}

impl vstd::std_specs::convert::FromSpecImpl<Configuration> for NullableConfiguration {
    open spec fn obeys_from_spec() -> bool {
        true
    }

    open spec fn from_spec(config: Configuration) -> Self {
        NullableConfiguration::full(config)
    }
}

impl From<NullableConfiguration> for Configuration {
    fn from(config: NullableConfiguration) -> (configuration: Self) {
        let initial = Configuration::default();
        initial.merge(&config)
    }
}

impl vstd::std_specs::convert::FromSpecImpl<NullableConfiguration> for Configuration {
    open spec fn obeys_from_spec() -> bool {
        true
    }

    open spec fn from_spec(config: NullableConfiguration) -> Self {
        Configuration::initial().merged(config)
    }
}

/// Merging a patch in which every field is absent changes nothing.
pub proof fn lemma_merge_empty_is_identity(configuration: Configuration)
    ensures
        configuration.merged(NullableConfiguration::empty()) == configuration,
{
}

/// Each field of a merge depends on that field alone: it is the patch's value
/// where the patch has one, and the prior value otherwise.
pub proof fn lemma_merge_is_fieldwise(configuration: Configuration, patch: NullableConfiguration)
    ensures
        configuration.merged(patch).width == patched(patch.width, configuration.width),
        configuration.merged(patch).height == patched(patch.height, configuration.height),
        configuration.merged(patch).fps == patched(patch.fps, configuration.fps),
        configuration.merged(patch).format == patched(patch.format, configuration.format),
        configuration.merged(patch).convergence == patched(
            patch.convergence,
            configuration.convergence,
        ),
        configuration.merged(patch).multiview_mode == patched(
            patch.multiview_mode,
            configuration.multiview_mode,
        ),
        configuration.merged(patch).anaglyph_format == patched(
            patch.anaglyph_format,
            configuration.anaglyph_format,
        ),
        configuration.merged(patch).codec == patched(patch.codec, configuration.codec),
{
}

/// Merging the full patch of a configuration yields that configuration,
/// whatever stood before.
pub proof fn lemma_merge_full_replaces(prior: Configuration, configuration: Configuration)
    ensures
        prior.merged(NullableConfiguration::full(configuration)) == configuration,
{
}

/// Merging two patches one after the other is merging their overlay.
pub proof fn lemma_merge_composes(
    configuration: Configuration,
    first: NullableConfiguration,
    second: NullableConfiguration,
)
    ensures
        configuration.merged(first).merged(second) == configuration.merged(first.merged(second)),
{
}

} // verus!
