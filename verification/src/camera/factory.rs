//! The pipeline factory: the graph that each mode asks for.
//!
//! Recording runs one chain per eye, from the sensor through an encoder and a
//! container into a file. The live preview runs one chain per eye into a
//! stereo mixer, and from there through a view converter to a network sink.
//! Which graph is built depends on the configuration and on the backend that
//! delivers the frames, and on nothing else.

use vstd::prelude::*;

use crate::camera::clock::{
    description_parses, layout, stamp_shaped, timestamp, ClockError,
};
use crate::camera::configuration::{Configuration, Convergence, AnaglyphFormat, VideoCodec};
use crate::camera::graph::{
    element, filtered_link, plain_link, Caps, CapsField, CapsFieldView, CapsValue,
    CapsValueView, CapsView, GraphPlan, GraphPlanView, Node, NodeView, PropertyView, Update,
    UpdateView, Value, ValueView,
};
use crate::camera::text::{decimal, decimal_text};

verus! {

/// Where the frames come from.
#[derive(Copy, Clone, PartialEq, Eq, Structural, Debug)]
pub enum Backend {
    /// The rig's two hardware sensors.
    Sensors,
    /// Generated test pictures, for machines without the sensors.
    Synthetic,
}

/// One of the two eyes of the rig.
#[derive(Copy, Clone, PartialEq, Eq, Structural, Debug)]
pub enum Eye {
    Left,
    Right,
}

impl Eye {
    /// The number of the sensor behind this eye.
    pub open spec fn sensor(self) -> i32 {
        match self {
            Eye::Left => 0,
            Eye::Right => 1,
        }
    }

    /// The word for this eye in names.
    pub open spec fn tag(self) -> Seq<char> {
        match self {
            Eye::Left => "left"@,
            Eye::Right => "right"@,
        }
    }

    fn sensor_number(&self) -> (number: i32)
        ensures
            number == self.sensor(),
    {
        match self {
            Eye::Left => 0,
            Eye::Right => 1,
        }
    }

    fn tag_text(&self) -> (tag: &'static str)
        ensures
            tag@ == self.tag(),
    {
        match self {
            Eye::Left => "left",
            Eye::Right => "right",
        }
    }

    fn sensor_text(&self) -> (number: &'static str)
        ensures
            number@ == decimal(self.sensor() as nat),
    {
        match self {
            Eye::Left => "0",
            Eye::Right => "1",
        }
    }

    fn source_name(&self) -> (name: &'static str)
        ensures
            name@ == source_label(*self),
    {
        match self {
            Eye::Left => "left_src",
            Eye::Right => "right_src",
        }
    }
}

/// The name of the sensor node of an eye.
pub open spec fn source_label(eye: Eye) -> Seq<char> {
    match eye {
        Eye::Left => "left_src"@,
        Eye::Right => "right_src"@,
    }
}

/// The file extension of the container that goes with a codec.
pub open spec fn extension(codec: VideoCodec) -> Seq<char> {
    match codec {
        VideoCodec::Prores => "mov"@,
        VideoCodec::MotionJpeg => "mkv"@,
    }
}

/// The file that one eye of a recording is written to: in the gallery, named
/// by the moment at which the recording starts and by the eye.
pub open spec fn recording_path(stamp: Seq<char>, eye: Eye, codec: VideoCodec) -> Seq<char> {
    "gallery/"@ + stamp + " "@ + eye.tag() + "."@ + extension(codec)
}

/// The path of the file that one eye of a recording is written to.
pub fn recording_location(stamp: &str, eye: Eye, codec: VideoCodec) -> (path: String)
    ensures
        path@ == recording_path(stamp@, eye, codec),
{
    let mut path = String::from_str("gallery/");
    path.append(stamp);
    path.append(" ");
    path.append(eye.tag_text());
    path.append(".");
    match codec {
        VideoCodec::Prores => path.append("mov"),
        VideoCodec::MotionJpeg => path.append("mkv"),
    }
    path
}

/// The description of the sensors' stream as the hardware backend reads it:
/// frames in device memory, of the configured size, layout and rate.
pub open spec fn device_stream_text(configuration: Configuration) -> Seq<char> {
    "video/x-raw(memory:NVMM),width=(int)"@ + decimal(configuration.width as nat)
        + ",height=(int)"@ + decimal(configuration.height as nat) + ",format=(string)"@
        + configuration.format.name() + ",framerate=(fraction)"@ + decimal(
        configuration.fps as nat,
    ) + "/1"@
}

/// The description of the stream between a source and what follows it.
pub open spec fn source_stream(configuration: Configuration, backend: Backend) -> CapsView {
    match backend {
        Backend::Sensors => CapsView::Parsed(device_stream_text(configuration)),
        Backend::Synthetic => CapsView::Fields {
            media_type: "video/x-raw"@,
            fields: seq![
                CapsFieldView {
                    name: "width"@,
                    value: CapsValueView::Int(configuration.width as i32),
                },
                CapsFieldView {
                    name: "height"@,
                    value: CapsValueView::Int(configuration.height as i32),
                },
                CapsFieldView {
                    name: "format"@,
                    value: CapsValueView::Text(configuration.format.name()),
                },
                CapsFieldView {
                    name: "framerate"@,
                    value: CapsValueView::Fraction(configuration.fps as i32, 1),
                },
            ],
        },
    }
}

fn caps_field(name: &str, value: CapsValue) -> (field: CapsField)
    ensures
        field.deep_view() == (CapsFieldView { name: name@, value: value.deep_view() }),
{
    CapsField { name: String::from_str(name), value }
}

fn source_caps(configuration: &Configuration, backend: Backend) -> (caps: Caps)
    ensures
        caps.deep_view() == source_stream(*configuration, backend),
{
    match backend {
        Backend::Sensors => {
            let mut text = String::from_str("video/x-raw(memory:NVMM),width=(int)");
            text.append(decimal_text(configuration.width).as_str());
            text.append(",height=(int)");
            text.append(decimal_text(configuration.height).as_str());
            text.append(",format=(string)");
            text.append(configuration.format.to_string().as_str());
            text.append(",framerate=(fraction)");
            text.append(decimal_text(configuration.fps).as_str());
            text.append("/1");
            Caps::Parsed(text)
        },
        Backend::Synthetic => {
            let mut fields: Vec<CapsField> = Vec::new();
            fields.push(caps_field("width", CapsValue::Int(configuration.width as i32)));
            fields.push(caps_field("height", CapsValue::Int(configuration.height as i32)));
            fields.push(
                caps_field("format", CapsValue::Text(configuration.format.to_string())),
            );
            fields.push(
                caps_field("framerate", CapsValue::Fraction(configuration.fps as i32, 1)),
            );
            let caps = Caps::Fields { media_type: String::from_str("video/x-raw"), fields };
            assert(fields.deep_view() =~= source_stream(
                *configuration,
                backend,
            )->Fields_fields);
            caps
        },
    }
}

/// The node that delivers the frames of one eye to a recording.
pub open spec fn recording_source(backend: Backend, eye: Eye) -> NodeView {
    match backend {
        Backend::Sensors => element("nvarguscamerasrc"@).named(source_label(eye)).with(
            "sensor_id"@,
            ValueView::Int(eye.sensor()),
        ).with("tnr-mode"@, ValueView::Parsed("0"@)).with(
            "ee-mode"@,
            ValueView::Parsed("0"@),
        ).with("awblock"@, ValueView::Bool(true)),
        Backend::Synthetic => element("videotestsrc"@),
    }
}

/// The node that delivers the frames of one eye to the preview.
pub open spec fn preview_source(backend: Backend, eye: Eye) -> NodeView {
    match backend {
        Backend::Sensors => element("nvarguscamerasrc"@).named(source_label(eye)).with(
            "sensor_id"@,
            ValueView::Parsed(decimal(eye.sensor() as nat)),
        ),
        Backend::Synthetic => element("videotestsrc"@).with(
            "pattern"@,
            ValueView::Parsed("ball"@),
        ).with(
            "motion"@,
            ValueView::Parsed(
                match eye {
                    Eye::Left => "hsweep"@,
                    Eye::Right => "sweep"@,
                },
            ),
        ),
    }
}

/// The node that turns the sensors' frames upright.
pub open spec fn device_converter() -> NodeView {
    element("nvvidconv"@).with("flip-method"@, ValueView::Parsed("2"@))
}

/// The node behind the source of a recording.
pub open spec fn recording_converter(backend: Backend) -> NodeView {
    match backend {
        Backend::Sensors => device_converter(),
        Backend::Synthetic => element("identity"@),
    }
}

/// The node behind the source of the preview.
pub open spec fn preview_converter(backend: Backend) -> NodeView {
    match backend {
        Backend::Sensors => device_converter(),
        Backend::Synthetic => element("videoconvert"@),
    }
}

/// The encoder of a recording.
pub open spec fn encoder(codec: VideoCodec) -> NodeView {
    match codec {
        VideoCodec::Prores => element("avenc_prores"@),
        VideoCodec::MotionJpeg => element("jpegenc"@).with("quality"@, ValueView::Int(95)),
    }
}

/// The container of a recording.
pub open spec fn muxer(codec: VideoCodec) -> NodeView {
    match codec {
        VideoCodec::Prores => element("qtmux"@),
        VideoCodec::MotionJpeg => element("matroskamux"@),
    }
}

/// The node that writes one eye of a recording to its file.
pub open spec fn file_sink(stamp: Seq<char>, eye: Eye, codec: VideoCodec) -> NodeView {
    element("filesink"@).with("location"@, ValueView::Text(recording_path(stamp, eye, codec)))
}

/// The node that shifts the picture of one eye by half the convergence, the
/// left eye one way and the right eye the other.
pub open spec fn eye_transform(convergence: Convergence, eye: Eye) -> NodeView {
    element("gltransformation"@).with(
        "translation-x"@,
        ValueView::HalfOffset { bits: convergence.x, mirrored: eye == Eye::Right },
    ).with(
        "translation-y"@,
        ValueView::HalfOffset { bits: convergence.y, mirrored: eye == Eye::Right },
    )
}

/// The node that turns the mixed stereo frames into the configured view.
pub open spec fn view_converter(configuration: Configuration) -> NodeView {
    element("glviewconvert"@).with(
        "output-mode-override"@,
        ValueView::Multiview(configuration.multiview_mode),
    ).with("downmix-mode"@, ValueView::Parsed(configuration.anaglyph_format.gst_str()))
}

/// The node that sends the preview out.
pub open spec fn network_sink() -> NodeView {
    element("webrtcsink"@).named("sink"@).with("meta"@, ValueView::Parsed("meta"@)).with(
        "congestion-control"@,
        ValueView::Parsed("0"@),
    ).with("stun-server"@, ValueView::Parsed(""@))
}

/// The graph of a recording that starts at the moment written in `stamp`.
///
/// Each eye runs from its source through a converter, a queue, a colour
/// converter and the encoder into its own container and file.
pub open spec fn capture_graph(
    configuration: Configuration,
    backend: Backend,
    stamp: Seq<char>,
) -> GraphPlanView {
    let codec = configuration.codec;
    let stream = source_stream(configuration, backend);
    GraphPlanView {
        nodes: seq![
            recording_source(backend, Eye::Left),
            recording_converter(backend),
            element("queue"@),
            element("videoconvert"@),
            encoder(codec),
            recording_source(backend, Eye::Right),
            recording_converter(backend),
            element("queue"@),
            element("videoconvert"@),
            encoder(codec),
            muxer(codec),
            muxer(codec),
            file_sink(stamp, Eye::Left, codec),
            file_sink(stamp, Eye::Right, codec),
        ],
        links: seq![
            filtered_link(0, 1, stream),
            plain_link(1, 2),
            plain_link(2, 3),
            plain_link(3, 4),
            plain_link(4, 10),
            filtered_link(5, 6, stream),
            plain_link(6, 7),
            plain_link(7, 8),
            plain_link(8, 9),
            plain_link(9, 11),
            plain_link(10, 12),
            plain_link(11, 13),
        ],
    }
}

/// The place of the left eye's transform in the preview's graph.
pub const LEFT_TRANSFORM: usize = 3;

/// The place of the right eye's transform in the preview's graph.
pub const RIGHT_TRANSFORM: usize = 7;

/// The place of the view converter in the preview's graph.
pub const VIEW_CONVERTER: usize = 10;

/// The graph of the live preview.
///
/// Each eye runs from its source through a converter and an upload into its
/// transform; the mixer joins the two, and the view converter, a queue and a
/// download lead to the network sink.
pub open spec fn livefeed_graph(configuration: Configuration, backend: Backend) -> GraphPlanView {
    let stream = source_stream(configuration, backend);
    GraphPlanView {
        nodes: seq![
            preview_source(backend, Eye::Left),
            preview_converter(backend),
            element("glupload"@),
            eye_transform(configuration.convergence, Eye::Left),
            preview_source(backend, Eye::Right),
            preview_converter(backend),
            element("glupload"@),
            eye_transform(configuration.convergence, Eye::Right),
            element("glstereomix"@).named("mix"@),
            element("queue"@).named("name"@),
            view_converter(configuration),
            element("gldownload"@).named("gldownload"@),
            network_sink(),
        ],
        links: seq![
            filtered_link(0, 1, stream),
            plain_link(1, 2),
            plain_link(2, 3),
            plain_link(3, 8),
            filtered_link(4, 5, stream),
            plain_link(5, 6),
            plain_link(6, 7),
            plain_link(7, 8),
            filtered_link(8, 10, CapsView::Parsed("video/x-raw(memory:GLMemory)"@)),
            plain_link(10, 9),
            plain_link(9, 11),
            plain_link(11, 12),
        ],
    }
}

fn make_recording_source(backend: Backend, eye: Eye) -> (node: Node)
    ensures
        node.deep_view() == recording_source(backend, eye),
{
    match backend {
        Backend::Sensors => Node::new("nvarguscamerasrc").named(eye.source_name()).with(
            "sensor_id",
            Value::Int(eye.sensor_number()),
        ).with_parsed("tnr-mode", "0").with_parsed("ee-mode", "0").with(
            "awblock",
            Value::Bool(true),
        ),
        Backend::Synthetic => Node::new("videotestsrc"),
    }
}

fn make_preview_source(backend: Backend, eye: Eye) -> (node: Node)
    ensures
        node.deep_view() == preview_source(backend, eye),
{
    match backend {
        Backend::Sensors => Node::new("nvarguscamerasrc").named(eye.source_name()).with_parsed(
            "sensor_id",
            eye.sensor_text(),
        ),
        Backend::Synthetic => {
            let motion = match eye {
                Eye::Left => "hsweep",
                Eye::Right => "sweep",
            };
            Node::new("videotestsrc").with_parsed("pattern", "ball").with_parsed("motion", motion)
        },
    }
}

fn make_recording_converter(backend: Backend) -> (node: Node)
    ensures
        node.deep_view() == recording_converter(backend),
{
    match backend {
        Backend::Sensors => Node::new("nvvidconv").with_parsed("flip-method", "2"),
        Backend::Synthetic => Node::new("identity"),
    }
}

fn make_preview_converter(backend: Backend) -> (node: Node)
    ensures
        node.deep_view() == preview_converter(backend),
{
    match backend {
        Backend::Sensors => Node::new("nvvidconv").with_parsed("flip-method", "2"),
        Backend::Synthetic => Node::new("videoconvert"),
    }
}

fn make_encoder(codec: VideoCodec) -> (node: Node)
    ensures
        node.deep_view() == encoder(codec),
{
    match codec {
        VideoCodec::Prores => Node::new("avenc_prores"),
        VideoCodec::MotionJpeg => Node::new("jpegenc").with("quality", Value::Int(95)),
    }
}

fn make_muxer(codec: VideoCodec) -> (node: Node)
    ensures
        node.deep_view() == muxer(codec),
{
    match codec {
        VideoCodec::Prores => Node::new("qtmux"),
        VideoCodec::MotionJpeg => Node::new("matroskamux"),
    }
}

fn make_file_sink(stamp: &str, eye: Eye, codec: VideoCodec) -> (node: Node)
    ensures
        node.deep_view() == file_sink(stamp@, eye, codec),
{
    Node::new("filesink").with("location", Value::Text(recording_location(stamp, eye, codec)))
}

fn make_eye_transform(convergence: Convergence, eye: Eye) -> (node: Node)
    ensures
        node.deep_view() == eye_transform(convergence, eye),
{
    let mirrored = match eye {
        Eye::Left => false,
        Eye::Right => true,
    };
    Node::new("gltransformation").with(
        "translation-x",
        Value::HalfOffset { bits: convergence.x, mirrored },
    ).with("translation-y", Value::HalfOffset { bits: convergence.y, mirrored })
}

fn make_view_converter(configuration: &Configuration) -> (node: Node)
    ensures
        node.deep_view() == view_converter(*configuration),
{
    Node::new("glviewconvert").with(
        "output-mode-override",
        Value::Multiview(configuration.multiview_mode),
    ).with_parsed("downmix-mode", configuration.anaglyph_format.as_gst_str())
}

fn make_network_sink() -> (node: Node)
    ensures
        node.deep_view() == network_sink(),
{
    Node::new("webrtcsink").named("sink").with_parsed("meta", "meta").with_parsed(
        "congestion-control",
        "0",
    ).with_parsed("stun-server", "")
}

/// Plans the graph of a recording that starts at the moment written in
/// `stamp`.
pub fn capture_plan(configuration: &Configuration, backend: Backend, stamp: &str) -> (plan:
    GraphPlan)
    ensures
        plan@ == capture_graph(*configuration, backend, stamp@),
{
    let codec = configuration.codec;
    let mut plan = GraphPlan::new();
    let left_src = plan.add(make_recording_source(backend, Eye::Left));
    let left_conv = plan.add(make_recording_converter(backend));
    let left_queue = plan.add(Node::new("queue"));
    let left_videoconvert = plan.add(Node::new("videoconvert"));
    let left_enc = plan.add(make_encoder(codec));
    let right_src = plan.add(make_recording_source(backend, Eye::Right));
    let right_conv = plan.add(make_recording_converter(backend));
    let right_queue = plan.add(Node::new("queue"));
    let right_videoconvert = plan.add(Node::new("videoconvert"));
    let right_enc = plan.add(make_encoder(codec));
    let left_mux = plan.add(make_muxer(codec));
    let right_mux = plan.add(make_muxer(codec));
    let left_sink = plan.add(make_file_sink(stamp, Eye::Left, codec));
    let right_sink = plan.add(make_file_sink(stamp, Eye::Right, codec));

    plan.link_filtered(left_src, left_conv, source_caps(configuration, backend));
    plan.link(left_conv, left_queue);
    plan.link(left_queue, left_videoconvert);
    plan.link(left_videoconvert, left_enc);
    plan.link(left_enc, left_mux);

    plan.link_filtered(right_src, right_conv, source_caps(configuration, backend));
    plan.link(right_conv, right_queue);
    plan.link(right_queue, right_videoconvert);
    plan.link(right_videoconvert, right_enc);
    plan.link(right_enc, right_mux);

    plan.link(left_mux, left_sink);
    plan.link(right_mux, right_sink);
    proof {
        let graph = capture_graph(*configuration, backend, stamp@);
        assert(plan@.nodes =~= graph.nodes);
        assert(plan@.links =~= graph.links);
    }
    plan
}

/// Plans the graph of the live preview.
pub fn livefeed_plan(configuration: &Configuration, backend: Backend) -> (plan: GraphPlan)
    ensures
        plan@ == livefeed_graph(*configuration, backend),
{
    let mut plan = GraphPlan::new();
    let left_src = plan.add(make_preview_source(backend, Eye::Left));
    let left_conv = plan.add(make_preview_converter(backend));
    let left_glupload = plan.add(Node::new("glupload"));
    let left_transform = plan.add(make_eye_transform(configuration.convergence, Eye::Left));
    let right_src = plan.add(make_preview_source(backend, Eye::Right));
    let right_conv = plan.add(make_preview_converter(backend));
    let right_glupload = plan.add(Node::new("glupload"));
    let right_transform = plan.add(make_eye_transform(configuration.convergence, Eye::Right));
    let mix = plan.add(Node::new("glstereomix").named("mix"));
    let queue = plan.add(Node::new("queue").named("name"));
    let glviewconvert = plan.add(make_view_converter(configuration));
    let gldownload = plan.add(Node::new("gldownload").named("gldownload"));
    let sink = plan.add(make_network_sink());

    plan.link_filtered(left_src, left_conv, source_caps(configuration, backend));
    plan.link(left_conv, left_glupload);
    plan.link(left_glupload, left_transform);
    plan.link(left_transform, mix);

    plan.link_filtered(right_src, right_conv, source_caps(configuration, backend));
    plan.link(right_conv, right_glupload);
    plan.link(right_glupload, right_transform);
    plan.link(right_transform, mix);

    plan.link_filtered(
        mix,
        glviewconvert,
        Caps::Parsed(String::from_str("video/x-raw(memory:GLMemory)")),
    );
    plan.link(glviewconvert, queue);
    plan.link(queue, gldownload);
    plan.link(gldownload, sink);
    proof {
        let graph = livefeed_graph(*configuration, backend);
        assert(plan@.nodes =~= graph.nodes);
        assert(plan@.links =~= graph.links);
    }
    plan
}

/// The handles into a running graph through which it can be adjusted while
/// it runs. Each handle is the place of a node in the graph's plan.
#[derive(Copy, Clone, PartialEq, Eq, Structural, Debug)]
pub enum Controls {
    /// A recording has nothing to adjust.
    Capture,
    /// The preview can be adjusted at the transform of each eye and at the
    /// view converter.
    Livefeed { left_transform: usize, right_transform: usize, glviewconvert: usize },
}

impl Controls {
    /// The handles into the graph that [`livefeed_graph`] describes.
    pub open spec fn of_livefeed() -> Controls {
        Controls::Livefeed {
            left_transform: LEFT_TRANSFORM,
            right_transform: RIGHT_TRANSFORM,
            glviewconvert: VIEW_CONVERTER,
        }
    }

    /// The handles into a preview graph that [`livefeed_plan`] planned.
    pub fn livefeed() -> (controls: Controls)
        ensures
            controls == Controls::of_livefeed(),
    {
        Controls::Livefeed {
            left_transform: LEFT_TRANSFORM,
            right_transform: RIGHT_TRANSFORM,
            glviewconvert: VIEW_CONVERTER,
        }
    }
}

/// A mode in which a graph runs.
#[derive(Copy, Clone, PartialEq, Eq, Structural, Debug)]
pub enum Mode {
    Capture,
    Livefeed,
}

impl Mode {
    /// The handles into a graph of this mode.
    pub open spec fn controls(self) -> Controls {
        match self {
            Mode::Capture => Controls::Capture,
            Mode::Livefeed => Controls::of_livefeed(),
        }
    }

    /// The handles into a graph that [`plan`] planned for this mode.
    pub fn handles(self) -> (controls: Controls)
        ensures
            controls == self.controls(),
    {
        match self {
            Mode::Capture => Controls::Capture,
            Mode::Livefeed => Controls::livefeed(),
        }
    }
}

/// The changes that move a running preview to a new convergence: both
/// offsets at the left transform, then both at the right one.
pub open spec fn convergence_changes(
    left_transform: usize,
    right_transform: usize,
    convergence: Convergence,
) -> Seq<UpdateView> {
    seq![
        UpdateView {
            node: left_transform,
            property: PropertyView {
                name: "translation-x"@,
                value: ValueView::HalfOffset { bits: convergence.x, mirrored: false },
            },
        },
        UpdateView {
            node: left_transform,
            property: PropertyView {
                name: "translation-y"@,
                value: ValueView::HalfOffset { bits: convergence.y, mirrored: false },
            },
        },
        UpdateView {
            node: right_transform,
            property: PropertyView {
                name: "translation-x"@,
                value: ValueView::HalfOffset { bits: convergence.x, mirrored: true },
            },
        },
        UpdateView {
            node: right_transform,
            property: PropertyView {
                name: "translation-y"@,
                value: ValueView::HalfOffset { bits: convergence.y, mirrored: true },
            },
        },
    ]
}

/// The change that moves a running preview to another anaglyph scheme.
pub open spec fn anaglyph_change(glviewconvert: usize, format: AnaglyphFormat) -> UpdateView {
    UpdateView {
        node: glviewconvert,
        property: PropertyView {
            name: "downmix-mode"@,
            value: ValueView::Parsed(format.gst_str()),
        },
    }
}

/// Lists the changes that move a running preview to a new convergence.
pub fn convergence_updates(
    left_transform: usize,
    right_transform: usize,
    convergence: Convergence,
) -> (updates: Vec<Update>)
    ensures
        updates.deep_view() == convergence_changes(left_transform, right_transform, convergence),
{
    let mut updates: Vec<Update> = Vec::new();
    updates.push(
        Update::new(
            left_transform,
            "translation-x",
            Value::HalfOffset { bits: convergence.x, mirrored: false },
        ),
    );
    updates.push(
        Update::new(
            left_transform,
            "translation-y",
            Value::HalfOffset { bits: convergence.y, mirrored: false },
        ),
    );
    updates.push(
        Update::new(
            right_transform,
            "translation-x",
            Value::HalfOffset { bits: convergence.x, mirrored: true },
        ),
    );
    updates.push(
        Update::new(
            right_transform,
            "translation-y",
            Value::HalfOffset { bits: convergence.y, mirrored: true },
        ),
    );
    assert(updates.deep_view() =~= convergence_changes(
        left_transform,
        right_transform,
        convergence,
    ));
    updates
}

/// Gives the change that moves a running preview to another anaglyph
/// scheme.
pub fn anaglyph_update(glviewconvert: usize, format: AnaglyphFormat) -> (update: Update)
    ensures
        update.deep_view() == anaglyph_change(glviewconvert, format),
{
    Update::new(
        glviewconvert,
        "downmix-mode",
        Value::Parsed(String::from_str(format.as_gst_str())),
    )
}

/// Plans the graph of a recording that starts now.
///
/// The moment is read from the clock, so the plan is the one that
/// [`capture_plan`] makes for some text of the shape of a timestamp; without
/// a timestamp there is no plan.
pub fn capture_plan_now(configuration: &Configuration, backend: Backend) -> (plan: Result<
    GraphPlan,
    ClockError,
>)
    ensures
        match plan {
            Ok(plan) => description_parses(layout()) && exists|stamp: Seq<char>|
                stamp_shaped(stamp) && plan@ == #[trigger] capture_graph(
                    *configuration,
                    backend,
                    stamp,
                ),
            Err(error) => error == ClockError::Description <==> !description_parses(layout()),
        },
{
    match timestamp() {
        Ok(stamp) => {
            let plan = capture_plan(configuration, backend, stamp.as_str());
            assert(stamp_shaped(stamp@) && plan@ == capture_graph(
                *configuration,
                backend,
                stamp@,
            ));
            Ok(plan)
        },
        Err(error) => Err(error),
    }
}

/// Plans the graph of a mode that is entered now.
///
/// The graph of the preview is the one that [`livefeed_plan`] makes, and
/// there always is one. The graph of a recording is the one that
/// [`capture_plan`] makes for the timestamp that the clock gives, so there
/// is one only if the clock gives a timestamp.
pub fn plan(mode: Mode, configuration: &Configuration, backend: Backend) -> (plan: Result<
    GraphPlan,
    ClockError,
>)
    ensures
        match mode {
            Mode::Livefeed => match plan {
                Ok(plan) => plan@ == livefeed_graph(*configuration, backend),
                Err(_) => false,
            },
            Mode::Capture => match plan {
                Ok(plan) => description_parses(layout()) && exists|stamp: Seq<char>|
                    stamp_shaped(stamp) && plan@ == #[trigger] capture_graph(
                        *configuration,
                        backend,
                        stamp,
                    ),
                Err(error) => error == ClockError::Description <==> !description_parses(
                    layout(),
                ),
            },
        },
{
    match mode {
        Mode::Capture => capture_plan_now(configuration, backend),
        Mode::Livefeed => Ok(livefeed_plan(configuration, backend)),
    }
}

} // verus!
