//! What holds of every graph that the factory plans.

use vstd::prelude::*;

use crate::camera::configuration::{AnaglyphFormat, Configuration, Convergence, VideoCodec};
use crate::camera::factory::{
    anaglyph_change, capture_graph, convergence_changes, eye_transform, file_sink,
    livefeed_graph, recording_path, view_converter, Backend, Eye, LEFT_TRANSFORM,
    RIGHT_TRANSFORM, VIEW_CONVERTER,
};

verus! {

/// A recording's graph has fourteen nodes, all of them linked, and every
/// link joins two of them.
pub proof fn lemma_capture_graph_is_whole(
    configuration: Configuration,
    backend: Backend,
    stamp: Seq<char>,
)
    ensures
        capture_graph(configuration, backend, stamp).nodes.len() == 14,
        capture_graph(configuration, backend, stamp).links.len() == 12,
        capture_graph(configuration, backend, stamp).well_linked(),
        capture_graph(configuration, backend, stamp).connected(),
{
    let graph = capture_graph(configuration, backend, stamp);
    assert forall|node: int| 0 <= node < graph.nodes.len() implies graph.touches(node) by {
        let link: int = if node <= 1 {
            0
        } else if node <= 4 {
            node - 1
        } else if node <= 6 {
            5
        } else if node <= 9 {
            node - 1
        } else if node == 10 {
            4
        } else if node == 11 {
            9
        } else {
            node - 2
        };
        assert(graph.links[link].from == node || graph.links[link].to == node);
    }
}

/// The preview's graph has thirteen nodes, all of them linked, and every
/// link joins two of them.
pub proof fn lemma_livefeed_graph_is_whole(configuration: Configuration, backend: Backend)
    ensures
        livefeed_graph(configuration, backend).nodes.len() == 13,
        livefeed_graph(configuration, backend).links.len() == 12,
        livefeed_graph(configuration, backend).well_linked(),
        livefeed_graph(configuration, backend).connected(),
{
    let graph = livefeed_graph(configuration, backend);
    assert forall|node: int| 0 <= node < graph.nodes.len() implies graph.touches(node) by {
        let link: int = if node <= 1 {
            0
        } else if node <= 3 {
            node - 1
        } else if node <= 5 {
            4
        } else if node <= 8 {
            node - 1
        } else if node == 9 {
            9
        } else if node == 10 {
            8
        } else {
            node - 1
        };
        assert(graph.links[link].from == node || graph.links[link].to == node);
    }
}

/// The two files of one recording are different files.
pub proof fn lemma_recordings_do_not_collide(stamp: Seq<char>, codec: VideoCodec)
    ensures
        recording_path(stamp, Eye::Left, codec) != recording_path(stamp, Eye::Right, codec),
{
    reveal_strlit("left");
    reveal_strlit("right");
    assert(recording_path(stamp, Eye::Left, codec).len() + 1 == recording_path(
        stamp,
        Eye::Right,
        codec,
    ).len());
}

/// The file sinks of a recording stand last in its graph and write to the
/// paths of the two eyes.
pub proof fn lemma_capture_graph_writes_both_eyes(
    configuration: Configuration,
    backend: Backend,
    stamp: Seq<char>,
)
    ensures
        capture_graph(configuration, backend, stamp).nodes[12] == file_sink(
            stamp,
            Eye::Left,
            configuration.codec,
        ),
        capture_graph(configuration, backend, stamp).nodes[13] == file_sink(
            stamp,
            Eye::Right,
            configuration.codec,
        ),
{
}

/// A recording's graph depends on the frame size, rate and layout and on the
/// codec, and on no other setting.
pub proof fn lemma_capture_graph_ignores_the_view(
    a: Configuration,
    b: Configuration,
    backend: Backend,
    stamp: Seq<char>,
)
    requires
        a.width == b.width,
        a.height == b.height,
        a.fps == b.fps,
        a.format == b.format,
        a.codec == b.codec,
    ensures
        capture_graph(a, backend, stamp) == capture_graph(b, backend, stamp),
{
}

/// The preview's graph does not depend on the codec.
pub proof fn lemma_livefeed_graph_ignores_the_codec(
    configuration: Configuration,
    codec: VideoCodec,
    backend: Backend,
)
    ensures
        livefeed_graph(Configuration { codec, ..configuration }, backend) == livefeed_graph(
            configuration,
            backend,
        ),
{
}

/// The handles of the preview point at the two transforms and at the view
/// converter.
pub proof fn lemma_controls_reach_their_nodes(configuration: Configuration, backend: Backend)
    ensures
        livefeed_graph(configuration, backend).nodes[LEFT_TRANSFORM as int] == eye_transform(
            configuration.convergence,
            Eye::Left,
        ),
        livefeed_graph(configuration, backend).nodes[RIGHT_TRANSFORM as int] == eye_transform(
            configuration.convergence,
            Eye::Right,
        ),
        livefeed_graph(configuration, backend).nodes[VIEW_CONVERTER as int] == view_converter(
            configuration,
        ),
{
}

/// Moving a running preview to a new convergence leaves it as the graph that
/// a rebuild with that convergence would give.
pub proof fn lemma_convergence_changes_match_a_rebuild(
    configuration: Configuration,
    backend: Backend,
    convergence: Convergence,
)
    ensures
        livefeed_graph(configuration, backend).updated_all(
            convergence_changes(LEFT_TRANSFORM, RIGHT_TRANSFORM, convergence),
        ) == livefeed_graph(Configuration { convergence, ..configuration }, backend),
{
    reveal_strlit("translation-x");
    reveal_strlit("translation-y");
    assert("translation-x"@[12] != "translation-y"@[12]);
    let changes = convergence_changes(LEFT_TRANSFORM, RIGHT_TRANSFORM, convergence);
    let start = livefeed_graph(configuration, backend);
    let goal = livefeed_graph(Configuration { convergence, ..configuration }, backend);
    let first = start.updated(changes[0]);
    let second = first.updated(changes[1]);
    let third = second.updated(changes[2]);
    let fourth = third.updated(changes[3]);
    assert(changes.skip(1)[0] == changes[1]);
    assert(changes.skip(1).skip(1)[0] == changes[2]);
    assert(changes.skip(1).skip(1).skip(1)[0] == changes[3]);
    assert(changes.skip(1).skip(1).skip(1).skip(1).len() == 0);
    assert(start.updated_all(changes) == fourth) by {
        reveal_with_fuel(crate::camera::graph::GraphPlanView::updated_all, 5);
    }
    assert(fourth.nodes[LEFT_TRANSFORM as int].properties =~= goal.nodes[LEFT_TRANSFORM
        as int].properties);
    assert(fourth.nodes[RIGHT_TRANSFORM as int].properties =~= goal.nodes[RIGHT_TRANSFORM
        as int].properties);
    assert(fourth.nodes =~= goal.nodes);
}

/// Moving a running preview to another anaglyph scheme leaves it as the
/// graph that a rebuild with that scheme would give.
pub proof fn lemma_anaglyph_change_matches_a_rebuild(
    configuration: Configuration,
    backend: Backend,
    format: AnaglyphFormat,
)
    ensures
        livefeed_graph(configuration, backend).updated(anaglyph_change(VIEW_CONVERTER, format))
            == livefeed_graph(Configuration { anaglyph_format: format, ..configuration }, backend),
{
    reveal_strlit("output-mode-override");
    reveal_strlit("downmix-mode");
    assert("output-mode-override"@.len() != "downmix-mode"@.len());
    let start = livefeed_graph(configuration, backend);
    let goal = livefeed_graph(Configuration { anaglyph_format: format, ..configuration }, backend);
    let after = start.updated(anaglyph_change(VIEW_CONVERTER, format));
    assert(after.nodes[VIEW_CONVERTER as int].properties =~= goal.nodes[VIEW_CONVERTER
        as int].properties);
    assert(after.nodes =~= goal.nodes);
}

} // verus!
