//! What holds of the orchestrator, whatever it is fed.

use vstd::prelude::*;

use crate::camera::actor::{
    live_commands, restart_required, ActorView, CameraActorMessage, CameraState, Command,
    GraphEvent, Input, Next, Phase,
};
use crate::camera::configuration::NullableConfiguration;
use crate::camera::factory::{Backend, Controls, Mode};

verus! {

/// Whether a command is the order to bring up a graph.
pub open spec fn is_build(command: Command) -> bool {
    command is Build
}

/// Whether a command is one of those that retire a graph.
pub open spec fn is_retirement(command: Command) -> bool {
    command is SendEos || command is ForceStop || command is Release
}

/// The graph that a command is about, if it is about one.
pub open spec fn graph_of(command: Command) -> Option<u64> {
    match command {
        Command::SetConvergence { graph, .. } => Some(graph),
        Command::SetAnaglyph { graph, .. } => Some(graph),
        Command::SendEos { graph } => Some(graph),
        Command::ForceStop { graph } => Some(graph),
        Command::Release { graph } => Some(graph),
        Command::Build { graph, .. } => Some(graph),
        _ => None,
    }
}

/// The inputs of one whole change of graph, as they come where nothing
/// fails: the message that asks for it; if a graph runs, the end of its
/// drain, its stop and its release; and the word that the new graph is up.
pub open spec fn change_of_graph(
    message: CameraActorMessage,
    graph_runs: bool,
    drain: GraphEvent,
) -> Seq<Input> {
    if graph_runs {
        seq![
            Input::Message(message),
            Input::Event(drain),
            Input::Event(GraphEvent::Stopped),
            Input::Event(GraphEvent::Released),
            Input::Event(GraphEvent::Built),
        ]
    } else {
        seq![Input::Message(message), Input::Event(GraphEvent::Built)]
    }
}

/// Whether an event ends the wait for a graph to drain.
pub open spec fn ends_drain(event: GraphEvent) -> bool {
    event == GraphEvent::EosObserved || event == GraphEvent::ErrorObserved || event
        == GraphEvent::TimeoutElapsed
}

/// A run that is continued by one input ends where that input leads.
pub proof fn lemma_run_continues(actor: ActorView, inputs: Seq<Input>, input: Input)
    ensures
        actor.run(inputs.push(input)) == actor.run(inputs).next(input).0,
{
    assert(inputs.push(input).drop_last() =~= inputs);
}

/// No input breaks the actor: after it there are handles exactly while there
/// is a graph, they are those of the camera's state, and the actor waits for
/// a retirement only while it holds a graph and for a new graph only while it
/// holds none.
pub proof fn lemma_input_keeps_consistency(actor: ActorView, input: Input)
    requires
        actor.consistent(),
    ensures
        actor.next(input).0.consistent(),
{
}

/// Whatever the actor is fed from its start, in whatever order: it never
/// holds more than the one graph it names, and its handles are always those
/// of its state.
pub proof fn lemma_every_run_is_consistent(backend: Backend, inputs: Seq<Input>)
    ensures
        ActorView::initial(backend).run(inputs).consistent(),
        ActorView::initial(backend).run(inputs).controls_match_state(),
    decreases inputs.len(),
{
    if inputs.len() > 0 {
        lemma_every_run_is_consistent(backend, inputs.drop_last());
        lemma_input_keeps_consistency(
            ActorView::initial(backend).run(inputs.drop_last()),
            inputs.last(),
        );
    }
}

/// A new graph is ordered only by an actor that holds none: either it held
/// none before, or the input was the word that its graph is released. The new
/// graph is not the one that went before it.
pub proof fn lemma_graph_is_ordered_only_when_none_runs(actor: ActorView, input: Input, i: int)
    requires
        actor.consistent(),
        0 <= i < actor.next(input).1.len(),
        is_build(actor.next(input).1[i]),
    ensures
        actor.next(input).0.graph.is_none(),
        actor.next(input).0.phase is Building,
        actor.graph.is_some() ==> input == Input::Event(GraphEvent::Released),
        graph_of(actor.next(input).1[i]) == Some(actor.next(input).0.generation),
        actor.next(input).0.generation != actor.generation,
{
}

/// Every command that changes or retires a graph is about the graph that
/// runs.
pub proof fn lemma_commands_address_the_running_graph(actor: ActorView, input: Input, i: int)
    requires
        actor.consistent(),
        0 <= i < actor.next(input).1.len(),
        !is_build(actor.next(input).1[i]),
        graph_of(actor.next(input).1[i]).is_some(),
    ensures
        graph_of(actor.next(input).1[i]) == actor.graph,
{
}

/// The actor never has a graph stopped cold: it orders the stop only when
/// word comes that the graph, to which the end-of-stream marker was sent, has
/// drained or has run out of time; and it lets go of a graph only when word
/// comes that the graph has stopped.
pub proof fn lemma_actor_stops_only_after_drain(actor: ActorView, input: Input, i: int)
    requires
        actor.consistent(),
        0 <= i < actor.next(input).1.len(),
    ensures
        actor.next(input).1[i] is ForceStop ==> {
            &&& actor.phase is Retiring
            &&& actor.phase->stage == crate::camera::retire::Retirement::EosSent
            &&& input is Event
            &&& ends_drain(input->Event_0)
        },
        actor.next(input).1[i] is Release ==> {
            &&& actor.phase is Retiring
            &&& (actor.phase->stage == crate::camera::retire::Retirement::Drained
                || actor.phase->stage == crate::camera::retire::Retirement::TimedOut)
            &&& input == Input::Event(GraphEvent::Stopped)
        },
{
}

/// A request to record that reaches a recording camera changes nothing and
/// orders nothing; the same goes for the preview.
pub proof fn lemma_start_is_idempotent(actor: ActorView)
    requires
        actor.phase == Phase::Ready,
    ensures
        actor.state == CameraState::Capture ==> actor.next(
            Input::Message(CameraActorMessage::StartCapture),
        ) == (actor, Seq::<Command>::empty()),
        actor.state == CameraState::Livefeed ==> actor.next(
            Input::Message(CameraActorMessage::StartLivefeed),
        ) == (actor, Seq::<Command>::empty()),
{
}

/// The message that asks for a mode.
pub open spec fn start_of(mode: Mode) -> CameraActorMessage {
    match mode {
        Mode::Capture => CameraActorMessage::StartCapture,
        Mode::Livefeed => CameraActorMessage::StartLivefeed,
    }
}

proof fn lemma_change_of_graph_runs(
    actor: ActorView,
    message: CameraActorMessage,
    drain: GraphEvent,
)
    ensures
        actor.graph.is_some() ==> actor.run(change_of_graph(message, true, drain)) == actor.next(
            Input::Message(message),
        ).0.next(Input::Event(drain)).0.next(Input::Event(GraphEvent::Stopped)).0.next(
            Input::Event(GraphEvent::Released),
        ).0.next(Input::Event(GraphEvent::Built)).0,
        actor.graph.is_none() ==> actor.run(change_of_graph(message, false, drain)) == actor.next(
            Input::Message(message),
        ).0.next(Input::Event(GraphEvent::Built)).0,
{
    let none = Seq::<Input>::empty();
    assert(actor.run(none) == actor);
    lemma_run_continues(actor, none, Input::Message(message));
    let one = none.push(Input::Message(message));
    lemma_run_continues(actor, one, Input::Event(GraphEvent::Built));
    lemma_run_continues(actor, one, Input::Event(drain));
    let two = one.push(Input::Event(drain));
    lemma_run_continues(actor, two, Input::Event(GraphEvent::Stopped));
    let three = two.push(Input::Event(GraphEvent::Stopped));
    lemma_run_continues(actor, three, Input::Event(GraphEvent::Released));
    let four = three.push(Input::Event(GraphEvent::Released));
    lemma_run_continues(actor, four, Input::Event(GraphEvent::Built));
    assert(change_of_graph(message, false, drain) =~= one.push(Input::Event(GraphEvent::Built)));
    assert(change_of_graph(message, true, drain) =~= four.push(Input::Event(GraphEvent::Built)));
}

/// A request for a mode that the camera is not in, taken by an actor that
/// waits for a message and followed through without a failure, leaves the
/// camera in that mode, with a new graph, the handles of the mode and the
/// settings it had. A second request for the same mode then orders nothing.
pub proof fn lemma_start_reaches_its_mode(actor: ActorView, mode: Mode, drain: GraphEvent)
    requires
        actor.consistent(),
        actor.phase == Phase::Ready,
        actor.state != mode.state(),
        ends_drain(drain),
    ensures
        ({
            let after = actor.run(change_of_graph(start_of(mode), actor.graph.is_some(), drain));
            &&& after.phase == Phase::Ready
            &&& after.state == mode.state()
            &&& after.controls == Some(mode.controls())
            &&& after.graph.is_some()
            &&& after.graph != actor.graph
            &&& after.configuration == actor.configuration
            &&& after.next(Input::Message(start_of(mode))) == (after, Seq::<Command>::empty())
        }),
{
    lemma_change_of_graph_runs(actor, start_of(mode), drain);
}

/// While one graph gives way to another, the old one is retired in full
/// before the new one is ordered: the request sends the end-of-stream marker
/// and nothing else; the end of the drain forces the stop; the stop lets the
/// resources go; and only their release orders the new graph.
pub proof fn lemma_retirement_precedes_build(actor: ActorView, mode: Mode, drain: GraphEvent)
    requires
        actor.consistent(),
        actor.phase == Phase::Ready,
        actor.state != mode.state(),
        actor.graph.is_some(),
        ends_drain(drain),
    ensures
        ({
            let graph = actor.graph->0;
            let asked = actor.next(Input::Message(start_of(mode)));
            let drained = asked.0.next(Input::Event(drain));
            let stopped = drained.0.next(Input::Event(GraphEvent::Stopped));
            let released = stopped.0.next(Input::Event(GraphEvent::Released));
            &&& asked.1 == seq![Command::SendEos { graph }]
            &&& drained.1 == seq![Command::ForceStop { graph }]
            &&& stopped.1 == seq![Command::Release { graph }]
            &&& stopped.0.graph == Some(graph)
            &&& released.0.graph.is_none()
            &&& released.1 == seq![
                Command::Build {
                    graph: released.0.generation,
                    mode,
                    configuration: actor.configuration,
                    backend: actor.backend,
                },
            ]
        }),
{
}

/// A graph that cannot be brought up leaves the camera idle and without a
/// graph, ready for the next message, and the failure is reported.
pub proof fn lemma_failed_build_leaves_idle(actor: ActorView, mode: Mode)
    requires
        actor.consistent(),
        actor.phase == (Phase::Building { mode }),
    ensures
        ({
            let after = actor.next(Input::Event(GraphEvent::BuildFailed));
            &&& after.0.phase == Phase::Ready
            &&& after.0.state == CameraState::Idle
            &&& after.0.graph.is_none()
            &&& after.0.controls.is_none()
            &&& after.0.configuration == actor.configuration
            &&& after.1 == seq![Command::ReportFailure { mode }]
        }),
{
}

/// A patch is stored whatever the camera is doing: an actor that takes it
/// holds the merged settings from then on.
pub proof fn lemma_patch_is_always_stored(actor: ActorView, patch: NullableConfiguration)
    requires
        actor.phase == Phase::Ready,
    ensures
        actor.next(Input::Message(CameraActorMessage::SetConfiguration(patch))).0.configuration
            == actor.configuration.merged(patch),
{
}

/// Without a running preview a patch touches no graph: it orders nothing and
/// the actor stays as it is but for its settings.
pub proof fn lemma_patch_without_preview_orders_nothing(
    actor: ActorView,
    patch: NullableConfiguration,
)
    requires
        actor.consistent(),
        actor.phase == Phase::Ready,
        actor.state != CameraState::Livefeed,
    ensures
        actor.next(Input::Message(CameraActorMessage::SetConfiguration(patch))) == (
            ActorView { configuration: actor.configuration.merged(patch), ..actor },
            Seq::<Command>::empty(),
        ),
{
}

/// A patch that moves only the convergence or the anaglyph scheme never
/// interrupts a running preview: the graph stays the one it was, the camera
/// stays in the preview and ready, and the only commands are the changes in
/// place.
pub proof fn lemma_live_patch_keeps_the_graph(actor: ActorView, patch: NullableConfiguration)
    requires
        actor.consistent(),
        actor.phase == Phase::Ready,
        actor.state == CameraState::Livefeed,
        !restart_required(patch, actor.configuration),
    ensures
        ({
            let after = actor.next(Input::Message(CameraActorMessage::SetConfiguration(patch)));
            &&& after.0 == ActorView { configuration: actor.configuration.merged(patch), ..actor }
            &&& after.0.graph == actor.graph
            &&& after.1 == live_commands(
                actor.graph->0,
                Controls::of_livefeed()->left_transform,
                Controls::of_livefeed()->right_transform,
                Controls::of_livefeed()->glviewconvert,
                patch,
                actor.configuration,
            )
            &&& forall|i: int|
                0 <= i < after.1.len() ==> !is_build(#[trigger] after.1[i]) && !is_retirement(
                    after.1[i],
                )
        }),
{
}

/// A patch that changes the size, rate or layout of the frames, the
/// multiview mode or the codec always rebuilds a running preview, whatever
/// else it holds: once the change has run its course the camera is in the
/// preview again, with another graph than before and with the merged
/// settings.
pub proof fn lemma_restart_patch_rebuilds_the_graph(
    actor: ActorView,
    patch: NullableConfiguration,
    drain: GraphEvent,
)
    requires
        actor.consistent(),
        actor.phase == Phase::Ready,
        actor.state == CameraState::Livefeed,
        restart_required(patch, actor.configuration),
        ends_drain(drain),
    ensures
        ({
            let asked = actor.next(Input::Message(CameraActorMessage::SetConfiguration(patch)));
            let after = actor.run(
                change_of_graph(CameraActorMessage::SetConfiguration(patch), true, drain),
            );
            &&& asked.0.phase == (Phase::Retiring {
                stage: crate::camera::retire::Retirement::EosSent,
                then: Next::Build(Mode::Livefeed),
            })
            &&& asked.1.last() == (Command::SendEos { graph: actor.graph->0 })
            &&& after.phase == Phase::Ready
            &&& after.state == CameraState::Livefeed
            &&& after.controls == Some(Controls::of_livefeed())
            &&& after.graph.is_some()
            &&& after.graph != actor.graph
            &&& after.configuration == actor.configuration.merged(patch)
        }),
{
    lemma_change_of_graph_runs(actor, CameraActorMessage::SetConfiguration(patch), drain);
}

/// The graph that a rebuild orders is planned from the merged settings.
pub proof fn lemma_rebuild_uses_the_merged_settings(
    actor: ActorView,
    patch: NullableConfiguration,
    drain: GraphEvent,
)
    requires
        actor.consistent(),
        actor.phase == Phase::Ready,
        actor.state == CameraState::Livefeed,
        restart_required(patch, actor.configuration),
        ends_drain(drain),
    ensures
        ({
            let released = actor.next(
                Input::Message(CameraActorMessage::SetConfiguration(patch)),
            ).0.next(Input::Event(drain)).0.next(Input::Event(GraphEvent::Stopped)).0.next(
                Input::Event(GraphEvent::Released),
            );
            released.1 == seq![
                Command::Build {
                    graph: released.0.generation,
                    mode: Mode::Livefeed,
                    configuration: actor.configuration.merged(patch),
                    backend: actor.backend,
                },
            ]
        }),
{
}

/// A shutdown closes the mailbox at once and retires the running graph.
/// Once that has run its course the camera is idle and holds nothing; from
/// then on the actor answers questions about its state and its settings, and
/// every other message changes nothing and orders nothing.
pub proof fn lemma_shutdown_is_final(
    actor: ActorView,
    drain: GraphEvent,
    later: CameraActorMessage,
)
    requires
        actor.consistent(),
        actor.phase == Phase::Ready,
        ends_drain(drain),
    ensures
        ({
            let asked = actor.next(Input::Message(CameraActorMessage::Shutdown));
            let after = if actor.graph.is_some() {
                asked.0.next(Input::Event(drain)).0.next(Input::Event(GraphEvent::Stopped)).0.next(
                    Input::Event(GraphEvent::Released),
                ).0
            } else {
                asked.0
            };
            &&& asked.1[0] == Command::CloseMailbox
            &&& after.phase == Phase::Closed
            &&& after.state == CameraState::Idle
            &&& after.graph.is_none()
            &&& after.controls.is_none()
            &&& after.configuration == actor.configuration
            &&& after.next(Input::Message(later)).0 == after
            &&& after.next(Input::Message(later)).1 == match later {
                CameraActorMessage::GetState => seq![Command::ReplyState(CameraState::Idle)],
                CameraActorMessage::GetConfiguration => seq![
                    Command::ReplyConfiguration(actor.configuration),
                ],
                _ => Seq::<Command>::empty(),
            }
        }),
{
}

/// While a change of graph is under way the actor takes no message.
pub proof fn lemma_busy_actor_takes_no_message(actor: ActorView, message: CameraActorMessage)
    requires
        actor.phase is Retiring || actor.phase is Building,
    ensures
        actor.next(Input::Message(message)) == (actor, Seq::<Command>::empty()),
{
}

/// The actor answers a question about its state or its settings with what
/// it holds, and stays as it is.
pub proof fn lemma_questions_change_nothing(actor: ActorView)
    requires
        actor.phase == Phase::Ready || actor.phase == Phase::Closed,
    ensures
        actor.next(Input::Message(CameraActorMessage::GetState)) == (
            actor,
            seq![Command::ReplyState(actor.state)],
        ),
        actor.next(Input::Message(CameraActorMessage::GetConfiguration)) == (
            actor,
            seq![Command::ReplyConfiguration(actor.configuration)],
        ),
{
}

} // verus!
