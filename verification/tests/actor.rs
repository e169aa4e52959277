use stereo_camera::camera::actor::{
    CameraActor, CameraActorMessage, CameraState, Command, GraphEvent, Phase, RunningGraph,
};
use stereo_camera::camera::configuration::{
    AnaglyphFormat, Configuration, Convergence, MultiviewMode, NullableConfiguration,
    PixelFormat, VideoCodec,
};
use stereo_camera::camera::factory::{
    Backend, Controls, Mode, LEFT_TRANSFORM, RIGHT_TRANSFORM, VIEW_CONVERTER,
};
use stereo_camera::camera::retire::Retirement;

/// Carries the actor's commands out on a pretended rig: every graph drains,
/// stops and comes up as told. Returns every command that was given.
fn carry_out(actor: &mut CameraActor, first: Vec<Command>) -> Vec<Command> {
    let mut given = Vec::new();
    let mut pending = first;
    while !pending.is_empty() {
        let mut next = Vec::new();
        for command in pending {
            given.push(command);
            let event = match command {
                Command::SendEos { .. } => Some(GraphEvent::EosObserved),
                Command::ForceStop { .. } => Some(GraphEvent::Stopped),
                Command::Release { .. } => Some(GraphEvent::Released),
                Command::Build { .. } => Some(GraphEvent::Built),
                _ => None,
            };
            if let Some(event) = event {
                next.extend(actor.handle_event(event));
            }
        }
        pending = next;
    }
    given
}

fn send(actor: &mut CameraActor, message: CameraActorMessage) -> Vec<Command> {
    let first = actor.handle_message(message);
    carry_out(actor, first)
}

fn patch() -> NullableConfiguration {
    NullableConfiguration::default()
}

fn consistent(actor: &CameraActor) {
    assert_eq!(actor.pipeline().is_some(), actor.controls().is_some());
    match actor.state() {
        CameraState::Idle => assert_eq!(actor.controls(), None),
        CameraState::Capture => assert_eq!(actor.controls(), Some(Controls::Capture)),
        CameraState::Livefeed => assert_eq!(actor.controls(), Some(Controls::livefeed())),
    }
}

#[test]
fn a_new_actor_is_idle() {
    let actor = CameraActor::new(Backend::Synthetic);
    assert_eq!(actor.state(), CameraState::Idle);
    assert_eq!(actor.configuration(), Configuration::default());
    assert_eq!(actor.pipeline(), None);
    assert_eq!(actor.controls(), None);
    assert_eq!(actor.phase(), Phase::Ready);
    assert!(actor.is_ready());
    assert_eq!(CameraState::default(), CameraState::Idle);
}

#[test]
fn start_capture_from_idle_reaches_capture() {
    let mut actor = CameraActor::new(Backend::Synthetic);
    let commands = actor.handle_message(CameraActorMessage::StartCapture);
    assert_eq!(
        commands,
        vec![Command::Build {
            graph: 1,
            mode: Mode::Capture,
            configuration: Configuration::default(),
            backend: Backend::Synthetic,
        }]
    );
    assert_eq!(actor.phase(), Phase::Building { mode: Mode::Capture });
    assert!(!actor.is_ready());
    assert_eq!(actor.handle_event(GraphEvent::Built), vec![]);
    assert_eq!(actor.state(), CameraState::Capture);
    assert_eq!(actor.pipeline(), Some(RunningGraph { id: 1 }));
    assert_eq!(actor.controls(), Some(Controls::Capture));
    assert_eq!(
        actor.handle_message(CameraActorMessage::GetState),
        vec![Command::ReplyState(CameraState::Capture)]
    );
}

#[test]
fn start_capture_twice_builds_once() {
    let mut actor = CameraActor::new(Backend::Sensors);
    let first = send(&mut actor, CameraActorMessage::StartCapture);
    assert_eq!(first.iter().filter(|c| matches!(c, Command::Build { .. })).count(), 1);
    let graph = actor.pipeline();
    let second = send(&mut actor, CameraActorMessage::StartCapture);
    assert_eq!(second, vec![]);
    assert_eq!(actor.state(), CameraState::Capture);
    assert_eq!(actor.pipeline(), graph);
    assert_eq!(actor.phase(), Phase::Ready);
}

#[test]
fn start_livefeed_twice_builds_once() {
    let mut actor = CameraActor::new(Backend::Sensors);
    send(&mut actor, CameraActorMessage::StartLivefeed);
    let graph = actor.pipeline();
    assert_eq!(send(&mut actor, CameraActorMessage::StartLivefeed), vec![]);
    assert_eq!(actor.state(), CameraState::Livefeed);
    assert_eq!(actor.pipeline(), graph);
}

#[test]
fn capture_gives_way_to_livefeed() {
    let mut actor = CameraActor::new(Backend::Synthetic);
    send(&mut actor, CameraActorMessage::StartCapture);

    assert_eq!(
        actor.handle_message(CameraActorMessage::StartLivefeed),
        vec![Command::SendEos { graph: 1 }]
    );
    assert_eq!(actor.state(), CameraState::Capture);
    assert_eq!(actor.pipeline(), Some(RunningGraph { id: 1 }));
    assert_eq!(actor.handle_event(GraphEvent::EosObserved), vec![Command::ForceStop { graph: 1 }]);
    assert_eq!(actor.handle_event(GraphEvent::Stopped), vec![Command::Release { graph: 1 }]);
    assert_eq!(actor.pipeline(), Some(RunningGraph { id: 1 }));
    assert_eq!(
        actor.handle_event(GraphEvent::Released),
        vec![Command::Build {
            graph: 2,
            mode: Mode::Livefeed,
            configuration: Configuration::default(),
            backend: Backend::Synthetic,
        }]
    );
    assert_eq!(actor.pipeline(), None);
    assert_eq!(actor.controls(), None);
    assert_eq!(actor.handle_event(GraphEvent::Built), vec![]);
    assert_eq!(actor.state(), CameraState::Livefeed);
    assert_eq!(actor.pipeline(), Some(RunningGraph { id: 2 }));
    assert_eq!(
        actor.controls(),
        Some(Controls::Livefeed {
            left_transform: LEFT_TRANSFORM,
            right_transform: RIGHT_TRANSFORM,
            glviewconvert: VIEW_CONVERTER,
        })
    );
    assert_eq!(actor.phase(), Phase::Ready);
}

#[test]
fn convergence_is_patched_in_place() {
    let mut actor = CameraActor::new(Backend::Synthetic);
    send(&mut actor, CameraActorMessage::StartLivefeed);
    let graph = actor.pipeline();
    let convergence = Convergence::from_bits(0.2f32.to_bits(), (-0.1f32).to_bits());
    let mut change = patch();
    change.convergence = Some(convergence);
    let commands = actor.handle_message(CameraActorMessage::SetConfiguration(change));
    assert_eq!(
        commands,
        vec![Command::SetConvergence {
            graph: 1,
            left_transform: 3,
            right_transform: 7,
            convergence,
        }]
    );
    assert_eq!(actor.state(), CameraState::Livefeed);
    assert_eq!(actor.pipeline(), graph);
    assert_eq!(actor.phase(), Phase::Ready);
    assert_eq!(actor.configuration().convergence, convergence);
    assert_eq!(
        actor.handle_message(CameraActorMessage::GetConfiguration),
        vec![Command::ReplyConfiguration(Configuration { convergence, ..Configuration::default() })]
    );
}

#[test]
fn frame_rate_rebuilds_the_livefeed() {
    let mut actor = CameraActor::new(Backend::Synthetic);
    send(&mut actor, CameraActorMessage::StartLivefeed);
    let before = actor.pipeline();
    let mut change = patch();
    change.fps = Some(30);
    let commands = send(&mut actor, CameraActorMessage::SetConfiguration(change));
    let wanted = Configuration { fps: 30, ..Configuration::default() };
    assert_eq!(
        commands,
        vec![
            Command::SendEos { graph: 1 },
            Command::ForceStop { graph: 1 },
            Command::Release { graph: 1 },
            Command::Build {
                graph: 2,
                mode: Mode::Livefeed,
                configuration: wanted,
                backend: Backend::Synthetic,
            },
        ]
    );
    assert_eq!(actor.state(), CameraState::Livefeed);
    assert_ne!(actor.pipeline(), before);
    assert_eq!(actor.pipeline(), Some(RunningGraph { id: 2 }));
    assert_eq!(actor.configuration().fps, 30);
    assert_eq!(actor.configuration(), wanted);
}

#[test]
fn shutdown_while_capturing_leaves_idle() {
    let mut actor = CameraActor::new(Backend::Synthetic);
    send(&mut actor, CameraActorMessage::StartCapture);
    let commands = send(&mut actor, CameraActorMessage::Shutdown);
    assert_eq!(
        commands,
        vec![
            Command::CloseMailbox,
            Command::SendEos { graph: 1 },
            Command::ForceStop { graph: 1 },
            Command::Release { graph: 1 },
        ]
    );
    assert_eq!(actor.state(), CameraState::Idle);
    assert_eq!(actor.pipeline(), None);
    assert_eq!(actor.controls(), None);
    assert_eq!(actor.phase(), Phase::Closed);
    assert!(actor.is_ready());
    assert_eq!(
        actor.handle_message(CameraActorMessage::GetState),
        vec![Command::ReplyState(CameraState::Idle)]
    );
    assert_eq!(
        actor.handle_message(CameraActorMessage::GetConfiguration),
        vec![Command::ReplyConfiguration(Configuration::default())]
    );
    assert_eq!(actor.handle_message(CameraActorMessage::StartCapture), vec![]);
    assert_eq!(actor.handle_message(CameraActorMessage::StartLivefeed), vec![]);
    assert_eq!(actor.handle_message(CameraActorMessage::Shutdown), vec![]);
    let mut change = patch();
    change.fps = Some(5);
    assert_eq!(actor.handle_message(CameraActorMessage::SetConfiguration(change)), vec![]);
    assert_eq!(actor.configuration(), Configuration::default());
    assert_eq!(actor.state(), CameraState::Idle);
    assert_eq!(actor.phase(), Phase::Closed);
}

#[test]
fn shutdown_of_an_idle_actor_closes_at_once() {
    let mut actor = CameraActor::new(Backend::Sensors);
    assert_eq!(actor.handle_message(CameraActorMessage::Shutdown), vec![Command::CloseMailbox]);
    assert_eq!(actor.phase(), Phase::Closed);
    assert_eq!(actor.state(), CameraState::Idle);
}

#[test]
fn a_timeout_retires_the_graph_all_the_same() {
    let mut actor = CameraActor::new(Backend::Synthetic);
    send(&mut actor, CameraActorMessage::StartLivefeed);
    actor.handle_message(CameraActorMessage::StartCapture);
    assert_eq!(
        actor.handle_event(GraphEvent::TimeoutElapsed),
        vec![Command::ForceStop { graph: 1 }]
    );
    assert_eq!(
        actor.phase(),
        Phase::Retiring {
            stage: Retirement::TimedOut,
            then: stereo_camera::camera::actor::Next::Build(Mode::Capture),
        }
    );
    let mut rest = actor.handle_event(GraphEvent::Stopped);
    rest.extend(actor.handle_event(GraphEvent::Released));
    rest.extend(actor.handle_event(GraphEvent::Built));
    assert_eq!(rest.len(), 2);
    assert_eq!(actor.state(), CameraState::Capture);
}

#[test]
fn an_error_while_draining_retires_the_graph_all_the_same() {
    let mut actor = CameraActor::new(Backend::Synthetic);
    send(&mut actor, CameraActorMessage::StartLivefeed);
    actor.handle_message(CameraActorMessage::Shutdown);
    assert_eq!(
        actor.handle_event(GraphEvent::ErrorObserved),
        vec![Command::ForceStop { graph: 1 }]
    );
}

#[test]
fn a_failed_build_leaves_the_camera_idle() {
    let mut actor = CameraActor::new(Backend::Synthetic);
    send(&mut actor, CameraActorMessage::StartLivefeed);
    actor.handle_message(CameraActorMessage::StartCapture);
    actor.handle_event(GraphEvent::EosObserved);
    actor.handle_event(GraphEvent::Stopped);
    actor.handle_event(GraphEvent::Released);
    assert_eq!(
        actor.handle_event(GraphEvent::BuildFailed),
        vec![Command::ReportFailure { mode: Mode::Capture }]
    );
    assert_eq!(actor.state(), CameraState::Idle);
    assert_eq!(actor.pipeline(), None);
    assert_eq!(actor.controls(), None);
    assert_eq!(actor.phase(), Phase::Ready);
    let commands = send(&mut actor, CameraActorMessage::StartCapture);
    assert_eq!(commands.len(), 1);
    assert_eq!(actor.state(), CameraState::Capture);
    assert_eq!(actor.pipeline(), Some(RunningGraph { id: 3 }));
}

#[test]
fn a_busy_actor_takes_no_message() {
    let mut actor = CameraActor::new(Backend::Synthetic);
    actor.handle_message(CameraActorMessage::StartCapture);
    assert!(!actor.is_ready());
    assert_eq!(actor.handle_message(CameraActorMessage::GetState), vec![]);
    assert_eq!(actor.handle_message(CameraActorMessage::StartLivefeed), vec![]);
    assert_eq!(actor.handle_message(CameraActorMessage::Shutdown), vec![]);
    assert_eq!(actor.phase(), Phase::Building { mode: Mode::Capture });
    actor.handle_event(GraphEvent::Built);
    actor.handle_message(CameraActorMessage::StartLivefeed);
    assert_eq!(actor.handle_message(CameraActorMessage::GetConfiguration), vec![]);
    assert_eq!(actor.state(), CameraState::Capture);
}

#[test]
fn events_out_of_turn_change_nothing() {
    let mut actor = CameraActor::new(Backend::Synthetic);
    for event in [
        GraphEvent::EosObserved,
        GraphEvent::ErrorObserved,
        GraphEvent::TimeoutElapsed,
        GraphEvent::Stopped,
        GraphEvent::Released,
        GraphEvent::Built,
        GraphEvent::BuildFailed,
    ] {
        assert_eq!(actor.handle_event(event), vec![]);
        assert_eq!(actor.state(), CameraState::Idle);
        assert_eq!(actor.phase(), Phase::Ready);
        assert_eq!(actor.pipeline(), None);
    }
    send(&mut actor, CameraActorMessage::StartCapture);
    actor.handle_message(CameraActorMessage::StartLivefeed);
    assert_eq!(actor.handle_event(GraphEvent::Stopped), vec![]);
    assert_eq!(actor.handle_event(GraphEvent::Built), vec![]);
    assert_eq!(actor.handle_event(GraphEvent::Released), vec![]);
    assert_eq!(actor.pipeline(), Some(RunningGraph { id: 1 }));
    assert_eq!(actor.state(), CameraState::Capture);
}

#[test]
fn a_patch_is_stored_in_every_mode() {
    let mut change = patch();
    change.width = Some(640);
    change.codec = Some(VideoCodec::Prores);
    let wanted =
        Configuration { width: 640, codec: VideoCodec::Prores, ..Configuration::default() };

    let mut idle = CameraActor::new(Backend::Synthetic);
    assert_eq!(idle.handle_message(CameraActorMessage::SetConfiguration(change)), vec![]);
    assert_eq!(idle.configuration(), wanted);
    assert_eq!(idle.state(), CameraState::Idle);

    let mut capture = CameraActor::new(Backend::Synthetic);
    send(&mut capture, CameraActorMessage::StartCapture);
    assert_eq!(capture.handle_message(CameraActorMessage::SetConfiguration(change)), vec![]);
    assert_eq!(capture.configuration(), wanted);
    assert_eq!(capture.pipeline(), Some(RunningGraph { id: 1 }));

    let commands = idle.handle_message(CameraActorMessage::StartCapture);
    assert_eq!(
        commands,
        vec![Command::Build {
            graph: 1,
            mode: Mode::Capture,
            configuration: wanted,
            backend: Backend::Synthetic,
        }]
    );
}

#[test]
fn an_empty_patch_changes_nothing() {
    let mut actor = CameraActor::new(Backend::Synthetic);
    send(&mut actor, CameraActorMessage::StartLivefeed);
    assert_eq!(actor.handle_message(CameraActorMessage::SetConfiguration(patch())), vec![]);
    assert_eq!(actor.configuration(), Configuration::default());
    assert_eq!(actor.pipeline(), Some(RunningGraph { id: 1 }));
}

#[test]
fn a_patch_that_repeats_the_settings_changes_nothing() {
    let mut actor = CameraActor::new(Backend::Synthetic);
    send(&mut actor, CameraActorMessage::StartLivefeed);
    let same = NullableConfiguration::from(Configuration::default());
    assert_eq!(actor.handle_message(CameraActorMessage::SetConfiguration(same)), vec![]);
    assert_eq!(actor.phase(), Phase::Ready);
    assert_eq!(actor.pipeline(), Some(RunningGraph { id: 1 }));
}

#[test]
fn anaglyph_format_is_patched_in_place() {
    let mut actor = CameraActor::new(Backend::Synthetic);
    send(&mut actor, CameraActorMessage::StartLivefeed);
    let mut change = patch();
    change.anaglyph_format = Some(AnaglyphFormat::AmberBlue);
    change.convergence = Some(Convergence::from_bits(0x8000_0000, 0));
    assert_eq!(
        actor.handle_message(CameraActorMessage::SetConfiguration(change)),
        vec![Command::SetAnaglyph { graph: 1, glviewconvert: 10, format: AnaglyphFormat::AmberBlue }]
    );
    assert_eq!(actor.phase(), Phase::Ready);
    assert_eq!(actor.configuration().anaglyph_format, AnaglyphFormat::AmberBlue);
    assert_eq!(actor.configuration().convergence.x, 0x8000_0000);
}

#[test]
fn every_restart_field_rebuilds_the_livefeed() {
    let mut patches = Vec::new();
    let mut change = patch();
    change.width = Some(1920);
    patches.push(change);
    let mut change = patch();
    change.height = Some(1080);
    patches.push(change);
    let mut change = patch();
    change.fps = Some(30);
    patches.push(change);
    let mut change = patch();
    change.multiview_mode = Some(MultiviewMode::TopBottom);
    patches.push(change);
    let mut change = patch();
    change.codec = Some(VideoCodec::Prores);
    patches.push(change);
    for change in patches {
        let mut actor = CameraActor::new(Backend::Sensors);
        send(&mut actor, CameraActorMessage::StartLivefeed);
        let before = actor.pipeline();
        let commands = send(&mut actor, CameraActorMessage::SetConfiguration(change));
        assert!(commands.iter().any(|c| matches!(c, Command::Build { .. })));
        assert_ne!(actor.pipeline(), before);
        assert!(actor.pipeline().is_some());
        assert_eq!(actor.state(), CameraState::Livefeed);
        assert_eq!(actor.configuration(), Configuration::default().merge(&change));
        consistent(&actor);
    }
    let mut change = patch();
    change.format = Some(PixelFormat::NV12);
    let mut actor = CameraActor::new(Backend::Sensors);
    send(&mut actor, CameraActorMessage::StartLivefeed);
    assert_eq!(send(&mut actor, CameraActorMessage::SetConfiguration(change)), vec![]);
}

#[test]
fn live_changes_go_out_before_the_rebuild() {
    let mut actor = CameraActor::new(Backend::Synthetic);
    send(&mut actor, CameraActorMessage::StartLivefeed);
    let convergence = Convergence::from_bits(1.0f32.to_bits(), 2.0f32.to_bits());
    let mut change = patch();
    change.convergence = Some(convergence);
    change.anaglyph_format = Some(AnaglyphFormat::GreenMagenta);
    change.height = Some(1080);
    let commands = actor.handle_message(CameraActorMessage::SetConfiguration(change));
    assert_eq!(
        commands,
        vec![
            Command::SetConvergence { graph: 1, left_transform: 3, right_transform: 7, convergence },
            Command::SetAnaglyph {
                graph: 1,
                glviewconvert: 10,
                format: AnaglyphFormat::GreenMagenta,
            },
            Command::SendEos { graph: 1 },
        ]
    );
    assert!(!actor.is_ready());
}

#[test]
fn every_sequence_of_three_messages_keeps_the_invariants() {
    let mut fps = patch();
    fps.fps = Some(30);
    let mut convergence = patch();
    convergence.convergence = Some(Convergence::from_bits(7, 9));
    let messages = [
        CameraActorMessage::StartCapture,
        CameraActorMessage::StartLivefeed,
        CameraActorMessage::GetState,
        CameraActorMessage::GetConfiguration,
        CameraActorMessage::SetConfiguration(fps),
        CameraActorMessage::SetConfiguration(convergence),
        CameraActorMessage::Shutdown,
    ];
    for a in messages {
        for b in messages {
            for c in messages {
                let mut actor = CameraActor::new(Backend::Synthetic);
                let mut alive: Vec<u64> = Vec::new();
                for message in [a, b, c] {
                    for command in send(&mut actor, message) {
                        match command {
                            Command::Build { graph, .. } => {
                                assert!(alive.is_empty());
                                alive.push(graph);
                            }
                            Command::Release { graph } => {
                                assert_eq!(alive, vec![graph]);
                                alive.clear();
                            }
                            _ => {}
                        }
                    }
                    consistent(&actor);
                    assert!(actor.is_ready());
                    assert_eq!(actor.pipeline().map(|graph| vec![graph.id]).unwrap_or_default(), alive);
                }
            }
        }
    }
}

#[test]
fn the_camera_module_names_its_main_types() {
    let mut actor = stereo_camera::camera::CameraActor::new(Backend::Synthetic);
    let patch = stereo_camera::camera::NullableConfiguration::default();
    assert_eq!(
        actor.handle_message(stereo_camera::camera::CameraActorMessage::SetConfiguration(patch)),
        vec![]
    );
    assert_eq!(actor.state(), stereo_camera::camera::CameraState::Idle);
    assert_eq!(actor.configuration(), stereo_camera::camera::Configuration::default());
}
