//! The orchestrator: the one owner of the camera's mode, its configuration
//! and its running graph.
//!
//! The actor performs no media work itself. It is fed one input at a time, a
//! message from a caller or an event from the graph it has ordered, and it
//! answers each input with the commands that are to be carried out, in
//! order. Whoever carries them out reports what came of them as the next
//! events. While a transition between two graphs is under way the actor takes
//! no message, so that no caller ever sees a graph half built or half torn
//! down.

use vstd::prelude::*;

use crate::camera::configuration::{
    AnaglyphFormat, Configuration, Convergence, NullableConfiguration,
};
use crate::camera::factory::{Backend, Controls, Mode};
use crate::camera::retire::{Order, Retirement, Signal};

verus! {

/// What the camera is doing.
#[derive(Copy, Clone, PartialEq, Eq, Structural, Debug)]
pub enum CameraState {
    Idle,
    Livefeed,
    Capture,
}

impl Default for CameraState {
    fn default() -> (state: Self)
        ensures
            state == CameraState::Idle,
    {
        CameraState::Idle
    }
}

impl Mode {
    /// The state of a camera that runs in this mode.
    pub open spec fn state(self) -> CameraState {
        match self {
            Mode::Capture => CameraState::Capture,
            Mode::Livefeed => CameraState::Livefeed,
        }
    }

    fn to_state(self) -> (state: CameraState)
        ensures
            state == self.state(),
    {
        match self {
            Mode::Capture => CameraState::Capture,
            Mode::Livefeed => CameraState::Livefeed,
        }
    }
}

/// The identity of a graph that the actor has ordered.
#[derive(Copy, Clone, PartialEq, Eq, Structural, Debug)]
pub struct RunningGraph {
    pub id: u64,
}

/// A request to the actor.
#[derive(Copy, Clone, PartialEq, Eq, Debug)]
pub enum CameraActorMessage {
    StartCapture,
    StartLivefeed,
    GetState,
    GetConfiguration,
    SetConfiguration(NullableConfiguration),
    Shutdown,
}

/// What came of a command that the actor gave.
#[derive(Copy, Clone, PartialEq, Eq, Structural, Debug)]
pub enum GraphEvent {
    /// The retiring graph has acknowledged the end-of-stream marker.
    EosObserved,
    /// The retiring graph has reported an error.
    ErrorObserved,
    /// The bounded wait for the retiring graph has run out.
    TimeoutElapsed,
    /// The nodes of the retiring graph have come to a stop.
    Stopped,
    /// The resources of the retiring graph have been let go.
    Released,
    /// The graph that was ordered is up and running.
    Built,
    /// The graph that was ordered could not be brought up; nothing is left
    /// of it.
    BuildFailed,
}

impl GraphEvent {
    /// The event as the retirement protocol sees it, if it is one of its
    /// signals.
    pub open spec fn signal(self) -> Option<Signal> {
        match self {
            GraphEvent::EosObserved => Some(Signal::EosObserved),
            GraphEvent::ErrorObserved => Some(Signal::ErrorObserved),
            GraphEvent::TimeoutElapsed => Some(Signal::TimeoutElapsed),
            GraphEvent::Stopped => Some(Signal::StopCompleted),
            GraphEvent::Released => Some(Signal::ReleaseCompleted),
            GraphEvent::Built => None,
            GraphEvent::BuildFailed => None,
        }
    }

    fn to_signal(self) -> (signal: Option<Signal>)
        ensures
            signal == self.signal(),
    {
        match self {
            GraphEvent::EosObserved => Some(Signal::EosObserved),
            GraphEvent::ErrorObserved => Some(Signal::ErrorObserved),
            GraphEvent::TimeoutElapsed => Some(Signal::TimeoutElapsed),
            GraphEvent::Stopped => Some(Signal::StopCompleted),
            GraphEvent::Released => Some(Signal::ReleaseCompleted),
            GraphEvent::Built => None,
            GraphEvent::BuildFailed => None,
        }
    }
}

/// One thing that the actor wants done.
#[derive(Copy, Clone, PartialEq, Eq, Debug)]
pub enum Command {
    /// Answer the caller with the camera's state.
    ReplyState(CameraState),
    /// Answer the caller with a copy of the configuration.
    ReplyConfiguration(Configuration),
    /// Move the running preview to a new convergence.
    SetConvergence {
        graph: u64,
        left_transform: usize,
        right_transform: usize,
        convergence: Convergence,
    },
    /// Move the running preview to another anaglyph scheme.
    SetAnaglyph { graph: u64, glviewconvert: usize, format: AnaglyphFormat },
    /// Send the end-of-stream marker into the graph and wait, for a bounded
    /// time, for the graph to acknowledge it or to report an error. Answered
    /// by `EosObserved`, `ErrorObserved` or `TimeoutElapsed`.
    SendEos { graph: u64 },
    /// Force every node of the graph to a stop. Answered by `Stopped`.
    ForceStop { graph: u64 },
    /// Let go of the graph's resources. Answered by `Released`.
    Release { graph: u64 },
    /// Bring up the graph that the factory plans for this mode, backend and
    /// configuration, and know it by the given identity. Answered by `Built`
    /// or, where any part of it fails, by `BuildFailed`.
    Build { graph: u64, mode: Mode, configuration: Configuration, backend: Backend },
    /// Tell whoever asked that the camera could not enter the mode.
    ReportFailure { mode: Mode },
    /// Take no further request.
    CloseMailbox,
}

/// What is to happen once the running graph is retired.
#[derive(Copy, Clone, PartialEq, Eq, Structural, Debug)]
pub enum Next {
    Build(Mode),
    Close,
}

/// What the actor is waiting for.
#[derive(Copy, Clone, PartialEq, Eq, Structural, Debug)]
pub enum Phase {
    /// The next message.
    Ready,
    /// The next signal from the graph that is being retired.
    Retiring { stage: Retirement, then: Next },
    /// Word of the graph that is being brought up.
    Building { mode: Mode },
    /// Nothing: the actor was shut down. It still answers questions.
    Closed,
}

/// One input to the actor.
pub enum Input {
    Message(CameraActorMessage),
    Event(GraphEvent),
}

/// The identity that follows `generation`.
pub open spec fn following(generation: u64) -> u64 {
    if generation == u64::MAX {
        0
    } else {
        (generation + 1) as u64
    }
}

/// Whether a patch holds a value for a field that differs from the field's
/// current value.
pub open spec fn changes<T>(patch: Option<T>, current: T) -> bool {
    match patch {
        Some(value) => value != current,
        None => false,
    }
}

/// Whether a patch moves the convergence, the two compared as numbers.
pub open spec fn moves_convergence(patch: NullableConfiguration, current: Configuration) -> bool {
    match patch.convergence {
        Some(convergence) => !convergence.same_offsets(current.convergence),
        None => false,
    }
}

/// Whether a patch changes a setting that a running graph cannot take over:
/// the size, rate or layout of the frames, the multiview mode, or the codec.
pub open spec fn restart_required(patch: NullableConfiguration, current: Configuration) -> bool {
    ||| changes(patch.width, current.width)
    ||| changes(patch.height, current.height)
    ||| changes(patch.fps, current.fps)
    ||| changes(patch.format, current.format)
    ||| changes(patch.multiview_mode, current.multiview_mode)
    ||| changes(patch.codec, current.codec)
}

/// The changes that a patch makes to a running preview without a restart: a
/// new convergence for the two transforms, then a new anaglyph scheme for the
/// view converter, each only where the patch moves it.
pub open spec fn live_commands(
    graph: u64,
    left_transform: usize,
    right_transform: usize,
    glviewconvert: usize,
    patch: NullableConfiguration,
    current: Configuration,
) -> Seq<Command> {
    let convergence = if moves_convergence(patch, current) {
        seq![
            Command::SetConvergence {
                graph,
                left_transform,
                right_transform,
                convergence: patch.convergence->0,
            },
        ]
    } else {
        Seq::empty()
    };
    let anaglyph = if changes(patch.anaglyph_format, current.anaglyph_format) {
        seq![Command::SetAnaglyph { graph, glviewconvert, format: patch.anaglyph_format->0 }]
    } else {
        Seq::empty()
    };
    convergence + anaglyph
}

/// The command that carries out an order of the retirement protocol on a
/// graph.
pub open spec fn command_for(order: Order, graph: u64) -> Command {
    match order {
        Order::SendEos => Command::SendEos { graph },
        Order::ForceStop => Command::ForceStop { graph },
        Order::Release => Command::Release { graph },
    }
}

/// The actor as a plain value.
pub struct ActorView {
    pub backend: Backend,
    pub state: CameraState,
    pub configuration: Configuration,
    pub graph: Option<u64>,
    pub controls: Option<Controls>,
    pub phase: Phase,
    pub generation: u64,
}

impl ActorView {
    /// The actor before its first input: idle, with the initial settings.
    pub open spec fn initial(backend: Backend) -> ActorView {
        ActorView {
            backend,
            state: CameraState::Idle,
            configuration: Configuration::initial(),
            graph: None,
            controls: None,
            phase: Phase::Ready,
            generation: 0,
        }
    }

    /// There are handles exactly while there is a graph, and they are the
    /// handles of the camera's state.
    pub open spec fn controls_match_state(self) -> bool {
        &&& self.graph.is_some() <==> self.controls.is_some()
        &&& self.state == CameraState::Idle <==> self.controls.is_none()
        &&& self.state == CameraState::Capture <==> self.controls == Some(Controls::Capture)
        &&& self.state == CameraState::Livefeed <==> self.controls == Some(
            Controls::of_livefeed(),
        )
    }

    /// What holds of the actor after every input.
    pub open spec fn consistent(self) -> bool {
        &&& self.controls_match_state()
        &&& self.graph.is_some() ==> self.graph == Some(self.generation)
        &&& match self.phase {
            Phase::Ready => true,
            Phase::Retiring { stage, then } => {
                &&& self.graph.is_some()
                &&& (stage == Retirement::EosSent || stage == Retirement::Drained || stage
                    == Retirement::TimedOut || stage == Retirement::Stopped)
            },
            Phase::Building { mode } => self.graph.is_none(),
            Phase::Closed => self.graph.is_none(),
        }
    }

    /// Orders a new graph for `mode`. There must be no graph.
    pub open spec fn building(self, mode: Mode) -> (ActorView, Seq<Command>) {
        let graph = following(self.generation);
        (
            ActorView { phase: Phase::Building { mode }, generation: graph, ..self },
            seq![
                Command::Build {
                    graph,
                    mode,
                    configuration: self.configuration,
                    backend: self.backend,
                },
            ],
        )
    }

    /// Begins to retire the running graph.
    pub open spec fn retiring(self, then: Next) -> (ActorView, Seq<Command>) {
        (
            ActorView { phase: Phase::Retiring { stage: Retirement::EosSent, then }, ..self },
            seq![Command::SendEos { graph: self.graph->0 }],
        )
    }

    /// Sets out for `mode`: by retiring the running graph, if there is one,
    /// and else by ordering the new graph at once.
    pub open spec fn switching(self, mode: Mode) -> (ActorView, Seq<Command>) {
        if self.graph.is_some() {
            self.retiring(Next::Build(mode))
        } else {
            self.building(mode)
        }
    }

    /// Takes a patch: stores the merged settings in any case; changes a
    /// running preview in place where the patch moves only what can be moved
    /// in place, and rebuilds it where the patch asks for more.
    pub open spec fn reconfigured(self, patch: NullableConfiguration) -> (
        ActorView,
        Seq<Command>,
    ) {
        let stored = ActorView { configuration: self.configuration.merged(patch), ..self };
        match self.controls {
            Some(Controls::Livefeed { left_transform, right_transform, glviewconvert }) => {
                let live = live_commands(
                    self.graph->0,
                    left_transform,
                    right_transform,
                    glviewconvert,
                    patch,
                    self.configuration,
                );
                if restart_required(patch, self.configuration) {
                    (
                        stored.retiring(Next::Build(Mode::Livefeed)).0,
                        live + stored.retiring(Next::Build(Mode::Livefeed)).1,
                    )
                } else {
                    (stored, live)
                }
            },
            _ => (stored, Seq::empty()),
        }
    }

    /// Takes the request to shut down.
    pub open spec fn closing(self) -> (ActorView, Seq<Command>) {
        if self.graph.is_some() {
            (
                self.retiring(Next::Close).0,
                seq![Command::CloseMailbox] + self.retiring(Next::Close).1,
            )
        } else {
            (ActorView { phase: Phase::Closed, ..self }, seq![Command::CloseMailbox])
        }
    }

    /// The actor after a message, and the commands it gives.
    pub open spec fn on_message(self, message: CameraActorMessage) -> (ActorView, Seq<Command>) {
        match self.phase {
            Phase::Ready => match message {
                CameraActorMessage::GetState => (self, seq![Command::ReplyState(self.state)]),
                CameraActorMessage::GetConfiguration => (
                    self,
                    seq![Command::ReplyConfiguration(self.configuration)],
                ),
                CameraActorMessage::StartCapture => if self.state == CameraState::Capture {
                    (self, Seq::empty())
                } else {
                    self.switching(Mode::Capture)
                },
                CameraActorMessage::StartLivefeed => if self.state == CameraState::Livefeed {
                    (self, Seq::empty())
                } else {
                    self.switching(Mode::Livefeed)
                },
                CameraActorMessage::SetConfiguration(patch) => self.reconfigured(patch),
                CameraActorMessage::Shutdown => self.closing(),
            },
            Phase::Closed => match message {
                CameraActorMessage::GetState => (self, seq![Command::ReplyState(self.state)]),
                CameraActorMessage::GetConfiguration => (
                    self,
                    seq![Command::ReplyConfiguration(self.configuration)],
                ),
                _ => (self, Seq::empty()),
            },
            _ => (self, Seq::empty()),
        }
    }

    /// The actor once its graph is retired: it holds nothing and is idle,
    /// and it goes on to what the retirement was for.
    pub open spec fn retired(self, then: Next) -> (ActorView, Seq<Command>) {
        let cleared = ActorView {
            state: CameraState::Idle,
            graph: None,
            controls: None,
            phase: Phase::Ready,
            ..self
        };
        match then {
            Next::Build(mode) => cleared.building(mode),
            Next::Close => (ActorView { phase: Phase::Closed, ..cleared }, Seq::empty()),
        }
    }

    /// The actor after an event, and the commands it gives. An event that
    /// the actor does not wait for changes nothing.
    pub open spec fn on_event(self, event: GraphEvent) -> (ActorView, Seq<Command>) {
        match self.phase {
            Phase::Retiring { stage, then } => match event.signal() {
                Some(signal) => {
                    let (reached, order) = stage.after(signal);
                    match order {
                        Some(order) => (
                            ActorView { phase: Phase::Retiring { stage: reached, then }, ..self },
                            seq![command_for(order, self.graph->0)],
                        ),
                        None => if reached == Retirement::Released {
                            self.retired(then)
                        } else {
                            (self, Seq::empty())
                        },
                    }
                },
                None => (self, Seq::empty()),
            },
            Phase::Building { mode } => match event {
                GraphEvent::Built => (
                    ActorView {
                        state: mode.state(),
                        graph: Some(self.generation),
                        controls: Some(mode.controls()),
                        phase: Phase::Ready,
                        ..self
                    },
                    Seq::empty(),
                ),
                GraphEvent::BuildFailed => (
                    ActorView { phase: Phase::Ready, ..self },
                    seq![Command::ReportFailure { mode }],
                ),
                _ => (self, Seq::empty()),
            },
            _ => (self, Seq::empty()),
        }
    }

    /// The actor after one input, and the commands it gives.
    pub open spec fn next(self, input: Input) -> (ActorView, Seq<Command>) {
        match input {
            Input::Message(message) => self.on_message(message),
            Input::Event(event) => self.on_event(event),
        }
    }

    /// The actor after the inputs, first to last.
    pub open spec fn run(self, inputs: Seq<Input>) -> ActorView
        decreases inputs.len(),
    {
        if inputs.len() == 0 {
            self
        } else {
            self.run(inputs.drop_last()).next(inputs.last()).0
        }
    }
}

/// The orchestrator.
pub struct CameraActor {
    backend: Backend,
    state: CameraState,
    /// The current configuration of the camera. Some fields may be ignored
    /// depending on the state of the camera.
    configuration: Configuration,
    pipeline: Option<RunningGraph>,
    controls: Option<Controls>,
    phase: Phase,
    generation: u64,
}

impl View for CameraActor {
    type V = ActorView;

    closed spec fn view(&self) -> ActorView {
        ActorView {
            backend: self.backend,
            state: self.state,
            configuration: self.configuration,
            graph: match self.pipeline {
                Some(graph) => Some(graph.id),
                None => None,
            },
            controls: self.controls,
            phase: self.phase,
            generation: self.generation,
        }
    }
}

fn changed_u16(patch: Option<u16>, current: u16) -> (changed: bool)
    ensures
        changed == changes(patch, current),
{
    match patch {
        Some(value) => value != current,
        None => false,
    }
}

fn needs_restarting(patch: &NullableConfiguration, current: &Configuration) -> (needed: bool)
    ensures
        needed == restart_required(*patch, *current),
{
    let format = match patch.format {
        Some(format) => format != current.format,
        None => false,
    };
    let multiview_mode = match patch.multiview_mode {
        Some(mode) => mode != current.multiview_mode,
        None => false,
    };
    let codec = match patch.codec {
        Some(codec) => codec != current.codec,
        None => false,
    };
    changed_u16(patch.width, current.width) || changed_u16(patch.height, current.height)
        || changed_u16(patch.fps, current.fps) || format || multiview_mode || codec
}

fn live_patch(
    graph: u64,
    left_transform: usize,
    right_transform: usize,
    glviewconvert: usize,
    patch: &NullableConfiguration,
    current: &Configuration,
) -> (commands: Vec<Command>)
    ensures
        commands@ == live_commands(
            graph,
            left_transform,
            right_transform,
            glviewconvert,
            *patch,
            *current,
        ),
{
    let mut commands: Vec<Command> = Vec::new();
    if let Some(convergence) = patch.convergence {
        if convergence.differs_from(&current.convergence) {
            commands.push(
                Command::SetConvergence { graph, left_transform, right_transform, convergence },
            );
        }
    }
    if let Some(format) = patch.anaglyph_format {
        if format != current.anaglyph_format {
            commands.push(Command::SetAnaglyph { graph, glviewconvert, format });
        }
    }
    assert(commands@ =~= live_commands(
        graph,
        left_transform,
        right_transform,
        glviewconvert,
        *patch,
        *current,
    ));
    commands
}

fn command_of(order: Order, graph: u64) -> (command: Command)
    ensures
        command == command_for(order, graph),
{
    match order {
        Order::SendEos => Command::SendEos { graph },
        Order::ForceStop => Command::ForceStop { graph },
        Order::Release => Command::Release { graph },
    }
}

fn one(command: Command) -> (commands: Vec<Command>)
    ensures
        commands@ == seq![command],
{
    let mut commands: Vec<Command> = Vec::new();
    commands.push(command);
    commands
}

impl CameraActor {
    #[verifier::type_invariant]
    spec fn well_formed(self) -> bool {
        self@.consistent()
    }

    /// An idle actor with the initial settings, for a rig whose frames come
    /// from `backend`.
    pub fn new(backend: Backend) -> (actor: Self)
        ensures
            actor@ == ActorView::initial(backend),
    {
        CameraActor {
            backend,
            state: CameraState::Idle,
            configuration: Configuration::default(),
            pipeline: None,
            controls: None,
            phase: Phase::Ready,
            generation: 0,
        }
    }

    /// What the camera is doing.
    pub fn state(&self) -> (state: CameraState)
        ensures
            state == self@.state,
    {
        self.state
    }

    /// A copy of the settings.
    pub fn configuration(&self) -> (configuration: Configuration)
        ensures
            configuration == self@.configuration,
    {
        self.configuration
    }

    /// The graph that runs, if one does.
    pub fn pipeline(&self) -> (graph: Option<RunningGraph>)
        ensures
            self@.graph == match graph {
                Some(graph) => Some(graph.id),
                None => None,
            },
    {
        self.pipeline
    }

    /// The handles into the graph that runs, if one does.
    pub fn controls(&self) -> (controls: Option<Controls>)
        ensures
            controls == self@.controls,
    {
        self.controls
    }

    /// What the actor is waiting for.
    pub fn phase(&self) -> (phase: Phase)
        ensures
            phase == self@.phase,
    {
        self.phase
    }

    /// Whether the actor takes a message now: it does unless a transition is
    /// under way.
    pub fn is_ready(&self) -> (ready: bool)
        ensures
            ready == (self@.phase == Phase::Ready || self@.phase == Phase::Closed),
    {
        match self.phase {
            Phase::Ready | Phase::Closed => true,
            _ => false,
        }
    }

    /// Orders a new graph for `mode`.
    fn build(&mut self, mode: Mode) -> (commands: Vec<Command>)
        requires
            old(self)@.graph.is_none(),
            old(self)@.phase == Phase::Ready,
        ensures
            (final(self)@, commands@) == old(self)@.building(mode),
    {
        proof {
            use_type_invariant(&*self);
        }
        let graph = if self.generation == u64::MAX {
            0
        } else {
            self.generation + 1
        };
        let command = Command::Build {
            graph,
            mode,
            configuration: self.configuration,
            backend: self.backend,
        };
        *self =
        CameraActor {
            backend: self.backend,
            state: self.state,
            configuration: self.configuration,
            pipeline: None,
            controls: self.controls,
            phase: Phase::Building { mode },
            generation: graph,
        };
        one(command)
    }

    /// Begins the graceful shutdown of the current pipeline: the
    /// end-of-stream marker goes out first, as when a pipeline is run with
    /// the request to end it cleanly.
    fn clear_pipeline(&mut self, graph: RunningGraph, then: Next) -> (commands: Vec<Command>)
        requires
            old(self)@.graph == Some(graph.id),
            old(self)@.phase == Phase::Ready,
        ensures
            (final(self)@, commands@) == old(self)@.retiring(then),
    {
        proof {
            use_type_invariant(&*self);
        }
        let (stage, order) = Retirement::Running.advance(Signal::Begin);
        *self =
        CameraActor {
            backend: self.backend,
            state: self.state,
            configuration: self.configuration,
            pipeline: Some(graph),
            controls: self.controls,
            phase: Phase::Retiring { stage, then },
            generation: self.generation,
        };
        match order {
            Some(order) => one(command_of(order, graph.id)),
            None => Vec::new(),
        }
    }

    /// Sets out for `mode`, whatever the camera is doing now.
    fn switch(&mut self, mode: Mode) -> (commands: Vec<Command>)
        requires
            old(self)@.phase == Phase::Ready,
        ensures
            (final(self)@, commands@) == old(self)@.switching(mode),
    {
        match self.pipeline {
            Some(graph) => self.clear_pipeline(graph, Next::Build(mode)),
            None => self.build(mode),
        }
    }

    /// Starts a recording, unless one runs already.
    fn start_capture(&mut self) -> (commands: Vec<Command>)
        requires
            old(self)@.phase == Phase::Ready,
        ensures
            (final(self)@, commands@) == old(self)@.on_message(CameraActorMessage::StartCapture),
    {
        if let CameraState::Capture = self.state {
            return Vec::new();
        }
        self.switch(Mode::Capture)
    }

    /// Starts the live preview, unless it runs already.
    fn start_livefeed(&mut self) -> (commands: Vec<Command>)
        requires
            old(self)@.phase == Phase::Ready,
        ensures
            (final(self)@, commands@) == old(self)@.on_message(
                CameraActorMessage::StartLivefeed,
            ),
    {
        if let CameraState::Livefeed = self.state {
            return Vec::new();
        }
        self.switch(Mode::Livefeed)
    }

    /// Takes a patch of the settings.
    fn set_configuration(&mut self, patch: &NullableConfiguration) -> (commands: Vec<Command>)
        requires
            old(self)@.phase == Phase::Ready,
        ensures
            (final(self)@, commands@) == old(self)@.reconfigured(*patch),
    {
        proof {
            use_type_invariant(&*self);
        }
        let current = self.configuration;
        let merged = current.merge(patch);
        let controls = self.controls;
        let pipeline = self.pipeline;
        *self =
        CameraActor {
            backend: self.backend,
            state: self.state,
            configuration: merged,
            pipeline: self.pipeline,
            controls: self.controls,
            phase: self.phase,
            generation: self.generation,
        };
        match (controls, pipeline) {
            (
                Some(Controls::Livefeed { left_transform, right_transform, glviewconvert }),
                Some(graph),
            ) => {
                let mut commands = live_patch(
                    graph.id,
                    left_transform,
                    right_transform,
                    glviewconvert,
                    patch,
                    &current,
                );
                if needs_restarting(patch, &current) {
                    let mut retire = self.clear_pipeline(graph, Next::Build(Mode::Livefeed));
                    commands.append(&mut retire);
                }
                commands
            },
            _ => Vec::new(),
        }
    }

    /// Takes the request to shut down.
    fn shutdown(&mut self) -> (commands: Vec<Command>)
        requires
            old(self)@.phase == Phase::Ready,
        ensures
            (final(self)@, commands@) == old(self)@.closing(),
    {
        proof {
            use_type_invariant(&*self);
        }
        let mut commands = one(Command::CloseMailbox);
        match self.pipeline {
            Some(graph) => {
                let mut retire = self.clear_pipeline(graph, Next::Close);
                commands.append(&mut retire);
            },
            None => {
                *self =
                CameraActor {
                    backend: self.backend,
                    state: self.state,
                    configuration: self.configuration,
                    pipeline: None,
                    controls: self.controls,
                    phase: Phase::Closed,
                    generation: self.generation,
                };
            },
        }
        commands
    }

    /// Takes one message and says what is to be done about it.
    ///
    /// While a transition is under way the actor takes no message: it gives
    /// no command and stays as it is. After a shutdown it still answers
    /// questions about its state and settings, and nothing else.
    pub fn handle_message(&mut self, message: CameraActorMessage) -> (commands: Vec<Command>)
        ensures
            (final(self)@, commands@) == old(self)@.on_message(message),
            final(self)@.consistent(),
    {
        proof {
            use_type_invariant(&*self);
        }
        let commands = match self.phase {
            Phase::Ready => match message {
                CameraActorMessage::GetState => one(Command::ReplyState(self.state)),
                CameraActorMessage::GetConfiguration => one(
                    Command::ReplyConfiguration(self.configuration),
                ),
                CameraActorMessage::StartCapture => self.start_capture(),
                CameraActorMessage::StartLivefeed => self.start_livefeed(),
                CameraActorMessage::SetConfiguration(patch) => self.set_configuration(&patch),
                CameraActorMessage::Shutdown => self.shutdown(),
            },
            Phase::Closed => match message {
                CameraActorMessage::GetState => one(Command::ReplyState(self.state)),
                CameraActorMessage::GetConfiguration => one(
                    Command::ReplyConfiguration(self.configuration),
                ),
                _ => Vec::new(),
            },
            _ => Vec::new(),
        };
        proof {
            use_type_invariant(&*self);
        }
        commands
    }

    /// Takes word of what came of a command and says what is to be done
    /// next. An event that the actor does not wait for changes nothing.
    pub fn handle_event(&mut self, event: GraphEvent) -> (commands: Vec<Command>)
        ensures
            (final(self)@, commands@) == old(self)@.on_event(event),
            final(self)@.consistent(),
    {
        proof {
            use_type_invariant(&*self);
        }
        let commands = match (self.phase, self.pipeline) {
            (Phase::Retiring { stage, then }, Some(graph)) => match event.to_signal() {
                Some(signal) => {
                    let (reached, order) = stage.advance(signal);
                    match order {
                        Some(order) => {
                            *self =
                            CameraActor {
                                backend: self.backend,
                                state: self.state,
                                configuration: self.configuration,
                                pipeline: self.pipeline,
                                controls: self.controls,
                                phase: Phase::Retiring { stage: reached, then },
                                generation: self.generation,
                            };
                            one(command_of(order, graph.id))
                        },
                        None => if reached == Retirement::Released {
                            *self =
                            CameraActor {
                                backend: self.backend,
                                state: CameraState::Idle,
                                configuration: self.configuration,
                                pipeline: None,
                                controls: None,
                                phase: match then {
                                    Next::Build(_) => Phase::Ready,
                                    Next::Close => Phase::Closed,
                                },
                                generation: self.generation,
                            };
                            match then {
                                Next::Build(mode) => self.build(mode),
                                Next::Close => Vec::new(),
                            }
                        } else {
                            Vec::new()
                        },
                    }
                },
                None => Vec::new(),
            },
            (Phase::Building { mode }, _) => match event {
                GraphEvent::Built => {
                    *self =
                    CameraActor {
                        backend: self.backend,
                        state: mode.to_state(),
                        configuration: self.configuration,
                        pipeline: Some(RunningGraph { id: self.generation }),
                        controls: Some(mode.handles()),
                        phase: Phase::Ready,
                        generation: self.generation,
                    };
                    Vec::new()
                },
                GraphEvent::BuildFailed => {
                    *self =
                    CameraActor {
                        backend: self.backend,
                        state: self.state,
                        configuration: self.configuration,
                        pipeline: self.pipeline,
                        controls: self.controls,
                        phase: Phase::Ready,
                        generation: self.generation,
                    };
                    one(Command::ReportFailure { mode })
                },
                _ => Vec::new(),
            },
            _ => Vec::new(),
        };
        proof {
            use_type_invariant(&*self);
        }
        commands
    }
}

} // verus!
