//! Play-mode errors and the agent-facing MCP play command contracts.

use vstd::prelude::*;

use crate::command::error::{CommandError, CommandErrorView};
use crate::command::mode::{CommandStatus, CommandTargetMode};
use crate::editor::mcp::DiagnosticSummary;
use crate::foundation::diagnostics::{
    AgentRepair, Diagnostic, DiagnosticBlockingScope, DiagnosticCode, DiagnosticSeverity,
    DiagnosticSource,
};
use crate::runtime::frame::{frame_records, FrameCounters, FrameStepRecord};
use crate::runtime::world::RuntimeWorld;
use crate::text::{decimal, decimal_string, join3, owned};

verus! {

/// Error returned by editor play-mode controls.
#[derive(Debug, PartialEq, Eq)]
pub enum EditorPlayError {
    /// A project scene must be open before play can start.
    NoActiveScene,
    /// Play mode is already active.
    AlreadyPlaying,
    /// Play mode is not active.
    NotPlaying,
    /// The edit scene could not be cloned into a runtime sandbox.
    Scene(String),
}

impl Clone for EditorPlayError {
    fn clone(&self) -> (r: Self)
        ensures
            r == *self,
    {
        match self {
            EditorPlayError::NoActiveScene => EditorPlayError::NoActiveScene,
            EditorPlayError::AlreadyPlaying => EditorPlayError::AlreadyPlaying,
            EditorPlayError::NotPlaying => EditorPlayError::NotPlaying,
            EditorPlayError::Scene(message) => EditorPlayError::Scene(message.clone()),
        }
    }
}

impl EditorPlayError {
    /// The human-readable message of this error.
    pub open spec fn spec_message(&self) -> Seq<char> {
        match self {
            EditorPlayError::NoActiveScene => "no active scene is open"@,
            EditorPlayError::AlreadyPlaying => "play mode is already active"@,
            EditorPlayError::NotPlaying => "play mode is not active"@,
            EditorPlayError::Scene(error) => error@,
        }
    }

    /// Returns the human-readable message of this error.
    pub fn to_string(&self) -> (s: String)
        ensures
            s@ == self.spec_message(),
    {
        match self {
            EditorPlayError::NoActiveScene => owned("no active scene is open"),
            EditorPlayError::AlreadyPlaying => owned("play mode is already active"),
            EditorPlayError::NotPlaying => owned("play mode is not active"),
            EditorPlayError::Scene(error) => error.clone(),
        }
    }

    /// The command validation error that reports this play error: a
    /// validation failure of the `play` command whose reason is the message.
    pub fn to_command_error(&self) -> (e: CommandError)
        ensures
            e@ == (CommandErrorView::ValidationFailed {
                command_kind: "play"@,
                reason: self.spec_message(),
            }),
    {
        CommandError::ValidationFailed { command_kind: owned("play"), reason: self.to_string() }
    }
}

/// Editor-owned play MCP command names.
#[derive(Debug, Copy, Clone, PartialEq, Eq, Structural, Hash, PartialOrd, Ord)]
pub enum McpPlayCommandName {
    /// Start play mode.
    Start,
    /// Stop play mode.
    Stop,
    /// Step play mode.
    Step,
}

impl McpPlayCommandName {
    /// The stable MCP command name.
    pub open spec fn spec_name(self) -> Seq<char> {
        match self {
            McpPlayCommandName::Start => "play.start"@,
            McpPlayCommandName::Stop => "play.stop"@,
            McpPlayCommandName::Step => "play.step"@,
        }
    }

    /// Returns the stable MCP command name.
    pub fn as_str(self) -> (s: &'static str)
        ensures
            s@ == self.spec_name(),
    {
        match self {
            McpPlayCommandName::Start => "play.start",
            McpPlayCommandName::Stop => "play.stop",
            McpPlayCommandName::Step => "play.step",
        }
    }

    /// The target mode the command must name: starting play is an edit
    /// command, stopping and stepping are play commands.
    pub fn required_target_mode(self) -> (m: CommandTargetMode)
        ensures
            m == (match self {
                McpPlayCommandName::Start => CommandTargetMode::Edit,
                _ => CommandTargetMode::Play,
            }),
    {
        match self {
            McpPlayCommandName::Start => CommandTargetMode::Edit,
            McpPlayCommandName::Stop => CommandTargetMode::Play,
            McpPlayCommandName::Step => CommandTargetMode::Play,
        }
    }
}

/// Read-only MCP play state response.
#[derive(Debug, Copy, Clone, PartialEq, Eq, Structural)]
pub struct McpPlayStateResponse {
    /// Whether play mode owns a runtime world.
    pub is_playing: bool,
    /// Runtime world ID raw value, when active.
    pub runtime_world_id: Option<u64>,
    /// Runtime instance count, when active.
    pub runtime_instance_count: usize,
    /// Root runtime instance ID raw value, when active.
    pub root_runtime_instance_id: Option<u64>,
    /// Most recently completed frame index.
    pub frame_index: Option<u64>,
    /// Next fixed-step index.
    pub next_fixed_step_index: Option<u64>,
}

impl McpPlayStateResponse {
    /// The play state when no runtime world is active.
    pub fn idle() -> (r: Self)
        ensures
            r == (McpPlayStateResponse {
                is_playing: false,
                runtime_world_id: None,
                runtime_instance_count: 0,
                root_runtime_instance_id: None,
                frame_index: None,
                next_fixed_step_index: None,
            }),
    {
        McpPlayStateResponse {
            is_playing: false,
            runtime_world_id: None,
            runtime_instance_count: 0,
            root_runtime_instance_id: None,
            frame_index: None,
            next_fixed_step_index: None,
        }
    }

    /// The play state of an active runtime world and its frame counters.
    pub fn playing(world: &RuntimeWorld, counters: &FrameCounters) -> (r: Self)
        ensures
            r == (McpPlayStateResponse {
                is_playing: true,
                runtime_world_id: Some(world@.id.value()),
                runtime_instance_count: world@.instances.len() as usize,
                root_runtime_instance_id: Some(world@.root.value()),
                frame_index: Some(counters.frame_index),
                next_fixed_step_index: Some(counters.next_fixed_step_index),
            }),
    {
        let root = match world.root_id() {
            Some(id) => Some(id.raw()),
            None => None,
        };
        let instances = world.instances();
        let count = instances.len();
        proof {
            assert(crate::runtime::world::record_views(instances@).len() == instances@.len());
        }
        McpPlayStateResponse {
            is_playing: true,
            runtime_world_id: Some(world.id().raw()),
            runtime_instance_count: count,
            root_runtime_instance_id: root,
            frame_index: Some(counters.frame_index),
            next_fixed_step_index: Some(counters.next_fixed_step_index),
        }
    }
}

/// The diagnostic play mode reports its state with: an informational
/// `KT_RUNTIME_PLAY_STATE` diagnostic from `Runtime` that blocks play, with
/// this message and nothing else.
pub open spec fn is_play_state_diagnostic(d: Diagnostic, message: Seq<char>) -> bool {
    &&& d.code.text() == "KT_RUNTIME_PLAY_STATE"@
    &&& d.severity == DiagnosticSeverity::Info
    &&& d.source.text() == "Runtime"@
    &&& d.message@ == message
    &&& d.blocking == Some(DiagnosticBlockingScope::Play)
    &&& d.location.is_empty()
    &&& d.suggested_fix is None
    &&& d.agent_repair == AgentRepair::NotAllowed
}

/// The message play mode reports after stepping frame `frame_index`.
pub open spec fn stepped_message(frame_index: u64) -> Seq<char> {
    "runtime frame "@ + decimal(frame_index as nat) + " stepped"@
}

/// One stepped runtime frame: its index, the fixed steps it ran, and its
/// ordered phase records.
#[derive(Debug, PartialEq, Eq)]
pub struct PlayFrameStep {
    /// Runtime frame index of this step.
    pub frame_index: u64,
    /// Number of fixed simulation steps run this frame.
    pub fixed_steps: u64,
    /// Ordered phase records of this frame.
    pub records: Vec<FrameStepRecord>,
}

impl Clone for PlayFrameStep {
    fn clone(&self) -> (r: Self)
        ensures
            r.frame_index == self.frame_index,
            r.fixed_steps == self.fixed_steps,
            r.records@ == self.records@,
    {
        PlayFrameStep { frame_index: self.frame_index, fixed_steps: self.fixed_steps, records: self.records.clone() }
    }
}

/// The frame counters of `p` can take a frame of `fixed_steps` fixed steps
/// without overflowing.
pub open spec fn can_step(p: EditorPlaySession, fixed_steps: u64) -> bool {
    &&& p.spec_counters().frame_index < u64::MAX
    &&& p.spec_counters().next_fixed_step_index + fixed_steps <= u64::MAX
}

/// `after` is `before` stepped by one frame of `fixed_steps` fixed steps:
/// the same world, the counters advanced, that frame as the latest step
/// with its ordered phase records, and one diagnostic reporting it.
pub open spec fn is_stepped(before: EditorPlaySession, after: EditorPlaySession, fixed_steps: u64) -> bool {
    let frame = before.spec_counters().frame_index + 1;
    &&& after.spec_world() == before.spec_world()
    &&& after.spec_counters().frame_index == frame
    &&& after.spec_counters().next_fixed_step_index == before.spec_counters().next_fixed_step_index
        + fixed_steps
    &&& after.spec_last_step() matches Some(s) && s.frame_index == frame && s.fixed_steps
        == fixed_steps && s.records@ == frame_records(
        s.frame_index,
        before.spec_counters().next_fixed_step_index as nat,
        fixed_steps as nat,
    )
    &&& after.spec_diagnostics().len() == 1
    &&& is_play_state_diagnostic(after.spec_diagnostics()[0], stepped_message(frame as u64))
}

/// Editor-owned play-mode sandbox: the runtime world cloned from the edit
/// scene, the frame counters, the latest stepped frame and the play
/// diagnostics.
#[derive(Debug, PartialEq)]
pub struct EditorPlaySession {
    world: RuntimeWorld,
    counters: FrameCounters,
    last_step: Option<PlayFrameStep>,
    diagnostics: Vec<Diagnostic>,
}

impl EditorPlaySession {
    /// The sandboxed runtime world.
    pub closed spec fn spec_world(self) -> RuntimeWorld {
        self.world
    }

    /// The frame counters.
    pub closed spec fn spec_counters(self) -> FrameCounters {
        self.counters
    }

    /// The latest stepped frame.
    pub closed spec fn spec_last_step(self) -> Option<PlayFrameStep> {
        self.last_step
    }

    /// The play diagnostics.
    pub closed spec fn spec_diagnostics(self) -> Seq<Diagnostic> {
        self.diagnostics@
    }

    /// Starts a sandbox around `world`: no frame stepped yet, and one play
    /// diagnostic saying the world started.
    pub(crate) fn new(world: RuntimeWorld) -> (s: Self)
        ensures
            s.spec_world() == world,
            s.spec_counters() == (FrameCounters { frame_index: 0, next_fixed_step_index: 1 }),
            s.spec_last_step() is None,
            s.spec_diagnostics().len() == 1,
            is_play_state_diagnostic(s.spec_diagnostics()[0], "play world started"@),
    {
        let mut session = EditorPlaySession {
            world,
            counters: FrameCounters::new(),
            last_step: None,
            diagnostics: Vec::new(),
        };
        session.replace_play_diagnostic("play world started");
        session
    }

    /// Returns the sandboxed runtime world.
    pub fn world(&self) -> (w: &RuntimeWorld)
        ensures
            *w == self.spec_world(),
    {
        &self.world
    }

    /// Returns mutable sandboxed runtime world state for runtime-only tools;
    /// nothing else of the sandbox changes through it.
    pub fn world_mut(&mut self) -> (w: &mut RuntimeWorld)
        ensures
            *w == old(self).spec_world(),
            final(self).spec_world() == *final(w),
            final(self).spec_counters() == old(self).spec_counters(),
            final(self).spec_last_step() == old(self).spec_last_step(),
            final(self).spec_diagnostics() == old(self).spec_diagnostics(),
    {
        &mut self.world
    }

    /// Returns the frame counters.
    pub fn counters(&self) -> (c: FrameCounters)
        ensures
            c == self.spec_counters(),
    {
        self.counters
    }

    /// Returns the latest stepped frame.
    pub fn last_step(&self) -> (s: Option<&PlayFrameStep>)
        ensures
            s is Some == self.spec_last_step() is Some,
            s is Some ==> *s->0 == self.spec_last_step()->0,
    {
        match &self.last_step {
            Some(step) => Some(step),
            None => None,
        }
    }

    /// Returns current play diagnostics.
    pub fn diagnostics(&self) -> (d: &[Diagnostic])
        ensures
            d@ == self.spec_diagnostics(),
    {
        self.diagnostics.as_slice()
    }

    /// Steps one runtime frame that runs `fixed_steps` fixed steps, records
    /// it as the latest step, and reports it as the play diagnostic.
    pub(crate) fn step(&mut self, fixed_steps: u64) -> (r: PlayFrameStep)
        requires
            can_step(*old(self), fixed_steps),
        ensures
            is_stepped(*old(self), *final(self), fixed_steps),
            r.frame_index == final(self).spec_counters().frame_index,
            r.fixed_steps == fixed_steps,
            r.records@ == final(self).spec_last_step()->0.records@,
    {
        let records = self.counters.advance(fixed_steps);
        let frame_index = self.counters.frame_index;
        let digits = decimal_string(frame_index);
        let message = join3("runtime frame ", digits.as_str(), " stepped");
        self.replace_play_diagnostic(message.as_str());
        let kept = records.clone();
        proof {
            assert(kept@ =~= records@);
        }
        self.last_step = Some(PlayFrameStep { frame_index, fixed_steps, records: kept });
        PlayFrameStep { frame_index, fixed_steps, records }
    }

    fn replace_play_diagnostic(&mut self, message: &str)
        ensures
            final(self).spec_world() == old(self).spec_world(),
            final(self).spec_counters() == old(self).spec_counters(),
            final(self).spec_last_step() == old(self).spec_last_step(),
            final(self).spec_diagnostics().len() == 1,
            is_play_state_diagnostic(final(self).spec_diagnostics()[0], message@),
    {
        let diagnostic = Diagnostic::new(
            DiagnosticCode::new("KT_RUNTIME_PLAY_STATE"),
            DiagnosticSeverity::Info,
            DiagnosticSource::new("Runtime"),
            message,
        ).with_blocking_scope(DiagnosticBlockingScope::Play);
        self.diagnostics = vec![diagnostic];
    }
}

/// The play state reported for a session whose sandbox is `play`.
pub open spec fn play_state_of(play: Option<EditorPlaySession>) -> McpPlayStateResponse {
    match play {
        None => McpPlayStateResponse {
            is_playing: false,
            runtime_world_id: None,
            runtime_instance_count: 0,
            root_runtime_instance_id: None,
            frame_index: None,
            next_fixed_step_index: None,
        },
        Some(p) => McpPlayStateResponse {
            is_playing: true,
            runtime_world_id: Some(p.spec_world()@.id.value()),
            runtime_instance_count: p.spec_world()@.instances.len() as usize,
            root_runtime_instance_id: Some(p.spec_world()@.root.value()),
            frame_index: Some(p.spec_counters().frame_index),
            next_fixed_step_index: Some(p.spec_counters().next_fixed_step_index),
        },
    }
}

/// MCP play command request. A step carries the number of fixed steps the
/// frame runs, as the frame clock's fixed-step accumulator decided it.
#[derive(Debug, Copy, Clone, PartialEq, Eq, Structural)]
pub enum McpPlayCommand {
    /// Start play mode from the current edit scene.
    Start {
        /// Requested target mode.
        target_mode: Option<CommandTargetMode>,
    },
    /// Stop and destroy the active play world.
    Stop {
        /// Requested target mode.
        target_mode: Option<CommandTargetMode>,
    },
    /// Step one runtime frame.
    Step {
        /// Requested target mode.
        target_mode: Option<CommandTargetMode>,
        /// Fixed simulation steps the frame runs.
        fixed_steps: u64,
    },
}

impl McpPlayCommand {
    /// The command's name.
    pub open spec fn spec_command_name(self) -> McpPlayCommandName {
        match self {
            McpPlayCommand::Start { .. } => McpPlayCommandName::Start,
            McpPlayCommand::Stop { .. } => McpPlayCommandName::Stop,
            McpPlayCommand::Step { .. } => McpPlayCommandName::Step,
        }
    }

    /// The requested target mode.
    pub open spec fn spec_target_mode(self) -> Option<CommandTargetMode> {
        match self {
            McpPlayCommand::Start { target_mode } => target_mode,
            McpPlayCommand::Stop { target_mode } => target_mode,
            McpPlayCommand::Step { target_mode, .. } => target_mode,
        }
    }

    /// Returns the command's name.
    pub fn command_name(&self) -> (n: McpPlayCommandName)
        ensures
            n == self.spec_command_name(),
    {
        match self {
            McpPlayCommand::Start { .. } => McpPlayCommandName::Start,
            McpPlayCommand::Stop { .. } => McpPlayCommandName::Stop,
            McpPlayCommand::Step { .. } => McpPlayCommandName::Step,
        }
    }

    /// Returns the requested target mode.
    pub fn target_mode(&self) -> (m: Option<CommandTargetMode>)
        ensures
            m == self.spec_target_mode(),
    {
        match self {
            McpPlayCommand::Start { target_mode } => *target_mode,
            McpPlayCommand::Stop { target_mode } => *target_mode,
            McpPlayCommand::Step { target_mode, .. } => *target_mode,
        }
    }
}

/// MCP play command response.
#[derive(Debug, PartialEq, Eq)]
pub struct McpPlayCommandResponse {
    /// Stable command kind.
    pub command_kind: String,
    /// Command target mode.
    pub target_mode: Option<CommandTargetMode>,
    /// Command status.
    pub status: CommandStatus,
    /// Validation diagnostics.
    pub diagnostics: Vec<DiagnosticSummary>,
    /// Play state after the command.
    pub play_state: McpPlayStateResponse,
}

impl Clone for McpPlayCommandResponse {
    fn clone(&self) -> (r: Self)
        ensures
            r.command_kind == self.command_kind,
            r.target_mode == self.target_mode,
            r.status == self.status,
            r.diagnostics.len() == self.diagnostics.len(),
            forall|i: int| 0 <= i < self.diagnostics.len() ==> (#[trigger] r.diagnostics[i])@ == self.diagnostics[i]@,
            r.play_state == self.play_state,
    {
        McpPlayCommandResponse {
            command_kind: self.command_kind.clone(),
            target_mode: self.target_mode,
            status: self.status,
            diagnostics: self.diagnostics.clone(),
            play_state: self.play_state,
        }
    }
}

} // verus!
