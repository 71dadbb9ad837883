//! The application controller: a single-threaded, event-driven state
//! machine that owns the GPU context, the surface configuration and the
//! render pipeline, and dispatches window-system events.
//!
//! The surrounding binary pulls events from the windowing collaborator,
//! hands each one to [`AppController::handle_event`], and carries out the
//! returned [`Action`] before pulling the next event. Events that arrive
//! outside the `Active` state are ignored, so no handler ever runs against
//! a missing context.

use vstd::prelude::*;
use crate::frame::{frame_sequence, AcquireFailure, FrameRenderer, FrameStep};
use crate::graphics::GraphicsContext;
use crate::pipeline::{pipeline_model, PipelineBuilder, RenderPipeline};
use crate::surface::{
    config_model,
    lemma_config_model_canonical,
    lemma_reapply_canonical,
    ConfigModel,
    PixelFormat,
    SurfaceConfig,
    SurfaceManager,
};

verus! {

/// The keys the controller distinguishes.
#[derive(Clone, Copy, Debug, PartialEq, Eq, Structural)]
pub enum Key {
    Escape,
    Other,
}

/// Whether a key was pressed or released.
#[derive(Clone, Copy, Debug, PartialEq, Eq, Structural)]
pub enum KeyState {
    Pressed,
    Released,
}

/// An event delivered by the windowing collaborator. Activation and
/// deactivation lifecycle signals are not ordinary events; they arrive
/// through [`AppController::activate`].
#[derive(Clone, Copy, Debug, PartialEq, Eq, Structural)]
pub enum WindowEvent {
    Resized { width: u32, height: u32 },
    CloseRequested,
    KeyboardInput { key: Key, state: KeyState },
    RedrawRequested,
    /// Any event kind the controller does not react to.
    Other,
}

/// Mathematical model of the resources held while active.
#[verifier::ext_equal]
pub ghost struct ResourcesModel {
    pub context: GraphicsContext,
    pub config: ConfigModel,
    pub pipeline: RenderPipeline,
}

/// Mathematical model of the controller's lifecycle state.
#[verifier::ext_equal]
pub ghost enum StateModel {
    Uninitialized,
    Active(ResourcesModel),
    Terminated,
}

/// Invariant of every reachable controller state: while active, the
/// configuration has the one canonical shape this system builds, the
/// pipeline has its fixed-function shape, and the pipeline's bound output
/// format equals the configuration's pixel format.
pub open spec fn wf_state(s: StateModel) -> bool {
    s matches StateModel::Active(r) ==> {
        &&& r.config.canonical()
        &&& r.pipeline.wf()
        &&& r.pipeline.output_format == r.config.format
    }
}

/// The state after a full activation with the given context and reported
/// window dimensions.
pub open spec fn activated_state(context: GraphicsContext, width: u32, height: u32) -> StateModel {
    StateModel::Active(
        ResourcesModel {
            context,
            config: config_model(width, height),
            pipeline: pipeline_model(PixelFormat::Bgra8UnormSrgb),
        },
    )
}

/// The state transition for one window event.
pub open spec fn next_state(s: StateModel, e: WindowEvent) -> StateModel {
    match s {
        StateModel::Active(r) => match e {
            WindowEvent::Resized { width, height } => StateModel::Active(
                ResourcesModel {
                    context: r.context,
                    config: config_model(width, height),
                    pipeline: r.pipeline,
                },
            ),
            WindowEvent::CloseRequested => StateModel::Terminated,
            WindowEvent::KeyboardInput { key, state } => if key == Key::Escape && state
                == KeyState::Pressed {
                StateModel::Terminated
            } else {
                s
            },
            WindowEvent::RedrawRequested => s,
            WindowEvent::Other => s,
        },
        _ => s,
    }
}

/// Mathematical model of the action the binary must carry out.
#[verifier::ext_equal]
pub ghost enum ActionModel {
    Reconfigure(ConfigModel),
    Render(Seq<FrameStep>),
    Exit,
    Ignore,
}

/// The action emitted for one window event.
pub open spec fn action_for(s: StateModel, e: WindowEvent) -> ActionModel {
    match s {
        StateModel::Active(r) => match e {
            WindowEvent::Resized { width, height } => ActionModel::Reconfigure(
                config_model(width, height),
            ),
            WindowEvent::CloseRequested => ActionModel::Exit,
            WindowEvent::KeyboardInput { key, state } => if key == Key::Escape && state
                == KeyState::Pressed {
                ActionModel::Exit
            } else {
                ActionModel::Ignore
            },
            WindowEvent::RedrawRequested => ActionModel::Render(frame_sequence()),
            WindowEvent::Other => ActionModel::Ignore,
        },
        _ => ActionModel::Ignore,
    }
}

/// The state transition when acquiring a presentable texture failed: on a
/// recoverable condition the frame is skipped and the controller stays
/// active; otherwise it terminates.
pub open spec fn next_state_on_acquire_failure(s: StateModel, f: AcquireFailure) -> StateModel {
    if f.spec_recoverable() {
        s
    } else {
        StateModel::Terminated
    }
}

/// The action when acquiring a presentable texture failed: on a
/// recoverable condition, reconfigure with the last known window size;
/// otherwise exit.
pub open spec fn action_on_acquire_failure(s: StateModel, f: AcquireFailure) -> ActionModel {
    match s {
        StateModel::Active(r) => if f.spec_recoverable() {
            ActionModel::Reconfigure(r.config)
        } else {
            ActionModel::Exit
        },
        _ => ActionModel::Ignore,
    }
}

/// What the binary must do after one event has been dispatched. Carrying
/// an action out never touches the controller, so the dispatch loop can
/// process events to completion one at a time.
pub enum Action {
    /// Apply the given configuration to the surface before the next
    /// texture is acquired.
    Reconfigure(SurfaceConfig),
    /// Execute the given per-frame command sequence, step by step.
    Render(Vec<FrameStep>),
    /// Stop the dispatch loop; the controller has released its resources.
    Exit,
    /// Nothing to do.
    Ignore,
}

impl View for Action {
    type V = ActionModel;

    open spec fn view(&self) -> ActionModel {
        match self {
            Action::Reconfigure(c) => ActionModel::Reconfigure(c@),
            Action::Render(plan) => ActionModel::Render(plan@),
            Action::Exit => ActionModel::Exit,
            Action::Ignore => ActionModel::Ignore,
        }
    }
}

/// The resources owned while active, released together on termination.
struct ActiveResources {
    context: GraphicsContext,
    surface: SurfaceManager,
    pipeline: RenderPipeline,
}

enum LifecycleState {
    Uninitialized,
    Active(ActiveResources),
    Terminated,
}

/// The event-driven state machine owning the GPU context, the surface
/// configuration and the render pipeline.
pub struct AppController {
    state: LifecycleState,
}

impl View for AppController {
    type V = StateModel;

    closed spec fn view(&self) -> StateModel {
        match self.state {
            LifecycleState::Uninitialized => StateModel::Uninitialized,
            LifecycleState::Active(ref r) => StateModel::Active(
                ResourcesModel { context: r.context, config: r.surface@, pipeline: r.pipeline },
            ),
            LifecycleState::Terminated => StateModel::Terminated,
        }
    }
}

impl AppController {
    /// A controller that has not yet been activated.
    pub fn new() -> (c: AppController)
        ensures
            c@ == StateModel::Uninitialized,
            wf_state(c@),
    {
        AppController { state: LifecycleState::Uninitialized }
    }

    /// Run the full setup on the activation signal: record the negotiated
    /// context, build and record the surface configuration for the
    /// window's reported inner size, and build the pipeline against the
    /// configured pixel format. Re-entrant: activating again re-runs the
    /// setup and replaces all prior resources.
    pub fn activate(&mut self, context: GraphicsContext, width: u32, height: u32)
        ensures
            final(self)@ == activated_state(context, width, height),
            wf_state(final(self)@),
    {
        let surface = SurfaceManager::configure(width, height);
        let format = surface.config().format;
        let pipeline = PipelineBuilder::build(format);
        self.state = LifecycleState::Active(ActiveResources { context, surface, pipeline });
        proof {
            lemma_config_model_canonical(width, height);
        }
    }

    /// Whether the controller is in its active state.
    pub fn is_active(&self) -> (r: bool)
        ensures
            r == (self@ is Active),
    {
        match self.state {
            LifecycleState::Active(_) => true,
            _ => false,
        }
    }

    /// Whether the controller has terminated and released its resources.
    pub fn is_terminated(&self) -> (r: bool)
        ensures
            r == (self@ is Terminated),
    {
        match self.state {
            LifecycleState::Terminated => true,
            _ => false,
        }
    }

    /// The configuration currently applied to the surface.
    pub fn current_config(&self) -> (c: &SurfaceConfig)
        requires
            self@ is Active,
        ensures
            self@ matches StateModel::Active(r) && c@ == r.config,
    {
        match &self.state {
            LifecycleState::Active(r) => r.surface.config(),
            _ => unreached(),
        }
    }

    /// The pipeline built at activation.
    pub fn current_pipeline(&self) -> (p: &RenderPipeline)
        requires
            self@ is Active,
        ensures
            self@ matches StateModel::Active(r) && *p == r.pipeline,
    {
        match &self.state {
            LifecycleState::Active(r) => &r.pipeline,
            _ => unreached(),
        }
    }

    /// Dispatch one window event: resize rebuilds and re-applies the
    /// surface configuration with clamped dimensions; a close request or a
    /// pressed Escape terminates, releasing context, surface configuration
    /// and pipeline together; a redraw request yields the per-frame
    /// command sequence; everything else is ignored, as is any event
    /// outside the active state.
    pub fn handle_event(&mut self, event: WindowEvent) -> (action: Action)
        requires
            wf_state(old(self)@),
        ensures
            final(self)@ == next_state(old(self)@, event),
            wf_state(final(self)@),
            action@ == action_for(old(self)@, event),
    {
        match event {
            WindowEvent::Resized { width, height } => {
                match &mut self.state {
                    LifecycleState::Active(r) => {
                        r.surface.reconfigure(width, height);
                        proof {
                            lemma_config_model_canonical(width, height);
                        }
                        Action::Reconfigure(SurfaceConfig::new(width, height))
                    },
                    _ => Action::Ignore,
                }
            },
            WindowEvent::CloseRequested => {
                match &self.state {
                    LifecycleState::Active(_) => {
                        self.state = LifecycleState::Terminated;
                        Action::Exit
                    },
                    _ => Action::Ignore,
                }
            },
            WindowEvent::KeyboardInput { key, state } => {
                match &self.state {
                    LifecycleState::Active(_) => {
                        if key == Key::Escape && state == KeyState::Pressed {
                            self.state = LifecycleState::Terminated;
                            Action::Exit
                        } else {
                            Action::Ignore
                        }
                    },
                    _ => Action::Ignore,
                }
            },
            WindowEvent::RedrawRequested => {
                match &self.state {
                    LifecycleState::Active(r) => Action::Render(
                        FrameRenderer::render_frame(&r.pipeline, r.surface.config()),
                    ),
                    _ => Action::Ignore,
                }
            },
            WindowEvent::Other => Action::Ignore,
        }
    }

    /// React to a failed texture acquisition during a frame: on a timeout
    /// or an outdated surface, skip the frame and reconfigure with the
    /// last known window size, then continue; on a lost surface or
    /// exhausted memory, terminate. Per-frame failures never crash the
    /// dispatch loop.
    pub fn handle_acquire_failure(&mut self, failure: AcquireFailure) -> (action: Action)
        requires
            old(self)@ is Active,
            wf_state(old(self)@),
        ensures
            final(self)@ == next_state_on_acquire_failure(old(self)@, failure),
            wf_state(final(self)@),
            action@ == action_on_acquire_failure(old(self)@, failure),
    {
        if failure.recoverable() {
            match &mut self.state {
                LifecycleState::Active(r) => {
                    let width = r.surface.config().width;
                    let height = r.surface.config().height;
                    proof {
                        lemma_reapply_canonical(old(self)@->Active_0.config);
                    }
                    r.surface.reconfigure(width, height);
                    Action::Reconfigure(SurfaceConfig::new(width, height))
                },
                _ => unreached(),
            }
        } else {
            self.state = LifecycleState::Terminated;
            Action::Exit
        }
    }
}

/// The state after a whole sequence of events has been dispatched, first
/// element first.
pub open spec fn apply_events(s: StateModel, events: Seq<WindowEvent>) -> StateModel
    decreases events.len(),
{
    if events.len() == 0 {
        s
    } else {
        apply_events(next_state(s, events.first()), events.drop_first())
    }
}

/// For every resize event with reported dimensions `(width, height)`
/// dispatched while active, the applied configuration's dimensions are the
/// reported ones clamped to at least 1: `max(width, 1)` by
/// `max(height, 1)`.
pub proof fn lemma_resize_clamps(s: StateModel, width: u32, height: u32)
    requires
        s is Active,
    ensures
        next_state(s, WindowEvent::Resized { width, height }) matches StateModel::Active(r) && {
            &&& r.config.width >= 1
            &&& r.config.height >= 1
            &&& width >= 1 ==> r.config.width == width
            &&& width == 0 ==> r.config.width == 1
            &&& height >= 1 ==> r.config.height == height
            &&& height == 0 ==> r.config.height == 1
        },
{
}

/// After any non-empty sequence of resize events dispatched while active,
/// the most recently applied configuration is exactly the one built from
/// the last event's reported dimensions, clamped; the pipeline and context
/// are untouched.
pub proof fn lemma_last_resize_decides(s: StateModel, events: Seq<WindowEvent>)
    requires
        s is Active,
        events.len() > 0,
        forall|i: int| 0 <= i < events.len() ==> events[i] is Resized,
    ensures
        apply_events(s, events) matches StateModel::Active(r) && events.last() matches
            WindowEvent::Resized { width, height } && {
            &&& r.config == config_model(width, height)
            &&& r.pipeline == s->Active_0.pipeline
            &&& r.context == s->Active_0.context
        },
    decreases events.len(),
{
    assert(events[0] is Resized);
    let s1 = next_state(s, events.first());
    if events.len() == 1 {
        assert(events.last() == events.first());
        assert(events.drop_first().len() == 0);
        assert(apply_events(s, events) == apply_events(s1, events.drop_first()));
        assert(apply_events(s1, events.drop_first()) == s1);
    } else {
        assert(forall|i: int|
            0 <= i < events.drop_first().len() ==> events.drop_first()[i] == events[i + 1]);
        lemma_last_resize_decides(s1, events.drop_first());
        assert(events.drop_first().last() == events.last());
    }
}

/// Dispatching any single event preserves the controller invariant; in
/// particular, while the controller stays active, the pipeline's bound
/// output format still equals the configuration's pixel format.
pub proof fn lemma_step_preserves_wf(s: StateModel, e: WindowEvent)
    requires
        wf_state(s),
    ensures
        wf_state(next_state(s, e)),
{
    match s {
        StateModel::Active(r) => match e {
            WindowEvent::Resized { width, height } => {
                lemma_config_model_canonical(width, height);
            },
            _ => {},
        },
        _ => {},
    }
}

/// The pipeline built at activation is never replaced by event dispatch,
/// and its bound output format equals the pixel format of every
/// configuration applied while it is in use: along any sequence of events
/// from any well-formed state, the format consistency of
/// [`wf_state`] holds, and the pipeline is the one captured at the start.
pub proof fn lemma_format_consistency(s: StateModel, events: Seq<WindowEvent>)
    requires
        wf_state(s),
    ensures
        wf_state(apply_events(s, events)),
        apply_events(s, events) matches StateModel::Active(r) ==> s matches StateModel::Active(r0)
            && r.pipeline == r0.pipeline && r.pipeline.output_format == r.config.format,
    decreases events.len(),
{
    if events.len() > 0 {
        lemma_step_preserves_wf(s, events.first());
        lemma_format_consistency(next_state(s, events.first()), events.drop_first());
    }
}

/// Repeated resizing with identical reported dimensions is idempotent:
/// the second dispatch changes neither the state nor the configuration it
/// asks the binary to apply.
pub proof fn lemma_resize_idempotent(s: StateModel, width: u32, height: u32)
    requires
        s is Active,
    ensures
        ({
            let e = WindowEvent::Resized { width, height };
            let s1 = next_state(s, e);
            &&& next_state(s1, e) == s1
            &&& action_for(s1, e) == action_for(s, e)
        }),
{
    let e = WindowEvent::Resized { width, height };
    let s1 = next_state(s, e);
    assert(next_state(s1, e) =~= s1);
}

/// Reconfiguring after a recoverable acquire failure re-applies the
/// current configuration unchanged: the observable surface state is the
/// same before and after.
pub proof fn lemma_acquire_recovery_keeps_config(s: StateModel, f: AcquireFailure)
    requires
        s is Active,
        wf_state(s),
        f.spec_recoverable(),
    ensures
        next_state_on_acquire_failure(s, f) == s,
        action_on_acquire_failure(s, f) == ActionModel::Reconfigure(s->Active_0.config),
{
}

} // verus!
