//! The renderer: what it remembers between events, and what it decides when
//! one arrives.
//!
//! The renderer owns no window and no GPU object. Each of its methods takes
//! what happened and returns what to do about it as an [`Action`]; the
//! caller performs the action and reports back. A frame passes through
//! [`FrameState`] in this way, one [`FrameEvent`] at a time.

use vstd::prelude::*;
use crate::event::{space_key, ElementState, Event, VirtualKeyCode, WindowEvent};
use crate::frame::{draw_list, draw_list_spec, record_frame, Frame};
use crate::pipeline::PipelineKind;
use crate::render_util::RenderUtil;
use crate::surface::{
    PhysicalSize, PresentMode, SurfaceConfiguration, SurfaceError, HEIGHT, WIDTH,
};

verus! {

/// Where a frame stands.
#[derive(Clone, Copy, Debug, PartialEq, Eq, Structural)]
pub enum FrameState {
    /// No frame is under way.
    Idle,
    /// An image of the surface has been asked for.
    Acquiring,
    /// The commands of the frame are being recorded.
    Recording,
    /// The commands have been handed to the queue and the image to the
    /// display.
    Submitted,
}

/// What can happen to a frame.
#[derive(Clone, Copy, Debug, PartialEq, Eq, Structural)]
pub enum FrameEvent {
    /// The window wants to be drawn.
    RedrawRequested,
    /// The surface has given an image.
    ImageAcquired,
    /// The surface has given no image.
    AcquireFailed(SurfaceError),
    /// The recording has been closed.
    Recorded,
    /// The recording has been queued and the image handed over.
    Presented,
}

/// What the caller is to do next.
#[derive(Debug, PartialEq, Eq)]
pub enum Action {
    /// Nothing; wait for the next event.
    Continue,
    /// Leave the event loop.
    Exit,
    /// Configure the surface anew, with this configuration.
    Reconfigure(SurfaceConfiguration),
    /// Ask the window for a redraw.
    RequestRedraw,
    /// Ask the surface for its next image and report `ImageAcquired` or
    /// `AcquireFailed`.
    AcquireImage,
    /// Create the buffers of this frame, record its pass against the
    /// acquired image, close the recording and report `Recorded`.
    Record(Frame),
    /// Hand the recording to the queue and the image to the display, and
    /// report `Presented`.
    SubmitAndPresent,
    /// Note the error and draw nothing this time.
    SkipFrame(SurfaceError),
}

impl FrameState {
    /// The state that follows `self` on `event`. An event that the state
    /// does not wait for leaves it as it is.
    pub open spec fn next(self, event: FrameEvent) -> FrameState {
        match (self, event) {
            (FrameState::Idle, FrameEvent::RedrawRequested) => FrameState::Acquiring,
            (FrameState::Acquiring, FrameEvent::ImageAcquired) => FrameState::Recording,
            (FrameState::Acquiring, FrameEvent::AcquireFailed(_)) => FrameState::Idle,
            (FrameState::Recording, FrameEvent::Recorded) => FrameState::Submitted,
            (FrameState::Submitted, FrameEvent::Presented) => FrameState::Idle,
            _ => self,
        }
    }
}

/// What a [`Renderer`] remembers.
pub struct RendererState {
    /// The configuration that the surface has or is about to get.
    pub config: SurfaceConfiguration,
    /// Whether the secondary pipeline exists.
    pub has_secondary: bool,
    /// The pipeline that frames are drawn with.
    pub pipeline: PipelineKind,
    pub frame: FrameState,
    pub draws_grid: bool,
}

impl RendererState {
    /// What holds of every renderer: its surface has an area, and it draws
    /// with a pipeline that exists.
    pub open spec fn wf(self) -> bool {
        &&& self.config.width > 0
        &&& self.config.height > 0
        &&& self.pipeline is Secondary ==> self.has_secondary
    }

    /// The size of the surface.
    pub open spec fn size(self) -> PhysicalSize {
        PhysicalSize { width: self.config.width, height: self.config.height }
    }

    /// The state of a renderer that has just been made.
    pub open spec fn initial(has_secondary: bool) -> RendererState {
        RendererState {
            config: SurfaceConfiguration {
                width: WIDTH,
                height: HEIGHT,
                present_mode: PresentMode::Fifo,
            },
            has_secondary,
            pipeline: PipelineKind::Primary,
            frame: FrameState::Idle,
            draws_grid: true,
        }
    }

    /// The state after the window has taken `new_size`. A size without
    /// area is ignored.
    pub open spec fn resized(self, new_size: PhysicalSize) -> RendererState {
        if new_size.is_positive() {
            RendererState {
                config: SurfaceConfiguration {
                    width: new_size.width,
                    height: new_size.height,
                    present_mode: self.config.present_mode,
                },
                ..self
            }
        } else {
            self
        }
    }

    /// Whether the renderer takes `event` for itself: the space key, where
    /// there is a second pipeline to switch to.
    pub open spec fn handles(self, event: WindowEvent) -> bool {
        self.has_secondary && event.is_space_key()
    }

    /// The state after `event` has been offered to the renderer: letting go
    /// of the space key switches to the other pipeline, where there is one.
    pub open spec fn after_input(self, event: WindowEvent) -> RendererState {
        if self.has_secondary && event.is_space_released() {
            RendererState { pipeline: self.pipeline.other(), ..self }
        } else {
            self
        }
    }

    /// The state after `event` has happened to the frame.
    pub open spec fn after_frame_event(self, event: FrameEvent) -> RendererState {
        RendererState { frame: self.frame.next(event), ..self }
    }

    /// Whether `action` is what the frame calls for when `event` happens
    /// in this state.
    pub open spec fn frame_action(self, event: FrameEvent, action: Action) -> bool {
        match (self.frame, event) {
            (FrameState::Idle, FrameEvent::RedrawRequested) => action is AcquireImage,
            (FrameState::Acquiring, FrameEvent::ImageAcquired) => {
                &&& action matches Action::Record(frame)
                &&& frame@.draws(self.pipeline, draw_list_spec())
                &&& frame@.resolves()
            },
            (FrameState::Acquiring, FrameEvent::AcquireFailed(error)) => match error {
                SurfaceError::Lost => action == Action::Reconfigure(self.config),
                SurfaceError::OutOfMemory => action is Exit,
                SurfaceError::Timeout | SurfaceError::Outdated => action == Action::SkipFrame(
                    error,
                ),
            },
            (FrameState::Recording, FrameEvent::Recorded) => action is SubmitAndPresent,
            _ => action is Continue,
        }
    }

    /// The state after `event` of the event loop.
    pub open spec fn after_event(self, event: Event) -> RendererState {
        match event {
            Event::WindowEvent { own_window, event } => {
                if !own_window {
                    self
                } else if self.handles(event) {
                    self.after_input(event)
                } else {
                    match event.new_size() {
                        Some(size) => self.resized(size),
                        None => self,
                    }
                }
            },
            Event::RedrawRequested => self.after_frame_event(FrameEvent::RedrawRequested),
            _ => self,
        }
    }

    /// Whether `action` is what `event` of the event loop calls for in this
    /// state.
    pub open spec fn event_action(self, event: Event, action: Action) -> bool {
        match event {
            Event::WindowEvent { own_window, event } => {
                if !own_window || self.handles(event) {
                    action is Continue
                } else if event.is_exit() {
                    action is Exit
                } else {
                    match event.new_size() {
                        Some(size) => if size.is_positive() {
                            action == Action::Reconfigure(self.resized(size).config)
                        } else {
                            action is Continue
                        },
                        None => action is Continue,
                    }
                }
            },
            Event::RedrawRequested => self.frame_action(FrameEvent::RedrawRequested, action),
            Event::MainEventsCleared => action is RequestRedraw,
            Event::Other => action is Continue,
        }
    }
}

/// Every step keeps a renderer well-formed, whatever the size, the input or
/// the event.
pub proof fn lemma_steps_keep_wf(
    state: RendererState,
    new_size: PhysicalSize,
    input: WindowEvent,
    frame_event: FrameEvent,
    event: Event,
)
    requires
        state.wf(),
    ensures
        RendererState::initial(state.has_secondary).wf(),
        state.resized(new_size).wf(),
        state.after_input(input).wf(),
        state.after_frame_event(frame_event).wf(),
        state.after_event(event).wf(),
{
}

/// A size with a dimension of zero changes nothing, however often it is
/// announced.
pub proof fn lemma_resize_to_nothing(state: RendererState, new_size: PhysicalSize)
    requires
        new_size.width == 0 || new_size.height == 0,
    ensures
        state.resized(new_size) == state,
        state.resized(new_size).resized(new_size) == state,
{
}

/// A size with an area becomes the size of the surface, exactly; nothing
/// else changes, and announcing the size again changes nothing more.
pub proof fn lemma_resize_takes_size(state: RendererState, new_size: PhysicalSize)
    requires
        new_size.width > 0,
        new_size.height > 0,
    ensures
        state.resized(new_size).config.width == new_size.width,
        state.resized(new_size).config.height == new_size.height,
        state.resized(new_size).size() == new_size,
        state.resized(new_size).config.present_mode == state.config.present_mode,
        state.resized(new_size).pipeline == state.pipeline,
        state.resized(new_size).frame == state.frame,
        state.resized(new_size).resized(new_size) == state.resized(new_size),
{
}

/// A renderer starts with the primary pipeline. Where there are two
/// pipelines, letting go of the space key switches to the other one and
/// letting go of it again switches back; pressing it switches nothing.
pub proof fn lemma_space_toggles_pipeline(state: RendererState)
    requires
        state.has_secondary,
    ensures
        RendererState::initial(true).pipeline == PipelineKind::Primary,
        RendererState::initial(true).after_input(space_key(ElementState::Released)).pipeline
            == PipelineKind::Secondary,
        RendererState::initial(true).after_input(space_key(ElementState::Released)).after_input(
            space_key(ElementState::Released),
        ).pipeline == PipelineKind::Primary,
        state.after_input(space_key(ElementState::Released)).pipeline == state.pipeline.other(),
        state.after_input(space_key(ElementState::Released)).pipeline != state.pipeline,
        state.after_input(space_key(ElementState::Released)).after_input(
            space_key(ElementState::Released),
        ) == state,
        state.after_input(space_key(ElementState::Pressed)) == state,
        state.handles(space_key(ElementState::Released)),
        state.handles(space_key(ElementState::Pressed)),
{
}

/// With a single pipeline no input is taken and none changes anything.
pub proof fn lemma_single_pipeline_takes_no_input(state: RendererState, input: WindowEvent)
    requires
        !state.has_secondary,
    ensures
        !state.handles(input),
        state.after_input(input) == state,
{
}

/// A frame runs from idle through acquiring, recording and submitted back
/// to idle, and a failed acquisition ends it at once. No step of it touches
/// anything but the frame state.
pub proof fn lemma_frame_cycle(state: RendererState, error: SurfaceError, event: FrameEvent)
    requires
        state.frame is Idle,
    ensures
        state.after_frame_event(FrameEvent::RedrawRequested).frame is Acquiring,
        state.after_frame_event(FrameEvent::RedrawRequested).after_frame_event(
            FrameEvent::ImageAcquired,
        ).frame is Recording,
        state.after_frame_event(FrameEvent::RedrawRequested).after_frame_event(
            FrameEvent::ImageAcquired,
        ).after_frame_event(FrameEvent::Recorded).frame is Submitted,
        state.after_frame_event(FrameEvent::RedrawRequested).after_frame_event(
            FrameEvent::ImageAcquired,
        ).after_frame_event(FrameEvent::Recorded).after_frame_event(FrameEvent::Presented)
            == state,
        state.after_frame_event(FrameEvent::RedrawRequested).after_frame_event(
            FrameEvent::AcquireFailed(error),
        ) == state,
        state.after_frame_event(event) == (RendererState {
            frame: state.after_frame_event(event).frame,
            ..state
        }),
{
}

/// The frame driver and the handler of window events.
#[derive(Debug, PartialEq, Eq)]
pub struct Renderer {
    config: SurfaceConfiguration,
    has_secondary: bool,
    pipeline: PipelineKind,
    frame: FrameState,
    render_util: RenderUtil,
}

impl View for Renderer {
    type V = RendererState;

    closed spec fn view(&self) -> RendererState {
        RendererState {
            config: self.config,
            has_secondary: self.has_secondary,
            pipeline: self.pipeline,
            frame: self.frame,
            draws_grid: self.render_util.draws_grid(),
        }
    }
}

impl Renderer {
    #[verifier::type_invariant]
    spec fn well_formed(self) -> bool {
        self@.wf()
    }

    /// A renderer for a window of the opening size: the surface paced first
    /// in, first out, the primary pipeline active, no frame under way.
    /// `has_secondary` says whether the secondary pipeline is built too.
    pub fn new(has_secondary: bool) -> (renderer: Self)
        ensures
            renderer@ == RendererState::initial(has_secondary),
            renderer@.wf(),
    {
        Renderer {
            config: SurfaceConfiguration {
                width: WIDTH,
                height: HEIGHT,
                present_mode: PresentMode::Fifo,
            },
            has_secondary,
            pipeline: PipelineKind::Primary,
            frame: FrameState::Idle,
            render_util: RenderUtil::new(),
        }
    }

    /// Takes note that the window has the size `new_size`. Where both
    /// dimensions are positive the configuration takes them over and is
    /// returned, to be applied to the surface. Otherwise, as when the window
    /// is minimized, nothing changes and nothing is returned.
    pub fn resize(&mut self, new_size: PhysicalSize) -> (applied: Option<SurfaceConfiguration>)
        ensures
            final(self)@ == old(self)@.resized(new_size),
            final(self)@.wf(),
            new_size.width == 0 || new_size.height == 0 ==> final(self)@ == old(self)@
                && applied is None,
            new_size.width > 0 && new_size.height > 0 ==> final(self)@.config.width
                == new_size.width && final(self)@.config.height == new_size.height
                && final(self)@.size() == new_size && applied == Some(final(self)@.config),
    {
        proof {
            use_type_invariant(&*self);
        }
        if new_size.width > 0 && new_size.height > 0 {
            self.config =
            SurfaceConfiguration {
                width: new_size.width,
                height: new_size.height,
                present_mode: self.config.present_mode,
            };
            Some(self.config)
        } else {
            None
        }
    }

    /// Offers a window event to the renderer and says whether it took it.
    /// Where there is a secondary pipeline, the renderer takes every event
    /// of the space key, and switches pipelines when the key comes up.
    pub fn input(&mut self, event: &WindowEvent) -> (handled: bool)
        ensures
            final(self)@ == old(self)@.after_input(*event),
            final(self)@.wf(),
            handled == old(self)@.handles(*event),
    {
        proof {
            use_type_invariant(&*self);
        }
        match event {
            WindowEvent::KeyboardInput { state, virtual_keycode: Some(VirtualKeyCode::Space) } => {
                if self.has_secondary {
                    match state {
                        ElementState::Released => {
                            self.pipeline = self.pipeline.toggled();
                        },
                        ElementState::Pressed => {},
                    }
                    true
                } else {
                    false
                }
            },
            _ => false,
        }
    }

    /// Advances what moves by itself between frames: nothing.
    pub fn update(&mut self)
        ensures
            final(self)@ == old(self)@,
    {
    }

    /// Drives the frame one step: takes what happened to it, moves to the
    /// next state and says what to do.
    ///
    /// A redraw request starts a frame by asking for an image. With the
    /// image the frame is recorded, then submitted and presented, and the
    /// driver is idle again. Without one the frame ends at once: a lost
    /// surface is configured anew, with memory exhausted the loop is left,
    /// and a timeout or an outdated surface costs this frame only. An event
    /// that the state does not wait for changes nothing.
    pub fn render(&mut self, event: FrameEvent) -> (action: Action)
        ensures
            final(self)@ == old(self)@.after_frame_event(event),
            final(self)@.wf(),
            old(self)@.frame_action(event, action),
    {
        proof {
            use_type_invariant(&*self);
        }
        match (self.frame, event) {
            (FrameState::Idle, FrameEvent::RedrawRequested) => {
                self.frame = FrameState::Acquiring;
                Action::AcquireImage
            },
            (FrameState::Acquiring, FrameEvent::ImageAcquired) => {
                self.frame = FrameState::Recording;
                let list = draw_list();
                Action::Record(record_frame(self.pipeline, &list))
            },
            (FrameState::Acquiring, FrameEvent::AcquireFailed(error)) => {
                self.frame = FrameState::Idle;
                match error {
                    SurfaceError::Lost => Action::Reconfigure(self.config),
                    SurfaceError::OutOfMemory => Action::Exit,
                    SurfaceError::Timeout | SurfaceError::Outdated => Action::SkipFrame(error),
                }
            },
            (FrameState::Recording, FrameEvent::Recorded) => {
                self.frame = FrameState::Submitted;
                Action::SubmitAndPresent
            },
            (FrameState::Submitted, FrameEvent::Presented) => {
                self.frame = FrameState::Idle;
                Action::Continue
            },
            _ => Action::Continue,
        }
    }

    /// Decides what an event of the event loop calls for.
    ///
    /// Events of other windows are passed over. An event of the renderer's
    /// window is first offered to [`Renderer::input`]; if it is not taken, a
    /// close request or the escape key going down leaves the loop, and a new
    /// size is taken note of as by [`Renderer::resize`]. A redraw request
    /// starts a frame, and when all events are handled the next redraw is
    /// asked for.
    pub fn handle_event(&mut self, event: &Event) -> (action: Action)
        ensures
            final(self)@ == old(self)@.after_event(*event),
            final(self)@.wf(),
            old(self)@.event_action(*event, action),
    {
        proof {
            use_type_invariant(&*self);
        }
        match event {
            Event::WindowEvent { own_window, event: window_event } => {
                if !*own_window {
                    return Action::Continue;
                }
                if self.input(window_event) {
                    return Action::Continue;
                }
                match window_event {
                    WindowEvent::CloseRequested => Action::Exit,
                    WindowEvent::KeyboardInput {
                        state: ElementState::Pressed,
                        virtual_keycode: Some(VirtualKeyCode::Escape),
                    } => Action::Exit,
                    WindowEvent::Resized(size) => self.resize_action(*size),
                    WindowEvent::ScaleFactorChanged { new_inner_size } => self.resize_action(
                        *new_inner_size,
                    ),
                    _ => Action::Continue,
                }
            },
            Event::RedrawRequested => {
                self.update();
                self.render(FrameEvent::RedrawRequested)
            },
            Event::MainEventsCleared => Action::RequestRedraw,
            Event::Other => Action::Continue,
        }
    }

    /// Resizes, and asks for the surface to be configured where the size
    /// was taken.
    fn resize_action(&mut self, new_size: PhysicalSize) -> (action: Action)
        ensures
            final(self)@ == old(self)@.resized(new_size),
            final(self)@.wf(),
            new_size.is_positive() ==> action == Action::Reconfigure(final(self)@.config),
            !new_size.is_positive() ==> action is Continue,
    {
        match self.resize(new_size) {
            Some(config) => Action::Reconfigure(config),
            None => Action::Continue,
        }
    }

    /// The size of the surface.
    pub fn size(&self) -> (size: PhysicalSize)
        ensures
            size == self@.size(),
            size.is_positive(),
    {
        proof {
            use_type_invariant(self);
        }
        PhysicalSize { width: self.config.width, height: self.config.height }
    }

    /// The configuration that the surface has or is about to get.
    pub fn config(&self) -> (config: SurfaceConfiguration)
        ensures
            config == self@.config,
    {
        self.config
    }

    /// The pipeline that frames are drawn with.
    pub fn pipeline(&self) -> (pipeline: PipelineKind)
        ensures
            pipeline == self@.pipeline,
    {
        self.pipeline
    }

    /// Whether the secondary pipeline exists.
    pub fn has_secondary(&self) -> (has_secondary: bool)
        ensures
            has_secondary == self@.has_secondary,
    {
        self.has_secondary
    }

    /// Where the frame stands.
    pub fn frame_state(&self) -> (frame: FrameState)
        ensures
            frame == self@.frame,
    {
        self.frame
    }
}

} // verus!
