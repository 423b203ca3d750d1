//! The driver of the render loop: what to do with each event.
//!
//! The driver owns the render state and decides; it touches neither the
//! window nor the GPU. Whoever runs the loop hands it every event, carries
//! out the action it answers with, and reports back what the action
//! brought: a frame that was or was not acquired, a pointer position put in
//! proportion to the surface.

use vstd::prelude::*;
use crate::dpi::PhysicalSize;
use crate::color::{Color, CHANNEL_ONE, CHANNEL_ZERO};
use crate::event::{ElementState, Event, KeyboardInput, VirtualKeyCode, WindowEvent};
use crate::state::{RenderPass, State, StateView};
use crate::swap_chain::{SwapChainDescriptor, SwapChainError};

verus! {

/// Where the loop stands.
#[derive(Clone, Copy, Debug, PartialEq, Eq, Structural)]
pub enum Lifecycle {
    Running,
    /// The loop was told to stop. This is final.
    Terminated,
}

/// A division the driver asks for: a pointer coordinate, a binary64 number
/// kept as its bits, by the matching side of the surface in pixels.
#[derive(Clone, Copy, Debug, PartialEq, Eq, Structural)]
pub struct Ratio {
    pub coordinate: u64,
    pub dimension: u32,
}

/// What the driver asks of whoever runs the loop.
#[derive(Clone, Copy, Debug, PartialEq, Eq, Structural)]
pub enum Action {
    /// Nothing is to be done.
    Nothing,
    /// Stop the loop.
    Exit,
    /// Create the presentation target anew from this description.
    RecreateSwapChain(SwapChainDescriptor),
    /// Divide the pointer's coordinates by the surface's sides and hand the
    /// two quotients to [`Driver::cursor_normalized`].
    Normalize { x: Ratio, y: Ratio },
    /// Acquire the next frame and hand the outcome to
    /// [`Driver::frame_acquired`].
    AcquireFrame,
    /// Record this pass into the acquired frame and submit it.
    Submit(RenderPass),
    /// Report the error and go on; the next frame is expected to succeed.
    Report(SwapChainError),
    /// Ask the window for another redraw.
    RequestRedraw,
}

/// Anything the driver is told: an event, or what became of an action it
/// asked for.
#[derive(Clone, Copy, Debug)]
pub enum Input {
    Event(Event),
    /// How acquiring a frame went.
    FrameAcquired(Result<(), SwapChainError>),
    /// The pointer's position in proportion to the surface.
    CursorNormalized { x_ratio: u64, y_ratio: u64 },
}

/// The driver as a mathematical value.
pub struct DriverView {
    pub state: StateView,
    pub lifecycle: Lifecycle,
}

impl DriverView {
    pub open spec fn wf(self) -> bool {
        self.state.wf()
    }

    /// The driver when the loop starts.
    pub open spec fn initial(state: StateView) -> DriverView {
        DriverView { state, lifecycle: Lifecycle::Running }
    }

    /// This driver, told to stop.
    pub open spec fn terminated(self) -> DriverView {
        DriverView { lifecycle: Lifecycle::Terminated, ..self }
    }

    /// This driver after a resize of the surface.
    pub open spec fn resized(self, new_size: PhysicalSize) -> DriverView {
        DriverView { state: self.state.resized(new_size), ..self }
    }

    /// What a resize asks for: a new presentation target, unless the size
    /// has no area.
    pub open spec fn resize_action(self, new_size: PhysicalSize) -> Action {
        if new_size.has_area() {
            Action::RecreateSwapChain(self.state.resized(new_size).swap_chain_descriptor)
        } else {
            Action::Nothing
        }
    }

    /// Whether the event tells the loop to stop: a request to close the
    /// window, or the escape key going down.
    pub open spec fn stops(event: Event) -> bool {
        match event {
            Event::WindowEvent { event: WindowEvent::CloseRequested } => true,
            Event::WindowEvent { event: WindowEvent::KeyboardInput { input } } =>
                input.is_escape_press(),
            _ => false,
        }
    }

    /// The driver after an event.
    pub open spec fn after_event(self, event: Event) -> DriverView {
        match event {
            Event::WindowEvent { event } => match event {
                WindowEvent::CloseRequested => self.terminated(),
                WindowEvent::Resized(new_size) => self.resized(new_size),
                WindowEvent::ScaleFactorChanged { new_inner_size } => self.resized(
                    new_inner_size,
                ),
                WindowEvent::KeyboardInput { input } => if input.is_escape_press() {
                    self.terminated()
                } else {
                    self
                },
                WindowEvent::CursorMoved { position } => self,
                WindowEvent::Other => self,
            },
            Event::RedrawRequested => self,
            Event::RedrawEventsCleared => self,
            Event::Other => self,
        }
    }

    /// What the driver asks for on an event.
    pub open spec fn action_on_event(self, event: Event) -> Action {
        match event {
            Event::WindowEvent { event } => match event {
                WindowEvent::CloseRequested => Action::Exit,
                WindowEvent::Resized(new_size) => self.resize_action(new_size),
                WindowEvent::ScaleFactorChanged { new_inner_size } => self.resize_action(
                    new_inner_size,
                ),
                WindowEvent::KeyboardInput { input } => if input.is_escape_press() {
                    Action::Exit
                } else {
                    Action::Nothing
                },
                WindowEvent::CursorMoved { position } => Action::Normalize {
                    x: Ratio { coordinate: position.x, dimension: self.state.size.width },
                    y: Ratio { coordinate: position.y, dimension: self.state.size.height },
                },
                WindowEvent::Other => Action::Nothing,
            },
            Event::RedrawRequested => Action::AcquireFrame,
            Event::RedrawEventsCleared => Action::RequestRedraw,
            Event::Other => Action::Nothing,
        }
    }

    /// The driver after it was told how acquiring a frame went. A lost
    /// target is answered by a resize to the size the state has; running
    /// out of memory stops the loop.
    pub open spec fn after_frame(self, frame: Result<(), SwapChainError>) -> DriverView {
        match frame {
            Ok(_) => self,
            Err(SwapChainError::Lost) => self.resized(self.state.size),
            Err(SwapChainError::OutOfMemory) => self.terminated(),
            Err(SwapChainError::Outdated) => self,
            Err(SwapChainError::Timeout) => self,
        }
    }

    /// What the driver asks for once it knows how acquiring a frame went.
    pub open spec fn action_on_frame(self, frame: Result<(), SwapChainError>) -> Action {
        match frame {
            Ok(_) => Action::Submit(self.state.render_pass()),
            Err(SwapChainError::Lost) => self.resize_action(self.state.size),
            Err(SwapChainError::OutOfMemory) => Action::Exit,
            Err(SwapChainError::Outdated) => Action::Report(SwapChainError::Outdated),
            Err(SwapChainError::Timeout) => Action::Report(SwapChainError::Timeout),
        }
    }

    /// The driver after the pointer's position was put in proportion to the
    /// surface.
    pub open spec fn after_cursor(self, x_ratio: u64, y_ratio: u64) -> DriverView {
        DriverView { state: self.state.recolored(x_ratio, y_ratio), ..self }
    }

    /// Whether the input tells the loop to stop: an event that does, or a
    /// frame that could not be acquired for want of memory.
    pub open spec fn stops_on(input: Input) -> bool {
        match input {
            Input::Event(event) => DriverView::stops(event),
            Input::FrameAcquired(frame) => frame == Err::<(), SwapChainError>(
                SwapChainError::OutOfMemory,
            ),
            Input::CursorNormalized { .. } => false,
        }
    }

    /// The driver after one input.
    pub open spec fn after_input(self, input: Input) -> DriverView {
        match input {
            Input::Event(event) => self.after_event(event),
            Input::FrameAcquired(frame) => self.after_frame(frame),
            Input::CursorNormalized { x_ratio, y_ratio } => self.after_cursor(x_ratio, y_ratio),
        }
    }

    /// What the driver asks for on one input.
    pub open spec fn action_on_input(self, input: Input) -> Action {
        match input {
            Input::Event(event) => self.action_on_event(event),
            Input::FrameAcquired(frame) => self.action_on_frame(frame),
            Input::CursorNormalized { .. } => Action::Nothing,
        }
    }

    /// The driver after a run of inputs, taken in order.
    pub open spec fn after_inputs(self, inputs: Seq<Input>) -> DriverView
        decreases inputs.len(),
    {
        if inputs.len() == 0 {
            self
        } else {
            self.after_inputs(inputs.drop_last()).after_input(inputs.last())
        }
    }

    /// What the driver asks for on each of a run of inputs.
    pub open spec fn actions_on_inputs(self, inputs: Seq<Input>) -> Seq<Action> {
        Seq::new(
            inputs.len(),
            |i: int| self.after_inputs(inputs.take(i)).action_on_input(inputs[i]),
        )
    }
}

/// The driver of the render loop.
pub struct Driver {
    state: State,
    lifecycle: Lifecycle,
}

impl View for Driver {
    type V = DriverView;

    closed spec fn view(&self) -> DriverView {
        DriverView { state: self.state@, lifecycle: self.lifecycle }
    }
}

impl Driver {
    #[verifier::type_invariant]
    spec fn inv(self) -> bool {
        self.state@.wf()
    }

    /// Starts a loop over the given render state.
    pub fn new(state: State) -> (driver: Driver)
        ensures
            driver@ == DriverView::initial(state@),
            driver@.wf(),
    {
        proof {
            use_type_invariant(&state);
        }
        Driver { state, lifecycle: Lifecycle::Running }
    }

    /// Takes one event and says what is to be done about it.
    ///
    /// A window event is first offered to the render state, and handled
    /// here if the state does not take it.
    pub fn handle_event(&mut self, event: &Event) -> (action: Action)
        ensures
            final(self)@ == old(self)@.after_event(*event),
            action == old(self)@.action_on_event(*event),
            final(self)@.wf(),
    {
        proof {
            use_type_invariant(&*self);
        }
        match event {
            Event::WindowEvent { event: window_event } => {
                if !self.state.input(window_event) {
                    match window_event {
                        WindowEvent::CloseRequested => {
                            self.lifecycle = Lifecycle::Terminated;
                            Action::Exit
                        },
                        WindowEvent::Resized(new_size) => self.resize(*new_size),
                        WindowEvent::ScaleFactorChanged { new_inner_size } => self.resize(
                            *new_inner_size,
                        ),
                        WindowEvent::KeyboardInput { input } => {
                            match (input.state, input.virtual_keycode) {
                                (
                                    ElementState::Pressed,
                                    Some(VirtualKeyCode::Escape),
                                ) => {
                                    self.lifecycle = Lifecycle::Terminated;
                                    Action::Exit
                                },
                                _ => Action::Nothing,
                            }
                        },
                        WindowEvent::CursorMoved { position } => {
                            let size = self.state.size();
                            Action::Normalize {
                                x: Ratio { coordinate: position.x, dimension: size.width },
                                y: Ratio { coordinate: position.y, dimension: size.height },
                            }
                        },
                        WindowEvent::Other => Action::Nothing,
                    }
                } else {
                    Action::Nothing
                }
            },
            Event::RedrawRequested => {
                self.state.update();
                Action::AcquireFrame
            },
            Event::RedrawEventsCleared => Action::RequestRedraw,
            Event::Other => Action::Nothing,
        }
    }

    /// Takes the outcome of acquiring a frame and says what is to be done
    /// with it.
    pub fn frame_acquired(&mut self, frame: Result<(), SwapChainError>) -> (action: Action)
        ensures
            final(self)@ == old(self)@.after_frame(frame),
            action == old(self)@.action_on_frame(frame),
            final(self)@.wf(),
    {
        proof {
            use_type_invariant(&*self);
        }
        match self.state.render(frame) {
            Ok(pass) => Action::Submit(pass),
            Err(SwapChainError::Lost) => {
                let size = self.state.size();
                self.resize(size)
            },
            Err(SwapChainError::OutOfMemory) => {
                self.lifecycle = Lifecycle::Terminated;
                Action::Exit
            },
            Err(error) => Action::Report(error),
        }
    }

    /// Takes the pointer's position in proportion to the surface, as asked
    /// for by [`Action::Normalize`], and makes it the clear colour.
    pub fn cursor_normalized(&mut self, x_ratio: u64, y_ratio: u64)
        ensures
            final(self)@ == old(self)@.after_cursor(x_ratio, y_ratio),
            final(self)@.wf(),
    {
        proof {
            use_type_invariant(&*self);
        }
        self.state.update_clear_color(x_ratio, y_ratio);
    }

    /// Takes one input of any kind and says what is to be done about it.
    pub fn step(&mut self, input: &Input) -> (action: Action)
        ensures
            final(self)@ == old(self)@.after_input(*input),
            action == old(self)@.action_on_input(*input),
            final(self)@.wf(),
    {
        match input {
            Input::Event(event) => self.handle_event(event),
            Input::FrameAcquired(frame) => self.frame_acquired(*frame),
            Input::CursorNormalized { x_ratio, y_ratio } => {
                self.cursor_normalized(*x_ratio, *y_ratio);
                Action::Nothing
            },
        }
    }

    /// Takes a run of inputs in order and answers each with its action.
    ///
    /// Inputs that come after the loop was told to stop are handled like
    /// any other; the loop stays stopped.
    pub fn run(&mut self, inputs: &[Input]) -> (actions: Vec<Action>)
        ensures
            final(self)@ == old(self)@.after_inputs(inputs@),
            actions@ == old(self)@.actions_on_inputs(inputs@),
            final(self)@.wf(),
    {
        proof {
            use_type_invariant(&*self);
        }
        let ghost start = self@;
        let mut actions: Vec<Action> = Vec::new();
        let mut i: usize = 0;
        while i < inputs.len()
            invariant
                i <= inputs.len(),
                self@ == start.after_inputs(inputs@.take(i as int)),
                self@.wf(),
                actions@.len() == i,
                forall|k: int|
                    0 <= k < i ==> actions@[k] == start.after_inputs(
                        inputs@.take(k),
                    ).action_on_input(inputs@[k]),
            decreases inputs.len() - i,
        {
            let action = self.step(&inputs[i]);
            actions.push(action);
            proof {
                let next = inputs@.take(i + 1);
                assert(next.drop_last() =~= inputs@.take(i as int));
            }
            i += 1;
        }
        assert(inputs@.take(i as int) =~= inputs@);
        assert(actions@ =~= start.actions_on_inputs(inputs@));
        actions
    }

    /// Follows the surface to a new size.
    fn resize(&mut self, new_size: PhysicalSize) -> (action: Action)
        requires
            old(self)@.wf(),
        ensures
            final(self)@ == old(self)@.resized(new_size),
            action == old(self)@.resize_action(new_size),
            final(self)@.wf(),
    {
        match self.state.resize(new_size) {
            Some(descriptor) => Action::RecreateSwapChain(descriptor),
            None => Action::Nothing,
        }
    }

    /// The render state.
    pub fn state(&self) -> (state: &State)
        ensures
            state@ == self@.state,
            state@.wf(),
    {
        proof {
            use_type_invariant(self);
        }
        &self.state
    }

    /// Where the loop stands.
    pub fn lifecycle(&self) -> (lifecycle: Lifecycle)
        ensures
            lifecycle == self@.lifecycle,
    {
        self.lifecycle
    }

    /// Whether the loop was told to stop.
    pub fn is_terminated(&self) -> (terminated: bool)
        ensures
            terminated == (self@.lifecycle == Lifecycle::Terminated),
    {
        match self.lifecycle {
            Lifecycle::Terminated => true,
            Lifecycle::Running => false,
        }
    }
}

/// The escape key going down stops the loop, whatever state the driver is
/// in; the escape key coming up changes nothing and asks for nothing.
pub proof fn lemma_escape(driver: DriverView)
    ensures
        ({
            let press = Event::WindowEvent {
                event: WindowEvent::KeyboardInput {
                    input: KeyboardInput {
                        state: ElementState::Pressed,
                        virtual_keycode: Some(VirtualKeyCode::Escape),
                    },
                },
            };
            &&& driver.after_event(press).lifecycle == Lifecycle::Terminated
            &&& driver.after_event(press).state == driver.state
            &&& driver.action_on_event(press) == Action::Exit
        }),
        ({
            let release = Event::WindowEvent {
                event: WindowEvent::KeyboardInput {
                    input: KeyboardInput {
                        state: ElementState::Released,
                        virtual_keycode: Some(VirtualKeyCode::Escape),
                    },
                },
            };
            &&& driver.after_event(release) == driver
            &&& driver.action_on_event(release) == Action::Nothing
        }),
{
}

/// A key event stops the loop only if it is the escape key going down.
pub proof fn lemma_only_escape_press_stops(driver: DriverView, input: KeyboardInput)
    ensures
        ({
            let event = Event::WindowEvent { event: WindowEvent::KeyboardInput { input } };
            &&& driver.action_on_event(event) == Action::Exit <==> input.is_escape_press()
            &&& !input.is_escape_press() ==> driver.after_event(event) == driver
        }),
{
}

/// A request to close the window stops the loop, whatever state the
/// driver is in.
pub proof fn lemma_close_requested(driver: DriverView)
    ensures
        ({
            let close = Event::WindowEvent { event: WindowEvent::CloseRequested };
            &&& driver.after_event(close).lifecycle == Lifecycle::Terminated
            &&& driver.after_event(close).state == driver.state
            &&& driver.action_on_event(close) == Action::Exit
        }),
{
}

/// A resize event with a size that has area, of either kind, makes that
/// size the stored size and the size of the presentation target, and asks
/// for a target of exactly that size. A frame acquired afterwards is
/// submitted.
pub proof fn lemma_resize_event(driver: DriverView, new_size: PhysicalSize)
    requires
        driver.wf(),
        new_size.has_area(),
    ensures
        ({
            let resized = Event::WindowEvent { event: WindowEvent::Resized(new_size) };
            let scaled = Event::WindowEvent {
                event: WindowEvent::ScaleFactorChanged { new_inner_size: new_size },
            };
            let after = driver.after_event(resized);
            &&& driver.after_event(scaled) == after
            &&& driver.action_on_event(scaled) == driver.action_on_event(resized)
            &&& after.state.size == new_size
            &&& after.state.swap_chain_descriptor.extent() == new_size
            &&& after.wf()
            &&& after.lifecycle == driver.lifecycle
            &&& driver.action_on_event(resized) == Action::RecreateSwapChain(
                SwapChainDescriptor::for_size(new_size),
            )
            &&& after.action_on_frame(Ok(())) == Action::Submit(after.state.render_pass())
        }),
{
}

/// When the presentation target is lost, the driver resizes to the size
/// the state already has: the driver stays as it is and goes on running,
/// the target is asked for anew with its old description, and the next
/// frame that is acquired is submitted.
pub proof fn lemma_lost_target_recovers(driver: DriverView)
    requires
        driver.wf(),
    ensures
        ({
            let lost = Err::<(), SwapChainError>(SwapChainError::Lost);
            let after = driver.after_frame(lost);
            &&& after == driver
            &&& driver.action_on_frame(lost) == if driver.state.size.has_area() {
                Action::RecreateSwapChain(driver.state.swap_chain_descriptor)
            } else {
                Action::Nothing
            }
            &&& after.action_on_frame(Ok(())) == Action::Submit(driver.state.render_pass())
        }),
{
}

/// Of the ways acquiring a frame can fail, only running out of memory stops
/// the loop; a timeout and an outdated target are reported and change
/// nothing.
pub proof fn lemma_frame_errors(driver: DriverView, error: SwapChainError)
    requires
        driver.wf(),
    ensures
        ({
            let frame = Err::<(), SwapChainError>(error);
            &&& driver.action_on_frame(frame) == Action::Exit <==> error
                == SwapChainError::OutOfMemory
            &&& error == SwapChainError::OutOfMemory ==> driver.after_frame(frame)
                == driver.terminated()
            &&& error != SwapChainError::OutOfMemory ==> driver.after_frame(frame) == driver
            &&& (error == SwapChainError::Timeout || error == SwapChainError::Outdated)
                ==> driver.action_on_frame(frame) == Action::Report(error)
        }),
{
}

/// A move of the pointer asks for its two coordinates to be divided by the
/// width and the height the surface has; once the quotients are handed
/// back, the clear colour is the first in red, the second in green, one in
/// blue and zero in alpha.
pub proof fn lemma_cursor_sets_clear_color(
    driver: DriverView,
    position: crate::dpi::PhysicalPosition,
    x_ratio: u64,
    y_ratio: u64,
)
    ensures
        ({
            let moved = Event::WindowEvent { event: WindowEvent::CursorMoved { position } };
            &&& driver.after_event(moved) == driver
            &&& driver.action_on_event(moved) == Action::Normalize {
                x: Ratio { coordinate: position.x, dimension: driver.state.size.width },
                y: Ratio { coordinate: position.y, dimension: driver.state.size.height },
            }
        }),
        driver.after_cursor(x_ratio, y_ratio).state.clear_color == (Color {
            r: x_ratio,
            g: y_ratio,
            b: CHANNEL_ONE,
            a: CHANNEL_ZERO,
        }),
        driver.after_cursor(x_ratio, y_ratio).state.size == driver.state.size,
        driver.after_cursor(x_ratio, y_ratio).lifecycle == driver.lifecycle,
{
}

/// One input leaves a well-formed driver well formed, and changes where
/// the loop stands only by stopping it.
pub proof fn lemma_step(driver: DriverView, input: Input)
    requires
        driver.wf(),
    ensures
        driver.after_input(input).wf(),
        driver.after_input(input).lifecycle == if DriverView::stops_on(input) {
            Lifecycle::Terminated
        } else {
            driver.lifecycle
        },
{
}

/// After a run of inputs the loop has stopped if and only if it had
/// stopped before or one of the inputs stops it: once stopped, it stays
/// stopped, and nothing else stops it. The driver stays well formed
/// throughout.
pub proof fn lemma_termination(driver: DriverView, inputs: Seq<Input>)
    requires
        driver.wf(),
    ensures
        driver.after_inputs(inputs).wf(),
        driver.after_inputs(inputs).lifecycle == Lifecycle::Terminated <==> (driver.lifecycle
            == Lifecycle::Terminated || exists|i: int|
            0 <= i < inputs.len() && DriverView::stops_on(#[trigger] inputs[i])),
    decreases inputs.len(),
{
    if inputs.len() > 0 {
        let front = inputs.drop_last();
        lemma_termination(driver, front);
        lemma_step(driver.after_inputs(front), inputs.last());
        assert(forall|i: int| 0 <= i < front.len() ==> front[i] == inputs[i]);
        if DriverView::stops_on(inputs.last()) {
            assert(DriverView::stops_on(inputs[inputs.len() - 1]));
        }
    }
}

} // verus!
