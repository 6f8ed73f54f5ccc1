//! The protocol between a view tree and the shell that runs it: what is done,
//! and in which order, when the window system reports an event. The shell
//! owns the window and the renderer. It hands every event of the window
//! system to the driver, does what the driver answers, and draws what the
//! driver gives it to draw.

use vstd::prelude::*;
use crate::event::{ApplicationEvent, ButtonState, MouseButton};
use crate::handler::{ran, Fraction};
use crate::message::{EmptyMessage, MessageQueue};
use crate::render::{measures_all, DrawCommand, Metric};
use crate::state::State;
use crate::style::Theme;
use crate::view::root::{call_hook, Root};
use crate::view::stack::{Stack, StackView};

verus! {

/// What a finger on a touch screen did.
#[derive(Clone, Copy, Debug, PartialEq, Eq, Structural)]
pub enum TouchPhase {
    Started,
    Moved,
    Ended,
    Cancelled,
}

/// An event of the window system, as far as the toolkit reads it. Positions
/// are in window pixels.
#[derive(Clone, Copy, Debug, PartialEq, Eq)]
pub enum WindowEvent {
    /// The user asked for the window to be closed.
    CloseRequested,
    /// The window has a new size. A width of 0 means that it is minimized.
    Resized { width: u32, height: u32 },
    /// A finger touched the window, moved on it or left it.
    Touch { phase: TouchPhase, position: (i32, i32) },
    /// The mouse moved to `position`.
    CursorMoved { position: (i32, i32) },
    /// A button of the mouse went down or came up.
    MouseInput { button: MouseButton, state: ButtonState },
    /// The window is to be drawn.
    RedrawRequested,
    /// Anything else.
    Other,
}

/// What the shell is to do about an event of the window system.
#[derive(Clone, Copy, Debug, PartialEq, Eq)]
pub enum WindowAction {
    /// Leave the event loop.
    Exit,
    /// Give the drawing surface the new size.
    ResizeSurface { width: u32, height: u32 },
    /// Hand the input event to the view tree: see [`Driver::dispatch`].
    Dispatch(ApplicationEvent),
    /// Draw the view tree: see [`Driver::redraw`].
    Draw,
    /// Nothing.
    Ignore,
}

/// What the driver keeps between two events.
pub struct DriverView {
    /// Whether the view is to be drawn when the window next asks for it.
    pub should_render: bool,
    /// Whether the view is to be laid out again before it is next drawn.
    pub should_resize: bool,
    /// Where the mouse was last seen.
    pub mouse_position: (i32, i32),
    /// Whether the window is minimized.
    pub is_minimized: bool,
    /// The size of the drawing surface, which the root view is laid out in.
    pub surface_size: (u32, u32),
}

impl DriverView {
    /// The movement of the pointer that took it to `position`.
    pub open spec fn movement(self, position: (i32, i32)) -> (int, int) {
        (position.0 - self.mouse_position.0, position.1 - self.mouse_position.1)
    }

    /// Whether the driver can take the event: a movement of the pointer must
    /// be one that coordinates can hold, and a touch must not be cancelled,
    /// for which nothing is laid down.
    pub open spec fn admits(self, event: WindowEvent) -> bool {
        match event {
            WindowEvent::Touch { phase: TouchPhase::Cancelled, .. } => false,
            WindowEvent::Touch { phase: TouchPhase::Moved, position } => {
                &&& i32::MIN <= self.movement(position).0 <= i32::MAX
                &&& i32::MIN <= self.movement(position).1 <= i32::MAX
            },
            WindowEvent::CursorMoved { position } => {
                &&& i32::MIN <= self.movement(position).0 <= i32::MAX
                &&& i32::MIN <= self.movement(position).1 <= i32::MAX
            },
            _ => true,
        }
    }

    /// The input event that a movement of the pointer to `position` is.
    pub open spec fn motion_to(self, position: (i32, i32)) -> ApplicationEvent {
        ApplicationEvent::MouseMotion {
            position,
            relative_change: (self.movement(position).0 as i32, self.movement(position).1 as i32),
        }
    }

    /// What the shell is to do about an event.
    pub open spec fn action(self, event: WindowEvent) -> WindowAction {
        match event {
            WindowEvent::CloseRequested => WindowAction::Exit,
            WindowEvent::Resized { width, height } => if width == 0 {
                WindowAction::Ignore
            } else {
                WindowAction::ResizeSurface { width, height }
            },
            WindowEvent::Touch { phase, position } => match phase {
                TouchPhase::Started => WindowAction::Dispatch(
                    ApplicationEvent::MouseButton {
                        state: ButtonState::Pressed,
                        button: MouseButton::Left,
                        position,
                    },
                ),
                TouchPhase::Ended => WindowAction::Dispatch(
                    ApplicationEvent::MouseButton {
                        state: ButtonState::Released,
                        button: MouseButton::Left,
                        position,
                    },
                ),
                TouchPhase::Moved => WindowAction::Dispatch(self.motion_to(position)),
                TouchPhase::Cancelled => WindowAction::Ignore,
            },
            WindowEvent::CursorMoved { position } => WindowAction::Dispatch(self.motion_to(position)),
            WindowEvent::MouseInput { button, state } => WindowAction::Dispatch(
                ApplicationEvent::MouseButton { state, button, position: self.mouse_position },
            ),
            WindowEvent::RedrawRequested => WindowAction::Draw,
            WindowEvent::Other => WindowAction::Ignore,
        }
    }

    /// What the driver keeps after an event.
    pub open spec fn after(self, event: WindowEvent) -> DriverView {
        match event {
            WindowEvent::Resized { width, height } => if width == 0 {
                DriverView { is_minimized: true, ..self }
            } else {
                DriverView {
                    is_minimized: false,
                    surface_size: (width, height),
                    should_resize: true,
                    ..self
                }
            },
            WindowEvent::Touch { phase: TouchPhase::Moved, position } => DriverView {
                mouse_position: position,
                ..self
            },
            WindowEvent::CursorMoved { position } => DriverView { mouse_position: position, ..self },
            _ => self,
        }
    }
}

/// The state of the protocol: the queue of the messages that have not been
/// delivered, and what is to be done when the window is next drawn.
pub struct Driver<Msg: EmptyMessage> {
    pub message_queue: MessageQueue<Msg>,
    /// Whether the view is to be drawn when the window next asks for it.
    pub should_render: bool,
    /// Whether the view is to be laid out again before it is next drawn.
    pub should_resize: bool,
    /// Where the mouse was last seen.
    pub mouse_position: (i32, i32),
    /// Whether the window is minimized.
    pub is_minimized: bool,
    /// The size of the drawing surface, which the root view is laid out in.
    pub surface_size: (u32, u32),
}

impl<Msg: EmptyMessage> Driver<Msg> {
    /// What the driver keeps, the queue aside.
    pub open spec fn view(&self) -> DriverView {
        DriverView {
            should_render: self.should_render,
            should_resize: self.should_resize,
            mouse_position: self.mouse_position,
            is_minimized: self.is_minimized,
            surface_size: self.surface_size,
        }
    }

    /// A driver for a window whose drawing surface has the given size. The
    /// first frame is always drawn.
    pub fn new(width: u32, height: u32) -> (driver: Self)
        ensures
            driver@ == (DriverView {
                should_render: true,
                should_resize: false,
                mouse_position: (0, 0),
                is_minimized: false,
                surface_size: (width, height),
            }),
            driver.message_queue@ == Seq::<Msg>::empty(),
    {
        Driver {
            message_queue: MessageQueue::new(),
            should_render: true,
            should_resize: false,
            mouse_position: (0, 0),
            is_minimized: false,
            surface_size: (width, height),
        }
    }

    /// Whether the driver can take the event.
    pub fn check_window_event(&self, event: &WindowEvent) -> (ok: bool)
        ensures
            ok == self@.admits(*event),
    {
        match event {
            WindowEvent::Touch { phase: TouchPhase::Cancelled, .. } => false,
            WindowEvent::Touch { phase: TouchPhase::Moved, position } => self.check_movement(*position),
            WindowEvent::CursorMoved { position } => self.check_movement(*position),
            _ => true,
        }
    }

    /// Whether the movement of the pointer to `position` is one that
    /// coordinates can hold.
    fn check_movement(&self, position: (i32, i32)) -> (ok: bool)
        ensures
            ok == (i32::MIN <= self@.movement(position).0 <= i32::MAX && i32::MIN <= self@.movement(
                position,
            ).1 <= i32::MAX),
    {
        let dx: i64 = position.0 as i64 - self.mouse_position.0 as i64;
        let dy: i64 = position.1 as i64 - self.mouse_position.1 as i64;
        i32::MIN as i64 <= dx && dx <= i32::MAX as i64 && i32::MIN as i64 <= dy && dy <= i32::MAX as i64
    }

    /// Takes an event of the window system and says what the shell is to do
    /// about it. Input is put into the shape that views take it in: a touch
    /// is a press or a release of the left button or a movement of the
    /// mouse, and a click is where the mouse was last seen.
    pub fn handle_window_event(&mut self, event: &WindowEvent) -> (action: WindowAction)
        requires
            old(self)@.admits(*event),
        ensures
            action == old(self)@.action(*event),
            final(self)@ == old(self)@.after(*event),
            final(self).message_queue == old(self).message_queue,
    {
        match event {
            WindowEvent::CloseRequested => WindowAction::Exit,
            WindowEvent::Resized { width, height } => {
                if *width == 0 {
                    self.is_minimized = true;
                    WindowAction::Ignore
                } else {
                    self.is_minimized = false;
                    self.surface_size = (*width, *height);
                    self.should_resize = true;
                    WindowAction::ResizeSurface { width: *width, height: *height }
                }
            },
            WindowEvent::Touch { phase, position } => {
                match phase {
                    TouchPhase::Started => WindowAction::Dispatch(
                        ApplicationEvent::MouseButton {
                            state: ButtonState::Pressed,
                            button: MouseButton::Left,
                            position: *position,
                        },
                    ),
                    TouchPhase::Ended => WindowAction::Dispatch(
                        ApplicationEvent::MouseButton {
                            state: ButtonState::Released,
                            button: MouseButton::Left,
                            position: *position,
                        },
                    ),
                    TouchPhase::Moved => {
                        let event = ApplicationEvent::MouseMotion {
                            position: *position,
                            relative_change: (
                                position.0 - self.mouse_position.0,
                                position.1 - self.mouse_position.1,
                            ),
                        };
                        self.mouse_position = *position;
                        WindowAction::Dispatch(event)
                    },
                    TouchPhase::Cancelled => WindowAction::Ignore,
                }
            },
            WindowEvent::CursorMoved { position } => {
                let event = ApplicationEvent::MouseMotion {
                    position: *position,
                    relative_change: (
                        position.0 - self.mouse_position.0,
                        position.1 - self.mouse_position.1,
                    ),
                };
                self.mouse_position = *position;
                WindowAction::Dispatch(event)
            },
            WindowEvent::MouseInput { button, state } => WindowAction::Dispatch(
                ApplicationEvent::MouseButton {
                    state: *state,
                    button: *button,
                    position: self.mouse_position,
                },
            ),
            WindowEvent::RedrawRequested => WindowAction::Draw,
            WindowEvent::Other => WindowAction::Ignore,
        }
    }
}

/// Whether a root view can take events and messages: it has the store of its
/// tree, and every handler in it can be called.
pub open spec fn ready<
    Msg: EmptyMessage,
    C: Fn(State) -> (State, Msg),
    S: Fn(Fraction, State) -> (State, Msg),
    H: Fn(&Msg, State) -> (State, Option<String>),
>(view: StackView<C, S, H>) -> bool {
    view.state is Some && view.handlers_total()
}

/// Whether the hook gives back a view that can take events and messages
/// whenever it is given one.
pub open spec fn hook_keeps_ready<
    Msg: EmptyMessage,
    C: Fn(State) -> (State, Msg),
    S: Fn(Fraction, State) -> (State, Msg),
    H: Fn(&Msg, State) -> (State, Option<String>),
    K: Fn(Stack<C, S, H>, &Msg) -> Stack<C, S, H>,
>(hook: Option<K>) -> bool {
    hook matches Some(hook) ==> forall|before: Stack<C, S, H>, message: &Msg, after: Stack<C, S, H>|
        #[trigger] call_ensures(hook, (before, message), after) && ready(before@) ==> ready(after@)
}

/// Marks where the delivery of one message started from: the view that the
/// messages before it left, and whether one of them asked for a new layout.
pub open spec fn waypoint<C, S, H>(view: Stack<C, S, H>, earlier: bool, here: bool) -> bool {
    true
}

/// Whether one message can take the root view from `before` to `after`,
/// with `resize` telling whether a widget asked for a new layout: the hook is
/// called first, then the message goes through the tree.
pub open spec fn message_handled<
    Msg: EmptyMessage,
    C: Fn(State) -> (State, Msg),
    S: Fn(Fraction, State) -> (State, Msg),
    H: Fn(&Msg, State) -> (State, Option<String>),
    K: Fn(Stack<C, S, H>, &Msg) -> Stack<C, S, H>,
>(root: Root<C, S, H, K>, before: Stack<C, S, H>, message: &Msg, after: Stack<C, S, H>, resize: bool) -> bool {
    exists|hooked: Stack<C, S, H>|
        {
            &&& #[trigger] root.hooked(before, message, hooked)
            &&& hooked@.state is Some
            &&& after@.state is Some
            &&& after@ == (StackView { state: after@.state, children: after@.children, ..hooked@ })
            &&& hooked@.delivered(
                message,
                hooked@.children.len() as int,
                hooked@.state->0,
                after@.children,
                after@.state->0,
                resize,
            )
            &&& after@.quiet()
        }
}

/// Whether the first `n` of `messages`, one after the other, can take the
/// root view from `before` to `after`, with `resize` telling whether a widget
/// asked for a new layout on one of them.
pub open spec fn messages_handled<
    Msg: EmptyMessage,
    C: Fn(State) -> (State, Msg),
    S: Fn(Fraction, State) -> (State, Msg),
    H: Fn(&Msg, State) -> (State, Option<String>),
    K: Fn(Stack<C, S, H>, &Msg) -> Stack<C, S, H>,
>(
    root: Root<C, S, H, K>,
    before: Stack<C, S, H>,
    messages: Seq<Msg>,
    n: int,
    after: Stack<C, S, H>,
    resize: bool,
) -> bool
    decreases n,
{
    if n <= 0 || n > messages.len() {
        after == before && !resize
    } else {
        exists|between: Stack<C, S, H>, earlier: bool, here: bool|
            {
                &&& #[trigger] waypoint(between, earlier, here)
                &&& messages_handled(root, before, messages, n - 1, between, earlier)
                &&& message_handled(root, between, &messages[n - 1], after, here)
                &&& resize == (earlier || here)
            }
    }
}

/// Whether handing `event` to the tree of `root_before` can leave the driver,
/// its queue and the tree as the values marked `after` say, with
/// `request_redraw` as the answer to the shell. The idle event changes
/// nothing. Any other event goes through the tree, and the handlers that it
/// sets off queue their messages; then the queue is emptied and every
/// message handled in turn. The view is to be drawn if a widget asked for it,
/// and to be laid out again if a widget asked for that on a message.
pub open spec fn dispatched<
    Msg: EmptyMessage,
    C: Fn(State) -> (State, Msg),
    S: Fn(Fraction, State) -> (State, Msg),
    H: Fn(&Msg, State) -> (State, Option<String>),
    K: Fn(Stack<C, S, H>, &Msg) -> Stack<C, S, H>,
>(
    before: DriverView,
    queue_before: Seq<Msg>,
    root_before: Root<C, S, H, K>,
    event: ApplicationEvent,
    after: DriverView,
    queue_after: Seq<Msg>,
    root_after: Root<C, S, H, K>,
    request_redraw: bool,
) -> bool {
    &&& root_after.hook == root_before.hook
    &&& event is Idle ==> {
        &&& !request_redraw
        &&& root_after.view == root_before.view
        &&& after == before
        &&& queue_after == queue_before
    }
    &&& !(event is Idle) ==> {
        &&& queue_after == Seq::<Msg>::empty()
        &&& ready(root_after.view@)
        &&& exists|offered: Stack<C, S, H>, queued: Seq<Msg>, resize: bool|
            {
                &&& #[trigger] messages_handled(
                    root_before,
                    offered,
                    queued,
                    queued.len() as int,
                    root_after.view,
                    resize,
                )
                &&& offered@.state is Some
                &&& offered@ == (StackView {
                    state: offered@.state,
                    ..root_before.view@.after_event(event)
                })
                &&& ran(
                    root_before.view@.firings(event),
                    root_before.view@.state->0,
                    queue_before,
                    offered@.state->0,
                    queued,
                )
                &&& after == (DriverView {
                    should_render: before.should_render || root_before.view@.redraws(event),
                    should_resize: before.should_resize || resize,
                    ..before
                })
            }
        &&& request_redraw == (!after.is_minimized && (after.should_resize || after.should_render))
    }
}

impl<Msg: EmptyMessage> Driver<Msg> {
    /// Hands an input event to the view tree. The event goes through the
    /// tree first, and the handlers it sets off queue their messages. Then
    /// the queue is emptied, and each message in turn is given to the hook
    /// and sent through the tree. Returns whether the shell is to ask the
    /// window for a redraw: it is, unless the window is minimized, when the
    /// view is to be drawn or laid out again. The idle event does nothing.
    pub fn dispatch<
        C: Fn(State) -> (State, Msg),
        S: Fn(Fraction, State) -> (State, Msg),
        H: Fn(&Msg, State) -> (State, Option<String>),
        K: Fn(Stack<C, S, H>, &Msg) -> Stack<C, S, H>,
    >(&mut self, root: &mut Root<C, S, H, K>, event: &ApplicationEvent) -> (request_redraw: bool)
        requires
            ready(old(root).view@),
            old(root).view@.accepts(*event),
            old(root).hook_total::<Msg>(),
            hook_keeps_ready(old(root).hook),
        ensures
            dispatched(
                old(self)@,
                old(self).message_queue@,
                *old(root),
                *event,
                final(self)@,
                final(self).message_queue@,
                *final(root),
                request_redraw,
            ),
    {
        if event.is_none() {
            return false;
        }
        let redraw = root.view.propagate_event(event, &mut self.message_queue);
        self.should_render = redraw || self.should_render;
        let ghost offered = root.view;
        let ghost resize_before = self.should_resize;
        let ghost root_before = *old(root);
        let messages = self.message_queue.drain();
        let ghost mut resize = false;
        let n = messages.len();
        let mut i: usize = 0;
        while i < n
            invariant
                0 <= i <= n,
                n == messages@.len(),
                root.hook == root_before.hook,
                ready(root.view@),
                root_before.hook_total::<Msg>(),
                hook_keeps_ready(root_before.hook),
                messages_handled(root_before, offered, messages@, i as int, root.view, resize),
                self.should_resize == (resize_before || resize),
                self.should_render == (old(self).should_render || old(root).view@.redraws(*event)),
                self.mouse_position == old(self).mouse_position,
                self.is_minimized == old(self).is_minimized,
                self.surface_size == old(self).surface_size,
                self.message_queue@ == Seq::<Msg>::empty(),
            decreases n - i,
        {
            let ghost between = root.view;
            let ghost earlier = resize;
            call_hook(root, &messages[i]);
            let ghost hooked = root.view;
            proof {
                assert(root_before.hooked(between, &messages@[i as int], hooked));
                assert(ready(hooked@));
            }
            let here = root.view.propagate_message(&messages[i]);
            self.should_resize = here || self.should_resize;
            proof {
                resize = earlier || here;
                assert(message_handled(root_before, between, &messages@[i as int], root.view, here));
                assert(waypoint(between, earlier, here));
            }
            i = i + 1;
        }
        proof {
            assert(waypoint(offered, false, false));
        }
        !self.is_minimized && (self.should_resize || self.should_render)
    }
}

/// Whether `after` is what a root view can be after it was initialized and
/// laid out in a window of the size `size`.
pub open spec fn laid_out_anew<C, S, H, M: Fn(&Metric) -> (u32, u32)>(
    before: StackView<C, S, H>,
    theme: Theme,
    measure: &M,
    size: (u32, u32),
    after: StackView<C, S, H>,
) -> bool {
    exists|initialized: StackView<C, S, H>|
        #[trigger] before.initializes_to(theme, measure, initialized) && after == initialized.laid_out(
            theme,
            size,
            true,
        )
}

/// Whether a root view can be initialized and laid out in a window of the
/// size `size`, whatever the renderer measures, and drawn afterwards.
pub open spec fn can_lay_out_anew<C, S, H, M: Fn(&Metric) -> (u32, u32)>(
    before: StackView<C, S, H>,
    theme: Theme,
    measure: &M,
    size: (u32, u32),
) -> bool {
    &&& before.can_init(theme)
    &&& forall|initialized: StackView<C, S, H>| #[trigger]
        before.initializes_to(theme, measure, initialized) ==> initialized.fits(theme, size, true)
            && initialized.laid_out(theme, size, true).can_render()
}

impl<Msg: EmptyMessage> Driver<Msg> {
    /// Whether the window is drawn when it next asks for it: it is, unless it
    /// is minimized, when the view is to be drawn or to be laid out again.
    pub open spec fn draws(self) -> bool {
        !self.is_minimized && (self.should_render || self.should_resize)
    }

    /// Initializes the view tree for the first time and lays it out in the
    /// drawing surface. Returns the size that the view takes, which the shell
    /// may give the window.
    pub fn start<C, S, H, M: Fn(&Metric) -> (u32, u32)>(
        &self,
        view: &mut Stack<C, S, H>,
        measure: &M,
        theme: &Theme,
    ) -> (size: (u32, u32))
        requires
            measures_all(measure),
            can_lay_out_anew(old(view)@, *theme, measure, self.surface_size),
        ensures
            laid_out_anew(old(view)@, *theme, measure, self.surface_size, final(view)@),
            size == (final(view)@.bounds.width, final(view)@.bounds.height),
    {
        view._init(measure, theme, true);
        view.layout(theme, self.surface_size, true);
        view.render_size()
    }

    /// Answers the window's request to be drawn. A view that is to be laid
    /// out again is initialized and laid out first. Then, unless the window
    /// is minimized or there is nothing new to draw, the commands that draw
    /// the view are returned, and the requests to draw and to lay out are
    /// cleared.
    pub fn redraw<C, S, H, M: Fn(&Metric) -> (u32, u32)>(
        &mut self,
        view: &mut Stack<C, S, H>,
        measure: &M,
        theme: &Theme,
    ) -> (commands: Option<Vec<DrawCommand>>)
        requires
            measures_all(measure),
            old(self).should_resize ==> can_lay_out_anew(
                old(view)@,
                *theme,
                measure,
                old(self).surface_size,
            ),
            !old(self).should_resize && old(self).draws() ==> old(view)@.can_render(),
        ensures
            if old(self).should_resize {
                laid_out_anew(old(view)@, *theme, measure, old(self).surface_size, final(view)@)
            } else {
                final(view)@ == old(view)@
            },
            match commands {
                Some(drawn) => old(self).draws() && drawn@ == final(view)@.drawn(),
                None => !old(self).draws(),
            },
            final(self).message_queue == old(self).message_queue,
            final(self)@ == if old(self).draws() {
                DriverView { should_render: false, should_resize: false, ..old(self)@ }
            } else {
                DriverView {
                    should_render: old(self).should_render || old(self).should_resize,
                    ..old(self)@
                }
            },
    {
        if self.should_resize {
            view._init(measure, theme, false);
            view.layout(theme, self.surface_size, true);
            self.should_render = true;
        }
        if !self.is_minimized && self.should_render {
            let commands = view.render(theme);
            self.should_render = false;
            self.should_resize = false;
            Some(commands)
        } else {
            None
        }
    }
}

/// Why a view tree could not be drawn anew.
#[derive(Clone, Copy, Debug, PartialEq, Eq, Structural)]
pub enum DriverError {
    /// A widget of the tree cannot be initialized: an image names no
    /// resource, or a circular button has no room for its image.
    CannotInit,
    /// The tree cannot be laid out: a size or a place is more than its type
    /// holds.
    CannotLayOut,
    /// A widget of the tree cannot be drawn: it lacks a colour, or its
    /// place is more than its type holds.
    CannotDraw,
    /// The root view has no store for the handlers to work on.
    NoState,
    /// A widget of the tree cannot take the event: the event would drag a
    /// slider further than coordinates reach.
    CannotTakeEvent,
}

/// Whether `after` is what a root view can be after it was initialized and,
/// as it could be, laid out in a window of the size `size`.
pub open spec fn laid_out_in_reach<C, S, H, M: Fn(&Metric) -> (u32, u32)>(
    before: StackView<C, S, H>,
    theme: Theme,
    measure: &M,
    size: (u32, u32),
    after: StackView<C, S, H>,
) -> bool {
    exists|initialized: StackView<C, S, H>|
        {
            &&& #[trigger] before.initializes_to(theme, measure, initialized)
            &&& initialized.fits(theme, size, true)
            &&& after == initialized.laid_out(theme, size, true)
        }
}

/// Whether `after` is what is left of a root view that was initialized and
/// then could not be laid out in a window of the size `size`: nothing but
/// the places of its widgets and the bounds of its views is other than in
/// the view as it was initialized.
pub open spec fn laid_out_of_reach<C, S, H, M: Fn(&Metric) -> (u32, u32)>(
    before: StackView<C, S, H>,
    theme: Theme,
    measure: &M,
    size: (u32, u32),
    after: StackView<C, S, H>,
) -> bool {
    exists|initialized: StackView<C, S, H>|
        {
            &&& #[trigger] before.initializes_to(theme, measure, initialized)
            &&& !initialized.fits(theme, size, true)
            &&& after.alike(initialized)
        }
}

impl<Msg: EmptyMessage> Driver<Msg> {
    /// Initializes the view tree for the first time and lays it out in the
    /// drawing surface, if that can be done: see [`Driver::start`]. Returns
    /// the size that the view takes, or says what could not be done.
    pub fn try_start<C, S, H, M: Fn(&Metric) -> (u32, u32)>(
        &self,
        view: &mut Stack<C, S, H>,
        measure: &M,
        theme: &Theme,
    ) -> (size: Result<(u32, u32), DriverError>)
        requires
            measures_all(measure),
        ensures
            match size {
                Ok(size) => {
                    &&& old(view)@.can_init(*theme)
                    &&& laid_out_in_reach(old(view)@, *theme, measure, self.surface_size, final(view)@)
                    &&& size == (final(view)@.bounds.width, final(view)@.bounds.height)
                },
                Err(DriverError::CannotInit) => !old(view)@.can_init(*theme) && final(view)@ == old(
                    view,
                )@,
                Err(DriverError::CannotLayOut) => old(view)@.can_init(*theme) && laid_out_of_reach(
                    old(view)@,
                    *theme,
                    measure,
                    self.surface_size,
                    final(view)@,
                ),
                Err(_) => false,
            },
    {
        if !view.check_init(theme) {
            return Err(DriverError::CannotInit);
        }
        view._init(measure, theme, true);
        if !view.try_layout(theme, self.surface_size, true) {
            return Err(DriverError::CannotLayOut);
        }
        Ok(view.render_size())
    }

    /// Answers the window's request to be drawn, if that can be done: see
    /// [`Driver::redraw`]. Returns the commands that draw the view, if it is
    /// to be drawn, or says what could not be done. Where something could
    /// not be done, the driver stays as it was.
    pub fn try_redraw<C, S, H, M: Fn(&Metric) -> (u32, u32)>(
        &mut self,
        view: &mut Stack<C, S, H>,
        measure: &M,
        theme: &Theme,
    ) -> (commands: Result<Option<Vec<DrawCommand>>, DriverError>)
        requires
            measures_all(measure),
        ensures
            final(self).message_queue == old(self).message_queue,
            match commands {
                Ok(commands) => {
                    &&& if old(self).should_resize {
                        old(view)@.can_init(*theme) && laid_out_in_reach(
                            old(view)@,
                            *theme,
                            measure,
                            old(self).surface_size,
                            final(view)@,
                        )
                    } else {
                        final(view)@ == old(view)@
                    }
                    &&& match commands {
                        Some(drawn) => old(self).draws() && final(view)@.can_render() && drawn@
                            == final(view)@.drawn(),
                        None => !old(self).draws(),
                    }
                    &&& final(self)@ == if old(self).draws() {
                        DriverView { should_render: false, should_resize: false, ..old(self)@ }
                    } else {
                        DriverView {
                            should_render: old(self).should_render || old(self).should_resize,
                            ..old(self)@
                        }
                    }
                },
                Err(DriverError::CannotInit) => {
                    &&& old(self).should_resize
                    &&& !old(view)@.can_init(*theme)
                    &&& final(view)@ == old(view)@
                    &&& final(self)@ == old(self)@
                },
                Err(DriverError::CannotLayOut) => {
                    &&& old(self).should_resize
                    &&& old(view)@.can_init(*theme)
                    &&& laid_out_of_reach(
                        old(view)@,
                        *theme,
                        measure,
                        old(self).surface_size,
                        final(view)@,
                    )
                    &&& final(self)@ == old(self)@
                },
                Err(DriverError::CannotDraw) => {
                    &&& old(self).draws()
                    &&& !final(view)@.can_render()
                    &&& if old(self).should_resize {
                        old(view)@.can_init(*theme) && laid_out_in_reach(
                            old(view)@,
                            *theme,
                            measure,
                            old(self).surface_size,
                            final(view)@,
                        )
                    } else {
                        final(view)@ == old(view)@
                    }
                    &&& final(self)@ == old(self)@
                },
                Err(_) => false,
            },
    {
        if self.should_resize {
            if !view.check_init(theme) {
                return Err(DriverError::CannotInit);
            }
            view._init(measure, theme, false);
            if !view.try_layout(theme, self.surface_size, true) {
                return Err(DriverError::CannotLayOut);
            }
        }
        if !self.is_minimized && (self.should_render || self.should_resize) {
            if !view.check_render() {
                return Err(DriverError::CannotDraw);
            }
            let commands = view.render(theme);
            self.should_render = false;
            self.should_resize = false;
            Ok(Some(commands))
        } else {
            if self.should_resize {
                self.should_render = true;
            }
            Ok(None)
        }
    }
}

impl<Msg: EmptyMessage> Driver<Msg> {
    /// Hands an input event to the view tree, if the tree can take it: see
    /// [`Driver::dispatch`]. Returns whether the shell is to ask the window
    /// for a redraw, or says why the tree cannot take the event, in which
    /// case nothing has changed.
    pub fn try_dispatch<
        C: Fn(State) -> (State, Msg),
        S: Fn(Fraction, State) -> (State, Msg),
        H: Fn(&Msg, State) -> (State, Option<String>),
        K: Fn(Stack<C, S, H>, &Msg) -> Stack<C, S, H>,
    >(&mut self, root: &mut Root<C, S, H, K>, event: &ApplicationEvent) -> (request_redraw: Result<
        bool,
        DriverError,
    >)
        requires
            old(root).view@.handlers_total(),
            old(root).hook_total::<Msg>(),
            hook_keeps_ready(old(root).hook),
        ensures
            match request_redraw {
                Ok(request_redraw) => {
                    &&& *event is Idle || (old(root).view@.state is Some && old(root).view@.accepts(
                        *event,
                    ))
                    &&& dispatched(
                        old(self)@,
                        old(self).message_queue@,
                        *old(root),
                        *event,
                        final(self)@,
                        final(self).message_queue@,
                        *final(root),
                        request_redraw,
                    )
                },
                Err(DriverError::NoState) => {
                    &&& !(*event is Idle)
                    &&& old(root).view@.state is None
                    &&& *final(root) == *old(root)
                    &&& *final(self) == *old(self)
                },
                Err(DriverError::CannotTakeEvent) => {
                    &&& !(*event is Idle)
                    &&& old(root).view@.state is Some
                    &&& !old(root).view@.accepts(*event)
                    &&& *final(root) == *old(root)
                    &&& *final(self) == *old(self)
                },
                Err(_) => false,
            },
    {
        if event.is_none() {
            return Ok(false);
        }
        if root.view.state.is_none() {
            return Err(DriverError::NoState);
        }
        if !root.view.check_event(event) {
            return Err(DriverError::CannotTakeEvent);
        }
        Ok(self.dispatch(root, event))
    }
}

} // verus!
