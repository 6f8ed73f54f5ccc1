//! The widgets: the leaves of a view tree.

use vstd::prelude::*;

pub mod button;
pub mod circle_button;
pub mod image;
pub mod scroll_bar;
pub mod text;

pub use button::Button;
pub use circle_button::{CircleButton, Contents};
pub use image::Image;
pub use scroll_bar::ScrollBar;
pub use text::{Text, TextCharacter};

use crate::event::ApplicationEvent;
use crate::handler::{ran, ran_none, ran_one, Firing, Fraction};
use crate::message::{EmptyMessage, MessageQueue};
use crate::render::{measures_all, DrawCommand, Metric};
use crate::state::State;
use crate::style::Theme;
use crate::EventResponse;

verus! {

/// A widget of any of the kinds that the toolkit has.
pub enum Widget<C, S, H> {
    Button(Button<C, H>),
    CircleButton(CircleButton<C, H>),
    Text(Text<H>),
    Image(Image),
    ScrollBar(ScrollBar<S>),
}

impl<C, S, H> Widget<C, S, H> {
    /// The widget's name.
    pub open spec fn name(self) -> &'static str {
        match self {
            Widget::Button(w) => w.id,
            Widget::CircleButton(w) => w.id,
            Widget::Text(w) => w.id,
            Widget::Image(w) => w.id,
            Widget::ScrollBar(w) => w.id,
        }
    }

    /// The widget's size as `(width, height)`.
    pub open spec fn size(self) -> (u32, u32) {
        match self {
            Widget::Button(w) => w.size(),
            Widget::CircleButton(w) => w.size(),
            Widget::Text(w) => w.size(),
            Widget::Image(w) => w.size(),
            Widget::ScrollBar(w) => w.size(),
        }
    }

    /// Whether the widget can be put at `(x, y)`.
    pub open spec fn can_place(self, x: i32, y: i32) -> bool {
        match self {
            Widget::Button(w) => w.can_place(x, y),
            Widget::CircleButton(w) => w.can_place(x, y),
            Widget::Text(_) => true,
            Widget::Image(_) => true,
            Widget::ScrollBar(_) => true,
        }
    }

    /// The widget with its top-left corner at `(x, y)`.
    pub open spec fn placed(self, x: i32, y: i32) -> Self {
        match self {
            Widget::Button(w) => Widget::Button(w.placed(x, y)),
            Widget::CircleButton(w) => Widget::CircleButton(w.placed(x, y)),
            Widget::Text(w) => Widget::Text(w.placed(x, y)),
            Widget::Image(w) => Widget::Image(w.placed(x, y)),
            Widget::ScrollBar(w) => Widget::ScrollBar(w.placed(x, y)),
        }
    }

    /// Whether the widget can move by `(dx, dy)`.
    pub open spec fn can_translate(self, dx: int, dy: int) -> bool {
        match self {
            Widget::Button(w) => w.can_translate(dx, dy),
            Widget::CircleButton(w) => w.can_translate(dx, dy),
            Widget::Text(w) => w.can_translate(dx, dy),
            Widget::Image(w) => w.can_translate(dx, dy),
            Widget::ScrollBar(w) => w.can_translate(dx, dy),
        }
    }

    /// The widget moved by `(dx, dy)`.
    pub open spec fn translated(self, dx: int, dy: int) -> Self {
        match self {
            Widget::Button(w) => Widget::Button(w.translated(dx, dy)),
            Widget::CircleButton(w) => Widget::CircleButton(w.translated(dx, dy)),
            Widget::Text(w) => Widget::Text(w.translated(dx, dy)),
            Widget::Image(w) => Widget::Image(w.translated(dx, dy)),
            Widget::ScrollBar(w) => Widget::ScrollBar(w.translated(dx, dy)),
        }
    }

    /// Whether the widget can take the event.
    pub open spec fn accepts(self, event: ApplicationEvent) -> bool {
        match self {
            Widget::ScrollBar(w) => w.accepts(event),
            _ => true,
        }
    }

    /// The widget after an event.
    pub open spec fn after_event(self, event: ApplicationEvent) -> Self {
        match self {
            Widget::Button(w) => Widget::Button(w.after_event(event)),
            Widget::CircleButton(w) => Widget::CircleButton(w.after_event(event)),
            Widget::Text(w) => Widget::Text(w),
            Widget::Image(w) => Widget::Image(w),
            Widget::ScrollBar(w) => Widget::ScrollBar(w.after_event(event)),
        }
    }

    /// What the widget answers to an event.
    pub open spec fn response(self, event: ApplicationEvent) -> EventResponse {
        match self {
            Widget::Button(w) => w.response(event),
            Widget::CircleButton(w) => w.response(event),
            Widget::Text(_) => EventResponse::Pass,
            Widget::Image(_) => EventResponse::Pass,
            Widget::ScrollBar(w) => w.response(event),
        }
    }

    /// The handlers that an event sets off on the widget: none or one.
    pub open spec fn firings(self, event: ApplicationEvent) -> Seq<Firing<C, S>> {
        match self {
            Widget::Button(w) => if w.clicks(event) && w.on_click is Some {
                seq![Firing::Click(w.on_click->0)]
            } else {
                Seq::empty()
            },
            Widget::CircleButton(w) => if w.clicks(event) && w.on_click is Some {
                seq![Firing::Click(w.on_click->0)]
            } else {
                Seq::empty()
            },
            Widget::ScrollBar(w) => if w.scrolls_to(event) is Some && w.on_scroll is Some {
                seq![Firing::Scroll(w.on_scroll->0, w.scrolls_to(event)->0)]
            } else {
                Seq::empty()
            },
            _ => Seq::empty(),
        }
    }

    /// Whether the widget asks for the view to be laid out again.
    pub open spec fn resize_pending(self) -> bool {
        match self {
            Widget::Button(w) => w.should_resize,
            Widget::CircleButton(w) => w.should_resize,
            Widget::Text(w) => w.should_resize,
            Widget::Image(w) => w.should_resize,
            Widget::ScrollBar(w) => w.should_resize,
        }
    }

    /// The widget with its request to be laid out again cleared.
    pub open spec fn settled(self) -> Self {
        match self {
            Widget::Button(w) => Widget::Button(Button { should_resize: false, ..w }),
            Widget::CircleButton(w) => Widget::CircleButton(
                CircleButton { should_resize: false, ..w },
            ),
            Widget::Text(w) => Widget::Text(Text { should_resize: false, ..w }),
            Widget::Image(w) => Widget::Image(Image { should_resize: false, ..w }),
            Widget::ScrollBar(w) => Widget::ScrollBar(ScrollBar { should_resize: false, ..w }),
        }
    }

    /// Whether the widget can be initialized under `theme`.
    pub open spec fn can_init(self, theme: Theme) -> bool {
        match self {
            Widget::CircleButton(w) => w.can_init(theme),
            Widget::Image(w) => w.resource@.len() > 0,
            _ => true,
        }
    }

    /// Whether `after` is what initializing the widget can give, with
    /// `measure` as the renderer.
    pub open spec fn initializes_to<M: Fn(&Metric) -> (u32, u32)>(
        self,
        theme: Theme,
        measure: &M,
        after: Self,
    ) -> bool {
        match self {
            Widget::Button(w) => after matches Widget::Button(a) && w.initializes_to(theme, measure, a),
            Widget::CircleButton(w) => after matches Widget::CircleButton(a) && w.initializes_to(
                theme,
                measure,
                a,
            ),
            Widget::Text(w) => after matches Widget::Text(a) && w.initializes_to(theme, measure, a),
            Widget::Image(w) => after matches Widget::Image(a) && w.initializes_to(measure, a),
            Widget::ScrollBar(w) => after == Widget::<C, S, H>::ScrollBar(w.initialized(theme)),
        }
    }

    /// Whether the widget has all it needs to be drawn.
    pub open spec fn can_render(self) -> bool {
        match self {
            Widget::Button(w) => w.color is Some,
            Widget::CircleButton(w) => w.color is Some && w.bounds.midpoint().0 <= i32::MAX
                && w.bounds.midpoint().1 <= i32::MAX,
            Widget::ScrollBar(w) => w.styled(),
            _ => true,
        }
    }

    /// What the widget draws.
    pub open spec fn drawn(self) -> Seq<DrawCommand> {
        match self {
            Widget::Button(w) => w.drawn(),
            Widget::CircleButton(w) => w.drawn(),
            Widget::Text(w) => w.drawn(),
            Widget::Image(w) => w.drawn(),
            Widget::ScrollBar(w) => w.drawn(),
        }
    }

    /// The widget as a button, to be changed in its place; `None` if it
    /// is of another kind.
    pub fn as_button(&mut self) -> (cast: Option<&mut Button<C, H>>)
        ensures
            match *old(self) {
                Widget::Button(w) => cast is Some && *cast.unwrap() == w && *final(self)
                    == Widget::<C, S, H>::Button(*final(cast.unwrap())),
                _ => cast is None && *final(self) == *old(self),
            },
    {
        match self {
            Widget::Button(w) => Some(w),
            _ => None,
        }
    }

    /// The widget as a circular button, to be changed in its place; `None` if it
    /// is of another kind.
    pub fn as_circle_button(&mut self) -> (cast: Option<&mut CircleButton<C, H>>)
        ensures
            match *old(self) {
                Widget::CircleButton(w) => cast is Some && *cast.unwrap() == w && *final(self)
                    == Widget::<C, S, H>::CircleButton(*final(cast.unwrap())),
                _ => cast is None && *final(self) == *old(self),
            },
    {
        match self {
            Widget::CircleButton(w) => Some(w),
            _ => None,
        }
    }

    /// The widget as a text, to be changed in its place; `None` if it
    /// is of another kind.
    pub fn as_text(&mut self) -> (cast: Option<&mut Text<H>>)
        ensures
            match *old(self) {
                Widget::Text(w) => cast is Some && *cast.unwrap() == w && *final(self)
                    == Widget::<C, S, H>::Text(*final(cast.unwrap())),
                _ => cast is None && *final(self) == *old(self),
            },
    {
        match self {
            Widget::Text(w) => Some(w),
            _ => None,
        }
    }

    /// The widget as an image, to be changed in its place; `None` if it
    /// is of another kind.
    pub fn as_image(&mut self) -> (cast: Option<&mut Image>)
        ensures
            match *old(self) {
                Widget::Image(w) => cast is Some && *cast.unwrap() == w && *final(self)
                    == Widget::<C, S, H>::Image(*final(cast.unwrap())),
                _ => cast is None && *final(self) == *old(self),
            },
    {
        match self {
            Widget::Image(w) => Some(w),
            _ => None,
        }
    }

    /// The widget as a scroll bar, to be changed in its place; `None` if it
    /// is of another kind.
    pub fn as_scroll_bar(&mut self) -> (cast: Option<&mut ScrollBar<S>>)
        ensures
            match *old(self) {
                Widget::ScrollBar(w) => cast is Some && *cast.unwrap() == w && *final(self)
                    == Widget::<C, S, H>::ScrollBar(*final(cast.unwrap())),
                _ => cast is None && *final(self) == *old(self),
            },
    {
        match self {
            Widget::ScrollBar(w) => Some(w),
            _ => None,
        }
    }

    /// Whether the widget can be initialized under `theme`.
    pub fn check_init(&self, theme: &Theme) -> (ok: bool)
        ensures
            ok == self.can_init(*theme),
    {
        match self {
            Widget::CircleButton(w) => w.check_init(theme),
            Widget::Image(w) => w.has_resource(),
            _ => true,
        }
    }

    /// Whether the widget has all it needs to be drawn.
    pub fn check_render(&self) -> (ok: bool)
        ensures
            ok == self.can_render(),
    {
        match self {
            Widget::Button(w) => w.color.is_some(),
            Widget::CircleButton(w) => w.check_render(),
            Widget::ScrollBar(w) => w.check_render(),
            _ => true,
        }
    }

    /// Whether the widget can take the event.
    pub fn check_event(&self, event: &ApplicationEvent) -> (ok: bool)
        ensures
            ok == self.accepts(*event),
    {
        match self {
            Widget::ScrollBar(w) => w.check_event(event),
            _ => true,
        }
    }

    /// Whether the widget can be put at `(x, y)`.
    pub fn check_place(&self, x: i32, y: i32) -> (ok: bool)
        ensures
            ok == self.can_place(x, y),
    {
        match self {
            Widget::Button(w) => w.check_place(x, y),
            Widget::CircleButton(w) => w.check_place(x, y),
            _ => true,
        }
    }

    /// Whether the widget can move by `(dx, dy)`.
    pub fn check_translate(&self, dx: i32, dy: i32) -> (ok: bool)
        ensures
            ok == self.can_translate(dx as int, dy as int),
    {
        match self {
            Widget::Button(w) => w.check_translate(dx, dy),
            Widget::CircleButton(w) => w.check_translate(dx, dy),
            Widget::Text(w) => w.check_translate(dx, dy),
            Widget::Image(w) => w.check_translate(dx, dy),
            Widget::ScrollBar(w) => w.check_translate(dx, dy),
        }
    }

    pub fn id(&self) -> (id: &'static str)
        ensures
            id == self.name(),
    {
        match self {
            Widget::Button(w) => w.id(),
            Widget::CircleButton(w) => w.id(),
            Widget::Text(w) => w.id(),
            Widget::Image(w) => w.id(),
            Widget::ScrollBar(w) => w.id(),
        }
    }

    /// The widget with its request to be laid out again set to `flag`.
    pub open spec fn with_request(self, flag: bool) -> Self {
        match self {
            Widget::Button(w) => Widget::Button(Button { should_resize: flag, ..w }),
            Widget::CircleButton(w) => Widget::CircleButton(CircleButton { should_resize: flag, ..w }),
            Widget::Text(w) => Widget::Text(Text { should_resize: flag, ..w }),
            Widget::Image(w) => Widget::Image(Image { should_resize: flag, ..w }),
            Widget::ScrollBar(w) => Widget::ScrollBar(ScrollBar { should_resize: flag, ..w }),
        }
    }

    /// The widget's request to be laid out again, to be read and written.
    pub fn should_resize(&mut self) -> (flag: &mut bool)
        ensures
            *flag == old(self).resize_pending(),
            *final(self) == old(self).with_request(*final(flag)),
    {
        match self {
            Widget::Button(w) => w.should_resize(),
            Widget::CircleButton(w) => w.should_resize(),
            Widget::Text(w) => w.should_resize(),
            Widget::Image(w) => w.should_resize(),
            Widget::ScrollBar(w) => w.should_resize(),
        }
    }

    /// Whether the widget asked to be laid out again; the question clears the
    /// request.
    pub fn check_if_should_resize_then_reset_to_false(&mut self) -> (should: bool)
        ensures
            should == old(self).resize_pending(),
            *final(self) == old(self).settled(),
    {
        match self {
            Widget::Button(w) => w.check_if_should_resize_then_reset_to_false(),
            Widget::CircleButton(w) => w.check_if_should_resize_then_reset_to_false(),
            Widget::Text(w) => w.check_if_should_resize_then_reset_to_false(),
            Widget::Image(w) => w.check_if_should_resize_then_reset_to_false(),
            Widget::ScrollBar(w) => w.check_if_should_resize_then_reset_to_false(),
        }
    }

    /// Whether the widget is to be initialized again before every layout.
    pub fn should_reinit_before_layout(&self) -> (again: bool)
        ensures
            again,
    {
        match self {
            Widget::Button(w) => w.should_reinit_before_layout(),
            Widget::CircleButton(w) => w.should_reinit_before_layout(),
            Widget::Text(w) => w.should_reinit_before_layout(),
            Widget::Image(w) => w.should_reinit_before_layout(),
            Widget::ScrollBar(w) => w.should_reinit_before_layout(),
        }
    }

    /// Fills in from the theme what the application left open, and takes the
    /// widget's size from what the renderer measures.
    pub fn init<M: Fn(&Metric) -> (u32, u32)>(&mut self, measure: &M, theme: &Theme)
        requires
            measures_all(measure),
            old(self).can_init(*theme),
        ensures
            old(self).initializes_to(*theme, measure, *final(self)),
    {
        match self {
            Widget::Button(w) => w.init(measure, theme),
            Widget::CircleButton(w) => w.init(measure, theme),
            Widget::Text(w) => w.init(measure, theme),
            Widget::Image(w) => w.init(measure, theme),
            Widget::ScrollBar(w) => w.init(theme),
        }
    }

    /// Puts the widget's top-left corner at `(x, y)`.
    pub fn place(&mut self, x: i32, y: i32)
        requires
            old(self).can_place(x, y),
        ensures
            *final(self) == old(self).placed(x, y),
    {
        match self {
            Widget::Button(w) => w.place(x, y),
            Widget::CircleButton(w) => w.place(x, y),
            Widget::Text(w) => w.place(x, y),
            Widget::Image(w) => w.place(x, y),
            Widget::ScrollBar(w) => w.place(x, y),
        }
    }

    /// Moves the widget by `(dx, dy)`, and all that it holds with it.
    pub fn translate(&mut self, dx: i32, dy: i32)
        requires
            old(self).can_translate(dx as int, dy as int),
        ensures
            *final(self) == old(self).translated(dx as int, dy as int),
    {
        match self {
            Widget::Button(w) => w.translate(dx, dy),
            Widget::CircleButton(w) => w.translate(dx, dy),
            Widget::Text(w) => w.translate(dx, dy),
            Widget::Image(w) => w.translate(dx, dy),
            Widget::ScrollBar(w) => w.translate(dx, dy),
        }
    }

    /// The widget's size as it was last measured.
    pub fn render_size(&self, theme: &Theme) -> (size: (u32, u32))
        ensures
            size == self.size(),
    {
        match self {
            Widget::Button(w) => w.render_size(theme),
            Widget::CircleButton(w) => w.render_size(theme),
            Widget::Text(w) => w.render_size(theme),
            Widget::Image(w) => w.render_size(theme),
            Widget::ScrollBar(w) => w.render_size(theme),
        }
    }

    /// The commands that draw the widget.
    pub fn render(&self, theme: &Theme) -> (commands: Vec<DrawCommand>)
        requires
            self.can_render(),
        ensures
            commands@ == self.drawn(),
    {
        match self {
            Widget::Button(w) => w.render(theme),
            Widget::CircleButton(w) => w.render(theme),
            Widget::Text(w) => w.render(theme),
            Widget::Image(w) => w.render(theme),
            Widget::ScrollBar(w) => w.render(theme),
        }
    }
}

impl<
    Msg: EmptyMessage,
    C: Fn(State) -> (State, Msg),
    S: Fn(Fraction, State) -> (State, Msg),
    H: Fn(&Msg, State) -> (State, Option<String>),
> Widget<C, S, H> {
    /// Whether every handler of the widget can be called on whatever it may
    /// be called on.
    pub open spec fn handlers_total(self) -> bool {
        match self {
            Widget::Button(w) => w.handler_total(),
            Widget::CircleButton(w) => w.handler_total(),
            Widget::Text(w) => w.handler_total::<Msg>(),
            Widget::Image(_) => true,
            Widget::ScrollBar(w) => w.handler_total(),
        }
    }

    /// Whether `(after, state_after)` is what the widget and the state can be
    /// after `message` reached the widget at `state`. Only a text has a
    /// handler for messages.
    pub open spec fn handles(self, message: &Msg, state: State, after: Self, state_after: State) -> bool {
        match self {
            Widget::Text(w) => after matches Widget::Text(a) && w.handles(message, state, a, state_after),
            _ => after == self && state_after == state,
        }
    }

    /// Hands an event to the widget.
    pub fn handle_event(
        &mut self,
        event: &ApplicationEvent,
        state: &mut State,
        message_queue: &mut MessageQueue<Msg>,
    ) -> (response: EventResponse)
        requires
            old(self).handlers_total(),
            old(self).accepts(*event),
        ensures
            *final(self) == old(self).after_event(*event),
            response == old(self).response(*event),
            ran(
                old(self).firings(*event),
                *old(state),
                old(message_queue)@,
                *final(state),
                final(message_queue)@,
            ),
    {
        let ghost state_before = *state;
        let ghost queue_before = message_queue@;
        match self {
            Widget::Button(w) => {
                let response = w.handle_event(event, state, message_queue);
                proof {
                    if old(self)->Button_0.clicks(*event) && old(self)->Button_0.on_click is Some {
                        let handler = old(self)->Button_0.on_click->0;
                        let message = choose|message: Msg|
                            #[trigger] call_ensures(handler, (state_before,), (*state, message))
                                && message_queue@ == crate::message::enqueued(queue_before, message);
                        ran_one::<Msg, C, S>(
                            Firing::Click(handler),
                            state_before,
                            queue_before,
                            (*state, message),
                        );
                    } else {
                        ran_none::<Msg, C, S>(state_before, queue_before);
                    }
                }
                response
            },
            Widget::CircleButton(w) => {
                let response = w.handle_event(event, state, message_queue);
                proof {
                    if old(self)->CircleButton_0.clicks(*event) && old(self)->CircleButton_0.on_click
                        is Some {
                        let handler = old(self)->CircleButton_0.on_click->0;
                        let message = choose|message: Msg|
                            #[trigger] call_ensures(handler, (state_before,), (*state, message))
                                && message_queue@ == crate::message::enqueued(queue_before, message);
                        ran_one::<Msg, C, S>(
                            Firing::Click(handler),
                            state_before,
                            queue_before,
                            (*state, message),
                        );
                    } else {
                        ran_none::<Msg, C, S>(state_before, queue_before);
                    }
                }
                response
            },
            Widget::Text(w) => {
                proof {
                    ran_none::<Msg, C, S>(state_before, queue_before);
                }
                w.handle_event(event)
            },
            Widget::Image(w) => {
                proof {
                    ran_none::<Msg, C, S>(state_before, queue_before);
                }
                w.handle_event(event)
            },
            Widget::ScrollBar(w) => {
                let response = w.handle_event(event, state, message_queue);
                proof {
                    let bar = old(self)->ScrollBar_0;
                    if bar.scrolls_to(*event) is Some && bar.on_scroll is Some {
                        let handler = bar.on_scroll->0;
                        let at = bar.scrolls_to(*event)->0;
                        let message = choose|message: Msg|
                            #[trigger] call_ensures(handler, (at, state_before), (*state, message))
                                && message_queue@ == crate::message::enqueued(queue_before, message);
                        ran_one::<Msg, C, S>(
                            Firing::Scroll(handler, at),
                            state_before,
                            queue_before,
                            (*state, message),
                        );
                    } else {
                        ran_none::<Msg, C, S>(state_before, queue_before);
                    }
                }
                response
            },
        }
    }

    /// Hands a message to the widget.
    pub fn handle_message(&mut self, message: &Msg, state: &mut State)
        requires
            old(self).handlers_total(),
        ensures
            old(self).handles(message, *old(state), *final(self), *final(state)),
    {
        match self {
            Widget::Text(w) => w.handle_message(message, state),
            _ => {},
        }
    }
}

} // verus!
