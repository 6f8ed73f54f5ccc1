//! Rectangular buttons.

use vstd::prelude::*;
use crate::bounding_rect::{center_offset, centering, BoundingRect};
use crate::event::{ApplicationEvent, ButtonState, MouseButton};
use crate::message::{enqueued, EmptyMessage, MessageQueue};
use crate::render::{measures_all, DrawCommand, Metric};
use crate::state::State;
use crate::style::{Color, Theme};
use crate::widget::text::Text;
use crate::EventResponse;

verus! {

/// A rectangular button, with a text on it or without. It registers a click
/// when the left button of the mouse goes down on it and comes up on it.
pub struct Button<C, H> {
    pub id: &'static str,
    pub bounds: BoundingRect,
    pub text: Option<Text<H>>,
    /// Called when a click is complete; it may change the state, and answers
    /// with the message to send.
    pub on_click: Option<C>,
    /// The colour of the button; the theme's primary colour where none is set.
    pub color: Option<Color>,
    /// How round the corners are, in percent; the theme's where none is set.
    pub roundness: Option<u32>,
    /// Whether the left button went down on the button and has not come up
    /// since.
    pub mouse_down_in_bounds: bool,
    pub should_resize: bool,
}

impl<C, H> Button<C, H> {
    /// The widget's size as `(width, height)`.
    pub open spec fn size(self) -> (u32, u32) {
        (self.bounds.width, self.bounds.height)
    }

    /// Whether a point is on the button.
    pub open spec fn hit(self, position: (i32, i32)) -> bool {
        self.bounds.holds(position.0 as int, position.1 as int)
    }

    /// Whether `event` completes a click: the left button comes up on the
    /// button after it went down on it.
    pub open spec fn clicks(self, event: ApplicationEvent) -> bool {
        event.left_release() matches Some(position) && self.mouse_down_in_bounds && self.hit(position)
    }

    /// The button after an event.
    pub open spec fn after_event(self, event: ApplicationEvent) -> Self {
        match event.left_press() {
            Some(position) => if self.hit(position) {
                Button { mouse_down_in_bounds: true, ..self }
            } else {
                self
            },
            None => match event.left_release() {
                Some(_) => Button { mouse_down_in_bounds: false, ..self },
                None => self,
            },
        }
    }

    /// What the button answers to an event.
    pub open spec fn response(self, event: ApplicationEvent) -> EventResponse {
        if event.left_press() matches Some(position) && self.hit(position) {
            EventResponse::Consume
        } else if self.clicks(event) {
            EventResponse::Consume
        } else {
            EventResponse::Pass
        }
    }

    /// Whether the button can be put at `(x, y)`: its text, moved to the
    /// middle, must stay where coordinates reach.
    pub open spec fn can_place(self, x: i32, y: i32) -> bool {
        self.text matches Some(text) ==> text.placed(x, y).can_translate(
            centering(self.bounds.width, text.bounds.width),
            centering(self.bounds.height, text.bounds.height),
        )
    }

    /// The button with its top-left corner at `(x, y)` and its text in its
    /// middle.
    pub open spec fn placed(self, x: i32, y: i32) -> Self {
        Button {
            bounds: self.bounds.at(x, y),
            text: match self.text {
                Some(text) => Some(
                    text.placed(x, y).translated(
                        centering(self.bounds.width, text.bounds.width),
                        centering(self.bounds.height, text.bounds.height),
                    ),
                ),
                None => None,
            },
            ..self
        }
    }

    /// Whether the button can move by `(dx, dy)`.
    pub open spec fn can_translate(self, dx: int, dy: int) -> bool {
        &&& self.bounds.can_move(dx, dy)
        &&& self.text matches Some(text) ==> text.can_translate(dx, dy)
    }

    /// The button moved by `(dx, dy)`, its text with it.
    pub open spec fn translated(self, dx: int, dy: int) -> Self {
        Button {
            bounds: self.bounds.moved(dx, dy),
            text: match self.text {
                Some(text) => Some(text.translated(dx, dy)),
                None => None,
            },
            ..self
        }
    }

    /// The roundness of the corners under a theme.
    pub open spec fn roundness_under(self, theme: Theme) -> u32 {
        match self.roundness {
            Some(roundness) => roundness,
            None => theme.widget_styles.buttons.roundness,
        }
    }

    /// The colour of the button under a theme.
    pub open spec fn color_under(self, theme: Theme) -> Color {
        match self.color {
            Some(color) => color,
            None => theme.colors.primary,
        }
    }

    /// Whether `after` is what initializing the button can give, with
    /// `measure` as the renderer: the style is filled in from the theme, and
    /// the text is initialized.
    pub open spec fn initializes_to<M: Fn(&Metric) -> (u32, u32)>(
        self,
        theme: Theme,
        measure: &M,
        after: Self,
    ) -> bool {
        &&& after == (Button {
            roundness: Some(self.roundness_under(theme)),
            color: Some(self.color_under(theme)),
            text: after.text,
            ..self
        })
        &&& match self.text {
            Some(text) => after.text matches Some(text_after) && text.initializes_to(
                theme,
                measure,
                text_after,
            ),
            None => after.text is None,
        }
    }

    /// What the button draws: itself, then its text. Corners whose roundness
    /// was never set are square.
    pub open spec fn drawn(self) -> Seq<DrawCommand> {
        seq![
            DrawCommand::RoundedRect {
                top_left: (self.bounds.x, self.bounds.y),
                width: self.bounds.width,
                height: self.bounds.height,
                roundness_percent: match self.roundness {
                    Some(roundness) => roundness,
                    None => 0,
                },
                color: self.color->0,
            },
        ] + match self.text {
            Some(text) => text.drawn(),
            None => Seq::empty(),
        }
    }

    pub fn new(id: &'static str) -> (button: Self)
        ensures
            button == (Button::<C, H> {
                id,
                bounds: BoundingRect { x: 0, y: 0, width: 150, height: 75 },
                text: None,
                on_click: None,
                color: None,
                roundness: None,
                mouse_down_in_bounds: false,
                should_resize: false,
            }),
    {
        let mut bounds = BoundingRect::new();
        bounds.width = 150;
        bounds.height = 75;
        Button {
            id,
            bounds,
            text: None,
            on_click: None,
            color: None,
            roundness: None,
            mouse_down_in_bounds: false,
            should_resize: false,
        }
    }

    pub fn on_click(self, cb: C) -> (button: Self)
        ensures
            button == (Button { on_click: Some(cb), ..self }),
    {
        let mut button = self;
        button.on_click = Some(cb);
        button
    }

    pub fn text(self, text: Text<H>) -> (button: Self)
        ensures
            button == (Button { text: Some(text), ..self }),
    {
        let mut button = self;
        button.text = Some(text);
        button
    }

    pub fn color(self, color: Color) -> (button: Self)
        ensures
            button == (Button { color: Some(color), ..self }),
    {
        let mut button = self;
        button.color = Some(color);
        button
    }

    /// Sets how round the corners are, in percent: from 0, square, to 100.
    pub fn roundness(self, roundness: u32) -> (button: Self)
        requires
            roundness <= 100,
        ensures
            button == (Button { roundness: Some(roundness), ..self }),
    {
        let mut button = self;
        button.roundness = Some(roundness);
        button
    }

    pub fn id(&self) -> (id: &'static str)
        ensures
            id == self.id,
    {
        self.id
    }

    /// The widget's request to be laid out again, to be read and written.
    pub fn should_resize(&mut self) -> (flag: &mut bool)
        ensures
            *flag == old(self).should_resize,
            *final(self) == (Button { should_resize: *final(flag), ..*old(self) }),
    {
        &mut self.should_resize
    }

    /// Whether the widget asked to be laid out again; the question clears the
    /// request.
    pub fn check_if_should_resize_then_reset_to_false(&mut self) -> (should: bool)
        ensures
            should == old(self).should_resize,
            *final(self) == (Button { should_resize: false, ..*old(self) }),
    {
        let should = self.should_resize;
        self.should_resize = false;
        should
    }

    /// Whether the widget is to be initialized again before every layout.
    pub fn should_reinit_before_layout(&self) -> (again: bool)
        ensures
            again,
    {
        true
    }

    /// Whether the button can move by `(dx, dy)`.
    pub fn check_translate(&self, dx: i32, dy: i32) -> (ok: bool)
        ensures
            ok == self.can_translate(dx as int, dy as int),
    {
        self.bounds.check_move(dx, dy) && match &self.text {
            Some(text) => text.check_translate(dx, dy),
            None => true,
        }
    }

    /// Whether the button can be put at `(x, y)`.
    pub fn check_place(&self, x: i32, y: i32) -> (ok: bool)
        ensures
            ok == self.can_place(x, y),
    {
        match &self.text {
            Some(text) => {
                let at = BoundingRect { x, y, width: text.bounds.width, height: text.bounds.height };
                at.check_move(
                    center_offset(self.bounds.width, text.bounds.width),
                    center_offset(self.bounds.height, text.bounds.height),
                )
            },
            None => true,
        }
    }

    pub fn translate(&mut self, dx: i32, dy: i32)
        requires
            old(self).can_translate(dx as int, dy as int),
        ensures
            *final(self) == old(self).translated(dx as int, dy as int),
    {
        self.bounds.x = self.bounds.x + dx;
        self.bounds.y = self.bounds.y + dy;
        match &mut self.text {
            Some(text) => {
                text.translate(dx, dy);
            },
            None => {},
        }
    }

    /// Fills in from the theme what the application left open, and
    /// initializes the text.
    pub fn init<M: Fn(&Metric) -> (u32, u32)>(&mut self, measure: &M, theme: &Theme)
        requires
            measures_all(measure),
        ensures
            old(self).initializes_to(*theme, measure, *final(self)),
    {
        if self.roundness.is_none() {
            self.roundness = Some(theme.widget_styles.buttons.roundness);
        }
        if self.color.is_none() {
            self.color = Some(theme.colors.primary);
        }
        match &mut self.text {
            Some(text) => {
                text.init(measure, theme);
            },
            None => {},
        }
    }

    /// Puts the button at `(x, y)` and its text in its middle.
    pub fn place(&mut self, x: i32, y: i32)
        requires
            old(self).can_place(x, y),
        ensures
            *final(self) == old(self).placed(x, y),
    {
        self.bounds.x = x;
        self.bounds.y = y;
        let width = self.bounds.width;
        let height = self.bounds.height;
        match &mut self.text {
            Some(text) => {
                let (text_width, text_height) = text.bounds.dimensions();
                text.place(x, y);
                text.translate(center_offset(width, text_width), center_offset(height, text_height));
            },
            None => {},
        }
    }

    pub fn render_size(&self, _theme: &Theme) -> (size: (u32, u32))
        ensures
            size == self.size(),
    {
        (self.bounds.width, self.bounds.height)
    }

    /// The commands that draw the button. A button is drawn once it has a
    /// colour: once it was initialized, or given one.
    pub fn render(&self, theme: &Theme) -> (commands: Vec<DrawCommand>)
        requires
            self.color is Some,
        ensures
            commands@ == self.drawn(),
    {
        let mut commands: Vec<DrawCommand> = Vec::new();
        commands.push(
            DrawCommand::RoundedRect {
                top_left: self.bounds.top_left(),
                width: self.bounds.width,
                height: self.bounds.height,
                roundness_percent: match self.roundness {
                    Some(roundness) => roundness,
                    None => 0,
                },
                color: self.color.unwrap(),
            },
        );
        match &self.text {
            Some(text) => {
                let mut more = text.render(theme);
                commands.append(&mut more);
            },
            None => {},
        }
        assert(commands@ =~= self.drawn());
        commands
    }
}

impl<Msg: EmptyMessage, C: Fn(State) -> (State, Msg), H> Button<C, H> {
    /// Whether the click handler, if there is one, can be called on every
    /// state.
    pub open spec fn handler_total(self) -> bool {
        self.on_click matches Some(handler) ==> forall|state: State| call_requires(handler, (state,))
    }

    /// Whether an event can have taken the state from `state` to
    /// `state_after` and the queue from `queue` to `queue_after`: a click on a
    /// button with a handler calls the handler once and pushes its message;
    /// anything else leaves both as they are.
    pub open spec fn clicked(
        self,
        event: ApplicationEvent,
        state: State,
        queue: Seq<Msg>,
        state_after: State,
        queue_after: Seq<Msg>,
    ) -> bool {
        if self.clicks(event) && self.on_click is Some {
            exists|message: Msg|
                #[trigger] call_ensures(self.on_click->0, (state,), (state_after, message))
                    && queue_after == enqueued(queue, message)
        } else {
            state_after == state && queue_after == queue
        }
    }

    /// Takes an event. A press of the left button on the button arms it; a
    /// release on the armed button is a click, which calls the handler and
    /// queues its message; any release disarms the button.
    pub fn handle_event(
        &mut self,
        event: &ApplicationEvent,
        state: &mut State,
        messages: &mut MessageQueue<Msg>,
    ) -> (response: EventResponse)
        requires
            old(self).handler_total(),
        ensures
            *final(self) == old(self).after_event(*event),
            response == old(self).response(*event),
            old(self).clicked(*event, *old(state), old(messages)@, *final(state), final(messages)@),
    {
        match event {
            ApplicationEvent::MouseButton {
                state: ButtonState::Pressed,
                button: MouseButton::Left,
                position,
            } => {
                if self.bounds.contains(position.0, position.1) {
                    self.mouse_down_in_bounds = true;
                    return EventResponse::Consume;
                }
            },
            ApplicationEvent::MouseButton {
                state: ButtonState::Released,
                button: MouseButton::Left,
                position,
            } => {
                if self.mouse_down_in_bounds && self.bounds.contains(position.0, position.1) {
                    match &self.on_click {
                        Some(on_click) => {
                            let mut taken = State::new();
                            core::mem::swap(state, &mut taken);
                            let (next, message) = on_click(taken);
                            *state = next;
                            messages.push(message);
                        },
                        None => {},
                    }
                    self.mouse_down_in_bounds = false;
                    return EventResponse::Consume;
                }
                self.mouse_down_in_bounds = false;
            },
            _ => {},
        }
        EventResponse::Pass
    }
}

/// The left button going down at `position`.
pub open spec fn press(position: (i32, i32)) -> ApplicationEvent {
    ApplicationEvent::MouseButton { state: ButtonState::Pressed, button: MouseButton::Left, position }
}

/// The left button coming up at `position`.
pub open spec fn release(position: (i32, i32)) -> ApplicationEvent {
    ApplicationEvent::MouseButton { state: ButtonState::Released, button: MouseButton::Left, position }
}

/// A press on the button and a release off it is no click.
pub proof fn release_outside_is_no_click<C, H>(button: Button<C, H>, down: (i32, i32), up: (i32, i32))
    requires
        button.hit(down),
        !button.hit(up),
    ensures
        !button.after_event(press(down)).clicks(release(up)),
        !button.after_event(press(down)).after_event(release(up)).mouse_down_in_bounds,
{
}

/// A press off a button that is not armed and a release on it is no click.
pub proof fn press_outside_is_no_click<C, H>(button: Button<C, H>, down: (i32, i32), up: (i32, i32))
    requires
        !button.mouse_down_in_bounds,
        !button.hit(down),
        button.hit(up),
    ensures
        !button.clicks(press(down)),
        !button.after_event(press(down)).clicks(release(up)),
{
}

/// A press on the button and a release on it is a click, and one click only:
/// the release disarms the button, so that a release after it is none.
pub proof fn press_and_release_inside_is_one_click<C, H>(
    button: Button<C, H>,
    down: (i32, i32),
    up: (i32, i32),
    again: (i32, i32),
)
    requires
        button.hit(down),
        button.hit(up),
    ensures
        !button.clicks(press(down)),
        button.after_event(press(down)).clicks(release(up)),
        button.after_event(press(down)).response(release(up)) == EventResponse::Consume,
        !button.after_event(press(down)).after_event(release(up)).clicks(release(again)),
{
}

} // verus!
