//! Circular buttons.

use vstd::prelude::*;
use crate::bounding_rect::{center_offset, centering, BoundingRect};
use crate::event::{ApplicationEvent, ButtonState, MouseButton};
use crate::message::{enqueued, EmptyMessage, MessageQueue};
use crate::render::{measures_all, DrawCommand, Metric};
use crate::state::State;
use crate::style::{Color, Theme};
use crate::widget::button::{press, release};
use crate::widget::image::Image;
use crate::widget::text::{Text, TextCharacter};
use crate::EventResponse;

verus! {

/// What a circular button shows on its face.
pub enum Contents<H> {
    Char(Text<H>),
    Image(Image),
    Empty,
}

impl<H> Contents<H> {
    /// The size of the face as `(width, height)`.
    pub open spec fn size(self) -> (u32, u32) {
        match self {
            Contents::Char(text) => text.size(),
            Contents::Image(image) => image.size(),
            Contents::Empty => (0, 0),
        }
    }

    /// The face with its top-left corner at `(x, y)`.
    pub open spec fn placed(self, x: i32, y: i32) -> Self {
        match self {
            Contents::Char(text) => Contents::Char(text.placed(x, y)),
            Contents::Image(image) => Contents::Image(image.placed(x, y)),
            Contents::Empty => Contents::Empty,
        }
    }

    /// Whether the face can move by `(dx, dy)`.
    pub open spec fn can_translate(self, dx: int, dy: int) -> bool {
        match self {
            Contents::Char(text) => text.can_translate(dx, dy),
            Contents::Image(image) => image.can_translate(dx, dy),
            Contents::Empty => true,
        }
    }

    /// The face moved by `(dx, dy)`.
    pub open spec fn translated(self, dx: int, dy: int) -> Self {
        match self {
            Contents::Char(text) => Contents::Char(text.translated(dx, dy)),
            Contents::Image(image) => Contents::Image(image.translated(dx, dy)),
            Contents::Empty => Contents::Empty,
        }
    }

    /// What the face draws.
    pub open spec fn drawn(self) -> Seq<DrawCommand> {
        match self {
            Contents::Char(text) => text.drawn(),
            Contents::Image(image) => image.drawn(),
            Contents::Empty => Seq::empty(),
        }
    }
}

/// Whether the point `position` is less than `radius` away from `center`.
pub open spec fn within_circle(center: (int, int), radius: u32, position: (i32, i32)) -> bool {
    (position.0 - center.0) * (position.0 - center.0) + (position.1 - center.1) * (position.1
        - center.1) < radius * radius
}

/// The image of a circular button's face, constrained so that it fits into a
/// button of the radius `radius` with the theme's padding kept free: a wide
/// image by its width, any other by its height.
pub open spec fn fit_to_circle(image: Image, natural: (u32, u32), radius: u32, theme: Theme) -> Image {
    if natural.0 > natural.1 {
        Image {
            width_constraint: Some(
                (radius * 2 - 2 * theme.widget_styles.internal_padding.horizontal) as u32,
            ),
            should_resize: true,
            ..image
        }
    } else {
        Image {
            height_constraint: Some(
                (radius * 2 - 2 * theme.widget_styles.internal_padding.vertical) as u32,
            ),
            should_resize: true,
            ..image
        }
    }
}

/// A circular button, with a character or an image on it or with nothing. It
/// registers a click when the left button of the mouse goes down on it and
/// comes up on it.
pub struct CircleButton<C, H> {
    pub id: &'static str,
    pub bounds: BoundingRect,
    pub contents: Contents<H>,
    /// Called when a click is complete; it may change the state, and answers
    /// with the message to send.
    pub on_click: Option<C>,
    /// The radius in pixels; 0 until it is set, or taken from the theme.
    pub radius: u32,
    /// The colour of the button; the theme's primary colour where none is set.
    pub color: Option<Color>,
    /// Whether the left button went down on the button and has not come up
    /// since.
    pub mouse_down_in_bounds: bool,
    pub should_resize: bool,
}

impl<C, H> CircleButton<C, H> {
    /// The widget's size as `(width, height)`.
    pub open spec fn size(self) -> (u32, u32) {
        (self.bounds.width, self.bounds.height)
    }

    /// Whether a point is on the button: less than the radius away from the
    /// middle of the bounds.
    pub open spec fn hit(self, position: (i32, i32)) -> bool {
        within_circle(self.bounds.midpoint(), self.radius, position)
    }

    /// Whether `event` completes a click: the left button comes up on the
    /// button after it went down on it.
    pub open spec fn clicks(self, event: ApplicationEvent) -> bool {
        event.left_release() matches Some(position) && self.mouse_down_in_bounds && self.hit(position)
    }

    /// The button after an event.
    pub open spec fn after_event(self, event: ApplicationEvent) -> Self {
        match event.left_press() {
            Some(position) => if self.hit(position) {
                CircleButton { mouse_down_in_bounds: true, ..self }
            } else {
                self
            },
            None => match event.left_release() {
                Some(_) => CircleButton { mouse_down_in_bounds: false, ..self },
                None => self,
            },
        }
    }

    /// What the button answers to an event.
    pub open spec fn response(self, event: ApplicationEvent) -> EventResponse {
        if event.left_press() matches Some(position) && self.hit(position) {
            EventResponse::Consume
        } else if self.clicks(event) {
            EventResponse::Consume
        } else {
            EventResponse::Pass
        }
    }

    /// Whether the button can be put at `(x, y)`: its face, moved to the
    /// middle, must stay where coordinates reach.
    pub open spec fn can_place(self, x: i32, y: i32) -> bool {
        self.contents.placed(x, y).can_translate(
            centering(self.bounds.width, self.contents.size().0),
            centering(self.bounds.height, self.contents.size().1),
        )
    }

    /// The button with its top-left corner at `(x, y)` and its face in its
    /// middle.
    pub open spec fn placed(self, x: i32, y: i32) -> Self {
        CircleButton {
            bounds: self.bounds.at(x, y),
            contents: self.contents.placed(x, y).translated(
                centering(self.bounds.width, self.contents.size().0),
                centering(self.bounds.height, self.contents.size().1),
            ),
            ..self
        }
    }

    /// Whether the button can move by `(dx, dy)`.
    pub open spec fn can_translate(self, dx: int, dy: int) -> bool {
        self.bounds.can_move(dx, dy) && self.contents.can_translate(dx, dy)
    }

    /// The button moved by `(dx, dy)`, its face with it.
    pub open spec fn translated(self, dx: int, dy: int) -> Self {
        CircleButton {
            bounds: self.bounds.moved(dx, dy),
            contents: self.contents.translated(dx, dy),
            ..self
        }
    }

    /// The radius under a theme.
    pub open spec fn radius_under(self, theme: Theme) -> u32 {
        if self.radius == 0 {
            theme.widget_styles.buttons.circle_button_radius
        } else {
            self.radius
        }
    }

    /// The colour of the button under a theme.
    pub open spec fn color_under(self, theme: Theme) -> Color {
        match self.color {
            Some(color) => color,
            None => theme.colors.primary,
        }
    }

    /// Whether the button can be initialized under `theme`: the diameter must
    /// be a `u32`, and so must what is left of it for an image inside the
    /// padding; the image must name its resource.
    pub open spec fn can_init(self, theme: Theme) -> bool {
        &&& self.radius_under(theme) * 2 <= u32::MAX
        &&& self.contents matches Contents::Image(image) ==> {
            &&& image.resource@.len() > 0
            &&& self.radius * 2 <= u32::MAX
            &&& 2 * theme.widget_styles.internal_padding.horizontal <= self.radius * 2
            &&& 2 * theme.widget_styles.internal_padding.vertical <= self.radius * 2
        }
    }

    /// Whether `after` is what initializing the button can give, with
    /// `measure` as the renderer. The face is initialized first, an image
    /// after it was fitted to the radius that the button has then; the colour
    /// and the radius are filled in from the theme; the bounds are the square
    /// round the circle.
    pub open spec fn initializes_to<M: Fn(&Metric) -> (u32, u32)>(
        self,
        theme: Theme,
        measure: &M,
        after: Self,
    ) -> bool {
        &&& after == (CircleButton {
            color: Some(self.color_under(theme)),
            radius: self.radius_under(theme),
            bounds: BoundingRect {
                width: (self.radius_under(theme) * 2) as u32,
                height: (self.radius_under(theme) * 2) as u32,
                ..self.bounds
            },
            contents: after.contents,
            ..self
        })
        &&& match self.contents {
            Contents::Char(text) => after.contents matches Contents::Char(text_after)
                && text.initializes_to(theme, measure, text_after),
            Contents::Image(image) => after.contents matches Contents::Image(image_after)
                && exists|natural: (u32, u32)|
                call_ensures(*measure, (&image.metric(),), natural) && (#[trigger] fit_to_circle(
                    image,
                    natural,
                    self.radius,
                    theme,
                )).initializes_to(measure, image_after),
            Contents::Empty => after.contents is Empty,
        }
    }

    /// What the button draws: the circle, then its face.
    pub open spec fn drawn(self) -> Seq<DrawCommand> {
        seq![
            DrawCommand::Circle {
                center: (self.bounds.midpoint().0 as i32, self.bounds.midpoint().1 as i32),
                radius: self.radius,
                color: self.color->0,
            },
        ] + self.contents.drawn()
    }

    pub fn new(id: &'static str) -> (button: Self)
        ensures
            button == (CircleButton::<C, H> {
                id,
                bounds: BoundingRect { x: 0, y: 0, width: 0, height: 0 },
                contents: Contents::Empty,
                on_click: None,
                radius: 0,
                color: None,
                mouse_down_in_bounds: false,
                should_resize: false,
            }),
    {
        CircleButton {
            id,
            bounds: BoundingRect::new(),
            contents: Contents::Empty,
            on_click: None,
            radius: 0,
            color: None,
            mouse_down_in_bounds: false,
            should_resize: false,
        }
    }

    pub fn on_click(self, on_click: C) -> (button: Self)
        ensures
            button == (CircleButton { on_click: Some(on_click), ..self }),
    {
        let mut button = self;
        button.on_click = Some(on_click);
        button
    }

    pub fn color(self, color: Color) -> (button: Self)
        ensures
            button == (CircleButton { color: Some(color), ..self }),
    {
        let mut button = self;
        button.color = Some(color);
        button
    }

    pub fn radius(self, radius: u32) -> (button: Self)
        ensures
            button == (CircleButton { radius, ..self }),
    {
        let mut button = self;
        button.radius = radius;
        button
    }

    /// Puts a character on the button's face, in place of what was there.
    pub fn character(self, character: TextCharacter) -> (button: Self)
        ensures
            button.contents matches Contents::Char(text) && text.id == "__from_TextCharacter"
                && text.text@ == seq![character.character] && text.bounds == (BoundingRect {
                x: 0,
                y: 0,
                width: 0,
                height: 0,
            }) && !text.should_resize && text.font == character.font && text.scale == character.scale && text.color
                == character.color && text.message_handler is None && text.section is None,
            button == (CircleButton { contents: button.contents, ..self }),
    {
        let mut button = self;
        button.contents = Contents::Char(character.into_text());
        button
    }

    /// Puts an image on the button's face, in place of what was there.
    pub fn image(self, image: Image) -> (button: Self)
        ensures
            button == (CircleButton { contents: Contents::Image(image), ..self }),
    {
        let mut button = self;
        button.contents = Contents::Image(image);
        button
    }

    /// Whether the button can be initialized under `theme`.
    pub fn check_init(&self, theme: &Theme) -> (ok: bool)
        ensures
            ok == self.can_init(*theme),
    {
        let radius: u64 = if self.radius == 0 {
            theme.widget_styles.buttons.circle_button_radius as u64
        } else {
            self.radius as u64
        };
        if radius * 2 > u32::MAX as u64 {
            return false;
        }
        match &self.contents {
            Contents::Image(image) => {
                let diameter: u64 = self.radius as u64 * 2;
                image.has_resource() && diameter <= u32::MAX as u64
                    && 2 * (theme.widget_styles.internal_padding.horizontal as u64) <= diameter
                    && 2 * (theme.widget_styles.internal_padding.vertical as u64) <= diameter
            },
            _ => true,
        }
    }

    /// Whether the button has all it needs to be drawn: a colour, and a
    /// middle that coordinates reach.
    pub fn check_render(&self) -> (ok: bool)
        ensures
            ok == (self.color is Some && self.bounds.midpoint().0 <= i32::MAX
                && self.bounds.midpoint().1 <= i32::MAX),
    {
        self.color.is_some() && self.bounds.x as i64 + (self.bounds.width / 2) as i64 <= i32::MAX as i64
            && self.bounds.y as i64 + (self.bounds.height / 2) as i64 <= i32::MAX as i64
    }

    /// Whether a point is on the button.
    pub fn contains_point(&self, x: i32, y: i32) -> (inside: bool)
        ensures
            inside == self.hit((x, y)),
    {
        let center_x: i64 = self.bounds.x as i64 + (self.bounds.width / 2) as i64;
        let center_y: i64 = self.bounds.y as i64 + (self.bounds.height / 2) as i64;
        let dx: i128 = (x as i64 - center_x) as i128;
        let dy: i128 = (y as i64 - center_y) as i128;
        let radius: i128 = self.radius as i128;
        assert(dx * dx <= 0x2_0000_0000 * 0x2_0000_0000 && dx * dx >= 0) by (nonlinear_arith)
            requires
                -0x2_0000_0000 <= dx <= 0x2_0000_0000,
        ;
        assert(dy * dy <= 0x2_0000_0000 * 0x2_0000_0000 && dy * dy >= 0) by (nonlinear_arith)
            requires
                -0x2_0000_0000 <= dy <= 0x2_0000_0000,
        ;
        assert(radius * radius <= 0xffff_ffff * 0xffff_ffff && radius * radius >= 0) by (nonlinear_arith)
            requires
                0 <= radius <= 0xffff_ffff,
        ;
        dx * dx + dy * dy < radius * radius
    }

    pub fn id(&self) -> (id: &'static str)
        ensures
            id == self.id,
    {
        self.id
    }

    /// The widget's request to be laid out again, to be read and written.
    pub fn should_resize(&mut self) -> (flag: &mut bool)
        ensures
            *flag == old(self).should_resize,
            *final(self) == (CircleButton { should_resize: *final(flag), ..*old(self) }),
    {
        &mut self.should_resize
    }

    /// Whether the widget asked to be laid out again; the question clears the
    /// request.
    pub fn check_if_should_resize_then_reset_to_false(&mut self) -> (should: bool)
        ensures
            should == old(self).should_resize,
            *final(self) == (CircleButton { should_resize: false, ..*old(self) }),
    {
        let should = self.should_resize;
        self.should_resize = false;
        should
    }

    /// Whether the widget is to be initialized again before every layout.
    pub fn should_reinit_before_layout(&self) -> (again: bool)
        ensures
            again,
    {
        true
    }

    /// Puts the button at `(x, y)` and its face in its middle.
    pub fn place(&mut self, x: i32, y: i32)
        requires
            old(self).can_place(x, y),
        ensures
            *final(self) == old(self).placed(x, y),
    {
        self.bounds.x = x;
        self.bounds.y = y;
        let width = self.bounds.width;
        let height = self.bounds.height;
        match &mut self.contents {
            Contents::Char(text) => {
                let (text_width, text_height) = text.bounds.dimensions();
                text.place(x, y);
                text.translate(center_offset(width, text_width), center_offset(height, text_height));
            },
            Contents::Image(image) => {
                let (image_width, image_height) = image.bounds.dimensions();
                image.place(x, y);
                image.translate(
                    center_offset(width, image_width),
                    center_offset(height, image_height),
                );
            },
            Contents::Empty => {},
        }
    }

    /// Whether the button can move by `(dx, dy)`.
    pub fn check_translate(&self, dx: i32, dy: i32) -> (ok: bool)
        ensures
            ok == self.can_translate(dx as int, dy as int),
    {
        self.bounds.check_move(dx, dy) && match &self.contents {
            Contents::Char(text) => text.check_translate(dx, dy),
            Contents::Image(image) => image.check_translate(dx, dy),
            Contents::Empty => true,
        }
    }

    /// Whether the button can be put at `(x, y)`.
    pub fn check_place(&self, x: i32, y: i32) -> (ok: bool)
        ensures
            ok == self.can_place(x, y),
    {
        match &self.contents {
            Contents::Char(text) => {
                let at = BoundingRect { x, y, width: text.bounds.width, height: text.bounds.height };
                at.check_move(
                    center_offset(self.bounds.width, text.bounds.width),
                    center_offset(self.bounds.height, text.bounds.height),
                )
            },
            Contents::Image(image) => {
                let at = BoundingRect { x, y, width: image.bounds.width, height: image.bounds.height };
                at.check_move(
                    center_offset(self.bounds.width, image.bounds.width),
                    center_offset(self.bounds.height, image.bounds.height),
                )
            },
            Contents::Empty => true,
        }
    }

    pub fn translate(&mut self, dx: i32, dy: i32)
        requires
            old(self).can_translate(dx as int, dy as int),
        ensures
            *final(self) == old(self).translated(dx as int, dy as int),
    {
        self.bounds.x = self.bounds.x + dx;
        self.bounds.y = self.bounds.y + dy;
        match &mut self.contents {
            Contents::Char(text) => {
                text.translate(dx, dy);
            },
            Contents::Image(image) => {
                image.translate(dx, dy);
            },
            Contents::Empty => {},
        }
    }

    /// Initializes the face, fills in from the theme what the application
    /// left open, and makes the bounds the square round the circle.
    pub fn init<M: Fn(&Metric) -> (u32, u32)>(&mut self, measure: &M, theme: &Theme)
        requires
            measures_all(measure),
            old(self).can_init(*theme),
        ensures
            old(self).initializes_to(*theme, measure, *final(self)),
    {
        let radius = self.radius;
        match &mut self.contents {
            Contents::Char(text) => {
                text.init(measure, theme);
            },
            Contents::Image(image) => {
                let metric = Metric::Image { alias: image.resource.clone() };
                let natural = measure(&metric);
                if natural.0 > natural.1 {
                    image.set_scaled_width(
                        radius * 2 - 2 * theme.widget_styles.internal_padding.horizontal,
                    );
                } else {
                    image.set_scaled_height(
                        radius * 2 - 2 * theme.widget_styles.internal_padding.vertical,
                    );
                }
                assert(*image == fit_to_circle(old(self).contents->Image_0, natural, radius, *theme));
                image.init(measure, theme);
            },
            Contents::Empty => {},
        }
        if self.color.is_none() {
            self.color = Some(theme.colors.primary);
        }
        if self.radius == 0 {
            self.radius = theme.widget_styles.buttons.circle_button_radius;
        }
        self.bounds.width = self.radius * 2;
        self.bounds.height = self.radius * 2;
    }

    pub fn render_size(&self, _theme: &Theme) -> (size: (u32, u32))
        ensures
            size == self.size(),
    {
        self.bounds.dimensions()
    }

    /// The commands that draw the button. A button is drawn once it has a
    /// colour: once it was initialized, or given one.
    pub fn render(&self, theme: &Theme) -> (commands: Vec<DrawCommand>)
        requires
            self.color is Some,
            self.bounds.midpoint().0 <= i32::MAX,
            self.bounds.midpoint().1 <= i32::MAX,
        ensures
            commands@ == self.drawn(),
    {
        let mut commands: Vec<DrawCommand> = Vec::new();
        commands.push(
            DrawCommand::Circle {
                center: self.bounds.center(),
                radius: self.radius,
                color: self.color.unwrap(),
            },
        );
        match &self.contents {
            Contents::Char(text) => {
                let mut more = text.render(theme);
                commands.append(&mut more);
            },
            Contents::Image(image) => {
                let mut more = image.render(theme);
                commands.append(&mut more);
            },
            Contents::Empty => {},
        }
        assert(commands@ =~= self.drawn());
        commands
    }
}

impl<Msg: EmptyMessage, C: Fn(State) -> (State, Msg), H> CircleButton<C, H> {
    /// Whether the click handler, if there is one, can be called on every
    /// state.
    pub open spec fn handler_total(self) -> bool {
        self.on_click matches Some(handler) ==> forall|state: State| call_requires(handler, (state,))
    }

    /// Whether an event can have taken the state from `state` to
    /// `state_after` and the queue from `queue` to `queue_after`: a click on a
    /// button with a handler calls the handler once and pushes its message;
    /// anything else leaves both as they are.
    pub open spec fn clicked(
        self,
        event: ApplicationEvent,
        state: State,
        queue: Seq<Msg>,
        state_after: State,
        queue_after: Seq<Msg>,
    ) -> bool {
        if self.clicks(event) && self.on_click is Some {
            exists|message: Msg|
                #[trigger] call_ensures(self.on_click->0, (state,), (state_after, message))
                    && queue_after == enqueued(queue, message)
        } else {
            state_after == state && queue_after == queue
        }
    }

    /// Takes an event. A press of the left button on the button arms it; a
    /// release on the armed button is a click, which calls the handler and
    /// queues its message; any release disarms the button.
    pub fn handle_event(
        &mut self,
        event: &ApplicationEvent,
        state: &mut State,
        message_queue: &mut MessageQueue<Msg>,
    ) -> (response: EventResponse)
        requires
            old(self).handler_total(),
        ensures
            *final(self) == old(self).after_event(*event),
            response == old(self).response(*event),
            old(self).clicked(
                *event,
                *old(state),
                old(message_queue)@,
                *final(state),
                final(message_queue)@,
            ),
    {
        match event {
            ApplicationEvent::MouseButton {
                state: ButtonState::Pressed,
                button: MouseButton::Left,
                position,
            } => {
                if self.contains_point(position.0, position.1) {
                    self.mouse_down_in_bounds = true;
                    return EventResponse::Consume;
                }
            },
            ApplicationEvent::MouseButton {
                state: ButtonState::Released,
                button: MouseButton::Left,
                position,
            } => {
                if self.mouse_down_in_bounds && self.contains_point(position.0, position.1) {
                    match &self.on_click {
                        Some(on_click) => {
                            let mut taken = State::new();
                            core::mem::swap(state, &mut taken);
                            let (next, message) = on_click(taken);
                            *state = next;
                            message_queue.push(message);
                        },
                        None => {},
                    }
                    self.mouse_down_in_bounds = false;
                    return EventResponse::Consume;
                }
                self.mouse_down_in_bounds = false;
            },
            _ => {},
        }
        EventResponse::Pass
    }
}

/// A press on the button and a release off it is no click.
pub proof fn release_outside_is_no_click<C, H>(button: CircleButton<C, H>, down: (i32, i32), up: (i32, i32))
    requires
        button.hit(down),
        !button.hit(up),
    ensures
        !button.after_event(press(down)).clicks(release(up)),
        !button.after_event(press(down)).after_event(release(up)).mouse_down_in_bounds,
{
}

/// A press off a button that is not armed and a release on it is no click.
pub proof fn press_outside_is_no_click<C, H>(button: CircleButton<C, H>, down: (i32, i32), up: (i32, i32))
    requires
        !button.mouse_down_in_bounds,
        !button.hit(down),
        button.hit(up),
    ensures
        !button.clicks(press(down)),
        !button.after_event(press(down)).clicks(release(up)),
{
}

/// A press on the button and a release on it is a click, and one click only:
/// the release disarms the button, so that a release after it is none.
pub proof fn press_and_release_inside_is_one_click<C, H>(
    button: CircleButton<C, H>,
    down: (i32, i32),
    up: (i32, i32),
    again: (i32, i32),
)
    requires
        button.hit(down),
        button.hit(up),
    ensures
        !button.clicks(press(down)),
        button.after_event(press(down)).clicks(release(up)),
        button.after_event(press(down)).response(release(up)) == EventResponse::Consume,
        !button.after_event(press(down)).after_event(release(up)).clicks(release(again)),
{
}

} // verus!
