//! Scroll bars: a slider that is dragged along a container.

use vstd::prelude::*;
use crate::bounding_rect::BoundingRect;
use crate::event::{ApplicationEvent, ButtonState, MouseButton};
use crate::handler::Fraction;
use crate::message::{enqueued, EmptyMessage, MessageQueue};
use crate::render::DrawCommand;
use crate::state::State;
use crate::style::{Color, Theme};
use crate::{EventResponse, Orientation};

verus! {

/// Where a slider ends up that is dragged to `moved`, in a container that
/// starts at `start` and has `room` to spare beside the slider: no further
/// than the far end, else no nearer than the near end.
pub open spec fn clamped(moved: int, start: int, room: int) -> int {
    if moved > start + room {
        start + room
    } else if moved < start {
        start
    } else {
        moved
    }
}

/// How far a slider is scrolled that stands `offset` from the start of a
/// container with `room` to spare. Without room there is no position; in a
/// container that is too small the slider counts as scrolled all the way at
/// the one place it can be clamped to, and as not scrolled at the other.
pub open spec fn share(offset: int, room: int) -> Fraction {
    if room > 0 {
        Fraction { numerator: offset as u32, denominator: room as u32 }
    } else if room == 0 {
        Fraction { numerator: 0, denominator: 0 }
    } else if offset == room {
        Fraction { numerator: 1, denominator: 1 }
    } else {
        Fraction { numerator: 0, denominator: 1 }
    }
}

/// How far from the start of the container a slider stands that is scrolled
/// `last` of `room`: the product rounded to the nearest pixel, halves
/// upwards, and no more than the largest coordinate. What is no position
/// counts as the start.
pub open spec fn restored(last: Fraction, room: int) -> int {
    if last.denominator == 0 {
        0
    } else {
        let rounded = (2 * (last.numerator * room) + last.denominator) / (2 * last.denominator);
        if rounded > i32::MAX {
            i32::MAX as int
        } else {
            rounded
        }
    }
}

/// A scroll bar. Its slider follows the mouse while the left button is held
/// down on it, and stays inside its container.
pub struct ScrollBar<S> {
    pub id: &'static str,
    pub container_bounds: BoundingRect,
    pub slider_bounds: BoundingRect,
    pub orientation: Orientation,
    /// The length of the slider along the bar.
    pub slider_size: u32,
    /// The width of the bar, across the direction it scrolls in.
    pub slider_width: u32,
    /// Called when the slider has moved, with the position it moved to; it
    /// may change the state, and answers with the message to send.
    pub on_scroll: Option<S>,
    /// The roundness of the slider in percent; the theme's where none is set.
    pub slider_roundness: Option<u32>,
    /// The roundness of the container in percent; the theme's where none is
    /// set.
    pub container_roundness: Option<u32>,
    /// Whether the container is drawn and counts for the size.
    pub has_container: bool,
    pub container_color: Option<Color>,
    pub slider_color: Option<Color>,
    /// Whether the left button went down on the slider and has not come up
    /// since.
    pub is_held_down: bool,
    pub should_resize: bool,
    /// How far the slider was scrolled when it last moved.
    pub last_percentage: Fraction,
}

impl<S> ScrollBar<S> {
    /// Where `rect` starts along the bar.
    pub open spec fn start_of(self, rect: BoundingRect) -> int {
        match self.orientation {
            Orientation::Horizontal => rect.x as int,
            Orientation::Vertical => rect.y as int,
        }
    }

    /// How long `rect` is along the bar.
    pub open spec fn length_of(self, rect: BoundingRect) -> int {
        match self.orientation {
            Orientation::Horizontal => rect.width as int,
            Orientation::Vertical => rect.height as int,
        }
    }

    /// `rect` with its start along the bar at `start`.
    pub open spec fn started_at(self, rect: BoundingRect, start: int) -> BoundingRect {
        match self.orientation {
            Orientation::Horizontal => BoundingRect { x: start as i32, ..rect },
            Orientation::Vertical => BoundingRect { y: start as i32, ..rect },
        }
    }

    /// The room that the container has to spare beside the slider; negative
    /// where the slider is the longer of the two.
    pub open spec fn room(self) -> int {
        self.length_of(self.container_bounds) - self.length_of(self.slider_bounds)
    }

    /// The part of a movement of the mouse that is along the bar.
    pub open spec fn along(self, change: (i32, i32)) -> i32 {
        match self.orientation {
            Orientation::Horizontal => change.0,
            Orientation::Vertical => change.1,
        }
    }

    /// Where the slider starts after it was dragged by `change`.
    pub open spec fn dragged_to(self, change: i32) -> int {
        clamped(
            self.start_of(self.slider_bounds) + change,
            self.start_of(self.container_bounds),
            self.room(),
        )
    }

    /// How far the slider is scrolled after it was dragged by `change`.
    pub open spec fn share_after(self, change: i32) -> Fraction {
        share(self.dragged_to(change) - self.start_of(self.container_bounds), self.room())
    }

    /// Whether dragging by `change` scrolls: whether the slider is then
    /// scrolled another part of the way than it last was.
    pub open spec fn scrolls(self, change: i32) -> bool {
        self.last_percentage.differs_from(self.share_after(change))
    }

    /// Whether the bar can take the event: where the event drags the slider,
    /// the place it is dragged to must be a coordinate.
    pub open spec fn accepts(self, event: ApplicationEvent) -> bool {
        self.drag(event) matches Some(change) ==> i32::MIN <= self.dragged_to(change) <= i32::MAX
    }

    /// The drag that `event` is, if the slider is held and the event moves
    /// the mouse.
    pub open spec fn drag(self, event: ApplicationEvent) -> Option<i32> {
        match event.motion() {
            Some(change) => if self.is_held_down {
                Some(self.along(change))
            } else {
                None
            },
            None => None,
        }
    }

    /// The bar after the slider was dragged by `change`.
    pub open spec fn scrolled(self, change: i32) -> Self {
        ScrollBar {
            slider_bounds: self.started_at(self.slider_bounds, self.dragged_to(change)),
            last_percentage: self.share_after(change),
            ..self
        }
    }

    /// The bar after an event.
    pub open spec fn after_event(self, event: ApplicationEvent) -> Self {
        match self.drag(event) {
            Some(change) => self.scrolled(change),
            None => match event.left_press() {
                Some(position) => if self.slider_bounds.holds(position.0 as int, position.1 as int) {
                    ScrollBar { is_held_down: true, ..self }
                } else {
                    self
                },
                None => match event.left_release() {
                    Some(_) => ScrollBar { is_held_down: false, ..self },
                    None => self,
                },
            },
        }
    }

    /// What the bar answers to an event: a drag that scrolls asks for a
    /// redraw, a drag that does not is used up, and so is a press on the
    /// slider.
    pub open spec fn response(self, event: ApplicationEvent) -> EventResponse {
        match self.drag(event) {
            Some(change) => if self.scrolls(change) {
                EventResponse::Redraw
            } else {
                EventResponse::Consume
            },
            None => match event.left_press() {
                Some(position) => if self.slider_bounds.holds(position.0 as int, position.1 as int) {
                    EventResponse::Consume
                } else {
                    EventResponse::Pass
                },
                None => EventResponse::Pass,
            },
        }
    }

    /// The position that the scroll handler is called with on `event`, if
    /// the event scrolls.
    pub open spec fn scrolls_to(self, event: ApplicationEvent) -> Option<Fraction> {
        match self.drag(event) {
            Some(change) => if self.scrolls(change) {
                Some(self.share_after(change))
            } else {
                None
            },
            None => None,
        }
    }

    /// The widget's size as `(width, height)`: that of the container if it
    /// has one, else that of the slider.
    pub open spec fn size(self) -> (u32, u32) {
        if self.has_container {
            (self.container_bounds.width, self.container_bounds.height)
        } else {
            (self.slider_bounds.width, self.slider_bounds.height)
        }
    }

    /// The bar with container and slider at `(x, y)`.
    pub open spec fn placed(self, x: i32, y: i32) -> Self {
        ScrollBar {
            container_bounds: self.container_bounds.at(x, y),
            slider_bounds: self.slider_bounds.at(x, y),
            ..self
        }
    }

    /// Whether the bar can move by `(dx, dy)`: the slider must not be longer
    /// than the container, and both must stay where coordinates reach, the
    /// slider also where it is put back to its position.
    pub open spec fn can_translate(self, dx: int, dy: int) -> bool {
        &&& self.container_bounds.can_move(dx, dy)
        &&& self.slider_bounds.can_move(dx, dy)
        &&& self.room() >= 0
        &&& self.start_of(self.container_bounds.moved(dx, dy)) + restored(
            self.last_percentage,
            self.room(),
        ) <= i32::MAX
    }

    /// The bar moved by `(dx, dy)`, the slider put back to the position it
    /// was last scrolled to.
    pub open spec fn translated(self, dx: int, dy: int) -> Self {
        ScrollBar {
            container_bounds: self.container_bounds.moved(dx, dy),
            slider_bounds: self.started_at(
                self.slider_bounds.moved(dx, dy),
                self.start_of(self.container_bounds.moved(dx, dy)) + restored(
                    self.last_percentage,
                    self.room(),
                ),
            ),
            ..self
        }
    }

    /// `rect` as wide across the bar as the bar is.
    pub open spec fn as_wide(self, rect: BoundingRect) -> BoundingRect {
        match self.orientation {
            Orientation::Vertical => BoundingRect { width: self.slider_width, ..rect },
            Orientation::Horizontal => BoundingRect { height: self.slider_width, ..rect },
        }
    }

    /// The bar after it was initialized under `theme`: slider and container
    /// are as wide as the bar, and colours and roundness are filled in.
    pub open spec fn initialized(self, theme: Theme) -> Self {
        ScrollBar {
            slider_bounds: self.as_wide(self.slider_bounds),
            container_bounds: self.as_wide(self.container_bounds),
            container_color: Some(
                match self.container_color {
                    Some(color) => color,
                    None => theme.colors.secondary,
                },
            ),
            slider_color: Some(
                match self.slider_color {
                    Some(color) => color,
                    None => theme.colors.primary,
                },
            ),
            slider_roundness: Some(
                match self.slider_roundness {
                    Some(roundness) => roundness,
                    None => theme.widget_styles.buttons.roundness,
                },
            ),
            container_roundness: Some(
                match self.container_roundness {
                    Some(roundness) => roundness,
                    None => theme.widget_styles.buttons.roundness,
                },
            ),
            ..self
        }
    }

    /// Whether the bar has all it needs to be drawn: once it was initialized,
    /// it has.
    pub open spec fn styled(self) -> bool {
        &&& self.slider_color is Some
        &&& self.slider_roundness is Some
        &&& self.has_container ==> self.container_color is Some && self.container_roundness is Some
    }

    /// What the bar draws: the container if it has one, then the slider.
    pub open spec fn drawn(self) -> Seq<DrawCommand> {
        let slider = seq![
            DrawCommand::RoundedRect {
                top_left: (self.slider_bounds.x, self.slider_bounds.y),
                width: self.slider_bounds.width,
                height: self.slider_bounds.height,
                roundness_percent: self.slider_roundness->0,
                color: self.slider_color->0,
            },
        ];
        if self.has_container {
            seq![
                DrawCommand::RoundedRect {
                    top_left: (self.container_bounds.x, self.container_bounds.y),
                    width: self.container_bounds.width,
                    height: self.container_bounds.height,
                    roundness_percent: self.container_roundness->0,
                    color: self.container_color->0,
                },
            ] + slider
        } else {
            slider
        }
    }

    /// A vertical bar whose container is `container_size` long and whose
    /// slider is `slider_size` long.
    pub fn new(id: &'static str, container_size: u32, slider_size: u32) -> (bar: Self)
        ensures
            bar == (ScrollBar::<S> {
                id,
                container_bounds: BoundingRect {
                    x: 0,
                    y: 0,
                    width: container_size,
                    height: container_size,
                },
                slider_bounds: BoundingRect { x: 0, y: 0, width: slider_size, height: slider_size },
                orientation: Orientation::Vertical,
                slider_size,
                slider_width: 12,
                on_scroll: None,
                slider_roundness: None,
                container_roundness: None,
                has_container: true,
                container_color: None,
                slider_color: None,
                is_held_down: false,
                should_resize: false,
                last_percentage: Fraction { numerator: 0, denominator: 1 },
            }),
    {
        let mut container_bounds = BoundingRect::new();
        container_bounds.width = container_size;
        container_bounds.height = container_size;
        let mut slider_bounds = BoundingRect::new();
        slider_bounds.width = slider_size;
        slider_bounds.height = slider_size;
        ScrollBar {
            id,
            container_bounds,
            slider_bounds,
            orientation: Orientation::Vertical,
            slider_size,
            slider_width: 12,
            on_scroll: None,
            slider_roundness: None,
            container_roundness: None,
            has_container: true,
            container_color: None,
            slider_color: None,
            is_held_down: false,
            should_resize: false,
            last_percentage: Fraction { numerator: 0, denominator: 1 },
        }
    }

    /// Sets the width of the bar.
    pub fn width(self, width: u32) -> (bar: Self)
        ensures
            bar == (ScrollBar { slider_width: width, ..self }),
    {
        let mut bar = self;
        bar.slider_width = width;
        bar
    }

    pub fn orientation(self, orientation: Orientation) -> (bar: Self)
        ensures
            bar == (ScrollBar { orientation, ..self }),
    {
        let mut bar = self;
        bar.orientation = orientation;
        bar
    }

    pub fn container_color(self, color: Color) -> (bar: Self)
        ensures
            bar == (ScrollBar { container_color: Some(color), ..self }),
    {
        let mut bar = self;
        bar.container_color = Some(color);
        bar
    }

    pub fn on_scroll(self, on_scroll: S) -> (bar: Self)
        ensures
            bar == (ScrollBar { on_scroll: Some(on_scroll), ..self }),
    {
        let mut bar = self;
        bar.on_scroll = Some(on_scroll);
        bar
    }

    pub fn id(&self) -> (id: &'static str)
        ensures
            id == self.id,
    {
        self.id
    }

    /// The widget's request to be laid out again, to be read and written.
    pub fn should_resize(&mut self) -> (flag: &mut bool)
        ensures
            *flag == old(self).should_resize,
            *final(self) == (ScrollBar { should_resize: *final(flag), ..*old(self) }),
    {
        &mut self.should_resize
    }

    /// Whether the widget asked to be laid out again; the question clears the
    /// request.
    pub fn check_if_should_resize_then_reset_to_false(&mut self) -> (should: bool)
        ensures
            should == old(self).should_resize,
            *final(self) == (ScrollBar { should_resize: false, ..*old(self) }),
    {
        let should = self.should_resize;
        self.should_resize = false;
        should
    }

    /// Whether the widget is to be initialized again before every layout.
    pub fn should_reinit_before_layout(&self) -> (again: bool)
        ensures
            again,
    {
        true
    }

    /// Whether the bar can take the event.
    pub fn check_event(&self, event: &ApplicationEvent) -> (ok: bool)
        ensures
            ok == self.accepts(*event),
    {
        match event {
            ApplicationEvent::MouseMotion { relative_change, .. } => {
                if self.is_held_down {
                    let (change, start, length, slider_start, slider_length): (i64, i64, i64, i64, i64) =
                        match self.orientation {
                        Orientation::Horizontal => (
                            relative_change.0 as i64,
                            self.container_bounds.x as i64,
                            self.container_bounds.width as i64,
                            self.slider_bounds.x as i64,
                            self.slider_bounds.width as i64,
                        ),
                        Orientation::Vertical => (
                            relative_change.1 as i64,
                            self.container_bounds.y as i64,
                            self.container_bounds.height as i64,
                            self.slider_bounds.y as i64,
                            self.slider_bounds.height as i64,
                        ),
                    };
                    let room: i64 = length - slider_length;
                    let moved: i64 = slider_start + change;
                    let to: i64 = if moved > start + room {
                        start + room
                    } else if moved < start {
                        start
                    } else {
                        moved
                    };
                    i32::MIN as i64 <= to && to <= i32::MAX as i64
                } else {
                    true
                }
            },
            _ => true,
        }
    }

    /// Whether the bar has all it needs to be drawn.
    pub fn check_render(&self) -> (ok: bool)
        ensures
            ok == self.styled(),
    {
        self.slider_color.is_some() && self.slider_roundness.is_some() && (!self.has_container
            || self.container_color.is_some() && self.container_roundness.is_some())
    }

    /// Puts the slider where it was last scrolled to.
    fn set_slider_position_from_last_percentage(&mut self)
        requires
            old(self).room() >= 0,
            old(self).start_of(old(self).container_bounds) + restored(
                old(self).last_percentage,
                old(self).room(),
            ) <= i32::MAX,
        ensures
            *final(self) == (ScrollBar {
                slider_bounds: old(self).started_at(
                    old(self).slider_bounds,
                    old(self).start_of(old(self).container_bounds) + restored(
                        old(self).last_percentage,
                        old(self).room(),
                    ),
                ),
                ..*old(self)
            }),
    {
        let room: u32 = match self.orientation {
            Orientation::Vertical => self.container_bounds.height - self.slider_bounds.height,
            Orientation::Horizontal => self.container_bounds.width - self.slider_bounds.width,
        };
        let offset: i32 = if self.last_percentage.denominator == 0 {
            0
        } else {
            let numerator = self.last_percentage.numerator;
            let denominator = self.last_percentage.denominator;
            assert(numerator * room <= 0xffff_ffff * 0xffff_ffff && numerator * room >= 0) by (nonlinear_arith)
                requires
                    0 <= numerator <= 0xffff_ffff,
                    0 <= room <= 0xffff_ffff,
            ;
            let product: u128 = numerator as u128 * room as u128;
            let rounded: u128 = (2 * product + denominator as u128) / (2 * denominator as u128);
            if rounded > i32::MAX as u128 {
                i32::MAX
            } else {
                rounded as i32
            }
        };
        match self.orientation {
            Orientation::Vertical => {
                self.slider_bounds.y = offset + self.container_bounds.y;
            },
            Orientation::Horizontal => {
                self.slider_bounds.x = offset + self.container_bounds.x;
            },
        }
    }

    /// Sizes slider and container across the bar, and fills in from the theme
    /// what the application left open.
    pub fn init(&mut self, theme: &Theme)
        ensures
            *final(self) == old(self).initialized(*theme),
    {
        match self.orientation {
            Orientation::Vertical => {
                self.slider_bounds.width = self.slider_width;
                self.container_bounds.width = self.slider_width;
            },
            Orientation::Horizontal => {
                self.slider_bounds.height = self.slider_width;
                self.container_bounds.height = self.slider_width;
            },
        }
        if self.container_color.is_none() {
            self.container_color = Some(theme.colors.secondary);
        }
        if self.slider_color.is_none() {
            self.slider_color = Some(theme.colors.primary);
        }
        if self.slider_roundness.is_none() {
            self.slider_roundness = Some(theme.widget_styles.buttons.roundness);
        }
        if self.container_roundness.is_none() {
            self.container_roundness = Some(theme.widget_styles.buttons.roundness);
        }
    }

    pub fn place(&mut self, x: i32, y: i32)
        ensures
            *final(self) == old(self).placed(x, y),
    {
        self.container_bounds.x = x;
        self.container_bounds.y = y;
        self.slider_bounds.x = x;
        self.slider_bounds.y = y;
    }

    /// Whether the bar can move by `(dx, dy)`.
    pub fn check_translate(&self, dx: i32, dy: i32) -> (ok: bool)
        ensures
            ok == self.can_translate(dx as int, dy as int),
    {
        if !self.container_bounds.check_move(dx, dy) || !self.slider_bounds.check_move(dx, dy) {
            return false;
        }
        let (start, length, slider_length): (i64, u32, u32) = match self.orientation {
            Orientation::Horizontal => (
                self.container_bounds.x as i64 + dx as i64,
                self.container_bounds.width,
                self.slider_bounds.width,
            ),
            Orientation::Vertical => (
                self.container_bounds.y as i64 + dy as i64,
                self.container_bounds.height,
                self.slider_bounds.height,
            ),
        };
        if length < slider_length {
            return false;
        }
        let room: u32 = length - slider_length;
        let offset: i64 = if self.last_percentage.denominator == 0 {
            0
        } else {
            let numerator = self.last_percentage.numerator;
            let denominator = self.last_percentage.denominator;
            assert(numerator * room <= 0xffff_ffff * 0xffff_ffff && numerator * room >= 0) by (nonlinear_arith)
                requires
                    0 <= numerator <= 0xffff_ffff,
                    0 <= room <= 0xffff_ffff,
            ;
            let product: u128 = numerator as u128 * room as u128;
            let rounded: u128 = (2 * product + denominator as u128) / (2 * denominator as u128);
            if rounded > i32::MAX as u128 {
                i32::MAX as i64
            } else {
                rounded as i64
            }
        };
        start + offset <= i32::MAX as i64
    }

    pub fn translate(&mut self, dx: i32, dy: i32)
        requires
            old(self).can_translate(dx as int, dy as int),
        ensures
            *final(self) == old(self).translated(dx as int, dy as int),
    {
        self.container_bounds.x = self.container_bounds.x + dx;
        self.container_bounds.y = self.container_bounds.y + dy;
        self.slider_bounds.x = self.slider_bounds.x + dx;
        self.slider_bounds.y = self.slider_bounds.y + dy;
        self.set_slider_position_from_last_percentage();
    }

    pub fn render_size(&self, _theme: &Theme) -> (size: (u32, u32))
        ensures
            size == self.size(),
    {
        if self.has_container {
            self.container_bounds.dimensions()
        } else {
            self.slider_bounds.dimensions()
        }
    }

    /// The commands that draw the bar.
    pub fn render(&self, _theme: &Theme) -> (commands: Vec<DrawCommand>)
        requires
            self.styled(),
        ensures
            commands@ == self.drawn(),
    {
        let mut commands: Vec<DrawCommand> = Vec::new();
        if self.has_container {
            commands.push(
                DrawCommand::RoundedRect {
                    top_left: self.container_bounds.top_left(),
                    width: self.container_bounds.width,
                    height: self.container_bounds.height,
                    roundness_percent: self.container_roundness.unwrap(),
                    color: self.container_color.unwrap(),
                },
            );
        }
        commands.push(
            DrawCommand::RoundedRect {
                top_left: self.slider_bounds.top_left(),
                width: self.slider_bounds.width,
                height: self.slider_bounds.height,
                roundness_percent: self.slider_roundness.unwrap(),
                color: self.slider_color.unwrap(),
            },
        );
        assert(commands@ =~= self.drawn());
        commands
    }
}

impl<Msg: EmptyMessage, S: Fn(Fraction, State) -> (State, Msg)> ScrollBar<S> {
    /// Whether the scroll handler, if there is one, can be called with every
    /// position on every state.
    pub open spec fn handler_total(self) -> bool {
        self.on_scroll matches Some(handler) ==> forall|at: Fraction, state: State|
            call_requires(handler, (at, state))
    }

    /// Whether an event can have taken the state from `state` to
    /// `state_after` and the queue from `queue` to `queue_after`: an event
    /// that scrolls a bar with a handler calls the handler once, with the
    /// position scrolled to, and pushes its message; anything else leaves
    /// both as they are.
    pub open spec fn scrolled_by(
        self,
        event: ApplicationEvent,
        state: State,
        queue: Seq<Msg>,
        state_after: State,
        queue_after: Seq<Msg>,
    ) -> bool {
        if self.scrolls_to(event) is Some && self.on_scroll is Some {
            exists|message: Msg|
                #[trigger] call_ensures(
                    self.on_scroll->0,
                    (self.scrolls_to(event)->0, state),
                    (state_after, message),
                ) && queue_after == enqueued(queue, message)
        } else {
            state_after == state && queue_after == queue
        }
    }

    /// Drags the slider by `change` and keeps it inside the container. Where
    /// that scrolls, the handler is called and its message queued.
    fn scroll(&mut self, change: i32, state: &mut State, message_queue: &mut MessageQueue<Msg>) -> (response:
        EventResponse)
        requires
            old(self).handler_total(),
            i32::MIN <= old(self).dragged_to(change) <= i32::MAX,
        ensures
            *final(self) == old(self).scrolled(change),
            response == if old(self).scrolls(change) {
                EventResponse::Redraw
            } else {
                EventResponse::Consume
            },
            if old(self).scrolls(change) && old(self).on_scroll is Some {
                exists|message: Msg|
                    #[trigger] call_ensures(
                        old(self).on_scroll->0,
                        (old(self).share_after(change), *old(state)),
                        (*final(state), message),
                    ) && final(message_queue)@ == enqueued(old(message_queue)@, message)
            } else {
                *final(state) == *old(state) && final(message_queue)@ == old(message_queue)@
            },
    {
        let (start, length, slider_start, slider_length): (i64, i64, i64, i64) =
            match self.orientation {
            Orientation::Horizontal => (
                self.container_bounds.x as i64,
                self.container_bounds.width as i64,
                self.slider_bounds.x as i64,
                self.slider_bounds.width as i64,
            ),
            Orientation::Vertical => (
                self.container_bounds.y as i64,
                self.container_bounds.height as i64,
                self.slider_bounds.y as i64,
                self.slider_bounds.height as i64,
            ),
        };
        let room: i64 = length - slider_length;
        let moved: i64 = slider_start + change as i64;
        let to: i64 = if moved > start + room {
            start + room
        } else if moved < start {
            start
        } else {
            moved
        };
        assert(to == old(self).dragged_to(change));
        let offset: i64 = to - start;
        let percent = if room > 0 {
            Fraction { numerator: offset as u32, denominator: room as u32 }
        } else if room == 0 {
            Fraction { numerator: 0, denominator: 0 }
        } else if offset == room {
            Fraction { numerator: 1, denominator: 1 }
        } else {
            Fraction { numerator: 0, denominator: 1 }
        };
        assert(percent == old(self).share_after(change));
        match self.orientation {
            Orientation::Horizontal => {
                self.slider_bounds.x = to as i32;
            },
            Orientation::Vertical => {
                self.slider_bounds.y = to as i32;
            },
        }
        let scrolled = self.last_percentage.differs(&percent);
        self.last_percentage = percent;
        if scrolled {
            match &self.on_scroll {
                Some(on_scroll) => {
                    let mut taken = State::new();
                    core::mem::swap(state, &mut taken);
                    let (next, message) = on_scroll(percent, taken);
                    *state = next;
                    message_queue.push(message);
                },
                None => {},
            }
            EventResponse::Redraw
        } else {
            EventResponse::Consume
        }
    }

    /// Takes an event. A press of the left button on the slider takes hold of
    /// it and a release lets go; while it is held, every movement of the
    /// mouse drags it.
    pub fn handle_event(
        &mut self,
        event: &ApplicationEvent,
        state: &mut State,
        message_queue: &mut MessageQueue<Msg>,
    ) -> (response: EventResponse)
        requires
            old(self).handler_total(),
            old(self).accepts(*event),
        ensures
            *final(self) == old(self).after_event(*event),
            response == old(self).response(*event),
            old(self).scrolled_by(
                *event,
                *old(state),
                old(message_queue)@,
                *final(state),
                final(message_queue)@,
            ),
    {
        match event {
            ApplicationEvent::MouseMotion { relative_change, .. } => {
                if self.is_held_down {
                    let change = match self.orientation {
                        Orientation::Horizontal => relative_change.0,
                        Orientation::Vertical => relative_change.1,
                    };
                    return self.scroll(change, state, message_queue);
                }
                EventResponse::Pass
            },
            ApplicationEvent::MouseButton {
                state: ButtonState::Pressed,
                button: MouseButton::Left,
                position,
            } => {
                if self.slider_bounds.contains(position.0, position.1) {
                    self.is_held_down = true;
                    return EventResponse::Consume;
                }
                EventResponse::Pass
            },
            ApplicationEvent::MouseButton {
                state: ButtonState::Released,
                button: MouseButton::Left,
                ..
            } => {
                self.is_held_down = false;
                EventResponse::Pass
            },
            _ => EventResponse::Pass,
        }
    }
}

/// A slider that is dragged in a container that is not shorter than it stays
/// inside the container.
pub proof fn slider_stays_in_container<S>(bar: ScrollBar<S>, change: i32)
    requires
        bar.room() >= 0,
    ensures
        bar.start_of(bar.container_bounds) <= bar.dragged_to(change) <= bar.start_of(
            bar.container_bounds,
        ) + bar.room(),
        bar.dragged_to(change) + bar.length_of(bar.slider_bounds) <= bar.start_of(
            bar.container_bounds,
        ) + bar.length_of(bar.container_bounds),
{
}

/// A slider that is dragged in a container that is longer than it is then
/// scrolled a share of the way between none and all of it.
pub proof fn scrolled_share_is_in_range<S>(bar: ScrollBar<S>, change: i32)
    requires
        bar.room() > 0,
    ensures
        bar.share_after(change).is_share(),
        bar.share_after(change).numerator == bar.dragged_to(change) - bar.start_of(
            bar.container_bounds,
        ),
        bar.share_after(change).denominator == bar.room(),
{
}

} // verus!
