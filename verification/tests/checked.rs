use surreal::bounding_rect::BoundingRect;
use surreal::driver::{Driver, DriverError, TouchPhase, WindowEvent};
use surreal::event::{ApplicationEvent, ButtonState, MouseButton};
use surreal::handler::Fraction;
use surreal::message::EmptyMessage;
use surreal::render::Metric;
use surreal::state::State;
use surreal::style::{default_theme, Color, Padding, Theme};
use surreal::view::{Root, Stack};
use surreal::widget::{Button, CircleButton, Image, ScrollBar, Text, Widget};
use surreal::{Alignment, Orientation, ViewElement};

#[derive(Debug, PartialEq, Clone, Copy)]
enum Message {
    Moved,
    Quiet,
}

impl EmptyMessage for Message {
    fn is_message_spec(&self) -> bool {
        !matches!(self, Message::Quiet)
    }

    fn is_message(&self) -> bool {
        !matches!(self, Message::Quiet)
    }
}

type Click = Box<dyn Fn(State) -> (State, Message)>;
type Scroll = Box<dyn Fn(Fraction, State) -> (State, Message)>;
type Handler = Box<dyn Fn(&Message, State) -> (State, Option<String>)>;
type Element = ViewElement<Click, Scroll, Handler>;
type View = Stack<Click, Scroll, Handler>;
type Hook = Box<dyn Fn(View, &Message) -> View>;
type Tree = Root<Click, Scroll, Handler, Hook>;

fn theme() -> Theme {
    let mut theme = default_theme();
    theme.view_padding = Padding { vertical: 10, horizontal: 20 };
    theme.widget_padding = Padding { vertical: 5, horizontal: 0 };
    theme.default_alignment = Alignment::Left;
    theme
}

fn measure(_metric: &Metric) -> (u32, u32) {
    (10, 10)
}

fn button(id: &'static str, width: u32, height: u32) -> Element {
    let mut button: Button<Click, Handler> = Button::new(id);
    button.bounds.width = width;
    button.bounds.height = height;
    ViewElement::Widget(Widget::Button(button))
}

fn bounds_of(view: &View, id: &str) -> BoundingRect {
    match view.widget_by_id(id) {
        Some(Widget::Button(button)) => button.bounds,
        _ => panic!("no button of that name"),
    }
}

#[test]
fn a_rect_can_move_as_far_as_coordinates_reach() {
    let rect = BoundingRect { x: i32::MAX - 5, y: i32::MIN + 5, width: 100, height: 100 };
    assert!(rect.check_move(5, -5));
    assert!(!rect.check_move(6, 0));
    assert!(!rect.check_move(0, -6));
    assert!(rect.check_move(i32::MIN, i32::MAX));
}

#[test]
fn try_layout_lays_out_what_layout_lays_out() {
    let mut checked: View = Stack::new(
        Orientation::Vertical,
        vec![button("a", 100, 30), button("b", 100, 40)],
    );
    let mut plain: View = Stack::new(
        Orientation::Vertical,
        vec![button("a", 100, 30), button("b", 100, 40)],
    );
    assert!(checked.try_layout(&theme(), (800, 600), true));
    plain.layout(&theme(), (800, 600), true);
    assert_eq!(checked.render_size(), plain.render_size());
    assert_eq!(bounds_of(&checked, "a"), bounds_of(&plain, "a"));
    assert_eq!(bounds_of(&checked, "b"), bounds_of(&plain, "b"));
    assert_eq!(bounds_of(&checked, "b").top_left(), (20, 45));
}

#[test]
fn try_layout_refuses_what_runs_over() {
    let mut wide: View = Stack::new(
        Orientation::Horizontal,
        vec![button("a", u32::MAX, 30), button("b", 1, 40)],
    );
    assert!(!wide.try_layout(&theme(), (800, 600), true));
    assert_eq!(bounds_of(&wide, "a").dimensions(), (u32::MAX, 30));
    assert_eq!(bounds_of(&wide, "b").dimensions(), (1, 40));
    let mut far: View = Stack::new(
        Orientation::Vertical,
        vec![button("a", 1, i32::MAX as u32), button("b", 1, 1)],
    );
    assert!(!far.try_layout(&theme(), (800, 600), true));
    let mut near: View = Stack::new(
        Orientation::Vertical,
        vec![button("a", 1, i32::MAX as u32 - 15), button("b", 1, 1)],
    );
    assert!(near.try_layout(&theme(), (800, 600), true));
    assert_eq!(bounds_of(&near, "b").top_left(), (20, i32::MAX));
}

#[test]
fn try_layout_refuses_an_empty_nested_view_with_padding_between_widgets() {
    let nested: View = Stack::new(Orientation::Vertical, Vec::new());
    let mut view: View = Stack::new(Orientation::Vertical, vec![ViewElement::View(nested)]);
    assert!(!view.try_layout(&theme(), (800, 600), true));
    let mut empty_root: View = Stack::new(Orientation::Vertical, Vec::new());
    assert!(empty_root.try_layout(&theme(), (800, 600), true));
    assert_eq!(empty_root.render_size(), (40, 15));
}

#[test]
fn a_view_can_move_if_all_that_is_in_it_can() {
    let mut view: View = Stack::new(Orientation::Vertical, vec![button("a", 100, 30)]);
    assert!(view.try_layout(&theme(), (800, 600), true));
    assert!(view.check_translate(100, 100));
    assert!(view.check_translate(i32::MAX - 20, 0));
    assert!(!view.check_translate(i32::MAX - 19, 0));
    assert!(!view.check_translate(0, i32::MAX - 9));
}

#[test]
fn widgets_say_whether_they_can_be_initialized_and_drawn() {
    let theme = theme();
    let nameless: Widget<Click, Scroll, Handler> = Widget::Image(Image::new("i"));
    assert!(!nameless.check_init(&theme));
    let named: Widget<Click, Scroll, Handler> = Widget::Image(Image::new("i").resource("r"));
    assert!(named.check_init(&theme));
    assert!(named.check_render());
    let mut padded = theme;
    padded.widget_styles.internal_padding = Padding { vertical: 41, horizontal: 0 };
    let tight: CircleButton<Click, Handler> =
        CircleButton::new("c").radius(40).image(Image::new("").resource("r"));
    assert!(tight.check_init(&theme));
    assert!(!tight.check_init(&padded));
    let plain: CircleButton<Click, Handler> = CircleButton::new("c").radius(40);
    assert!(plain.check_init(&padded));
    let huge: CircleButton<Click, Handler> = CircleButton::new("c").radius(u32::MAX);
    assert!(!huge.check_init(&theme));
    let raw: Widget<Click, Scroll, Handler> = Widget::Button(Button::new("b"));
    assert!(!raw.check_render());
    let colored: Widget<Click, Scroll, Handler> = Widget::Button(Button::new("b").color(Color::white()));
    assert!(colored.check_render());
    let text: Widget<Click, Scroll, Handler> = Widget::Text(Text::new("t"));
    assert!(text.check_init(&theme));
    assert!(text.check_render());
    assert!(text.check_place(i32::MAX, i32::MIN));
    assert!(text.check_translate(0, 0));
    assert!(text.check_translate(i32::MAX, i32::MIN));
}

#[test]
fn a_button_can_be_put_where_its_text_can_go() {
    let theme = theme();
    let label: Text<Handler> = Text::new("").text("wide");
    let mut button: Button<Click, Handler> = Button::new("b").text(label);
    button.init(&|_metric: &Metric| (350, 10), &theme);
    assert!(button.check_place(i32::MIN + 100, 0));
    assert!(!button.check_place(i32::MIN + 99, 0));
    assert!(button.check_place(i32::MAX, i32::MAX - 32));
    assert!(!button.check_place(i32::MAX, i32::MAX - 31));
}

fn held_bar_at(x: i32, y: i32) -> ScrollBar<Scroll> {
    let report: Scroll = Box::new(|_at: Fraction, state: State| (state, Message::Moved));
    let mut bar: ScrollBar<Scroll> = ScrollBar::new("bar", 200, 50).on_scroll(report);
    bar.init(&default_theme());
    bar.place(x, y);
    bar.is_held_down = true;
    bar
}

#[test]
fn a_bar_cannot_be_dragged_further_than_coordinates_reach() {
    let drag = ApplicationEvent::MouseMotion { position: (0, 0), relative_change: (0, 500) };
    let back = ApplicationEvent::MouseMotion { position: (0, 0), relative_change: (0, 100) };
    let bar = held_bar_at(0, i32::MAX - 100);
    assert!(!bar.check_event(&drag));
    assert!(bar.check_event(&back));
    assert!(bar.check_translate(0, -50));
    assert!(!bar.check_translate(0, 101));
    let resting = held_bar_at(0, 0);
    assert!(resting.check_event(&drag));
    let press = ApplicationEvent::MouseButton {
        state: ButtonState::Pressed,
        button: MouseButton::Left,
        position: (0, 0),
    };
    assert!(bar.check_event(&press));
}

#[test]
fn a_bar_whose_slider_is_too_long_cannot_be_moved() {
    let mut bar: ScrollBar<Scroll> = ScrollBar::new("bar", 20, 50);
    bar.init(&default_theme());
    assert!(!bar.check_translate(0, 0));
    assert!(bar.check_render());
    let unstyled: ScrollBar<Scroll> = ScrollBar::new("bar", 20, 5);
    assert!(!unstyled.check_render());
    assert!(unstyled.check_translate(1, 1));
}

#[test]
fn the_driver_says_what_it_cannot_start() {
    let driver: Driver<Message> = Driver::new(800, 600);
    let mut nameless: View = Stack::new(
        Orientation::Vertical,
        vec![ViewElement::Widget(Widget::Image(Image::new("i")))],
    );
    assert_eq!(driver.try_start(&mut nameless, &measure, &theme()), Err(DriverError::CannotInit));
    let mut wide: View = Stack::new(
        Orientation::Horizontal,
        vec![button("a", u32::MAX, 30), button("b", 1, 40)],
    );
    assert_eq!(driver.try_start(&mut wide, &measure, &theme()), Err(DriverError::CannotLayOut));
    let mut fine: View = Stack::new(Orientation::Vertical, vec![button("a", 100, 30)]);
    assert_eq!(driver.try_start(&mut fine, &measure, &theme()), Ok((140, 50)));
}

#[test]
fn the_driver_says_what_it_cannot_draw() {
    let mut driver: Driver<Message> = Driver::new(800, 600);
    let mut raw: View = Stack::new(Orientation::Vertical, vec![button("a", 100, 30)]);
    assert_eq!(driver.try_redraw(&mut raw, &measure, &theme()), Err(DriverError::CannotDraw));
    assert!(driver.should_render);
    driver.should_resize = true;
    match driver.try_redraw(&mut raw, &measure, &theme()) {
        Ok(Some(commands)) => assert_eq!(commands.len(), 1),
        _ => panic!("the view was not drawn"),
    }
    assert!(!driver.should_render);
    assert!(!driver.should_resize);
    assert_eq!(driver.try_redraw(&mut raw, &measure, &theme()), Ok(None));
    driver.should_resize = true;
    raw.append(ViewElement::Widget(Widget::Image(Image::new("i"))));
    assert_eq!(driver.try_redraw(&mut raw, &measure, &theme()), Err(DriverError::CannotInit));
    assert!(driver.should_resize);
    assert_eq!(raw.delete("i"), Ok(()));
    raw.append(button("huge", 1, u32::MAX));
    assert_eq!(driver.try_redraw(&mut raw, &measure, &theme()), Err(DriverError::CannotLayOut));
    assert!(driver.should_resize);
    assert!(!driver.should_render);
}

#[test]
fn the_driver_says_why_a_tree_cannot_take_an_event() {
    let mut driver: Driver<Message> = Driver::new(800, 600);
    let press = ApplicationEvent::MouseButton {
        state: ButtonState::Pressed,
        button: MouseButton::Left,
        position: (0, 0),
    };
    let mut stateless: Tree = Root::new(Stack::new(Orientation::Vertical, vec![button("a", 1, 1)]));
    assert_eq!(driver.try_dispatch(&mut stateless, &press), Err(DriverError::NoState));
    assert_eq!(driver.try_dispatch(&mut stateless, &ApplicationEvent::Idle), Ok(false));
    let mut view: View = Stack::new(
        Orientation::Vertical,
        vec![ViewElement::Widget(Widget::ScrollBar(held_bar_at(0, i32::MAX - 100)))],
    );
    view.assign_state(State::new());
    let mut root: Tree = Root::new(view);
    let drag = ApplicationEvent::MouseMotion { position: (0, 0), relative_change: (0, 500) };
    assert_eq!(driver.try_dispatch(&mut root, &drag), Err(DriverError::CannotTakeEvent));
    let back = ApplicationEvent::MouseMotion { position: (0, 0), relative_change: (0, 10) };
    assert_eq!(driver.try_dispatch(&mut root, &back), Ok(true));
    assert!(driver.should_resize || driver.should_render);
}

#[test]
fn the_driver_does_not_take_a_cancelled_touch() {
    let mut driver: Driver<Message> = Driver::new(800, 600);
    let cancelled = WindowEvent::Touch { phase: TouchPhase::Cancelled, position: (1, 1) };
    assert!(!driver.check_window_event(&cancelled));
    assert!(driver.check_window_event(&WindowEvent::CursorMoved { position: (i32::MAX, i32::MAX) }));
    let _ = driver.handle_window_event(&WindowEvent::CursorMoved { position: (i32::MAX, 5) });
    assert!(!driver.check_window_event(&WindowEvent::CursorMoved { position: (-2, 5) }));
    assert!(driver.check_window_event(&WindowEvent::CursorMoved { position: (-1, 5) }));
    assert!(!driver.check_window_event(&WindowEvent::Touch {
        phase: TouchPhase::Moved,
        position: (i32::MIN, 0),
    }));
    assert!(driver.check_window_event(&WindowEvent::Touch {
        phase: TouchPhase::Started,
        position: (i32::MIN, 0),
    }));
    assert!(driver.check_window_event(&WindowEvent::RedrawRequested));
}
