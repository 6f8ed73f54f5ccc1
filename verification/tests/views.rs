use surreal::bounding_rect::BoundingRect;
use surreal::event::{ApplicationEvent, ButtonState, MouseButton};
use surreal::handler::Fraction;
use surreal::message::{EmptyMessage, MessageQueue};
use surreal::render::{DrawCommand, Metric};
use surreal::state::{State, Value, ValueKind};
use surreal::style::{default_theme, Color, Padding, Theme};
use surreal::view::{Stack, ViewError};
use surreal::widget::{Button, CircleButton, Image, ScrollBar, Text, Widget};
use surreal::{Alignment, IntoViewElement, Orientation, ViewElement};

#[derive(Debug, PartialEq, Clone, Copy)]
enum Message {
    Clicked(u32),
    Quiet,
}

impl EmptyMessage for Message {
    fn is_message_spec(&self) -> bool {
        !matches!(self, Message::Quiet)
    }

    fn is_message(&self) -> bool {
        !matches!(self, Message::Quiet)
    }
}

type Click = Box<dyn Fn(State) -> (State, Message)>;
type Scroll = Box<dyn Fn(Fraction, State) -> (State, Message)>;
type Handler = Box<dyn Fn(&Message, State) -> (State, Option<String>)>;
type Element = ViewElement<Click, Scroll, Handler>;
type View = Stack<Click, Scroll, Handler>;

fn press(x: i32, y: i32) -> ApplicationEvent {
    ApplicationEvent::MouseButton {
        state: ButtonState::Pressed,
        button: MouseButton::Left,
        position: (x, y),
    }
}

fn release(x: i32, y: i32) -> ApplicationEvent {
    ApplicationEvent::MouseButton {
        state: ButtonState::Released,
        button: MouseButton::Left,
        position: (x, y),
    }
}

fn theme_with(view: (u32, u32), widget: (u32, u32), alignment: Alignment) -> Theme {
    let mut theme = default_theme();
    theme.view_padding = Padding { vertical: view.0, horizontal: view.1 };
    theme.widget_padding = Padding { vertical: widget.0, horizontal: widget.1 };
    theme.default_alignment = alignment;
    theme
}

fn sized_button(id: &'static str, width: u32, height: u32) -> Button<Click, Handler> {
    let mut button: Button<Click, Handler> = Button::new(id);
    button.bounds.width = width;
    button.bounds.height = height;
    button
}

fn button(id: &'static str, width: u32, height: u32) -> Element {
    ViewElement::Widget(Widget::Button(sized_button(id, width, height)))
}

fn clicking(id: &'static str, number: u32) -> Element {
    let on_click: Click = Box::new(move |mut state: State| {
        let n = match state.peek("clicks", ValueKind::Int) {
            Ok(Value::Int(n)) => *n,
            _ => 0,
        };
        let _ = state.set("clicks", Value::Int(n + 1));
        (state, Message::Clicked(number))
    });
    ViewElement::Widget(Widget::Button(sized_button(id, 100, 30).on_click(on_click)))
}

fn counting_state() -> State {
    let mut state = State::new();
    assert_eq!(state.add_var("clicks", Value::Int(0)), Ok(()));
    state
}

fn clicks(view: &View) -> i64 {
    match view.state().peek("clicks", ValueKind::Int) {
        Ok(Value::Int(n)) => *n,
        _ => panic!("the counter is gone"),
    }
}

fn bounds_of(view: &View, id: &str) -> BoundingRect {
    match view.widget_by_id(id) {
        Some(Widget::Button(button)) => button.bounds,
        Some(Widget::Text(text)) => text.bounds,
        Some(Widget::Image(image)) => image.bounds,
        Some(Widget::CircleButton(button)) => button.bounds,
        Some(Widget::ScrollBar(bar)) => bar.container_bounds,
        None => panic!("no widget of that name"),
    }
}

fn armed(view: &View, id: &str) -> bool {
    match view.widget_by_id(id) {
        Some(Widget::Button(button)) => button.mouse_down_in_bounds,
        _ => panic!("no button of that name"),
    }
}

fn three_buttons() -> View {
    Stack::new(
        Orientation::Vertical,
        vec![button("a", 100, 30), button("b", 100, 40), button("c", 100, 50)],
    )
}

#[test]
fn a_vertical_root_stacks_its_widgets_and_pads_itself() {
    let theme = theme_with((10, 20), (5, 0), Alignment::Left);
    let mut view = three_buttons();
    view.layout(&theme, (800, 600), true);
    assert_eq!(view.render_size(), (140, 150));
    assert_eq!(view.render_width(), 140);
    assert_eq!(view.render_height(), 150);
    assert_eq!(bounds_of(&view, "a"), BoundingRect { x: 20, y: 10, width: 100, height: 30 });
    assert_eq!(bounds_of(&view, "b"), BoundingRect { x: 20, y: 45, width: 100, height: 40 });
    assert_eq!(bounds_of(&view, "c"), BoundingRect { x: 20, y: 90, width: 100, height: 50 });
    assert_eq!(view.bounds.top_left(), (0, 0));
}

#[test]
fn laying_out_twice_puts_every_widget_in_the_same_place() {
    let theme = theme_with((10, 20), (5, 0), Alignment::Center);
    let nested: View = Stack::new(
        Orientation::Horizontal,
        vec![button("left", 30, 20), button("right", 50, 60)],
    );
    let mut view: View = Stack::new(
        Orientation::Vertical,
        vec![button("top", 100, 30), ViewElement::View(nested), button("bottom", 70, 10)],
    );
    view.layout(&theme, (800, 600), true);
    let first: Vec<BoundingRect> =
        ["top", "left", "right", "bottom"].iter().map(|id| bounds_of(&view, id)).collect();
    let size = view.render_size();
    view.layout(&theme, (800, 600), true);
    let second: Vec<BoundingRect> =
        ["top", "left", "right", "bottom"].iter().map(|id| bounds_of(&view, id)).collect();
    assert_eq!(first, second);
    assert_eq!(size, view.render_size());
}

#[test]
fn a_horizontal_root_lines_its_widgets_up_from_the_left() {
    let theme = theme_with((10, 20), (5, 7), Alignment::Left);
    let mut view: View = Stack::new(
        Orientation::Horizontal,
        vec![button("a", 100, 30), button("b", 60, 50)],
    );
    view.layout(&theme, (800, 600), true);
    assert_eq!(bounds_of(&view, "a").top_left(), (20, 10));
    assert_eq!(bounds_of(&view, "b").top_left(), (127, 10));
    assert_eq!(view.render_size(), (20 + 107 + 67 + 20 - 7, 10 + 50 + 10));
}

#[test]
fn a_centered_vertical_root_centers_each_widget_and_itself() {
    let theme = theme_with((10, 20), (5, 0), Alignment::Center);
    let mut view = three_buttons();
    view.layout(&theme, (800, 600), true);
    assert_eq!(view.render_size(), (120, 150));
    assert_eq!(bounds_of(&view, "a").top_left(), (350, 10 + 225));
    assert_eq!(bounds_of(&view, "b").top_left(), (350, 45 + 225));
    assert_eq!(bounds_of(&view, "c").top_left(), (350, 90 + 225));
    assert_eq!(view.bounds, BoundingRect { x: 0, y: 225, width: 120, height: 150 });
}

#[test]
fn the_alignment_of_the_view_counts_before_that_of_the_theme() {
    let theme = theme_with((10, 20), (5, 0), Alignment::Center);
    let mut view = three_buttons().alignment(Alignment::Left);
    view.layout(&theme, (800, 600), true);
    assert_eq!(view.render_size(), (140, 150));
    assert_eq!(bounds_of(&view, "a").top_left(), (20, 10));
}

#[test]
fn a_nested_view_is_laid_out_like_a_widget() {
    let theme = theme_with((10, 20), (5, 7), Alignment::Left);
    let nested: View = Stack::new(
        Orientation::Horizontal,
        vec![button("left", 30, 20), button("right", 50, 60)],
    );
    let mut view: View = Stack::new(
        Orientation::Vertical,
        vec![button("top", 100, 30), ViewElement::View(nested), button("bottom", 70, 10)],
    );
    view.layout(&theme, (800, 600), true);
    assert_eq!(bounds_of(&view, "top").top_left(), (20, 10));
    assert_eq!(bounds_of(&view, "left").top_left(), (20, 45));
    assert_eq!(bounds_of(&view, "right").top_left(), (57, 45));
    assert_eq!(bounds_of(&view, "bottom").top_left(), (20, 110));
    assert_eq!(view.render_size(), (20 + 100 + 20, 10 + 35 + 65 + 15 + 10 - 5));
    match &view.children[1] {
        ViewElement::View(nested) => {
            assert_eq!(nested.bounds, BoundingRect { x: 20, y: 45, width: 87 , height: 60 });
        },
        _ => panic!("the nested view is gone"),
    }
}

#[test]
fn translate_moves_the_view_and_all_that_is_in_it() {
    let theme = theme_with((10, 20), (5, 0), Alignment::Left);
    let nested: View = Stack::new(Orientation::Vertical, vec![button("inner", 10, 10)]);
    let mut view: View = Stack::new(
        Orientation::Vertical,
        vec![button("outer", 100, 30), ViewElement::View(nested)],
    );
    view.layout(&theme, (800, 600), true);
    let outer = bounds_of(&view, "outer").top_left();
    let inner = bounds_of(&view, "inner").top_left();
    view.translate(-3, 11);
    assert_eq!(bounds_of(&view, "outer").top_left(), (outer.0 - 3, outer.1 + 11));
    assert_eq!(bounds_of(&view, "inner").top_left(), (inner.0 - 3, inner.1 + 11));
    assert_eq!(view.bounds.top_left(), (-3, 11));
}

fn overlapping() -> View {
    let mut view: View = Stack::new(
        Orientation::Vertical,
        vec![clicking("a", 1), clicking("b", 2), clicking("c", 3)],
    );
    view.assign_state(counting_state());
    view
}

#[test]
fn a_consumed_event_does_not_reach_the_widgets_after_the_consumer() {
    let mut view = overlapping();
    let mut queue = MessageQueue::new();
    assert!(!view.propagate_event(&press(5, 5), &mut queue));
    assert!(armed(&view, "a"));
    assert!(!armed(&view, "b"));
    assert!(!armed(&view, "c"));
    assert!(!view.propagate_event(&release(5, 5), &mut queue));
    assert_eq!(queue.drain(), vec![Message::Clicked(1)]);
    assert_eq!(clicks(&view), 1);
}

#[test]
fn an_event_that_passes_reaches_every_widget() {
    let theme = theme_with((10, 20), (5, 0), Alignment::Left);
    let mut view = overlapping();
    view.layout(&theme, (800, 600), true);
    let mut queue = MessageQueue::new();
    let _ = view.propagate_event(&press(20, 45), &mut queue);
    assert!(!armed(&view, "a"));
    assert!(armed(&view, "b"));
    assert!(!armed(&view, "c"));
    let _ = view.propagate_event(&release(20, 75), &mut queue);
    assert_eq!(queue.drain(), vec![Message::Clicked(2)]);
    let _ = view.propagate_event(&press(20, 80), &mut queue);
    let _ = view.propagate_event(&release(500, 500), &mut queue);
    assert!(!armed(&view, "a"));
    assert!(!armed(&view, "b"));
    assert!(!armed(&view, "c"));
    assert_eq!(queue.len(), 0);
    assert_eq!(clicks(&view), 1);
}

#[test]
fn what_a_nested_view_used_up_is_used_up_in_that_view_only() {
    let nested: View = Stack::new(
        Orientation::Vertical,
        vec![clicking("first", 1), clicking("second", 2)],
    );
    let mut view: View = Stack::new(
        Orientation::Vertical,
        vec![ViewElement::View(nested), clicking("after", 3)],
    );
    view.assign_state(counting_state());
    let mut queue = MessageQueue::new();
    let _ = view.propagate_event(&press(1, 1), &mut queue);
    assert!(armed(&view, "first"));
    assert!(!armed(&view, "second"));
    assert!(armed(&view, "after"));
}

#[test]
fn handlers_of_one_tree_work_on_one_store() {
    let theme = theme_with((0, 0), (0, 0), Alignment::Left);
    let nested: View = Stack::new(Orientation::Vertical, vec![clicking("inner", 2)]);
    let mut view: View = Stack::new(
        Orientation::Vertical,
        vec![clicking("outer", 1), ViewElement::View(nested)],
    );
    view.assign_state(counting_state());
    view.layout(&theme, (800, 600), true);
    let mut queue = MessageQueue::new();
    let _ = view.propagate_event(&press(1, 1), &mut queue);
    let _ = view.propagate_event(&release(1, 1), &mut queue);
    assert_eq!(clicks(&view), 1);
    let _ = view.propagate_event(&press(1, 31), &mut queue);
    let _ = view.propagate_event(&release(1, 31), &mut queue);
    assert_eq!(clicks(&view), 2);
    assert_eq!(queue.drain(), vec![Message::Clicked(1), Message::Clicked(2)]);
}

#[test]
fn two_trees_do_not_see_each_others_state() {
    let mut one = overlapping();
    let mut other = overlapping();
    let mut queue = MessageQueue::new();
    let _ = one.propagate_event(&press(1, 1), &mut queue);
    let _ = one.propagate_event(&release(1, 1), &mut queue);
    assert_eq!(clicks(&one), 1);
    assert_eq!(clicks(&other), 0);
    let _ = other.propagate_event(&press(1, 1), &mut queue);
    let _ = other.propagate_event(&release(1, 1), &mut queue);
    let _ = other.propagate_event(&press(1, 1), &mut queue);
    let _ = other.propagate_event(&release(1, 1), &mut queue);
    assert_eq!(clicks(&one), 1);
    assert_eq!(clicks(&other), 2);
}

#[test]
fn assigning_a_state_leaves_the_tree_one_store() {
    let mut nested: View = Stack::new(Orientation::Vertical, vec![button("inner", 10, 10)]);
    nested.assign_state(State::new());
    assert!(nested.state.is_some());
    let mut view: View = Stack::new(Orientation::Vertical, vec![ViewElement::View(nested)]);
    assert!(view.state.is_none());
    view.assign_state(counting_state());
    assert!(view.state().contains("clicks"));
    match &view.children[0] {
        ViewElement::View(nested) => assert!(nested.state.is_none()),
        _ => panic!("the nested view is gone"),
    }
}

#[test]
fn a_scroll_that_moves_asks_for_a_redraw() {
    let theme = default_theme();
    let report: Scroll = Box::new(|at: Fraction, state: State| (state, Message::Clicked(at.numerator)));
    let mut bar: ScrollBar<Scroll> = ScrollBar::new("bar", 200, 50).on_scroll(report);
    bar.init(&theme);
    let nested: View = Stack::new(
        Orientation::Vertical,
        vec![ViewElement::Widget(Widget::ScrollBar(bar))],
    );
    let mut view: View = Stack::new(Orientation::Vertical, vec![ViewElement::View(nested)]);
    view.assign_state(State::new());
    let mut queue = MessageQueue::new();
    assert!(!view.propagate_event(&press(1, 1), &mut queue));
    let drag = ApplicationEvent::MouseMotion { position: (1, 21), relative_change: (0, 20) };
    assert!(view.propagate_event(&drag, &mut queue));
    assert_eq!(queue.drain(), vec![Message::Clicked(20)]);
    let still = ApplicationEvent::MouseMotion { position: (1, 21), relative_change: (0, 0) };
    assert!(!view.propagate_event(&still, &mut queue));
}

fn text_showing_clicks(id: &'static str) -> Element {
    let handler: Handler = Box::new(|message: &Message, state: State| match message {
        Message::Clicked(n) => (state, Some(format!("clicked {}", n))),
        Message::Quiet => (state, None),
    });
    ViewElement::Widget(Widget::Text(Text::new(id).text("nothing yet").message_handler(handler)))
}

fn text_of(view: &View, id: &str) -> String {
    match view.widget_by_id(id) {
        Some(Widget::Text(text)) => text.text.clone(),
        _ => panic!("no text of that name"),
    }
}

#[test]
fn a_message_reaches_every_text_and_the_resize_flag_is_cleared() {
    let nested: View = Stack::new(Orientation::Vertical, vec![text_showing_clicks("inner")]);
    let mut view: View = Stack::new(
        Orientation::Vertical,
        vec![text_showing_clicks("outer"), button("b", 10, 10), ViewElement::View(nested)],
    );
    view.assign_state(State::new());
    assert!(!view.propagate_message(&Message::Quiet));
    assert_eq!(text_of(&view, "outer"), "nothing yet");
    assert!(view.propagate_message(&Message::Clicked(4)));
    assert_eq!(text_of(&view, "outer"), "clicked 4");
    assert_eq!(text_of(&view, "inner"), "clicked 4");
    match view.widget_by_id("outer") {
        Some(Widget::Text(text)) => assert!(!text.should_resize),
        _ => panic!("no text of that name"),
    }
    match view.widget_by_id("inner") {
        Some(Widget::Text(text)) => assert!(!text.should_resize),
        _ => panic!("no text of that name"),
    }
    assert!(!view.propagate_message(&Message::Quiet));
}

#[test]
fn a_resize_flag_that_was_set_by_hand_is_reported_once() {
    let mut view: View = Stack::new(Orientation::Vertical, vec![text_showing_clicks("t")]);
    view.assign_state(State::new());
    view.get_widget_by_id("t").unwrap().as_text().unwrap().set_text("by hand");
    assert!(view.propagate_message(&Message::Quiet));
    assert!(!view.propagate_message(&Message::Quiet));
    assert_eq!(text_of(&view, "t"), "by hand");
}

#[test]
fn message_handlers_share_the_store_too() {
    let counting: Handler = Box::new(|_message: &Message, mut state: State| {
        let n = match state.peek("clicks", ValueKind::Int) {
            Ok(Value::Int(n)) => *n,
            _ => 0,
        };
        let _ = state.set("clicks", Value::Int(n + 1));
        (state, Some(format!("{}", n + 1)))
    });
    let counting_too: Handler = Box::new(|_message: &Message, mut state: State| {
        let n = match state.peek("clicks", ValueKind::Int) {
            Ok(Value::Int(n)) => *n,
            _ => 0,
        };
        let _ = state.set("clicks", Value::Int(n + 1));
        (state, Some(format!("{}", n + 1)))
    });
    let mut view: View = Stack::new(
        Orientation::Vertical,
        vec![
            ViewElement::Widget(Widget::Text(Text::new("one").message_handler(counting))),
            ViewElement::Widget(Widget::Text(Text::new("two").message_handler(counting_too))),
        ],
    );
    view.assign_state(counting_state());
    let _ = view.propagate_message(&Message::Clicked(0));
    assert_eq!(text_of(&view, "one"), "1");
    assert_eq!(text_of(&view, "two"), "2");
    assert_eq!(clicks(&view), 2);
}

fn names(view: &View) -> Vec<&'static str> {
    view.children
        .iter()
        .map(|element| match element {
            ViewElement::Widget(widget) => widget.id(),
            ViewElement::View(_) => "(view)",
        })
        .collect()
}

#[test]
fn append_adds_at_the_end() {
    let mut view = three_buttons();
    view.append(button("d", 1, 1));
    assert_eq!(names(&view), vec!["a", "b", "c", "d"]);
}

#[test]
fn delete_takes_out_the_first_widget_of_the_name() {
    let mut view = three_buttons();
    view.append(button("b", 5, 5));
    assert_eq!(view.delete("b"), Ok(()));
    assert_eq!(names(&view), vec!["a", "c", "b"]);
    assert_eq!(bounds_of(&view, "b").dimensions(), (5, 5));
    assert_eq!(view.delete("b"), Ok(()));
    assert_eq!(view.delete("b"), Err(ViewError::NotFound));
    assert_eq!(names(&view), vec!["a", "c"]);
}

#[test]
fn delete_and_insert_look_at_the_views_own_elements_only() {
    let nested: View = Stack::new(Orientation::Vertical, vec![button("inner", 10, 10)]);
    let mut view: View = Stack::new(
        Orientation::Vertical,
        vec![ViewElement::View(nested), button("last", 1, 1)],
    );
    assert_eq!(view.delete("inner"), Err(ViewError::NotFound));
    assert_eq!(view.insert_after("inner", button("x", 1, 1)), Err(ViewError::NotFound));
    assert_eq!(names(&view), vec!["(view)", "last"]);
    assert_eq!(view.delete("last"), Ok(()));
    assert_eq!(names(&view), vec!["(view)"]);
    assert_eq!(view.delete("last"), Err(ViewError::NotFound));
}

#[test]
fn insert_after_puts_the_element_behind_the_named_widget() {
    let mut view = three_buttons();
    assert_eq!(view.insert_after("a", button("x", 1, 1)), Ok(()));
    assert_eq!(names(&view), vec!["a", "x", "b", "c"]);
    assert_eq!(view.insert_after("c", button("y", 1, 1)), Ok(()));
    assert_eq!(names(&view), vec!["a", "x", "b", "c", "y"]);
    assert_eq!(view.insert_after("z", button("w", 1, 1)), Err(ViewError::NotFound));
    assert_eq!(names(&view), vec!["a", "x", "b", "c", "y"]);
}

#[test]
fn lookup_goes_depth_first() {
    let deep: View = Stack::new(Orientation::Vertical, vec![button("twice", 1, 1)]);
    let nested: View = Stack::new(
        Orientation::Vertical,
        vec![button("inner", 2, 2), ViewElement::View(deep)],
    );
    let mut view: View = Stack::new(
        Orientation::Vertical,
        vec![button("first", 3, 3), ViewElement::View(nested), button("twice", 4, 4)],
    );
    assert!(view.has_widget("first"));
    assert!(view.has_widget("inner"));
    assert!(view.has_widget("twice"));
    assert!(!view.has_widget("missing"));
    assert!(!view.has_widget(""));
    assert_eq!(bounds_of(&view, "twice").dimensions(), (1, 1));
    assert!(view.widget_by_id("missing").is_none());
    assert!(view.get_widget_by_id("missing").is_none());
    match view.get_widget_by_id("twice") {
        Some(widget) => widget.as_button().unwrap().bounds.width = 9,
        None => panic!("no widget of that name"),
    }
    assert_eq!(bounds_of(&view, "twice").dimensions(), (9, 1));
    match &view.children[2] {
        ViewElement::Widget(Widget::Button(button)) => assert_eq!(button.bounds.width, 4),
        _ => panic!("the last button is gone"),
    }
    assert!(view.get_widget_by_id("inner").unwrap().as_text().is_none());
}

fn measure(metric: &Metric) -> (u32, u32) {
    match metric {
        Metric::Text { text, scale, .. } => (text.chars().count() as u32 * (*scale / 2), *scale),
        Metric::Image { alias } => (alias.len() as u32 * 10, 20),
    }
}

#[test]
fn init_reaches_every_view_and_widget() {
    let theme = default_theme();
    let nested: View = Stack::new(
        Orientation::Horizontal,
        vec![
            ViewElement::Widget(Widget::Image(Image::new("image").resource("plus"))),
            ViewElement::Widget(Widget::CircleButton(CircleButton::new("round"))),
        ],
    );
    let mut view: View = Stack::new(
        Orientation::Vertical,
        vec![
            ViewElement::Widget(Widget::Text(Text::new("text").text("four").scale(30))),
            ViewElement::View(nested),
            ViewElement::Widget(Widget::ScrollBar(ScrollBar::new("bar", 100, 10))),
        ],
    )
    .alignment(Alignment::Left);
    view._init(&measure, &theme, true);
    assert_eq!(view.alignment, Some(Alignment::Left));
    match &view.children[1] {
        ViewElement::View(nested) => assert_eq!(nested.alignment, Some(Alignment::Center)),
        _ => panic!("the nested view is gone"),
    }
    assert_eq!(bounds_of(&view, "text").dimensions(), (60, 30));
    assert_eq!(bounds_of(&view, "image").dimensions(), (40, 20));
    assert_eq!(bounds_of(&view, "round").dimensions(), (100, 100));
    assert_eq!(bounds_of(&view, "bar").dimensions(), (12, 100));
    view.get_widget_by_id("text").unwrap().as_text().unwrap().set_text("longer text");
    view._init(&measure, &theme, false);
    assert_eq!(bounds_of(&view, "text").dimensions(), (165, 30));
}

#[test]
fn a_view_draws_its_elements_in_their_order() {
    let theme = theme_with((10, 20), (5, 0), Alignment::Left);
    let nested: View = Stack::new(Orientation::Vertical, vec![button("inner", 10, 10)]);
    let mut view: View = Stack::new(
        Orientation::Vertical,
        vec![button("a", 100, 30), ViewElement::View(nested), button("c", 20, 20)],
    );
    view._init(&measure, &theme, true);
    view.layout(&theme, (800, 600), true);
    let rect = |x: i32, y: i32, width: u32, height: u32| DrawCommand::RoundedRect {
        top_left: (x, y),
        width,
        height,
        roundness_percent: 50,
        color: Color::almost_white(),
    };
    assert_eq!(
        view.render(&theme),
        vec![rect(20, 10, 100, 30), rect(20, 45, 10, 10), rect(20, 60, 20, 20)]
    );
    let empty: View = Stack::new(Orientation::Vertical, Vec::new());
    assert_eq!(empty.render(&theme), Vec::<DrawCommand>::new());
}

#[test]
fn widgets_and_views_become_elements() {
    let as_button: Element = sized_button("b", 1, 2).into_element();
    assert!(matches!(as_button, ViewElement::Widget(Widget::Button(_))));
    let text: Text<Handler> = Text::new("t");
    let as_text: Element = text.into_element();
    assert!(matches!(as_text, ViewElement::Widget(Widget::Text(_))));
    let as_image: Element = Image::new("i").into_element();
    assert!(matches!(as_image, ViewElement::Widget(Widget::Image(_))));
    let bar: ScrollBar<Scroll> = ScrollBar::new("s", 10, 5);
    let as_bar: Element = bar.into_element();
    assert!(matches!(as_bar, ViewElement::Widget(Widget::ScrollBar(_))));
    let round: CircleButton<Click, Handler> = CircleButton::new("c");
    let as_round: Element = round.into_element();
    assert!(matches!(as_round, ViewElement::Widget(Widget::CircleButton(_))));
    let widget: Widget<Click, Scroll, Handler> = Widget::Image(Image::new("w"));
    let as_widget: Element = widget.into_element();
    assert!(matches!(as_widget, ViewElement::Widget(Widget::Image(_))));
    let view: View = Stack::new(Orientation::Horizontal, vec![as_button, as_text]);
    let as_view: Element = view.into_element();
    match as_view {
        ViewElement::View(view) => assert_eq!(view.children.len(), 2),
        ViewElement::Widget(_) => panic!("the view became a widget"),
    }
}

#[test]
fn the_elements_of_a_view_can_be_changed_in_place() {
    let mut view = three_buttons();
    view.children().swap(0, 2);
    assert_eq!(names(&view), vec!["c", "b", "a"]);
    view.children().clear();
    assert_eq!(view.children.len(), 0);
}

#[test]
fn the_resize_flag_can_be_written_through_the_widget() {
    let mut view = three_buttons();
    view.assign_state(State::new());
    *view.get_widget_by_id("b").unwrap().should_resize() = true;
    match view.widget_by_id("b") {
        Some(Widget::Button(button)) => assert!(button.should_resize),
        _ => panic!("no button of that name"),
    }
    assert!(view.propagate_message(&Message::Quiet));
    assert!(!*view.get_widget_by_id("b").unwrap().should_resize());
}

#[test]
fn init_fills_in_the_alignment_of_the_view_alone() {
    let theme = theme_with((1, 1), (1, 1), Alignment::Right);
    let nested: View = Stack::new(Orientation::Vertical, Vec::new());
    let mut view: View = Stack::new(Orientation::Vertical, vec![ViewElement::View(nested)]);
    view.init(&theme);
    assert_eq!(view.alignment, Some(Alignment::Right));
    match &view.children[0] {
        ViewElement::View(nested) => assert_eq!(nested.alignment, None),
        _ => panic!("the nested view is gone"),
    }
    let mut set = three_buttons().alignment(Alignment::Center);
    set.init(&theme);
    assert_eq!(set.alignment, Some(Alignment::Center));
}

#[test]
fn an_empty_nested_view_takes_no_room_when_nothing_is_between_widgets() {
    let theme = theme_with((10, 20), (0, 0), Alignment::Left);
    let nested: View = Stack::new(Orientation::Vertical, Vec::new());
    let mut view: View = Stack::new(
        Orientation::Vertical,
        vec![button("a", 10, 10), ViewElement::View(nested), button("b", 10, 10)],
    );
    view.layout(&theme, (100, 100), true);
    assert_eq!(bounds_of(&view, "a").top_left(), (20, 10));
    assert_eq!(bounds_of(&view, "b").top_left(), (20, 20));
    assert_eq!(view.render_size(), (50, 40));
}

#[test]
fn a_centered_horizontal_view_puts_its_widgets_at_the_cursor() {
    let theme = theme_with((10, 20), (5, 7), Alignment::Center);
    let mut view: View = Stack::new(
        Orientation::Horizontal,
        vec![button("a", 100, 30), button("b", 60, 50)],
    );
    view.layout(&theme, (800, 600), true);
    assert_eq!(view.render_size(), (0 + 107 + 67 + 20 - 7, 10 + 50 + 10));
    assert_eq!(bounds_of(&view, "a").top_left(), (0, 10 + 300 - 35));
    assert_eq!(bounds_of(&view, "b").top_left(), (107, 10 + 300 - 35));
}

#[test]
fn a_wide_widget_in_a_narrow_window_is_centered_to_the_left_of_it() {
    let theme = theme_with((0, 0), (0, 0), Alignment::Center);
    let mut view: View = Stack::new(Orientation::Vertical, vec![button("wide", 300, 10)]);
    view.layout(&theme, (100, 100), true);
    assert_eq!(bounds_of(&view, "wide").top_left(), (50 - 150, 0 + 50 - 5));
}
