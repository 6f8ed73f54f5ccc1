use surreal::bounding_rect::{center_offset, BoundingRect};
use surreal::event::{ApplicationEvent, ButtonState, MouseButton};
use surreal::message::{EmptyMessage, MessageQueue};
use surreal::rectangle::Rectangle;
use surreal::state::{State, StateError, Value, ValueKind};
use surreal::style::{default_theme, Color, Padding};
use surreal::{Alignment, Orientation};

#[derive(Debug, PartialEq, Clone, Copy)]
enum Message {
    Update(u32),
    Empty,
}

impl EmptyMessage for Message {
    fn is_message_spec(&self) -> bool {
        !matches!(self, Message::Empty)
    }

    fn is_message(&self) -> bool {
        !matches!(self, Message::Empty)
    }
}

#[test]
fn new_rect_is_zeroed() {
    let rect = BoundingRect::new();
    assert_eq!(rect, BoundingRect { x: 0, y: 0, width: 0, height: 0 });
    assert_eq!(rect.top_left(), (0, 0));
    assert_eq!(rect.dimensions(), (0, 0));
    let _ = Rectangle::new();
}

#[test]
fn containment_includes_all_four_edges() {
    let rect = BoundingRect { x: 10, y: 20, width: 30, height: 40 };
    assert!(rect.contains(10, 20));
    assert!(rect.contains(40, 60));
    assert!(rect.contains(40, 20));
    assert!(rect.contains(10, 60));
    assert!(rect.contains(25, 35));
    assert!(!rect.contains(9, 20));
    assert!(!rect.contains(10, 19));
    assert!(!rect.contains(41, 60));
    assert!(!rect.contains(40, 61));
}

#[test]
fn containment_does_not_wrap_at_the_end_of_the_coordinates() {
    let rect = BoundingRect { x: i32::MAX - 1, y: -5, width: 10, height: 10 };
    assert!(rect.contains(i32::MAX, 0));
    assert!(!rect.contains(i32::MIN, 0));
}

#[test]
fn center_rounds_down() {
    let rect = BoundingRect { x: 10, y: -20, width: 31, height: 41 };
    assert_eq!(rect.center(), (25, 0));
    let other = BoundingRect { x: -7, y: 3, width: 0, height: 1 };
    assert_eq!(other.center(), (-7, 3));
}

#[test]
fn center_offset_is_the_difference_of_the_halves() {
    assert_eq!(center_offset(150, 40), 55);
    assert_eq!(center_offset(75, 21), 27);
    assert_eq!(center_offset(10, 100), -45);
}

#[test]
fn idle_is_the_only_event_that_is_none() {
    assert!(ApplicationEvent::Idle.is_none());
    let motion = ApplicationEvent::MouseMotion { position: (1, 2), relative_change: (0, 0) };
    assert!(!motion.is_none());
    let press = ApplicationEvent::MouseButton {
        state: ButtonState::Pressed,
        button: MouseButton::Other(4),
        position: (0, 0),
    };
    assert!(!press.is_none());
}

#[test]
fn alignment_and_orientation_tell_what_they_are() {
    assert!(Alignment::Left.is_left_aligned());
    assert!(!Alignment::Left.is_centered());
    assert!(Alignment::Right.is_right_aligned());
    assert!(!Alignment::Right.is_left_aligned());
    assert!(Alignment::Center.is_centered());
    assert!(!Alignment::Center.is_right_aligned());
    assert!(Orientation::Vertical.is_vertical());
    assert!(!Orientation::Vertical.is_horizontal());
    assert!(Orientation::Horizontal.is_horizontal());
    assert!(!Orientation::Horizontal.is_vertical());
}

#[test]
fn empty_messages_are_not_queued() {
    let mut queue = MessageQueue::new();
    queue.push(Message::Empty);
    queue.push(Message::Empty);
    queue.push(Message::Empty);
    queue.push(Message::Update(7));
    assert_eq!(queue.len(), 1);
    let drained = queue.drain();
    assert_eq!(drained, vec![Message::Update(7)]);
    assert_eq!(queue.len(), 0);
}

#[test]
fn drain_hands_out_in_the_order_of_the_pushes() {
    let mut queue = MessageQueue::new();
    queue.push(Message::Update(1));
    queue.push(Message::Empty);
    queue.push(Message::Update(2));
    queue.push(Message::Update(3));
    assert_eq!(queue.drain(), vec![Message::Update(1), Message::Update(2), Message::Update(3)]);
    assert_eq!(queue.drain(), Vec::<Message>::new());
}

#[test]
fn unit_is_always_the_empty_message() {
    let mut queue: MessageQueue<()> = MessageQueue::new();
    queue.push(());
    assert!(!().is_message());
    assert_eq!(queue.len(), 0);
}

#[test]
fn state_keeps_values_by_name() {
    let mut state = State::new();
    assert!(!state.contains("counter"));
    assert_eq!(state.add_var("counter", Value::Int(0)), Ok(()));
    assert_eq!(state.add_var("amount", Value::Unsigned(1)), Ok(()));
    assert_eq!(state.add_var("name", Value::Text(String::from("x"))), Ok(()));
    assert!(state.contains("counter"));
    assert!(!state.contains("count"));
    assert!(!state.contains("counter "));
    assert_eq!(state.peek("counter", ValueKind::Int), Ok(&Value::Int(0)));
    assert_eq!(state.peek("amount", ValueKind::Unsigned), Ok(&Value::Unsigned(1)));
    assert_eq!(state.peek("name", ValueKind::Text), Ok(&Value::Text(String::from("x"))));
}

#[test]
fn state_refuses_a_name_twice() {
    let mut state = State::new();
    assert_eq!(state.add_var("flag", Value::Bool(true)), Ok(()));
    assert_eq!(state.add_var("flag", Value::Bool(false)), Err(StateError::DuplicateKey));
    assert_eq!(state.peek("flag", ValueKind::Bool), Ok(&Value::Bool(true)));
}

#[test]
fn state_checks_the_type_asked_for() {
    let mut state = State::new();
    assert_eq!(state.add_var("counter", Value::Int(3)), Ok(()));
    assert_eq!(state.peek("counter", ValueKind::Unsigned), Err(StateError::WrongType));
    assert_eq!(state.peek("missing", ValueKind::Int), Err(StateError::MissingKey));
    assert_eq!(state.set("counter", Value::Bool(true)), Err(StateError::WrongType));
    assert_eq!(state.set("missing", Value::Int(1)), Err(StateError::MissingKey));
    assert_eq!(state.peek("counter", ValueKind::Int), Ok(&Value::Int(3)));
    assert_eq!(state.set("counter", Value::Int(-4)), Ok(()));
    assert_eq!(state.peek("counter", ValueKind::Int), Ok(&Value::Int(-4)));
}

#[test]
fn value_knows_its_kind() {
    assert_eq!(Value::Bool(false).kind(), ValueKind::Bool);
    assert_eq!(Value::Int(-1).kind(), ValueKind::Int);
    assert_eq!(Value::Unsigned(1).kind(), ValueKind::Unsigned);
    assert_eq!(Value::Text(String::new()).kind(), ValueKind::Text);
}

#[test]
fn default_theme_has_the_documented_values() {
    let theme = default_theme();
    assert_eq!(theme.view_padding, Padding { vertical: 10, horizontal: 20 });
    assert_eq!(theme.widget_padding, Padding { vertical: 10, horizontal: 20 });
    assert_eq!(theme.default_alignment, Alignment::Center);
    assert_eq!(theme.colors.primary, Color::almost_white());
    assert_eq!(theme.colors.secondary, Color::dark_gray());
    assert_eq!(theme.colors.background, Color::aubergine());
    assert_eq!(theme.colors.text, Color::almost_white());
    assert_eq!(theme.text.scale, 40);
    assert_eq!(theme.widget_styles.buttons.roundness, 50);
    assert_eq!(theme.widget_styles.buttons.circle_button_radius, 50);
}

#[test]
fn colors_are_in_thousandths() {
    assert_eq!(Color::new(400, 600, 800, 1000).as_array(), [400, 600, 800, 1000]);
    assert_eq!(Color::white(), Color { r: 1000, g: 1000, b: 1000, a: 1000 });
    assert_eq!(Color::black(), Color { r: 0, g: 0, b: 0, a: 1000 });
    assert_eq!(Color::clear(), Color { r: 0, g: 0, b: 0, a: 0 });
    assert_eq!(Color::light_gray(), Color { r: 300, g: 300, b: 300, a: 1000 });
    assert_eq!(Color::aubergine(), Color { r: 30, g: 0, b: 20, a: 1000 });
}
