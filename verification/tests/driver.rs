use surreal::driver::{Driver, DriverView, TouchPhase, WindowAction, WindowEvent};
use surreal::event::{ApplicationEvent, ButtonState, MouseButton};
use surreal::handler::Fraction;
use surreal::message::EmptyMessage;
use surreal::render::{DrawCommand, Metric};
use surreal::state::{State, Value, ValueKind};
use surreal::style::{default_theme, Padding};
use surreal::view::{call_hook, Root, Stack};
use surreal::widget::{Button, Text, Widget};
use surreal::{Alignment, Orientation, ViewElement};

#[derive(Debug, PartialEq, Clone, Copy)]
enum Message {
    Count,
    Append,
    Delete,
    Quiet,
}

impl EmptyMessage for Message {
    fn is_message_spec(&self) -> bool {
        !matches!(self, Message::Quiet)
    }

    fn is_message(&self) -> bool {
        !matches!(self, Message::Quiet)
    }
}

type Click = Box<dyn Fn(State) -> (State, Message)>;
type Scroll = Box<dyn Fn(Fraction, State) -> (State, Message)>;
type Handler = Box<dyn Fn(&Message, State) -> (State, Option<String>)>;
type View = Stack<Click, Scroll, Handler>;
type Hook = Box<dyn Fn(View, &Message) -> View>;
type Tree = Root<Click, Scroll, Handler, Hook>;

fn measure(metric: &Metric) -> (u32, u32) {
    match metric {
        Metric::Text { text, scale, .. } => (text.chars().count() as u32 * 10, *scale),
        Metric::Image { .. } => (10, 10),
    }
}

fn sending(id: &'static str, message: Message) -> ViewElement<Click, Scroll, Handler> {
    let on_click: Click = Box::new(move |mut state: State| {
        let n = match state.peek("counter", ValueKind::Int) {
            Ok(Value::Int(n)) => *n,
            _ => 0,
        };
        let _ = state.set("counter", Value::Int(n + 1));
        (state, message)
    });
    ViewElement::Widget(Widget::Button(Button::new(id).on_click(on_click)))
}

fn tree() -> Tree {
    let show: Handler = Box::new(|message: &Message, state: State| match message {
        Message::Count => {
            let text = match state.peek("counter", ValueKind::Int) {
                Ok(Value::Int(n)) => format!("Counter: {}", n),
                _ => String::from("?"),
            };
            (state, Some(text))
        },
        _ => (state, None),
    });
    let mut view: View = Stack::new(
        Orientation::Vertical,
        vec![
            sending("count", Message::Count),
            sending("append", Message::Append),
            sending("delete", Message::Delete),
            sending("quiet", Message::Quiet),
            ViewElement::Widget(Widget::Text(
                Text::new("counter_text").text("Counter: 0").message_handler(show),
            )),
        ],
    )
    .alignment(Alignment::Left);
    let mut state = State::new();
    assert_eq!(state.add_var("counter", Value::Int(0)), Ok(()));
    view.assign_state(state);
    let mut root: Tree = Root::new(view);
    let hook: Hook = Box::new(|mut view: View, message: &Message| {
        match message {
            Message::Append => view.append(ViewElement::Widget(Widget::Button(Button::new("_appended")))),
            Message::Delete => {
                let _ = view.delete("_appended");
            },
            _ => {},
        }
        view
    });
    root.register_hook(hook);
    root
}

fn theme() -> surreal::style::Theme {
    let mut theme = default_theme();
    theme.view_padding = Padding { vertical: 0, horizontal: 0 };
    theme.widget_padding = Padding { vertical: 0, horizontal: 0 };
    theme
}

fn started() -> (Driver<Message>, Tree) {
    let mut root = tree();
    let driver: Driver<Message> = Driver::new(800, 600);
    let size = driver.start(&mut root.view, &measure, &theme());
    assert_eq!(size, (150, 4 * 75 + 40));
    (driver, root)
}

fn click(driver: &mut Driver<Message>, root: &mut Tree, x: i32, y: i32) -> bool {
    let down = ApplicationEvent::MouseButton {
        state: ButtonState::Pressed,
        button: MouseButton::Left,
        position: (x, y),
    };
    let up = ApplicationEvent::MouseButton {
        state: ButtonState::Released,
        button: MouseButton::Left,
        position: (x, y),
    };
    let _ = driver.dispatch(root, &down);
    driver.dispatch(root, &up)
}

fn counter_text(root: &Tree) -> String {
    match root.view.widget_by_id("counter_text") {
        Some(Widget::Text(text)) => text.text.clone(),
        _ => panic!("the text is gone"),
    }
}

#[test]
fn a_new_driver_draws_the_first_frame() {
    let driver: Driver<Message> = Driver::new(800, 600);
    assert!(driver.should_render);
    assert!(!driver.should_resize);
    assert!(!driver.is_minimized);
    assert_eq!(driver.mouse_position, (0, 0));
    assert_eq!(driver.surface_size, (800, 600));
    assert_eq!(driver.message_queue.len(), 0);
}

#[test]
fn window_events_become_actions() {
    let mut driver: Driver<Message> = Driver::new(800, 600);
    assert_eq!(driver.handle_window_event(&WindowEvent::CloseRequested), WindowAction::Exit);
    assert_eq!(driver.handle_window_event(&WindowEvent::Other), WindowAction::Ignore);
    assert_eq!(driver.handle_window_event(&WindowEvent::RedrawRequested), WindowAction::Draw);
    assert_eq!(
        driver.handle_window_event(&WindowEvent::CursorMoved { position: (30, 40) }),
        WindowAction::Dispatch(ApplicationEvent::MouseMotion {
            position: (30, 40),
            relative_change: (30, 40),
        })
    );
    assert_eq!(driver.mouse_position, (30, 40));
    assert_eq!(
        driver.handle_window_event(&WindowEvent::CursorMoved { position: (25, 50) }),
        WindowAction::Dispatch(ApplicationEvent::MouseMotion {
            position: (25, 50),
            relative_change: (-5, 10),
        })
    );
    assert_eq!(
        driver.handle_window_event(&WindowEvent::MouseInput {
            button: MouseButton::Middle,
            state: ButtonState::Pressed,
        }),
        WindowAction::Dispatch(ApplicationEvent::MouseButton {
            state: ButtonState::Pressed,
            button: MouseButton::Middle,
            position: (25, 50),
        })
    );
}

#[test]
fn touches_become_mouse_events() {
    let mut driver: Driver<Message> = Driver::new(800, 600);
    assert_eq!(
        driver.handle_window_event(&WindowEvent::Touch { phase: TouchPhase::Started, position: (5, 6) }),
        WindowAction::Dispatch(ApplicationEvent::MouseButton {
            state: ButtonState::Pressed,
            button: MouseButton::Left,
            position: (5, 6),
        })
    );
    assert_eq!(driver.mouse_position, (0, 0));
    assert_eq!(
        driver.handle_window_event(&WindowEvent::Touch { phase: TouchPhase::Moved, position: (7, 9) }),
        WindowAction::Dispatch(ApplicationEvent::MouseMotion {
            position: (7, 9),
            relative_change: (7, 9),
        })
    );
    assert_eq!(driver.mouse_position, (7, 9));
    assert_eq!(
        driver.handle_window_event(&WindowEvent::Touch { phase: TouchPhase::Ended, position: (8, 9) }),
        WindowAction::Dispatch(ApplicationEvent::MouseButton {
            state: ButtonState::Released,
            button: MouseButton::Left,
            position: (8, 9),
        })
    );
}

#[test]
fn a_resize_asks_for_a_new_layout_and_a_width_of_zero_minimizes() {
    let mut driver: Driver<Message> = Driver::new(800, 600);
    assert_eq!(
        driver.handle_window_event(&WindowEvent::Resized { width: 0, height: 600 }),
        WindowAction::Ignore
    );
    assert!(driver.is_minimized);
    assert!(!driver.should_resize);
    assert_eq!(driver.surface_size, (800, 600));
    assert_eq!(
        driver.handle_window_event(&WindowEvent::Resized { width: 640, height: 480 }),
        WindowAction::ResizeSurface { width: 640, height: 480 }
    );
    assert!(!driver.is_minimized);
    assert!(driver.should_resize);
    assert_eq!(driver.surface_size, (640, 480));
}

#[test]
fn the_first_redraw_draws_and_the_next_has_nothing_to_draw() {
    let (mut driver, mut root) = started();
    let commands = driver.redraw(&mut root.view, &measure, &theme());
    match commands {
        Some(commands) => {
            assert_eq!(commands.len(), 5);
            assert!(matches!(commands[0], DrawCommand::RoundedRect { top_left: (0, 0), .. }));
            assert!(matches!(commands[3], DrawCommand::RoundedRect { top_left: (0, 225), .. }));
            assert!(matches!(commands[4], DrawCommand::Text(_)));
        },
        None => panic!("the first frame was not drawn"),
    }
    assert!(!driver.should_render);
    assert!(driver.redraw(&mut root.view, &measure, &theme()).is_none());
}

#[test]
fn a_minimized_window_is_not_drawn() {
    let (mut driver, mut root) = started();
    let _ = driver.handle_window_event(&WindowEvent::Resized { width: 0, height: 0 });
    assert!(driver.redraw(&mut root.view, &measure, &theme()).is_none());
    assert!(driver.should_render);
    let _ = driver.handle_window_event(&WindowEvent::Resized { width: 300, height: 300 });
    assert!(driver.redraw(&mut root.view, &measure, &theme()).is_some());
    assert!(!driver.should_render);
    assert!(!driver.should_resize);
}

#[test]
fn a_click_sends_its_message_through_the_tree() {
    let (mut driver, mut root) = started();
    let _ = driver.redraw(&mut root.view, &measure, &theme());
    assert!(click(&mut driver, &mut root, 10, 10));
    assert_eq!(counter_text(&root), "Counter: 1");
    assert!(driver.should_resize);
    assert!(!driver.should_render);
    assert_eq!(driver.message_queue.len(), 0);
    let commands = driver.redraw(&mut root.view, &measure, &theme()).unwrap();
    assert_eq!(commands.len(), 5);
    assert!(!driver.should_resize);
    assert!(click(&mut driver, &mut root, 10, 10));
    assert_eq!(counter_text(&root), "Counter: 2");
}

#[test]
fn an_empty_message_changes_nothing_and_asks_for_nothing() {
    let (mut driver, mut root) = started();
    let _ = driver.redraw(&mut root.view, &measure, &theme());
    assert!(!click(&mut driver, &mut root, 10, 3 * 75 + 10));
    assert_eq!(counter_text(&root), "Counter: 0");
    assert!(!driver.should_resize);
    assert_eq!(root.view.state().peek("counter", ValueKind::Int), Ok(&Value::Int(1)));
}

#[test]
fn the_idle_event_does_nothing() {
    let (mut driver, mut root) = started();
    assert!(!driver.dispatch(&mut root, &ApplicationEvent::Idle));
    assert!(driver.should_render);
    assert!(!driver.should_resize);
}

#[test]
fn the_hook_sees_every_message_before_the_tree() {
    let (mut driver, mut root) = started();
    let _ = driver.redraw(&mut root.view, &measure, &theme());
    assert!(!root.view.has_widget("_appended"));
    let _ = click(&mut driver, &mut root, 10, 75 + 10);
    assert!(root.view.has_widget("_appended"));
    assert_eq!(root.view.children.len(), 6);
    let _ = click(&mut driver, &mut root, 10, 2 * 75 + 10);
    assert!(!root.view.has_widget("_appended"));
    let _ = click(&mut driver, &mut root, 10, 2 * 75 + 10);
    assert_eq!(root.view.children.len(), 5);
}

#[test]
fn a_root_without_a_hook_stays_as_it_is() {
    let mut root: Tree = Root::new(Stack::new(Orientation::Vertical, Vec::new()));
    assert!(root.get_hook().is_none());
    call_hook(&mut root, &Message::Append);
    assert_eq!(root.view.children.len(), 0);
    let hook: Hook = Box::new(|mut view: View, _message: &Message| {
        view.append(ViewElement::Widget(Widget::Button(Button::new("hooked"))));
        view
    });
    root.register_hook(hook);
    assert!(root.get_hook().is_some());
    call_hook(&mut root, &Message::Quiet);
    call_hook(&mut root, &Message::Count);
    assert_eq!(root.view.children.len(), 2);
}
