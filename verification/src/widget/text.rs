//! Text as a widget.

use vstd::prelude::*;
use crate::bounding_rect::BoundingRect;
use crate::render::{measures_all, DrawCommand, Metric, Section};
use crate::state::State;
use crate::style::{Color, Theme};
use crate::EventResponse;

verus! {

/// `String`'s `From<char>`: a string that holds the one character.
#[verifier::external_body]
fn string_of(character: char) -> (text: String)
    ensures
        text@ == seq![character],
{
    String::from(character)
}

/// A single character with the style it is to be set in: what a circular
/// button takes as its face.
pub struct TextCharacter {
    pub character: char,
    pub font: String,
    pub scale: Option<u32>,
    pub color: Option<Color>,
}

impl TextCharacter {
    pub fn font(self, font: &str) -> (styled: Self)
        ensures
            styled.font@ == font@,
            styled == (TextCharacter { font: styled.font, ..self }),
    {
        let mut styled = self;
        styled.font = font.to_owned();
        styled
    }

    pub fn scale(self, scale: u32) -> (styled: Self)
        ensures
            styled == (TextCharacter { scale: Some(scale), ..self }),
    {
        let mut styled = self;
        styled.scale = Some(scale);
        styled
    }

    pub fn color(self, color: Color) -> (styled: Self)
        ensures
            styled == (TextCharacter { color: Some(color), ..self }),
    {
        let mut styled = self;
        styled.color = Some(color);
        styled
    }

    /// The text widget that shows the character. All such widgets have one
    /// name, which says where they come from.
    pub fn into_text<H>(self) -> (text: Text<H>)
        ensures
            text.id == "__from_TextCharacter",
            text.text@ == seq![self.character],
            text == (Text::<H> {
                id: text.id,
                text: text.text,
                font: self.font,
                scale: self.scale,
                color: self.color,
                bounds: BoundingRect { x: 0, y: 0, width: 0, height: 0 },
                message_handler: None,
                section: None,
                should_resize: false,
            }),
    {
        Text {
            id: "__from_TextCharacter",
            text: string_of(self.character),
            font: self.font,
            scale: self.scale,
            color: self.color,
            bounds: BoundingRect::new(),
            message_handler: None,
            section: None,
            should_resize: false,
        }
    }
}

/// A widget that shows a piece of text.
pub struct Text<H> {
    pub id: &'static str,
    pub text: String,
    /// The alias of the font; empty for the default font.
    pub font: String,
    /// The height of the type in pixels; taken from the theme when the widget
    /// is initialized, where none is set.
    pub scale: Option<u32>,
    /// The colour of the type; the theme's where none is set.
    pub color: Option<Color>,
    pub bounds: BoundingRect,
    /// Called with every message that reaches the widget. It may change the
    /// state, and answers with the new text where the text is to change.
    pub message_handler: Option<H>,
    /// The text as it is drawn, once the widget is initialized.
    pub section: Option<Section>,
    pub should_resize: bool,
}

impl<H> Text<H> {
    /// The widget's size as `(width, height)`.
    pub open spec fn size(self) -> (u32, u32) {
        (self.bounds.width, self.bounds.height)
    }

    /// The section of `self` moved to where `bounds` is.
    pub open spec fn section_at(self, bounds: BoundingRect) -> Option<Section> {
        match self.section {
            Some(section) => Some(Section { screen_position: (bounds.x, bounds.y), ..section }),
            None => None,
        }
    }

    /// The widget with its top-left corner at `(x, y)`.
    pub open spec fn placed(self, x: i32, y: i32) -> Self {
        Text { bounds: self.bounds.at(x, y), section: self.section_at(self.bounds.at(x, y)), ..self }
    }

    /// Whether the widget can move by `(dx, dy)`.
    pub open spec fn can_translate(self, dx: int, dy: int) -> bool {
        self.bounds.can_move(dx, dy)
    }

    /// The widget moved by `(dx, dy)`.
    pub open spec fn translated(self, dx: int, dy: int) -> Self {
        Text {
            bounds: self.bounds.moved(dx, dy),
            section: self.section_at(self.bounds.moved(dx, dy)),
            ..self
        }
    }

    /// The height of the type once the theme has filled it in.
    pub open spec fn scale_under(self, theme: Theme) -> u32 {
        match self.scale {
            Some(scale) => scale,
            None => theme.text.scale,
        }
    }

    /// The colour of the type under a theme.
    pub open spec fn color_under(self, theme: Theme) -> Color {
        match self.color {
            Some(color) => color,
            None => theme.colors.text,
        }
    }

    /// What the renderer is asked to measure when the widget is initialized.
    pub open spec fn metric(self, theme: Theme) -> Metric {
        Metric::Text { text: self.text, font: self.font, scale: self.scale_under(theme) }
    }

    /// The widget after it was initialized under `theme`, the renderer having
    /// measured its text as `size`.
    pub open spec fn initialized(self, theme: Theme, size: (u32, u32)) -> Self {
        Text {
            scale: Some(self.scale_under(theme)),
            bounds: BoundingRect { width: size.0, height: size.1, ..self.bounds },
            section: Some(
                Section {
                    text: self.text,
                    font: self.font,
                    scale: self.scale_under(theme),
                    color: self.color_under(theme),
                    screen_position: (0, 0),
                },
            ),
            ..self
        }
    }

    /// Whether `after` is what initializing the widget can give, with
    /// `measure` as the renderer.
    pub open spec fn initializes_to<M: Fn(&Metric) -> (u32, u32)>(
        self,
        theme: Theme,
        measure: &M,
        after: Self,
    ) -> bool {
        exists|size: (u32, u32)|
            call_ensures(*measure, (&self.metric(theme),), size) && after == #[trigger] self.initialized(
                theme,
                size,
            )
    }

    /// What the widget draws.
    pub open spec fn drawn(self) -> Seq<DrawCommand> {
        match self.section {
            Some(section) => seq![DrawCommand::Text(section)],
            None => Seq::empty(),
        }
    }

    /// The widget after its handler asked for `text` to be shown, or for no
    /// change.
    pub open spec fn retexted(self, text: Option<String>) -> Self {
        match text {
            Some(text) => Text { text, should_resize: true, ..self },
            None => self,
        }
    }

    pub fn new(id: &'static str) -> (text: Self)
        ensures
            text.text@ == Seq::<char>::empty(),
            text.font@ == Seq::<char>::empty(),
            text == (Text::<H> {
                id,
                text: text.text,
                font: text.font,
                scale: None,
                color: None,
                bounds: BoundingRect { x: 0, y: 0, width: 0, height: 0 },
                message_handler: None,
                section: None,
                should_resize: false,
            }),
    {
        Text {
            id,
            text: String::new(),
            font: String::new(),
            scale: None,
            color: None,
            bounds: BoundingRect::new(),
            message_handler: None,
            section: None,
            should_resize: false,
        }
    }

    /// A single character, to be styled and handed to a circular button.
    pub fn character(character: char) -> (face: TextCharacter)
        ensures
            face.font@ == Seq::<char>::empty(),
            face == (TextCharacter { character, font: face.font, scale: None, color: None }),
    {
        TextCharacter { character, font: String::new(), scale: None, color: None }
    }

    pub fn text(self, text: &str) -> (widget: Self)
        ensures
            widget.text@ == text@,
            widget == (Text { text: widget.text, ..self }),
    {
        let mut widget = self;
        widget.text = text.to_owned();
        widget
    }

    pub fn scale(self, scale: u32) -> (widget: Self)
        ensures
            widget == (Text { scale: Some(scale), ..self }),
    {
        let mut widget = self;
        widget.scale = Some(scale);
        widget
    }

    pub fn font(self, font: &str) -> (widget: Self)
        ensures
            widget.font@ == font@,
            widget == (Text { font: widget.font, ..self }),
    {
        let mut widget = self;
        widget.font = font.to_owned();
        widget
    }

    pub fn color(self, color: Color) -> (widget: Self)
        ensures
            widget == (Text { color: Some(color), ..self }),
    {
        let mut widget = self;
        widget.color = Some(color);
        widget
    }

    pub fn message_handler(self, handler: H) -> (widget: Self)
        ensures
            widget == (Text { message_handler: Some(handler), ..self }),
    {
        let mut widget = self;
        widget.message_handler = Some(handler);
        widget
    }

    /// Shows another text, and asks for the view to be laid out again.
    pub fn set_text(&mut self, text: &str)
        ensures
            final(self).text@ == text@,
            *final(self) == (Text { text: final(self).text, should_resize: true, ..*old(self) }),
    {
        self.text = text.to_owned();
        self.should_resize = true;
    }

    pub fn id(&self) -> (id: &'static str)
        ensures
            id == self.id,
    {
        self.id
    }

    /// The widget's request to be laid out again, to be read and written.
    pub fn should_resize(&mut self) -> (flag: &mut bool)
        ensures
            *flag == old(self).should_resize,
            *final(self) == (Text { should_resize: *final(flag), ..*old(self) }),
    {
        &mut self.should_resize
    }

    /// Whether the widget asked to be laid out again; the question clears the
    /// request.
    pub fn check_if_should_resize_then_reset_to_false(&mut self) -> (should: bool)
        ensures
            should == old(self).should_resize,
            *final(self) == (Text { should_resize: false, ..*old(self) }),
    {
        let should = self.should_resize;
        self.should_resize = false;
        should
    }

    /// Whether the widget is to be initialized again before every layout.
    pub fn should_reinit_before_layout(&self) -> (again: bool)
        ensures
            again,
    {
        true
    }

    /// Whether the widget can move by `(dx, dy)`.
    pub fn check_translate(&self, dx: i32, dy: i32) -> (ok: bool)
        ensures
            ok == self.can_translate(dx as int, dy as int),
    {
        self.bounds.check_move(dx, dy)
    }

    pub fn translate(&mut self, dx: i32, dy: i32)
        requires
            old(self).can_translate(dx as int, dy as int),
        ensures
            *final(self) == old(self).translated(dx as int, dy as int),
    {
        self.bounds.x = self.bounds.x + dx;
        self.bounds.y = self.bounds.y + dy;
        let position = (self.bounds.x, self.bounds.y);
        match &mut self.section {
            Some(section) => {
                section.screen_position = position;
            },
            None => {},
        }
    }

    pub fn place(&mut self, x: i32, y: i32)
        ensures
            *final(self) == old(self).placed(x, y),
    {
        self.bounds.x = x;
        self.bounds.y = y;
        match &mut self.section {
            Some(section) => {
                section.screen_position = (x, y);
            },
            None => {},
        }
    }

    /// Fills in from the theme what the application left open, has the text
    /// measured and takes the result as the widget's size.
    pub fn init<M: Fn(&Metric) -> (u32, u32)>(&mut self, measure: &M, theme: &Theme)
        requires
            measures_all(measure),
        ensures
            old(self).initializes_to(*theme, measure, *final(self)),
    {
        let color = match self.color {
            Some(color) => color,
            None => theme.colors.text,
        };
        let scale = match self.scale {
            Some(scale) => scale,
            None => theme.text.scale,
        };
        self.scale = Some(scale);
        let metric = Metric::Text { text: self.text.clone(), font: self.font.clone(), scale };
        let size = measure(&metric);
        self.bounds.width = size.0;
        self.bounds.height = size.1;
        self.section = Some(
            Section {
                text: self.text.clone(),
                font: self.font.clone(),
                scale,
                color,
                screen_position: (0, 0),
            },
        );
        assert(*self == old(self).initialized(*theme, size));
    }

    pub fn render_size(&self, _theme: &Theme) -> (size: (u32, u32))
        ensures
            size == self.size(),
    {
        self.bounds.dimensions()
    }

    /// The commands that draw the widget: its text, once it is initialized.
    pub fn render(&self, _theme: &Theme) -> (commands: Vec<DrawCommand>)
        ensures
            commands@ == self.drawn(),
    {
        let mut commands: Vec<DrawCommand> = Vec::new();
        match &self.section {
            Some(section) => {
                commands.push(DrawCommand::Text(section.clone()));
            },
            None => {},
        }
        assert(commands@ =~= self.drawn());
        commands
    }

    /// A text takes no part in input: every event passes.
    pub fn handle_event(&mut self, _event: &crate::event::ApplicationEvent) -> (response: EventResponse)
        ensures
            response == EventResponse::Pass,
            *final(self) == *old(self),
    {
        EventResponse::Pass
    }
}

impl<H> Text<H> {
    /// Whether the handler, if there is one, can be called with any message
    /// on any state.
    pub open spec fn handler_total<Msg>(self) -> bool where
        H: Fn(&Msg, State) -> (State, Option<String>),
     {
        self.message_handler matches Some(handler) ==> forall|message: &Msg, state: State|
            call_requires(handler, (message, state))
    }

    /// Whether `(after, state_after)` is what the widget and the state can be
    /// after `message` reached the widget at `state`.
    pub open spec fn handles<Msg>(
        self,
        message: &Msg,
        state: State,
        after: Self,
        state_after: State,
    ) -> bool where H: Fn(&Msg, State) -> (State, Option<String>) {
        match self.message_handler {
            Some(handler) => exists|text: Option<String>|
                call_ensures(handler, (message, state), (state_after, text)) && after
                    == #[trigger] self.retexted(text),
            None => after == self && state_after == state,
        }
    }

    /// Hands a message to the widget's handler, which may change the state
    /// and the text shown.
    pub fn handle_message<Msg>(&mut self, message: &Msg, state: &mut State) where
        H: Fn(&Msg, State) -> (State, Option<String>),

        requires
            old(self).handler_total::<Msg>(),
        ensures
            old(self).handles(message, *old(state), *final(self), *final(state)),
    {
        let mut answer: Option<String> = None;
        match &self.message_handler {
            Some(handler) => {
                let mut taken = State::new();
                core::mem::swap(state, &mut taken);
                let (next, text) = handler(message, taken);
                *state = next;
                answer = text;
            },
            None => {},
        }
        match answer {
            Some(text) => {
                self.text = text;
                self.should_resize = true;
                assert(*self == old(self).retexted(Some(text)));
            },
            None => {
                assert(*self == old(self).retexted(None));
            },
        }
    }
}

} // verus!
