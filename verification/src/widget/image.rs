//! Images as widgets.

use vstd::prelude::*;
use crate::bounding_rect::BoundingRect;
use crate::event::ApplicationEvent;
use crate::render::{measures_all, DrawCommand, Metric};
use crate::state::same_text;
use crate::style::Theme;
use crate::EventResponse;

verus! {

/// `natural * constraint / natural_width`, rounded to the nearest whole
/// number, halves upwards, and no more than the largest `u32`. Where
/// `natural_width` is 0 the quotient is taken as without bound, and as 0 where
/// there is nothing to scale.
pub open spec fn scaled_dimension(natural: u32, constraint: u32, natural_width: u32) -> u32 {
    if natural_width == 0 {
        if constraint > 0 && natural > 0 {
            u32::MAX
        } else {
            0
        }
    } else {
        let rounded = (2 * (natural * constraint) + natural_width) / (2 * natural_width);
        if rounded > u32::MAX {
            u32::MAX
        } else {
            rounded as u32
        }
    }
}

/// Scales one dimension of an image: see [`scaled_dimension`].
pub fn scale_dimension(natural: u32, constraint: u32, natural_width: u32) -> (scaled: u32)
    ensures
        scaled == scaled_dimension(natural, constraint, natural_width),
{
    if natural_width == 0 {
        if constraint > 0 && natural > 0 {
            u32::MAX
        } else {
            0
        }
    } else {
        assert(natural * constraint <= 0xffff_ffff * 0xffff_ffff) by (nonlinear_arith)
            requires
                natural <= 0xffff_ffff,
                constraint <= 0xffff_ffff,
        ;
        let product: u128 = natural as u128 * constraint as u128;
        let rounded: u128 = (2 * product + natural_width as u128) / (2 * natural_width as u128);
        if rounded > u32::MAX as u128 {
            u32::MAX
        } else {
            rounded as u32
        }
    }
}

/// A widget that shows an image resource.
pub struct Image {
    pub id: &'static str,
    /// The alias of the image resource.
    pub resource: String,
    pub bounds: BoundingRect,
    pub width_constraint: Option<u32>,
    pub height_constraint: Option<u32>,
    pub should_resize: bool,
}

impl Image {
    /// The widget's size as `(width, height)`.
    pub open spec fn size(self) -> (u32, u32) {
        (self.bounds.width, self.bounds.height)
    }

    /// The widget with its top-left corner at `(x, y)`.
    pub open spec fn placed(self, x: i32, y: i32) -> Self {
        Image { bounds: self.bounds.at(x, y), ..self }
    }

    /// Whether the widget can move by `(dx, dy)`.
    pub open spec fn can_translate(self, dx: int, dy: int) -> bool {
        self.bounds.can_move(dx, dy)
    }

    /// The widget moved by `(dx, dy)`.
    pub open spec fn translated(self, dx: int, dy: int) -> Self {
        Image { bounds: self.bounds.moved(dx, dy), ..self }
    }

    /// The size at which an image of the dimensions `natural` is shown. The
    /// height constraint counts before the width constraint; either sets the
    /// image's width, and the height follows in proportion.
    pub open spec fn fitted(self, natural: (u32, u32)) -> (u32, u32) {
        match self.height_constraint {
            Some(constraint) => (
                scaled_dimension(natural.0, constraint, natural.0),
                scaled_dimension(natural.1, constraint, natural.0),
            ),
            None => match self.width_constraint {
                Some(constraint) => (
                    scaled_dimension(natural.0, constraint, natural.0),
                    scaled_dimension(natural.1, constraint, natural.0),
                ),
                None => natural,
            },
        }
    }

    /// What the renderer is asked to measure when the widget is initialized.
    pub open spec fn metric(self) -> Metric {
        Metric::Image { alias: self.resource }
    }

    /// The widget after it was initialized, the renderer having measured the
    /// image resource as `natural`.
    pub open spec fn initialized(self, natural: (u32, u32)) -> Self {
        Image {
            bounds: BoundingRect {
                width: self.fitted(natural).0,
                height: self.fitted(natural).1,
                ..self.bounds
            },
            ..self
        }
    }

    /// Whether `after` is what initializing the widget can give, with
    /// `measure` as the renderer.
    pub open spec fn initializes_to<M: Fn(&Metric) -> (u32, u32)>(
        self,
        measure: &M,
        after: Self,
    ) -> bool {
        exists|natural: (u32, u32)|
            call_ensures(*measure, (&self.metric(),), natural) && after == #[trigger] self.initialized(
                natural,
            )
    }

    /// What the widget draws.
    pub open spec fn drawn(self) -> Seq<DrawCommand> {
        seq![
            DrawCommand::Image {
                alias: self.resource,
                top_left: (self.bounds.x, self.bounds.y),
                width: self.bounds.width,
                height: self.bounds.height,
            },
        ]
    }

    pub fn new(id: &'static str) -> (image: Self)
        ensures
            image.resource@ == Seq::<char>::empty(),
            image == (Image {
                id,
                resource: image.resource,
                bounds: BoundingRect { x: 0, y: 0, width: 0, height: 0 },
                width_constraint: None,
                height_constraint: None,
                should_resize: false,
            }),
    {
        Image {
            id,
            resource: String::new(),
            bounds: BoundingRect::new(),
            width_constraint: None,
            height_constraint: None,
            should_resize: false,
        }
    }

    /// Names the image resource to show.
    pub fn resource(self, alias: &str) -> (image: Self)
        ensures
            image.resource@ == alias@,
            image == (Image { resource: image.resource, ..self }),
    {
        let mut image = self;
        image.resource = alias.to_owned();
        image
    }

    pub fn fit_to_width(self, width: u32) -> (image: Self)
        ensures
            image == (Image { width_constraint: Some(width), ..self }),
    {
        let mut image = self;
        image.width_constraint = Some(width);
        image
    }

    pub fn fit_to_height(self, height: u32) -> (image: Self)
        ensures
            image == (Image { height_constraint: Some(height), ..self }),
    {
        let mut image = self;
        image.height_constraint = Some(height);
        image
    }

    /// Constrains the width, and asks for the view to be laid out again.
    pub fn set_scaled_width(&mut self, width: u32)
        ensures
            *final(self) == (Image {
                width_constraint: Some(width),
                should_resize: true,
                ..*old(self)
            }),
    {
        self.width_constraint = Some(width);
        self.should_resize = true;
    }

    /// Constrains the height, and asks for the view to be laid out again.
    pub fn set_scaled_height(&mut self, height: u32)
        ensures
            *final(self) == (Image {
                height_constraint: Some(height),
                should_resize: true,
                ..*old(self)
            }),
    {
        self.height_constraint = Some(height);
        self.should_resize = true;
    }

    pub fn id(&self) -> (id: &'static str)
        ensures
            id == self.id,
    {
        self.id
    }

    /// Whether the image names its resource, without which it cannot be
    /// initialized.
    pub fn has_resource(&self) -> (named: bool)
        ensures
            named == (self.resource@.len() > 0),
    {
        let empty = same_text(self.resource.as_str(), "");
        proof {
            reveal_strlit("");
            if self.resource@.len() == 0 {
                assert(self.resource@ =~= ""@);
            }
        }
        !empty
    }

    /// The widget's request to be laid out again, to be read and written.
    pub fn should_resize(&mut self) -> (flag: &mut bool)
        ensures
            *flag == old(self).should_resize,
            *final(self) == (Image { should_resize: *final(flag), ..*old(self) }),
    {
        &mut self.should_resize
    }

    /// Whether the widget asked to be laid out again; the question clears the
    /// request.
    pub fn check_if_should_resize_then_reset_to_false(&mut self) -> (should: bool)
        ensures
            should == old(self).should_resize,
            *final(self) == (Image { should_resize: false, ..*old(self) }),
    {
        let should = self.should_resize;
        self.should_resize = false;
        should
    }

    /// Whether the widget is to be initialized again before every layout.
    pub fn should_reinit_before_layout(&self) -> (again: bool)
        ensures
            again,
    {
        true
    }

    /// Has the image resource measured and takes its dimensions, scaled to
    /// the constraints, as the widget's size. An image without a resource
    /// cannot be initialized.
    pub fn init<M: Fn(&Metric) -> (u32, u32)>(&mut self, measure: &M, _theme: &Theme)
        requires
            measures_all(measure),
            old(self).resource@.len() > 0,
        ensures
            old(self).initializes_to(measure, *final(self)),
    {
        let metric = Metric::Image { alias: self.resource.clone() };
        let natural = measure(&metric);
        let mut constraint: Option<u32> = self.width_constraint;
        match self.height_constraint {
            Some(height) => {
                constraint = Some(height);
            },
            None => {},
        }
        match constraint {
            Some(constraint) => {
                self.bounds.width = scale_dimension(natural.0, constraint, natural.0);
                self.bounds.height = scale_dimension(natural.1, constraint, natural.0);
            },
            None => {
                self.bounds.width = natural.0;
                self.bounds.height = natural.1;
            },
        }
        assert(*self == old(self).initialized(natural));
    }

    pub fn place(&mut self, x: i32, y: i32)
        ensures
            *final(self) == old(self).placed(x, y),
    {
        self.bounds.x = x;
        self.bounds.y = y;
    }

    /// Whether the widget can move by `(dx, dy)`.
    pub fn check_translate(&self, dx: i32, dy: i32) -> (ok: bool)
        ensures
            ok == self.can_translate(dx as int, dy as int),
    {
        self.bounds.check_move(dx, dy)
    }

    pub fn translate(&mut self, dx: i32, dy: i32)
        requires
            old(self).can_translate(dx as int, dy as int),
        ensures
            *final(self) == old(self).translated(dx as int, dy as int),
    {
        self.bounds.x = self.bounds.x + dx;
        self.bounds.y = self.bounds.y + dy;
    }

    pub fn render_size(&self, _theme: &Theme) -> (size: (u32, u32))
        ensures
            size == self.size(),
    {
        self.bounds.dimensions()
    }

    /// The command that draws the widget.
    pub fn render(&self, _theme: &Theme) -> (commands: Vec<DrawCommand>)
        ensures
            commands@ == self.drawn(),
    {
        let mut commands: Vec<DrawCommand> = Vec::new();
        commands.push(
            DrawCommand::Image {
                alias: self.resource.clone(),
                top_left: self.bounds.top_left(),
                width: self.bounds.width,
                height: self.bounds.height,
            },
        );
        assert(commands@ =~= self.drawn());
        commands
    }

    /// An image takes no part in input: every event passes.
    pub fn handle_event(&mut self, _event: &ApplicationEvent) -> (response: EventResponse)
        ensures
            response == EventResponse::Pass,
            *final(self) == *old(self),
    {
        EventResponse::Pass
    }
}

} // verus!
