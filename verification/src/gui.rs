//! The integer side of the user interface: colors, points, hit boxes, the
//! cursor state machine behind buttons, and the queue of render commands.

use vstd::prelude::*;
use crate::input::{Input, Mouse, MouseButton};

verus! {

/// A queue of commands for rendering. Can be anything from 3d models to audio to UI.
pub struct RenderQueue<TCommand> {
    render_commands: Vec<TCommand>,
}

impl<TCommand> View for RenderQueue<TCommand> {
    type V = Seq<TCommand>;

    closed spec fn view(&self) -> Seq<TCommand> {
        self.render_commands@
    }
}

impl<TCommand> RenderQueue<TCommand> {
    /// An empty queue with room for `capacity` commands.
    pub fn new(capacity: usize) -> (queue: Self)
        ensures
            queue@ == Seq::<TCommand>::empty(),
    {
        Self { render_commands: Vec::with_capacity(capacity) }
    }

    /// The queued commands, oldest first.
    pub fn commands(&self) -> (commands: &Vec<TCommand>)
        ensures
            commands@ == self@,
    {
        &self.render_commands
    }

    /// Takes every queued command out of the queue, oldest first.
    pub fn drain(&mut self) -> (commands: Vec<TCommand>)
        ensures
            commands@ == old(self)@,
            final(self)@ == Seq::<TCommand>::empty(),
    {
        let mut commands = Vec::with_capacity(self.render_commands.len());
        commands.append(&mut self.render_commands);
        commands
    }

    /// Appends a command.
    pub fn push(&mut self, command: TCommand)
        ensures
            final(self)@ == old(self)@.push(command),
    {
        self.render_commands.push(command);
    }

    /// Replaces the queued commands with `commands`, taken from the last to the first, so
    /// that they end up queued in reverse.
    pub fn refill_reversed(&mut self, commands: Vec<TCommand>)
        ensures
            final(self)@ == commands@.reverse(),
    {
        self.render_commands.clear();
        let mut commands = commands;
        let ghost original = commands@;
        while commands.len() > 0
            invariant
                original == commands@ + self.render_commands@.reverse(),
            decreases commands@.len(),
        {
            let ghost before = commands@;
            let command = commands.pop().unwrap();
            self.render_commands.push(command);
            proof {
                assert(self.render_commands@.reverse() == seq![command]
                    + self.render_commands@.drop_last().reverse());
                assert(before == commands@.push(command));
            }
        }
        assert(original =~= self.render_commands@.reverse());
        assert(self.render_commands@ =~= original.reverse());
    }

    /// Drops every queued command.
    pub fn clear(&mut self)
        ensures
            final(self)@ == Seq::<TCommand>::empty(),
    {
        self.render_commands.clear();
    }
}

/// An 8-bit RGBA color.
#[derive(Copy, Clone, Debug, PartialEq, Eq, Structural)]
pub struct Color {
    pub r: u8,
    pub g: u8,
    pub b: u8,
    pub a: u8,
}

impl Color {
    /// Opaque white: every channel at its maximum.
    pub fn white() -> (c: Self)
        ensures
            c == (Color { r: 255, g: 255, b: 255, a: 255 }),
    {
        Self { r: u8::MAX, g: u8::MAX, b: u8::MAX, a: u8::MAX }
    }
}

/// A request to load or drop an asset on the render side.
#[derive(Copy, Clone, Debug)]
pub enum AssetCommand {
    LoadGltf { file: &'static str },
    DropGltf { file: &'static str },
    LoadObj { file: &'static str, max_instances: u32 },
    DropObj { file: &'static str },
}

/// A point in pixels.
#[derive(Copy, Clone, Debug, PartialEq, Eq, Structural)]
pub struct Point {
    pub x: i32,
    pub y: i32,
}

impl Point {
    /// Component-wise sum. The sum must fit in `i32`.
    pub fn add(self, rhs: Self) -> (sum: Self)
        requires
            i32::MIN <= self.x + rhs.x <= i32::MAX,
            i32::MIN <= self.y + rhs.y <= i32::MAX,
        ensures
            sum.x == self.x + rhs.x,
            sum.y == self.y + rhs.y,
    {
        Self { x: self.x + rhs.x, y: self.y + rhs.y }
    }
}

/// An axis aligned box in pixels, relative to the position of its owner.
#[derive(Copy, Clone, Debug, PartialEq, Eq, Structural)]
pub struct BoundingBox {
    min: Point,
    max: Point,
}

impl BoundingBox {
    /// The lower corner.
    pub closed spec fn min_corner(self) -> Point {
        self.min
    }

    /// The upper corner.
    pub closed spec fn max_corner(self) -> Point {
        self.max
    }

    /// Whether the box, moved to `global_position`, can be tested without overflow.
    pub open spec fn placeable(self, global_position: Point) -> bool {
        &&& i32::MIN <= self.min_corner().x + global_position.x <= i32::MAX
        &&& i32::MIN <= self.min_corner().y + global_position.y <= i32::MAX
        &&& i32::MIN <= self.max_corner().x + global_position.x <= i32::MAX
        &&& i32::MIN <= self.max_corner().y + global_position.y <= i32::MAX
    }

    /// Whether `point` lies in the box moved to `global_position`, borders included.
    pub open spec fn spec_contains(self, global_position: Point, point: Point) -> bool {
        &&& self.min_corner().x + global_position.x <= point.x <= self.max_corner().x + global_position.x
        &&& self.min_corner().y + global_position.y <= point.y <= self.max_corner().y + global_position.y
    }

    /// The default box: from (0, 0) to (10, 10).
    pub fn new() -> (bb: Self)
        ensures
            bb.min_corner() == (Point { x: 0, y: 0 }),
            bb.max_corner() == (Point { x: 10, y: 10 }),
    {
        Self { min: Point { x: 0, y: 0 }, max: Point { x: 10, y: 10 } }
    }

    /// Whether `point` lies in the box moved to `global_position`, borders included.
    pub fn contains_point(&self, global_position: Point, point: &Point) -> (inside: bool)
        requires
            self.placeable(global_position),
        ensures
            inside == self.spec_contains(global_position, *point),
    {
        let min = self.min.add(global_position);
        let max = self.max.add(global_position);

        min.x <= point.x && max.x >= point.x && min.y <= point.y && max.y >= point.y
    }
}

/// Something that reacts to input and may answer with a message.
pub trait Interactable {
    type Message;

    fn update(&mut self, input: &Input) -> Option<Self::Message>;
}

/// What a cursor does to an element.
#[derive(Copy, Clone, Debug, PartialEq, Eq, Structural)]
pub enum CursorInteractableMsg {
    Clicked(MouseButton),
    Released(MouseButton),
    HoverEnter,
    HoverExit,
}

/// Tracks whether the cursor holds or hovers an element.
pub struct CursorInteractable {
    global_position: Point,
    bounding_box: BoundingBox,
    held: bool,
    hovering: bool,
}

impl CursorInteractable {
    /// Whether the cursor at `point` is over the element.
    pub closed spec fn hit(&self, point: Point) -> bool {
        self.bounding_box.spec_contains(self.global_position, point)
    }

    /// Whether the element is held.
    pub closed spec fn is_held(&self) -> bool {
        self.held
    }

    /// Whether the cursor hovers the element.
    pub closed spec fn is_hovering(&self) -> bool {
        self.hovering
    }

    /// The element always sits at the origin with the default box: nothing moves it.
    #[verifier::type_invariant]
    spec fn placed(&self) -> bool {
        self.at_rest()
    }

    /// Whether the element is held.
    pub fn held(&self) -> (held: bool)
        ensures
            held == self.is_held(),
    {
        self.held
    }

    /// Whether the cursor hovers the element.
    pub fn hovering(&self) -> (hovering: bool)
        ensures
            hovering == self.is_hovering(),
    {
        self.hovering
    }

    /// The element sits at the origin with the default box.
    pub closed spec fn at_rest(&self) -> bool {
        &&& self.global_position == (Point { x: 0, y: 0 })
        &&& self.bounding_box.min_corner() == (Point { x: 0, y: 0 })
        &&& self.bounding_box.max_corner() == (Point { x: 10, y: 10 })
    }

    /// The element's hit area is the square from (0, 0) to (10, 10).
    pub proof fn lemma_hit_area(&self, point: Point)
        requires
            self.at_rest(),
        ensures
            self.hit(point) <==> (0 <= point.x <= 10 && 0 <= point.y <= 10),
    {
    }

    /// The color to fill the element with: the held color while it is held, else the
    /// hover color while the cursor hovers it, else its own color.
    pub fn fill_color(&self, color: Color, hover_color: Color, held_color: Color) -> (c: Color)
        ensures
            c == if self.is_held() {
                held_color
            } else if self.is_hovering() {
                hover_color
            } else {
                color
            },
    {
        if self.held {
            held_color
        } else if self.hovering {
            hover_color
        } else {
            color
        }
    }

    /// A fresh element, neither held nor hovered.
    pub fn new() -> (ci: Self)
        ensures
            ci.at_rest(),
            !ci.is_held(),
            !ci.is_hovering(),
    {
        Self {
            global_position: Point { x: 0, y: 0 },
            held: false,
            hovering: false,
            bounding_box: BoundingBox::new(),
        }
    }
}

/// The state a cursor element moves to on an input, and the message it sends.
pub open spec fn cursor_step(held: bool, hovering: bool, hit: spec_fn(Point) -> bool, input: Input)
    -> (bool, bool, Option<CursorInteractableMsg>)
{
    match input {
        Input::Mouse(Mouse::Clicked { x, y, button }) => {
            if hit(Point { x, y }) {
                (true, hovering, Some(CursorInteractableMsg::Clicked(button)))
            } else {
                (held, hovering, None)
            }
        },
        Input::Mouse(Mouse::Released { x, y, button }) => {
            if held {
                (false, hovering, Some(CursorInteractableMsg::Released(button)))
            } else {
                (held, hovering, None)
            }
        },
        Input::Mouse(Mouse::Moved { x, y }) => {
            let inside = hit(Point { x, y });
            if !inside && hovering {
                (held, false, Some(CursorInteractableMsg::HoverExit))
            } else if inside && !hovering {
                (held, true, Some(CursorInteractableMsg::HoverEnter))
            } else {
                (held, hovering, None)
            }
        },
        _ => (held, hovering, None),
    }
}

/// The cursor's messages follow its state: a release comes only from a held element and
/// leaves it free; a click leaves it held; the cursor enters only an element it was not
/// hovering and exits only one it was, and the hover state follows.
pub proof fn lemma_cursor_messages_follow_state(
    held: bool,
    hovering: bool,
    hit: spec_fn(Point) -> bool,
    input: Input,
)
    ensures
        ({
            let step = cursor_step(held, hovering, hit, input);
            &&& step.2 matches Some(CursorInteractableMsg::Released(_)) ==> held && !step.0
            &&& step.2 matches Some(CursorInteractableMsg::Clicked(_)) ==> step.0
            &&& step.2 == Some(CursorInteractableMsg::HoverEnter) ==> !hovering && step.1
            &&& step.2 == Some(CursorInteractableMsg::HoverExit) ==> hovering && !step.1
            &&& step.2 is None ==> step.0 == held && step.1 == hovering
        }),
{
}

impl Interactable for CursorInteractable {
    type Message = CursorInteractableMsg;

    fn update(&mut self, input: &Input) -> (msg: Option<CursorInteractableMsg>)
        ensures
            ({
                let step = cursor_step(
                    old(self).is_held(),
                    old(self).is_hovering(),
                    |p: Point| old(self).hit(p),
                    *input,
                );
                &&& final(self).is_held() == step.0
                &&& final(self).is_hovering() == step.1
                &&& msg == step.2
                &&& final(self).at_rest()
            }),
    {
        proof {
            use_type_invariant(&*self);
        }
        match input {
            Input::Mouse(mouse) => match mouse {
                Mouse::Clicked { x, y, button } => {
                    let point = Point { x: *x, y: *y };
                    if self.bounding_box.contains_point(self.global_position, &point) {
                        self.held = true;
                        return Some(CursorInteractableMsg::Clicked(*button));
                    }
                },
                Mouse::Released { x: _, y: _, button } => {
                    if self.held {
                        self.held = false;
                        return Some(CursorInteractableMsg::Released(*button));
                    }
                },
                Mouse::Moved { x, y } => {
                    let point = Point { x: *x, y: *y };
                    let point_inside = self.bounding_box.contains_point(self.global_position, &point);
                    if !point_inside && self.hovering {
                        self.hovering = false;
                        return Some(CursorInteractableMsg::HoverExit);
                    } else if point_inside && !self.hovering {
                        self.hovering = true;
                        return Some(CursorInteractableMsg::HoverEnter);
                    }
                },
            },
            _ => {},
        }
        None
    }
}

/// A click on the element reports the button that was clicked and holds the element; a
/// click beside it does nothing. A release of a held element reports the button released
/// and lets it go. A move keeps the held state.
pub proof fn lemma_cursor_reports_the_button(
    held: bool,
    hovering: bool,
    hit: spec_fn(Point) -> bool,
    x: i32,
    y: i32,
    button: MouseButton,
)
    ensures
        hit(Point { x, y }) ==> cursor_step(
            held,
            hovering,
            hit,
            Input::Mouse(Mouse::Clicked { x, y, button }),
        ) == (true, hovering, Some(CursorInteractableMsg::Clicked(button))),
        !hit(Point { x, y }) ==> cursor_step(
            held,
            hovering,
            hit,
            Input::Mouse(Mouse::Clicked { x, y, button }),
        ) == (held, hovering, None::<CursorInteractableMsg>),
        held ==> cursor_step(held, hovering, hit, Input::Mouse(Mouse::Released { x, y, button }))
            == (false, hovering, Some(CursorInteractableMsg::Released(button))),
        !held ==> cursor_step(held, hovering, hit, Input::Mouse(Mouse::Released { x, y, button }))
            == (held, hovering, None::<CursorInteractableMsg>),
        cursor_step(held, hovering, hit, Input::Mouse(Mouse::Moved { x, y })).0 == held,
        cursor_step(held, hovering, hit, Input::Mouse(Mouse::Moved { x, y })).1 == hit(Point { x, y }),
{
}

/// What a cursor does to an element, once placed: a click inside the square from (0, 0)
/// to (10, 10) reports the clicked button.
pub proof fn lemma_click_on_element_reports_button(ci: CursorInteractable, x: i32, y: i32, button: MouseButton)
    requires
        ci.at_rest(),
        0 <= x <= 10,
        0 <= y <= 10,
    ensures
        cursor_step(
            ci.is_held(),
            ci.is_hovering(),
            |p: Point| ci.hit(p),
            Input::Mouse(Mouse::Clicked { x, y, button }),
        ).2 == Some(CursorInteractableMsg::Clicked(button)),
{
    ci.lemma_hit_area(Point { x, y });
}

} // verus!
