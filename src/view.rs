use vstd::prelude::*;
use vstd::view::View as _;

verus! {

/// Returns whether two strings hold the same characters.
pub fn same_text(a: &str, b: &str) -> (r: bool)
    ensures
        r == (a@ == b@),
{
    a.to_owned() == b.to_owned()
}

/// A typesafe unit for viewable components and modifiers.
#[derive(Clone, Copy, Debug, PartialEq, Eq, Structural)]
pub enum ViewUnit {
    /// em
    Em,
    /// Axis percent: %
    Percent,
    /// Horizontal percent: h%
    HorizontalPercent,
    /// Vertical percent: v%
    VerticalPercent,
    /// min(vertical, horizontal) percent: <%
    MinPercent,
    /// max(vertical, horizontal) percent: >%
    MaxPercent,
    /// Centered in the container: =
    Center,
    /// Pixel: px
    Pixel,
}

/// A typesafe unit for the alignment of text in its box.
#[derive(Clone, Copy, Debug, PartialEq, Eq, Structural)]
pub enum AlignUnit {
    /// left
    Left,
    /// center
    Center,
    /// right
    Right,
    /// justify
    Justify,
}

/// A typesafe unit for angles.
#[derive(Clone, Copy, Debug, PartialEq, Eq, Structural)]
pub enum AngleUnit {
    /// degree
    Degree,
    /// radian
    Radian,
    /// hour
    Hour,
}

/// A unit name that is not recognized; the text that was given is kept.
#[derive(Clone, Debug, PartialEq, Eq)]
pub enum UnitError {
    /// Not one of the names of a [`ViewUnit`].
    View(String),
    /// Not one of the names of an [`AlignUnit`].
    Align(String),
    /// Not one of the names of an [`AngleUnit`].
    Angle(String),
}

/// The view unit that a name stands for, if any.
pub open spec fn view_unit_named(s: Seq<char>) -> Option<ViewUnit> {
    if s == seq!['e', 'm'] {
        Some(ViewUnit::Em)
    } else if s == seq!['%'] {
        Some(ViewUnit::Percent)
    } else if s == seq!['h', '%'] {
        Some(ViewUnit::HorizontalPercent)
    } else if s == seq!['v', '%'] {
        Some(ViewUnit::VerticalPercent)
    } else if s == seq!['<', '%'] {
        Some(ViewUnit::MinPercent)
    } else if s == seq!['>', '%'] {
        Some(ViewUnit::MaxPercent)
    } else if s == seq!['='] {
        Some(ViewUnit::Center)
    } else if s == seq!['p', 'x'] {
        Some(ViewUnit::Pixel)
    } else {
        None
    }
}

/// The alignment that a name stands for, if any.
pub open spec fn align_unit_named(s: Seq<char>) -> Option<AlignUnit> {
    if s == seq!['l', 'e', 'f', 't'] {
        Some(AlignUnit::Left)
    } else if s == seq!['c', 'e', 'n', 't', 'e', 'r'] {
        Some(AlignUnit::Center)
    } else if s == seq!['r', 'i', 'g', 'h', 't'] {
        Some(AlignUnit::Right)
    } else if s == seq!['j', 'u', 's', 't', 'i', 'f', 'y'] {
        Some(AlignUnit::Justify)
    } else {
        None
    }
}

/// The angle unit that a name stands for, if any.
pub open spec fn angle_unit_named(s: Seq<char>) -> Option<AngleUnit> {
    if s == seq!['d', 'e', 'g', 'r', 'e', 'e'] {
        Some(AngleUnit::Degree)
    } else if s == seq!['r', 'a', 'd', 'i', 'a', 'n'] {
        Some(AngleUnit::Radian)
    } else if s == seq!['h', 'o', 'u', 'r'] {
        Some(AngleUnit::Hour)
    } else {
        None
    }
}

impl ViewUnit {
    /// Reads a unit name; an unknown name is reported as an error.
    pub fn parse(s: &str) -> (r: Result<ViewUnit, UnitError>)
        ensures
            view_unit_named(s@) is Some ==> r == Ok::<ViewUnit, UnitError>(
                view_unit_named(s@)->0,
            ),
            view_unit_named(s@) is None ==> (r matches Err(UnitError::View(t)) && t@ == s@),
    {
        proof {
            reveal_strlit("em");
            assert("em"@ =~= seq!['e', 'm']);
            reveal_strlit("%");
            assert("%"@ =~= seq!['%']);
            reveal_strlit("h%");
            assert("h%"@ =~= seq!['h', '%']);
            reveal_strlit("v%");
            assert("v%"@ =~= seq!['v', '%']);
            reveal_strlit("<%");
            assert("<%"@ =~= seq!['<', '%']);
            reveal_strlit(">%");
            assert(">%"@ =~= seq!['>', '%']);
            reveal_strlit("=");
            assert("="@ =~= seq!['=']);
            reveal_strlit("px");
            assert("px"@ =~= seq!['p', 'x']);
        }
        if same_text(s, "em") {
            Ok(ViewUnit::Em)
        } else if same_text(s, "%") {
            Ok(ViewUnit::Percent)
        } else if same_text(s, "h%") {
            Ok(ViewUnit::HorizontalPercent)
        } else if same_text(s, "v%") {
            Ok(ViewUnit::VerticalPercent)
        } else if same_text(s, "<%") {
            Ok(ViewUnit::MinPercent)
        } else if same_text(s, ">%") {
            Ok(ViewUnit::MaxPercent)
        } else if same_text(s, "=") {
            Ok(ViewUnit::Center)
        } else if same_text(s, "px") {
            Ok(ViewUnit::Pixel)
        } else {
            Err(UnitError::View(s.to_owned()))
        }
    }

    /// Converts a unit name that is known to be valid.
    pub fn new(s: &str) -> (r: ViewUnit)
        requires
            view_unit_named(s@) is Some,
        ensures
            r == view_unit_named(s@)->0,
    {
        match ViewUnit::parse(s) {
            Ok(u) => u,
            Err(_) => ViewUnit::Pixel,
        }
    }
}

impl AlignUnit {
    /// Reads a name; an unknown name is reported as an error.
    pub fn parse(s: &str) -> (r: Result<AlignUnit, UnitError>)
        ensures
            align_unit_named(s@) is Some ==> r == Ok::<AlignUnit, UnitError>(align_unit_named(s@)->0),
            align_unit_named(s@) is None ==> (r matches Err(UnitError::Align(t)) && t@ == s@),
    {
        proof {
            reveal_strlit("left");
            assert("left"@ =~= seq!['l', 'e', 'f', 't']);
            reveal_strlit("center");
            assert("center"@ =~= seq!['c', 'e', 'n', 't', 'e', 'r']);
            reveal_strlit("right");
            assert("right"@ =~= seq!['r', 'i', 'g', 'h', 't']);
            reveal_strlit("justify");
            assert("justify"@ =~= seq!['j', 'u', 's', 't', 'i', 'f', 'y']);
        }
        if same_text(s, "left") {
            Ok(AlignUnit::Left)
        } else if same_text(s, "center") {
            Ok(AlignUnit::Center)
        } else if same_text(s, "right") {
            Ok(AlignUnit::Right)
        } else if same_text(s, "justify") {
            Ok(AlignUnit::Justify)
        } else {
            Err(UnitError::Align(s.to_owned()))
        }
    }

    /// Converts a name that is known to be valid.
    pub fn new(s: &str) -> (r: AlignUnit)
        requires
            align_unit_named(s@) is Some,
        ensures
            r == align_unit_named(s@)->0,
    {
        match AlignUnit::parse(s) {
            Ok(u) => u,
            Err(_) => AlignUnit::Left,
        }
    }
}

impl AngleUnit {
    /// Reads a name; an unknown name is reported as an error.
    pub fn parse(s: &str) -> (r: Result<AngleUnit, UnitError>)
        ensures
            angle_unit_named(s@) is Some ==> r == Ok::<AngleUnit, UnitError>(angle_unit_named(s@)->0),
            angle_unit_named(s@) is None ==> (r matches Err(UnitError::Angle(t)) && t@ == s@),
    {
        proof {
            reveal_strlit("degree");
            assert("degree"@ =~= seq!['d', 'e', 'g', 'r', 'e', 'e']);
            reveal_strlit("radian");
            assert("radian"@ =~= seq!['r', 'a', 'd', 'i', 'a', 'n']);
            reveal_strlit("hour");
            assert("hour"@ =~= seq!['h', 'o', 'u', 'r']);
        }
        if same_text(s, "degree") {
            Ok(AngleUnit::Degree)
        } else if same_text(s, "radian") {
            Ok(AngleUnit::Radian)
        } else if same_text(s, "hour") {
            Ok(AngleUnit::Hour)
        } else {
            Err(UnitError::Angle(s.to_owned()))
        }
    }

    /// Converts a name that is known to be valid.
    pub fn new(s: &str) -> (r: AngleUnit)
        requires
            angle_unit_named(s@) is Some,
        ensures
            r == angle_unit_named(s@)->0,
    {
        match AngleUnit::parse(s) {
            Ok(u) => u,
            Err(_) => AngleUnit::Degree,
        }
    }
}

/// A modifier that sets the width of a component.
#[derive(Clone, Copy, Debug, PartialEq, Eq, Structural)]
pub struct Width {
    /// Amount, in thousandths of the unit.
    pub scalar: i32,
    /// Unit of the amount.
    pub unit: ViewUnit,
}

/// A modifier that sets the height of a component.
#[derive(Clone, Copy, Debug, PartialEq, Eq, Structural)]
pub struct Height {
    /// Amount, in thousandths of the unit.
    pub scalar: i32,
    /// Unit of the amount.
    pub unit: ViewUnit,
}

/// A modifier that sets the rotation of a component.
#[derive(Clone, Copy, Debug, PartialEq, Eq, Structural)]
pub struct Angle {
    /// Amount, in thousandths of the unit.
    pub scalar: i32,
    /// Unit of the amount.
    pub unit: AngleUnit,
}

/// A modifier that moves the anchor of a component from its top left corner.
#[derive(Clone, Copy, Debug, PartialEq, Eq, Structural)]
pub struct CenterOfGravity {
    /// Horizontal pivot, in thousandths of the width (1000 is the right edge).
    pub horizontal: u16,
    /// Vertical pivot, in thousandths of the height (1000 is the bottom edge).
    pub vertical: u16,
}

/// A modifier that sets the horizontal offset of a component.
#[derive(Clone, Copy, Debug, PartialEq, Eq, Structural)]
pub struct TranslateX {
    /// Amount, in thousandths of the unit.
    pub scalar: i32,
    /// Unit of the amount.
    pub unit: ViewUnit,
}

/// A modifier that sets the vertical offset of a component.
#[derive(Clone, Copy, Debug, PartialEq, Eq, Structural)]
pub struct TranslateY {
    /// Amount, in thousandths of the unit.
    pub scalar: i32,
    /// Unit of the amount.
    pub unit: ViewUnit,
}

/// A modifier that sets the line height of a component.
#[derive(Clone, Copy, Debug, PartialEq, Eq, Structural)]
pub struct Scale {
    /// Amount, in thousandths of the unit.
    pub scalar: i32,
    /// Unit of the amount.
    pub unit: ViewUnit,
}

/// A color: red, green, blue and alpha, each from 0 to 255.
#[derive(Clone, Copy, Debug, PartialEq, Eq, Structural)]
pub struct Rgba {
    /// Red.
    pub r: u8,
    /// Green.
    pub g: u8,
    /// Blue.
    pub b: u8,
    /// Alpha.
    pub a: u8,
}

/// A modifier that sets the color of a component.
#[derive(Clone, Copy, Debug, PartialEq, Eq, Structural)]
pub struct Color {
    /// Color.
    pub rgba: Rgba,
}

/// A modifier that draws a border behind a component.
#[derive(Clone, Copy, Debug, PartialEq, Eq, Structural)]
pub struct Border {
    /// Color.
    pub rgba: Rgba,
    /// Thickness, in thousandths of the unit.
    pub scalar: i32,
    /// Unit of the thickness.
    pub unit: ViewUnit,
}

/// A modifier that draws a feathered shadow behind the glyphs of a component.
#[derive(Clone, Copy, Debug, PartialEq, Eq)]
pub struct Shadow {
    /// Offsets in pixels: left, top, right, bottom.
    pub boxed: [i32; 4],
    /// Color.
    pub rgba: Rgba,
}

/// A modifier that names the state of its component.
#[derive(Clone, Debug, PartialEq, Eq)]
pub struct State {
    /// Value of the state.
    pub val: String,
}

/// A modifier that shows its component only while a key holds a value.
#[derive(Clone, Debug, PartialEq, Eq)]
pub struct Conditional {
    /// Key of the shared state.
    pub key: String,
    /// Value the key must hold.
    pub val: String,
}

/// Modifiers adjust how a component is rendered.
#[derive(Clone, Debug, PartialEq, Eq)]
pub enum Modifier {
    /// Color.
    Color(Color),
    /// Border.
    Border(Border),
    /// Line height.
    Scale(Scale),
    /// Anchor point.
    CenterOfGravity(CenterOfGravity),
    /// Horizontal offset.
    TranslateX(TranslateX),
    /// Vertical offset.
    TranslateY(TranslateY),
    /// Width.
    Width(Width),
    /// Height.
    Height(Height),
    /// Rotation.
    Angle(Angle),
    /// Shadow.
    Shadow(Shadow),
    /// Condition on the shared state.
    Conditional(Conditional),
    /// State name.
    State(State),
}

impl Width {
    /// Creates a width modifier.
    pub fn new(scalar: i32, unit: ViewUnit) -> (r: Modifier)
        ensures
            r == Modifier::Width(Width { scalar, unit }),
    {
        Modifier::Width(Width { scalar, unit })
    }
}

impl Height {
    /// Creates a height modifier.
    pub fn new(scalar: i32, unit: ViewUnit) -> (r: Modifier)
        ensures
            r == Modifier::Height(Height { scalar, unit }),
    {
        Modifier::Height(Height { scalar, unit })
    }
}

impl Angle {
    /// Creates a rotation modifier.
    pub fn new(scalar: i32, unit: AngleUnit) -> (r: Modifier)
        ensures
            r == Modifier::Angle(Angle { scalar, unit }),
    {
        Modifier::Angle(Angle { scalar, unit })
    }
}

impl CenterOfGravity {
    /// Creates an anchor modifier.
    pub fn new(horizontal: u16, vertical: u16) -> (r: Modifier)
        ensures
            r == Modifier::CenterOfGravity(CenterOfGravity { horizontal, vertical }),
    {
        Modifier::CenterOfGravity(CenterOfGravity { horizontal, vertical })
    }
}

impl TranslateX {
    /// Creates a horizontal offset modifier.
    pub fn new(scalar: i32, unit: ViewUnit) -> (r: Modifier)
        ensures
            r == Modifier::TranslateX(TranslateX { scalar, unit }),
    {
        Modifier::TranslateX(TranslateX { scalar, unit })
    }
}

impl TranslateY {
    /// Creates a vertical offset modifier.
    pub fn new(scalar: i32, unit: ViewUnit) -> (r: Modifier)
        ensures
            r == Modifier::TranslateY(TranslateY { scalar, unit }),
    {
        Modifier::TranslateY(TranslateY { scalar, unit })
    }
}

impl Scale {
    /// Creates a line height modifier.
    pub fn new(scalar: i32, unit: ViewUnit) -> (r: Modifier)
        ensures
            r == Modifier::Scale(Scale { scalar, unit }),
    {
        Modifier::Scale(Scale { scalar, unit })
    }
}

impl Color {
    /// Creates a color modifier.
    pub fn new(rgba: Rgba) -> (r: Modifier)
        ensures
            r == Modifier::Color(Color { rgba }),
    {
        Modifier::Color(Color { rgba })
    }
}

impl Border {
    /// Creates a border modifier.
    pub fn new(rgba: Rgba, scalar: i32, unit: ViewUnit) -> (r: Modifier)
        ensures
            r == Modifier::Border(Border { rgba, scalar, unit }),
    {
        Modifier::Border(Border { rgba, scalar, unit })
    }
}

impl Shadow {
    /// Creates a shadow modifier.
    pub fn new(boxed: [i32; 4], rgba: Rgba) -> (r: Modifier)
        ensures
            r == Modifier::Shadow(Shadow { boxed, rgba }),
    {
        Modifier::Shadow(Shadow { boxed, rgba })
    }
}

impl State {
    /// Creates a state modifier.
    pub fn new(val: &str) -> (r: Modifier)
        ensures
            r matches Modifier::State(st) && st.val@ == val@,
    {
        Modifier::State(State { val: val.to_owned() })
    }
}

impl Conditional {
    /// Creates a condition modifier.
    pub fn new(key: &str, val: &str) -> (r: Modifier)
        ensures
            r matches Modifier::Conditional(c) && c.key@ == key@ && c.val@ == val@,
    {
        Modifier::Conditional(Conditional { key: key.to_owned(), val: val.to_owned() })
    }
}

/// The input that a handler subscribes to.
#[derive(Clone, Copy, Debug, PartialEq, Eq, Structural)]
pub enum Event {
    /// A left click inside the component in this frame.
    Clicked,
    /// The pointer inside the component in this frame.
    Hovered,
    /// Every frame.
    Always,
}

/// A component that draws an image asset.
pub struct Image<H> {
    /// Asset name.
    pub name: String,
    /// Modifiers, in the order they were added.
    pub modifiers: Vec<Modifier>,
    /// Handlers, in the order they were added.
    pub events: Vec<(Event, H)>,
}

/// A component that draws text.
pub struct Text<H> {
    /// Text content.
    pub content: String,
    /// Font asset name.
    pub font: String,
    /// Alignment of the lines in the box.
    pub align: AlignUnit,
    /// Modifiers, in the order they were added.
    pub modifiers: Vec<Modifier>,
    /// Handlers, in the order they were added.
    pub events: Vec<(Event, H)>,
}

/// A component that fills a rectangle.
pub struct Rectangle<H> {
    /// Modifiers, in the order they were added.
    pub modifiers: Vec<Modifier>,
    /// Handlers, in the order they were added.
    pub events: Vec<(Event, H)>,
}

/// A renderable component; `H` is the type of its event handlers.
pub enum Component<H> {
    /// An image.
    Image(Image<H>),
    /// Text.
    Text(Text<H>),
    /// A rectangle.
    Rectangle(Rectangle<H>),
}

impl<H> Component<H> {
    /// The modifiers of this component, in order.
    pub open spec fn mods(&self) -> Seq<Modifier> {
        match self {
            Component::Image(m) => m.modifiers@,
            Component::Text(m) => m.modifiers@,
            Component::Rectangle(m) => m.modifiers@,
        }
    }

    /// The handlers of this component, in order.
    pub open spec fn handlers(&self) -> Seq<(Event, H)> {
        match self {
            Component::Image(m) => m.events@,
            Component::Text(m) => m.events@,
            Component::Rectangle(m) => m.events@,
        }
    }

    /// Two components that differ at most in their modifiers and handlers.
    pub open spec fn same_content(&self, o: &Component<H>) -> bool {
        match (self, o) {
            (Component::Image(a), Component::Image(b)) => a.name@ == b.name@,
            (Component::Text(a), Component::Text(b)) => a.content@ == b.content@
                && a.font@ == b.font@ && a.align == b.align,
            (Component::Rectangle(_), Component::Rectangle(_)) => true,
            _ => false,
        }
    }

    /// The modifiers of this component, in order.
    pub fn modifiers(&self) -> (r: &Vec<Modifier>)
        ensures
            r@ == self.mods(),
    {
        match self {
            Component::Text(m) => &m.modifiers,
            Component::Image(m) => &m.modifiers,
            Component::Rectangle(m) => &m.modifiers,
        }
    }

    /// The handlers of this component, in order.
    pub fn handler_list(&self) -> (r: &Vec<(Event, H)>)
        ensures
            r@ == self.handlers(),
    {
        match self {
            Component::Text(m) => &m.events,
            Component::Image(m) => &m.events,
            Component::Rectangle(m) => &m.events,
        }
    }

    /// Appends a modifier.
    pub fn with_modifier(self, md: Modifier) -> (r: Component<H>)
        ensures
            r.mods() == self.mods().push(md),
            r.handlers() == self.handlers(),
            r.same_content(&self),
    {
        let mut c = self;
        match &mut c {
            Component::Text(m) => m.modifiers.push(md),
            Component::Image(m) => m.modifiers.push(md),
            Component::Rectangle(m) => m.modifiers.push(md),
        }
        c
    }

    /// Appends a handler.
    pub fn with_handler(self, e: Event, f: H) -> (r: Component<H>)
        ensures
            r.mods() == self.mods(),
            r.handlers() == self.handlers().push((e, f)),
            r.same_content(&self),
    {
        let mut c = self;
        match &mut c {
            Component::Text(m) => m.events.push((e, f)),
            Component::Image(m) => m.events.push((e, f)),
            Component::Rectangle(m) => m.events.push((e, f)),
        }
        c
    }

    /// Adds a width modifier.
    pub fn width(self, scalar: i32, unit: ViewUnit) -> (r: Component<H>)
        ensures
            r.mods() == self.mods().push(Modifier::Width(Width { scalar, unit })),
            r.handlers() == self.handlers(),
            r.same_content(&self),
    {
        self.with_modifier(Width::new(scalar, unit))
    }

    /// Adds a height modifier.
    pub fn height(self, scalar: i32, unit: ViewUnit) -> (r: Component<H>)
        ensures
            r.mods() == self.mods().push(Modifier::Height(Height { scalar, unit })),
            r.handlers() == self.handlers(),
            r.same_content(&self),
    {
        self.with_modifier(Height::new(scalar, unit))
    }

    /// Adds a rotation modifier.
    pub fn rotate(self, scalar: i32, unit: AngleUnit) -> (r: Component<H>)
        ensures
            r.mods() == self.mods().push(Modifier::Angle(Angle { scalar, unit })),
            r.handlers() == self.handlers(),
            r.same_content(&self),
    {
        self.with_modifier(Angle::new(scalar, unit))
    }

    /// Adds an anchor modifier.
    pub fn cog(self, x: u16, y: u16) -> (r: Component<H>)
        ensures
            r.mods() == self.mods().push(Modifier::CenterOfGravity(CenterOfGravity { horizontal: x, vertical: y })),
            r.handlers() == self.handlers(),
            r.same_content(&self),
    {
        self.with_modifier(CenterOfGravity::new(x, y))
    }

    /// Adds a horizontal offset modifier.
    pub fn translate_x(self, scalar: i32, unit: ViewUnit) -> (r: Component<H>)
        ensures
            r.mods() == self.mods().push(Modifier::TranslateX(TranslateX { scalar, unit })),
            r.handlers() == self.handlers(),
            r.same_content(&self),
    {
        self.with_modifier(TranslateX::new(scalar, unit))
    }

    /// Adds a vertical offset modifier.
    pub fn translate_y(self, scalar: i32, unit: ViewUnit) -> (r: Component<H>)
        ensures
            r.mods() == self.mods().push(Modifier::TranslateY(TranslateY { scalar, unit })),
            r.handlers() == self.handlers(),
            r.same_content(&self),
    {
        self.with_modifier(TranslateY::new(scalar, unit))
    }

    /// Adds a color modifier.
    pub fn color(self, rgba: Rgba) -> (r: Component<H>)
        ensures
            r.mods() == self.mods().push(Modifier::Color(Color { rgba })),
            r.handlers() == self.handlers(),
            r.same_content(&self),
    {
        self.with_modifier(Color::new(rgba))
    }

    /// Adds a line height modifier.
    pub fn scale(self, scalar: i32, unit: ViewUnit) -> (r: Component<H>)
        ensures
            r.mods() == self.mods().push(Modifier::Scale(Scale { scalar, unit })),
            r.handlers() == self.handlers(),
            r.same_content(&self),
    {
        self.with_modifier(Scale::new(scalar, unit))
    }

    /// Adds a border modifier.
    pub fn border(self, clr: Rgba, scalar: i32, unit: ViewUnit) -> (r: Component<H>)
        ensures
            r.mods() == self.mods().push(Modifier::Border(Border { rgba: clr, scalar, unit })),
            r.handlers() == self.handlers(),
            r.same_content(&self),
    {
        self.with_modifier(Border::new(clr, scalar, unit))
    }

    /// Adds a shadow modifier.
    pub fn shadow(self, d: [i32; 4], c: Rgba) -> (r: Component<H>)
        ensures
            r.mods() == self.mods().push(Modifier::Shadow(Shadow { boxed: d, rgba: c })),
            r.handlers() == self.handlers(),
            r.same_content(&self),
    {
        self.with_modifier(Shadow::new(d, c))
    }

    /// Adds a state modifier.
    pub fn state(self, val: &str) -> (r: Component<H>)
        ensures
            r.mods().len() == self.mods().len() + 1,
            r.mods().drop_last() == self.mods(),
            r.mods().last() matches Modifier::State(st) && st.val@ == val@,
            r.handlers() == self.handlers(),
            r.same_content(&self),
    {
        let m = State::new(val);
        let r = self.with_modifier(m);
        proof {
            assert(r.mods().drop_last() =~= self.mods());
        }
        r
    }

    /// Adds a condition modifier.
    pub fn condition(self, key: &str, val: &str) -> (r: Component<H>)
        ensures
            r.mods().len() == self.mods().len() + 1,
            r.mods().drop_last() == self.mods(),
            r.mods().last() matches Modifier::Conditional(c) && c.key@ == key@ && c.val@ == val@,
            r.handlers() == self.handlers(),
            r.same_content(&self),
    {
        let m = Conditional::new(key, val);
        let r = self.with_modifier(m);
        proof {
            assert(r.mods().drop_last() =~= self.mods());
        }
        r
    }

    /// Sets the alignment of a text; other components are returned unchanged.
    pub fn align(self, align: AlignUnit) -> (r: Component<H>)
        ensures
            r.mods() == self.mods(),
            r.handlers() == self.handlers(),
            match (r, self) {
                (Component::Text(a), Component::Text(b)) => a.align == align && a.content == b.content
                    && a.font == b.font,
                (Component::Image(a), Component::Image(b)) => a.name == b.name,
                (Component::Rectangle(_), Component::Rectangle(_)) => true,
                _ => false,
            },
    {
        let mut c = self;
        match &mut c {
            Component::Text(m) => {
                m.align = align;
            },
            _ => {},
        }
        c
    }

    /// Adds a handler that runs when the component is clicked.
    pub fn clicked(self, f: H) -> (r: Component<H>)
        ensures
            r.mods() == self.mods(),
            r.handlers() == self.handlers().push((Event::Clicked, f)),
            r.same_content(&self),
    {
        self.with_handler(Event::Clicked, f)
    }

    /// Adds a handler that runs while the pointer is over the component.
    pub fn hovered(self, f: H) -> (r: Component<H>)
        ensures
            r.mods() == self.mods(),
            r.handlers() == self.handlers().push((Event::Hovered, f)),
            r.same_content(&self),
    {
        self.with_handler(Event::Hovered, f)
    }

    /// Adds a handler that runs every frame.
    pub fn always(self, f: H) -> (r: Component<H>)
        ensures
            r.mods() == self.mods(),
            r.handlers() == self.handlers().push((Event::Always, f)),
            r.same_content(&self),
    {
        self.with_handler(Event::Always, f)
    }
}

impl<H> Image<H> {
    /// Creates an image component for an asset.
    pub fn new(name: &str) -> (r: Component<H>)
        ensures
            r matches Component::Image(m) && m.name@ == name@,
            r.mods().len() == 0,
            r.handlers().len() == 0,
    {
        Component::Image(Image { name: name.to_owned(), modifiers: Vec::new(), events: Vec::new() })
    }
}

impl<H> Text<H> {
    /// Creates a left-aligned text component in a font.
    pub fn new(font: &str, cs: &str) -> (r: Component<H>)
        ensures
            r matches Component::Text(m) && m.font@ == font@ && m.content@ == cs@ && m.align
                == AlignUnit::Left,
            r.mods().len() == 0,
            r.handlers().len() == 0,
    {
        Component::Text(
            Text {
                font: font.to_owned(),
                content: cs.to_owned(),
                align: AlignUnit::Left,
                modifiers: Vec::new(),
                events: Vec::new(),
            },
        )
    }
}

impl<H> Rectangle<H> {
    /// Creates a rectangle component with a width and a height.
    pub fn new(w: i32, wunit: ViewUnit, h: i32, hunit: ViewUnit) -> (r: Component<H>)
        ensures
            r is Rectangle,
            r.mods() == seq![
                Modifier::Width(Width { scalar: w, unit: wunit }),
                Modifier::Height(Height { scalar: h, unit: hunit }),
            ],
            r.handlers().len() == 0,
    {
        let c = Component::Rectangle(Rectangle { modifiers: Vec::new(), events: Vec::new() });
        let r = c.width(w, wunit).height(h, hunit);
        proof {
            assert(r.mods() =~= seq![
                Modifier::Width(Width { scalar: w, unit: wunit }),
                Modifier::Height(Height { scalar: h, unit: hunit }),
            ]);
        }
        r
    }
}

/// The components of one frame, in the order they are drawn.
pub struct View<H> {
    /// All scheduled components.
    pub components: Vec<Component<H>>,
}

impl<H> View<H> {
    /// An empty view.
    pub fn new() -> (r: View<H>)
        ensures
            r.components@.len() == 0,
    {
        View { components: Vec::new() }
    }

    /// Puts a component at the end of the view.
    pub fn append(&mut self, c: Component<H>) -> (r: &mut View<H>)
        ensures
            r.components@ == old(self).components@.push(c),
            *final(self) == *final(r),
    {
        self.components.push(c);
        self
    }
}

} // verus!
