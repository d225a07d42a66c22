//! Arrow decorations for the two ends of an edge.

use vstd::prelude::*;

verus! {

/// Arrow modifier that determines if the shape is empty or filled.
#[derive(Clone, Copy, Hash, PartialEq, Eq, Structural)]
pub enum Fill {
    Open,
    Filled,
}

impl Fill {
    /// The modifier as it stands in an arrow name: `o` for an open shape,
    /// nothing for a filled one.
    pub open spec fn token(self) -> Seq<char> {
        match self {
            Fill::Open => "o"@,
            Fill::Filled => ""@,
        }
    }

    pub fn as_slice(self) -> (s: &'static str)
        ensures
            s@ == self.token(),
    {
        match self {
            Fill::Open => "o",
            Fill::Filled => "",
        }
    }
}

/// Arrow modifier that determines if the shape is clipped.
/// For example `Side::Left` means only left side is visible.
#[derive(Clone, Copy, Hash, PartialEq, Eq, Structural)]
pub enum Side {
    Left,
    Right,
    Both,
}

impl Side {
    /// The modifier as it stands in an arrow name: `l` or `r` for a shape
    /// clipped to one side, nothing for a whole one.
    pub open spec fn token(self) -> Seq<char> {
        match self {
            Side::Left => "l"@,
            Side::Right => "r"@,
            Side::Both => ""@,
        }
    }

    pub fn as_slice(self) -> (s: &'static str)
        ensures
            s@ == self.token(),
    {
        match self {
            Side::Left => "l",
            Side::Right => "r",
            Side::Both => "",
        }
    }
}

/// The arrow shapes of Graphviz, each with the modifiers it accepts.
#[derive(Clone, Copy, Hash, PartialEq, Eq, Structural)]
pub enum ArrowShape {
    /// No arrow will be displayed
    NoArrow,
    /// Arrow that ends in a triangle. Basically a normal arrow.
    Normal(Fill, Side),
    /// Arrow ending in a small square box
    Box(Fill, Side),
    /// Arrow ending in a three branching lines also called crow's foot
    Crow(Side),
    /// Arrow ending in a curve
    Curve(Side),
    /// Arrow ending in an inverted curve
    ICurve(Fill, Side),
    /// Arrow ending in an diamond shaped rectangular shape.
    Diamond(Fill, Side),
    /// Arrow ending in a circle.
    Dot(Fill),
    /// Arrow ending in an inverted triangle.
    Inv(Fill, Side),
    /// Arrow ending with a T shaped arrow.
    Tee(Side),
    /// Arrow ending with a V shaped arrow.
    Vee(Side),
}

impl ArrowShape {
    /// The modifiers in front of the shape's name: the fill of a shape that
    /// has one, then the side of a shape that has one.
    pub open spec fn modifiers(self) -> Seq<char> {
        match self {
            ArrowShape::NoArrow => Seq::empty(),
            ArrowShape::Normal(fill, side) => fill.token() + side.token(),
            ArrowShape::Box(fill, side) => fill.token() + side.token(),
            ArrowShape::Crow(side) => side.token(),
            ArrowShape::Curve(side) => side.token(),
            ArrowShape::ICurve(fill, side) => fill.token() + side.token(),
            ArrowShape::Diamond(fill, side) => fill.token() + side.token(),
            ArrowShape::Dot(fill) => fill.token(),
            ArrowShape::Inv(fill, side) => fill.token() + side.token(),
            ArrowShape::Tee(side) => side.token(),
            ArrowShape::Vee(side) => side.token(),
        }
    }

    /// The shape's own name.
    pub open spec fn name(self) -> Seq<char> {
        match self {
            ArrowShape::NoArrow => "none"@,
            ArrowShape::Normal(_, _) => "normal"@,
            ArrowShape::Box(_, _) => "box"@,
            ArrowShape::Crow(_) => "crow"@,
            ArrowShape::Curve(_) => "curve"@,
            ArrowShape::ICurve(_, _) => "icurve"@,
            ArrowShape::Diamond(_, _) => "diamond"@,
            ArrowShape::Dot(_) => "dot"@,
            ArrowShape::Inv(_, _) => "inv"@,
            ArrowShape::Tee(_) => "tee"@,
            ArrowShape::Vee(_) => "vee"@,
        }
    }

    /// The arrow name as Graphviz reads it: modifiers, then the shape.
    pub open spec fn dot_text(self) -> Seq<char> {
        self.modifiers() + self.name()
    }

    /// Constructor which returns no arrow.
    pub fn none() -> (shape: ArrowShape)
        ensures
            shape == ArrowShape::NoArrow,
    {
        ArrowShape::NoArrow
    }

    /// Constructor which returns normal arrow.
    pub fn normal() -> (shape: ArrowShape)
        ensures
            shape == ArrowShape::Normal(Fill::Filled, Side::Both),
    {
        ArrowShape::Normal(Fill::Filled, Side::Both)
    }

    /// Constructor which returns a regular box arrow.
    pub fn boxed() -> (shape: ArrowShape)
        ensures
            shape == ArrowShape::Box(Fill::Filled, Side::Both),
    {
        ArrowShape::Box(Fill::Filled, Side::Both)
    }

    /// Constructor which returns a regular crow arrow.
    pub fn crow() -> (shape: ArrowShape)
        ensures
            shape == ArrowShape::Crow(Side::Both),
    {
        ArrowShape::Crow(Side::Both)
    }

    /// Constructor which returns a regular curve arrow.
    pub fn curve() -> (shape: ArrowShape)
        ensures
            shape == ArrowShape::Curve(Side::Both),
    {
        ArrowShape::Curve(Side::Both)
    }

    /// Constructor which returns an inverted curve arrow.
    pub fn icurve() -> (shape: ArrowShape)
        ensures
            shape == ArrowShape::ICurve(Fill::Filled, Side::Both),
    {
        ArrowShape::ICurve(Fill::Filled, Side::Both)
    }

    /// Constructor which returns a diamond arrow.
    pub fn diamond() -> (shape: ArrowShape)
        ensures
            shape == ArrowShape::Diamond(Fill::Filled, Side::Both),
    {
        ArrowShape::Diamond(Fill::Filled, Side::Both)
    }

    /// Constructor which returns a filled diamond, as `diamond` does. It
    /// does not build the circle: that one is written `Dot(Fill::Filled)`.
    pub fn dot() -> (shape: ArrowShape)
        ensures
            shape == ArrowShape::Diamond(Fill::Filled, Side::Both),
    {
        ArrowShape::Diamond(Fill::Filled, Side::Both)
    }

    /// Constructor which returns an inverted triangle arrow.
    pub fn inv() -> (shape: ArrowShape)
        ensures
            shape == ArrowShape::Inv(Fill::Filled, Side::Both),
    {
        ArrowShape::Inv(Fill::Filled, Side::Both)
    }

    /// Constructor which returns a T shaped arrow.
    pub fn tee() -> (shape: ArrowShape)
        ensures
            shape == ArrowShape::Tee(Side::Both),
    {
        ArrowShape::Tee(Side::Both)
    }

    /// Constructor which returns a V shaped arrow.
    pub fn vee() -> (shape: ArrowShape)
        ensures
            shape == ArrowShape::Vee(Side::Both),
    {
        ArrowShape::Vee(Side::Both)
    }

    /// Renders the shape as the arrow name that Graphviz reads.
    pub fn to_dot_string(&self) -> (res: String)
        ensures
            res@ == self.dot_text(),
    {
        let mut res = String::new();
        match *self {
            ArrowShape::Box(fill, side)
            | ArrowShape::ICurve(fill, side)
            | ArrowShape::Diamond(fill, side)
            | ArrowShape::Inv(fill, side)
            | ArrowShape::Normal(fill, side) => {
                res.append(fill.as_slice());
                match side {
                    Side::Left | Side::Right => res.append(side.as_slice()),
                    Side::Both => {
                        assert(side.token() =~= Seq::empty()) by {
                            reveal_strlit("");
                        }
                    },
                };
            },
            ArrowShape::Dot(fill) => res.append(fill.as_slice()),
            ArrowShape::Crow(side)
            | ArrowShape::Curve(side)
            | ArrowShape::Tee(side)
            | ArrowShape::Vee(side) => {
                match side {
                    Side::Left | Side::Right => res.append(side.as_slice()),
                    Side::Both => {
                        assert(side.token() =~= Seq::empty()) by {
                            reveal_strlit("");
                        }
                    },
                }
            },
            ArrowShape::NoArrow => {},
        };
        assert(res@ =~= self.modifiers());
        match *self {
            ArrowShape::NoArrow => res.append("none"),
            ArrowShape::Normal(_, _) => res.append("normal"),
            ArrowShape::Box(_, _) => res.append("box"),
            ArrowShape::Crow(_) => res.append("crow"),
            ArrowShape::Curve(_) => res.append("curve"),
            ArrowShape::ICurve(_, _) => res.append("icurve"),
            ArrowShape::Diamond(_, _) => res.append("diamond"),
            ArrowShape::Dot(_) => res.append("dot"),
            ArrowShape::Inv(_, _) => res.append("inv"),
            ArrowShape::Tee(_) => res.append("tee"),
            ArrowShape::Vee(_) => res.append("vee"),
        };
        res
    }
}

/// The names of `shapes`, one after the other with nothing between.
pub open spec fn shapes_text(shapes: Seq<ArrowShape>) -> Seq<char>
    decreases shapes.len(),
{
    if shapes.len() == 0 {
        Seq::empty()
    } else {
        shapes_text(shapes.drop_last()) + shapes.last().dot_text()
    }
}

/// All that describes the arrow at one end of an edge: a sequence of
/// shapes. The empty sequence stands for the arrow that Graphviz draws by
/// default.
#[derive(Clone, Hash, PartialEq, Eq)]
pub struct Arrow {
    pub arrows: Vec<ArrowShape>,
}

impl View for Arrow {
    type V = Seq<ArrowShape>;

    open spec fn view(&self) -> Seq<ArrowShape> {
        self.arrows@
    }
}

impl Arrow {
    /// Return `true` if this is a default arrow.
    pub fn is_default(&self) -> (b: bool)
        ensures
            b == (self@.len() == 0),
    {
        self.arrows.len() == 0
    }

    /// Arrow constructor which returns a default arrow
    pub fn default() -> (arrow: Arrow)
        ensures
            arrow@ == Seq::<ArrowShape>::empty(),
    {
        Arrow { arrows: Vec::new() }
    }

    /// Arrow constructor which returns an empty arrow
    pub fn none() -> (arrow: Arrow)
        ensures
            arrow@ == seq![ArrowShape::NoArrow],
    {
        Arrow { arrows: vec![ArrowShape::NoArrow] }
    }

    /// Arrow constructor which returns a regular triangle arrow, without modifiers
    pub fn normal() -> (arrow: Arrow)
        ensures
            arrow@ == seq![ArrowShape::Normal(Fill::Filled, Side::Both)],
    {
        Arrow { arrows: vec![ArrowShape::normal()] }
    }

    /// Arrow constructor which returns an arrow created by a given ArrowShape.
    pub fn from_arrow(arrow: ArrowShape) -> (a: Arrow)
        ensures
            a@ == seq![arrow],
    {
        Arrow { arrows: vec![arrow] }
    }

    /// Function which converts given arrow into a renderable form.
    pub fn to_dot_string(&self) -> (out: String)
        ensures
            out@ == shapes_text(self@),
    {
        let mut out = String::new();
        let mut i: usize = 0;
        while i < self.arrows.len()
            invariant
                i <= self.arrows.len(),
                out@ == shapes_text(self@.take(i as int)),
            decreases self.arrows.len() - i,
        {
            proof {
                assert(self@.take(i + 1).drop_last() == self@.take(i as int));
            }
            let shape = self.arrows[i].to_dot_string();
            out.append(shape.as_str());
            i = i + 1;
        }
        assert(self@.take(self@.len() as int) == self@);
        out
    }
}

/// Two shapes make an arrow, the first of them nearest to the node.
impl From<[ArrowShape; 2]> for Arrow {
    fn from(shapes: [ArrowShape; 2]) -> (arrow: Arrow)
        ensures
            arrow@ == shapes@,
    {
        let arrow = Arrow { arrows: vec![shapes[0], shapes[1]] };
        assert(arrow@ =~= shapes@);
        arrow
    }
}

impl vstd::std_specs::convert::FromSpecImpl<[ArrowShape; 2]> for Arrow {
    /// `from` promises an arrow of the given shapes, not one particular
    /// value of `Arrow`.
    open spec fn obeys_from_spec() -> bool {
        false
    }

    open spec fn from_spec(shapes: [ArrowShape; 2]) -> Arrow {
        choose|arrow: Arrow| arrow@ == shapes@
    }
}

/// Three shapes make an arrow, the first of them nearest to the node.
impl From<[ArrowShape; 3]> for Arrow {
    fn from(shapes: [ArrowShape; 3]) -> (arrow: Arrow)
        ensures
            arrow@ == shapes@,
    {
        let arrow = Arrow { arrows: vec![shapes[0], shapes[1], shapes[2]] };
        assert(arrow@ =~= shapes@);
        arrow
    }
}

impl vstd::std_specs::convert::FromSpecImpl<[ArrowShape; 3]> for Arrow {
    /// `from` promises an arrow of the given shapes, not one particular
    /// value of `Arrow`.
    open spec fn obeys_from_spec() -> bool {
        false
    }

    open spec fn from_spec(shapes: [ArrowShape; 3]) -> Arrow {
        choose|arrow: Arrow| arrow@ == shapes@
    }
}

/// Four shapes make an arrow, the first of them nearest to the node.
impl From<[ArrowShape; 4]> for Arrow {
    fn from(shapes: [ArrowShape; 4]) -> (arrow: Arrow)
        ensures
            arrow@ == shapes@,
    {
        let arrow = Arrow { arrows: vec![shapes[0], shapes[1], shapes[2], shapes[3]] };
        assert(arrow@ =~= shapes@);
        arrow
    }
}

impl vstd::std_specs::convert::FromSpecImpl<[ArrowShape; 4]> for Arrow {
    /// `from` promises an arrow of the given shapes, not one particular
    /// value of `Arrow`.
    open spec fn obeys_from_spec() -> bool {
        false
    }

    open spec fn from_spec(shapes: [ArrowShape; 4]) -> Arrow {
        choose|arrow: Arrow| arrow@ == shapes@
    }
}

} // verus!
