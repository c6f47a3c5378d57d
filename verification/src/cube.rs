use crate::material::Material;
use vstd::prelude::*;

verus! {

/// One of the three coordinate axes.
#[derive(Debug, Clone, Copy, PartialEq, Eq, Structural)]
pub enum Axis {
    X,
    Y,
    Z,
}

/// One of the six faces of an axis-aligned box, named by the direction its
/// outward normal points in.
#[derive(Debug, Clone, Copy, PartialEq, Eq, Structural)]
pub enum Face {
    NegX,
    PosX,
    NegY,
    PosY,
    NegZ,
    PosZ,
}

impl Axis {
    /// The component of the vector `v` along the axis.
    pub open spec fn component(self, v: (int, int, int)) -> int {
        match self {
            Axis::X => v.0,
            Axis::Y => v.1,
            Axis::Z => v.2,
        }
    }
}

impl Face {
    /// The axis the face is perpendicular to.
    pub open spec fn axis_of(self) -> Axis {
        match self {
            Face::NegX | Face::PosX => Axis::X,
            Face::NegY | Face::PosY => Axis::Y,
            Face::NegZ | Face::PosZ => Axis::Z,
        }
    }

    /// Whether the outward normal points toward larger coordinates.
    pub open spec fn is_positive(self) -> bool {
        self is PosX || self is PosY || self is PosZ
    }

    /// The outward unit normal, as `(x, y, z)`.
    pub open spec fn normal_of(self) -> (int, int, int) {
        match self {
            Face::NegX => (-1, 0, 0),
            Face::PosX => (1, 0, 0),
            Face::NegY => (0, -1, 0),
            Face::PosY => (0, 1, 0),
            Face::NegZ => (0, 0, -1),
            Face::PosZ => (0, 0, 1),
        }
    }

    /// The face through which a ray enters a box, given the axis on which it
    /// crosses into the box last and whether it travels toward larger
    /// coordinates on that axis. A ray that travels toward larger
    /// coordinates enters through the face at the box's minimum.
    pub fn entered(axis: Axis, toward_positive: bool) -> (face: Face)
        ensures
            face.axis_of() == axis,
            face.is_positive() == !toward_positive,
    {
        match axis {
            Axis::X => if toward_positive {
                Face::NegX
            } else {
                Face::PosX
            },
            Axis::Y => if toward_positive {
                Face::NegY
            } else {
                Face::PosY
            },
            Axis::Z => if toward_positive {
                Face::NegZ
            } else {
                Face::PosZ
            },
        }
    }

    /// The axis the face is perpendicular to.
    pub fn axis(&self) -> (axis: Axis)
        ensures
            axis == self.axis_of(),
    {
        match self {
            Face::NegX | Face::PosX => Axis::X,
            Face::NegY | Face::PosY => Axis::Y,
            Face::NegZ | Face::PosZ => Axis::Z,
        }
    }

    /// The outward unit normal of the face, as `(x, y, z)`.
    pub fn normal(&self) -> (n: (i32, i32, i32))
        ensures
            (n.0 as int, n.1 as int, n.2 as int) == self.normal_of(),
    {
        match self {
            Face::NegX => (-1, 0, 0),
            Face::PosX => (1, 0, 0),
            Face::NegY => (0, -1, 0),
            Face::PosY => (0, 1, 0),
            Face::NegZ => (0, 0, -1),
            Face::PosZ => (0, 0, 1),
        }
    }

    /// The two axes that span the face, in the order in which texture
    /// coordinates run along them: `u` along the first, `v` along the second.
    /// Neither is the face's own axis.
    pub fn tangents(&self) -> (axes: (Axis, Axis))
        ensures
            axes.0 != self.axis_of(),
            axes.1 != self.axis_of(),
            axes.0 != axes.1,
            axes == match self.axis_of() {
                Axis::X => (Axis::Z, Axis::Y),
                Axis::Y => (Axis::X, Axis::Z),
                Axis::Z => (Axis::X, Axis::Y),
            },
    {
        match self {
            Face::NegX | Face::PosX => (Axis::Z, Axis::Y),
            Face::NegY | Face::PosY => (Axis::X, Axis::Z),
            Face::NegZ | Face::PosZ => (Axis::X, Axis::Y),
        }
    }
}

/// The normal of the face that a ray enters through points against the
/// ray's travel on the entry axis and has no component on the other two
/// axes: it is the outward normal of the face that the ray meets first.
pub proof fn lemma_entry_normal_opposes_travel(axis: Axis, toward_positive: bool, face: Face)
    requires
        face.axis_of() == axis,
        face.is_positive() == !toward_positive,
    ensures
        axis.component(face.normal_of()) == if toward_positive {
            -1int
        } else {
            1int
        },
        forall|other: Axis| other != axis ==> other.component(face.normal_of()) == 0,
{
}

/// How a ray crosses the pair of planes that bound a box on one axis: the
/// distance along the ray at which it passes the first plane and the
/// distance at which it passes the second, both as keys that order as the
/// distances do, and whether it travels toward larger coordinates.
#[derive(Debug, Clone, Copy, PartialEq, Eq, Structural)]
pub struct Crossing {
    pub near: u32,
    pub far: u32,
    pub toward_positive: bool,
}

/// How a ray crosses a box on each of the three axes.
#[derive(Debug, Clone, Copy, PartialEq, Eq, Structural)]
pub struct Crossings {
    pub x: Crossing,
    pub y: Crossing,
    pub z: Crossing,
}

impl Crossings {
    /// The crossing on `axis`.
    pub open spec fn on(self, axis: Axis) -> Crossing {
        match axis {
            Axis::X => self.x,
            Axis::Y => self.y,
            Axis::Z => self.z,
        }
    }

    /// Whether at distance `t` the ray is between the two planes on every
    /// axis, and so inside the box.
    pub open spec fn inside_at(self, t: u32) -> bool {
        &&& self.x.near <= t <= self.x.far
        &&& self.y.near <= t <= self.y.far
        &&& self.z.near <= t <= self.z.far
    }

    /// Where the ray is inside all three pairs of planes for the first
    /// time: the largest of the near distances.
    pub open spec fn entry(self) -> u32 {
        self.on(self.entry_axis()).near
    }

    /// The axis on which the ray crosses into the box last: the one with
    /// the largest near distance, the earlier axis where two are equal.
    pub open spec fn entry_axis(self) -> Axis {
        if self.x.near >= self.y.near && self.x.near >= self.z.near {
            Axis::X
        } else if self.y.near >= self.z.near {
            Axis::Y
        } else {
            Axis::Z
        }
    }

    /// Where the ray leaves the first pair of planes: the smallest of the
    /// far distances.
    pub open spec fn exit(self) -> u32 {
        if self.x.far <= self.y.far && self.x.far <= self.z.far {
            self.x.far
        } else if self.y.far <= self.z.far {
            self.y.far
        } else {
            self.z.far
        }
    }

    /// Whether the ray meets the box: it enters no later than it leaves,
    /// and it leaves at a distance that is not behind the origin, `zero`
    /// being the key of distance zero.
    pub open spec fn hits(self, zero: u32) -> bool {
        self.exit() >= self.entry() && self.exit() >= zero
    }

    /// The face that the ray meets, if it meets the box.
    pub open spec fn struck(self, zero: u32) -> Option<Face> {
        if self.hits(zero) {
            Some(
                match (self.entry_axis(), self.on(self.entry_axis()).toward_positive) {
                    (Axis::X, true) => Face::NegX,
                    (Axis::X, false) => Face::PosX,
                    (Axis::Y, true) => Face::NegY,
                    (Axis::Y, false) => Face::PosY,
                    (Axis::Z, true) => Face::NegZ,
                    (Axis::Z, false) => Face::PosZ,
                },
            )
        } else {
            None
        }
    }

    /// The slab test: decides from the crossings on the three axes whether
    /// the ray meets the box, and through which face it enters.
    pub fn struck_face(&self, zero: u32) -> (face: Option<Face>)
        ensures
            face == self.struck(zero),
            face matches Some(f) ==> f.axis_of() == self.entry_axis() && f.is_positive() == !self.on(
                self.entry_axis(),
            ).toward_positive,
    {
        let (axis, crossing) = if self.x.near >= self.y.near && self.x.near >= self.z.near {
            (Axis::X, self.x)
        } else if self.y.near >= self.z.near {
            (Axis::Y, self.y)
        } else {
            (Axis::Z, self.z)
        };
        let exit = if self.x.far <= self.y.far && self.x.far <= self.z.far {
            self.x.far
        } else if self.y.far <= self.z.far {
            self.y.far
        } else {
            self.z.far
        };
        if exit >= crossing.near && exit >= zero {
            Some(Face::entered(axis, crossing.toward_positive))
        } else {
            None
        }
    }
}

/// A ray that starts strictly inside a box meets it: on every axis the
/// first plane lies behind the origin and the second ahead of it.
pub proof fn lemma_ray_from_inside_hits(crossings: Crossings, zero: u32)
    requires
        crossings.x.near < zero <= crossings.x.far,
        crossings.y.near < zero <= crossings.y.far,
        crossings.z.near < zero <= crossings.z.far,
    ensures
        crossings.hits(zero),
        crossings.struck(zero) is Some,
        crossings.entry() < zero,
{
}

/// A ray meets a box exactly when, at some distance that is not behind
/// the origin, it is between all three pairs of planes at once.
pub proof fn lemma_hit_is_common_stretch(crossings: Crossings, zero: u32)
    ensures
        crossings.hits(zero) <==> exists|t: u32| t >= zero && #[trigger] crossings.inside_at(t),
{
    if crossings.hits(zero) {
        assert(crossings.inside_at(crossings.exit()));
    }
}

/// An axis-aligned box between the corners `min` and `max`, with the
/// material of its surface. The vector type `V` and the scalar type `S` are
/// the caller's.
pub struct Cube<V, S> {
    pub min: V,
    pub max: V,
    pub material: Material<S>,
}

impl<V, S> Cube<V, S> {
    /// The box between `min` and `max`.
    pub fn new(min: V, max: V, material: Material<S>) -> (cube: Cube<V, S>)
        ensures
            cube == (Cube { min, max, material }),
    {
        Cube { min, max, material }
    }
}

} // verus!
