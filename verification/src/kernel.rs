//! Map locations and the 3x3 neighbourhood of values around one location.

use vstd::prelude::*;

verus! {

/// A cell of the map.  The map is a torus of 256 by 256 cells: stepping
/// over an edge comes back in on the opposite side.
#[derive(Clone, Copy, Debug, PartialEq, Eq, Hash, Structural)]
pub struct Location {
    pub x: i8,
    pub y: i8,
}

impl Location {
    pub fn new(x: i8, y: i8) -> (loc: Location)
        ensures
            loc == (Location { x, y }),
    {
        Location { x, y }
    }

    /// The location `dx` columns and `dy` rows away.
    pub open spec fn neighbor(self, dx: int, dy: int) -> Location {
        Location { x: wrap(self.x + dx), y: wrap(self.y + dy) }
    }

    /// Steps `dx` columns and `dy` rows away.
    pub fn shifted(self, dx: i8, dy: i8) -> (loc: Location)
        ensures
            loc == self.neighbor(dx as int, dy as int),
    {
        Location { x: self.x.wrapping_add(dx), y: self.y.wrapping_add(dy) }
    }

    /// Steps any number of columns and rows away.
    pub fn moved(self, dx: i32, dy: i32) -> (loc: Location)
        ensures
            loc == self.neighbor(dx as int, dy as int),
    {
        Location { x: wrapped(self.x as i64 + dx as i64), y: wrapped(self.y as i64 + dy as i64) }
    }

    /// To step and step again is to step once by the sum of the steps,
    /// and to step by nothing, or once around the map, is to stay.
    pub proof fn lemma_steps_add_up(self, a: (int, int), b: (int, int))
        ensures
            self.neighbor(a.0, a.1).neighbor(b.0, b.1) == self.neighbor(a.0 + b.0, a.1 + b.1),
            self.neighbor(0, 0) == self,
            self.neighbor(a.0 + 256, a.1) == self.neighbor(a.0, a.1),
            self.neighbor(a.0, a.1 + 256) == self.neighbor(a.0, a.1),
    {
    }
}

/// The coordinate on the map that `v` steps from coordinate 0 lead to:
/// the one coordinate a whole number of map widths away from `v`.
pub open spec fn wrap(v: int) -> i8 {
    ((v + 128) % 256 - 128) as i8
}

/// Computes the coordinate on the map that `v` steps from 0 lead to.
fn wrapped(v: i64) -> (c: i8)
    requires
        -0x1_0000_0000 <= v <= 0x1_0000_0000,
    ensures
        c == wrap(v as int),
{
    let lifted: u64 = (v + 128 + 0x1_0000_0000) as u64;
    ((lifted % 256) as i64 - 128) as i8
}

/// The values at one cell and at its eight neighbours.
///
/// The names are compass points on the screen, where the map is drawn
/// turned by 45 degrees: the cell one step back along both map axes, at
/// `(-1, -1)`, is straight above the center on the screen and is called
/// north, and the cell at `(1, 1)` is straight below it and called south.
#[derive(Debug, PartialEq, Eq)]
pub struct Kernel<C> {
    pub n: C,
    pub ne: C,
    pub e: C,
    pub nw: C,
    pub center: C,
    pub se: C,
    pub w: C,
    pub sw: C,
    pub s: C,
}

impl<C: Clone> Clone for Kernel<C> {
    fn clone(&self) -> (copy: Kernel<C>)
        ensures
            cloned(self.n, copy.n),
            cloned(self.ne, copy.ne),
            cloned(self.e, copy.e),
            cloned(self.nw, copy.nw),
            cloned(self.center, copy.center),
            cloned(self.se, copy.se),
            cloned(self.w, copy.w),
            cloned(self.sw, copy.sw),
            cloned(self.s, copy.s),
    {
        Kernel {
            n: self.n.clone(),
            ne: self.ne.clone(),
            e: self.e.clone(),
            nw: self.nw.clone(),
            center: self.center.clone(),
            se: self.se.clone(),
            w: self.w.clone(),
            sw: self.sw.clone(),
            s: self.s.clone(),
        }
    }
}

impl<C: Copy> Copy for Kernel<C> {

}

impl<C: Clone> Kernel<C> {
    /// Whether every field of `self` is something that `get` may return
    /// for the matching neighbour of `loc`.
    pub open spec fn sampled_by<F: Fn(Location) -> C>(self, get: F, loc: Location) -> bool {
        &&& call_ensures(get, (loc.neighbor(-1, -1),), self.n)
        &&& call_ensures(get, (loc.neighbor(0, -1),), self.ne)
        &&& call_ensures(get, (loc.neighbor(1, -1),), self.e)
        &&& call_ensures(get, (loc.neighbor(-1, 0),), self.nw)
        &&& call_ensures(get, (loc,), self.center)
        &&& call_ensures(get, (loc.neighbor(1, 0),), self.se)
        &&& call_ensures(get, (loc.neighbor(-1, 1),), self.w)
        &&& call_ensures(get, (loc.neighbor(0, 1),), self.sw)
        &&& call_ensures(get, (loc.neighbor(1, 1),), self.s)
    }

    /// The kernel that a map `f` from locations to values has around
    /// `loc`.
    pub open spec fn of(f: spec_fn(Location) -> C, loc: Location) -> Kernel<C> {
        Kernel {
            n: f(loc.neighbor(-1, -1)),
            ne: f(loc.neighbor(0, -1)),
            e: f(loc.neighbor(1, -1)),
            nw: f(loc.neighbor(-1, 0)),
            center: f(loc),
            se: f(loc.neighbor(1, 0)),
            w: f(loc.neighbor(-1, 1)),
            sw: f(loc.neighbor(0, 1)),
            s: f(loc.neighbor(1, 1)),
        }
    }

    /// Whether `loc` and its eight neighbours are all inside the part of
    /// the map where `get` may be called.
    pub open spec fn covered_by<F: Fn(Location) -> C>(get: F, loc: Location) -> bool {
        forall|dx: int, dy: int|
            -1 <= dx <= 1 && -1 <= dy <= 1 ==> call_requires(
                get,
                (#[trigger] loc.neighbor(dx, dy),),
            )
    }

    /// Samples `get` at `loc` and at its eight neighbours.
    pub fn new<F: Fn(Location) -> C>(get: F, loc: Location) -> (k: Kernel<C>)
        requires
            Self::covered_by(get, loc),
        ensures
            k.sampled_by(get, loc),
    {
        assert(loc.neighbor(0, 0) == loc);
        Kernel {
            n: get(loc.shifted(-1, -1)),
            ne: get(loc.shifted(0, -1)),
            e: get(loc.shifted(1, -1)),
            nw: get(loc.shifted(-1, 0)),
            center: get(loc),
            se: get(loc.shifted(1, 0)),
            w: get(loc.shifted(-1, 1)),
            sw: get(loc.shifted(0, 1)),
            s: get(loc.shifted(1, 1)),
        }
    }

    /// A kernel with `center` in the middle and a copy of `edge` all
    /// around it.
    pub fn new_default(center: C, edge: C) -> (k: Kernel<C>)
        ensures
            k.center == center,
            cloned(edge, k.n),
            cloned(edge, k.ne),
            cloned(edge, k.e),
            cloned(edge, k.nw),
            cloned(edge, k.se),
            cloned(edge, k.w),
            cloned(edge, k.sw),
            cloned(edge, k.s),
    {
        Kernel {
            n: edge.clone(),
            ne: edge.clone(),
            e: edge.clone(),
            nw: edge.clone(),
            center: center,
            se: edge.clone(),
            w: edge.clone(),
            sw: edge.clone(),
            s: edge.clone(),
        }
    }

    /// Where the lookup is a function, the sampled kernel is the kernel
    /// of that function: a lookup that returns `f(l)` and nothing else at
    /// every location `l` can only have produced `Kernel::of(f, loc)`.
    pub proof fn lemma_sampled_is_kernel_of<F: Fn(Location) -> C>(
        self,
        get: F,
        f: spec_fn(Location) -> C,
        loc: Location,
    )
        requires
            self.sampled_by(get, loc),
            forall|l: Location, c: C| call_ensures(get, (l,), c) ==> c == f(l),
        ensures
            self == Self::of(f, loc),
    {
    }
}

} // verus!
