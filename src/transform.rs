use vstd::prelude::*;

use crate::vector::{neg, one, sin_cos, zero};

verus! {

/// Where and at what angle a shape is drawn: a position and a rotation kept
/// as its precomputed `(sin, cos)` pair.
///
/// It is a plain value: each setter returns a changed copy, and nothing is
/// drawn until a drawer turns it into a matrix.
#[derive(Copy, Debug, PartialEq)]
pub struct Transform<T> {
    /// The position of the shape's centre, in pixels from the window centre.
    pub pos: (T, T),
    /// The sine and cosine of the rotation.
    pub sin_cos: (T, T),
}

impl<T: Copy> Clone for Transform<T> {
    fn clone(&self) -> (r: Self)
        ensures
            r == *self,
    {
        *self
    }
}

/// The column-major 4x4 matrix that rotates by the angle whose sine and
/// cosine are `s` and `c`, then translates by `(x, y)`; `ns` is the negated
/// sine, `z` and `o` stand for zero and one.
pub open spec fn rotate_translate<T>(c: T, s: T, ns: T, x: T, y: T, z: T, o: T) -> [[T; 4]; 4] {
    [[c, s, z, z], [ns, c, z, z], [z, z, o, z], [x, y, z, o]]
}

impl<T: num_traits::Float> Transform<T> {
    /// The identity placement: at the origin, not rotated.
    pub fn new() -> (r: Self)
        ensures
            r.pos.0 == r.sin_cos.0,
            r.pos.1 == r.sin_cos.0,
    {
        let z = zero::<T>();
        Transform { pos: (z, z), sin_cos: (z, one::<T>()) }
    }

    /// Returns a copy placed at `pos`.
    pub fn pos(self, pos: (T, T)) -> (r: Self)
        ensures
            r == (Transform { pos, ..self }),
    {
        Transform { pos, ..self }
    }

    /// Returns a copy rotated by `rotation` radians, counter-clockwise.
    pub fn rotation(self, rotation: T) -> (r: Self)
        ensures
            r.pos == self.pos,
    {
        Transform { sin_cos: sin_cos(rotation), ..self }
    }

    /// Returns the matrix that the vertex shader applies: rotation first, then
    /// translation by `pos`.
    pub fn matrix(&self) -> (r: [[T; 4]; 4])
        ensures
            exists|ns: T, z: T, o: T|
                r == #[trigger] rotate_translate(self.sin_cos.1, self.sin_cos.0, ns, self.pos.0, self.pos.1, z, o),
    {
        let (s, c) = self.sin_cos;
        let (x, y) = self.pos;
        let z = zero::<T>();
        let o = one::<T>();
        let ns = neg(s);
        let r = [[c, s, z, z], [ns, c, z, z], [z, z, o, z], [x, y, z, o]];
        assert(r == rotate_translate(c, s, ns, x, y, z, o));
        r
    }
}

/// The corners of a rectangle centred at the origin with half-extents `w`
/// and `h`, in the order a quad's vertices are given: bottom left, bottom
/// right, top right, top left. `nw` and `nh` are the negated half-extents.
pub open spec fn rect_of<T>(w: T, h: T, nw: T, nh: T) -> [[T; 2]; 4] {
    [[nw, nh], [w, nh], [w, h], [nw, h]]
}

/// The vertex order that draws a quad's four corners as a triangle strip.
pub const QUAD_STRIP: [u8; 4] = [0, 1, 3, 2];

/// Returns the corners of a rectangle centred at the origin whose
/// half-width is `w` and half-height is `h`: bottom left, bottom right, top
/// right, top left.
pub fn rect_corners<T: num_traits::Float>(w: T, h: T) -> (r: [[T; 2]; 4])
    ensures
        exists|nw: T, nh: T| r == #[trigger] rect_of(w, h, nw, nh),
{
    let nw = neg(w);
    let nh = neg(h);
    let r = [[nw, nh], [w, nh], [w, h], [nw, h]];
    assert(r == rect_of(w, h, nw, nh));
    r
}

} // verus!
