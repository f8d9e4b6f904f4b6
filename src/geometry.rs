use vstd::prelude::*;

verus! {

/// Fixed-point scale of a rotation's cosine and sine: `ROTATION_SCALE`
/// stands for `1`.
pub const ROTATION_SCALE: i64 = 1_000_000;

/// Largest magnitude of a pose coordinate that positions are computed
/// around, leaving headroom for an offset to be added without overflow.
pub const COORD_LIMIT: i64 = 0x1000_0000_0000_0000;

/// Largest magnitude of a local offset coordinate that a rotation accepts.
pub const OFFSET_LIMIT: i64 = 0x100_0000_0000;

/// A 2D vector with integer coordinates.
#[derive(Clone, Copy, Debug, PartialEq, Eq, Structural)]
pub struct Vec2i {
    pub x: i64,
    pub y: i64,
}

/// A rotation in the plane, as its cosine and sine in fixed point.
#[derive(Clone, Copy, Debug, PartialEq, Eq, Structural)]
pub struct Rotation {
    pub cos: i64,
    pub sin: i64,
}

/// Where a body stands: its translation and its rotation.
#[derive(Clone, Copy, Debug, PartialEq, Eq, Structural)]
pub struct Pose {
    pub translation: Vec2i,
    pub rotation: Rotation,
}

/// `a / d` rounded toward zero, for a positive `d`.
pub open spec fn div_toward_zero(a: int, d: int) -> int {
    if a >= 0 {
        a / d
    } else {
        -((-a) / d)
    }
}

/// `v` rotated by `rot`, rounded toward zero in each coordinate.
pub open spec fn spec_rotate(rot: Rotation, v: Vec2i) -> (int, int) {
    (
        div_toward_zero(rot.cos * v.x - rot.sin * v.y, ROTATION_SCALE as int),
        div_toward_zero(rot.sin * v.x + rot.cos * v.y, ROTATION_SCALE as int),
    )
}

/// A local offset expressed in world space: rotated by the pose's rotation,
/// then moved by its translation.
pub open spec fn spec_to_world(pose: Pose, local: Vec2i) -> (int, int) {
    (
        pose.translation.x + spec_rotate(pose.rotation, local).0,
        pose.translation.y + spec_rotate(pose.rotation, local).1,
    )
}

impl Vec2i {
    pub fn new(x: i64, y: i64) -> (r: Vec2i)
        ensures
            r.x == x,
            r.y == y,
    {
        Vec2i { x, y }
    }

    /// Both coordinates are at most `limit` in magnitude.
    pub open spec fn bounded(self, limit: int) -> bool {
        -limit <= self.x <= limit && -limit <= self.y <= limit
    }
}

impl Rotation {
    /// The rotation by zero.
    pub fn identity() -> (r: Rotation)
        ensures
            r.cos == ROTATION_SCALE,
            r.sin == 0,
            r.wf(),
    {
        Rotation { cos: ROTATION_SCALE, sin: 0 }
    }

    /// Cosine and sine lie in `[-1, 1]`.
    pub open spec fn wf(self) -> bool {
        -ROTATION_SCALE <= self.cos <= ROTATION_SCALE && -ROTATION_SCALE <= self.sin
            <= ROTATION_SCALE
    }

    /// Rotates `v`, rounding each coordinate toward zero.
    pub fn rotate(&self, v: Vec2i) -> (r: Vec2i)
        requires
            self.wf(),
            v.bounded(OFFSET_LIMIT as int),
        ensures
            (r.x as int, r.y as int) == spec_rotate(*self, v),
            r.bounded(2 * OFFSET_LIMIT),
    {
        proof {
            lemma_product_bound(self.cos as int, v.x as int);
            lemma_product_bound(self.sin as int, v.y as int);
            lemma_product_bound(self.sin as int, v.x as int);
            lemma_product_bound(self.cos as int, v.y as int);
        }
        let a: i64 = self.cos * v.x - self.sin * v.y;
        let b: i64 = self.sin * v.x + self.cos * v.y;
        let x = scale_down(a);
        let y = scale_down(b);
        Vec2i { x, y }
    }
}

impl Pose {
    /// The translation is within `COORD_LIMIT` and the rotation is well formed.
    pub open spec fn wf(self) -> bool {
        self.translation.bounded(COORD_LIMIT as int) && self.rotation.wf()
    }

    /// Maps a local offset of this pose's frame into world space.
    pub fn to_world(&self, local: Vec2i) -> (r: Vec2i)
        requires
            self.wf(),
            local.bounded(OFFSET_LIMIT as int),
        ensures
            (r.x as int, r.y as int) == spec_to_world(*self, local),
    {
        let d = self.rotation.rotate(local);
        Vec2i { x: self.translation.x + d.x, y: self.translation.y + d.y }
    }
}

proof fn lemma_product_bound(c: int, v: int)
    requires
        -ROTATION_SCALE <= c <= ROTATION_SCALE,
        -OFFSET_LIMIT <= v <= OFFSET_LIMIT,
    ensures
        -ROTATION_SCALE * OFFSET_LIMIT <= c * v <= ROTATION_SCALE * OFFSET_LIMIT,
{
    assert(-ROTATION_SCALE * OFFSET_LIMIT <= c * v <= ROTATION_SCALE * OFFSET_LIMIT)
        by (nonlinear_arith)
        requires
            -ROTATION_SCALE <= c <= ROTATION_SCALE,
            -OFFSET_LIMIT <= v <= OFFSET_LIMIT,
    ;
}

/// Divides by `ROTATION_SCALE`, rounding toward zero.
fn scale_down(a: i64) -> (r: i64)
    requires
        -2 * ROTATION_SCALE * OFFSET_LIMIT <= a <= 2 * ROTATION_SCALE * OFFSET_LIMIT,
    ensures
        r == div_toward_zero(a as int, ROTATION_SCALE as int),
        -2 * OFFSET_LIMIT <= r <= 2 * OFFSET_LIMIT,
{
    if a >= 0 {
        a / ROTATION_SCALE
    } else {
        -((-a) / ROTATION_SCALE)
    }
}

} // verus!
