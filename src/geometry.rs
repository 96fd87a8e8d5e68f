use vstd::prelude::*;

verus! {

/// A 2D vector in fixed-point units (thousandths of a pixel).
#[derive(Clone, Copy, Debug, PartialEq, Eq, Structural)]
pub struct Vec2 {
    pub x: i64,
    pub y: i64,
}

impl Vec2 {
    pub fn new(x: i64, y: i64) -> (r: Vec2)
        ensures
            r.x == x,
            r.y == y,
    {
        Vec2 { x, y }
    }

    pub fn zero() -> (r: Vec2)
        ensures
            r.x == 0,
            r.y == 0,
    {
        Vec2 { x: 0, y: 0 }
    }

    /// Squared length, as a mathematical integer.
    pub open spec fn length_sq(self) -> int {
        self.x * self.x + self.y * self.y
    }
}


/// Largest half-extent a box may have on either axis.
pub const EXTENT_LIMIT: i64 = 4294967296;

/// Fixed-point value of 1 for the components of a rotation.
pub const ROTATION_ONE: i64 = 65536;

/// A rotation about the z axis, given by its cosine and sine scaled by
/// `ROTATION_ONE`. Its local x axis is `(cos, sin)`, its local y axis `(-sin, cos)`.
#[derive(Clone, Copy, Debug, PartialEq, Eq, Structural)]
pub struct Rotation {
    pub cos: i64,
    pub sin: i64,
}

impl Rotation {
    pub open spec fn wf(self) -> bool {
        -ROTATION_ONE <= self.cos <= ROTATION_ONE && -ROTATION_ONE <= self.sin <= ROTATION_ONE
    }

    pub fn is_wf(&self) -> (r: bool)
        ensures
            r == self.wf(),
    {
        -ROTATION_ONE <= self.cos && self.cos <= ROTATION_ONE && -ROTATION_ONE <= self.sin
            && self.sin <= ROTATION_ONE
    }

    pub fn identity() -> (r: Rotation)
        ensures
            r.cos == ROTATION_ONE,
            r.sin == 0,
    {
        Rotation { cos: ROTATION_ONE, sin: 0 }
    }
}

/// Position and orientation of an entity.
#[derive(Clone, Copy, Debug, PartialEq, Eq, Structural)]
pub struct Transform {
    pub translation: Vec2,
    pub rotation: Rotation,
}

impl Transform {
    pub fn from_xy(x: i64, y: i64) -> (r: Transform)
        ensures
            r.translation.x == x,
            r.translation.y == y,
            r.rotation.cos == ROTATION_ONE,
            r.rotation.sin == 0,
    {
        Transform { translation: Vec2 { x, y }, rotation: Rotation::identity() }
    }
}

/// A box given by its half-extents in the entity's local (unrotated) frame.
#[derive(Clone, Copy, Debug, PartialEq, Eq, Structural)]
pub struct AABB {
    pub half_size: Vec2,
}

impl AABB {
    pub open spec fn wf(self) -> bool {
        0 <= self.half_size.x <= EXTENT_LIMIT && 0 <= self.half_size.y <= EXTENT_LIMIT
    }

    pub fn is_wf(&self) -> (r: bool)
        ensures
            r == self.wf(),
    {
        0 <= self.half_size.x && self.half_size.x <= EXTENT_LIMIT && 0 <= self.half_size.y
            && self.half_size.y <= EXTENT_LIMIT
    }
}

pub open spec fn abs(a: int) -> int {
    if a < 0 {
        -a
    } else {
        a
    }
}

pub open spec fn dot(ax: int, ay: int, bx: int, by: int) -> int {
    ax * bx + ay * by
}

/// Half-length of the shadow of a box, rotated by `r` with half-extents `h`,
/// on the axis `(ax, ay)`, in units of `ROTATION_ONE` squared.
pub open spec fn projected_radius(ax: int, ay: int, r: Rotation, h: Vec2) -> int {
    abs(h.x * dot(ax, ay, r.cos as int, r.sin as int)) + abs(h.y * dot(
        ax,
        ay,
        -r.sin,
        r.cos as int,
    ))
}

/// The axis `(ax, ay)` separates the two boxes: the distance between their
/// centres along it is larger than the sum of their projected half-lengths.
pub open spec fn separated_on(
    ax: int,
    ay: int,
    t1: Transform,
    h1: Vec2,
    t2: Transform,
    h2: Vec2,
) -> bool {
    let d = dot(ax, ay, t2.translation.x - t1.translation.x, t2.translation.y - t1.translation.y);
    abs(d) * ROTATION_ONE > projected_radius(ax, ay, t1.rotation, h1) + projected_radius(
        ax,
        ay,
        t2.rotation,
        h2,
    )
}

/// Separating-axis test on the two local axes of each box: the boxes
/// overlap when none of the four axes separates them.
pub open spec fn obb_overlap(t1: Transform, h1: Vec2, t2: Transform, h2: Vec2) -> bool {
    let r1 = t1.rotation;
    let r2 = t2.rotation;
    &&& !separated_on(r1.cos as int, r1.sin as int, t1, h1, t2, h2)
    &&& !separated_on(-r1.sin, r1.cos as int, t1, h1, t2, h2)
    &&& !separated_on(r2.cos as int, r2.sin as int, t1, h1, t2, h2)
    &&& !separated_on(-r2.sin, r2.cos as int, t1, h1, t2, h2)
}

/// Interval overlap on both axes of two unrotated boxes; touching edges do not count.
pub open spec fn aabb_overlap(ca: Vec2, ha: Vec2, cb: Vec2, hb: Vec2) -> bool {
    &&& ca.x + ha.x > cb.x - hb.x
    &&& ca.x - ha.x < cb.x + hb.x
    &&& ca.y + ha.y > cb.y - hb.y
    &&& ca.y - ha.y < cb.y + hb.y
}

fn abs_exec(a: i128) -> (r: i128)
    requires
        a > i128::MIN,
    ensures
        r == abs(a as int),
{
    if a < 0 {
        -a
    } else {
        a
    }
}

proof fn lemma_axis_products(ax: int, ay: int, r: Rotation, h: Vec2)
    requires
        -ROTATION_ONE <= ax <= ROTATION_ONE,
        -ROTATION_ONE <= ay <= ROTATION_ONE,
        r.wf(),
        0 <= h.x <= EXTENT_LIMIT,
        0 <= h.y <= EXTENT_LIMIT,
    ensures
        -0x2_0000_0000 <= dot(ax, ay, r.cos as int, r.sin as int) <= 0x2_0000_0000,
        -0x2_0000_0000 <= dot(ax, ay, -r.sin, r.cos as int) <= 0x2_0000_0000,
        -0x2_0000_0000_0000_0000 <= h.x * dot(ax, ay, r.cos as int, r.sin as int)
            <= 0x2_0000_0000_0000_0000,
        -0x2_0000_0000_0000_0000 <= h.y * dot(ax, ay, -r.sin, r.cos as int)
            <= 0x2_0000_0000_0000_0000,
{
    let c = r.cos as int;
    let s = r.sin as int;
    assert(-0x2_0000_0000 <= ax * c + ay * s <= 0x2_0000_0000) by (nonlinear_arith)
        requires
            -65536 <= ax <= 65536,
            -65536 <= ay <= 65536,
            -65536 <= c <= 65536,
            -65536 <= s <= 65536;
    assert(-0x2_0000_0000 <= ax * (-s) + ay * c <= 0x2_0000_0000) by (nonlinear_arith)
        requires
            -65536 <= ax <= 65536,
            -65536 <= ay <= 65536,
            -65536 <= c <= 65536,
            -65536 <= s <= 65536;
    let d1 = dot(ax, ay, c, s);
    let d2 = dot(ax, ay, -s, c);
    let hx = h.x as int;
    let hy = h.y as int;
    assert(-0x2_0000_0000_0000_0000 <= hx * d1 <= 0x2_0000_0000_0000_0000) by (nonlinear_arith)
        requires
            0 <= hx <= 0x1_0000_0000,
            -0x2_0000_0000 <= d1 <= 0x2_0000_0000;
    assert(-0x2_0000_0000_0000_0000 <= hy * d2 <= 0x2_0000_0000_0000_0000) by (nonlinear_arith)
        requires
            0 <= hy <= 0x1_0000_0000,
            -0x2_0000_0000 <= d2 <= 0x2_0000_0000;
}

fn projected_radius_exec(ax: i128, ay: i128, r: Rotation, h: Vec2) -> (p: i128)
    requires
        -ROTATION_ONE <= ax <= ROTATION_ONE,
        -ROTATION_ONE <= ay <= ROTATION_ONE,
        r.wf(),
        0 <= h.x <= EXTENT_LIMIT,
        0 <= h.y <= EXTENT_LIMIT,
    ensures
        p == projected_radius(ax as int, ay as int, r, h),
        0 <= p <= 0x4_0000_0000_0000_0000,
{
    proof {
        lemma_axis_products(ax as int, ay as int, r, h);
    }
    let c = r.cos as i128;
    let s = r.sin as i128;
    assert(-0x1_0000_0000 <= ax * c <= 0x1_0000_0000 && -0x1_0000_0000 <= ay * s <= 0x1_0000_0000
        && -0x1_0000_0000 <= ax * (-s) <= 0x1_0000_0000 && -0x1_0000_0000 <= ay * c
        <= 0x1_0000_0000) by (nonlinear_arith)
        requires
            -65536 <= ax <= 65536,
            -65536 <= ay <= 65536,
            -65536 <= c <= 65536,
            -65536 <= s <= 65536;
    let along_x = (h.x as i128) * (ax * c + ay * s);
    let along_y = (h.y as i128) * (ax * (-s) + ay * c);
    abs_exec(along_x) + abs_exec(along_y)
}

/// Whether the axis `(ax, ay)` separates the two boxes.
fn separated_on_exec(ax: i128, ay: i128, t1: &Transform, h1: &Vec2, t2: &Transform, h2: &Vec2) -> (r:
    bool)
    requires
        -ROTATION_ONE <= ax <= ROTATION_ONE,
        -ROTATION_ONE <= ay <= ROTATION_ONE,
        t1.rotation.wf(),
        t2.rotation.wf(),
        0 <= h1.x <= EXTENT_LIMIT,
        0 <= h1.y <= EXTENT_LIMIT,
        0 <= h2.x <= EXTENT_LIMIT,
        0 <= h2.y <= EXTENT_LIMIT,
    ensures
        r == separated_on(ax as int, ay as int, *t1, *h1, *t2, *h2),
{
    let dx = t2.translation.x as i128 - t1.translation.x as i128;
    let dy = t2.translation.y as i128 - t1.translation.y as i128;
    assert(-0x1_0000_0000_0000_0000_0000 <= ax * dx <= 0x1_0000_0000_0000_0000_0000
        && -0x1_0000_0000_0000_0000_0000 <= ay * dy <= 0x1_0000_0000_0000_0000_0000)
        by (nonlinear_arith)
        requires
            -65536 <= ax <= 65536,
            -65536 <= ay <= 65536,
            -0x1_0000_0000_0000_0000 <= dx <= 0x1_0000_0000_0000_0000,
            -0x1_0000_0000_0000_0000 <= dy <= 0x1_0000_0000_0000_0000;
    let d = abs_exec(ax * dx + ay * dy);
    let r1 = projected_radius_exec(ax, ay, t1.rotation, *h1);
    let r2 = projected_radius_exec(ax, ay, t2.rotation, *h2);
    d * (ROTATION_ONE as i128) > r1 + r2
}

/// Oriented-box overlap of two boxes by the separating-axis test on the
/// four local axes of the two boxes.
pub fn check_obb_overlap(
    transform1: &Transform,
    obb1_half_extents: &Vec2,
    transform2: &Transform,
    obb2_half_extents: &Vec2,
) -> (r: bool)
    requires
        transform1.rotation.wf(),
        transform2.rotation.wf(),
        (AABB { half_size: *obb1_half_extents }).wf(),
        (AABB { half_size: *obb2_half_extents }).wf(),
    ensures
        r == obb_overlap(*transform1, *obb1_half_extents, *transform2, *obb2_half_extents),
{
    let c1 = transform1.rotation.cos as i128;
    let s1 = transform1.rotation.sin as i128;
    let c2 = transform2.rotation.cos as i128;
    let s2 = transform2.rotation.sin as i128;
    let h1 = obb1_half_extents;
    let h2 = obb2_half_extents;
    !separated_on_exec(c1, s1, transform1, h1, transform2, h2) && !separated_on_exec(
        -s1,
        c1,
        transform1,
        h1,
        transform2,
        h2,
    ) && !separated_on_exec(c2, s2, transform1, h1, transform2, h2) && !separated_on_exec(
        -s2,
        c2,
        transform1,
        h1,
        transform2,
        h2,
    )
}

/// Overlap of two unrotated boxes: their intervals overlap strictly on both axes.
pub fn check_aabb_overlap(position1: &Vec2, half1: &Vec2, position2: &Vec2, half2: &Vec2) -> (r:
    bool)
    ensures
        r == aabb_overlap(*position1, *half1, *position2, *half2),
{
    let (x1, y1) = (position1.x as i128, position1.y as i128);
    let (hx1, hy1) = (half1.x as i128, half1.y as i128);
    let (x2, y2) = (position2.x as i128, position2.y as i128);
    let (hx2, hy2) = (half2.x as i128, half2.y as i128);
    x1 + hx1 > x2 - hx2 && x1 - hx1 < x2 + hx2 && y1 + hy1 > y2 - hy2 && y1 - hy1 < y2 + hy2
}

/// Two boxes with the same centre always overlap, whatever their sizes and
/// orientations.
pub proof fn lemma_same_centre_overlaps(t1: Transform, h1: Vec2, t2: Transform, h2: Vec2)
    requires
        t1.translation == t2.translation,
        (AABB { half_size: h1 }).wf(),
        (AABB { half_size: h2 }).wf(),
    ensures
        obb_overlap(t1, h1, t2, h2),
{
    assert forall|ax: int, ay: int| #![auto] !separated_on(ax, ay, t1, h1, t2, h2) by {
        assert(dot(ax, ay, 0, 0) == 0) by (nonlinear_arith);
    }
}

} // verus!
