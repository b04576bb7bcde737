use vstd::prelude::*;

verus! {

/// Sub-pixel units per pixel: positions, velocities and radii are measured in them.
pub const SUBPIXELS_PER_PIXEL: i64 = 1024;

/// Bound on the magnitude of coordinates and velocity components that a
/// single step accepts; well inside `i64` after the arithmetic of a step.
pub const COORD_LIMIT: i64 = 0x1000_0000_0000_0000;

/// A moving disk: its centre `(x, y)` and its velocity `(vx, vy)` per tick.
#[derive(Clone, Copy, Debug, PartialEq, Eq, Structural)]
pub struct Disk {
    pub x: i64,
    pub y: i64,
    pub vx: i64,
    pub vy: i64,
}

/// The mathematical state of a disk.
pub struct DiskModel {
    pub x: int,
    pub y: int,
    pub vx: int,
    pub vy: int,
}

impl View for Disk {
    type V = DiskModel;

    open spec fn view(&self) -> DiskModel {
        DiskModel { x: self.x as int, y: self.y as int, vx: self.vx as int, vy: self.vy as int }
    }
}

pub open spec fn abs(v: int) -> int {
    if v < 0 { -v } else { v }
}

/// One tick along one axis: move by `v`, then mirror the overshoot back across
/// whichever edge the disk of radius `r` crossed, heading away from it.
/// Returns the new position and velocity.
pub open spec fn reflect_axis(p: int, v: int, r: int, bound: int) -> (int, int) {
    let q = p + v;
    if q - r < 0 {
        (r - (q - r), abs(v))
    } else if q + r > bound {
        (bound - (q + r - bound) - r, -abs(v))
    } else {
        (q, v)
    }
}

/// One tick of a disk of radius `r` inside a `w` by `h` viewport.
pub open spec fn step_model(d: DiskModel, w: int, h: int, r: int) -> DiskModel {
    let (x, vx) = reflect_axis(d.x, d.vx, r, w);
    let (y, vy) = reflect_axis(d.y, d.vy, r, h);
    DiskModel { x, y, vx, vy }
}

/// `n` ticks in a row.
pub open spec fn ticks(d: DiskModel, w: int, h: int, r: int, n: nat) -> DiskModel
    decreases n,
{
    if n == 0 {
        d
    } else {
        step_model(ticks(d, w, h, r, (n - 1) as nat), w, h, r)
    }
}

/// The centre of a disk of radius `r` lies within `[r, bound - r]`.
pub open spec fn inside_axis(p: int, r: int, bound: int) -> bool {
    r <= p && p <= bound - r
}

/// A disk that lies inside the viewport on both axes.
pub open spec fn inside(d: DiskModel, w: int, h: int, r: int) -> bool {
    inside_axis(d.x, r, w) && inside_axis(d.y, r, h)
}

/// No velocity component is larger than the room the centre has to move in, so
/// a single reflection always lands back inside.
pub open spec fn speed_fits(d: DiskModel, w: int, h: int, r: int) -> bool {
    abs(d.vx) <= w - 2 * r && abs(d.vy) <= h - 2 * r
}

/// The state from which every later tick stays inside the viewport.
pub open spec fn contained(d: DiskModel, w: int, h: int, r: int) -> bool {
    inside(d, w, h, r) && speed_fits(d, w, h, r)
}

/// The values that a single step handles without overflow.
pub open spec fn in_range(d: DiskModel, w: int, h: int, r: int) -> bool {
    &&& -COORD_LIMIT <= d.x <= COORD_LIMIT
    &&& -COORD_LIMIT <= d.y <= COORD_LIMIT
    &&& -COORD_LIMIT <= d.vx <= COORD_LIMIT
    &&& -COORD_LIMIT <= d.vy <= COORD_LIMIT
    &&& 0 <= r <= COORD_LIMIT
    &&& 0 <= w <= COORD_LIMIT
    &&& 0 <= h <= COORD_LIMIT
}

/// The squared speed, `vx² + vy²`.
pub open spec fn speed_sq(d: DiskModel) -> int {
    d.vx * d.vx + d.vy * d.vy
}

proof fn lemma_reflect_contained(p: int, v: int, r: int, bound: int)
    requires
        inside_axis(p, r, bound),
        abs(v) <= bound - 2 * r,
    ensures
        inside_axis(reflect_axis(p, v, r, bound).0, r, bound),
        abs(reflect_axis(p, v, r, bound).1) == abs(v),
{
}

/// A disk that starts inside the viewport, with no velocity component larger
/// than the room it has to move in, is still inside after a tick, with the
/// same room to spare.
pub proof fn lemma_step_stays_inside(d: DiskModel, w: int, h: int, r: int)
    requires
        contained(d, w, h, r),
    ensures
        contained(step_model(d, w, h, r), w, h, r),
        inside(step_model(d, w, h, r), w, h, r),
{
    lemma_reflect_contained(d.x, d.vx, r, w);
    lemma_reflect_contained(d.y, d.vy, r, h);
}

/// Such a disk stays inside the viewport, `r <= x <= w - r` and
/// `r <= y <= h - r`, after any number of ticks.
pub proof fn lemma_ticks_stay_inside(d: DiskModel, w: int, h: int, r: int, n: nat)
    requires
        contained(d, w, h, r),
    ensures
        contained(ticks(d, w, h, r, n), w, h, r),
        inside(ticks(d, w, h, r, n), w, h, r),
    decreases n,
{
    if n > 0 {
        lemma_ticks_stay_inside(d, w, h, r, (n - 1) as nat);
        lemma_step_stays_inside(ticks(d, w, h, r, (n - 1) as nat), w, h, r);
    }
}

/// A tick changes no velocity component but its sign, and a tick that
/// crosses no edge changes none at all.
pub proof fn lemma_step_keeps_speed(d: DiskModel, w: int, h: int, r: int)
    ensures
        abs(step_model(d, w, h, r).vx) == abs(d.vx),
        abs(step_model(d, w, h, r).vy) == abs(d.vy),
        speed_sq(step_model(d, w, h, r)) == speed_sq(d),
        0 <= d.x + d.vx - r && d.x + d.vx + r <= w ==> step_model(d, w, h, r).vx == d.vx,
        0 <= d.y + d.vy - r && d.y + d.vy + r <= h ==> step_model(d, w, h, r).vy == d.vy,
{
    let s = step_model(d, w, h, r);
    assert(s.vx * s.vx == d.vx * d.vx) by (nonlinear_arith)
        requires
            s.vx == d.vx || s.vx == -d.vx,
    ;
    assert(s.vy * s.vy == d.vy * d.vy) by (nonlinear_arith)
        requires
            s.vy == d.vy || s.vy == -d.vy,
    ;
}

/// The speed `sqrt(vx² + vy²)` of a disk, and the magnitude of each of its
/// velocity components, are the same after any number of ticks.
pub proof fn lemma_ticks_keep_speed(d: DiskModel, w: int, h: int, r: int, n: nat)
    ensures
        abs(ticks(d, w, h, r, n).vx) == abs(d.vx),
        abs(ticks(d, w, h, r, n).vy) == abs(d.vy),
        speed_sq(ticks(d, w, h, r, n)) == speed_sq(d),
    decreases n,
{
    if n > 0 {
        lemma_ticks_keep_speed(d, w, h, r, (n - 1) as nat);
        lemma_step_keeps_speed(ticks(d, w, h, r, (n - 1) as nat), w, h, r);
    }
}

/// A disk at rest at the centre of a viewport that can hold it stays there,
/// unchanged, for any number of ticks.
pub proof fn lemma_resting_disk_stays(w: int, h: int, r: int, n: nat)
    requires
        0 <= r,
        2 * r <= w,
        2 * r <= h,
    ensures
        ticks(DiskModel { x: w / 2, y: h / 2, vx: 0, vy: 0 }, w, h, r, n) == (DiskModel {
            x: w / 2,
            y: h / 2,
            vx: 0,
            vy: 0,
        }),
    decreases n,
{
    if n > 0 {
        lemma_resting_disk_stays(w, h, r, (n - 1) as nat);
    }
}

fn abs_i64(v: i64) -> (r: i64)
    requires
        v > i64::MIN,
    ensures
        r == abs(v as int),
{
    if v < 0 {
        -v
    } else {
        v
    }
}

fn reflect_exec(p: i64, v: i64, r: i64, bound: i64) -> (res: (i64, i64))
    requires
        -COORD_LIMIT <= p <= COORD_LIMIT,
        -COORD_LIMIT <= v <= COORD_LIMIT,
        0 <= r <= COORD_LIMIT,
        0 <= bound <= COORD_LIMIT,
    ensures
        (res.0 as int, res.1 as int) == reflect_axis(p as int, v as int, r as int, bound as int),
{
    let q = p + v;
    if q - r < 0 {
        (r - (q - r), abs_i64(v))
    } else if q + r > bound {
        (bound - (q + r - bound) - r, -abs_i64(v))
    } else {
        (q, v)
    }
}

impl Disk {
    pub fn new(x: i64, y: i64, vx: i64, vy: i64) -> (d: Disk)
        ensures
            d == (Disk { x, y, vx, vy }),
    {
        Disk { x, y, vx, vy }
    }

    /// Advances the disk by one tick inside a `width` by `height` viewport,
    /// reflecting off the edges as a disk of the given radius.
    pub fn step(&mut self, width: i64, height: i64, radius: i64)
        requires
            in_range(old(self)@, width as int, height as int, radius as int),
        ensures
            final(self)@ == step_model(old(self)@, width as int, height as int, radius as int),
    {
        let (x, vx) = reflect_exec(self.x, self.vx, radius, width);
        let (y, vy) = reflect_exec(self.y, self.vy, radius, height);
        self.x = x;
        self.vx = vx;
        self.y = y;
        self.vy = vy;
    }
}

} // verus!
