use vstd::prelude::*;

use crate::disk::{Disk, SUBPIXELS_PER_PIXEL};

verus! {

/// The length in sub-pixel units of a viewport side of `pixels` pixels.
pub open spec fn extent(pixels: u32) -> int {
    pixels as int * SUBPIXELS_PER_PIXEL
}

/// The midpoint of a viewport side of `pixels` pixels, in sub-pixel units.
pub open spec fn midpoint(pixels: u32) -> int {
    extent(pixels) / 2
}

/// The disk with index `i` of a fresh population: at the centre of the
/// viewport, with the `i`th velocity.
pub open spec fn launched(bound_x: u32, bound_y: u32, velocity: (i64, i64)) -> Disk {
    Disk { x: midpoint(bound_x) as i64, y: midpoint(bound_y) as i64, vx: velocity.0, vy: velocity.1 }
}

/// The coordinates of the disks, flattened in order: `[x0, y0, x1, y1, ...]`.
pub open spec fn flat_coords(disks: Seq<Disk>) -> Seq<i64> {
    Seq::new(2 * disks.len(), |k: int| if k % 2 == 0 { disks[k / 2].x } else { disks[k / 2].y })
}

/// Builds a population of `disk_num` disks, all starting at the centre of a
/// `bound_x` by `bound_y` pixel viewport, disk `i` moving with `velocities[i]`.
pub fn init_disks(disk_num: u32, bound_x: u32, bound_y: u32, velocities: &Vec<(i64, i64)>) -> (disks:
    Vec<Disk>)
    requires
        velocities@.len() == disk_num,
    ensures
        disks@.len() == disk_num,
        forall|i: int|
            0 <= i < disks@.len() ==> disks@[i] == launched(bound_x, bound_y, velocities@[i]),
{
    let cx: i64 = bound_x as i64 * SUBPIXELS_PER_PIXEL / 2;
    let cy: i64 = bound_y as i64 * SUBPIXELS_PER_PIXEL / 2;
    let mut disks: Vec<Disk> = Vec::with_capacity(disk_num as usize);
    let mut i: usize = 0;
    while i < velocities.len()
        invariant
            velocities@.len() == disk_num,
            i <= velocities@.len(),
            cx == midpoint(bound_x),
            cy == midpoint(bound_y),
            disks@.len() == i,
            forall|j: int|
                0 <= j < i ==> disks@[j] == launched(bound_x, bound_y, velocities@[j]),
        decreases velocities@.len() - i,
    {
        let (vx, vy) = velocities[i];
        disks.push(Disk::new(cx, cy, vx, vy));
        i = i + 1;
    }
    disks
}

/// The vertex coordinates of the disks, `[x0, y0, x1, y1, ...]` in disk order.
pub fn flatten_coords(disks: &Vec<Disk>) -> (coords: Vec<i64>)
    ensures
        coords@ == flat_coords(disks@),
        coords@.len() == 2 * disks@.len(),
{
    let mut coords: Vec<i64> = Vec::new();
    let mut i: usize = 0;
    while i < disks.len()
        invariant
            i <= disks@.len(),
            coords@.len() == 2 * i,
            forall|k: int|
                0 <= k < 2 * i ==> coords@[k] == (if k % 2 == 0 {
                    disks@[k / 2].x
                } else {
                    disks@[k / 2].y
                }),
        decreases disks@.len() - i,
    {
        coords.push(disks[i].x);
        coords.push(disks[i].y);
        i = i + 1;
    }
    assert(coords@ =~= flat_coords(disks@));
    coords
}

} // verus!
