use vstd::prelude::*;

use crate::colors::{random_colors, COLOR_LEVELS};
use crate::disk::{contained, lemma_step_stays_inside, step_model, Disk, SUBPIXELS_PER_PIXEL};
use crate::disk_set::{extent, flat_coords, flatten_coords, init_disks, launched, midpoint};

verus! {

pub const DEFAULT_DISK_NUM: u32 = 100;

pub const DEFAULT_WIDTH: u32 = 500;

pub const DEFAULT_HEIGHT: u32 = 500;

/// 32 pixels, in sub-pixel units.
pub const DEFAULT_DISK_SIZE: u32 = 32768;

/// Start-up options as the host hands them over; absent fields take defaults.
pub struct Options {
    pub canvas_id: String,
    pub disk_num: Option<u32>,
    pub width: Option<u32>,
    pub height: Option<u32>,
    /// Disk radius in sub-pixel units.
    pub disk_size: Option<u32>,
    /// Reserved: disks do not collide with each other.
    pub collision: Option<bool>,
}

/// Options with every default filled in.
pub struct Config {
    pub canvas_id: String,
    pub disk_num: u32,
    /// Viewport width in pixels.
    pub width: u32,
    /// Viewport height in pixels.
    pub height: u32,
    /// Disk radius in sub-pixel units.
    pub disk_size: u32,
    pub collision: bool,
}

pub open spec fn or_default<T>(o: Option<T>, default: T) -> T {
    match o {
        Some(v) => v,
        None => default,
    }
}

fn u32_or(o: Option<u32>, default: u32) -> (r: u32)
    ensures
        r == or_default(o, default),
{
    match o {
        Some(v) => v,
        None => default,
    }
}

impl Options {
    /// Fills in the defaults: 100 disks, a 500 by 500 viewport, a radius of
    /// 32 pixels, no collision.
    pub fn resolve(self) -> (c: Config)
        ensures
            c.canvas_id@ == self.canvas_id@,
            c.disk_num == or_default(self.disk_num, DEFAULT_DISK_NUM),
            c.width == or_default(self.width, DEFAULT_WIDTH),
            c.height == or_default(self.height, DEFAULT_HEIGHT),
            c.disk_size == or_default(self.disk_size, DEFAULT_DISK_SIZE),
            c.collision == or_default(self.collision, false),
    {
        let collision = match self.collision {
            Some(b) => b,
            None => false,
        };
        Config {
            canvas_id: self.canvas_id,
            disk_num: u32_or(self.disk_num, DEFAULT_DISK_NUM),
            width: u32_or(self.width, DEFAULT_WIDTH),
            height: u32_or(self.height, DEFAULT_HEIGHT),
            disk_size: u32_or(self.disk_size, DEFAULT_DISK_SIZE),
            collision,
        }
    }
}

/// Why a screen could not be set up.
#[derive(Clone, Copy, Debug, PartialEq, Eq, Structural)]
pub enum SetupError {
    /// The number of initial velocities differs from the number of disks.
    VelocityCount,
    /// A disk at the centre does not fit in the viewport, or one of its
    /// velocity components exceeds the room it has to move in.
    DiskDoesNotFit,
}

/// What the renderer needs for one frame.
pub struct Frame {
    /// `[x0, y0, x1, y1, ...]` in sub-pixel units, in disk order.
    pub coords: Vec<i64>,
    /// The number of points to draw.
    pub vertex_count: u32,
    /// The point-sprite size, in sub-pixel units.
    pub point_size: u32,
}

/// The simulated scene: a fixed population of disks in a viewport, and the
/// colour of each disk.
pub struct Screen {
    width: u32,
    height: u32,
    disk_num: u32,
    disk_size: u32,
    disks: Vec<Disk>,
    colors: Vec<u32>,
}

pub struct ScreenView {
    pub width: u32,
    pub height: u32,
    pub disk_num: u32,
    pub disk_size: u32,
    pub disks: Seq<Disk>,
    pub colors: Seq<u32>,
}

impl View for Screen {
    type V = ScreenView;

    closed spec fn view(&self) -> ScreenView {
        ScreenView {
            width: self.width,
            height: self.height,
            disk_num: self.disk_num,
            disk_size: self.disk_size,
            disks: self.disks@,
            colors: self.colors@,
        }
    }
}

/// Disk `d` stays within the screen's viewport from now on.
pub open spec fn disk_contained(s: ScreenView, d: Disk) -> bool {
    contained(d@, extent(s.width), extent(s.height), s.disk_size as int)
}

/// The colours hold three levels per disk, each below `COLOR_LEVELS`.
pub open spec fn colors_ok(s: ScreenView) -> bool {
    &&& s.colors.len() == 3 * s.disk_num
    &&& forall|k: int| 0 <= k < s.colors.len() ==> s.colors[k] < COLOR_LEVELS
}

/// Whether every disk of `velocities` fits when launched from the centre.
pub open spec fn launches_fit(c: Config, velocities: Seq<(i64, i64)>) -> bool {
    forall|i: int|
        0 <= i < velocities.len() ==> contained(
            launched(c.width, c.height, velocities[i])@,
            extent(c.width),
            extent(c.height),
            c.disk_size as int,
        )
}

fn launch_fits(c: &Config, velocity: (i64, i64)) -> (r: bool)
    ensures
        r == contained(
            launched(c.width, c.height, velocity)@,
            extent(c.width),
            extent(c.height),
            c.disk_size as int,
        ),
{
    let w: i64 = c.width as i64 * SUBPIXELS_PER_PIXEL;
    let h: i64 = c.height as i64 * SUBPIXELS_PER_PIXEL;
    let r: i64 = c.disk_size as i64;
    let cx: i64 = w / 2;
    let cy: i64 = h / 2;
    let (vx, vy) = velocity;
    if vx == i64::MIN || vy == i64::MIN {
        return false;
    }
    let ax: i64 = if vx < 0 { -vx } else { vx };
    let ay: i64 = if vy < 0 { -vy } else { vy };
    r <= cx && cx <= w - r && r <= cy && cy <= h - r && ax <= w - 2 * r && ay <= h - 2 * r
}

impl Screen {
    /// Every disk stays inside the viewport from now on, and the colours are
    /// well formed.
    pub open spec fn wf(&self) -> bool {
        &&& self@.disks.len() == self@.disk_num
        &&& forall|i: int| 0 <= i < self@.disks.len() ==> disk_contained(self@, self@.disks[i])
        &&& colors_ok(self@)
    }

    /// The screen one tick later: every disk advanced by `step_model`, the
    /// rest unchanged.
    pub open spec fn ticked(old_view: ScreenView, new_view: ScreenView) -> bool {
        &&& new_view.width == old_view.width
        &&& new_view.height == old_view.height
        &&& new_view.disk_num == old_view.disk_num
        &&& new_view.disk_size == old_view.disk_size
        &&& new_view.colors == old_view.colors
        &&& new_view.disks.len() == old_view.disks.len()
        &&& forall|i: int|
            0 <= i < new_view.disks.len() ==> new_view.disks[i]@ == step_model(
                old_view.disks[i]@,
                extent(old_view.width),
                extent(old_view.height),
                old_view.disk_size as int,
            )
    }

    /// Advances every disk by one tick, reflecting off the viewport edges.
    fn on_animation_frame(&mut self)
        requires
            old(self).wf(),
        ensures
            final(self).wf(),
            Self::ticked(old(self)@, final(self)@),
    {
        let w: i64 = self.width as i64 * SUBPIXELS_PER_PIXEL;
        let h: i64 = self.height as i64 * SUBPIXELS_PER_PIXEL;
        let r: i64 = self.disk_size as i64;
        let ghost before = self@;
        let mut i: usize = 0;
        while i < self.disks.len()
            invariant
                before.disks.len() == before.disk_num,
                forall|j: int| 0 <= j < before.disks.len() ==> disk_contained(before, before.disks[j]),
                colors_ok(before),
                w == extent(before.width),
                h == extent(before.height),
                r == before.disk_size,
                i <= self@.disks.len(),
                self@.width == before.width,
                self@.height == before.height,
                self@.disk_num == before.disk_num,
                self@.disk_size == before.disk_size,
                self@.colors == before.colors,
                self@.disks.len() == before.disks.len(),
                forall|j: int|
                    0 <= j < i ==> self@.disks[j]@ == step_model(
                        before.disks[j]@,
                        extent(before.width),
                        extent(before.height),
                        before.disk_size as int,
                    ),
                forall|j: int| i <= j < self@.disks.len() ==> self@.disks[j] == before.disks[j],
            decreases self@.disks.len() - i,
        {
            let mut d = self.disks[i];
            proof {
                assert(disk_contained(before, before.disks[i as int]));
                lemma_step_stays_inside(d@, w as int, h as int, r as int);
            }
            d.step(w, h, r);
            self.disks.set(i, d);
            i = i + 1;
        }
        assert forall|j: int| 0 <= j < self@.disks.len() implies disk_contained(
            self@,
            self@.disks[j],
        ) by {
            lemma_step_stays_inside(before.disks[j]@, w as int, h as int, r as int);
        }
    }

    /// Runs one tick of the simulation and returns what the renderer draws:
    /// the updated coordinates in disk order, one point per disk, at the disk
    /// size. The colours are left as they are.
    pub fn do_frame(&mut self) -> (frame: Frame)
        requires
            old(self).wf(),
        ensures
            final(self).wf(),
            Self::ticked(old(self)@, final(self)@),
            frame.coords@ == flat_coords(final(self)@.disks),
            frame.coords@.len() == 2 * old(self)@.disk_num,
            frame.vertex_count == old(self)@.disk_num,
            frame.point_size == old(self)@.disk_size,
    {
        self.on_animation_frame();
        let coords = flatten_coords(&self.disks);
        Frame { coords, vertex_count: self.disk_num, point_size: self.disk_size }
    }

    /// Sets up the scene: `config.disk_num` disks at the centre of the
    /// viewport, disk `i` moving with `velocities[i]`, and freshly drawn
    /// colours.
    pub fn new(config: &Config, velocities: &Vec<(i64, i64)>) -> (res: Result<Screen, SetupError>)
        ensures
            velocities@.len() != config.disk_num ==> res == Err::<Screen, SetupError>(
                SetupError::VelocityCount,
            ),
            velocities@.len() == config.disk_num && !launches_fit(*config, velocities@) ==> res
                == Err::<Screen, SetupError>(SetupError::DiskDoesNotFit),
            velocities@.len() == config.disk_num && launches_fit(*config, velocities@)
                ==> res.is_ok(),
            res matches Ok(s) ==> {
                &&& s.wf()
                &&& s@.width == config.width
                &&& s@.height == config.height
                &&& s@.disk_num == config.disk_num
                &&& s@.disk_size == config.disk_size
                &&& s@.disks.len() == velocities@.len()
                &&& forall|i: int|
                    0 <= i < s@.disks.len() ==> s@.disks[i] == launched(
                        config.width,
                        config.height,
                        velocities@[i],
                    )
            },
    {
        if velocities.len() != config.disk_num as usize {
            return Err(SetupError::VelocityCount);
        }
        let mut i: usize = 0;
        while i < velocities.len()
            invariant
                velocities@.len() == config.disk_num,
                i <= velocities@.len(),
                forall|j: int|
                    0 <= j < i ==> contained(
                        launched(config.width, config.height, velocities@[j])@,
                        extent(config.width),
                        extent(config.height),
                        config.disk_size as int,
                    ),
            decreases velocities@.len() - i,
        {
            if !launch_fits(config, velocities[i]) {
                return Err(SetupError::DiskDoesNotFit);
            }
            i = i + 1;
        }
        let disks = init_disks(config.disk_num, config.width, config.height, velocities);
        let colors = random_colors(config.disk_num);
        Ok(
            Screen {
                width: config.width,
                height: config.height,
                disk_num: config.disk_num,
                disk_size: config.disk_size,
                disks,
                colors,
            },
        )
    }
    pub fn width(&self) -> (r: u32)
        ensures
            r == self@.width,
    {
        self.width
    }

    pub fn height(&self) -> (r: u32)
        ensures
            r == self@.height,
    {
        self.height
    }

    pub fn disk_num(&self) -> (r: u32)
        ensures
            r == self@.disk_num,
    {
        self.disk_num
    }

    pub fn disk_size(&self) -> (r: u32)
        ensures
            r == self@.disk_size,
    {
        self.disk_size
    }

    pub fn disks(&self) -> (r: &Vec<Disk>)
        ensures
            r@ == self@.disks,
    {
        &self.disks
    }

    /// The static colours: red, green and blue levels of disk `i` at
    /// `3 * i`, `3 * i + 1` and `3 * i + 2`.
    pub fn colors(&self) -> (r: &Vec<u32>)
        ensures
            r@ == self@.colors,
    {
        &self.colors
    }
}

} // verus!
