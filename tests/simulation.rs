use bouncing_disks::colors::{random_colors, COLOR_LEVELS};
use bouncing_disks::disk::{Disk, SUBPIXELS_PER_PIXEL};
use bouncing_disks::disk_set::{flatten_coords, init_disks};
use bouncing_disks::greeting::greeting;
use bouncing_disks::screen::{Config, Options, Screen, SetupError};

fn config(disk_num: u32) -> Config {
    Options {
        canvas_id: String::from("canvas"),
        disk_num: Some(disk_num),
        width: None,
        height: None,
        disk_size: None,
        collision: None,
    }
    .resolve()
}

fn fan(n: u32) -> Vec<(i64, i64)> {
    (0..n as i64).map(|i| ((i % 9 - 4) * 1000 + 17, (i % 7 - 3) * 1300 - 5)).collect()
}

#[test]
fn reflects_off_left_wall() {
    let mut d = Disk::new(10, 250, -8, 0);
    d.step(500, 500, 15);
    assert_eq!(d, Disk::new(28, 250, 8, 0));
}

#[test]
fn reflects_off_right_and_bottom_walls_in_one_tick() {
    let mut d = Disk::new(480, 490, 10, 7);
    d.step(500, 500, 15);
    // x: 490 + 15 > 500, mirrored to 500 - 5 - 15 = 480; y: 497 + 15 > 500, to 500 - 12 - 15 = 473
    assert_eq!(d, Disk::new(480, 473, -10, -7));
}

#[test]
fn moves_freely_away_from_walls() {
    let mut d = Disk::new(100, 200, 3, -4);
    d.step(500, 500, 15);
    assert_eq!(d, Disk::new(103, 196, 3, -4));
}

#[test]
fn flattened_coords_follow_disk_order() {
    let v = fan(100);
    let disks = init_disks(100, 500, 400, &v);
    assert_eq!(disks.len(), 100);
    let coords = flatten_coords(&disks);
    assert_eq!(coords.len(), 200);
    for (i, d) in disks.iter().enumerate() {
        assert_eq!(coords[2 * i], d.x);
        assert_eq!(coords[2 * i + 1], d.y);
        assert_eq!(d.x, 250 * SUBPIXELS_PER_PIXEL);
        assert_eq!(d.y, 200 * SUBPIXELS_PER_PIXEL);
        assert_eq!((d.vx, d.vy), v[i]);
    }
}

#[test]
fn empty_population_draws_nothing() {
    let mut s = Screen::new(&config(0), &Vec::new()).unwrap();
    assert_eq!(s.disks().len(), 0);
    assert_eq!(s.colors().len(), 0);
    let frame = s.do_frame();
    assert_eq!(frame.vertex_count, 0);
    assert!(frame.coords.is_empty());
}

#[test]
fn colors_are_three_per_disk_and_never_change() {
    let mut s = Screen::new(&config(100), &fan(100)).unwrap();
    let colors = s.colors().clone();
    assert_eq!(colors.len(), 300);
    assert!(colors.iter().all(|&c| c < COLOR_LEVELS));
    for _ in 0..50 {
        s.do_frame();
    }
    assert_eq!(s.colors(), &colors);
}

#[test]
fn random_colors_are_drawn() {
    let colors = random_colors(100);
    assert_eq!(colors.len(), 300);
    assert!(colors.iter().any(|&c| c != colors[0]));
    let as_intensity = colors.iter().map(|&c| c as f64 / COLOR_LEVELS as f64);
    assert!(as_intensity.clone().all(|f| (0.0..1.0).contains(&f)));
}

#[test]
fn disks_stay_inside_over_many_frames() {
    let c = config(100);
    let mut s = Screen::new(&c, &fan(100)).unwrap();
    let w = c.width as i64 * SUBPIXELS_PER_PIXEL;
    let h = c.height as i64 * SUBPIXELS_PER_PIXEL;
    let r = c.disk_size as i64;
    for _ in 0..2000 {
        let frame = s.do_frame();
        assert_eq!(frame.coords.len(), 200);
        assert_eq!(frame.vertex_count, 100);
        assert_eq!(frame.point_size, c.disk_size);
        for d in s.disks() {
            assert!(r <= d.x && d.x <= w - r);
            assert!(r <= d.y && d.y <= h - r);
        }
    }
}

#[test]
fn speed_is_kept_across_frames() {
    let v = fan(30);
    let mut s = Screen::new(&config(30), &v).unwrap();
    for _ in 0..1000 {
        s.do_frame();
    }
    for (d, (vx, vy)) in s.disks().iter().zip(v.iter()) {
        assert_eq!(d.vx.abs(), vx.abs());
        assert_eq!(d.vy.abs(), vy.abs());
        assert_eq!(d.vx * d.vx + d.vy * d.vy, vx * vx + vy * vy);
    }
}

#[test]
fn resting_disk_stays_at_centre() {
    let mut s = Screen::new(&config(1), &vec![(0, 0)]).unwrap();
    let start = s.disks()[0];
    assert_eq!(start, Disk::new(250 * SUBPIXELS_PER_PIXEL, 250 * SUBPIXELS_PER_PIXEL, 0, 0));
    for _ in 0..100 {
        let frame = s.do_frame();
        assert_eq!(frame.coords, vec![start.x, start.y]);
    }
    assert_eq!(s.disks()[0], start);
}

#[test]
fn defaults_fill_absent_options() {
    let c = config(7);
    assert_eq!(c.canvas_id, "canvas");
    assert_eq!(c.disk_num, 7);
    assert_eq!((c.width, c.height), (500, 500));
    assert_eq!(c.disk_size as i64, 32 * SUBPIXELS_PER_PIXEL);
    assert!(!c.collision);
    let all = Options {
        canvas_id: String::from("x"),
        disk_num: None,
        width: Some(640),
        height: Some(480),
        disk_size: Some(2048),
        collision: Some(true),
    }
    .resolve();
    assert_eq!(all.disk_num, 100);
    assert_eq!((all.width, all.height, all.disk_size, all.collision), (640, 480, 2048, true));
}

#[test]
fn screen_keeps_its_configuration() {
    let c = config(3);
    let s = Screen::new(&c, &fan(3)).unwrap();
    assert_eq!((s.width(), s.height(), s.disk_num(), s.disk_size()), (500, 500, 3, 32768));
}

#[test]
fn wrong_velocity_count_is_refused() {
    assert_eq!(Screen::new(&config(3), &fan(2)).err(), Some(SetupError::VelocityCount));
}

#[test]
fn disk_larger_than_viewport_is_refused() {
    let mut c = config(1);
    c.width = 40;
    assert_eq!(Screen::new(&c, &vec![(1, 1)]).err(), Some(SetupError::DiskDoesNotFit));
    c.width = 500;
    let too_fast = (500 - 64) * SUBPIXELS_PER_PIXEL + 1;
    assert_eq!(Screen::new(&c, &vec![(too_fast, 0)]).err(), Some(SetupError::DiskDoesNotFit));
    assert!(Screen::new(&c, &vec![(too_fast - 1, 0)]).is_ok());
}

#[test]
fn greeting_prefixes_hello() {
    assert_eq!(greeting("world"), "Hello world");
    assert_eq!(greeting(""), "Hello ");
}
