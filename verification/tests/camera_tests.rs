use raytracer::camera::{sky, trace, Camera, PixelSample};
use raytracer::color::Rgb;
use raytracer::dielectric::Dielectric;
use raytracer::lambert::Lambertian;
use raytracer::material::Surface;
use raytracer::metal::Metal;
use raytracer::ray::Ray;
use raytracer::scalar::{Scalar, ONE_RAW};
use raytracer::sphere::Sphere;
use raytracer::traceable::Traceables;
use raytracer::vector::Vec3;

fn int3(x: i64, y: i64, z: i64) -> Vec3 {
    Vec3::new(Scalar::from_int(x), Scalar::from_int(y), Scalar::from_int(z))
}

fn raw3(x: i64, y: i64, z: i64) -> Vec3 {
    Vec3::new(Scalar::from_raw(x), Scalar::from_raw(y), Scalar::from_raw(z))
}

fn raws(v: Vec3) -> (i64, i64, i64) {
    (v.x().raw(), v.y().raw(), v.z().raw())
}

fn grey() -> Surface {
    let half = Scalar::from_ratio(1, 2);
    Surface::Diffuse(Lambertian::from(Vec3::new(half, half, half)))
}

fn front_camera(width: usize, samples: usize, depth: usize) -> Camera {
    let mut camera = Camera::new();
    camera.aspect_ratio = Scalar::from_ratio(16, 9);
    camera.image_width = width;
    camera.pixel_samples = samples;
    camera.max_depth = depth;
    camera.vfov = Scalar::from_int(90);
    camera.camera_origin = int3(0, 0, 0);
    camera.camera_target = int3(0, 0, -1);
    camera.up_vector = int3(0, 1, 0);
    camera.defocus_angle = Scalar::zero();
    camera.focus_distance = Scalar::one();
    camera
}

fn one_ball() -> Traceables {
    let mut world = Traceables::new();
    world.add(Sphere::from(int3(0, 0, -1), Scalar::from_ratio(1, 2), grey()));
    world
}

fn centre_sample() -> PixelSample {
    PixelSample {
        across: Scalar::from_ratio(1, 2),
        down: Scalar::from_ratio(1, 2),
        lens: Vec3::zero(),
        time: Scalar::zero(),
    }
}

#[test]
fn new_camera_has_the_default_settings() {
    let c = Camera::new();
    assert_eq!(c.aspect_ratio.raw(), ONE_RAW);
    assert_eq!(c.image_width, 100);
    assert_eq!(c.image_height, 0);
    assert_eq!(c.image_dimensions, (0, 0));
    assert_eq!(c.pixel_samples, 10);
    assert_eq!(c.max_depth, 10);
    assert_eq!(c.vfov.raw(), 90 * ONE_RAW);
    assert_eq!(c.defocus_angle.raw(), 0);
    assert_eq!(c.focus_distance.raw(), 0);
    assert_eq!(raws(c.camera_origin), raws(int3(0, 0, -1)));
    assert_eq!(raws(c.camera_target), (0, 0, 0));
    assert_eq!(raws(c.up_vector), raws(int3(0, 1, 0)));
    assert_eq!(raws(c.pixel_origin), (0, 0, 0));
}

#[test]
fn initialize_derives_the_image_height() {
    let mut c = front_camera(400, 1, 1);
    c.initialize();
    assert_eq!(c.image_height, 225);
    assert_eq!(c.image_dimensions, (400, 225));
    assert_eq!(c.image_width, 400);
    let mut wide = front_camera(100, 1, 1);
    wide.aspect_ratio = Scalar::from_int(1000);
    wide.initialize();
    assert_eq!(wide.image_height, 1);
    let mut small = front_camera(4, 1, 1);
    small.aspect_ratio = Scalar::from_ratio(4, 3);
    small.initialize();
    assert_eq!(small.image_height, 3);
    let mut square = Camera::new();
    square.initialize();
    assert_eq!(square.image_height, 100);
}

#[test]
fn initialize_derives_the_frame_and_the_pixel_grid() {
    let mut c = front_camera(400, 1, 1);
    c.initialize();
    assert_eq!(raws(c.center), (0, 0, 0));
    assert_eq!(raws(c.w), raws(int3(0, 0, 1)));
    assert_eq!(raws(c.u), raws(int3(1, 0, 0)));
    assert_eq!(raws(c.v), raws(int3(0, 1, 0)));
    assert_eq!(raws(c.pixel_delta_u), (38177487, 0, 0));
    assert_eq!(raws(c.pixel_delta_v), (0, -38177487, 0));
    assert_eq!(raws(c.pixel_origin), (-7616408668, 4275878551, -4294967296));
    assert_eq!(raws(c.defocus_disc_u), (0, 0, 0));
    assert_eq!(raws(c.defocus_disc_v), (0, 0, 0));
}

#[test]
fn initialize_handles_a_tilted_camera_with_a_lens() {
    let mut c = Camera::new();
    c.aspect_ratio = Scalar::from_ratio(16, 9);
    c.image_width = 1920;
    c.vfov = Scalar::from_int(20);
    c.camera_origin = int3(13, 2, 3);
    c.camera_target = int3(0, 0, 0);
    c.up_vector = int3(0, 1, 0);
    c.defocus_angle = Scalar::from_ratio(6, 10);
    c.focus_distance = Scalar::from_int(10);
    c.initialize();
    assert_eq!(c.image_height, 1080);
    assert_eq!(raws(c.w), (4138734045, 636728314, 955092471));
    assert_eq!(raws(c.u), (965764226, 0, -4184978319));
    assert_eq!(raws(c.v), (-620422463, 4247507635, -143174414));
    assert_eq!(raws(c.pixel_delta_u), (3153523, 0, -13665270));
    assert_eq!(raws(c.pixel_delta_v), (2025874, -13869448, 467509));
    assert_eq!(raws(c.pixel_origin), (10328468975, 9705218680, 16193582552));
    assert_eq!(raws(c.defocus_disc_u), (50567757, 0, -219126948));
    assert_eq!(raws(c.defocus_disc_v), (-32485540, 222401005, -7496663));
    let sample = PixelSample {
        across: Scalar::from_ratio(1, 4),
        down: Scalar::from_ratio(3, 4),
        lens: Vec3::new(Scalar::from_ratio(1, 2), Scalar::from_ratio(-1, 4), Scalar::zero()),
        time: Scalar::from_ratio(1, 8),
    };
    let r = c.ray_through(5, 7, &sample);
    assert_eq!(raws(r.origin()), (55867980111, 8534334341, 12777212579));
    assert_eq!(raws(r.direction()), (-45509844315, 1070330841, 3354849380));
    assert_eq!(r.time().raw(), ONE_RAW / 8);
}

#[test]
fn ray_through_the_middle_of_a_pixel() {
    let mut c = front_camera(400, 1, 1);
    c.initialize();
    let r = c.ray_through(0, 0, &centre_sample());
    assert_eq!(raws(r.origin()), (0, 0, 0));
    assert_eq!(raws(r.direction()), (-7616408668, 4275878551, -4294967296));
    let mut s = centre_sample();
    s.time = Scalar::from_ratio(1, 4);
    let m = c.ray_through(200, 112, &s);
    assert_eq!(raws(m.direction()), (19088732, 7, -4294967296));
    assert_eq!(m.time().raw(), ONE_RAW / 4);
}

#[test]
fn pixel_offset_spans_the_pixel() {
    let mut c = front_camera(400, 1, 1);
    c.initialize();
    assert_eq!(raws(c.pixel_offset(Scalar::from_ratio(1, 2), Scalar::from_ratio(1, 2))), (0, 0, 0));
    let corner = c.pixel_offset(Scalar::zero(), Scalar::zero());
    assert_eq!(raws(corner), (-19088743, 19088743, 0));
    for _ in 0..100 {
        let o = c.pixel_sample_square();
        assert!(o.x().raw().abs() <= 19088744 && o.y().raw().abs() <= 19088744);
        assert_eq!(o.z().raw(), 0);
    }
}

#[test]
fn lens_point_is_the_centre_without_a_lens() {
    let mut c = front_camera(400, 1, 1);
    c.initialize();
    let p = Vec3::new(Scalar::from_ratio(1, 2), Scalar::from_ratio(1, 2), Scalar::zero());
    assert_eq!(raws(c.lens_point(&p)), (0, 0, 0));
    assert_eq!(raws(c.sample_defocus_disc()), (0, 0, 0));
}

#[test]
fn get_ray_stays_within_its_pixel() {
    let mut c = front_camera(400, 1, 1);
    c.initialize();
    for _ in 0..100 {
        let r = c.get_ray(200, 112);
        assert_eq!(raws(r.origin()), (0, 0, 0));
        let d = r.direction();
        assert!((d.x().raw() - 19088732).abs() <= 19088745);
        assert!((d.y().raw() - 7).abs() <= 19088745);
        assert_eq!(d.z().raw(), -ONE_RAW);
        assert!(r.time().raw() >= 0 && r.time().raw() < ONE_RAW);
    }
}

#[test]
fn get_ray_starts_on_the_lens() {
    let mut c = front_camera(400, 1, 1);
    c.defocus_angle = Scalar::from_int(10);
    c.initialize();
    let radius = c.defocus_disc_u.x().raw();
    assert!(radius > 0);
    let mut off_centre = false;
    for _ in 0..100 {
        let r = c.get_ray(10, 20);
        let o = r.origin();
        assert!(o.x().raw().abs() <= radius && o.y().raw().abs() <= radius);
        assert_eq!(o.z().raw(), 0);
        if o.x().raw() != 0 || o.y().raw() != 0 {
            off_centre = true;
        }
    }
    assert!(off_centre);
}

#[test]
fn sky_is_white_below_and_blue_above() {
    let up = Ray::from(int3(0, 0, 0), int3(0, 1, 0), Scalar::zero());
    assert_eq!(raws(sky(&up)), (2147483648, 3006477107, 4294967296));
    let down = Ray::from(int3(0, 0, 0), int3(0, -1, 0), Scalar::zero());
    assert_eq!(raws(sky(&down)), (ONE_RAW, ONE_RAW, ONE_RAW));
    let forward = Ray::from(int3(0, 0, 0), int3(0, 0, -1), Scalar::zero());
    assert_eq!(raws(sky(&forward)), (3221225472, 3650722201, 4294967296));
    let diagonal = Ray::from(int3(5, 5, 5), int3(1, 2, -2), Scalar::zero());
    assert_eq!(raws(sky(&diagonal)), (2505397589, 3221225471, 4294967296));
}

#[test]
fn depth_zero_is_black() {
    let world = one_ball();
    let rays = [
        Ray::from(int3(0, 0, 0), int3(0, 0, -1), Scalar::zero()),
        Ray::from(int3(0, 0, 0), int3(0, 1, 0), Scalar::zero()),
    ];
    for r in rays.iter() {
        assert_eq!(raws(Camera::get_ray_color(r, 0, &world)), (0, 0, 0));
        let (color, scatters) = trace(r, 0, &world);
        assert_eq!(raws(color), (0, 0, 0));
        assert_eq!(scatters, 0);
    }
    assert_eq!(raws(Camera::get_ray_color(&rays[0], 0, &Traceables::new())), (0, 0, 0));
}

#[test]
fn scatter_count_never_exceeds_the_depth() {
    let mut world = Traceables::new();
    let mirror = Surface::Reflective(Metal::from(int3(1, 1, 1), Scalar::zero()));
    world.add(Sphere::from(int3(0, 0, -2), Scalar::one(), mirror));
    world.add(Sphere::from(int3(0, 0, 2), Scalar::one(), mirror));
    world.add(Sphere::from(int3(0, -102, 0), Scalar::from_int(100), grey()));
    let glass = Surface::Refractive(Dielectric::from(Scalar::from_ratio(3, 2)));
    world.add(Sphere::from(int3(3, 0, 0), Scalar::one(), glass));
    let between = Ray::from(int3(0, 0, 0), int3(0, 0, -1), Scalar::zero());
    for depth in 0..12 {
        let (_, scatters) = trace(&between, depth, &world);
        assert_eq!(scatters, depth);
    }
    let directions = [int3(1, 0, 0), int3(1, -1, 0), int3(0, -1, 0), int3(1, -1, 1), int3(0, 1, 0)];
    for d in directions.iter() {
        for depth in 0..8 {
            let (_, scatters) = trace(&Ray::from(int3(0, 0, 0), *d, Scalar::zero()), depth, &world);
            assert!(scatters <= depth);
        }
    }
}

#[test]
fn mirrors_pass_the_sky_on_unchanged() {
    let mut world = Traceables::new();
    let mirror = Surface::Reflective(Metal::from(int3(1, 1, 1), Scalar::zero()));
    world.add(Sphere::from(int3(0, 0, -2), Scalar::one(), mirror));
    let r = Ray::from(int3(0, 0, 0), int3(0, 0, -1), Scalar::zero());
    let (color, scatters) = trace(&r, 5, &world);
    assert_eq!(scatters, 1);
    let back = Ray::from(int3(0, 0, -1), int3(0, 0, 1), Scalar::zero());
    assert_eq!(raws(color), raws(sky(&back)));
    let tinted = Surface::Reflective(Metal::from(
        Vec3::new(Scalar::from_ratio(1, 2), Scalar::one(), Scalar::zero()),
        Scalar::zero(),
    ));
    let mut other = Traceables::new();
    other.add(Sphere::from(int3(0, 0, -2), Scalar::one(), tinted));
    let (half, _) = trace(&r, 5, &other);
    let full = sky(&back);
    assert_eq!(raws(half), (full.x().raw() / 2, full.y().raw(), 0));
}

#[test]
fn surface_that_passes_nothing_on_is_black() {
    let mut world = Traceables::new();
    let rough = Surface::Reflective(Metal::from(int3(1, 1, 1), Scalar::one()));
    world.add(Sphere::from(int3(0, 0, -2), Scalar::one(), rough));
    let grazing = Ray::from(
        Vec3::new(Scalar::from_ratio(999, 1000), Scalar::zero(), Scalar::zero()),
        int3(0, 0, -1),
        Scalar::zero(),
    );
    let mut black = 0;
    for _ in 0..200 {
        let (color, scatters) = trace(&grazing, 3, &world);
        if scatters == 0 {
            assert_eq!(raws(color), (0, 0, 0));
            black += 1;
        }
    }
    assert!(black > 0);
}

#[test]
fn empty_scene_shows_the_sky_gradient() {
    let world = Traceables::new();
    let targets = [int3(0, 0, -1), int3(3, -1, 2), int3(-5, 7, 0), int3(0, -1, 0), int3(1, 1, 1)];
    for t in targets.iter() {
        let mut c = front_camera(40, 1, 5);
        c.camera_target = *t;
        c.up_vector = int3(0, 1, 1);
        c.initialize();
        for &(i, j) in [(0usize, 0usize), (39, 0), (0, 21), (39, 21), (20, 11)].iter() {
            let r = c.get_ray(i, j);
            let (color, scatters) = trace(&r, c.max_depth, &world);
            assert_eq!(raws(color), raws(sky(&r)));
            assert_eq!(scatters, 0);
            assert_eq!(raws(Camera::get_ray_color(&r, 1, &world)), raws(sky(&r)));
        }
    }
}

#[test]
fn single_sphere_covers_the_centre_and_not_the_corners() {
    let world = one_ball();
    let mut c = front_camera(400, 1, 1);
    c.initialize();
    assert_eq!(c.image_height, 225);
    for j in 80..145 {
        let r = c.get_ray(200, j);
        let (color, scatters) = trace(&r, c.max_depth, &world);
        assert_eq!(scatters, 1);
        assert_eq!(raws(color), (0, 0, 0));
        assert_ne!(raws(color), raws(sky(&r)));
    }
    for &(i, j) in [(0usize, 0usize), (399, 0), (0, 224), (399, 224)].iter() {
        let r = c.get_ray(i, j);
        let (color, scatters) = trace(&r, c.max_depth, &world);
        assert_eq!(scatters, 0);
        assert_eq!(raws(color), raws(sky(&r)));
        let fixed = c.ray_through(i, j, &centre_sample());
        assert_eq!(raws(Camera::get_ray_color(&fixed, 1, &world)), raws(sky(&fixed)));
        assert_ne!(c.render_pixel(&world, i, j), Rgb { r: 0, g: 0, b: 0 });
    }
    assert_eq!(c.render_pixel(&world, 200, 112), Rgb { r: 0, g: 0, b: 0 });
    let row = c.scanline(&world, 112);
    assert_eq!(row.len(), 400);
    assert_eq!(row[200], Rgb { r: 0, g: 0, b: 0 });
    assert_ne!(row[0], Rgb { r: 0, g: 0, b: 0 });
    assert_ne!(row[399], Rgb { r: 0, g: 0, b: 0 });
}

#[test]
fn pixel_color_sums_the_samples() {
    let world = Traceables::new();
    let mut c = front_camera(40, 8, 3);
    c.initialize();
    let total = c.pixel_color(&world, 20, 11);
    assert_eq!(total.z().raw(), 8 * ONE_RAW);
    assert!(total.x().raw() > 4 * ONE_RAW && total.x().raw() < 8 * ONE_RAW);
    let none = front_camera(40, 0, 3);
    assert_eq!(raws(none.pixel_color(&world, 0, 0)), (0, 0, 0));
    let p = c.render_pixel(&world, 20, 11);
    assert_eq!(p.b, 255);
    assert!(p.r > 200 && p.g > p.r);
}

fn check_ppm(text: &str, width: usize, height: usize) {
    let lines: Vec<&str> = text.split('\n').collect();
    assert_eq!(lines[0], "P3");
    assert_eq!(lines[1], format!("{} {}", width, height));
    assert_eq!(lines[2], "255");
    assert_eq!(lines.len(), 3 + width * height + 1);
    assert_eq!(lines[lines.len() - 1], "");
    for line in lines[3..lines.len() - 1].iter() {
        let parts: Vec<&str> = line.split(' ').collect();
        assert_eq!(parts.len(), 3);
        for p in parts.iter() {
            let v: u32 = p.parse().unwrap();
            assert!(v <= 255);
            assert_eq!(v.to_string(), *p);
        }
    }
}

#[test]
fn four_by_three_image_has_header_and_twelve_pixels() {
    let mut c = front_camera(4, 3, 4);
    c.aspect_ratio = Scalar::from_ratio(4, 3);
    let text = c.render(&one_ball());
    assert_eq!(c.image_height, 3);
    check_ppm(&text, 4, 3);
    let mut busy = Traceables::new();
    busy.add(Sphere::from(int3(0, -101, -1), Scalar::from_int(100), grey()));
    busy.add(Sphere::from(
        int3(0, 0, -1),
        Scalar::from_ratio(1, 2),
        Surface::Refractive(Dielectric::from(Scalar::from_ratio(3, 2))),
    ));
    busy.add(Sphere::from(
        int3(1, 0, -1),
        Scalar::from_ratio(1, 2),
        Surface::Reflective(Metal::from(int3(1, 1, 1), Scalar::from_ratio(3, 10))),
    ));
    let mut d = front_camera(4, 5, 6);
    d.aspect_ratio = Scalar::from_ratio(4, 3);
    d.defocus_angle = Scalar::from_int(2);
    check_ppm(&d.render(&busy), 4, 3);
    let mut e = front_camera(4, 1, 0);
    e.aspect_ratio = Scalar::from_ratio(4, 3);
    assert_eq!(e.render(&Traceables::new()), format!("P3\n4 3\n255\n{}", "0 0 0\n".repeat(12)));
}

#[test]
fn rows_come_out_from_top_to_bottom() {
    let mut c = front_camera(16, 4, 2);
    let text = c.render(&Traceables::new());
    assert_eq!(c.image_height, 9);
    check_ppm(&text, 16, 9);
    let lines: Vec<&str> = text.split('\n').collect();
    let red = |k: usize| -> u32 { lines[3 + k].split(' ').next().unwrap().parse().unwrap() };
    for i in 0..16 {
        assert!(red(i) < red(8 * 16 + i));
    }
}

#[test]
fn render_initializes_the_camera() {
    let mut c = front_camera(8, 1, 1);
    let _ = c.render(&Traceables::new());
    assert_eq!(c.image_height, 4);
    assert_eq!(c.image_dimensions, (8, 4));
    assert_eq!(raws(c.w), raws(int3(0, 0, 1)));
    let mut again = front_camera(8, 1, 1);
    again.initialize();
    assert_eq!(raws(c.pixel_origin), raws(again.pixel_origin));
    assert_eq!(raws(c.pixel_delta_u), raws(again.pixel_delta_u));
    let _ = raw3(0, 0, 0);
}

#[test]
fn colours_stay_fractions_in_a_scene_that_gains_no_light() {
    let mut world = Traceables::new();
    world.add(Sphere::from(int3(0, -101, -1), Scalar::from_int(100), grey()));
    world.add(Sphere::from(
        int3(0, 0, -1),
        Scalar::from_ratio(1, 2),
        Surface::Refractive(Dielectric::from(Scalar::from_ratio(3, 2))),
    ));
    world.add(Sphere::from(
        int3(0, 0, -1),
        Scalar::from_ratio(-2, 5),
        Surface::Refractive(Dielectric::from(Scalar::from_ratio(3, 2))),
    ));
    world.add(Sphere::from(
        int3(1, 0, -1),
        Scalar::from_ratio(1, 2),
        Surface::Reflective(Metal::from(int3(1, 1, 1), Scalar::from_ratio(3, 10))),
    ));
    world.add(Sphere::new_in_motion(
        int3(-1, 0, -1),
        Vec3::new(Scalar::from_int(-1), Scalar::from_ratio(1, 2), Scalar::from_int(-1)),
        Scalar::from_ratio(1, 2),
        Surface::Diffuse(Lambertian::from(int3(1, 0, 1))),
    ));
    let mut c = front_camera(24, 1, 20);
    c.defocus_angle = Scalar::from_int(1);
    c.initialize();
    for j in 0..c.image_height {
        for i in 0..c.image_width {
            let r = c.get_ray(i, j);
            let color = Camera::get_ray_color(&r, c.max_depth, &world);
            for channel in [color.x(), color.y(), color.z()] {
                assert!(channel.raw() >= 0 && channel.raw() <= ONE_RAW);
            }
        }
    }
}

#[test]
fn matte_sphere_is_darker_underneath() {
    let mut world = Traceables::new();
    world.add(Sphere::from(int3(0, 0, -1), Scalar::from_ratio(1, 2), grey()));
    world.add(Sphere::from(int3(0, -1001, -1), Scalar::from_int(1000), grey()));
    let mut c = front_camera(32, 4000, 16);
    c.initialize();
    assert_eq!(c.image_height, 18);
    let top = c.render_pixel(&world, 16, 6);
    let bottom = c.render_pixel(&world, 16, 13);
    assert!(top.r >= bottom.r + 8, "top {:?} bottom {:?}", top, bottom);
    assert!(top.r > 100 && top.r < 160, "top {:?}", top);
    let sky_pixel = c.render_pixel(&world, 1, 3);
    assert!(sky_pixel.b == 255 && sky_pixel.r > 190, "sky {:?}", sky_pixel);
    let ground = c.render_pixel(&world, 1, 12);
    assert!(ground.r > 110 && ground.r < 170, "ground {:?}", ground);
    assert!(ground.b > ground.g && ground.g > ground.r, "ground {:?}", ground);
}
