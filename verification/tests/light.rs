use raytracer::float::Float;
use raytracer::geometry::{Normal3, Point3f, Vec3f};
use raytracer::interaction::SurfaceHit;
use raytracer::light::point::PointLight;
use raytracer::light::{LiSample, LightFlags, VisibilityTester};
use raytracer::spectrum::Spectrum;

fn f(x: f32) -> Float {
    Float::from_bits(x.to_bits())
}

fn v(x: Float) -> f32 {
    f32::from_bits(x.to_bits())
}

fn vec3(x: f32, y: f32, z: f32) -> Vec3f {
    Vec3f::new(f(x), f(y), f(z))
}

fn hit_at(x: f32, y: f32, z: f32, time: f32) -> SurfaceHit {
    SurfaceHit {
        p: Point3f::new(f(x), f(y), f(z)),
        p_err: vec3(1.0e-6, 1.0e-6, 1.0e-6),
        time: f(time),
        n: Normal3(vec3(0.0, 0.0, 1.0)),
    }
}

fn sample(radiance: Spectrum, pdf: f32) -> LiSample {
    LiSample {
        radiance,
        wi: vec3(0.0, 0.0, 1.0),
        pdf: f(pdf),
        vis: VisibilityTester { p0: hit_at(0.0, 0.0, 0.0, 0.0), p1: hit_at(0.0, 0.0, 3.0, 0.0) },
    }
}

#[test]
fn delta_lights_are_the_two_delta_kinds() {
    assert!(LightFlags::DeltaPosition.is_delta_light());
    assert!(LightFlags::DeltaDirection.is_delta_light());
    assert!(!LightFlags::Area.is_delta_light());
    assert!(!LightFlags::Infinite.is_delta_light());
}

#[test]
fn a_sample_contributes_unless_black_or_of_density_zero() {
    assert!(sample(Spectrum::uniform(f(1.0)), 1.0).contributes());
    assert!(sample(Spectrum { r: f(0.0), g: f(0.0), b: f(0.01) }, 0.5).contributes());
    assert!(!sample(Spectrum::black(), 1.0).contributes());
    assert!(!sample(Spectrum::uniform(f(-0.0)), 1.0).contributes());
    assert!(!sample(Spectrum::uniform(f(1.0)), 0.0).contributes());
    assert!(!sample(Spectrum::uniform(f(1.0)), -0.0).contributes());
    assert!(sample(Spectrum::uniform(f(1.0)), f32::NAN).contributes());
    assert!(sample(Spectrum::uniform(f(f32::NAN)), 1.0).contributes());
}

#[test]
fn spectrum_tests() {
    assert!(Spectrum::black().is_black());
    assert!(!Spectrum::black().has_nans());
    assert!(!Spectrum::uniform(f(0.5)).is_black());
    assert!(!Spectrum { r: f(0.0), g: f(1.0e-30), b: f(0.0) }.is_black());
    assert!(Spectrum { r: f(0.0), g: f(-0.0), b: f(0.0) }.is_black());
    assert!(Spectrum { r: f(0.0), g: f(0.0), b: f(f32::NAN) }.has_nans());
    assert!(Spectrum { r: f(f32::NAN), g: f(0.0), b: f(0.0) }.has_nans());
    assert!(!Spectrum { r: f(f32::INFINITY), g: f(0.0), b: f(0.0) }.has_nans());
    assert!(!Spectrum { r: f(0.0), g: f(f32::NAN), b: f(0.0) }.is_black());
    assert_eq!(Spectrum::uniform(f(2.0)), Spectrum { r: f(2.0), g: f(2.0), b: f(2.0) });
}

#[test]
fn light_passes_exactly_when_nothing_blocks() {
    let vis = VisibilityTester { p0: hit_at(0.0, 0.0, 0.0, 0.25), p1: hit_at(0.0, 0.0, 3.0, 0.5) };
    assert!(vis.unoccluded(false));
    assert!(!vis.unoccluded(true));
}

#[test]
fn the_shadow_ray_stops_short_of_the_target() {
    let vis = VisibilityTester { p0: hit_at(0.0, 0.0, 0.0, 0.25), p1: hit_at(0.0, 0.0, 3.0, 0.5) };
    let origin = Point3f::new(f(0.0), f(0.0), f(1.0e-5));
    let dir = vec3(0.0, 0.0, 3.0);
    let ray = vis.shadow_ray(origin, dir);
    assert_eq!(ray.origin, origin);
    assert_eq!(ray.dir, dir);
    assert_eq!(v(ray.t_max), 1.0f32 - 0.0001f32);
    assert!(v(ray.t_max) < 1.0);
    assert_eq!(v(ray.time), 0.25);
}

#[test]
fn a_point_light_is_a_delta_light_of_density_one() {
    let light = PointLight::new(Point3f::new(f(0.0), f(0.0), f(3.0)), Spectrum::uniform(f(10.0)));
    assert!(light.flags().is_delta_light());
    assert_eq!(light.flags(), LightFlags::DeltaPosition);
    assert_eq!(light.world_point(), Point3f::new(f(0.0), f(0.0), f(3.0)));
    assert_eq!(light.intensity(), Spectrum::uniform(f(10.0)));
    let reference = hit_at(0.0, 0.0, 1.0, 0.75);
    let wi = vec3(0.0, 0.0, 1.0);
    let arriving = Spectrum::uniform(f(2.5));
    let s = light.sample_incident_radiance(&reference, wi, arriving);
    assert_eq!(s.radiance, arriving);
    assert_eq!(s.wi, wi);
    assert_eq!(v(s.pdf), 1.0);
    assert_eq!(s.vis.p0, reference);
    assert_eq!(s.vis.p1.p, light.world_point());
    assert_eq!(s.vis.p1.p_err, Vec3f::zero());
    assert_eq!(v(s.vis.p1.time), 0.75);
    assert_eq!(s.vis.p1.n, Normal3(Vec3f::zero()));
    assert!(s.contributes());
    assert_eq!(v(light.pdf_incident_radiance(&reference, wi)), 0.0);
}
