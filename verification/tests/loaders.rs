use raytracer::float::Float;
use raytracer::geometry::{Matrix4, Normal3, Point2f, Point3f, Transform, Vec3f};
use raytracer::loaders::constructors::{
    make_checkerboard_float, make_checkerboard_spect, make_diffuse_area_light, make_distant_light,
    make_matte, make_point_light, make_sphere, make_tex_coords_map_2d, make_triangle_mesh,
    ConstructError,
};
use raytracer::loaders::{Param, ParamError, ParamSet, ParamValue};
use raytracer::spectrum::Spectrum;
use raytracer::texture::TextureSource;

fn f(x: f32) -> Float {
    Float::from_bits(x.to_bits())
}

fn v(x: Float) -> f32 {
    f32::from_bits(x.to_bits())
}

fn param(name: &str, value: ParamValue) -> Param {
    Param { name: name.to_string(), value }
}

fn matrix(diagonal: f32) -> Matrix4 {
    let mut rows = [[f(0.0); 4]; 4];
    for (i, row) in rows.iter_mut().enumerate() {
        row[i] = f(diagonal);
    }
    rows[3][3] = f(1.0);
    Matrix4 { rows }
}

fn scale(s: f32) -> Transform {
    Transform { t: matrix(s), invt: matrix(1.0 / s) }
}

fn bits(m: &Matrix4) -> Vec<u32> {
    m.rows.iter().flat_map(|r| r.iter().map(|x| x.to_bits())).collect()
}

fn placed(params: Vec<Param>) -> ParamSet {
    ParamSet { params, transform: Some(scale(2.0)), reverse_orientation: Some(false) }
}

fn triangle() -> Vec<Param> {
    vec![
        param("indices", ParamValue::Ints(vec![0, 1, 2])),
        param(
            "P",
            ParamValue::Points(vec![
                Point3f::new(f(0.0), f(0.0), f(0.0)),
                Point3f::new(f(0.0), f(0.0), f(1.0)),
                Point3f::new(f(1.0), f(0.0), f(0.0)),
            ]),
        ),
    ]
}

fn missing(e: &ConstructError, name: &str) -> bool {
    matches!(e, ConstructError::ParamError(ParamError::Missing(n)) if n == name)
}

fn wrong_type(e: &ConstructError, name: &str) -> bool {
    matches!(e, ConstructError::ParamError(ParamError::WrongType(n)) if n == name)
}

#[test]
fn the_first_parameter_of_a_name_is_found() {
    let set = ParamSet::new(vec![
        param("radius", ParamValue::Float(f(2.0))),
        param("samples", ParamValue::Int(4)),
        param("radius", ParamValue::Float(f(3.0))),
        param("twosided", ParamValue::Bool(true)),
        param("mapping", ParamValue::Text("planar".to_string())),
    ]);
    assert!(set.transform.is_none() && set.reverse_orientation.is_none());
    assert_eq!(set.get_float("radius").unwrap(), f(2.0));
    assert_eq!(set.get_int("samples").unwrap(), 4);
    assert!(set.get_bool("twosided").unwrap());
    assert_eq!(set.get_text("mapping").unwrap(), "planar");
    assert!(set.get("nothing").is_none());
    assert!(matches!(set.get("samples"), Some(ParamValue::Int(4))));
    assert!(matches!(set.get_float("zmin"), Err(ParamError::Missing(n)) if n == "zmin"));
    assert!(matches!(set.get_float("samples"), Err(ParamError::WrongType(n)) if n == "samples"));
    assert!(matches!(set.get_int("radius"), Err(ParamError::WrongType(n)) if n == "radius"));
    assert!(matches!(set.get_ints("indices"), Err(ParamError::Missing(n)) if n == "indices"));
    assert!(matches!(set.current_transform(), Err(ParamError::NoTransform)));
    assert!(matches!(set.reverse_orientation(), Err(ParamError::NoOrientation)));
}

#[test]
fn a_mesh_needs_transform_indices_vertices_and_orientation() {
    let mesh = make_triangle_mesh(placed(triangle())).unwrap();
    assert_eq!(mesh.indices, vec![0u32, 1, 2]);
    assert_eq!(mesh.vertices.len(), 3);
    assert_eq!(mesh.vertices[2], Point3f::new(f(1.0), f(0.0), f(0.0)));
    assert!(mesh.normals.is_none() && mesh.tangents.is_none() && mesh.tex_coords.is_none());
    assert!(!mesh.reverse_orientation);
    assert_eq!(bits(&mesh.object_to_world.t), bits(&matrix(2.0)));
    assert_eq!(bits(&mesh.object_to_world.invt), bits(&matrix(0.5)));

    let mut no_transform = placed(triangle());
    no_transform.transform = None;
    assert!(matches!(
        make_triangle_mesh(no_transform),
        Err(ConstructError::ParamError(ParamError::NoTransform))
    ));

    let mut no_orientation = placed(triangle());
    no_orientation.reverse_orientation = None;
    assert!(matches!(
        make_triangle_mesh(no_orientation),
        Err(ConstructError::ParamError(ParamError::NoOrientation))
    ));

    let no_indices = placed(vec![triangle().remove(1)]);
    assert!(missing(&make_triangle_mesh(no_indices).unwrap_err(), "indices"));

    let no_vertices = placed(vec![triangle().remove(0)]);
    assert!(missing(&make_triangle_mesh(no_vertices).unwrap_err(), "P"));

    let bad_indices = placed(vec![param("indices", ParamValue::Float(f(1.0))), triangle().remove(1)]);
    assert!(wrong_type(&make_triangle_mesh(bad_indices).unwrap_err(), "indices"));

    let nothing = ParamSet::new(vec![]);
    assert!(matches!(
        make_triangle_mesh(nothing),
        Err(ConstructError::ParamError(ParamError::NoTransform))
    ));
}

#[test]
fn a_mesh_takes_what_else_is_given() {
    let mut params = triangle();
    params.push(param("N", ParamValue::Normals(vec![Normal3(Vec3f::new(f(0.0), f(1.0), f(0.0))); 3])));
    params.push(param("S", ParamValue::Vectors(vec![Vec3f::new(f(1.0), f(0.0), f(0.0)); 3])));
    params.push(param("st", ParamValue::Points2(vec![Point2f::new(f(0.5), f(0.5)); 3])));
    let mut set = placed(params);
    set.reverse_orientation = Some(true);
    let mesh = make_triangle_mesh(set).unwrap();
    assert_eq!(mesh.normals.unwrap()[0], Normal3(Vec3f::new(f(0.0), f(1.0), f(0.0))));
    assert_eq!(mesh.tangents.unwrap().len(), 3);
    assert_eq!(mesh.tex_coords.unwrap()[1], Point2f::new(f(0.5), f(0.5)));
    assert!(mesh.reverse_orientation);

    let mut both = triangle();
    both.push(param("st", ParamValue::Points2(vec![Point2f::new(f(0.5), f(0.5)); 3])));
    both.push(param("uv", ParamValue::Points2(vec![Point2f::new(f(0.25), f(0.75)); 3])));
    let mesh = make_triangle_mesh(placed(both)).unwrap();
    assert_eq!(mesh.tex_coords.unwrap()[0], Point2f::new(f(0.25), f(0.75)));

    let mut wrong = triangle();
    wrong.push(param("N", ParamValue::Int(1)));
    wrong.push(param("uv", ParamValue::Float(f(1.0))));
    let mesh = make_triangle_mesh(placed(wrong)).unwrap();
    assert!(mesh.normals.is_none() && mesh.tex_coords.is_none());
}

#[test]
fn mesh_indices_are_read_without_a_sign() {
    let mut params = triangle();
    params[0] = param("indices", ParamValue::Ints(vec![0, -1, i32::MIN, i32::MAX, 7]));
    let mesh = make_triangle_mesh(placed(params)).unwrap();
    assert_eq!(mesh.indices, vec![0u32, u32::MAX, 0x8000_0000, 0x7fff_ffff, 7]);
    assert_eq!(mesh.indices, vec![0i32 as u32, -1i32 as u32, i32::MIN as u32, i32::MAX as u32, 7]);
}

#[test]
fn a_diffuse_area_light_has_defaults_for_everything() {
    let light = make_diffuse_area_light(ParamSet::new(vec![])).unwrap();
    assert_eq!(light.emit, Spectrum::uniform(f(1.0)));
    assert_eq!(light.n_samples, 1);

    let given = ParamSet::new(vec![
        param("L", ParamValue::Spectrum(Spectrum { r: f(1.0), g: f(2.0), b: f(3.0) })),
        param("samples", ParamValue::Int(16)),
        param("twosided", ParamValue::Bool(true)),
    ]);
    let light = make_diffuse_area_light(given).unwrap();
    assert_eq!(light.emit, Spectrum { r: f(1.0), g: f(2.0), b: f(3.0) });
    assert_eq!(light.n_samples, 16);

    let odd = ParamSet::new(vec![param("L", ParamValue::Float(f(5.0))), param("samples", ParamValue::Int(-1))]);
    let light = make_diffuse_area_light(odd).unwrap();
    assert_eq!(light.emit, Spectrum::uniform(f(1.0)));
    assert_eq!(light.n_samples, -1i32 as usize);
}

#[test]
fn only_the_uv_mapping_is_known() {
    let plain = make_tex_coords_map_2d(&ParamSet::new(vec![])).unwrap();
    assert_eq!((v(plain.su), v(plain.sv), v(plain.du), v(plain.dv)), (1.0, 1.0, 0.0, 0.0));

    let given = ParamSet::new(vec![
        param("mapping", ParamValue::Text("uv".to_string())),
        param("uscale", ParamValue::Float(f(2.0))),
        param("vdelta", ParamValue::Float(f(0.5))),
    ]);
    let m = make_tex_coords_map_2d(&given).unwrap();
    assert_eq!((v(m.su), v(m.sv), v(m.du), v(m.dv)), (2.0, 1.0, 0.0, 0.5));

    let planar = ParamSet::new(vec![param("mapping", ParamValue::Text("planar".to_string()))]);
    match make_tex_coords_map_2d(&planar) {
        Err(ConstructError::ValueError(msg)) => assert_eq!(msg, "Unknown mapping type planar"),
        other => panic!("{:?}", other),
    }
    let empty = ParamSet::new(vec![param("mapping", ParamValue::Text(String::new()))]);
    match make_tex_coords_map_2d(&empty) {
        Err(ConstructError::ValueError(msg)) => assert_eq!(msg, "Unknown mapping type "),
        other => panic!("{:?}", other),
    }
    let not_text = ParamSet::new(vec![param("mapping", ParamValue::Int(3))]);
    assert!(make_tex_coords_map_2d(&not_text).is_ok());
}

#[test]
fn a_checkerboard_of_numbers() {
    let board = make_checkerboard_float(ParamSet::new(vec![
        param("tex1", ParamValue::Float(f(0.25))),
        param("tex2", ParamValue::Texture("marble".to_string())),
        param("vscale", ParamValue::Float(f(4.0))),
    ]))
    .unwrap();
    assert!(matches!(board.tex1, TextureSource::Constant(c) if c == f(0.25)));
    assert!(matches!(&board.tex2, TextureSource::Named(n) if n == "marble"));
    assert_eq!((v(board.mapping.su), v(board.mapping.sv)), (1.0, 4.0));

    let no_second = ParamSet::new(vec![param("tex1", ParamValue::Float(f(0.25)))]);
    assert!(missing(&make_checkerboard_float(no_second).unwrap_err(), "tex2"));
    let none = ParamSet::new(vec![]);
    assert!(missing(&make_checkerboard_float(none).unwrap_err(), "tex1"));
    let colour = ParamSet::new(vec![
        param("tex1", ParamValue::Spectrum(Spectrum::black())),
        param("tex2", ParamValue::Float(f(1.0))),
    ]);
    assert!(wrong_type(&make_checkerboard_float(colour).unwrap_err(), "tex1"));
    let planar = ParamSet::new(vec![
        param("mapping", ParamValue::Text("planar".to_string())),
        param("tex1", ParamValue::Float(f(0.25))),
        param("tex2", ParamValue::Float(f(0.75))),
    ]);
    assert!(matches!(
        make_checkerboard_float(planar),
        Err(ConstructError::ValueError(msg)) if msg == "Unknown mapping type planar"
    ));
}

#[test]
fn a_checkerboard_of_colours() {
    let red = Spectrum { r: f(1.0), g: f(0.0), b: f(0.0) };
    let board = make_checkerboard_spect(ParamSet::new(vec![
        param("tex1", ParamValue::Texture("wood".to_string())),
        param("tex2", ParamValue::Spectrum(red)),
    ]))
    .unwrap();
    assert!(matches!(&board.tex1, TextureSource::Named(n) if n == "wood"));
    assert!(matches!(board.tex2, TextureSource::Constant(c) if c == red));
    assert_eq!((v(board.mapping.su), v(board.mapping.dv)), (1.0, 0.0));

    let number = ParamSet::new(vec![
        param("tex1", ParamValue::Spectrum(red)),
        param("tex2", ParamValue::Float(f(1.0))),
    ]);
    assert!(wrong_type(&make_checkerboard_spect(number).unwrap_err(), "tex2"));
    assert!(missing(&make_checkerboard_spect(ParamSet::new(vec![])).unwrap_err(), "tex1"));
}

#[test]
fn a_matte_material_needs_its_colour() {
    let red = Spectrum { r: f(0.7), g: f(0.2), b: f(0.2) };
    let constant = make_matte(ParamSet::new(vec![param("Kd", ParamValue::Spectrum(red))])).unwrap();
    assert!(matches!(constant.diffuse, TextureSource::Constant(c) if c == red));
    let named = make_matte(ParamSet::new(vec![param("Kd", ParamValue::Texture("checks".to_string()))])).unwrap();
    assert!(matches!(&named.diffuse, TextureSource::Named(n) if n == "checks"));
    assert!(missing(&make_matte(ParamSet::new(vec![])).unwrap_err(), "Kd"));
    let number = ParamSet::new(vec![param("Kd", ParamValue::Float(f(0.5)))]);
    assert!(wrong_type(&make_matte(number).unwrap_err(), "Kd"));
}

#[test]
fn a_sphere_has_defaults_for_its_shape() {
    let unit = make_sphere(placed(vec![])).unwrap();
    assert_eq!((v(unit.radius), v(unit.z_min), v(unit.z_max), v(unit.phi_max)), (1.0, -1.0, 1.0, 360.0));
    assert!(!unit.reverse_orientation);
    assert_eq!(bits(&unit.object_to_world.t), bits(&matrix(2.0)));
    assert_eq!(bits(&unit.world_to_object.t), bits(&matrix(0.5)));
    assert_eq!(bits(&unit.world_to_object.invt), bits(&matrix(2.0)));

    let big = make_sphere(placed(vec![param("radius", ParamValue::Float(f(20.0)))])).unwrap();
    assert_eq!((v(big.radius), v(big.z_min), v(big.z_max)), (20.0, -20.0, 20.0));

    let cut = make_sphere(placed(vec![
        param("radius", ParamValue::Float(f(2.0))),
        param("zmin", ParamValue::Float(f(-0.5))),
        param("phimax", ParamValue::Float(f(180.0))),
    ]))
    .unwrap();
    assert_eq!((v(cut.radius), v(cut.z_min), v(cut.z_max), v(cut.phi_max)), (2.0, -0.5, 2.0, 180.0));

    assert!(matches!(
        make_sphere(ParamSet::new(vec![])),
        Err(ConstructError::ParamError(ParamError::NoTransform))
    ));
    let mut no_orientation = placed(vec![]);
    no_orientation.reverse_orientation = None;
    assert!(matches!(
        make_sphere(no_orientation),
        Err(ConstructError::ParamError(ParamError::NoOrientation))
    ));
}

#[test]
fn a_parameter_error_becomes_a_construct_error() {
    let e = ConstructError::from(ParamError::Missing("P".to_string()));
    assert!(missing(&e, "P"));
    assert!(matches!(ConstructError::from(ParamError::NoTransform), ConstructError::ParamError(ParamError::NoTransform)));
}

#[test]
fn a_distant_light_has_defaults_for_everything() {
    let plain = make_distant_light(ParamSet::new(vec![])).unwrap();
    assert_eq!(plain.radiance, Spectrum::uniform(f(1.0)));
    assert_eq!(plain.scale, Spectrum::uniform(f(1.0)));
    assert_eq!(plain.from, Point3f::new(f(0.0), f(0.0), f(0.0)));
    assert_eq!(plain.to, Point3f::new(f(0.0), f(0.0), f(1.0)));

    let warm = Spectrum { r: f(1.5), g: f(1.0), b: f(0.5) };
    let given = make_distant_light(ParamSet::new(vec![
        param("L", ParamValue::Spectrum(warm)),
        param("scale", ParamValue::Spectrum(Spectrum::uniform(f(2.0)))),
        param("from", ParamValue::Point(Point3f::new(f(3.0), f(3.0), f(3.0)))),
        param("to", ParamValue::Point(Point3f::new(f(0.0), f(1.0), f(0.0)))),
    ]))
    .unwrap();
    assert_eq!(given.radiance, warm);
    assert_eq!(given.scale, Spectrum::uniform(f(2.0)));
    assert_eq!(given.from, Point3f::new(f(3.0), f(3.0), f(3.0)));
    assert_eq!(given.to, Point3f::new(f(0.0), f(1.0), f(0.0)));

    let odd = make_distant_light(ParamSet::new(vec![
        param("L", ParamValue::Float(f(4.0))),
        param("I", ParamValue::Spectrum(warm)),
        param("to", ParamValue::Int(1)),
    ]))
    .unwrap();
    assert_eq!(odd, plain);
}

#[test]
fn a_point_light_has_defaults_for_everything() {
    let plain = make_point_light(ParamSet::new(vec![])).unwrap();
    assert_eq!(plain.intensity, Spectrum::uniform(f(1.0)));
    assert_eq!(plain.scale, Spectrum::uniform(f(1.0)));
    assert_eq!(plain.from, Point3f::new(f(0.0), f(0.0), f(0.0)));

    let bright = Spectrum::uniform(f(10.0));
    let given = make_point_light(ParamSet::new(vec![
        param("I", ParamValue::Spectrum(bright)),
        param("from", ParamValue::Point(Point3f::new(f(0.0), f(0.0), f(3.0)))),
        param("L", ParamValue::Spectrum(Spectrum::black())),
    ]))
    .unwrap();
    assert_eq!(given.intensity, bright);
    assert_eq!(given.scale, Spectrum::uniform(f(1.0)));
    assert_eq!(given.from, Point3f::new(f(0.0), f(0.0), f(3.0)));
}

#[test]
fn a_point_is_read_like_any_other_parameter() {
    let set = ParamSet::new(vec![
        param("from", ParamValue::Point(Point3f::new(f(1.0), f(2.0), f(3.0)))),
        param("to", ParamValue::Float(f(1.0))),
    ]);
    assert_eq!(set.get_point("from").unwrap(), Point3f::new(f(1.0), f(2.0), f(3.0)));
    assert!(matches!(set.get_point("to"), Err(ParamError::WrongType(n)) if n == "to"));
    assert!(matches!(set.get_point("up"), Err(ParamError::Missing(n)) if n == "up"));
}
