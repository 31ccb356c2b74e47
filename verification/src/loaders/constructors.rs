//! From the parameters of a scene description to shapes, lights, materials
//! and textures: which parameters are read, which have defaults, and which
//! error a missing one gives.
use vstd::prelude::*;
use vstd::std_specs::convert::FromSpecImpl;
use vstd::string::StringExecFns;
use crate::float::{Float, ONE_BITS};
use crate::shapes::sphere::FULL_SWEEP_DEGREES_BITS;
use crate::geometry::{Normal3, Point2f, Point3f, Transform, Vec3f};
use crate::light::diffuse::DiffuseAreaLightBuilder;
use crate::loaders::{explains, find, Param, ParamError, ParamSet, ParamValue};
use crate::material::matte::MatteMaterial;
use crate::shapes::triangle::TriangleMesh;
use crate::spectrum::Spectrum;
use crate::texture::checkerboard::Checkerboard2DTexture;
use crate::texture::mapping::UVMapping;

verus! {

/// Why an object could not be constructed.
#[derive(Debug)]
pub enum ConstructError {
    /// A parameter could not be had.
    ParamError(ParamError),
    /// A parameter holds a value that the constructor cannot use.
    ValueError(String),
}

impl From<ParamError> for ConstructError {
    fn from(e: ParamError) -> (r: ConstructError) {
        ConstructError::ParamError(e)
    }
}

impl FromSpecImpl<ParamError> for ConstructError {
    open spec fn obeys_from_spec() -> bool {
        true
    }

    open spec fn from_spec(e: ParamError) -> ConstructError {
        ConstructError::ParamError(e)
    }
}

/// A whole number as the 32 bits that hold it, read without a sign.
pub open spec fn wrapped_u32(i: i32) -> u32 {
    if i >= 0 {
        i as u32
    } else {
        (i + 0x1_0000_0000) as u32
    }
}

/// A whole number as a count: itself where it is not negative, else the
/// count that the same bits, extended to the width of a count, stand for.
pub open spec fn wrapped_usize(i: i32) -> usize {
    if i >= 0 {
        i as usize
    } else {
        (usize::MAX + 1 + i) as usize
    }
}

/// The number that a parameter holds, or the default.
pub open spec fn float_or(params: Seq<Param>, name: Seq<char>, default: Float) -> Float {
    match find(params, name) {
        Some(Param { value: ParamValue::Float(v), .. }) => v,
        _ => default,
    }
}

fn float_param_or(params: &ParamSet, name: &str, default: Float) -> (v: Float)
    ensures
        v == float_or(params.params@, name@, default),
{
    match params.get_float(name) {
        Ok(v) => v,
        Err(_) => default,
    }
}

fn indices_of(ints: &Vec<i32>) -> (indices: Vec<u32>)
    ensures
        indices@ == ints@.map_values(|i: i32| wrapped_u32(i)),
{
    let mut indices: Vec<u32> = Vec::new();
    let mut k: usize = 0;
    while k < ints.len()
        invariant
            k <= ints@.len(),
            indices@.len() == k,
            forall|j: int| 0 <= j < k ==> indices@[j] == wrapped_u32(ints@[j]),
        decreases ints@.len() - k,
    {
        let i: i32 = ints[k];
        let u: u32 = if i >= 0 {
            i as u32
        } else {
            u32::MAX - ((-(i + 1)) as u32)
        };
        indices.push(u);
        k = k + 1;
    }
    assert(indices@ =~= ints@.map_values(|i: i32| wrapped_u32(i)));
    indices
}

/// What the parameters say of a sphere: the two transforms, the
/// orientation, the radius, the two clipping heights and the sweep in
/// degrees, before heights and sweep are clipped and turned into angles.
#[derive(Clone, Copy, Debug)]
pub struct SphereDescription {
    pub object_to_world: Transform,
    pub world_to_object: Transform,
    pub reverse_orientation: bool,
    pub radius: Float,
    pub z_min: Float,
    pub z_max: Float,
    pub phi_max: Float,
}

/// A sphere from its parameters. The transform in force and the
/// orientation are needed, in this order. The radius `radius` is 1, the
/// heights `zmin` and `zmax` are the radius below and above the centre, and
/// the sweep `phimax` is 360 degrees, unless they are given.
pub fn make_sphere(params: ParamSet) -> (r: Result<SphereDescription, ConstructError>)
    ensures
        r is Ok <==> params.transform is Some && params.reverse_orientation is Some,
        r is Ok ==> ({
            let radius = float_or(params.params@, "radius"@, Float::spec_from_bits(ONE_BITS));
            &&& Some(r->Ok_0.object_to_world) == params.transform
            &&& r->Ok_0.world_to_object.t == r->Ok_0.object_to_world.invt
            &&& r->Ok_0.world_to_object.invt == r->Ok_0.object_to_world.t
            &&& Some(r->Ok_0.reverse_orientation) == params.reverse_orientation
            &&& r->Ok_0.radius == radius
            &&& r->Ok_0.z_min == float_or(params.params@, "zmin"@, radius.negated())
            &&& r->Ok_0.z_max == float_or(params.params@, "zmax"@, radius)
            &&& r->Ok_0.phi_max == float_or(
                params.params@,
                "phimax"@,
                Float::spec_from_bits(FULL_SWEEP_DEGREES_BITS),
            )
        }),
        r is Err ==> r->Err_0 is ParamError && (if params.transform is None {
            r->Err_0->ParamError_0 is NoTransform
        } else {
            r->Err_0->ParamError_0 is NoOrientation
        }),
{
    let radius = float_param_or(&params, "radius", Float::one());
    let z_min = float_param_or(&params, "zmin", radius.neg());
    let z_max = float_param_or(&params, "zmax", radius);
    let phi_max = float_param_or(&params, "phimax", Float::from_bits(FULL_SWEEP_DEGREES_BITS));
    let object_to_world = match params.current_transform() {
        Ok(tf) => tf,
        Err(e) => {
            return Err(ConstructError::ParamError(e));
        },
    };
    let world_to_object = object_to_world.inverse();
    let reverse_orientation = match params.reverse_orientation() {
        Ok(b) => b,
        Err(e) => {
            return Err(ConstructError::ParamError(e));
        },
    };
    Ok(
        SphereDescription {
            object_to_world,
            world_to_object,
            reverse_orientation,
            radius,
            z_min,
            z_max,
            phi_max,
        },
    )
}

/// Whether the parameter `name` is a list of whole numbers.
pub open spec fn has_ints(params: Seq<Param>, name: Seq<char>) -> bool {
    find(params, name) matches Some(Param { value: ParamValue::Ints(_), .. })
}

/// Whether the parameter `name` is a list of points.
pub open spec fn has_points(params: Seq<Param>, name: Seq<char>) -> bool {
    find(params, name) matches Some(Param { value: ParamValue::Points(_), .. })
}

/// Whether a mesh can be made: the transform, the indices, the vertices and
/// the orientation are there.
pub open spec fn describes_mesh(params: ParamSet) -> bool {
    &&& params.transform is Some
    &&& has_ints(params.params@, "indices"@)
    &&& has_points(params.params@, "P"@)
    &&& params.reverse_orientation is Some
}

/// Whether `e` is the error for the first thing that a mesh needs and the
/// parameters lack: the transform, the indices, the vertices, the
/// orientation, in this order.
pub open spec fn is_mesh_error(e: ConstructError, params: ParamSet) -> bool {
    e is ParamError && {
        let cause = e->ParamError_0;
        if params.transform is None {
            cause is NoTransform
        } else if !has_ints(params.params@, "indices"@) {
            explains(cause, params.params@, "indices"@)
        } else if !has_points(params.params@, "P"@) {
            explains(cause, params.params@, "P"@)
        } else {
            params.reverse_orientation is None && cause is NoOrientation
        }
    }
}

/// Whether `mesh` is the mesh that the parameters describe: the transform
/// and the orientation in force, the indices read without a sign, the
/// vertices, and the normals `N`, the tangents `S` and the texture
/// coordinates `uv`, or else `st`, where they are given.
pub open spec fn is_described_mesh(mesh: TriangleMesh, params: ParamSet) -> bool {
    &&& Some(mesh.object_to_world) == params.transform
    &&& Some(mesh.reverse_orientation) == params.reverse_orientation
    &&& match find(params.params@, "indices"@) {
        Some(Param { value: ParamValue::Ints(ints), .. }) => mesh.indices@ == ints@.map_values(
            |i: i32| wrapped_u32(i),
        ),
        _ => false,
    }
    &&& match find(params.params@, "P"@) {
        Some(Param { value: ParamValue::Points(p), .. }) => mesh.vertices@ == p@,
        _ => false,
    }
    &&& match find(params.params@, "N"@) {
        Some(Param { value: ParamValue::Normals(n), .. }) => mesh.normals is Some
            && mesh.normals->Some_0@ == n@,
        _ => mesh.normals is None,
    }
    &&& match find(params.params@, "S"@) {
        Some(Param { value: ParamValue::Vectors(s), .. }) => mesh.tangents is Some
            && mesh.tangents->Some_0@ == s@,
        _ => mesh.tangents is None,
    }
    &&& match find(params.params@, "uv"@) {
        Some(Param { value: ParamValue::Points2(uv), .. }) => mesh.tex_coords is Some
            && mesh.tex_coords->Some_0@ == uv@,
        _ => match find(params.params@, "st"@) {
            Some(Param { value: ParamValue::Points2(st), .. }) => mesh.tex_coords is Some
                && mesh.tex_coords->Some_0@ == st@,
            _ => mesh.tex_coords is None,
        },
    }
}

/// A mesh of triangles from its parameters.
///
/// The transform in force, the indices `indices`, the vertices `P` and the
/// orientation are needed, and the first of them that is missing, in this
/// order, is the error. The normals `N`, the tangents `S` and the texture
/// coordinates `uv`, or else `st`, are taken where they are given. The
/// indices are read without a sign.
pub fn make_triangle_mesh(params: ParamSet) -> (r: Result<TriangleMesh, ConstructError>)
    ensures
        r is Ok <==> describes_mesh(params),
        r is Ok ==> is_described_mesh(r->Ok_0, params),
        r is Err ==> is_mesh_error(r->Err_0, params),
{
    let tf = match params.current_transform() {
        Ok(tf) => tf,
        Err(e) => {
            return Err(ConstructError::ParamError(e));
        },
    };
    let indices = match params.get_ints("indices") {
        Ok(ints) => indices_of(ints),
        Err(e) => {
            return Err(ConstructError::ParamError(e));
        },
    };
    let vertices: Vec<Point3f> = match params.get_points("P") {
        Ok(p) => p.clone(),
        Err(e) => {
            return Err(ConstructError::ParamError(e));
        },
    };
    let normals: Option<Vec<Normal3>> = match params.get_normals("N") {
        Ok(n) => Some(n.clone()),
        Err(_) => None,
    };
    let tangents: Option<Vec<Vec3f>> = match params.get_vectors("S") {
        Ok(s) => Some(s.clone()),
        Err(_) => None,
    };
    let tex_coords: Option<Vec<Point2f>> = match params.get_points2("uv") {
        Ok(uv) => Some(uv.clone()),
        Err(_) => match params.get_points2("st") {
            Ok(st) => Some(st.clone()),
            Err(_) => None,
        },
    };
    let reverse_orientation = match params.reverse_orientation() {
        Ok(b) => b,
        Err(e) => {
            return Err(ConstructError::ParamError(e));
        },
    };
    Ok(
        TriangleMesh::new(
            tf,
            indices,
            vertices,
            normals,
            tangents,
            tex_coords,
            reverse_orientation,
        ),
    )
}

/// Whether `source` is the texture of colours that the parameter `name`
/// gives: the texture that it names, or its colour as a constant.
pub open spec fn is_spectrum_source(
    source: crate::texture::TextureSource<Spectrum>,
    params: Seq<Param>,
    name: Seq<char>,
) -> bool {
    match find(params, name) {
        Some(Param { value: ParamValue::Spectrum(v), .. }) => source
            == crate::texture::TextureSource::Constant(v),
        Some(Param { value: ParamValue::Texture(t), .. }) => source is Named && source->Named_0@
            == t@,
        _ => false,
    }
}

/// Whether `source` is the texture of numbers that the parameter `name`
/// gives: the texture that it names, or its number as a constant.
pub open spec fn is_float_source(
    source: crate::texture::TextureSource<Float>,
    params: Seq<Param>,
    name: Seq<char>,
) -> bool {
    match find(params, name) {
        Some(Param { value: ParamValue::Float(v), .. }) => source
            == crate::texture::TextureSource::Constant(v),
        Some(Param { value: ParamValue::Texture(t), .. }) => source is Named && source->Named_0@
            == t@,
        _ => false,
    }
}

/// Whether the parameter `name` gives a texture of colours.
pub open spec fn has_spectrum_source(params: Seq<Param>, name: Seq<char>) -> bool {
    find(params, name) matches Some(Param { value, .. }) && (value is Spectrum || value is Texture)
}

/// Whether the parameter `name` gives a texture of numbers.
pub open spec fn has_float_source(params: Seq<Param>, name: Seq<char>) -> bool {
    find(params, name) matches Some(Param { value, .. }) && (value is Float || value is Texture)
}

/// A matte material from its parameters: the colour `Kd` is needed, as a
/// colour or as the name of a texture.
pub fn make_matte(params: ParamSet) -> (r: Result<MatteMaterial, ConstructError>)
    ensures
        r is Ok <==> has_spectrum_source(params.params@, "Kd"@),
        r is Ok ==> is_spectrum_source(r->Ok_0.diffuse, params.params@, "Kd"@),
        r is Err ==> r->Err_0 is ParamError && explains(
            r->Err_0->ParamError_0,
            params.params@,
            "Kd"@,
        ),
{
    match params.get_spectrum_texture_or_const("Kd") {
        Ok(diffuse) => Ok(MatteMaterial::new(diffuse)),
        Err(e) => Err(ConstructError::ParamError(e)),
    }
}

/// A diffuse area light from its parameters, all of which have defaults:
/// the radiance `L` is 1 in every component and the number of samples
/// `samples` is 1 unless they are given.
pub fn make_diffuse_area_light(params: ParamSet) -> (r: Result<
    DiffuseAreaLightBuilder,
    ConstructError,
>)
    ensures
        r is Ok,
        r->Ok_0.emit == match find(params.params@, "L"@) {
            Some(Param { value: ParamValue::Spectrum(v), .. }) => v,
            _ => Spectrum {
                r: Float::spec_from_bits(ONE_BITS),
                g: Float::spec_from_bits(ONE_BITS),
                b: Float::spec_from_bits(ONE_BITS),
            },
        },
        r->Ok_0.n_samples == match find(params.params@, "samples"@) {
            Some(Param { value: ParamValue::Int(v), .. }) => wrapped_usize(v),
            _ => 1usize,
        },
{
    let emit = match params.get_spectrum("L") {
        Ok(v) => v,
        Err(_) => Spectrum::uniform(Float::one()),
    };
    let samples: i32 = match params.get_int("samples") {
        Ok(v) => v,
        Err(_) => 1,
    };
    let n_samples: usize = if samples >= 0 {
        samples as usize
    } else {
        usize::MAX - ((-(samples + 1)) as usize)
    };
    Ok(DiffuseAreaLightBuilder { emit, n_samples })
}

/// The colour that a parameter holds, or the default.
pub open spec fn spectrum_or(params: Seq<Param>, name: Seq<char>, default: Spectrum) -> Spectrum {
    match find(params, name) {
        Some(Param { value: ParamValue::Spectrum(v), .. }) => v,
        _ => default,
    }
}

/// The point that a parameter holds, or the default.
pub open spec fn point_or(params: Seq<Param>, name: Seq<char>, default: Point3f) -> Point3f {
    match find(params, name) {
        Some(Param { value: ParamValue::Point(v), .. }) => v,
        _ => default,
    }
}

/// The colour that is 1 in every component.
pub open spec fn white() -> Spectrum {
    Spectrum {
        r: Float::spec_from_bits(ONE_BITS),
        g: Float::spec_from_bits(ONE_BITS),
        b: Float::spec_from_bits(ONE_BITS),
    }
}

/// The point one unit up the z axis.
pub open spec fn unit_z() -> Point3f {
    Point3f { x: Float::spec_zero(), y: Float::spec_zero(), z: Float::spec_from_bits(ONE_BITS) }
}

fn spectrum_param_or(params: &ParamSet, name: &str, default: Spectrum) -> (v: Spectrum)
    ensures
        v == spectrum_or(params.params@, name@, default),
{
    match params.get_spectrum(name) {
        Ok(v) => v,
        Err(_) => default,
    }
}

fn point_param_or(params: &ParamSet, name: &str, default: Point3f) -> (v: Point3f)
    ensures
        v == point_or(params.params@, name@, default),
{
    match params.get_point(name) {
        Ok(v) => v,
        Err(_) => default,
    }
}

/// What the parameters say of a distant light: its radiance and the scale
/// to multiply it by, and the two points that give its direction.
#[derive(Clone, Copy, Debug, PartialEq, Eq, Structural)]
pub struct DistantLightDescription {
    pub radiance: Spectrum,
    pub scale: Spectrum,
    pub from: Point3f,
    pub to: Point3f,
}

/// What the parameters say of a point light: its intensity and the scale to
/// multiply it by, and where it stands.
#[derive(Clone, Copy, Debug, PartialEq, Eq, Structural)]
pub struct PointLightDescription {
    pub intensity: Spectrum,
    pub scale: Spectrum,
    pub from: Point3f,
}

/// A distant light from its parameters, all of which have defaults: the
/// radiance `L` and the scale `scale` are 1 in every component, and the
/// light shines from the point `from`, the origin, towards the point `to`,
/// one unit up the z axis, unless they are given.
pub fn make_distant_light(params: ParamSet) -> (r: Result<DistantLightDescription, ConstructError>)
    ensures
        r is Ok,
        r->Ok_0 == (DistantLightDescription {
            radiance: spectrum_or(params.params@, "L"@, white()),
            scale: spectrum_or(params.params@, "scale"@, white()),
            from: point_or(params.params@, "from"@, Point3f::spec_origin()),
            to: point_or(params.params@, "to"@, unit_z()),
        }),
{
    let one = Spectrum::uniform(Float::one());
    let radiance = spectrum_param_or(&params, "L", one);
    let scale = spectrum_param_or(&params, "scale", one);
    let from = point_param_or(&params, "from", Point3f::origin());
    let to = point_param_or(
        &params,
        "to",
        Point3f::new(Float::zero(), Float::zero(), Float::one()),
    );
    Ok(DistantLightDescription { radiance, scale, from, to })
}

/// A point light from its parameters, all of which have defaults: the
/// intensity `I` and the scale `scale` are 1 in every component, and the
/// light stands at the point `from`, the origin, unless they are given.
pub fn make_point_light(params: ParamSet) -> (r: Result<PointLightDescription, ConstructError>)
    ensures
        r is Ok,
        r->Ok_0 == (PointLightDescription {
            intensity: spectrum_or(params.params@, "I"@, white()),
            scale: spectrum_or(params.params@, "scale"@, white()),
            from: point_or(params.params@, "from"@, Point3f::spec_origin()),
        }),
{
    let one = Spectrum::uniform(Float::one());
    let intensity = spectrum_param_or(&params, "I", one);
    let scale = spectrum_param_or(&params, "scale", one);
    let from = point_param_or(&params, "from", Point3f::origin());
    Ok(PointLightDescription { intensity, scale, from })
}

/// The name of the mapping that the parameters ask for: `mapping`, or
/// `uv` where none is given.
pub open spec fn mapping_name(params: Seq<Param>) -> Seq<char> {
    match find(params, "mapping"@) {
        Some(Param { value: ParamValue::Text(t), .. }) => t@,
        _ => "uv"@,
    }
}

/// Whether `e` is the error for a mapping that is not known: it names the
/// mapping.
pub open spec fn is_mapping_error(e: ConstructError, params: Seq<Param>) -> bool {
    e is ValueError && e->ValueError_0@ == "Unknown mapping type "@ + mapping_name(params)
}

/// The mapping of a texture from its parameters. Only the mapping `uv` is
/// known; its scales `uscale` and `vscale` are 1 and its shifts `udelta`
/// and `vdelta` are 0 unless they are given. Any other mapping is an error
/// that names it.
pub fn make_tex_coords_map_2d(params: &ParamSet) -> (r: Result<UVMapping, ConstructError>)
    ensures
        r is Ok <==> mapping_name(params.params@) == "uv"@,
        r is Ok ==> r->Ok_0 == uv_mapping(params.params@),
        r is Err ==> is_mapping_error(r->Err_0, params.params@),
{
    let map_type: String = match params.get_text("mapping") {
        Ok(t) => t,
        Err(_) => "uv".to_owned(),
    };
    if map_type == "uv".to_owned() {
        let uscale = float_param_or(params, "uscale", Float::one());
        let vscale = float_param_or(params, "vscale", Float::one());
        let udelta = float_param_or(params, "udelta", Float::zero());
        let vdelta = float_param_or(params, "vdelta", Float::zero());
        Ok(UVMapping::new(uscale, vscale, udelta, vdelta))
    } else {
        Err(ConstructError::ValueError("Unknown mapping type ".to_owned().concat(map_type.as_str())))
    }
}

/// Whether `e` is the error for the first thing that a checkerboard of
/// numbers needs and the parameters lack: a known mapping, the texture
/// `tex1`, the texture `tex2`, in this order.
pub open spec fn is_float_checkerboard_error(e: ConstructError, params: Seq<Param>) -> bool {
    if mapping_name(params) != "uv"@ {
        is_mapping_error(e, params)
    } else if !has_float_source(params, "tex1"@) {
        e is ParamError && explains(e->ParamError_0, params, "tex1"@)
    } else {
        !has_float_source(params, "tex2"@) && e is ParamError && explains(
            e->ParamError_0,
            params,
            "tex2"@,
        )
    }
}

/// A checkerboard of numbers from its parameters: the mapping, then the two
/// textures `tex1` and `tex2`, each a number or the name of a texture. The
/// first of the three that fails, in this order, is the error.
pub fn make_checkerboard_float(params: ParamSet) -> (r: Result<
    Checkerboard2DTexture<Float>,
    ConstructError,
>)
    ensures
        r is Ok <==> mapping_name(params.params@) == "uv"@ && has_float_source(
            params.params@,
            "tex1"@,
        ) && has_float_source(params.params@, "tex2"@),
        r is Ok ==> r->Ok_0.mapping == uv_mapping(params.params@) && is_float_source(
            r->Ok_0.tex1,
            params.params@,
            "tex1"@,
        ) && is_float_source(r->Ok_0.tex2, params.params@, "tex2"@),
        r is Err ==> is_float_checkerboard_error(r->Err_0, params.params@),
{
    let mapping = match make_tex_coords_map_2d(&params) {
        Ok(m) => m,
        Err(e) => {
            return Err(e);
        },
    };
    let tex1 = match params.get_float_texture_or_const("tex1") {
        Ok(t) => t,
        Err(e) => {
            return Err(ConstructError::ParamError(e));
        },
    };
    let tex2 = match params.get_float_texture_or_const("tex2") {
        Ok(t) => t,
        Err(e) => {
            return Err(ConstructError::ParamError(e));
        },
    };
    Ok(Checkerboard2DTexture::new(tex1, tex2, mapping))
}

/// Whether `e` is the error for the first thing that a checkerboard of
/// colours needs and the parameters lack: a known mapping, the texture
/// `tex1`, the texture `tex2`, in this order.
pub open spec fn is_spectrum_checkerboard_error(e: ConstructError, params: Seq<Param>) -> bool {
    if mapping_name(params) != "uv"@ {
        is_mapping_error(e, params)
    } else if !has_spectrum_source(params, "tex1"@) {
        e is ParamError && explains(e->ParamError_0, params, "tex1"@)
    } else {
        !has_spectrum_source(params, "tex2"@) && e is ParamError && explains(
            e->ParamError_0,
            params,
            "tex2"@,
        )
    }
}

/// A checkerboard of colours from its parameters: the mapping, then the two
/// textures `tex1` and `tex2`, each a colour or the name of a texture. The
/// first of the three that fails, in this order, is the error.
pub fn make_checkerboard_spect(params: ParamSet) -> (r: Result<
    Checkerboard2DTexture<Spectrum>,
    ConstructError,
>)
    ensures
        r is Ok <==> mapping_name(params.params@) == "uv"@ && has_spectrum_source(
            params.params@,
            "tex1"@,
        ) && has_spectrum_source(params.params@, "tex2"@),
        r is Ok ==> r->Ok_0.mapping == uv_mapping(params.params@) && is_spectrum_source(
            r->Ok_0.tex1,
            params.params@,
            "tex1"@,
        ) && is_spectrum_source(r->Ok_0.tex2, params.params@, "tex2"@),
        r is Err ==> is_spectrum_checkerboard_error(r->Err_0, params.params@),
{
    let mapping = match make_tex_coords_map_2d(&params) {
        Ok(m) => m,
        Err(e) => {
            return Err(e);
        },
    };
    let tex1 = match params.get_spectrum_texture_or_const("tex1") {
        Ok(t) => t,
        Err(e) => {
            return Err(ConstructError::ParamError(e));
        },
    };
    let tex2 = match params.get_spectrum_texture_or_const("tex2") {
        Ok(t) => t,
        Err(e) => {
            return Err(ConstructError::ParamError(e));
        },
    };
    Ok(Checkerboard2DTexture::new(tex1, tex2, mapping))
}

/// The `uv` mapping that the parameters describe: the scales `uscale` and
/// `vscale`, 1 unless given, and the shifts `udelta` and `vdelta`, 0 unless
/// given.
pub open spec fn uv_mapping(params: Seq<Param>) -> UVMapping {
    UVMapping {
        su: float_or(params, "uscale"@, Float::spec_from_bits(ONE_BITS)),
        sv: float_or(params, "vscale"@, Float::spec_from_bits(ONE_BITS)),
        du: float_or(params, "udelta"@, Float::spec_zero()),
        dv: float_or(params, "vdelta"@, Float::spec_zero()),
    }
}

} // verus!
