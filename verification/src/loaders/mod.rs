//! Named parameters of a scene description, as the constructors of shapes,
//! lights and textures read them.
use vstd::prelude::*;
use crate::float::Float;
use crate::geometry::{Normal3, Point2f, Point3f, Transform, Vec3f};
use crate::spectrum::Spectrum;
use crate::texture::TextureSource;

pub mod constructors;

verus! {

/// The value of a parameter.
#[derive(Debug)]
pub enum ParamValue {
    Bool(bool),
    Int(i32),
    Float(Float),
    Text(String),
    /// The name of a texture that the description has defined.
    Texture(String),
    Spectrum(Spectrum),
    Point(Point3f),
    Ints(Vec<i32>),
    Points2(Vec<Point2f>),
    Points(Vec<Point3f>),
    Vectors(Vec<Vec3f>),
    Normals(Vec<Normal3>),
}

/// A parameter: a name and a value.
#[derive(Debug)]
pub struct Param {
    pub name: String,
    pub value: ParamValue,
}

/// Why a parameter could not be had.
#[derive(Debug)]
pub enum ParamError {
    /// No parameter has this name.
    Missing(String),
    /// The parameter of this name holds a value of another type.
    WrongType(String),
    /// The description sets no transform.
    NoTransform,
    /// The description does not say whether the orientation is reversed.
    NoOrientation,
}

/// The parameters given to one constructor, with the transform and the
/// orientation that are in force where the object is described.
#[derive(Debug)]
pub struct ParamSet {
    pub params: Vec<Param>,
    pub transform: Option<Transform>,
    pub reverse_orientation: Option<bool>,
}

/// The first parameter of a name, if there is one.
pub open spec fn find(params: Seq<Param>, name: Seq<char>) -> Option<Param>
    decreases params.len(),
{
    if params.len() == 0 {
        None
    } else if params[0].name@ == name {
        Some(params[0])
    } else {
        find(params.drop_first(), name)
    }
}

/// Whether an error says that the parameter `name` is missing.
pub open spec fn is_missing(e: ParamError, name: Seq<char>) -> bool {
    e matches ParamError::Missing(n) && n@ == name
}

/// Whether an error says that the parameter `name` has another type.
pub open spec fn is_wrong_type(e: ParamError, name: Seq<char>) -> bool {
    e matches ParamError::WrongType(n) && n@ == name
}

/// The error for a parameter that is not of the type asked for: it is
/// missing, or it has another type.
pub open spec fn explains(e: ParamError, params: Seq<Param>, name: Seq<char>) -> bool {
    match find(params, name) {
        None => is_missing(e, name),
        Some(_) => is_wrong_type(e, name),
    }
}

impl ParamSet {
    /// A set of parameters with no transform and no orientation in force.
    pub fn new(params: Vec<Param>) -> (set: ParamSet)
        ensures
            set.params@ == params@,
            set.transform is None,
            set.reverse_orientation is None,
    {
        ParamSet { params, transform: None, reverse_orientation: None }
    }

    /// The value of the first parameter of a name.
    pub fn get(&self, name: &str) -> (r: Option<&ParamValue>)
        ensures
            match find(self.params@, name@) {
                Some(p) => r == Some(&p.value),
                None => r is None,
            },
    {
        let wanted = name.to_owned();
        let mut i: usize = 0;
        assert(self.params@.subrange(0, self.params@.len() as int) =~= self.params@);
        while i < self.params.len()
            invariant
                i <= self.params@.len(),
                wanted@ == name@,
                find(self.params@, name@) == find(
                    self.params@.subrange(i as int, self.params@.len() as int),
                    name@,
                ),
            decreases self.params@.len() - i,
        {
            let ghost rest = self.params@.subrange(i as int, self.params@.len() as int);
            assert(rest[0] == self.params@[i as int]);
            assert(rest.drop_first() =~= self.params@.subrange(
                i as int + 1,
                self.params@.len() as int,
            ));
            if self.params[i].name == wanted {
                return Some(&self.params[i].value);
            }
            i = i + 1;
        }
        None
    }

    fn error_for(&self, name: &str) -> (e: ParamError)
        ensures
            explains(e, self.params@, name@),
    {
        match self.get(name) {
            None => ParamError::Missing(name.to_owned()),
            Some(_) => ParamError::WrongType(name.to_owned()),
        }
    }

    pub fn get_bool(&self, name: &str) -> (r: Result<bool, ParamError>)
        ensures
            match find(self.params@, name@) {
                Some(Param { value: ParamValue::Bool(v), .. }) => r == Ok::<bool, ParamError>(v),
                _ => r is Err && explains(r->Err_0, self.params@, name@),
            },
    {
        match self.get(name) {
            Some(ParamValue::Bool(v)) => Ok(*v),
            _ => Err(self.error_for(name)),
        }
    }

    pub fn get_int(&self, name: &str) -> (r: Result<i32, ParamError>)
        ensures
            match find(self.params@, name@) {
                Some(Param { value: ParamValue::Int(v), .. }) => r == Ok::<i32, ParamError>(v),
                _ => r is Err && explains(r->Err_0, self.params@, name@),
            },
    {
        match self.get(name) {
            Some(ParamValue::Int(v)) => Ok(*v),
            _ => Err(self.error_for(name)),
        }
    }

    pub fn get_float(&self, name: &str) -> (r: Result<Float, ParamError>)
        ensures
            match find(self.params@, name@) {
                Some(Param { value: ParamValue::Float(v), .. }) => r == Ok::<Float, ParamError>(v),
                _ => r is Err && explains(r->Err_0, self.params@, name@),
            },
    {
        match self.get(name) {
            Some(ParamValue::Float(v)) => Ok(*v),
            _ => Err(self.error_for(name)),
        }
    }

    pub fn get_spectrum(&self, name: &str) -> (r: Result<Spectrum, ParamError>)
        ensures
            match find(self.params@, name@) {
                Some(Param { value: ParamValue::Spectrum(v), .. }) => r == Ok::<
                    Spectrum,
                    ParamError,
                >(v),
                _ => r is Err && explains(r->Err_0, self.params@, name@),
            },
    {
        match self.get(name) {
            Some(ParamValue::Spectrum(v)) => Ok(*v),
            _ => Err(self.error_for(name)),
        }
    }

    pub fn get_point(&self, name: &str) -> (r: Result<Point3f, ParamError>)
        ensures
            match find(self.params@, name@) {
                Some(Param { value: ParamValue::Point(v), .. }) => r == Ok::<Point3f, ParamError>(v),
                _ => r is Err && explains(r->Err_0, self.params@, name@),
            },
    {
        match self.get(name) {
            Some(ParamValue::Point(v)) => Ok(*v),
            _ => Err(self.error_for(name)),
        }
    }

    pub fn get_text(&self, name: &str) -> (r: Result<String, ParamError>)
        ensures
            match find(self.params@, name@) {
                Some(Param { value: ParamValue::Text(v), .. }) => r is Ok && r->Ok_0@ == v@,
                _ => r is Err && explains(r->Err_0, self.params@, name@),
            },
    {
        match self.get(name) {
            Some(ParamValue::Text(v)) => Ok(v.clone()),
            _ => Err(self.error_for(name)),
        }
    }

    pub fn get_ints(&self, name: &str) -> (r: Result<&Vec<i32>, ParamError>)
        ensures
            match find(self.params@, name@) {
                Some(Param { value: ParamValue::Ints(v), .. }) => r is Ok && r->Ok_0@ == v@,
                _ => r is Err && explains(r->Err_0, self.params@, name@),
            },
    {
        match self.get(name) {
            Some(ParamValue::Ints(v)) => Ok(v),
            _ => Err(self.error_for(name)),
        }
    }

    pub fn get_points2(&self, name: &str) -> (r: Result<&Vec<Point2f>, ParamError>)
        ensures
            match find(self.params@, name@) {
                Some(Param { value: ParamValue::Points2(v), .. }) => r is Ok && r->Ok_0@ == v@,
                _ => r is Err && explains(r->Err_0, self.params@, name@),
            },
    {
        match self.get(name) {
            Some(ParamValue::Points2(v)) => Ok(v),
            _ => Err(self.error_for(name)),
        }
    }

    pub fn get_points(&self, name: &str) -> (r: Result<&Vec<Point3f>, ParamError>)
        ensures
            match find(self.params@, name@) {
                Some(Param { value: ParamValue::Points(v), .. }) => r is Ok && r->Ok_0@ == v@,
                _ => r is Err && explains(r->Err_0, self.params@, name@),
            },
    {
        match self.get(name) {
            Some(ParamValue::Points(v)) => Ok(v),
            _ => Err(self.error_for(name)),
        }
    }

    pub fn get_vectors(&self, name: &str) -> (r: Result<&Vec<Vec3f>, ParamError>)
        ensures
            match find(self.params@, name@) {
                Some(Param { value: ParamValue::Vectors(v), .. }) => r is Ok && r->Ok_0@ == v@,
                _ => r is Err && explains(r->Err_0, self.params@, name@),
            },
    {
        match self.get(name) {
            Some(ParamValue::Vectors(v)) => Ok(v),
            _ => Err(self.error_for(name)),
        }
    }

    pub fn get_normals(&self, name: &str) -> (r: Result<&Vec<Normal3>, ParamError>)
        ensures
            match find(self.params@, name@) {
                Some(Param { value: ParamValue::Normals(v), .. }) => r is Ok && r->Ok_0@ == v@,
                _ => r is Err && explains(r->Err_0, self.params@, name@),
            },
    {
        match self.get(name) {
            Some(ParamValue::Normals(v)) => Ok(v),
            _ => Err(self.error_for(name)),
        }
    }

    /// The texture of numbers that a parameter gives: the texture that it
    /// names, or the number that it holds, as a constant texture.
    pub fn get_float_texture_or_const(&self, name: &str) -> (r: Result<
        TextureSource<Float>,
        ParamError,
    >)
        ensures
            match find(self.params@, name@) {
                Some(Param { value: ParamValue::Float(v), .. }) => r is Ok && r->Ok_0
                    == TextureSource::Constant(v),
                Some(Param { value: ParamValue::Texture(t), .. }) => r is Ok && r->Ok_0 is Named
                    && r->Ok_0->Named_0@ == t@,
                _ => r is Err && explains(r->Err_0, self.params@, name@),
            },
    {
        match self.get(name) {
            Some(ParamValue::Float(v)) => Ok(TextureSource::Constant(*v)),
            Some(ParamValue::Texture(t)) => Ok(TextureSource::Named(t.clone())),
            _ => Err(self.error_for(name)),
        }
    }

    /// The texture of colours that a parameter gives: the texture that it
    /// names, or the colour that it holds, as a constant texture.
    pub fn get_spectrum_texture_or_const(&self, name: &str) -> (r: Result<
        TextureSource<Spectrum>,
        ParamError,
    >)
        ensures
            match find(self.params@, name@) {
                Some(Param { value: ParamValue::Spectrum(v), .. }) => r is Ok && r->Ok_0
                    == TextureSource::Constant(v),
                Some(Param { value: ParamValue::Texture(t), .. }) => r is Ok && r->Ok_0 is Named
                    && r->Ok_0->Named_0@ == t@,
                _ => r is Err && explains(r->Err_0, self.params@, name@),
            },
    {
        match self.get(name) {
            Some(ParamValue::Spectrum(v)) => Ok(TextureSource::Constant(*v)),
            Some(ParamValue::Texture(t)) => Ok(TextureSource::Named(t.clone())),
            _ => Err(self.error_for(name)),
        }
    }

    /// The transform in force, or the error that there is none.
    pub fn current_transform(&self) -> (r: Result<Transform, ParamError>)
        ensures
            match self.transform {
                Some(t) => r == Ok::<Transform, ParamError>(t),
                None => r == Err::<Transform, ParamError>(ParamError::NoTransform),
            },
    {
        match self.transform {
            Some(t) => Ok(t),
            None => Err(ParamError::NoTransform),
        }
    }

    /// Whether the orientation is reversed, or the error that this is not
    /// said.
    pub fn reverse_orientation(&self) -> (r: Result<bool, ParamError>)
        ensures
            match self.reverse_orientation {
                Some(b) => r == Ok::<bool, ParamError>(b),
                None => r == Err::<bool, ParamError>(ParamError::NoOrientation),
            },
    {
        match self.reverse_orientation {
            Some(b) => Ok(b),
            None => Err(ParamError::NoOrientation),
        }
    }
}

} // verus!
