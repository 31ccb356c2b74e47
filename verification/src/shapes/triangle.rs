//! Meshes of triangles, as data.
use vstd::prelude::*;
use crate::geometry::{Normal3, Point2f, Point3f, Transform, Vec3f};

verus! {

/// A mesh of triangles: every three indices name the corners of one
/// triangle among the vertices.
#[derive(Debug)]
pub struct TriangleMesh {
    pub object_to_world: Transform,
    pub indices: Vec<u32>,
    pub vertices: Vec<Point3f>,
    pub normals: Option<Vec<Normal3>>,
    pub tangents: Option<Vec<Vec3f>>,
    pub tex_coords: Option<Vec<Point2f>>,
    pub reverse_orientation: bool,
}

impl TriangleMesh {
    pub fn new(
        object_to_world: Transform,
        indices: Vec<u32>,
        vertices: Vec<Point3f>,
        normals: Option<Vec<Normal3>>,
        tangents: Option<Vec<Vec3f>>,
        tex_coords: Option<Vec<Point2f>>,
        reverse_orientation: bool,
    ) -> (mesh: TriangleMesh)
        ensures
            mesh.object_to_world == object_to_world,
            mesh.indices == indices,
            mesh.vertices == vertices,
            mesh.normals == normals,
            mesh.tangents == tangents,
            mesh.tex_coords == tex_coords,
            mesh.reverse_orientation == reverse_orientation,
    {
        TriangleMesh {
            object_to_world,
            indices,
            vertices,
            normals,
            tangents,
            tex_coords,
            reverse_orientation,
        }
    }
}

} // verus!
