//! The records that the stages of the pipeline hand to each other.
//!
//! Vectors and matrices are values of `nalgebra`, which the library carries
//! without looking into them.

use vstd::prelude::*;

verus! {

/// `nalgebra::Matrix`, the type behind every vector and matrix of
/// `nalgebra_glm`. Nothing is claimed of what a value holds.
#[verifier::external_type_specification]
#[verifier::external_body]
#[verifier::reject_recursive_types(T)]
#[verifier::reject_recursive_types(R)]
#[verifier::reject_recursive_types(C)]
#[verifier::reject_recursive_types(S)]
pub struct ExMatrix<T, R, C, S>(nalgebra::Matrix<T, R, C, S>);

/// `nalgebra::Const`, a dimension known at compile time.
#[verifier::external_type_specification]
#[verifier::external_body]
pub struct ExConst<const R: usize>(nalgebra::Const<R>);

/// `nalgebra::ArrayStorage`, the array that holds the entries of a matrix
/// of fixed size.
#[verifier::external_type_specification]
#[verifier::external_body]
#[verifier::reject_recursive_types(T)]
pub struct ExArrayStorage<T, const R: usize, const C: usize>(nalgebra::ArrayStorage<T, R, C>);

/// A vertex of a mesh: where it lies and where it points, before and after
/// it is taken to the screen.
#[derive(Debug, Clone, Copy)]
pub struct Vertice {
    pub posicion: nalgebra_glm::Vec3,
    pub vector_normal: nalgebra_glm::Vec3,
    pub coordenadas_textura: nalgebra_glm::Vec3,
    pub posicion_transformada: nalgebra_glm::Vec3,
    pub normal_transformada: nalgebra_glm::Vec3,
}

impl Vertice {
    /// A vertex that has not been transformed yet: its transformed position
    /// and normal are those it was given.
    pub fn nuevo(pos: nalgebra_glm::Vec3, norm: nalgebra_glm::Vec3, tex: nalgebra_glm::Vec3) -> (v: Self)
        ensures
            v.posicion == pos,
            v.vector_normal == norm,
            v.coordenadas_textura == tex,
            v.posicion_transformada == pos,
            v.normal_transformada == norm,
    {
        Vertice {
            posicion: pos,
            vector_normal: norm,
            coordenadas_textura: tex,
            posicion_transformada: pos,
            normal_transformada: norm,
        }
    }
}

/// A camera: where the eye is, what it looks at and which way is up.
pub struct CamaraVirtual {
    pub ojo: nalgebra_glm::Vec3,
    pub objetivo: nalgebra_glm::Vec3,
    pub vector_arriba: nalgebra_glm::Vec3,
}

impl CamaraVirtual {
    pub fn nueva(
        posicion_ojo: nalgebra_glm::Vec3,
        punto_objetivo: nalgebra_glm::Vec3,
        dir_arriba: nalgebra_glm::Vec3,
    ) -> (c: Self)
        ensures
            c.ojo == posicion_ojo,
            c.objetivo == punto_objetivo,
            c.vector_arriba == dir_arriba,
    {
        CamaraVirtual { ojo: posicion_ojo, objetivo: punto_objetivo, vector_arriba: dir_arriba }
    }
}

/// What stays the same for every vertex and fragment of one draw.
pub struct UniformesCPU {
    pub projection_matrix: nalgebra_glm::Mat4,
    pub view_matrix: nalgebra_glm::Mat4,
    pub model_matrix: nalgebra_glm::Mat4,
    pub viewport_matrix: nalgebra_glm::Mat4,
    /// The animation clock, in milliseconds.
    pub time: u32,
    /// Selector of the active shader.
    pub sombreador: u32,
}

} // verus!
