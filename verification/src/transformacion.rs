//! The chain of transformations from object space to the screen.
//!
//! The arithmetic on vectors and matrices is `nalgebra`'s. What is decided
//! here is the order in which the matrices are multiplied, and when a point
//! is divided by its fourth coordinate. Contracts speak of vectors and
//! matrices by the bit patterns of their entries, every NaN among them taken
//! to the one pattern `SIN_NUMERO`.

use vstd::prelude::*;
use nalgebra_glm::{Mat4, Vec3, Vec4};
use crate::escena::{CamaraVirtual, UniformesCPU, Vertice};
use crate::patron::{canonico, magnitud, UNO};

verus! {

/// The sixteen entries of a matrix, column after column, as bit patterns,
/// with `SIN_NUMERO` for an entry that is a NaN.
pub uninterp spec fn entradas(m: Mat4) -> Seq<u32>;

/// The four coordinates of a vector as bit patterns, with `SIN_NUMERO` for
/// a coordinate that is a NaN.
pub uninterp spec fn coordenadas4(v: Vec4) -> Seq<u32>;

/// The three coordinates of a vector as bit patterns, with `SIN_NUMERO` for
/// a coordinate that is a NaN.
pub uninterp spec fn coordenadas3(v: Vec3) -> Seq<u32>;

/// The entries of the product of two matrices, given by their entries, as
/// `nalgebra` computes it.
pub uninterp spec fn producto(a: Seq<u32>, b: Seq<u32>) -> Seq<u32>;

/// The coordinates of the product of a matrix and a vector, given by their
/// entries and coordinates, as `nalgebra` computes it.
pub uninterp spec fn aplicada(m: Seq<u32>, v: Seq<u32>) -> Seq<u32>;

/// The coordinates of a vector of three, given by its coordinates, after
/// each is divided by the number with the pattern `w`.
pub uninterp spec fn cociente(v: Seq<u32>, w: u32) -> Seq<u32>;

/// The entries of the view matrix of a camera, given by the coordinates of
/// its eye, of the point it looks at and of its up direction, as
/// `nalgebra_glm::look_at` computes it.
pub uninterp spec fn vista_de(ojo: Seq<u32>, objetivo: Seq<u32>, arriba: Seq<u32>) -> Seq<u32>;

/// Calls `nalgebra_glm::look_at`, the right-handed view matrix of a camera
/// at `ojo` that looks at `objetivo`. It is computed from the coordinates of
/// the three vectors alone; degenerate vectors give a matrix without
/// numbers, not a failure.
#[verifier::external_body]
fn mirar(ojo: &Vec3, objetivo: &Vec3, arriba: &Vec3) -> (m: Mat4)
    ensures
        entradas(m) == vista_de(coordenadas3(*ojo), coordenadas3(*objetivo), coordenadas3(*arriba)),
{
    nalgebra_glm::look_at(ojo, objetivo, arriba)
}

/// Multiplies two matrices with `nalgebra`'s `*` for `&Matrix * &Matrix`.
///
/// The product is computed from the entries of the two matrices and from
/// nothing else, so equal entries give equal results. Which sums of which
/// products in which order is left to `nalgebra`.
#[verifier::external_body]
fn multiplicar(a: &Mat4, b: &Mat4) -> (r: Mat4)
    ensures
        entradas(r) == producto(entradas(*a), entradas(*b)),
{
    a * b
}

/// Multiplies a matrix and a vector with `nalgebra`'s `*`; as for two
/// matrices, the result depends on the entries of the two alone.
#[verifier::external_body]
fn aplicar(m: &Mat4, v: &Vec4) -> (r: Vec4)
    ensures
        coordenadas4(r) == aplicada(entradas(*m), coordenadas4(*v)),
{
    m * v
}

/// Calls `nalgebra::Point3::to_homogeneous`, which copies the three
/// coordinates and appends a one.
#[verifier::external_body]
fn a_homogeneo(p: &Vec3) -> (r: Vec4)
    ensures
        coordenadas4(r) == coordenadas3(*p).push(UNO),
{
    nalgebra::Point3::from(*p).to_homogeneous()
}

/// Calls `nalgebra`'s `xyz`, which copies the first three coordinates.
#[verifier::external_body]
fn primeras_tres(v: &Vec4) -> (r: Vec3)
    ensures
        coordenadas3(r) == coordenadas4(*v).take(3),
{
    v.xyz()
}

/// Reads the fourth coordinate of a vector, `w`, and gives its bit pattern
/// as it lies in memory.
#[verifier::external_body]
fn cuarta(v: &Vec4) -> (w: u32)
    ensures
        canonico(w) == coordenadas4(*v)[3],
{
    v.w.to_bits()
}

/// Divides a vector by a number with `nalgebra`'s `/` for a vector and a
/// scalar: here `v` by the fourth coordinate of `w`. A division by zero does
/// not fail; it gives infinities or no number.
#[verifier::external_body]
fn dividir_entre_cuarta(v: &Vec3, w: &Vec4) -> (r: Vec3)
    ensures
        coordenadas3(r) == cociente(coordenadas3(*v), coordenadas4(*w)[3]),
{
    v / w.w
}

/// The entries of the model matrix: translation after rotation about z,
/// after rotation about y, after rotation about x, after scaling. The
/// product is taken from left to right.
pub open spec fn modelo_de(
    traslacion: Seq<u32>,
    rotacion_z: Seq<u32>,
    rotacion_y: Seq<u32>,
    rotacion_x: Seq<u32>,
    escala: Seq<u32>,
) -> Seq<u32> {
    producto(producto(producto(producto(traslacion, rotacion_z), rotacion_y), rotacion_x), escala)
}

/// The entries of the matrix that takes a point of the object to clip
/// space: projection after view after model, the product taken from left to
/// right.
pub open spec fn recorte_de(proyeccion: Seq<u32>, vista: Seq<u32>, modelo: Seq<u32>) -> Seq<u32> {
    producto(producto(proyeccion, vista), modelo)
}

/// Whether a pattern is one of the two zeros.
pub open spec fn es_cero(w: u32) -> bool {
    magnitud(w) == 0
}

/// A point of clip space after the division by its fourth coordinate, which
/// is left out where that coordinate is zero.
pub open spec fn dividido(clip: Seq<u32>) -> Seq<u32> {
    if es_cero(clip[3]) {
        clip.take(3)
    } else {
        cociente(clip.take(3), clip[3])
    }
}

/// Where a point of the object falls on the screen: to clip space, the
/// division, then the viewport matrix. The third coordinate is the depth.
pub open spec fn en_pantalla(posicion: Seq<u32>, recorte: Seq<u32>, viewport: Seq<u32>) -> Seq<u32> {
    let clip = aplicada(recorte, posicion.push(UNO));
    aplicada(viewport, dividido(clip).push(UNO)).take(3)
}

/// The view matrix of a camera: it looks from its eye at its target, with
/// its up direction upwards.
pub fn matriz_de_vista(camara: &CamaraVirtual) -> (m: Mat4)
    ensures
        entradas(m) == vista_de(
            coordenadas3(camara.ojo),
            coordenadas3(camara.objetivo),
            coordenadas3(camara.vector_arriba),
        ),
{
    mirar(&camara.ojo, &camara.objetivo, &camara.vector_arriba)
}

/// Composes the model matrix from its five factors.
pub fn componer_modelo(
    traslacion: &Mat4,
    rotacion_z: &Mat4,
    rotacion_y: &Mat4,
    rotacion_x: &Mat4,
    escala: &Mat4,
) -> (m: Mat4)
    ensures
        entradas(m) == modelo_de(
            entradas(*traslacion),
            entradas(*rotacion_z),
            entradas(*rotacion_y),
            entradas(*rotacion_x),
            entradas(*escala),
        ),
{
    let tz = multiplicar(traslacion, rotacion_z);
    let tzy = multiplicar(&tz, rotacion_y);
    let tzyx = multiplicar(&tzy, rotacion_x);
    multiplicar(&tzyx, escala)
}

/// The matrix from object space to clip space of a draw.
pub fn matriz_de_recorte(uniformes: &UniformesCPU) -> (m: Mat4)
    ensures
        entradas(m) == recorte_de(
            entradas(uniformes.projection_matrix),
            entradas(uniformes.view_matrix),
            entradas(uniformes.model_matrix),
        ),
{
    let pv = multiplicar(&uniformes.projection_matrix, &uniformes.view_matrix);
    multiplicar(&pv, &uniformes.model_matrix)
}

/// Divides a point of clip space by its fourth coordinate, unless that is zero.
pub fn dividir(clip: &Vec4) -> (r: Vec3)
    ensures
        coordenadas3(r) == dividido(coordenadas4(*clip)),
{
    let w: u32 = cuarta(clip);
    let xyz = primeras_tres(clip);
    if w == 0 || w == 0x8000_0000 {
        xyz
    } else {
        dividir_entre_cuarta(&xyz, clip)
    }
}

/// Takes a point of the object to the screen with the matrices of a draw.
pub fn proyectar(posicion: &Vec3, uniformes: &UniformesCPU) -> (r: Vec3)
    ensures
        coordenadas3(r) == en_pantalla(
            coordenadas3(*posicion),
            recorte_de(
                entradas(uniformes.projection_matrix),
                entradas(uniformes.view_matrix),
                entradas(uniformes.model_matrix),
            ),
            entradas(uniformes.viewport_matrix),
        ),
{
    let recorte = matriz_de_recorte(uniformes);
    let clip = aplicar(&recorte, &a_homogeneo(posicion));
    let ndc = dividir(&clip);
    let pantalla = aplicar(&uniformes.viewport_matrix, &a_homogeneo(&ndc));
    primeras_tres(&pantalla)
}

/// Takes a vertex to the screen: its transformed position becomes the place
/// where it falls; everything else stays.
pub fn transformar_vertice(vertice: &Vertice, uniformes: &UniformesCPU) -> (r: Vertice)
    ensures
        coordenadas3(r.posicion_transformada) == en_pantalla(
            coordenadas3(vertice.posicion),
            recorte_de(
                entradas(uniformes.projection_matrix),
                entradas(uniformes.view_matrix),
                entradas(uniformes.model_matrix),
            ),
            entradas(uniformes.viewport_matrix),
        ),
        r.posicion == vertice.posicion,
        r.vector_normal == vertice.vector_normal,
        r.coordenadas_textura == vertice.coordenadas_textura,
        r.normal_transformada == vertice.normal_transformada,
{
    Vertice {
        posicion: vertice.posicion,
        vector_normal: vertice.vector_normal,
        coordenadas_textura: vertice.coordenadas_textura,
        posicion_transformada: proyectar(&vertice.posicion, uniformes),
        normal_transformada: vertice.normal_transformada,
    }
}

} // verus!
