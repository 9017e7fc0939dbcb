//! The integer side of scan conversion: the box of pixels that a triangle
//! may cover, and the test that decides whether a pixel is covered.

use vstd::prelude::*;
use crate::patron::{es_no_negativo, no_negativo};

verus! {

/// A box of pixels; all four bounds belong to it.
#[derive(Debug, Clone, Copy, PartialEq, Eq, Structural)]
pub struct Caja {
    pub x_min: usize,
    pub y_min: usize,
    pub x_max: usize,
    pub y_max: usize,
}

impl Caja {
    /// Whether column `x` of row `y` lies in the box.
    pub open spec fn contiene(self, x: int, y: int) -> bool {
        self.x_min <= x <= self.x_max && self.y_min <= y <= self.y_max
    }
}

/// Whether column `x` of row `y` lies both in the box with the given bounds
/// and in a buffer of `ancho` columns and `alto` rows.
pub open spec fn en_caja_y_pantalla(
    x_min: i64,
    y_min: i64,
    x_max: i64,
    y_max: i64,
    ancho: usize,
    alto: usize,
    x: int,
    y: int,
) -> bool {
    x_min <= x <= x_max && y_min <= y <= y_max && 0 <= x < ancho && 0 <= y < alto
}

/// A bound of the box held inside `0 ..= ultimo`.
pub open spec fn acotado(v: i64, ultimo: usize) -> int {
    if v < 0 {
        0
    } else if v > ultimo {
        ultimo as int
    } else {
        v as int
    }
}

/// A bound held inside `0 ..= ultimo`.
fn acotar(v: i64, ultimo: usize) -> (r: usize)
    ensures
        r == acotado(v, ultimo),
{
    if v < 0 {
        0
    } else if (v as u64) > (ultimo as u64) {
        ultimo
    } else {
        v as usize
    }
}

/// Cuts the bounding box of a triangle down to the buffer: each bound is held
/// inside `0 ..= ancho - 1` or `0 ..= alto - 1`.
///
/// The result is `None` exactly when no pixel lies both in the box and in
/// the buffer; otherwise it is the box of exactly those pixels.
pub fn recortar_caja(x_min: i64, y_min: i64, x_max: i64, y_max: i64, ancho: usize, alto: usize) -> (r:
    Option<Caja>)
    ensures
        r is None <==> forall|x: int, y: int|
            !en_caja_y_pantalla(x_min, y_min, x_max, y_max, ancho, alto, x, y),
        r matches Some(c) ==> {
            &&& c.x_min == acotado(x_min, (ancho - 1) as usize)
            &&& c.x_max == acotado(x_max, (ancho - 1) as usize)
            &&& c.y_min == acotado(y_min, (alto - 1) as usize)
            &&& c.y_max == acotado(y_max, (alto - 1) as usize)
            &&& c.x_min <= c.x_max < ancho
            &&& c.y_min <= c.y_max < alto
            &&& forall|x: int, y: int|
                c.contiene(x, y) <==> en_caja_y_pantalla(
                    x_min,
                    y_min,
                    x_max,
                    y_max,
                    ancho,
                    alto,
                    x,
                    y,
                )
        },
{
    if ancho == 0 || alto == 0 || x_max < 0 || y_max < 0 || x_min > x_max || y_min > y_max {
        return None;
    }
    if (x_min >= 0 && (x_min as u64) >= (ancho as u64)) || (y_min >= 0 && (y_min as u64) >= (
    alto as u64)) {
        return None;
    }
    let c = Caja {
        x_min: acotar(x_min, ancho - 1),
        y_min: acotar(y_min, alto - 1),
        x_max: acotar(x_max, ancho - 1),
        y_max: acotar(y_max, alto - 1),
    };
    proof {
        assert(en_caja_y_pantalla(
            x_min,
            y_min,
            x_max,
            y_max,
            ancho,
            alto,
            c.x_min as int,
            c.y_min as int,
        ));
    }
    Some(c)
}

/// Whether a pixel whose centre has these three barycentric weights, each
/// given by its pattern, is covered by the triangle: none of the weights is
/// below zero, so a centre on an edge is covered.
pub open spec fn cubierto(w1: u32, w2: u32, w3: u32) -> bool {
    no_negativo(w1) && no_negativo(w2) && no_negativo(w3)
}

/// The coverage test on the patterns of the three weights.
pub fn pixel_cubierto(w1: u32, w2: u32, w3: u32) -> (r: bool)
    ensures
        r == cubierto(w1, w2, w3),
{
    es_no_negativo(w1) && es_no_negativo(w2) && es_no_negativo(w3)
}

} // verus!
