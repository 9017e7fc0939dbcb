//! Single-precision numbers by their bit patterns.
//!
//! Depths and barycentric weights are IEEE-754 single-precision numbers. The
//! library holds each by its 32 bits: bit 31 is the sign, bits 0 to 30 the
//! magnitude. The order defined here is the order of the numbers that the
//! patterns stand for, so a caller hands over `to_bits()` of its value.

use vstd::prelude::*;

verus! {

/// The pattern of positive infinity.
pub const INFINITO: u32 = 0x7F80_0000;

/// The pattern of the number one.
pub const UNO: u32 = 0x3F80_0000;

/// The pattern that stands for every NaN where patterns are compared as
/// numbers are.
pub const SIN_NUMERO: u32 = 0x7FC0_0000;

/// The pattern without its sign bit.
pub open spec fn magnitud(bits: u32) -> int {
    if bits >= 0x8000_0000 {
        bits - 0x8000_0000
    } else {
        bits as int
    }
}

/// Whether the sign bit is set.
pub open spec fn es_negativo(bits: u32) -> bool {
    bits >= 0x8000_0000
}

/// Whether the pattern stands for no number at all (a NaN): its magnitude
/// lies above that of infinity.
pub open spec fn es_nan(bits: u32) -> bool {
    magnitud(bits) > 0x7F80_0000
}

/// An integer that orders the patterns as the numbers they stand for are
/// ordered. Both zeros have clave 0. It is meaningful only where `es_nan` is false.
pub open spec fn clave(bits: u32) -> int {
    if es_negativo(bits) {
        -magnitud(bits)
    } else {
        magnitud(bits)
    }
}

/// `a` is strictly less than `b`: both are numbers and `a` is the smaller.
/// A NaN is less than nothing and nothing is less than a NaN.
pub open spec fn menor(a: u32, b: u32) -> bool {
    !es_nan(a) && !es_nan(b) && clave(a) < clave(b)
}

/// Whether the pattern is a number that is not below zero. Both zeros count.
pub open spec fn no_negativo(a: u32) -> bool {
    !es_nan(a) && clave(a) >= 0
}

/// The pattern with every NaN taken to `SIN_NUMERO`. Which of the many
/// patterns of a NaN an operation gives differs from machine to machine;
/// after this, equal operands give equal results everywhere.
pub open spec fn canonico(bits: u32) -> u32 {
    if es_nan(bits) {
        SIN_NUMERO
    } else {
        bits
    }
}

/// Decides whether the pattern is a NaN.
pub fn es_patron_nan(bits: u32) -> (r: bool)
    ensures
        r == es_nan(bits),
{
    let m: u32 = if bits >= 0x8000_0000 {
        bits - 0x8000_0000
    } else {
        bits
    };
    m > 0x7F80_0000
}

/// The order key of a pattern as a machine integer.
pub fn clave_de(bits: u32) -> (k: i64)
    ensures
        k == clave(bits),
{
    if bits >= 0x8000_0000 {
        let m: u32 = bits - 0x8000_0000;
        0i64 - (m as i64)
    } else {
        bits as i64
    }
}

/// Decides whether `a` is strictly less than `b`.
pub fn es_menor(a: u32, b: u32) -> (r: bool)
    ensures
        r == menor(a, b),
{
    !es_patron_nan(a) && !es_patron_nan(b) && clave_de(a) < clave_de(b)
}

/// Decides whether the pattern is a number that is not below zero.
pub fn es_no_negativo(a: u32) -> (r: bool)
    ensures
        r == no_negativo(a),
{
    !es_patron_nan(a) && clave_de(a) >= 0
}

/// Nothing is less than itself.
pub proof fn ley_menor_irreflexiva(a: u32)
    ensures
        !menor(a, a),
{
}

/// If `a` is less than `b`, then `b` is not less than `a`.
pub proof fn ley_menor_asimetrica(a: u32, b: u32)
    requires
        menor(a, b),
    ensures
        !menor(b, a),
{
}

/// Less than something less is less.
pub proof fn ley_menor_transitiva(a: u32, b: u32, c: u32)
    requires
        menor(a, b),
        menor(b, c),
    ensures
        menor(a, c),
{
}

/// Of two numbers with different claves, exactly one is less than the other.
pub proof fn ley_menor_total(a: u32, b: u32)
    requires
        !es_nan(a),
        !es_nan(b),
        clave(a) != clave(b),
    ensures
        menor(a, b) != menor(b, a),
{
}

/// Infinity is a number, nothing is greater, and every other number is less.
pub proof fn ley_infinito_es_lo_mayor(a: u32)
    ensures
        !es_nan(INFINITO),
        !menor(INFINITO, a),
        !es_nan(a) && a != INFINITO ==> menor(a, INFINITO),
{
}

/// A number is not below zero exactly when it is not less than zero.
pub proof fn ley_no_negativo(a: u32)
    ensures
        no_negativo(a) <==> !es_nan(a) && !menor(a, 0),
{
}

} // verus!
