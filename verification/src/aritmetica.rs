//! Arithmetic of tables stored row by row: the entry in column `c` of row `f`
//! of a table with `n` columns is at place `f * n + c`.

use vstd::prelude::*;
use vstd::arithmetic::div_mod::{
    lemma_div_pos_is_pos,
    lemma_fundamental_div_mod,
    lemma_fundamental_div_mod_converse,
    lemma_mod_pos_bound,
};
use vstd::arithmetic::mul::{
    lemma_mul_inequality,
    lemma_mul_is_commutative,
    lemma_mul_is_distributive_add_other_way,
    lemma_mul_nonnegative,
};

verus! {

/// A place gives its row and its column back.
pub proof fn lema_fila_y_columna(f: int, c: int, n: int)
    requires
        0 <= f,
        0 <= c < n,
    ensures
        0 <= f * n,
        (f * n + c) / n == f,
        (f * n + c) % n == c,
{
    lemma_mul_nonnegative(f, n);
    lemma_fundamental_div_mod_converse(f * n + c, n, f, c);
}

/// A place inside the table lies before the end of the table, and the row
/// below starts `n` places later.
pub proof fn lema_lugar_acotado(f: int, c: int, filas: int, n: int)
    requires
        0 <= f < filas,
        0 <= c < n,
    ensures
        0 <= f * n + c < filas * n,
        (f + 1) * n == f * n + n,
{
    lemma_mul_nonnegative(f, n);
    lemma_mul_is_distributive_add_other_way(n, f, 1);
    lemma_mul_inequality(f + 1, filas, n);
}

/// A place before the end of the table has a row and a column inside the
/// table, and is the place of that row and column.
pub proof fn lema_lugar_en_tabla(k: int, filas: int, n: int)
    requires
        0 < n,
        0 <= k < filas * n,
    ensures
        0 <= k / n < filas,
        0 <= k % n < n,
        (k / n) * n + k % n == k,
{
    lemma_fundamental_div_mod(k, n);
    lemma_mod_pos_bound(k, n);
    lemma_div_pos_is_pos(k, n);
    lemma_mul_is_commutative(n, k / n);
    if k / n >= filas {
        lemma_mul_inequality(filas, k / n, n);
    }
}

} // verus!
