//! Choosing among what a device offers.
//!
//! A device lists the surface formats and the presentation modes it can do,
//! in its own order of preference. The program wants one of a certain kind
//! if there is one, and otherwise takes what the device likes best.

use vstd::prelude::*;

verus! {

/// The candidate to take, given for each candidate whether it is of the
/// wanted kind: the first that is, or the first of all where none is. It is
/// meaningful where there is a candidate.
pub open spec fn preferido(deseados: Seq<bool>) -> int {
    if exists|i: int| 0 <= i < deseados.len() && deseados[i] {
        choose|i: int| es_primero_deseado(deseados, i)
    } else {
        0
    }
}

/// Whether `i` is the first candidate of the wanted kind.
pub open spec fn es_primero_deseado(deseados: Seq<bool>, i: int) -> bool {
    &&& 0 <= i < deseados.len()
    &&& deseados[i]
    &&& forall|j: int| 0 <= j < i ==> !deseados[j]
}

/// Chooses a candidate: the first of the wanted kind, or the first of all
/// where none is; `None` exactly where there is no candidate.
pub fn elegir_preferido(deseados: &Vec<bool>) -> (r: Option<usize>)
    ensures
        r is None <==> deseados@.len() == 0,
        r matches Some(i) ==> {
            &&& i < deseados@.len()
            &&& i == preferido(deseados@)
            &&& deseados@[i as int] ==> es_primero_deseado(deseados@, i as int)
            &&& !deseados@[i as int] ==> i == 0 && forall|j: int|
                0 <= j < deseados@.len() ==> !deseados@[j]
        },
{
    if deseados.len() == 0 {
        return None;
    }
    let mut i: usize = 0;
    while i < deseados.len()
        invariant
            i <= deseados@.len(),
            forall|j: int| 0 <= j < i ==> !deseados@[j],
        decreases deseados@.len() - i,
    {
        if deseados[i] {
            proof {
                ley_primero_deseado_unico(deseados@, i as int, preferido(deseados@));
            }
            return Some(i);
        }
        i += 1;
    }
    Some(0)
}

/// There is at most one first candidate of the wanted kind.
pub proof fn ley_primero_deseado_unico(deseados: Seq<bool>, i: int, j: int)
    requires
        es_primero_deseado(deseados, i),
    ensures
        es_primero_deseado(deseados, preferido(deseados)),
        es_primero_deseado(deseados, j) ==> i == j,
        preferido(deseados) == i,
{
    let p = preferido(deseados);
    assert(es_primero_deseado(deseados, p));
    if p < i {
        assert(!deseados[p]);
    } else if i < p {
        assert(!deseados[i]);
    }
    if es_primero_deseado(deseados, j) {
        if j < i {
            assert(!deseados[j]);
        } else if i < j {
            assert(!deseados[i]);
        }
    }
}

} // verus!
