//! Estimates of the Lagrange multipliers, read off the dual solution of the linear
//! subproblem.

use crate::defs::{Funcao, Problema};
use crate::escalar::Escalar;
use vstd::prelude::*;

verus! {

/// The `lambda`s: the first `mi` dual values, those of the rows of the linearised
/// inequality constraints.
pub open spec fn lambdas_da_dual<S: Escalar>(dual: Seq<S>, mi: int) -> Seq<S> {
    dual.subrange(0, mi)
}

/// The `mu`s: each equality constraint has two rows, and its `mu` is the dual value of the
/// first minus that of the second.
pub open spec fn mus_da_dual<S: Escalar>(dual: Seq<S>, mi: int, me: int) -> Seq<S> {
    Seq::new(me as nat, |r: int| dual[mi + r].subtrai_spec(dual[mi + me + r]))
}

/// Extracts the estimates of the multipliers from the solution of the dual problem: its
/// value and the values of its variables, one for each row of the linear subproblem.
pub fn extrair_multiplicadores_de_lagrange<S: Escalar, F: Funcao<S>>(
    problema: &Problema<S, F>,
    solucao_dual: (S, Vec<S>),
) -> (r: (Vec<S>, Vec<S>))
    requires
        solucao_dual.1.len() >= problema.restricoes_desigualdades.len() + 2
            * problema.restricoes_igualdades.len(),
    ensures
        r.0@ == lambdas_da_dual(
            solucao_dual.1@,
            problema.restricoes_desigualdades.len() as int,
        ),
        r.1@ == mus_da_dual(
            solucao_dual.1@,
            problema.restricoes_desigualdades.len() as int,
            problema.restricoes_igualdades.len() as int,
        ),
{
    let mi = problema.restricoes_desigualdades.len();
    let me = problema.restricoes_igualdades.len();
    let dual = &solucao_dual.1;
    let mut lambdas: Vec<S> = Vec::new();
    let mut j: usize = 0;
    while j < mi
        invariant
            j <= mi,
            dual.len() >= mi + 2 * me,
            lambdas.len() == j,
            forall|k: int| 0 <= k < j ==> #[trigger] lambdas[k] == dual[k],
        decreases mi - j,
    {
        lambdas.push(dual[j]);
        j += 1;
    }
    let mut mus: Vec<S> = Vec::new();
    let mut r: usize = 0;
    while r < me
        invariant
            r <= me,
            dual.len() >= mi + 2 * me,
            mus.len() == r,
            forall|k: int|
                0 <= k < r ==> #[trigger] mus[k] == dual[mi + k].subtrai_spec(dual[mi + me + k]),
        decreases me - r,
    {
        let mup = dual[mi + r];
        let mun = dual[mi + me + r];
        mus.push(mup.subtrai(mun));
        r += 1;
    }
    assert(lambdas@ =~= lambdas_da_dual(solucao_dual.1@, mi as int));
    assert(mus@ =~= mus_da_dual(solucao_dual.1@, mi as int, me as int));
    (lambdas, mus)
}

} // verus!
