//! The test for an approximate Karush-Kuhn-Tucker point.

use crate::defs::{
    gradientes_spec, multiplicadores_bastam, pontos_spec, valores_spec, Configuracao, Funcao,
    MultiplicadoresDeLagrange, Ponto, Problema, DIM,
};
use crate::escalar::{zero, zero_spec, Escalar};
use crate::utils::{gradiente_spec, prox_o_suficiente_de_zero, quase_zero, somatorio};
use vstd::prelude::*;

verus! {

/// The terms `m_j * grads_j[idx]`: coordinate `idx` of each gradient, weighted by its multiplier.
pub open spec fn termos_gradiente<S: Escalar>(m: Seq<S>, grads: Seq<Seq<S>>, idx: int) -> spec_fn(
    int,
) -> S {
    |j: int| m[j].multiplica_spec(grads[j][idx])
}

/// Coordinate `idx` of the gradient of the Lagrangian: that of the objective, plus the
/// weighted sum over the inequality constraints, plus the one over the equality constraints.
pub open spec fn gradiente_lagrangiana<S: Escalar>(
    grad_f: Seq<S>,
    grads_g: Seq<Seq<S>>,
    grads_h: Seq<Seq<S>>,
    lambdas: Seq<S>,
    mus: Seq<S>,
    idx: int,
) -> S {
    grad_f[idx].soma_spec(
        somatorio(termos_gradiente(lambdas, grads_g, idx), grads_g.len() as int),
    ).soma_spec(somatorio(termos_gradiente(mus, grads_h, idx), grads_h.len() as int))
}

/// No multiplier of an inequality constraint is negative.
pub open spec fn lambdas_nao_negativos<S: Escalar>(lambdas: Seq<S>) -> bool {
    forall|j: int| 0 <= j < lambdas.len() ==> !(#[trigger] lambdas[j]).menor_spec(zero_spec::<S>())
}

/// No inequality constraint is violated.
pub open spec fn desigualdades_satisfeitas<S: Escalar>(g: Seq<S>) -> bool {
    forall|j: int| 0 <= j < g.len() ==> !zero_spec::<S>().menor_spec(#[trigger] g[j])
}

/// Every equality constraint is closer to zero than `eps`.
pub open spec fn igualdades_satisfeitas<S: Escalar>(h: Seq<S>, eps: S) -> bool {
    forall|r: int| 0 <= r < h.len() ==> quase_zero(#[trigger] h[r], eps)
}

/// Every product of a multiplier and its inequality constraint is closer to zero than `eps`.
pub open spec fn folgas_complementares<S: Escalar>(lambdas: Seq<S>, g: Seq<S>, eps: S) -> bool {
    forall|j: int|
        0 <= j < g.len() ==> quase_zero(lambdas[j].multiplica_spec(#[trigger] g[j]), eps)
}

/// Every coordinate of the gradient of the Lagrangian is closer to zero than `eps`.
pub open spec fn gradiente_nulo<S: Escalar>(
    grad_f: Seq<S>,
    grads_g: Seq<Seq<S>>,
    grads_h: Seq<Seq<S>>,
    lambdas: Seq<S>,
    mus: Seq<S>,
    eps: S,
) -> bool {
    forall|idx: int|
        0 <= idx < DIM ==> quase_zero(
            #[trigger] gradiente_lagrangiana(grad_f, grads_g, grads_h, lambdas, mus, idx),
            eps,
        )
}

/// The five conditions of a stationary point, on the values and gradients of the
/// objective and of the constraints at the point.
pub open spec fn condicoes_kkt<S: Escalar>(
    g: Seq<S>,
    h: Seq<S>,
    grad_f: Seq<S>,
    grads_g: Seq<Seq<S>>,
    grads_h: Seq<Seq<S>>,
    lambdas: Seq<S>,
    mus: Seq<S>,
    eps: S,
) -> bool {
    &&& lambdas_nao_negativos(lambdas)
    &&& desigualdades_satisfeitas(g)
    &&& igualdades_satisfeitas(h, eps)
    &&& folgas_complementares(lambdas, g, eps)
    &&& gradiente_nulo(grad_f, grads_g, grads_h, lambdas, mus, eps)
}

/// Whether `x` is a stationary point of `problema` for the given multipliers.
pub open spec fn ponto_estacionario<S: Escalar, F: Funcao<S>>(
    problema: &Problema<S, F>,
    x: Ponto<S>,
    multiplicadores: &MultiplicadoresDeLagrange<S>,
    config: &Configuracao<S>,
) -> bool {
    condicoes_kkt(
        valores_spec(problema.restricoes_desigualdades@, x),
        valores_spec(problema.restricoes_igualdades@, x),
        gradiente_spec(&problema.funcao_objetivo, x, config.eps),
        gradientes_spec(problema.restricoes_desigualdades@, x, config.eps),
        gradientes_spec(problema.restricoes_igualdades@, x, config.eps),
        multiplicadores.lambdas@,
        multiplicadores.mus@,
        config.eps,
    )
}

/// The sum of coordinate `idx` of the gradients, each weighted by its multiplier.
fn gradiente_acumulado<S: Escalar>(m: &Vec<S>, grads: &Vec<Ponto<S>>, idx: usize) -> (r: S)
    requires
        idx < DIM,
        grads.len() <= m.len(),
    ensures
        r == somatorio(
            termos_gradiente(m@, pontos_spec(grads), idx as int),
            grads.len() as int,
        ),
{
    let mut acc = zero::<S>();
    let mut j: usize = 0;
    while j < grads.len()
        invariant
            j <= grads.len(),
            idx < DIM,
            grads.len() <= m.len(),
            acc == somatorio(
                termos_gradiente(m@, pontos_spec(grads), idx as int),
                j as int,
            ),
        decreases grads.len() - j,
    {
        let grad = grads[j];
        acc = acc.soma(m[j].multiplica(grad[idx]));
        j += 1;
    }
    acc
}

/// Tests the five conditions of a stationary point at `x`: no negative `lambda`, no
/// violated inequality constraint, and, each up to the tolerance `config.eps`, every
/// equality constraint zero, every product of a `lambda` and its constraint zero, and
/// every coordinate of the gradient of the Lagrangian zero.
#[verifier::loop_isolation(false)]
pub fn checar_ponto_estacionario<S: Escalar, F: Funcao<S>>(
    problema: &Problema<S, F>,
    x: &Ponto<S>,
    multiplicadores_de_lagrange: &MultiplicadoresDeLagrange<S>,
    config: &Configuracao<S>,
) -> (r: bool)
    requires
        multiplicadores_bastam(problema, multiplicadores_de_lagrange),
    ensures
        r == ponto_estacionario(problema, *x, multiplicadores_de_lagrange, config),
{
    let ghost lambdas = multiplicadores_de_lagrange.lambdas@;
    let ghost mus = multiplicadores_de_lagrange.mus@;
    let mut t: usize = 0;
    while t < multiplicadores_de_lagrange.lambdas.len()
        invariant
            t <= lambdas.len(),
            lambdas == multiplicadores_de_lagrange.lambdas@,
            forall|j: int| 0 <= j < t ==> !(#[trigger] lambdas[j]).menor_spec(zero_spec::<S>()),
        decreases lambdas.len() - t,
    {
        if multiplicadores_de_lagrange.lambdas[t].menor(zero::<S>()) {
            assert(lambdas[t as int].menor_spec(zero_spec::<S>()));
            return false;
        }
        t += 1;
    }
    let (_, grad_fn_obj, g, h, grads_gj, grads_hr) = problema.avaliar_em(*x, config);
    let mi = problema.mi();
    let me = problema.me();
    assert(grads_gj.len() == mi) by {
        assert(pontos_spec(&grads_gj).len() == mi);
    }
    assert(grads_hr.len() == me) by {
        assert(pontos_spec(&grads_hr).len() == me);
    }
    let mut j: usize = 0;
    while j < mi
        invariant
            j <= mi,
            mi == g.len(),
            forall|k: int| 0 <= k < j ==> !zero_spec::<S>().menor_spec(#[trigger] g[k]),
        decreases mi - j,
    {
        if zero::<S>().menor(g[j]) {
            assert(zero_spec::<S>().menor_spec(g@[j as int]));
            return false;
        }
        j += 1;
    }
    let mut r: usize = 0;
    while r < me
        invariant
            r <= me,
            me == h.len(),
            forall|k: int| 0 <= k < r ==> quase_zero(#[trigger] h[k], config.eps),
        decreases me - r,
    {
        if !prox_o_suficiente_de_zero(h[r], config) {
            assert(!quase_zero(h@[r as int], config.eps));
            return false;
        }
        r += 1;
    }
    let mut j: usize = 0;
    while j < mi
        invariant
            j <= mi,
            mi == g.len(),
            mi <= lambdas.len(),
            lambdas == multiplicadores_de_lagrange.lambdas@,
            forall|k: int|
                0 <= k < j ==> quase_zero(lambdas[k].multiplica_spec(#[trigger] g[k]), config.eps),
        decreases mi - j,
    {
        let lbd_gjx = multiplicadores_de_lagrange.lambdas[j].multiplica(g[j]);
        if !prox_o_suficiente_de_zero(lbd_gjx, config) {
            assert(!quase_zero(lambdas[j as int].multiplica_spec(g@[j as int]), config.eps));
            return false;
        }
        j += 1;
    }
    let mut idx: usize = 0;
    while idx < DIM
        invariant
            idx <= DIM,
            grads_gj.len() <= lambdas.len(),
            grads_hr.len() <= mus.len(),
            lambdas == multiplicadores_de_lagrange.lambdas@,
            mus == multiplicadores_de_lagrange.mus@,
            forall|k: int|
                0 <= k < idx ==> quase_zero(
                    #[trigger] gradiente_lagrangiana(
                        grad_fn_obj@,
                        pontos_spec(&grads_gj),
                        pontos_spec(&grads_hr),
                        lambdas,
                        mus,
                        k,
                    ),
                    config.eps,
                ),
        decreases DIM - idx,
    {
        let gj_acumulado = gradiente_acumulado(
            &multiplicadores_de_lagrange.lambdas,
            &grads_gj,
            idx,
        );
        let hr_acumulado = gradiente_acumulado(&multiplicadores_de_lagrange.mus, &grads_hr, idx);
        let soma = grad_fn_obj[idx].soma(gj_acumulado).soma(hr_acumulado);
        if !prox_o_suficiente_de_zero(soma, config) {
            assert(!quase_zero(
                gradiente_lagrangiana(
                    grad_fn_obj@,
                    pontos_spec(&grads_gj),
                    pontos_spec(&grads_hr),
                    lambdas,
                    mus,
                    idx as int,
                ),
                config.eps,
            ));
            return false;
        }
        idx += 1;
    }
    true
}

/// What a stationary point holds of the constraints: no inequality constraint is above
/// zero, every equality constraint is closer to zero than the tolerance, and so is every
/// product of a multiplier and its inequality constraint.
pub proof fn lei_ponto_estacionario_viavel<S: Escalar, F: Funcao<S>>(
    problema: &Problema<S, F>,
    x: Ponto<S>,
    multiplicadores: &MultiplicadoresDeLagrange<S>,
    config: &Configuracao<S>,
)
    requires
        ponto_estacionario(problema, x, multiplicadores, config),
    ensures
        forall|j: int|
            0 <= j < problema.restricoes_desigualdades.len() ==> !zero_spec::<S>().menor_spec(
                (#[trigger] problema.restricoes_desigualdades[j]).valor(x),
            ),
        forall|j: int|
            0 <= j < problema.restricoes_desigualdades.len() ==> quase_zero(
                multiplicadores.lambdas[j].multiplica_spec(
                    (#[trigger] problema.restricoes_desigualdades[j]).valor(x),
                ),
                config.eps,
            ),
        forall|r: int|
            0 <= r < problema.restricoes_igualdades.len() ==> quase_zero(
                (#[trigger] problema.restricoes_igualdades[r]).valor(x),
                config.eps,
            ),
{
    let g = valores_spec(problema.restricoes_desigualdades@, x);
    let h = valores_spec(problema.restricoes_igualdades@, x);
    assert(desigualdades_satisfeitas(g));
    assert(folgas_complementares(multiplicadores.lambdas@, g, config.eps));
    assert(igualdades_satisfeitas(h, config.eps));
    assert forall|j: int| 0 <= j < problema.restricoes_desigualdades.len() implies !zero_spec::<
        S,
    >().menor_spec((#[trigger] problema.restricoes_desigualdades[j]).valor(x)) && quase_zero(
        multiplicadores.lambdas[j].multiplica_spec(problema.restricoes_desigualdades[j].valor(x)),
        config.eps,
    ) by {
        assert(g[j] == problema.restricoes_desigualdades[j].valor(x));
    }
    assert forall|r: int| 0 <= r < problema.restricoes_igualdades.len() implies quase_zero(
        (#[trigger] problema.restricoes_igualdades[r]).valor(x),
        config.eps,
    ) by {
        assert(h[r] == problema.restricoes_igualdades[r].valor(x));
    }
}

/// A point is stationary only for multipliers of the inequality constraints that are not
/// negative.
pub proof fn lei_certificado_nao_negativo<S: Escalar, F: Funcao<S>>(
    problema: &Problema<S, F>,
    x: Ponto<S>,
    multiplicadores: &MultiplicadoresDeLagrange<S>,
    config: &Configuracao<S>,
    j: int,
)
    requires
        ponto_estacionario(problema, x, multiplicadores, config),
        0 <= j < multiplicadores.lambdas.len(),
    ensures
        !multiplicadores.lambdas[j].menor_spec(zero_spec::<S>()),
{
    assert(lambdas_nao_negativos(multiplicadores.lambdas@));
}

/// Testing a point twice gives the same answer: the answer depends on the problem, the
/// point, the multipliers and the constants alone.
pub proof fn lei_checagem_repetida<S: Escalar, F: Funcao<S>>(
    problema: &Problema<S, F>,
    x: Ponto<S>,
    multiplicadores: &MultiplicadoresDeLagrange<S>,
    config: &Configuracao<S>,
    primeira: bool,
    segunda: bool,
)
    requires
        primeira == ponto_estacionario(problema, x, multiplicadores, config),
        segunda == ponto_estacionario(problema, x, multiplicadores, config),
    ensures
        primeira == segunda,
{
}

} // verus!
