//! The update of the trust region from the step that the last iteration took.

use crate::defs::{Configuracao, Funcao, Ponto, Problema, DIM};
use crate::escalar::{menor_ou_igual_spec, zero, zero_spec, Escalar};
use crate::utils::{max, max_spec, produto_escalar, produto_escalar_spec};
use vstd::prelude::*;

verus! {

/// How far coordinate `l` moved, relative to the bounds of the region: the larger of the
/// ratios of the move to the lower and to the upper bound.
pub open spec fn razao_do_movimento<S: Escalar>(
    d_l: Seq<S>,
    d_u: Seq<S>,
    x_novo: Seq<S>,
    x_velho: Seq<S>,
    l: int,
) -> S {
    max_spec(
        x_novo[l].subtrai_spec(x_velho[l]).divide_spec(d_l[l]),
        x_novo[l].subtrai_spec(x_velho[l]).divide_spec(d_u[l]),
    )
}

/// The largest ratio among the first `n` coordinates; among equal ones, the last.
pub open spec fn maior_razao<S: Escalar>(
    d_l: Seq<S>,
    d_u: Seq<S>,
    x_novo: Seq<S>,
    x_velho: Seq<S>,
    n: int,
) -> S
    decreases n,
{
    if n <= 1 {
        razao_do_movimento(d_l, d_u, x_novo, x_velho, 0)
    } else {
        let anterior = maior_razao(d_l, d_u, x_novo, x_velho, n - 1);
        let razao = razao_do_movimento(d_l, d_u, x_novo, x_velho, n - 1);
        if razao.menor_spec(anterior) {
            anterior
        } else {
            razao
        }
    }
}

/// The largest ratio over all coordinates.
pub open spec fn delta_max_spec<S: Escalar>(
    d_l: Seq<S>,
    d_u: Seq<S>,
    x_novo: Seq<S>,
    x_velho: Seq<S>,
) -> S {
    maior_razao(d_l, d_u, x_novo, x_velho, DIM as int)
}

/// The bound after the shrinking step: scaled by `delta_max / delta_dec` where `delta_max`
/// is below `delta_dec`.
pub open spec fn encolhido<S: Escalar>(
    d: Seq<S>,
    delta_max: S,
    config: &Configuracao<S>,
) -> Seq<S> {
    if delta_max.menor_spec(config.delta_dec) {
        produto_escalar_spec(delta_max.divide_spec(config.delta_dec), d)
    } else {
        d
    }
}

/// The bound after the growing step: scaled by `2 delta_max` where `delta_max` is above
/// `delta_inc`.
pub open spec fn crescido<S: Escalar>(d: Seq<S>, delta_max: S, config: &Configuracao<S>) -> Seq<S> {
    if config.delta_inc.menor_spec(delta_max) {
        produto_escalar_spec(S::de_razao_spec(2, 1).multiplica_spec(delta_max), d)
    } else {
        d
    }
}

/// A bound of the region after the update.
pub open spec fn limite_atualizado<S: Escalar>(
    d: Seq<S>,
    delta_max: S,
    config: &Configuracao<S>,
) -> Seq<S> {
    crescido(encolhido(d, delta_max, config), delta_max, config)
}

/// Compares the move from `x_velho` to `x_novo` with the trust region of the problem and
/// returns the new lower and upper bounds: shrunk where the move was small, grown where it
/// was large, and unchanged otherwise.
pub fn verificar_regiao_de_confianca<S: Escalar, F: Funcao<S>>(
    problema: &Problema<S, F>,
    x_novo: &Ponto<S>,
    x_velho: &Ponto<S>,
    config: &Configuracao<S>,
) -> (r: (Ponto<S>, Ponto<S>))
    ensures
        r.0@ == limite_atualizado(
            problema.d_l@,
            delta_max_spec(problema.d_l@, problema.d_u@, x_novo@, x_velho@),
            config,
        ),
        r.1@ == limite_atualizado(
            problema.d_u@,
            delta_max_spec(problema.d_l@, problema.d_u@, x_novo@, x_velho@),
            config,
        ),
{
    let mut d_l = problema.d_l;
    let mut d_u = problema.d_u;
    let mut delta_max = zero::<S>();
    let mut l: usize = 0;
    while l < DIM
        invariant
            l <= DIM,
            l > 0 ==> delta_max == maior_razao(
                problema.d_l@,
                problema.d_u@,
                x_novo@,
                x_velho@,
                l as int,
            ),
        decreases DIM - l,
    {
        let diferenca = x_novo[l].subtrai(x_velho[l]);
        let diferenca_movimento_l = diferenca.divide(problema.d_l[l]);
        let diferenca_movimento_u = diferenca.divide(problema.d_u[l]);
        let razao = max(diferenca_movimento_l, diferenca_movimento_u);
        if l == 0 || !razao.menor(delta_max) {
            delta_max = razao;
        }
        l += 1;
    }
    if delta_max.menor(config.delta_dec) {
        let escalar = delta_max.divide(config.delta_dec);
        d_u = produto_escalar(escalar, d_u);
        d_l = produto_escalar(escalar, d_l);
    }
    if config.delta_inc.menor(delta_max) {
        let escalar = S::de_razao(2, 1).multiplica(delta_max);
        d_u = produto_escalar(escalar, d_u);
        d_l = produto_escalar(escalar, d_l);
    }
    (d_l, d_u)
}

/// Scaling both bounds by the same non-negative factor keeps them ordered.
proof fn lema_escalado_ordenado<S: Escalar>(escalar: S, d_l: Seq<S>, d_u: Seq<S>)
    requires
        d_l.len() == DIM,
        d_u.len() == DIM,
        forall|l: int| 0 <= l < DIM ==> menor_ou_igual_spec(#[trigger] d_l[l], d_u[l]),
        menor_ou_igual_spec(zero_spec::<S>(), escalar),
    ensures
        produto_escalar_spec(escalar, d_l).len() == DIM,
        produto_escalar_spec(escalar, d_u).len() == DIM,
        forall|l: int|
            0 <= l < DIM ==> menor_ou_igual_spec(
                #[trigger] produto_escalar_spec(escalar, d_l)[l],
                produto_escalar_spec(escalar, d_u)[l],
            ),
{
    assert forall|l: int| 0 <= l < DIM implies menor_ou_igual_spec(
        #[trigger] produto_escalar_spec(escalar, d_l)[l],
        produto_escalar_spec(escalar, d_u)[l],
    ) by {
        assert(menor_ou_igual_spec(d_l[l], d_u[l]));
        S::lei_multiplica_monotona(escalar, d_l[l], d_u[l]);
    }
}

/// The update returns a lower bound that is not above the upper bound in any coordinate,
/// whenever the bounds it starts from are ordered, the shrink threshold is positive and the
/// largest ratio of the move is not negative.
pub proof fn lei_regiao_ordenada<S: Escalar>(
    d_l: Seq<S>,
    d_u: Seq<S>,
    x_novo: Seq<S>,
    x_velho: Seq<S>,
    config: &Configuracao<S>,
)
    requires
        d_l.len() == DIM,
        d_u.len() == DIM,
        forall|l: int| 0 <= l < DIM ==> menor_ou_igual_spec(#[trigger] d_l[l], d_u[l]),
        config.regiao_valida(),
        menor_ou_igual_spec(zero_spec::<S>(), delta_max_spec(d_l, d_u, x_novo, x_velho)),
    ensures
        forall|l: int|
            0 <= l < DIM ==> menor_ou_igual_spec(
                #[trigger] limite_atualizado(
                    d_l,
                    delta_max_spec(d_l, d_u, x_novo, x_velho),
                    config,
                )[l],
                limite_atualizado(d_u, delta_max_spec(d_l, d_u, x_novo, x_velho), config)[l],
            ),
{
    let delta_max = delta_max_spec(d_l, d_u, x_novo, x_velho);
    let e_l = encolhido(d_l, delta_max, config);
    let e_u = encolhido(d_u, delta_max, config);
    if delta_max.menor_spec(config.delta_dec) {
        S::lei_quociente_de_positivos(delta_max, config.delta_dec);
        lema_escalado_ordenado(delta_max.divide_spec(config.delta_dec), d_l, d_u);
    }
    assert(e_l.len() == DIM && e_u.len() == DIM);
    assert(forall|l: int| 0 <= l < DIM ==> menor_ou_igual_spec(#[trigger] e_l[l], e_u[l]));
    if config.delta_inc.menor_spec(delta_max) {
        S::lei_razao_nao_negativa(2, 1);
        S::lei_produto_nao_negativo(S::de_razao_spec(2, 1), delta_max);
        lema_escalado_ordenado(S::de_razao_spec(2, 1).multiplica_spec(delta_max), e_l, e_u);
    }
}

/// Where zero lies strictly inside the region in every coordinate, the largest ratio of a
/// move is not negative.
pub proof fn lei_razao_do_movimento<S: Escalar>(
    d_l: Seq<S>,
    d_u: Seq<S>,
    x_novo: Seq<S>,
    x_velho: Seq<S>,
    n: int,
)
    requires
        1 <= n <= DIM,
        forall|l: int|
            0 <= l < DIM ==> (#[trigger] d_l[l]).menor_spec(zero_spec::<S>())
                && zero_spec::<S>().menor_spec(d_u[l]),
    ensures
        menor_ou_igual_spec(zero_spec::<S>(), maior_razao(d_l, d_u, x_novo, x_velho, n)),
    decreases n,
{
    if n > 1 {
        lei_razao_do_movimento(d_l, d_u, x_novo, x_velho, n - 1);
    }
    let l = n - 1;
    let diferenca = x_novo[l].subtrai_spec(x_velho[l]);
    let razao_l = diferenca.divide_spec(d_l[l]);
    let razao_u = diferenca.divide_spec(d_u[l]);
    let zero = zero_spec::<S>();
    assert(d_l[l].menor_spec(zero) && zero.menor_spec(d_u[l]));
    if diferenca.menor_spec(zero) {
        S::lei_quociente_de_negativos(diferenca, d_l[l]);
        if razao_l.menor_spec(razao_u) {
            S::lei_menor_ou_igual_transitiva(zero, razao_l, razao_u);
        }
    } else {
        S::lei_ordem_total(diferenca, zero);
        S::lei_quociente_de_positivos(diferenca, d_u[l]);
        if !razao_l.menor_spec(razao_u) {
            S::lei_ordem_total(razao_l, razao_u);
            S::lei_menor_ou_igual_transitiva(zero, razao_u, razao_l);
        }
    }
    assert(menor_ou_igual_spec(zero, razao_do_movimento(d_l, d_u, x_novo, x_velho, l)));
}

} // verus!
