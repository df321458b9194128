//! The inner iteration: one step for each linear subproblem solved. The caller hands the
//! two linear programs of a step to an engine and gives the answers back.

use crate::defs::{
    pontos_spec, valores_spec, Configuracao, Erro, Funcao, MultiplicadoresDeLagrange, Ponto,
    Problema, DIM,
};
use crate::escalar::{menor_ou_igual_spec, um, um_spec, zero, zero_spec, Escalar};
use crate::estimativa_mul_lagrange::{
    extrair_multiplicadores_de_lagrange, lambdas_da_dual, mus_da_dual,
};
use crate::lagrangianas::{lagrangiana, lagrangiana_de, lagrangiana_penalizada, penalizada_de};
use crate::matricial::{
    dimensoes_cabem, linhas_de, matriz_e_vetores_problema_linear, subproblema_spec,
};
use crate::ponto_estacionario::{checar_ponto_estacionario, ponto_estacionario};
use crate::prob_linear::{
    direcao_lida, dual_lido, folgas_tg, folgas_thm, folgas_thp, montar_problema_dual,
    montar_problema_primal, primal_lido, resolver_problema_dual_matriz,
    resolver_problema_linear_matriz, Direcao, Dominio, ProblemaLinear, Relacao, RespostaLinear,
    SolucaoPrimal,
};
use crate::utils::{
    atualizar_hessiana, auto_grad, avancar, avanco, coluna_spec, e_quadrada, gradiente_spec,
    hessiana_atualizada, lei_busca_abaixo_de_um, lei_busca_nao_negativa, lei_hessiana_simetrica,
    lema_ponto_de, lema_transposta_retangular,
    line_search,
    line_search_spec, matriz_spec, norma, norma_spec, ponto_de, produto_escalar,
    produto_escalar_spec, prox_o_suficiente_de_zero, quadrada, quase_zero, simetrica,
    subtracao_pontos, subtracao_pontos_spec, transposta_spec, vec_arr_fixo,
};
use vstd::prelude::*;

verus! {

/// Where the inner iteration stands before a subproblem is solved.
pub struct EstadoLinear<S: Escalar> {
    /// The current point.
    pub ponto_atual: Ponto<S>,
    /// The current approximation of the Hessian of the Lagrangian.
    pub hessiana_atual: Vec<Vec<S>>,
    /// The directions found so far.
    pub direcoes: Vec<Ponto<S>>,
    /// The estimates of the multipliers from the last subproblem solved; none before the first.
    pub multiplicadores: MultiplicadoresDeLagrange<S>,
    /// Number of the subproblem to solve, from one.
    pub i: usize,
}

impl<S: Escalar> EstadoLinear<S> {
    /// The approximation of the Hessian is square and the count is in its range.
    pub open spec fn valido(&self) -> bool {
        &&& quadrada(matriz_spec(&self.hessiana_atual))
        &&& 1 <= self.i <= DIM + 1
    }

    /// Tests whether the state is valid.
    pub fn e_valido(&self) -> (r: bool)
        ensures
            r == self.valido(),
    {
        e_quadrada(&self.hessiana_atual) && 1 <= self.i && self.i <= DIM + 1
    }

    /// The state at the start of an inner iteration from `x`.
    pub fn novo(x: Ponto<S>, hessiana: Vec<Vec<S>>) -> (r: Self)
        requires
            quadrada(matriz_spec(&hessiana)),
        ensures
            r.valido(),
            r.ponto_atual == x,
            r.hessiana_atual == hessiana,
            r.direcoes@ == Seq::<Ponto<S>>::empty(),
            r.multiplicadores.lambdas@ == Seq::<S>::empty(),
            r.multiplicadores.mus@ == Seq::<S>::empty(),
            r.i == 1,
    {
        EstadoLinear {
            ponto_atual: x,
            hessiana_atual: hessiana,
            direcoes: Vec::new(),
            multiplicadores: MultiplicadoresDeLagrange { lambdas: Vec::new(), mus: Vec::new() },
            i: 1,
        }
    }
}

/// What an inner iteration returns.
pub struct ResultadoLinear<S: Escalar> {
    /// The point found.
    pub ponto: Ponto<S>,
    /// The last direction.
    pub direcao: Ponto<S>,
    /// The slacks of the last subproblem.
    pub tg: Vec<S>,
    pub thp: Vec<S>,
    pub thm: Vec<S>,
    /// The last estimates of the multipliers.
    pub multiplicadores: MultiplicadoresDeLagrange<S>,
    /// The approximation of the Hessian at the point.
    pub hessiana: Vec<Vec<S>>,
    /// Whether the point is stationary.
    pub estacionario: bool,
    /// The size of the last step taken.
    pub alpha: S,
}

impl<S: Escalar> ResultadoLinear<S> {
    /// The result has a multiplier for each constraint of the problem and a square
    /// approximation of the Hessian.
    pub open spec fn valido<F: Funcao<S>>(&self, problema: &Problema<S, F>) -> bool {
        &&& self.multiplicadores.lambdas.len() == problema.restricoes_desigualdades.len()
        &&& self.multiplicadores.mus.len() == problema.restricoes_igualdades.len()
        &&& quadrada(matriz_spec(&self.hessiana))
    }

    /// Tests whether the result is valid for `problema`.
    pub fn e_valido<F: Funcao<S>>(&self, problema: &Problema<S, F>) -> (r: bool)
        ensures
            r == self.valido(problema),
    {
        self.multiplicadores.lambdas.len() == problema.restricoes_desigualdades.len()
            && self.multiplicadores.mus.len() == problema.restricoes_igualdades.len()
            && e_quadrada(&self.hessiana)
    }
}

/// What a step of the inner iteration decides.
pub enum PassoLinear<S: Escalar> {
    /// Another subproblem is to be solved, from this state.
    Continuar(EstadoLinear<S>),
    /// The inner iteration is over.
    Terminar(ResultadoLinear<S>),
}

/// The direction that a solution of the subproblem holds, as a point.
pub open spec fn direcao_da_solucao<S: Escalar>(valores: Seq<S>) -> Ponto<S> {
    ponto_de(direcao_lida(valores))
}

/// The size of the step from `x` along `d`: the line search on the penalised Lagrangian.
pub open spec fn tamanho_do_passo<S: Escalar, F: Funcao<S>>(
    problema: &Problema<S, F>,
    x: Ponto<S>,
    d: Ponto<S>,
    multiplicadores: &MultiplicadoresDeLagrange<S>,
    config: &Configuracao<S>,
) -> S {
    line_search_spec(&penalizada_de(problema, multiplicadores, config.rho), x, d, config)
}

/// The size of a step is below one, and it is not negative where the increment of the line
/// search is not.
pub proof fn lei_tamanho_do_passo<S: Escalar, F: Funcao<S>>(
    problema: &Problema<S, F>,
    x: Ponto<S>,
    d: Ponto<S>,
    multiplicadores: &MultiplicadoresDeLagrange<S>,
    config: &Configuracao<S>,
)
    ensures
        tamanho_do_passo(problema, x, d, multiplicadores, config).menor_spec(um_spec::<S>()),
        menor_ou_igual_spec(zero_spec::<S>(), config.passo_busca) ==> menor_ou_igual_spec(
            zero_spec::<S>(),
            tamanho_do_passo(problema, x, d, multiplicadores, config),
        ),
{
    let f = penalizada_de(problema, multiplicadores, config.rho);
    lei_busca_abaixo_de_um(&f, x, d, config.passo_busca, config.limite_busca as int);
    if menor_ou_igual_spec(zero_spec::<S>(), config.passo_busca) {
        lei_busca_nao_negativa(&f, x, d, config.passo_busca, config.limite_busca as int);
    }
}

/// The change of the gradient of the Lagrangian from `x` to `x_novo`.
pub open spec fn variacao_do_gradiente<S: Escalar, F: Funcao<S>>(
    problema: &Problema<S, F>,
    multiplicadores: &MultiplicadoresDeLagrange<S>,
    x: Ponto<S>,
    x_novo: Ponto<S>,
    eps: S,
) -> Seq<S> {
    subtracao_pontos_spec(
        gradiente_spec(&lagrangiana_de(problema, multiplicadores), x_novo, eps),
        gradiente_spec(&lagrangiana_de(problema, multiplicadores), x, eps),
    )
}

/// The approximation of the Hessian after the step `alpha` along `d` from `x`.
pub open spec fn hessiana_seguinte<S: Escalar, F: Funcao<S>>(
    problema: &Problema<S, F>,
    multiplicadores: &MultiplicadoresDeLagrange<S>,
    hessiana: Seq<Seq<S>>,
    x: Ponto<S>,
    alpha: S,
    d: Ponto<S>,
    eps: S,
) -> Seq<Seq<S>> {
    hessiana_atualizada(
        hessiana,
        produto_escalar_spec(alpha, d@),
        variacao_do_gradiente(problema, multiplicadores, x, avanco(x, alpha, d), eps),
        eps,
    )
}

/// No slack is below the violation that it stands for at `x`: no more of the violation
/// can be taken away.
pub open spec fn relaxamentos_inativos<S: Escalar, F: Funcao<S>>(
    problema: &Problema<S, F>,
    x: Ponto<S>,
    tg: Seq<S>,
    thp: Seq<S>,
    thm: Seq<S>,
) -> bool {
    let g = valores_spec(problema.restricoes_desigualdades@, x);
    let h = valores_spec(problema.restricoes_igualdades@, x);
    &&& forall|j: int| 0 <= j < g.len() ==> !(#[trigger] tg[j]).menor_spec(g[j])
    &&& forall|r: int| 0 <= r < h.len() ==> !(#[trigger] thp[r]).menor_spec(h[r].modulo_spec())
    &&& forall|r: int| 0 <= r < h.len() ==> !(#[trigger] thm[r]).menor_spec(h[r].modulo_spec())
}

/// Some item of the list is strictly positive.
pub open spec fn algum_positivo<S: Escalar>(t: Seq<S>) -> bool {
    exists|k: int| 0 <= k < t.len() && zero_spec::<S>().menor_spec(#[trigger] t[k])
}

/// Whether the inner iteration stops after the step number `i`: the count has passed the
/// dimension, or the direction is negligible, or no slack is binding at the new point, or
/// a slack is positive after the first step, or the step size is closer to one than
/// `config.tol_passo`.
pub open spec fn parada_linear<S: Escalar, F: Funcao<S>>(
    problema: &Problema<S, F>,
    i: int,
    d: Ponto<S>,
    tg: Seq<S>,
    thp: Seq<S>,
    thm: Seq<S>,
    alpha: S,
    x_novo: Ponto<S>,
    config: &Configuracao<S>,
) -> bool {
    ||| i > DIM
    ||| quase_zero(norma_spec(d@), config.eps)
    ||| relaxamentos_inativos(problema, x_novo, tg, thp, thm)
    ||| (i > 1 && (algum_positivo(tg) || algum_positivo(thp) || algum_positivo(thm)))
    ||| quase_zero(um_spec::<S>().subtrai_spec(alpha), config.tol_passo)
}

/// Whether the values of the subproblem and of its dual are closer than the tolerance.
pub open spec fn dualidade_forte<S: Escalar>(primal: S, dual: S, tolerancia: S) -> bool {
    dual.subtrai_spec(primal).modulo_spec().menor_spec(tolerancia)
}

/// What the step returns once both answers were read and the two values agree, from the
/// values `primal` of the variables of the subproblem and the values `dual` of those of
/// its dual.
pub open spec fn passo_linear_spec<S: Escalar, F: Funcao<S>>(
    problema: &Problema<S, F>,
    estado: EstadoLinear<S>,
    primal: Seq<S>,
    dual: Seq<S>,
    config: &Configuracao<S>,
    r: PassoLinear<S>,
) -> bool {
    let mi = problema.restricoes_desigualdades.len() as int;
    let me = problema.restricoes_igualdades.len() as int;
    let m = match r {
        PassoLinear::Continuar(e) => e.multiplicadores,
        PassoLinear::Terminar(res) => res.multiplicadores,
    };
    let x = estado.ponto_atual;
    let d = direcao_da_solucao(primal);
    let tg = folgas_tg(primal, mi);
    let thp = folgas_thp(primal, mi, me);
    let thm = folgas_thm(primal, mi, me);
    let alpha = tamanho_do_passo(problema, x, d, &m, config);
    let x_novo = avanco(x, alpha, d);
    let h_nova = hessiana_seguinte(
        problema,
        &m,
        matriz_spec(&estado.hessiana_atual),
        x,
        alpha,
        d,
        config.eps,
    );
    &&& m.lambdas@ == lambdas_da_dual(dual, mi)
    &&& m.mus@ == mus_da_dual(dual, mi, me)
    &&& if ponto_estacionario(problema, x, &m, config) {
        &&& r matches PassoLinear::Terminar(res)
        &&& res.estacionario
        &&& res.ponto == x
        &&& res.direcao == d
        &&& res.tg@ == tg
        &&& res.thp@ == thp
        &&& res.thm@ == thm
        &&& matriz_spec(&res.hessiana) == matriz_spec(&estado.hessiana_atual)
        &&& res.alpha == zero_spec::<S>()
    } else if parada_linear(
        problema,
        estado.i as int,
        d,
        tg,
        thp,
        thm,
        alpha,
        x_novo,
        config,
    ) {
        &&& r matches PassoLinear::Terminar(res)
        &&& !res.estacionario
        &&& res.ponto == x_novo
        &&& res.direcao == d
        &&& res.tg@ == tg
        &&& res.thp@ == thp
        &&& res.thm@ == thm
        &&& matriz_spec(&res.hessiana) == h_nova
        &&& res.alpha == alpha
    } else {
        &&& r matches PassoLinear::Continuar(e)
        &&& e.valido()
        &&& e.ponto_atual == x_novo
        &&& matriz_spec(&e.hessiana_atual) == h_nova
        &&& e.direcoes@ == estado.direcoes@.push(d)
        &&& e.i == estado.i + 1
    }
}

/// What a step of the inner iteration returns, for every pair of answers: the error of
/// reading the first answer, else that of reading the second, else the violation of
/// duality if the two values differ, else the step.
pub open spec fn iteracao_linear_spec<S: Escalar, F: Funcao<S>>(
    problema: &Problema<S, F>,
    estado: EstadoLinear<S>,
    resposta_primal: RespostaLinear<S>,
    resposta_dual: RespostaLinear<S>,
    config: &Configuracao<S>,
    r: Result<PassoLinear<S>, Erro>,
) -> bool {
    match primal_lido(problema, resposta_primal) {
        Err(e) => r == Err::<PassoLinear<S>, Erro>(e),
        Ok(p) => match dual_lido(problema, resposta_dual) {
            Err(e) => r == Err::<PassoLinear<S>, Erro>(e),
            Ok(q) => if !dualidade_forte(p.0, q.0, config.tol_dualidade) {
                r == Err::<PassoLinear<S>, Erro>(Erro::DualidadeViolada)
            } else {
                r matches Ok(passo) && passo_linear_spec(problema, estado, p.1, q.1, config, passo)
            },
        },
    }
}

/// A step keeps the approximation of the Hessian symmetric: if it is symmetric in the state
/// that the step starts from, it is symmetric in what the step returns.
pub proof fn lei_passo_simetrico<S: Escalar, F: Funcao<S>>(
    problema: &Problema<S, F>,
    estado: EstadoLinear<S>,
    primal: Seq<S>,
    dual: Seq<S>,
    config: &Configuracao<S>,
    r: PassoLinear<S>,
)
    requires
        estado.valido(),
        simetrica(matriz_spec(&estado.hessiana_atual)),
        passo_linear_spec(problema, estado, primal, dual, config, r),
    ensures
        r matches PassoLinear::Continuar(e) ==> simetrica(matriz_spec(&e.hessiana_atual)),
        r matches PassoLinear::Terminar(res) ==> simetrica(matriz_spec(&res.hessiana)),
{
    let m = match r {
        PassoLinear::Continuar(e) => e.multiplicadores,
        PassoLinear::Terminar(res) => res.multiplicadores,
    };
    let x = estado.ponto_atual;
    let d = direcao_da_solucao(primal);
    let alpha = tamanho_do_passo(problema, x, d, &m, config);
    lei_hessiana_simetrica(
        matriz_spec(&estado.hessiana_atual),
        produto_escalar_spec(alpha, d@),
        variacao_do_gradiente(problema, &m, x, avanco(x, alpha, d), config.eps),
        config.eps,
    );
}

/// Whether the engine solved both programs and their values are closer than the tolerance.
pub open spec fn respostas_concordam<S: Escalar>(
    resposta_primal: RespostaLinear<S>,
    resposta_dual: RespostaLinear<S>,
    tolerancia: S,
) -> bool {
    &&& resposta_primal matches Ok(p)
    &&& resposta_dual matches Ok(q)
    &&& dualidade_forte(p.0, q.0, tolerancia)
}

/// Whether some item of the list is strictly positive.
fn tem_positivo<S: Escalar>(t: &Vec<S>) -> (r: bool)
    ensures
        r == algum_positivo(t@),
{
    let mut k: usize = 0;
    while k < t.len()
        invariant
            k <= t.len(),
            forall|j: int| 0 <= j < k ==> !zero_spec::<S>().menor_spec(#[trigger] t[j]),
        decreases t.len() - k,
    {
        if zero::<S>().menor(t[k]) {
            assert(zero_spec::<S>().menor_spec(t@[k as int]));
            return true;
        }
        k += 1;
    }
    false
}

/// Whether no slack is below the violation that it stands for at `x`.
#[verifier::loop_isolation(false)]
fn sem_relaxamento_ativo<S: Escalar, F: Funcao<S>>(
    problema: &Problema<S, F>,
    x: Ponto<S>,
    tg: &Vec<S>,
    thp: &Vec<S>,
    thm: &Vec<S>,
) -> (r: bool)
    requires
        tg.len() == problema.restricoes_desigualdades.len(),
        thp.len() == problema.restricoes_igualdades.len(),
        thm.len() == problema.restricoes_igualdades.len(),
    ensures
        r == relaxamentos_inativos(problema, x, tg@, thp@, thm@),
{
    let ghost g = valores_spec(problema.restricoes_desigualdades@, x);
    let ghost h = valores_spec(problema.restricoes_igualdades@, x);
    let ghost (stg, sthp, sthm) = (tg@, thp@, thm@);
    let mut j: usize = 0;
    while j < problema.mi()
        invariant
            j <= problema.restricoes_desigualdades.len(),
            forall|k: int| 0 <= k < j ==> !(#[trigger] stg[k]).menor_spec(g[k]),
        decreases problema.restricoes_desigualdades.len() - j,
    {
        if tg[j].menor(problema.restricoes_desigualdades[j].avaliar(x)) {
            assert(stg[j as int].menor_spec(g[j as int]));
            return false;
        }
        j += 1;
    }
    let mut t: usize = 0;
    while t < problema.me()
        invariant
            t <= problema.restricoes_igualdades.len(),
            forall|k: int| 0 <= k < t ==> !(#[trigger] sthp[k]).menor_spec(h[k].modulo_spec()),
            forall|k: int| 0 <= k < t ==> !(#[trigger] sthm[k]).menor_spec(h[k].modulo_spec()),
        decreases problema.restricoes_igualdades.len() - t,
    {
        let val = problema.restricoes_igualdades[t].avaliar(x).modulo();
        assert(val == h[t as int].modulo_spec());
        if thp[t].menor(val) {
            assert(sthp[t as int].menor_spec(h[t as int].modulo_spec()));
            return false;
        }
        if thm[t].menor(val) {
            assert(sthm[t as int].menor_spec(h[t as int].modulo_spec()));
            return false;
        }
        assert(!sthp[t as int].menor_spec(h[t as int].modulo_spec()));
        assert(!sthm[t as int].menor_spec(h[t as int].modulo_spec()));
        t += 1;
    }
    true
}

/// The matrix and the vectors of the linear subproblem to solve in this state.
pub fn subproblema_linear<S: Escalar, F: Funcao<S>>(
    problema: &Problema<S, F>,
    estado: &EstadoLinear<S>,
    config: &Configuracao<S>,
) -> (r: (Vec<Vec<S>>, Vec<S>, Vec<S>))
    requires
        dimensoes_cabem(problema),
        estado.valido(),
    ensures
        (matriz_spec(&r.0), r.1@, r.2@) == subproblema_spec(
            problema,
            estado.ponto_atual,
            pontos_spec(&estado.direcoes),
            matriz_spec(&estado.hessiana_atual),
            config,
        ),
        r.0.len() == r.1.len(),
        r.0.len() > 0,
        r.2.len() == DIM + problema.restricoes_desigualdades.len() + 2
            * problema.restricoes_igualdades.len(),
        linhas_de(matriz_spec(&r.0), r.2.len() as int),
{
    matriz_e_vetores_problema_linear(
        problema,
        estado.ponto_atual,
        &estado.direcoes,
        &estado.hessiana_atual,
        config,
    )
}

/// The linear subproblem to solve in this state and its dual, as linear programs for an
/// engine.
pub fn programas_lineares<S: Escalar, F: Funcao<S>>(
    problema: &Problema<S, F>,
    estado: &EstadoLinear<S>,
    config: &Configuracao<S>,
) -> (r: (ProblemaLinear<S>, ProblemaLinear<S>))
    requires
        dimensoes_cabem(problema),
        estado.valido(),
    ensures
        r.0.bem_formado(),
        r.1.bem_formado(),
        programas_spec(
            subproblema_spec(
                problema,
                estado.ponto_atual,
                pontos_spec(&estado.direcoes),
                matriz_spec(&estado.hessiana_atual),
                config,
            ),
            r.0,
            r.1,
        ),
{
    let (a, b, c) = subproblema_linear(problema, estado, config);
    proof {
        let m = matriz_spec(&a);
        assert(forall|k: int| 0 <= k < m.len() ==> (#[trigger] m[k]).len() == m[0].len());
        lema_transposta_retangular(m, m.len() as int);
    }
    let primal = montar_problema_primal(problema, &a, &b, &c);
    let dual = montar_problema_dual(&a, &b, &c);
    proof {
        assert(c@.take(c.len() as int) =~= c@);
        assert(matriz_spec(&primal.linhas) =~= matriz_spec(&a)) by {
            let m = matriz_spec(&a);
            assert forall|i: int| 0 <= i < m.len() implies #[trigger] m[i].take(c.len() as int)
                == m[i] by {
                assert(m[i].take(c.len() as int) =~= m[i]);
            }
        }
        assert(matriz_spec(&dual.linhas) =~= transposta_spec(matriz_spec(&a))) by {
            let m = matriz_spec(&a);
            let t = transposta_spec(m);
            assert forall|i: int| 0 <= i < c.len() implies #[trigger] t[i].take(b.len() as int)
                == t[i] by {
                assert(t[i] == coluna_spec(m, i, m.len() as int));
                assert(t[i].take(b.len() as int) =~= t[i]);
            }
        }
    }
    (primal, dual)
}

/// What the two linear programs of a subproblem `(A, b, c)` are: minimise `c . v` subject
/// to `A v >= b` with every variable free, and maximise `b . y` subject to `A^T y = c` with
/// every variable zero or more.
pub open spec fn programas_spec<S: Escalar>(
    subproblema: (Seq<Seq<S>>, Seq<S>, Seq<S>),
    primal: ProblemaLinear<S>,
    dual: ProblemaLinear<S>,
) -> bool {
    &&& primal.direcao == Direcao::Minimizar
    &&& primal.dominio == Dominio::Livre
    &&& primal.relacao == Relacao::MaiorOuIgual
    &&& primal.custos@ == subproblema.2
    &&& matriz_spec(&primal.linhas) == subproblema.0
    &&& primal.lados@ == subproblema.1
    &&& dual.direcao == Direcao::Maximizar
    &&& dual.dominio == Dominio::NaoNegativo
    &&& dual.relacao == Relacao::Igual
    &&& dual.custos@ == subproblema.1
    &&& matriz_spec(&dual.linhas) == transposta_spec(subproblema.0)
    &&& dual.lados@ == subproblema.2
}

/// One step of the inner iteration, from the state in which the subproblem was built and
/// the answers of the engine to the subproblem and to its dual.
///
/// The multipliers are estimated from the dual. If the current point is stationary for
/// them, the iteration ends there. Else a line search on the penalised Lagrangian gives the
/// size of the step along the direction found, the point moves, the approximation of the
/// Hessian is updated from the change of the gradient of the Lagrangian, unless that update
/// is degenerate, and the iteration goes on unless one of its stopping conditions holds.
pub fn iteracoes_lineares<S: Escalar, F: Funcao<S>>(
    problema: &Problema<S, F>,
    estado: EstadoLinear<S>,
    resposta_primal: RespostaLinear<S>,
    resposta_dual: RespostaLinear<S>,
    config: &Configuracao<S>,
) -> (r: Result<PassoLinear<S>, Erro>)
    requires
        estado.valido(),
    ensures
        iteracao_linear_spec(problema, estado, resposta_primal, resposta_dual, config, r),
        r is Ok ==> respostas_concordam(resposta_primal, resposta_dual, config.tol_dualidade),
        r matches Ok(PassoLinear::Continuar(e)) ==> e.valido(),
        r matches Ok(PassoLinear::Terminar(res)) ==> res.valido(problema),
{
    let leitura_primal = resolver_problema_linear_matriz(problema, resposta_primal);
    let leitura_dual = resolver_problema_dual_matriz(problema, resposta_dual);
    let solucao_primal = match leitura_primal {
        Err(e) => {
            return Err(e);
        },
        Ok(p) => p,
    };
    let solucao_dual = match leitura_dual {
        Err(e) => {
            return Err(e);
        },
        Ok(q) => q,
    };
    if !solucao_dual.0.subtrai(solucao_primal.objetivo).modulo().menor(config.tol_dualidade) {
        return Err(Erro::DualidadeViolada);
    }
    let ghost primal = resposta_primal->Ok_0.1@;
    let ghost dual = solucao_dual.1@;
    let (lambdas, mus) = extrair_multiplicadores_de_lagrange(problema, solucao_dual);
    let multiplicadores = MultiplicadoresDeLagrange { lambdas, mus };
    let x = estado.ponto_atual;
    let SolucaoPrimal { objetivo: _, d, tg, thp, thm } = solucao_primal;
    let d_tmp = vec_arr_fixo(d);
    proof {
        assert(solucao_primal.d@.take(DIM as int) =~= direcao_lida(primal));
        lema_ponto_de(direcao_lida(primal));
    }
    if checar_ponto_estacionario(problema, &x, &multiplicadores, config) {
        let passo = PassoLinear::Terminar(
            ResultadoLinear {
                ponto: x,
                direcao: d_tmp,
                tg,
                thp,
                thm,
                multiplicadores,
                hessiana: estado.hessiana_atual,
                estacionario: true,
                alpha: zero::<S>(),
            },
        );
        assert(passo_linear_spec(problema, estado, primal, dual, config, passo));
        return Ok(passo);
    }
    let mut direcoes = estado.direcoes;
    direcoes.push(d_tmp);
    let funcao_lagrangiana_penalizada = lagrangiana_penalizada(
        problema,
        &multiplicadores,
        config.rho,
    );
    let alpha = line_search(x, d_tmp, &funcao_lagrangiana_penalizada, config);
    let aidi = produto_escalar(alpha, d_tmp);
    let ponto_atual = avancar(x, alpha, d_tmp);
    let funcao_lagrangiana = lagrangiana(problema, &multiplicadores);
    let g_i = auto_grad(x, &funcao_lagrangiana, config);
    let g_i1 = auto_grad(ponto_atual, &funcao_lagrangiana, config);
    let yi = subtracao_pontos(g_i1, g_i);
    let hessiana_atual = atualizar_hessiana(estado.hessiana_atual, aidi, yi, config);
    let i = estado.i;
    let parar = i > DIM
        || prox_o_suficiente_de_zero(norma(&d_tmp), config)
        || sem_relaxamento_ativo(problema, ponto_atual, &tg, &thp, &thm)
        || (i > 1 && (tem_positivo(&tg) || tem_positivo(&thp) || tem_positivo(&thm)))
        || um::<S>().subtrai(alpha).subtrai(zero::<S>()).modulo().menor(config.tol_passo);
    if parar {
        let passo = PassoLinear::Terminar(
            ResultadoLinear {
                ponto: ponto_atual,
                direcao: d_tmp,
                tg,
                thp,
                thm,
                multiplicadores,
                hessiana: hessiana_atual,
                estacionario: false,
                alpha,
            },
        );
        assert(passo_linear_spec(problema, estado, primal, dual, config, passo));
        return Ok(passo);
    }
    let passo = PassoLinear::Continuar(
        EstadoLinear { ponto_atual, hessiana_atual, direcoes, multiplicadores, i: i + 1 },
    );
    assert(passo_linear_spec(problema, estado, primal, dual, config, passo));
    Ok(passo)
}

} // verus!
