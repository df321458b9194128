//! The merit function, its directional derivative, and the test that accepts a trial
//! point or replaces it by the best point of a line search.

use crate::defs::{
    gradientes_spec, multiplicadores_bastam, multiplicadores_cabem, multiplicadores_casam,
    valores_spec, Configuracao, Funcao, MultiplicadoresDeLagrange, Ponto, Problema,
};
use crate::escalar::{
    menor_ou_igual, menor_ou_igual_spec, menos_um, menos_um_spec, um_spec, zero, zero_spec, Escalar,
};
use crate::utils::{
    auto_grad, avancar, avanco, busca_apos, gradiente_spec, lei_busca_abaixo_de_um,
    lei_busca_minima, lei_busca_nao_negativa, lei_busca_nao_piora, lei_busca_valor, line_search,
    max, max_spec, produto_interno, produto_interno_spec, somatorio,
};
use vstd::prelude::*;

verus! {

/// A multiplier made strictly larger: its absolute value plus the increment.
pub open spec fn inflado<S: Escalar>(multiplicador: S, incremento: S) -> S {
    multiplicador.modulo_spec().soma_spec(incremento)
}

/// The terms `(|lambda_j| + incremento) * max(g_j(x), 0)`.
pub open spec fn termos_merito_g<S: Escalar>(lambdas: Seq<S>, incremento: S, g: Seq<S>) -> spec_fn(
    int,
) -> S {
    |j: int| inflado(lambdas[j], incremento).multiplica_spec(max_spec(g[j], zero_spec::<S>()))
}

/// The terms `(|mu_r| + incremento) * |h_r(x)|`.
pub open spec fn termos_merito_h<S: Escalar>(mus: Seq<S>, incremento: S, h: Seq<S>) -> spec_fn(
    int,
) -> S {
    |r: int| inflado(mus[r], incremento).multiplica_spec(h[r].modulo_spec())
}

/// The merit function at `x`: the objective plus the violation of every constraint, each
/// weighted by its inflated multiplier.
pub open spec fn valor_merito<S: Escalar, F: Funcao<S>>(
    problema: &Problema<S, F>,
    multiplicadores: &MultiplicadoresDeLagrange<S>,
    incremento: S,
    x: Ponto<S>,
) -> S {
    let g = valores_spec(problema.restricoes_desigualdades@, x);
    let h = valores_spec(problema.restricoes_igualdades@, x);
    problema.funcao_objetivo.valor(x).soma_spec(
        somatorio(
            termos_merito_g(multiplicadores.lambdas@, incremento, g),
            multiplicadores.lambdas.len() as int,
        ),
    ).soma_spec(
        somatorio(
            termos_merito_h(multiplicadores.mus@, incremento, h),
            multiplicadores.mus.len() as int,
        ),
    )
}

/// The merit function of a problem for given multipliers.
pub struct FuncaoMerito<'a, S: Escalar, F: Funcao<S>> {
    problema: &'a Problema<S, F>,
    multiplicadores: &'a MultiplicadoresDeLagrange<S>,
    incremento: S,
}

impl<'a, S: Escalar, F: Funcao<S>> FuncaoMerito<'a, S, F> {
    #[verifier::type_invariant]
    spec fn bem_formada(self) -> bool {
        multiplicadores_cabem(self.problema, self.multiplicadores)
    }

    /// The problem that the function is of.
    pub closed spec fn problema(self) -> &'a Problema<S, F> {
        self.problema
    }

    /// The multipliers that the function is for.
    pub closed spec fn multiplicadores(self) -> &'a MultiplicadoresDeLagrange<S> {
        self.multiplicadores
    }

    /// The increment that inflates the multipliers.
    pub closed spec fn incremento(self) -> S {
        self.incremento
    }
}

impl<'a, S: Escalar, F: Funcao<S>> Funcao<S> for FuncaoMerito<'a, S, F> {
    open spec fn valor(&self, x: Ponto<S>) -> S {
        valor_merito(self.problema(), self.multiplicadores(), self.incremento(), x)
    }

    fn avaliar(&self, x: Ponto<S>) -> (r: S) {
        proof {
            use_type_invariant(self);
        }
        let g = &self.problema.restricoes_desigualdades;
        let h = &self.problema.restricoes_igualdades;
        let lambdas = &self.multiplicadores.lambdas;
        let mus = &self.multiplicadores.mus;
        let ghost gx = valores_spec(g@, x);
        let ghost hx = valores_spec(h@, x);
        let val_obj = self.problema.funcao_objetivo.avaliar(x);
        let mut soma_gj = zero::<S>();
        let mut j: usize = 0;
        while j < lambdas.len()
            invariant
                j <= lambdas.len(),
                lambdas.len() <= g.len(),
                gx == valores_spec(g@, x),
                soma_gj == somatorio(termos_merito_g(lambdas@, self.incremento, gx), j as int),
            decreases lambdas.len() - j,
        {
            let lbd_maior = lambdas[j].modulo().soma(self.incremento);
            soma_gj = soma_gj.soma(lbd_maior.multiplica(max(g[j].avaliar(x), zero::<S>())));
            j += 1;
        }
        let mut soma_hr = zero::<S>();
        let mut r: usize = 0;
        while r < mus.len()
            invariant
                r <= mus.len(),
                mus.len() <= h.len(),
                hx == valores_spec(h@, x),
                soma_hr == somatorio(termos_merito_h(mus@, self.incremento, hx), r as int),
            decreases mus.len() - r,
        {
            let mu_maior = mus[r].modulo().soma(self.incremento);
            soma_hr = soma_hr.soma(mu_maior.multiplica(h[r].avaliar(x).modulo()));
            r += 1;
        }
        val_obj.soma(soma_gj).soma(soma_hr)
    }
}

/// The merit function of `problema` for the given multipliers and increment, as a value.
pub closed spec fn merito_de<'a, S: Escalar, F: Funcao<S>>(
    problema: &'a Problema<S, F>,
    multiplicadores: &'a MultiplicadoresDeLagrange<S>,
    incremento: S,
) -> FuncaoMerito<'a, S, F> {
    FuncaoMerito { problema, multiplicadores, incremento }
}

/// What `merito_de` is made of.
pub proof fn lema_merito_de<'a, S: Escalar, F: Funcao<S>>(
    problema: &'a Problema<S, F>,
    multiplicadores: &'a MultiplicadoresDeLagrange<S>,
    incremento: S,
)
    ensures
        merito_de(problema, multiplicadores, incremento).problema() == problema,
        merito_de(problema, multiplicadores, incremento).multiplicadores() == multiplicadores,
        merito_de(problema, multiplicadores, incremento).incremento() == incremento,
{
}

/// The merit function of `problema` for the given multipliers.
pub fn gerar_funcao_merito<'a, S: Escalar, F: Funcao<S>>(
    problema: &'a Problema<S, F>,
    multiplicadores: &'a MultiplicadoresDeLagrange<S>,
    config: &Configuracao<S>,
) -> (r: FuncaoMerito<'a, S, F>)
    requires
        multiplicadores_cabem(problema, multiplicadores),
    ensures
        r == merito_de(problema, multiplicadores, config.incremento),
{
    FuncaoMerito { problema, multiplicadores, incremento: config.incremento }
}

/// The one-sided derivative of `max(g, 0)` along a direction, from the value of `g` and the
/// derivative `prod` of `g` along that direction: `prod` where `g` is positive, its
/// positive part where `g` is zero, and zero where `g` is negative.
pub open spec fn derivada_direcional_g_spec<S: Escalar>(val: S, prod: S) -> S {
    if menor_ou_igual_spec(zero_spec::<S>(), val) {
        if zero_spec::<S>().menor_spec(val) {
            prod
        } else {
            max_spec(prod, zero_spec::<S>())
        }
    } else {
        zero_spec::<S>()
    }
}

/// The derivative along `direcao` of the positive part of the inequality constraint `g` at `x`.
pub fn derivada_direcional_g<S: Escalar, F: Funcao<S>>(
    direcao: Ponto<S>,
    g: &F,
    x: Ponto<S>,
    config: &Configuracao<S>,
) -> (r: S)
    ensures
        r == derivada_direcional_g_spec(
            g.valor(x),
            produto_interno_spec(gradiente_spec(g, x, config.eps), direcao@),
        ),
{
    let val = g.avaliar(x);
    if menor_ou_igual(zero::<S>(), val) {
        let grad_g = auto_grad(x, g, config);
        let prod = produto_interno(&grad_g, &direcao);
        if zero::<S>().menor(val) {
            return prod;
        }
        return max(prod, zero::<S>());
    }
    zero::<S>()
}

/// The derivative of `|h|` along a direction, from the value of `h` and the derivative
/// `prod` of `h` along that direction: `prod` where `h` is positive, its absolute value
/// where `h` is zero, and minus `prod` where `h` is negative.
pub open spec fn derivada_direcional_h_spec<S: Escalar>(val: S, prod: S) -> S {
    if zero_spec::<S>().menor_spec(val) {
        prod
    } else if val.igual_spec(zero_spec::<S>()) {
        prod.modulo_spec()
    } else {
        menos_um_spec::<S>().multiplica_spec(prod)
    }
}

/// The derivative along `direcao` of the absolute value of the equality constraint `h` at `x`.
pub fn derivada_direcional_h<S: Escalar, F: Funcao<S>>(
    direcao: Ponto<S>,
    h: &F,
    x: Ponto<S>,
    config: &Configuracao<S>,
) -> (r: S)
    ensures
        r == derivada_direcional_h_spec(
            h.valor(x),
            produto_interno_spec(gradiente_spec(h, x, config.eps), direcao@),
        ),
{
    let val = h.avaliar(x);
    let grad_h = auto_grad(x, h, config);
    let prod = produto_interno(&grad_h, &direcao);
    if zero::<S>().menor(val) {
        return prod;
    }
    if val.igual(zero::<S>()) {
        return prod.modulo();
    }
    menos_um::<S>().multiplica(prod)
}

/// The terms `(|lambda_j| + incremento) * D(max(g_j, 0))`.
pub open spec fn termos_derivada_g<S: Escalar>(
    lambdas: Seq<S>,
    incremento: S,
    g: Seq<S>,
    grads: Seq<Seq<S>>,
    d: Seq<S>,
) -> spec_fn(int) -> S {
    |j: int|
        inflado(lambdas[j], incremento).multiplica_spec(
            derivada_direcional_g_spec(g[j], produto_interno_spec(grads[j], d)),
        )
}

/// The terms `(|mu_r| + incremento) * D|h_r|`.
pub open spec fn termos_derivada_h<S: Escalar>(
    mus: Seq<S>,
    incremento: S,
    h: Seq<S>,
    grads: Seq<Seq<S>>,
    d: Seq<S>,
) -> spec_fn(int) -> S {
    |r: int|
        inflado(mus[r], incremento).multiplica_spec(
            derivada_direcional_h_spec(h[r], produto_interno_spec(grads[r], d)),
        )
}

/// The directional derivative of the merit function at `x` along `d`: that of the
/// objective, plus that of the violation of every constraint, each weighted by its
/// inflated multiplier.
pub open spec fn valor_derivada_merito<S: Escalar, F: Funcao<S>>(
    d: Ponto<S>,
    problema: &Problema<S, F>,
    multiplicadores: &MultiplicadoresDeLagrange<S>,
    incremento: S,
    eps: S,
    x: Ponto<S>,
) -> S {
    let g = problema.restricoes_desigualdades@;
    let h = problema.restricoes_igualdades@;
    produto_interno_spec(gradiente_spec(&problema.funcao_objetivo, x, eps), d@).soma_spec(
        somatorio(
            termos_derivada_g(
                multiplicadores.lambdas@,
                incremento,
                valores_spec(g, x),
                gradientes_spec(g, x, eps),
                d@,
            ),
            g.len() as int,
        ),
    ).soma_spec(
        somatorio(
            termos_derivada_h(
                multiplicadores.mus@,
                incremento,
                valores_spec(h, x),
                gradientes_spec(h, x, eps),
                d@,
            ),
            h.len() as int,
        ),
    )
}

/// The directional derivative of the merit function of a problem along a fixed direction.
pub struct DerivadaDirecionalMerito<'a, S: Escalar, F: Funcao<S>> {
    d: Ponto<S>,
    problema: &'a Problema<S, F>,
    multiplicadores: &'a MultiplicadoresDeLagrange<S>,
    config: &'a Configuracao<S>,
}

impl<'a, S: Escalar, F: Funcao<S>> DerivadaDirecionalMerito<'a, S, F> {
    #[verifier::type_invariant]
    spec fn bem_formada(self) -> bool {
        multiplicadores_bastam(self.problema, self.multiplicadores)
    }

    /// The direction of the derivative.
    pub closed spec fn direcao(self) -> Ponto<S> {
        self.d
    }

    /// The problem that the function is of.
    pub closed spec fn problema(self) -> &'a Problema<S, F> {
        self.problema
    }

    /// The multipliers that the function is for.
    pub closed spec fn multiplicadores(self) -> &'a MultiplicadoresDeLagrange<S> {
        self.multiplicadores
    }

    /// The constants of the method.
    pub closed spec fn config(self) -> &'a Configuracao<S> {
        self.config
    }
}

impl<'a, S: Escalar, F: Funcao<S>> Funcao<S> for DerivadaDirecionalMerito<'a, S, F> {
    open spec fn valor(&self, x: Ponto<S>) -> S {
        valor_derivada_merito(
            self.direcao(),
            self.problema(),
            self.multiplicadores(),
            self.config().incremento,
            self.config().eps,
            x,
        )
    }

    fn avaliar(&self, x: Ponto<S>) -> (r: S) {
        proof {
            use_type_invariant(self);
        }
        let g = &self.problema.restricoes_desigualdades;
        let h = &self.problema.restricoes_igualdades;
        let lambdas = &self.multiplicadores.lambdas;
        let mus = &self.multiplicadores.mus;
        let incremento = self.config.incremento;
        let ghost eps = self.config.eps;
        let ghost gx = valores_spec(g@, x);
        let ghost hx = valores_spec(h@, x);
        let ghost grads_g = gradientes_spec(g@, x, eps);
        let ghost grads_h = gradientes_spec(h@, x, eps);
        let grad_obj = auto_grad(x, &self.problema.funcao_objetivo, self.config);
        let val_grad_funcao_obj = produto_interno(&grad_obj, &self.d);
        let mut val_grad_g_acumulado = zero::<S>();
        let mut j: usize = 0;
        while j < g.len()
            invariant
                j <= g.len(),
                lambdas.len() >= g.len(),
                incremento == self.config.incremento,
                eps == self.config.eps,
                gx == valores_spec(g@, x),
                grads_g == gradientes_spec(g@, x, eps),
                val_grad_g_acumulado == somatorio(
                    termos_derivada_g(lambdas@, incremento, gx, grads_g, self.d@),
                    j as int,
                ),
            decreases g.len() - j,
        {
            let lbd_maior = lambdas[j].modulo().soma(incremento);
            val_grad_g_acumulado =
            val_grad_g_acumulado.soma(
                lbd_maior.multiplica(derivada_direcional_g(self.d, &g[j], x, self.config)),
            );
            j += 1;
        }
        let mut val_grad_h_acumulado = zero::<S>();
        let mut r: usize = 0;
        while r < h.len()
            invariant
                r <= h.len(),
                mus.len() >= h.len(),
                incremento == self.config.incremento,
                eps == self.config.eps,
                hx == valores_spec(h@, x),
                grads_h == gradientes_spec(h@, x, eps),
                val_grad_h_acumulado == somatorio(
                    termos_derivada_h(mus@, incremento, hx, grads_h, self.d@),
                    r as int,
                ),
            decreases h.len() - r,
        {
            let mu_maior = mus[r].modulo().soma(incremento);
            val_grad_h_acumulado =
            val_grad_h_acumulado.soma(
                mu_maior.multiplica(derivada_direcional_h(self.d, &h[r], x, self.config)),
            );
            r += 1;
        }
        val_grad_funcao_obj.soma(val_grad_g_acumulado).soma(val_grad_h_acumulado)
    }
}

/// The directional derivative, along `d`, of the merit function of `problema` for the
/// given multipliers.
pub fn gerar_derivada_direcional_funcao_merito<'a, S: Escalar, F: Funcao<S>>(
    d: Ponto<S>,
    problema: &'a Problema<S, F>,
    multiplicadores: &'a MultiplicadoresDeLagrange<S>,
    config: &'a Configuracao<S>,
) -> (r: DerivadaDirecionalMerito<'a, S, F>)
    requires
        multiplicadores_bastam(problema, multiplicadores),
    ensures
        r.direcao() == d,
        r.problema() == problema,
        r.multiplicadores() == multiplicadores,
        r.config() == config,
{
    DerivadaDirecionalMerito { d, problema, multiplicadores, config }
}

/// Whether the trial point is accepted, from the values of the merit function and of its
/// directional derivative at the trial point and at the current one: the merit does not
/// grow, it decreases at least by `sigma * alpha` times the derivative at the current
/// point, and the derivative at the trial point is at least `eta` times that one.
pub open spec fn passo_aceito<S: Escalar>(
    merito_novo: S,
    merito_atual: S,
    derivada_nova: S,
    derivada_atual: S,
    alpha: S,
    config: &Configuracao<S>,
) -> bool {
    &&& menor_ou_igual_spec(merito_novo, merito_atual)
    &&& menor_ou_igual_spec(
        merito_novo.subtrai_spec(merito_atual),
        config.sigma.multiplica_spec(alpha).multiplica_spec(derivada_atual),
    )
    &&& menor_ou_igual_spec(config.eta.multiplica_spec(derivada_atual), derivada_nova)
}

/// Whether `verificacao_funcao_merito` keeps the trial point `x_novo`.
pub open spec fn ponto_aceito<S: Escalar, F: Funcao<S>>(
    problema: &Problema<S, F>,
    x_novo: Ponto<S>,
    x_atual: Ponto<S>,
    alpha: S,
    d: Ponto<S>,
    multiplicadores: &MultiplicadoresDeLagrange<S>,
    config: &Configuracao<S>,
) -> bool {
    passo_aceito(
        valor_merito(problema, multiplicadores, config.incremento, x_novo),
        valor_merito(problema, multiplicadores, config.incremento, x_atual),
        valor_derivada_merito(d, problema, multiplicadores, config.incremento, config.eps, x_novo),
        valor_derivada_merito(d, problema, multiplicadores, config.incremento, config.eps, x_atual),
        alpha,
        config,
    )
}

/// The state of the line search on the merit function from `x_atual` along `d`, after `n`
/// step sizes.
pub open spec fn busca_no_merito<S: Escalar, F: Funcao<S>>(
    problema: &Problema<S, F>,
    x_atual: Ponto<S>,
    d: Ponto<S>,
    multiplicadores: &MultiplicadoresDeLagrange<S>,
    config: &Configuracao<S>,
    n: int,
) -> (S, S, S) {
    busca_apos(
        &merito_de(problema, multiplicadores, config.incremento),
        x_atual,
        d,
        config.passo_busca,
        n,
    )
}

/// The point that `verificacao_funcao_merito` returns: the trial point if it is accepted,
/// else the point that the line search on the merit function finds from `x_atual` along `d`.
pub open spec fn verificacao_spec<S: Escalar, F: Funcao<S>>(
    problema: &Problema<S, F>,
    x_novo: Ponto<S>,
    x_atual: Ponto<S>,
    alpha: S,
    d: Ponto<S>,
    multiplicadores: &MultiplicadoresDeLagrange<S>,
    config: &Configuracao<S>,
) -> Ponto<S> {
    if ponto_aceito(problema, x_novo, x_atual, alpha, d, multiplicadores, config) {
        x_novo
    } else {
        avanco(
            x_atual,
            busca_no_merito(
                problema,
                x_atual,
                d,
                multiplicadores,
                config,
                config.limite_busca as int,
            ).2,
            d,
        )
    }
}

/// Checks that the trial point `x_novo`, reached from `x_atual` by the step `alpha` along
/// `d`, reduces the merit function enough; if it does not, returns in its place the best
/// point of a line search from `x_atual` along `d`.
pub fn verificacao_funcao_merito<S: Escalar, F: Funcao<S>>(
    problema: &Problema<S, F>,
    x_novo: Ponto<S>,
    x_atual: Ponto<S>,
    alpha: S,
    d: Ponto<S>,
    multiplicadores: &MultiplicadoresDeLagrange<S>,
    config: &Configuracao<S>,
) -> (r: Ponto<S>)
    requires
        multiplicadores_casam(problema, multiplicadores),
    ensures
        r == verificacao_spec(problema, x_novo, x_atual, alpha, d, multiplicadores, config),
{
    let funcao_merito = gerar_funcao_merito(problema, multiplicadores, config);
    let derivada_direcional_funcao_merito = gerar_derivada_direcional_funcao_merito(
        d,
        problema,
        multiplicadores,
        config,
    );
    let merito_x_novo = funcao_merito.avaliar(x_novo);
    let merito_x_atual = funcao_merito.avaliar(x_atual);
    let derivada_direcional_merito_x_novo = derivada_direcional_funcao_merito.avaliar(x_novo);
    let derivada_direcional_merito_x_atual = derivada_direcional_funcao_merito.avaliar(x_atual);
    let condicao_4 = menor_ou_igual(merito_x_novo, merito_x_atual);
    let condicao_5 = menor_ou_igual(
        merito_x_novo.subtrai(merito_x_atual),
        config.sigma.multiplica(alpha).multiplica(derivada_direcional_merito_x_atual),
    );
    let condicao_6 = menor_ou_igual(
        config.eta.multiplica(derivada_direcional_merito_x_atual),
        derivada_direcional_merito_x_novo,
    );
    if condicao_4 && condicao_5 && condicao_6 {
        return x_novo;
    }
    let alpha_novo = line_search(x_atual, d, &funcao_merito, config);
    avancar(x_atual, alpha_novo, d)
}

/// Where the trial point is refused, the point returned in its place has the lowest merit
/// that the line search found: its merit is the value that the search kept, which is not
/// above the merit at `x_atual`.
pub proof fn lei_merito_do_melhor<S: Escalar, F: Funcao<S>>(
    problema: &Problema<S, F>,
    x_novo: Ponto<S>,
    x_atual: Ponto<S>,
    alpha: S,
    d: Ponto<S>,
    multiplicadores: &MultiplicadoresDeLagrange<S>,
    config: &Configuracao<S>,
)
    requires
        !ponto_aceito(problema, x_novo, x_atual, alpha, d, multiplicadores, config),
    ensures
        valor_merito(
            problema,
            multiplicadores,
            config.incremento,
            verificacao_spec(problema, x_novo, x_atual, alpha, d, multiplicadores, config),
        ) == busca_no_merito(
            problema,
            x_atual,
            d,
            multiplicadores,
            config,
            config.limite_busca as int,
        ).1,
        !valor_merito(problema, multiplicadores, config.incremento, x_atual).menor_spec(
            valor_merito(
                problema,
                multiplicadores,
                config.incremento,
                verificacao_spec(problema, x_novo, x_atual, alpha, d, multiplicadores, config),
            ),
        ),
{
    let merito = merito_de(problema, multiplicadores, config.incremento);
    lema_merito_de(problema, multiplicadores, config.incremento);
    lei_busca_valor(&merito, x_atual, d, config.passo_busca, config.limite_busca as int);
    lei_busca_nao_piora(&merito, x_atual, d, config.passo_busca, config.limite_busca as int);
}

/// Where the trial point is refused, the point returned in its place lies on the way from
/// `x_atual` along `d`, at a step size below one that is not negative where the increment
/// of the line search is not.
pub proof fn lei_passo_do_merito<S: Escalar, F: Funcao<S>>(
    problema: &Problema<S, F>,
    x_novo: Ponto<S>,
    x_atual: Ponto<S>,
    alpha: S,
    d: Ponto<S>,
    multiplicadores: &MultiplicadoresDeLagrange<S>,
    config: &Configuracao<S>,
)
    requires
        !ponto_aceito(problema, x_novo, x_atual, alpha, d, multiplicadores, config),
    ensures
        ({
            let a = busca_no_merito(
                problema,
                x_atual,
                d,
                multiplicadores,
                config,
                config.limite_busca as int,
            ).2;
            &&& verificacao_spec(problema, x_novo, x_atual, alpha, d, multiplicadores, config)
                == avanco(x_atual, a, d)
            &&& a.menor_spec(um_spec::<S>())
            &&& menor_ou_igual_spec(zero_spec::<S>(), config.passo_busca) ==> menor_ou_igual_spec(
                zero_spec::<S>(),
                a,
            )
        }),
{
    let merito = merito_de(problema, multiplicadores, config.incremento);
    lei_busca_abaixo_de_um(&merito, x_atual, d, config.passo_busca, config.limite_busca as int);
    if menor_ou_igual_spec(zero_spec::<S>(), config.passo_busca) {
        lei_busca_nao_negativa(
            &merito,
            x_atual,
            d,
            config.passo_busca,
            config.limite_busca as int,
        );
    }
}

/// Where the trial point is refused, no point that the line search tried has a merit
/// strictly below that of the point returned: if the search took its step `k`, the merit at
/// the point of that step is not below the merit of the result.
pub proof fn lei_merito_minimo<S: Escalar, F: Funcao<S>>(
    problema: &Problema<S, F>,
    x_novo: Ponto<S>,
    x_atual: Ponto<S>,
    alpha: S,
    d: Ponto<S>,
    multiplicadores: &MultiplicadoresDeLagrange<S>,
    config: &Configuracao<S>,
    k: int,
)
    requires
        !ponto_aceito(problema, x_novo, x_atual, alpha, d, multiplicadores, config),
        1 <= k <= config.limite_busca,
        busca_no_merito(problema, x_atual, d, multiplicadores, config, k - 1).0.soma_spec(
            config.passo_busca,
        ).menor_spec(um_spec::<S>()),
    ensures
        !valor_merito(
            problema,
            multiplicadores,
            config.incremento,
            avanco(x_atual, busca_no_merito(problema, x_atual, d, multiplicadores, config, k).0, d),
        ).menor_spec(
            valor_merito(
                problema,
                multiplicadores,
                config.incremento,
                verificacao_spec(problema, x_novo, x_atual, alpha, d, multiplicadores, config),
            ),
        ),
{
    let merito = merito_de(problema, multiplicadores, config.incremento);
    lema_merito_de(problema, multiplicadores, config.incremento);
    lei_merito_do_melhor(problema, x_novo, x_atual, alpha, d, multiplicadores, config);
    lei_busca_minima(&merito, x_atual, d, config.passo_busca, k, config.limite_busca as int);
}

} // verus!
