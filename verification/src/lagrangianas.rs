//! The Lagrangian of a problem and its penalised form, as functions of a point.

use crate::defs::{
    multiplicadores_cabem, valores_spec, Funcao, MultiplicadoresDeLagrange, Ponto, Problema,
};
use crate::escalar::{zero, zero_spec, Escalar};
use crate::utils::{max, max_spec, somatorio, termos_produto};
use vstd::prelude::*;

verus! {

/// The Lagrangian at `x`: the objective, plus each `lambda` times its inequality
/// constraint, plus each `mu` times its equality constraint.
pub open spec fn valor_lagrangiana<S: Escalar, F: Funcao<S>>(
    problema: &Problema<S, F>,
    multiplicadores: &MultiplicadoresDeLagrange<S>,
    x: Ponto<S>,
) -> S {
    problema.funcao_objetivo.valor(x).soma_spec(
        somatorio(
            termos_produto(
                multiplicadores.lambdas@,
                valores_spec(problema.restricoes_desigualdades@, x),
            ),
            multiplicadores.lambdas.len() as int,
        ),
    ).soma_spec(
        somatorio(
            termos_produto(multiplicadores.mus@, valores_spec(problema.restricoes_igualdades@, x)),
            multiplicadores.mus.len() as int,
        ),
    )
}

/// The Lagrangian of a problem for given multipliers.
pub struct Lagrangiana<'a, S: Escalar, F: Funcao<S>> {
    problema: &'a Problema<S, F>,
    multiplicadores: &'a MultiplicadoresDeLagrange<S>,
}

impl<'a, S: Escalar, F: Funcao<S>> Lagrangiana<'a, S, F> {
    #[verifier::type_invariant]
    spec fn bem_formada(self) -> bool {
        multiplicadores_cabem(self.problema, self.multiplicadores)
    }

    /// The problem that the function is of.
    pub closed spec fn problema(self) -> &'a Problema<S, F> {
        self.problema
    }

    /// The multipliers that the function is for.
    pub closed spec fn multiplicadores(self) -> &'a MultiplicadoresDeLagrange<S> {
        self.multiplicadores
    }
}

impl<'a, S: Escalar, F: Funcao<S>> Funcao<S> for Lagrangiana<'a, S, F> {
    open spec fn valor(&self, x: Ponto<S>) -> S {
        valor_lagrangiana(self.problema(), self.multiplicadores(), x)
    }

    fn avaliar(&self, x: Ponto<S>) -> (r: S) {
        proof {
            use_type_invariant(self);
        }
        let g = &self.problema.restricoes_desigualdades;
        let h = &self.problema.restricoes_igualdades;
        let lambdas = &self.multiplicadores.lambdas;
        let mus = &self.multiplicadores.mus;
        let f_x = self.problema.funcao_objetivo.avaliar(x);
        let mut lbd_g_x = zero::<S>();
        let mut j: usize = 0;
        while j < lambdas.len()
            invariant
                j <= lambdas.len(),
                lambdas.len() <= g.len(),
                lbd_g_x == somatorio(termos_produto(lambdas@, valores_spec(g@, x)), j as int),
            decreases lambdas.len() - j,
        {
            lbd_g_x = lbd_g_x.soma(lambdas[j].multiplica(g[j].avaliar(x)));
            j += 1;
        }
        let mut mu_h_x = zero::<S>();
        let mut r: usize = 0;
        while r < mus.len()
            invariant
                r <= mus.len(),
                mus.len() <= h.len(),
                mu_h_x == somatorio(termos_produto(mus@, valores_spec(h@, x)), r as int),
            decreases mus.len() - r,
        {
            mu_h_x = mu_h_x.soma(mus[r].multiplica(h[r].avaliar(x)));
            r += 1;
        }
        f_x.soma(lbd_g_x).soma(mu_h_x)
    }
}

/// The Lagrangian of `problema` for the given multipliers, as a value.
pub closed spec fn lagrangiana_de<'a, S: Escalar, F: Funcao<S>>(
    problema: &'a Problema<S, F>,
    multiplicadores: &'a MultiplicadoresDeLagrange<S>,
) -> Lagrangiana<'a, S, F> {
    Lagrangiana { problema, multiplicadores }
}

/// What `lagrangiana_de` is made of.
pub proof fn lema_lagrangiana_de<'a, S: Escalar, F: Funcao<S>>(
    problema: &'a Problema<S, F>,
    multiplicadores: &'a MultiplicadoresDeLagrange<S>,
)
    ensures
        lagrangiana_de(problema, multiplicadores).problema() == problema,
        lagrangiana_de(problema, multiplicadores).multiplicadores() == multiplicadores,
{
}

/// The Lagrangian of `problema` for the given multipliers.
pub fn lagrangiana<'a, S: Escalar, F: Funcao<S>>(
    problema: &'a Problema<S, F>,
    multiplicadores: &'a MultiplicadoresDeLagrange<S>,
) -> (r: Lagrangiana<'a, S, F>)
    requires
        multiplicadores_cabem(problema, multiplicadores),
    ensures
        r == lagrangiana_de(problema, multiplicadores),
{
    Lagrangiana { problema, multiplicadores }
}

/// The terms `lambda_j * max(0, g_j(x))`.
pub open spec fn termos_violacao<S: Escalar>(lambdas: Seq<S>, g: Seq<S>) -> spec_fn(int) -> S {
    |j: int| lambdas[j].multiplica_spec(max_spec(zero_spec::<S>(), g[j]))
}

/// The terms `lambda_j * max(0, g_j(x))^2`.
pub open spec fn termos_violacao_quadrada<S: Escalar>(
    lambdas: Seq<S>,
    g: Seq<S>) -> spec_fn(int,
) -> S {
    |j: int|
        lambdas[j].multiplica_spec(
            max_spec(zero_spec::<S>(), g[j]).multiplica_spec(max_spec(zero_spec::<S>(), g[j])),
        )
}

/// The terms `|mu_r * h_r(x)|`.
pub open spec fn termos_desvio<S: Escalar>(mus: Seq<S>, h: Seq<S>) -> spec_fn(int) -> S {
    |r: int| mus[r].multiplica_spec(h[r]).modulo_spec()
}

/// The terms `|mu_r| * h_r(x)^2`.
pub open spec fn termos_desvio_quadrado<S: Escalar>(mus: Seq<S>, h: Seq<S>) -> spec_fn(int) -> S {
    |r: int| mus[r].modulo_spec().multiplica_spec(h[r].multiplica_spec(h[r]))
}

/// The penalised Lagrangian at `x`: the objective, plus the weighted violations of the
/// inequality constraints, plus the weighted deviations of the equality constraints, plus
/// `rho` times each of the two sums of their squares.
pub open spec fn valor_lagrangiana_penalizada<S: Escalar, F: Funcao<S>>(
    problema: &Problema<S, F>,
    multiplicadores: &MultiplicadoresDeLagrange<S>,
    rho: S,
    x: Ponto<S>,
) -> S {
    let g = valores_spec(problema.restricoes_desigualdades@, x);
    let h = valores_spec(problema.restricoes_igualdades@, x);
    let lambdas = multiplicadores.lambdas@;
    let mus = multiplicadores.mus@;
    problema.funcao_objetivo.valor(x).soma_spec(
        somatorio(termos_violacao(lambdas, g), lambdas.len() as int),
    ).soma_spec(somatorio(termos_desvio(mus, h), mus.len() as int)).soma_spec(
        rho.multiplica_spec(somatorio(termos_violacao_quadrada(lambdas, g), lambdas.len() as int)),
    ).soma_spec(
        rho.multiplica_spec(somatorio(termos_desvio_quadrado(mus, h), mus.len() as int)),
    )
}

/// The penalised Lagrangian of a problem for given multipliers.
pub struct LagrangianaPenalizada<'a, S: Escalar, F: Funcao<S>> {
    problema: &'a Problema<S, F>,
    multiplicadores: &'a MultiplicadoresDeLagrange<S>,
    rho: S,
}

impl<'a, S: Escalar, F: Funcao<S>> LagrangianaPenalizada<'a, S, F> {
    #[verifier::type_invariant]
    spec fn bem_formada(self) -> bool {
        multiplicadores_cabem(self.problema, self.multiplicadores)
    }

    /// The problem that the function is of.
    pub closed spec fn problema(self) -> &'a Problema<S, F> {
        self.problema
    }

    /// The multipliers that the function is for.
    pub closed spec fn multiplicadores(self) -> &'a MultiplicadoresDeLagrange<S> {
        self.multiplicadores
    }

    /// The weight of the quadratic terms.
    pub closed spec fn rho(self) -> S {
        self.rho
    }
}

impl<'a, S: Escalar, F: Funcao<S>> Funcao<S> for LagrangianaPenalizada<'a, S, F> {
    open spec fn valor(&self, x: Ponto<S>) -> S {
        valor_lagrangiana_penalizada(self.problema(), self.multiplicadores(), self.rho(), x)
    }

    fn avaliar(&self, x: Ponto<S>) -> (r: S) {
        proof {
            use_type_invariant(self);
        }
        let g = &self.problema.restricoes_desigualdades;
        let h = &self.problema.restricoes_igualdades;
        let lambdas = &self.multiplicadores.lambdas;
        let mus = &self.multiplicadores.mus;
        let ghost gx = valores_spec(g@, x);
        let ghost hx = valores_spec(h@, x);
        let f_x = self.problema.funcao_objetivo.avaliar(x);
        let mut lbd_g_x = zero::<S>();
        let mut lbd_g_x_penalizado = zero::<S>();
        let mut j: usize = 0;
        while j < lambdas.len()
            invariant
                j <= lambdas.len(),
                lambdas.len() <= g.len(),
                gx == valores_spec(g@, x),
                lbd_g_x == somatorio(termos_violacao(lambdas@, gx), j as int),
                lbd_g_x_penalizado == somatorio(termos_violacao_quadrada(lambdas@, gx), j as int),
            decreases lambdas.len() - j,
        {
            let violacao = max(zero::<S>(), g[j].avaliar(x));
            lbd_g_x = lbd_g_x.soma(lambdas[j].multiplica(violacao));
            lbd_g_x_penalizado =
            lbd_g_x_penalizado.soma(lambdas[j].multiplica(violacao.multiplica(violacao)));
            j += 1;
        }
        let mut mu_h_x = zero::<S>();
        let mut mu_h_x_penalizado = zero::<S>();
        let mut r: usize = 0;
        while r < mus.len()
            invariant
                r <= mus.len(),
                mus.len() <= h.len(),
                hx == valores_spec(h@, x),
                mu_h_x == somatorio(termos_desvio(mus@, hx), r as int),
                mu_h_x_penalizado == somatorio(termos_desvio_quadrado(mus@, hx), r as int),
            decreases mus.len() - r,
        {
            let desvio = h[r].avaliar(x);
            mu_h_x = mu_h_x.soma(mus[r].multiplica(desvio).modulo());
            mu_h_x_penalizado =
            mu_h_x_penalizado.soma(mus[r].modulo().multiplica(desvio.multiplica(desvio)));
            r += 1;
        }
        f_x.soma(lbd_g_x).soma(mu_h_x).soma(self.rho.multiplica(lbd_g_x_penalizado)).soma(
            self.rho.multiplica(mu_h_x_penalizado),
        )
    }
}

/// The penalised Lagrangian of `problema` for the given multipliers and weight, as a value.
pub closed spec fn penalizada_de<'a, S: Escalar, F: Funcao<S>>(
    problema: &'a Problema<S, F>,
    multiplicadores: &'a MultiplicadoresDeLagrange<S>,
    rho: S,
) -> LagrangianaPenalizada<'a, S, F> {
    LagrangianaPenalizada { problema, multiplicadores, rho }
}

/// What `penalizada_de` is made of.
pub proof fn lema_penalizada_de<'a, S: Escalar, F: Funcao<S>>(
    problema: &'a Problema<S, F>,
    multiplicadores: &'a MultiplicadoresDeLagrange<S>,
    rho: S,
)
    ensures
        penalizada_de(problema, multiplicadores, rho).problema() == problema,
        penalizada_de(problema, multiplicadores, rho).multiplicadores() == multiplicadores,
        penalizada_de(problema, multiplicadores, rho).rho() == rho,
{
}

/// The penalised Lagrangian of `problema` for the given multipliers and the weight `rho`
/// of its quadratic terms.
pub fn lagrangiana_penalizada<'a, S: Escalar, F: Funcao<S>>(
    problema: &'a Problema<S, F>,
    multiplicadores: &'a MultiplicadoresDeLagrange<S>,
    rho: S,
) -> (r: LagrangianaPenalizada<'a, S, F>)
    requires
        multiplicadores_cabem(problema, multiplicadores),
    ensures
        r == penalizada_de(problema, multiplicadores, rho),
{
    LagrangianaPenalizada { problema, multiplicadores, rho }
}

} // verus!
