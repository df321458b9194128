//! The data the solver works on: points, functions, the problem, the
//! multipliers and the constants of the method.

use crate::escalar::{menor_ou_igual_spec, zero_spec, Escalar};
use crate::utils::{auto_grad, gradiente_spec};
use vstd::prelude::*;

verus! {

/// Dimension of the space the problems live in.
pub const DIM: usize = 2;

/// A point, or a direction, of that space.
pub type Ponto<S> = [S; DIM];

/// A real function of a point: the objective, a constraint, or a function built from them.
pub trait Funcao<S: Escalar> {
    /// The value of the function at `x`.
    spec fn valor(&self, x: Ponto<S>) -> S;

    fn avaliar(&self, x: Ponto<S>) -> (r: S)
        ensures
            r == self.valor(x),
    ;
}

/// The values of the functions of `fs` at `x`, in their order.
pub open spec fn valores_spec<S: Escalar, F: Funcao<S>>(fs: Seq<F>, x: Ponto<S>) -> Seq<S> {
    Seq::new(fs.len(), |j: int| fs[j].valor(x))
}

/// The finite-difference gradients of the functions of `fs` at `x`, in their order.
pub open spec fn gradientes_spec<S: Escalar, F: Funcao<S>>(fs: Seq<F>, x: Ponto<S>, eps: S) -> Seq<
    Seq<S>,
> {
    Seq::new(fs.len(), |j: int| gradiente_spec(&fs[j], x, eps))
}

/// A list of points as the sequence of their coordinates.
pub open spec fn pontos_spec<S>(v: &Vec<Ponto<S>>) -> Seq<Seq<S>> {
    Seq::new(v.len() as nat, |i: int| v[i]@)
}

/// The constants of the method.
pub struct Configuracao<S: Escalar> {
    /// What counts as infinitesimal: the step of the finite differences and the tolerance of
    /// the comparisons with zero.
    pub eps: S,
    /// How far the values of a linear subproblem and of its dual may be apart.
    pub tol_dualidade: S,
    /// Penalty on every slack variable of the linear subproblem.
    pub c: S,
    /// Weight of the quadratic terms of the penalised Lagrangian.
    pub rho: S,
    /// Sufficient-decrease constant of the merit test.
    pub sigma: S,
    /// Curvature constant of the merit test.
    pub eta: S,
    /// Increment that inflates the multipliers in the merit function.
    pub incremento: S,
    /// Above this ratio the trust region grows.
    pub delta_inc: S,
    /// Below this ratio the trust region shrinks.
    pub delta_dec: S,
    /// Increment of the step size in the line search.
    pub passo_busca: S,
    /// The most step sizes that one line search tries; the search stops before, at the
    /// first step size that is not below one.
    pub limite_busca: usize,
    /// How close to one a step size counts as a full step.
    pub tol_passo: S,
}

impl<S: Escalar> Configuracao<S> {
    /// The configuration with the constants of the method, given the three that the merit
    /// function leaves to its user.
    pub open spec fn padrao_spec(sigma: S, eta: S, incremento: S) -> Self {
        Configuracao {
            eps: S::de_razao_spec(1, 1_000_000_000_000),
            tol_dualidade: S::de_razao_spec(1, 1_000_000_000),
            c: S::de_razao_spec(1, 1),
            rho: S::de_razao_spec(7055, 10000),
            sigma,
            eta,
            incremento,
            delta_inc: S::de_razao_spec(3, 4),
            delta_dec: S::de_razao_spec(1, 4),
            passo_busca: S::de_razao_spec(1, 100),
            limite_busca: 100,
            tol_passo: S::de_razao_spec(1, 1_000_000_000_000),
        }
    }

    /// Builds that configuration.
    pub fn padrao(sigma: S, eta: S, incremento: S) -> (r: Self)
        ensures
            r == Self::padrao_spec(sigma, eta, incremento),
    {
        Configuracao {
            eps: S::de_razao(1, 1_000_000_000_000),
            tol_dualidade: S::de_razao(1, 1_000_000_000),
            c: S::de_razao(1, 1),
            rho: S::de_razao(7055, 10000),
            sigma,
            eta,
            incremento,
            delta_inc: S::de_razao(3, 4),
            delta_dec: S::de_razao(1, 4),
            passo_busca: S::de_razao(1, 100),
            limite_busca: 100,
            tol_passo: S::de_razao(1, 1_000_000_000_000),
        }
    }

    /// What the trust-region update needs of the constants: the shrink threshold is positive.
    pub open spec fn regiao_valida(&self) -> bool {
        zero_spec::<S>().menor_spec(self.delta_dec)
    }

    /// Tests whether the shrink threshold is positive.
    pub fn tem_regiao_valida(&self) -> (r: bool)
        ensures
            r == self.regiao_valida(),
    {
        S::de_razao(0, 1).menor(self.delta_dec)
    }
}

/// Estimates of the Lagrange multipliers: one `lambda` for each inequality constraint, one
/// `mu` for each equality constraint.
#[derive(Debug, Clone)]
pub struct MultiplicadoresDeLagrange<S: Escalar> {
    pub lambdas: Vec<S>,
    pub mus: Vec<S>,
}

/// Why a linear program has no solution.
#[derive(Clone, Copy, Debug, PartialEq, Eq, Structural)]
pub enum FalhaLinear {
    /// No point meets all the constraints.
    Inviavel,
    /// The objective has no bound on the feasible set.
    Ilimitado,
}

/// Why an iteration could not be carried out.
#[derive(Clone, Copy, Debug, PartialEq, Eq, Structural)]
pub enum Erro {
    /// The linear subproblem has no solution.
    PrimalSemSolucao(FalhaLinear),
    /// The dual of the linear subproblem has no solution.
    DualSemSolucao(FalhaLinear),
    /// The values of the subproblem and of its dual are not closer than the tolerance.
    DualidadeViolada,
    /// A solution does not have one value for each variable.
    DimensaoIncompativel,
}

/// The two entry-wise operations on matrices.
#[allow(dead_code)]
pub enum OP {
    ADD,
    SUB,
}

/// The problem: minimise the objective subject to `g(x) <= 0` for every inequality
/// constraint `g` and `h(x) = 0` for every equality constraint `h`. `d_l` and `d_u` bound
/// the directions that the linear subproblems may take.
#[derive(Clone, Debug)]
pub struct Problema<S: Escalar, F: Funcao<S>> {
    pub funcao_objetivo: F,
    pub restricoes_igualdades: Vec<F>,
    pub restricoes_desigualdades: Vec<F>,
    pub d_l: Ponto<S>,
    pub d_u: Ponto<S>,
}

impl<S: Escalar, F: Funcao<S>> Problema<S, F> {
    /// The problem with the given objective, constraints and trust region.
    pub fn novo(
        funcao_objetivo: F,
        restricoes_desigualdades: Vec<F>,
        restricoes_igualdades: Vec<F>,
        d_l: Ponto<S>,
        d_u: Ponto<S>,
    ) -> (r: Self)
        ensures
            r.funcao_objetivo == funcao_objetivo,
            r.restricoes_desigualdades == restricoes_desigualdades,
            r.restricoes_igualdades == restricoes_igualdades,
            r.d_l == d_l,
            r.d_u == d_u,
    {
        Self { funcao_objetivo, restricoes_igualdades, restricoes_desigualdades, d_l, d_u }
    }

    /// Value and gradient of the objective and of every constraint at `x`: the objective,
    /// its gradient, the inequality constraints, the equality constraints, the gradients of
    /// the inequality constraints and those of the equality constraints.
    pub fn avaliar_em(&self, x: Ponto<S>, config: &Configuracao<S>) -> (r: (
        S,
        Ponto<S>,
        Vec<S>,
        Vec<S>,
        Vec<Ponto<S>>,
        Vec<Ponto<S>>,
    ))
        ensures
            r.0 == self.funcao_objetivo.valor(x),
            r.1@ == gradiente_spec(&self.funcao_objetivo, x, config.eps),
            r.2@ == valores_spec(self.restricoes_desigualdades@, x),
            r.3@ == valores_spec(self.restricoes_igualdades@, x),
            pontos_spec(&r.4) == gradientes_spec(self.restricoes_desigualdades@, x, config.eps),
            pontos_spec(&r.5) == gradientes_spec(self.restricoes_igualdades@, x, config.eps),
    {
        let val_funcao_objetivo = self.funcao_objetivo.avaliar(x);
        let grad_funcao_objetivo = auto_grad(x, &self.funcao_objetivo, config);
        let grads_funcao_igualdades = gradientes(&self.restricoes_igualdades, x, config);
        let grads_funcao_desigualdades = gradientes(&self.restricoes_desigualdades, x, config);
        let funcao_desigualdades_avaliadas = valores(&self.restricoes_desigualdades, x);
        let funcao_igualdades_avaliadas = valores(&self.restricoes_igualdades, x);
        (
            val_funcao_objetivo,
            grad_funcao_objetivo,
            funcao_desigualdades_avaliadas,
            funcao_igualdades_avaliadas,
            grads_funcao_desigualdades,
            grads_funcao_igualdades,
        )
    }

    /// Number of inequality constraints.
    pub fn mi(&self) -> (r: usize)
        ensures
            r == self.restricoes_desigualdades.len(),
    {
        self.restricoes_desigualdades.len()
    }

    /// Number of equality constraints.
    pub fn me(&self) -> (r: usize)
        ensures
            r == self.restricoes_igualdades.len(),
    {
        self.restricoes_igualdades.len()
    }

    /// Replaces the bounds of the trust region.
    pub fn atualizar_regiao_de_confianca(&mut self, d_l: Ponto<S>, d_u: Ponto<S>)
        ensures
            final(self).d_l == d_l,
            final(self).d_u == d_u,
            final(self).funcao_objetivo == old(self).funcao_objetivo,
            final(self).restricoes_igualdades == old(self).restricoes_igualdades,
            final(self).restricoes_desigualdades == old(self).restricoes_desigualdades,
    {
        self.d_l = d_l;
        self.d_u = d_u;
    }

    /// The bounds of the trust region are ordered in every coordinate.
    pub open spec fn regiao_ordenada(&self) -> bool {
        forall|l: int| 0 <= l < DIM ==> menor_ou_igual_spec(#[trigger] self.d_l[l], self.d_u[l])
    }
}

/// Whether there is a constraint for every multiplier.
pub open spec fn multiplicadores_cabem<S: Escalar, F: Funcao<S>>(
    problema: &Problema<S, F>,
    multiplicadores: &MultiplicadoresDeLagrange<S>,
) -> bool {
    &&& multiplicadores.lambdas.len() <= problema.restricoes_desigualdades.len()
    &&& multiplicadores.mus.len() <= problema.restricoes_igualdades.len()
}

/// Whether the multipliers have a `lambda` for each inequality constraint and a `mu` for
/// each equality constraint.
pub open spec fn multiplicadores_bastam<S: Escalar, F: Funcao<S>>(
    problema: &Problema<S, F>,
    multiplicadores: &MultiplicadoresDeLagrange<S>,
) -> bool {
    &&& multiplicadores.lambdas.len() >= problema.restricoes_desigualdades.len()
    &&& multiplicadores.mus.len() >= problema.restricoes_igualdades.len()
}

/// Whether the problem has exactly one `lambda` for each inequality constraint and one `mu`
/// for each equality constraint.
pub open spec fn multiplicadores_casam<S: Escalar, F: Funcao<S>>(
    problema: &Problema<S, F>,
    multiplicadores: &MultiplicadoresDeLagrange<S>,
) -> bool {
    &&& multiplicadores.lambdas.len() == problema.restricoes_desigualdades.len()
    &&& multiplicadores.mus.len() == problema.restricoes_igualdades.len()
}

/// Evaluates every function of the list at `x`.
pub fn valores<S: Escalar, F: Funcao<S>>(fs: &Vec<F>, x: Ponto<S>) -> (r: Vec<S>)
    ensures
        r@ == valores_spec(fs@, x),
{
    let mut r: Vec<S> = Vec::new();
    let mut j: usize = 0;
    while j < fs.len()
        invariant
            j <= fs.len(),
            r.len() == j,
            forall|k: int| 0 <= k < j ==> #[trigger] r[k] == fs[k].valor(x),
        decreases fs.len() - j,
    {
        r.push(fs[j].avaliar(x));
        j += 1;
    }
    assert(r@ =~= valores_spec(fs@, x));
    r
}

/// The finite-difference gradient of every function of the list at `x`.
pub fn gradientes<S: Escalar, F: Funcao<S>>(
    fs: &Vec<F>,
    x: Ponto<S>,
    config: &Configuracao<S>,
) -> (r: Vec<Ponto<S>>)
    ensures
        pontos_spec(&r) == gradientes_spec(fs@, x, config.eps),
{
    let mut r: Vec<Ponto<S>> = Vec::new();
    let mut j: usize = 0;
    while j < fs.len()
        invariant
            j <= fs.len(),
            r.len() == j,
            forall|k: int|
                0 <= k < j ==> (#[trigger] r[k])@ == gradiente_spec(&fs[k], x, config.eps),
        decreases fs.len() - j,
    {
        r.push(auto_grad(x, &fs[j], config));
        j += 1;
    }
    assert(pontos_spec(&r) =~= gradientes_spec(fs@, x, config.eps));
    r
}

} // verus!
