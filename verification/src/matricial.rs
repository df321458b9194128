//! The linear subproblem at a point, in matrix form: minimise `c . v` subject to
//! `A v >= b`, over the variables `v = [d, t_g, t_h+, t_h-]`: the direction and one slack
//! for each inequality constraint and two for each equality constraint.

use crate::defs::{
    gradientes_spec, pontos_spec, valores_spec, Configuracao, Funcao, Ponto, Problema, DIM,
};
use crate::escalar::{menos_um, menos_um_spec, um, um_spec, zero, zero_spec, Escalar};
use crate::utils::{
    cobre_o_espaco, fn_aux_vetor_nulo_exceto, fn_aux_vrh_n, fn_aux_vrh_p, fn_aux_vtgj,
    gradiente_spec, matriz_spec, max, max_spec, nulo, nulo_exceto, produto_matriz_vetor,
    produto_matriz_vetor_spec, vetor_nulo,
};
use vstd::prelude::*;

verus! {

/// What the construction of the subproblem reads: the values and gradients of the
/// functions of the problem at the point, its dimensions, the bounds of the trust region,
/// the directions already found and the current approximation of the Hessian.
pub struct InformacoesProblema<'a, S: Escalar> {
    pub grad_funcao_objetivo: Ponto<S>,
    pub funcao_desigualdades_avaliadas: Vec<S>,
    pub funcao_igualdades_avaliadas: Vec<S>,
    pub grads_funcao_desigualdades: Vec<Ponto<S>>,
    pub grads_funcao_igualdades: Vec<Ponto<S>>,
    pub n: usize,
    pub mi: usize,
    pub me: usize,
    pub dl: Ponto<S>,
    pub du: Ponto<S>,
    pub direcoes_encontradas: &'a Vec<Ponto<S>>,
    pub hessiana_atual: &'a Vec<Vec<S>>,
}

/// The same, as mathematical sequences: what the rows and columns of the subproblem are
/// made of.
pub struct DadosSubproblema<S> {
    /// Gradient of the objective.
    pub grad_f: Seq<S>,
    /// Values of the inequality constraints.
    pub g: Seq<S>,
    /// Values of the equality constraints.
    pub h: Seq<S>,
    /// Gradients of the inequality constraints.
    pub grads_g: Seq<Seq<S>>,
    /// Gradients of the equality constraints.
    pub grads_h: Seq<Seq<S>>,
    /// Lower bound of the trust region.
    pub dl: Seq<S>,
    /// Upper bound of the trust region.
    pub du: Seq<S>,
    /// Directions already found.
    pub direcoes: Seq<Seq<S>>,
    /// Approximation of the Hessian.
    pub hessiana: Seq<Seq<S>>,
}

impl<S> DadosSubproblema<S> {
    /// Number of inequality constraints.
    pub open spec fn mi(self) -> int {
        self.g.len() as int
    }

    /// Number of equality constraints.
    pub open spec fn me(self) -> int {
        self.h.len() as int
    }
}

impl<'a, S: Escalar> View for InformacoesProblema<'a, S> {
    type V = DadosSubproblema<S>;

    open spec fn view(&self) -> DadosSubproblema<S> {
        DadosSubproblema {
            grad_f: self.grad_funcao_objetivo@,
            g: self.funcao_desigualdades_avaliadas@,
            h: self.funcao_igualdades_avaliadas@,
            grads_g: pontos_spec(&self.grads_funcao_desigualdades),
            grads_h: pontos_spec(&self.grads_funcao_igualdades),
            dl: self.dl@,
            du: self.du@,
            direcoes: pontos_spec(self.direcoes_encontradas),
            hessiana: matriz_spec(self.hessiana_atual),
        }
    }
}

/// What the subproblem of `problema` at `x` is made of.
pub open spec fn dados_do_subproblema<S: Escalar, F: Funcao<S>>(
    problema: &Problema<S, F>,
    x: Ponto<S>,
    direcoes: Seq<Seq<S>>,
    hessiana: Seq<Seq<S>>,
    config: &Configuracao<S>,
) -> DadosSubproblema<S> {
    DadosSubproblema {
        grad_f: gradiente_spec(&problema.funcao_objetivo, x, config.eps),
        g: valores_spec(problema.restricoes_desigualdades@, x),
        h: valores_spec(problema.restricoes_igualdades@, x),
        grads_g: gradientes_spec(problema.restricoes_desigualdades@, x, config.eps),
        grads_h: gradientes_spec(problema.restricoes_igualdades@, x, config.eps),
        dl: problema.d_l@,
        du: problema.d_u@,
        direcoes,
        hessiana,
    }
}

impl<'a, S: Escalar> InformacoesProblema<'a, S> {
    /// The dimensions agree with the data, the number of variables fits in a machine word,
    /// and the approximation of the Hessian can be applied to a direction.
    pub open spec fn bem_formada(&self) -> bool {
        &&& self.n == DIM
        &&& self.mi == self.funcao_desigualdades_avaliadas.len()
        &&& self.mi == self.grads_funcao_desigualdades.len()
        &&& self.me == self.funcao_igualdades_avaliadas.len()
        &&& self.me == self.grads_funcao_igualdades.len()
        &&& self.n + self.mi + 2 * self.me <= usize::MAX
        &&& self.direcoes_encontradas.len() > 0 ==> cobre_o_espaco(
            matriz_spec(self.hessiana_atual),
        )
    }

    /// Evaluates the problem at `x` and gathers what the construction reads.
    pub fn novo<F: Funcao<S>>(
        problema: &Problema<S, F>,
        x: Ponto<S>,
        direcoes_encontradas: &'a Vec<Ponto<S>>,
        hessiana_atual: &'a Vec<Vec<S>>,
        config: &Configuracao<S>,
    ) -> (r: Self)
        requires
            dimensoes_cabem(problema),
            direcoes_encontradas.len() > 0 ==> cobre_o_espaco(matriz_spec(hessiana_atual)),
        ensures
            r.bem_formada(),
            r@ == dados_do_subproblema(
                problema,
                x,
                pontos_spec(direcoes_encontradas),
                matriz_spec(hessiana_atual),
                config,
            ),
    {
        let (
            _,
            grad_funcao_objetivo,
            funcao_desigualdades_avaliadas,
            funcao_igualdades_avaliadas,
            grads_funcao_desigualdades,
            grads_funcao_igualdades,
        ) = problema.avaliar_em(x, config);
        let n = DIM;
        let mi = grads_funcao_desigualdades.len();
        let me = grads_funcao_igualdades.len();
        assert(mi == problema.restricoes_desigualdades.len()) by {
            assert(pontos_spec(&grads_funcao_desigualdades).len() == mi);
        }
        assert(me == problema.restricoes_igualdades.len()) by {
            assert(pontos_spec(&grads_funcao_igualdades).len() == me);
        }
        InformacoesProblema {
            grad_funcao_objetivo,
            funcao_desigualdades_avaliadas,
            funcao_igualdades_avaliadas,
            grads_funcao_desigualdades,
            grads_funcao_igualdades,
            n,
            mi,
            me,
            dl: problema.d_l,
            du: problema.d_u,
            direcoes_encontradas,
            hessiana_atual,
        }
    }
}

/// Whether the number of variables of the subproblem of this problem fits in a machine word.
pub open spec fn dimensoes_cabem<S: Escalar, F: Funcao<S>>(problema: &Problema<S, F>) -> bool {
    DIM + problema.restricoes_desigualdades.len() + 2 * problema.restricoes_igualdades.len()
        <= usize::MAX
}

/// Tests whether the number of variables of the subproblem of `problema` fits in a machine
/// word.
pub fn dimensoes_validas<S: Escalar, F: Funcao<S>>(problema: &Problema<S, F>) -> (r: bool)
    ensures
        r == dimensoes_cabem(problema),
{
    let mi = problema.restricoes_desigualdades.len();
    let me = problema.restricoes_igualdades.len();
    me <= (usize::MAX - DIM) / 2 && mi <= usize::MAX - DIM - 2 * me
}

/// A row of the matrix: the coefficients of the direction, then those of the slacks of the
/// inequality constraints, then those of the two groups of slacks of the equality constraints.
pub open spec fn linha_spec<S>(d: Seq<S>, tg: Seq<S>, thp: Seq<S>, thm: Seq<S>) -> Seq<S> {
    d + tg + thp + thm
}

/// Builds a row of the matrix from the four lists of coefficients.
pub fn gerar_linha_matriz<S: Copy>(
    coeficientes_d: &[S],
    coeficientes_tg: &[S],
    coeficientes_thp: &[S],
    coeficientes_thm: &[S],
) -> (linha: Vec<S>)
    ensures
        linha@ == linha_spec(
            coeficientes_d@,
            coeficientes_tg@,
            coeficientes_thp@,
            coeficientes_thm@,
        ),
{
    let mut linha: Vec<S> = Vec::new();
    estender(&mut linha, coeficientes_d);
    estender(&mut linha, coeficientes_tg);
    estender(&mut linha, coeficientes_thp);
    estender(&mut linha, coeficientes_thm);
    linha
}

/// Appends the items of `itens` to `linha`.
fn estender<S: Copy>(linha: &mut Vec<S>, itens: &[S])
    ensures
        final(linha)@ == old(linha)@ + itens@,
{
    let ghost inicio = linha@;
    let mut i: usize = 0;
    while i < itens.len()
        invariant
            i <= itens.len(),
            linha@ == inicio + itens@.take(i as int),
        decreases itens.len() - i,
    {
        linha.push(itens[i]);
        i += 1;
        assert(linha@ =~= inicio + itens@.take(i as int));
    }
    assert(itens@.take(i as int) =~= itens@);
}

/// Every item of `v` times minus one.
pub open spec fn negado<S: Escalar>(v: Seq<S>) -> Seq<S> {
    Seq::new(v.len(), |i: int| menos_um_spec::<S>().multiplica_spec(v[i]))
}

/// Every entry of `m` times minus one.
pub open spec fn negada<S: Escalar>(m: Seq<Seq<S>>) -> Seq<Seq<S>> {
    Seq::new(m.len(), |i: int| negado(m[i]))
}

/// Every item of the vector times minus one.
pub fn negar<S: Escalar>(v: &[S]) -> (r: Vec<S>)
    ensures
        r@ == negado(v@),
{
    let mut r: Vec<S> = Vec::new();
    let menos_um = menos_um::<S>();
    let mut i: usize = 0;
    while i < v.len()
        invariant
            i <= v.len(),
            menos_um == menos_um_spec::<S>(),
            r.len() == i,
            forall|k: int| 0 <= k < i ==> #[trigger] r[k] == menos_um.multiplica_spec(v[k]),
        decreases v.len() - i,
    {
        r.push(menos_um.multiplica(v[i]));
        i += 1;
    }
    assert(r@ =~= negado(v@));
    r
}

/// Rows of the linearised inequality constraints, `grad g_j . d - t_g,j <= -g_j(x)`.
pub open spec fn linhas_1a<S: Escalar>(dados: DadosSubproblema<S>) -> Seq<Seq<S>> {
    Seq::new(
        dados.mi() as nat,
        |j: int|
            linha_spec(
                dados.grads_g[j],
                nulo_exceto(j, dados.mi(), menos_um_spec::<S>()),
                nulo::<S>(dados.me()),
                nulo::<S>(dados.me()),
            ),
    )
}

/// Their right-hand sides.
pub open spec fn lados_1a<S: Escalar>(dados: DadosSubproblema<S>) -> Seq<S> {
    Seq::new(dados.mi() as nat, |j: int| dados.g[j].oposto_spec())
}

/// Builds the rows of the linearised inequality constraints and their right-hand sides.
pub fn restricao_1a<S: Escalar>(info: &InformacoesProblema<S>) -> (r: (Vec<Vec<S>>, Vec<S>))
    requires
        info.bem_formada(),
    ensures
        matriz_spec(&r.0) == linhas_1a(info@),
        r.1@ == lados_1a(info@),
{
    let mut a: Vec<Vec<S>> = Vec::new();
    let mut b: Vec<S> = Vec::new();
    let mut j: usize = 0;
    while j < info.mi
        invariant
            j <= info.mi,
            info.bem_formada(),
            a.len() == j,
            b.len() == j,
            forall|k: int| 0 <= k < j ==> (#[trigger] a[k])@ == linhas_1a(info@)[k],
            forall|k: int| 0 <= k < j ==> #[trigger] b[k] == lados_1a(info@)[k],
        decreases info.mi - j,
    {
        a.push(
            gerar_linha_matriz(
                info.grads_funcao_desigualdades[j].as_slice(),
                fn_aux_vtgj(j, info.mi).as_slice(),
                vetor_nulo(info.me).as_slice(),
                vetor_nulo(info.me).as_slice(),
            ),
        );
        b.push(info.funcao_desigualdades_avaliadas[j].oposto());
        j += 1;
    }
    assert(matriz_spec(&a) =~= linhas_1a(info@));
    assert(b@ =~= lados_1a(info@));
    (a, b)
}

/// Rows of the linearised equality constraints, `grad h_r . d - t_h+,r + t_h-,r = -h_r(x)`,
/// each written as two inequalities: first all those with the coefficients as they are,
/// then all those with the coefficients negated.
pub open spec fn linhas_1b<S: Escalar>(dados: DadosSubproblema<S>) -> Seq<Seq<S>> {
    Seq::new(
        (2 * dados.me()) as nat,
        |k: int|
            if k < dados.me() {
                linha_spec(
                    dados.grads_h[k],
                    nulo::<S>(dados.mi()),
                    nulo_exceto(k, dados.me(), menos_um_spec::<S>()),
                    nulo_exceto(k, dados.me(), um_spec::<S>()),
                )
            } else {
                linha_spec(
                    negado(dados.grads_h[k - dados.me()]),
                    nulo::<S>(dados.mi()),
                    nulo_exceto(k - dados.me(), dados.me(), um_spec::<S>()),
                    nulo_exceto(k - dados.me(), dados.me(), menos_um_spec::<S>()),
                )
            },
    )
}

/// Their right-hand sides.
pub open spec fn lados_1b<S: Escalar>(dados: DadosSubproblema<S>) -> Seq<S> {
    Seq::new(
        (2 * dados.me()) as nat,
        |k: int|
            if k < dados.me() {
                dados.h[k].oposto_spec()
            } else {
                dados.h[k - dados.me()]
            },
    )
}

/// Builds the rows of the linearised equality constraints and their right-hand sides.
pub fn restricao_1b<S: Escalar>(info: &InformacoesProblema<S>) -> (r: (Vec<Vec<S>>, Vec<S>))
    requires
        info.bem_formada(),
    ensures
        matriz_spec(&r.0) == linhas_1b(info@),
        r.1@ == lados_1b(info@),
{
    let mut a: Vec<Vec<S>> = Vec::new();
    let mut b: Vec<S> = Vec::new();
    let mut r: usize = 0;
    while r < info.me
        invariant
            r <= info.me,
            info.bem_formada(),
            a.len() == r,
            b.len() == r,
            forall|k: int| 0 <= k < r ==> (#[trigger] a[k])@ == linhas_1b(info@)[k],
            forall|k: int| 0 <= k < r ==> #[trigger] b[k] == lados_1b(info@)[k],
        decreases info.me - r,
    {
        a.push(
            gerar_linha_matriz(
                info.grads_funcao_igualdades[r].as_slice(),
                vetor_nulo(info.mi).as_slice(),
                fn_aux_vrh_n(r, info.me).as_slice(),
                fn_aux_vrh_p(r, info.me).as_slice(),
            ),
        );
        b.push(info.funcao_igualdades_avaliadas[r].oposto());
        r += 1;
    }
    let mut r: usize = 0;
    while r < info.me
        invariant
            r <= info.me,
            info.bem_formada(),
            a.len() == info.me + r,
            b.len() == info.me + r,
            forall|k: int| 0 <= k < info.me + r ==> (#[trigger] a[k])@ == linhas_1b(info@)[k],
            forall|k: int| 0 <= k < info.me + r ==> #[trigger] b[k] == lados_1b(info@)[k],
        decreases info.me - r,
    {
        let grads_invertidos = negar(info.grads_funcao_igualdades[r].as_slice());
        a.push(
            gerar_linha_matriz(
                grads_invertidos.as_slice(),
                vetor_nulo(info.mi).as_slice(),
                fn_aux_vrh_p(r, info.me).as_slice(),
                fn_aux_vrh_n(r, info.me).as_slice(),
            ),
        );
        b.push(info.funcao_igualdades_avaliadas[r]);
        r += 1;
    }
    assert(matriz_spec(&a) =~= linhas_1b(info@));
    assert(b@ =~= lados_1b(info@));
    (a, b)
}

/// The approximation of the Hessian applied to the direction `k` already found.
pub open spec fn direcao_conjugada<S: Escalar>(dados: DadosSubproblema<S>, k: int) -> Seq<S> {
    produto_matriz_vetor_spec(dados.hessiana, dados.direcoes[k])
}

/// Rows that keep the new direction conjugate to each direction already found,
/// `(H d_k) . d = 0`, each written as two inequalities, one after the other.
pub open spec fn linhas_1c<S: Escalar>(dados: DadosSubproblema<S>) -> Seq<Seq<S>> {
    Seq::new(
        (2 * dados.direcoes.len()) as nat,
        |k: int|
            if k % 2 == 0 {
                linha_spec(
                    direcao_conjugada(dados, k / 2),
                    nulo::<S>(dados.mi()),
                    nulo::<S>(dados.me()),
                    nulo::<S>(dados.me()),
                )
            } else {
                linha_spec(
                    negado(direcao_conjugada(dados, k / 2)),
                    nulo::<S>(dados.mi()),
                    nulo::<S>(dados.me()),
                    nulo::<S>(dados.me()),
                )
            },
    )
}

/// Their right-hand sides: all zero.
pub open spec fn lados_1c<S: Escalar>(dados: DadosSubproblema<S>) -> Seq<S> {
    nulo::<S>(2 * dados.direcoes.len() as int)
}

/// Builds the rows of conjugacy to the directions already found and their right-hand sides.
pub fn restricao_1c<S: Escalar>(info: &InformacoesProblema<S>) -> (r: (Vec<Vec<S>>, Vec<S>))
    requires
        info.bem_formada(),
    ensures
        matriz_spec(&r.0) == linhas_1c(info@),
        r.1@ == lados_1c(info@),
{
    let mut a: Vec<Vec<S>> = Vec::new();
    let mut b: Vec<S> = Vec::new();
    let mut t: usize = 0;
    while t < info.direcoes_encontradas.len()
        invariant
            t <= info.direcoes_encontradas.len(),
            info.bem_formada(),
            a.len() == 2 * t,
            b.len() == 2 * t,
            forall|k: int| 0 <= k < 2 * t ==> (#[trigger] a[k])@ == linhas_1c(info@)[k],
            forall|k: int| 0 <= k < 2 * t ==> #[trigger] b[k] == zero_spec::<S>(),
        decreases info.direcoes_encontradas.len() - t,
    {
        let d_r = info.direcoes_encontradas[t];
        let h_dr = produto_matriz_vetor(info.hessiana_atual, &d_r);
        let h_dr_i = negar(h_dr.as_slice());
        a.push(
            gerar_linha_matriz(
                h_dr.as_slice(),
                vetor_nulo(info.mi).as_slice(),
                vetor_nulo(info.me).as_slice(),
                vetor_nulo(info.me).as_slice(),
            ),
        );
        b.push(zero::<S>());
        a.push(
            gerar_linha_matriz(
                h_dr_i.as_slice(),
                vetor_nulo(info.mi).as_slice(),
                vetor_nulo(info.me).as_slice(),
                vetor_nulo(info.me).as_slice(),
            ),
        );
        b.push(zero::<S>());
        t += 1;
    }
    assert(matriz_spec(&a) =~= linhas_1c(info@));
    assert(b@ =~= lados_1c(info@));
    (a, b)
}

/// Rows of two-sided bounds on the variables of one group: first, for each variable `i`
/// of the group, the row with minus one at that variable, then for each the row with one
/// there. `antes` variables come before the group and `depois` after it.
pub open spec fn linhas_de_limites<S: Escalar>(antes: int, grupo: int, depois: int) -> Seq<Seq<S>> {
    Seq::new(
        (2 * grupo) as nat,
        |k: int|
            if k < grupo {
                nulo::<S>(antes) + nulo_exceto(k, grupo, menos_um_spec::<S>()) + nulo::<S>(depois)
            } else {
                nulo::<S>(antes) + nulo_exceto(k - grupo, grupo, um_spec::<S>()) + nulo::<S>(
                    depois,
                )
            },
    )
}

/// Rows of the trust region, `d_l <= d <= d_u`.
pub open spec fn linhas_1d<S: Escalar>(dados: DadosSubproblema<S>) -> Seq<Seq<S>> {
    linhas_de_limites::<S>(0, DIM as int, dados.mi() + 2 * dados.me())
}

/// Their right-hand sides: minus the lower bounds, then the upper bounds.
pub open spec fn lados_1d<S: Escalar>(dados: DadosSubproblema<S>) -> Seq<S> {
    Seq::new(
        (2 * DIM) as nat,
        |k: int|
            if k < DIM {
                dados.dl[k].oposto_spec()
            } else {
                dados.du[k - DIM]
            },
    )
}

/// Builds the rows of the trust region and their right-hand sides.
pub fn restricao_1d<S: Escalar>(info: &InformacoesProblema<S>) -> (r: (Vec<Vec<S>>, Vec<S>))
    requires
        info.bem_formada(),
    ensures
        matriz_spec(&r.0) == linhas_1d(info@),
        r.1@ == lados_1d(info@),
{
    let mut a: Vec<Vec<S>> = Vec::new();
    let mut b: Vec<S> = Vec::new();
    let mut i: usize = 0;
    while i < info.n
        invariant
            i <= info.n,
            info.bem_formada(),
            a.len() == i,
            b.len() == i,
            forall|k: int| 0 <= k < i ==> (#[trigger] a[k])@ =~= linhas_1d(info@)[k],
            forall|k: int| 0 <= k < i ==> #[trigger] b[k] == lados_1d(info@)[k],
        decreases info.n - i,
    {
        a.push(
            gerar_linha_matriz(
                fn_aux_vetor_nulo_exceto(i, info.n, menos_um::<S>()).as_slice(),
                vetor_nulo(info.mi).as_slice(),
                vetor_nulo(info.me).as_slice(),
                vetor_nulo(info.me).as_slice(),
            ),
        );
        b.push(info.dl[i].oposto());
        i += 1;
    }
    let mut i: usize = 0;
    while i < info.n
        invariant
            i <= info.n,
            info.bem_formada(),
            a.len() == info.n + i,
            b.len() == info.n + i,
            forall|k: int| 0 <= k < info.n + i ==> (#[trigger] a[k])@ =~= linhas_1d(info@)[k],
            forall|k: int| 0 <= k < info.n + i ==> #[trigger] b[k] == lados_1d(info@)[k],
        decreases info.n - i,
    {
        a.push(
            gerar_linha_matriz(
                fn_aux_vetor_nulo_exceto(i, info.n, um::<S>()).as_slice(),
                vetor_nulo(info.mi).as_slice(),
                vetor_nulo(info.me).as_slice(),
                vetor_nulo(info.me).as_slice(),
            ),
        );
        b.push(info.du[i]);
        i += 1;
    }
    assert(matriz_spec(&a) =~= linhas_1d(info@));
    assert(b@ =~= lados_1d(info@));
    (a, b)
}

/// Rows of the bounds on the slacks of the inequality constraints,
/// `0 <= t_g,j <= max(0, g_j(x))`.
pub open spec fn linhas_1e<S: Escalar>(dados: DadosSubproblema<S>) -> Seq<Seq<S>> {
    linhas_de_limites::<S>(DIM as int, dados.mi(), 2 * dados.me())
}

/// Their right-hand sides: zero for the lower bounds, then the violations.
pub open spec fn lados_1e<S: Escalar>(dados: DadosSubproblema<S>) -> Seq<S> {
    Seq::new(
        (2 * dados.mi()) as nat,
        |k: int|
            if k < dados.mi() {
                zero_spec::<S>()
            } else {
                max_spec(dados.g[k - dados.mi()], zero_spec::<S>())
            },
    )
}

/// Builds the rows of the bounds on the slacks of the inequality constraints.
pub fn restricao_1e<S: Escalar>(info: &InformacoesProblema<S>) -> (r: (Vec<Vec<S>>, Vec<S>))
    requires
        info.bem_formada(),
    ensures
        matriz_spec(&r.0) == linhas_1e(info@),
        r.1@ == lados_1e(info@),
{
    let mut a: Vec<Vec<S>> = Vec::new();
    let mut b: Vec<S> = Vec::new();
    let mut j: usize = 0;
    while j < info.mi
        invariant
            j <= info.mi,
            info.bem_formada(),
            a.len() == j,
            b.len() == j,
            forall|k: int| 0 <= k < j ==> (#[trigger] a[k])@ =~= linhas_1e(info@)[k],
            forall|k: int| 0 <= k < j ==> #[trigger] b[k] == lados_1e(info@)[k],
        decreases info.mi - j,
    {
        a.push(
            gerar_linha_matriz(
                vetor_nulo(info.n).as_slice(),
                fn_aux_vetor_nulo_exceto(j, info.mi, menos_um::<S>()).as_slice(),
                vetor_nulo(info.me).as_slice(),
                vetor_nulo(info.me).as_slice(),
            ),
        );
        b.push(zero::<S>());
        j += 1;
    }
    let mut j: usize = 0;
    while j < info.mi
        invariant
            j <= info.mi,
            info.bem_formada(),
            a.len() == info.mi + j,
            b.len() == info.mi + j,
            forall|k: int| 0 <= k < info.mi + j ==> (#[trigger] a[k])@ =~= linhas_1e(info@)[k],
            forall|k: int| 0 <= k < info.mi + j ==> #[trigger] b[k] == lados_1e(info@)[k],
        decreases info.mi - j,
    {
        a.push(
            gerar_linha_matriz(
                vetor_nulo(info.n).as_slice(),
                fn_aux_vetor_nulo_exceto(j, info.mi, um::<S>()).as_slice(),
                vetor_nulo(info.me).as_slice(),
                vetor_nulo(info.me).as_slice(),
            ),
        );
        b.push(max(info.funcao_desigualdades_avaliadas[j], zero::<S>()));
        j += 1;
    }
    assert(matriz_spec(&a) =~= linhas_1e(info@));
    assert(b@ =~= lados_1e(info@));
    (a, b)
}

/// Right-hand sides of the bounds on a group of slacks of the equality constraints:
/// zero for the lower bounds, `|h_r(x)|` for the upper ones.
pub open spec fn lados_de_igualdades<S: Escalar>(dados: DadosSubproblema<S>) -> Seq<S> {
    Seq::new(
        (2 * dados.me()) as nat,
        |k: int|
            if k < dados.me() {
                zero_spec::<S>()
            } else {
                dados.h[k - dados.me()].modulo_spec()
            },
    )
}

/// Rows of the bounds on the first group of slacks of the equality constraints,
/// `0 <= t_h+,r <= |h_r(x)|`.
pub open spec fn linhas_1f<S: Escalar>(dados: DadosSubproblema<S>) -> Seq<Seq<S>> {
    linhas_de_limites::<S>(DIM + dados.mi(), dados.me(), dados.me())
}

/// Builds the rows of the bounds on the first group of slacks of the equality constraints.
pub fn restricao_1f<S: Escalar>(info: &InformacoesProblema<S>) -> (r: (Vec<Vec<S>>, Vec<S>))
    requires
        info.bem_formada(),
    ensures
        matriz_spec(&r.0) == linhas_1f(info@),
        r.1@ == lados_de_igualdades(info@),
{
    let mut a: Vec<Vec<S>> = Vec::new();
    let mut b: Vec<S> = Vec::new();
    let mut r: usize = 0;
    while r < info.me
        invariant
            r <= info.me,
            info.bem_formada(),
            a.len() == r,
            b.len() == r,
            forall|k: int| 0 <= k < r ==> (#[trigger] a[k])@ =~= linhas_1f(info@)[k],
            forall|k: int| 0 <= k < r ==> #[trigger] b[k] == lados_de_igualdades(info@)[k],
        decreases info.me - r,
    {
        a.push(
            gerar_linha_matriz(
                vetor_nulo(info.n).as_slice(),
                vetor_nulo(info.mi).as_slice(),
                fn_aux_vetor_nulo_exceto(r, info.me, menos_um::<S>()).as_slice(),
                vetor_nulo(info.me).as_slice(),
            ),
        );
        b.push(zero::<S>());
        r += 1;
    }
    let mut r: usize = 0;
    while r < info.me
        invariant
            r <= info.me,
            info.bem_formada(),
            a.len() == info.me + r,
            b.len() == info.me + r,
            forall|k: int| 0 <= k < info.me + r ==> (#[trigger] a[k])@ =~= linhas_1f(info@)[k],
            forall|k: int|
                0 <= k < info.me + r ==> #[trigger] b[k] == lados_de_igualdades(info@)[k],
        decreases info.me - r,
    {
        a.push(
            gerar_linha_matriz(
                vetor_nulo(info.n).as_slice(),
                vetor_nulo(info.mi).as_slice(),
                fn_aux_vetor_nulo_exceto(r, info.me, um::<S>()).as_slice(),
                vetor_nulo(info.me).as_slice(),
            ),
        );
        b.push(info.funcao_igualdades_avaliadas[r].modulo());
        r += 1;
    }
    assert(matriz_spec(&a) =~= linhas_1f(info@));
    assert(b@ =~= lados_de_igualdades(info@));
    (a, b)
}

/// Rows of the bounds on the second group of slacks of the equality constraints,
/// `0 <= t_h-,r <= |h_r(x)|`.
pub open spec fn linhas_1g<S: Escalar>(dados: DadosSubproblema<S>) -> Seq<Seq<S>> {
    linhas_de_limites::<S>(DIM + dados.mi() + dados.me(), dados.me(), 0)
}

/// Builds the rows of the bounds on the second group of slacks of the equality constraints.
pub fn restricao_1g<S: Escalar>(info: &InformacoesProblema<S>) -> (r: (Vec<Vec<S>>, Vec<S>))
    requires
        info.bem_formada(),
    ensures
        matriz_spec(&r.0) == linhas_1g(info@),
        r.1@ == lados_de_igualdades(info@),
{
    let mut a: Vec<Vec<S>> = Vec::new();
    let mut b: Vec<S> = Vec::new();
    let mut r: usize = 0;
    while r < info.me
        invariant
            r <= info.me,
            info.bem_formada(),
            a.len() == r,
            b.len() == r,
            forall|k: int| 0 <= k < r ==> (#[trigger] a[k])@ =~= linhas_1g(info@)[k],
            forall|k: int| 0 <= k < r ==> #[trigger] b[k] == lados_de_igualdades(info@)[k],
        decreases info.me - r,
    {
        a.push(
            gerar_linha_matriz(
                vetor_nulo(info.n).as_slice(),
                vetor_nulo(info.mi).as_slice(),
                vetor_nulo(info.me).as_slice(),
                fn_aux_vetor_nulo_exceto(r, info.me, menos_um::<S>()).as_slice(),
            ),
        );
        b.push(zero::<S>());
        r += 1;
    }
    let mut r: usize = 0;
    while r < info.me
        invariant
            r <= info.me,
            info.bem_formada(),
            a.len() == info.me + r,
            b.len() == info.me + r,
            forall|k: int| 0 <= k < info.me + r ==> (#[trigger] a[k])@ =~= linhas_1g(info@)[k],
            forall|k: int|
                0 <= k < info.me + r ==> #[trigger] b[k] == lados_de_igualdades(info@)[k],
        decreases info.me - r,
    {
        a.push(
            gerar_linha_matriz(
                vetor_nulo(info.n).as_slice(),
                vetor_nulo(info.mi).as_slice(),
                vetor_nulo(info.me).as_slice(),
                fn_aux_vetor_nulo_exceto(r, info.me, um::<S>()).as_slice(),
            ),
        );
        b.push(info.funcao_igualdades_avaliadas[r].modulo());
        r += 1;
    }
    assert(matriz_spec(&a) =~= linhas_1g(info@));
    assert(b@ =~= lados_de_igualdades(info@));
    (a, b)
}

/// All the rows of the subproblem, in the order of its blocks, before the change of sign.
pub open spec fn linhas_do_subproblema<S: Escalar>(dados: DadosSubproblema<S>) -> Seq<Seq<S>> {
    linhas_1a(dados) + linhas_1b(dados) + linhas_1c(dados) + linhas_1d(dados) + linhas_1e(dados)
        + linhas_1f(dados) + linhas_1g(dados)
}

/// The right-hand sides of those rows.
pub open spec fn lados_do_subproblema<S: Escalar>(dados: DadosSubproblema<S>) -> Seq<S> {
    lados_1a(dados) + lados_1b(dados) + lados_1c(dados) + lados_1d(dados) + lados_1e(dados)
        + lados_de_igualdades(dados) + lados_de_igualdades(dados)
}

/// The matrix `A`: every row is written as "at most" and then multiplied by minus one, to
/// read "at least".
pub open spec fn matriz_a_spec<S: Escalar>(dados: DadosSubproblema<S>) -> Seq<Seq<S>> {
    negada(linhas_do_subproblema(dados))
}

/// The vector `b`, with the same change of sign.
pub open spec fn vetor_b_spec<S: Escalar>(dados: DadosSubproblema<S>) -> Seq<S> {
    negado(lados_do_subproblema(dados))
}

/// The vector `c`: the gradient of the objective for the direction, and the penalty `c`
/// for every slack.
pub open spec fn vetor_c_spec<S: Escalar>(dados: DadosSubproblema<S>, c: S) -> Seq<S> {
    dados.grad_f + Seq::new((dados.mi() + 2 * dados.me()) as nat, |i: int| c)
}

/// The linear subproblem of `problema` at `x`: its matrix and its two vectors.
pub open spec fn subproblema_spec<S: Escalar, F: Funcao<S>>(
    problema: &Problema<S, F>,
    x: Ponto<S>,
    direcoes: Seq<Seq<S>>,
    hessiana: Seq<Seq<S>>,
    config: &Configuracao<S>,
) -> (Seq<Seq<S>>, Seq<S>, Seq<S>) {
    let dados = dados_do_subproblema(problema, x, direcoes, hessiana, config);
    (matriz_a_spec(dados), vetor_b_spec(dados), vetor_c_spec(dados, config.c))
}

/// Whether the sequences have the lengths that a problem gives them: a gradient for each
/// constraint, and `DIM` coordinates in every gradient and bound.
pub open spec fn dados_coerentes<S>(dados: DadosSubproblema<S>) -> bool {
    &&& dados.grad_f.len() == DIM
    &&& dados.dl.len() == DIM
    &&& dados.du.len() == DIM
    &&& dados.grads_g.len() == dados.g.len()
    &&& dados.grads_h.len() == dados.h.len()
    &&& forall|j: int| 0 <= j < dados.grads_g.len() ==> (#[trigger] dados.grads_g[j]).len() == DIM
    &&& forall|r: int| 0 <= r < dados.grads_h.len() ==> (#[trigger] dados.grads_h[r]).len() == DIM
}

/// Whether every row of `m` has `n` items.
pub open spec fn linhas_de<S>(m: Seq<Seq<S>>, n: int) -> bool {
    forall|i: int| 0 <= i < m.len() ==> (#[trigger] m[i]).len() == n
}

proof fn lema_linhas_de_juntas<S>(a: Seq<Seq<S>>, b: Seq<Seq<S>>, n: int)
    requires
        linhas_de(a, n),
        linhas_de(b, n),
    ensures
        linhas_de(a + b, n),
{
    assert forall|i: int| 0 <= i < (a + b).len() implies (#[trigger] (a + b)[i]).len() == n by {
        if i < a.len() {
            assert((a + b)[i] == a[i]);
        } else {
            assert((a + b)[i] == b[i - a.len()]);
        }
    }
}

/// The shape of the subproblem: a right-hand side for each row, the rows of its seven
/// blocks, and in every row, as in the vector of costs, one item for each variable.
pub proof fn lema_forma_do_subproblema<S: Escalar>(dados: DadosSubproblema<S>, c: S)
    requires
        dados_coerentes(dados),
    ensures
        matriz_a_spec(dados).len() == vetor_b_spec(dados).len(),
        matriz_a_spec(dados).len() == 3 * dados.mi() + 6 * dados.me() + 2 * dados.direcoes.len()
            + 2 * DIM,
        linhas_de(matriz_a_spec(dados), DIM + dados.mi() + 2 * dados.me()),
        vetor_c_spec(dados, c).len() == DIM + dados.mi() + 2 * dados.me(),
{
    let n = DIM + dados.mi() + 2 * dados.me();
    assert(linhas_de(linhas_1a(dados), n));
    assert(linhas_de(linhas_1b(dados), n));
    assert(linhas_de(linhas_1c(dados), n));
    assert(linhas_de(linhas_1d(dados), n));
    assert(linhas_de(linhas_1e(dados), n));
    assert(linhas_de(linhas_1f(dados), n));
    assert(linhas_de(linhas_1g(dados), n));
    let ab = linhas_1a(dados) + linhas_1b(dados);
    lema_linhas_de_juntas(linhas_1a(dados), linhas_1b(dados), n);
    let ac = ab + linhas_1c(dados);
    lema_linhas_de_juntas(ab, linhas_1c(dados), n);
    let ad = ac + linhas_1d(dados);
    lema_linhas_de_juntas(ac, linhas_1d(dados), n);
    let ae = ad + linhas_1e(dados);
    lema_linhas_de_juntas(ad, linhas_1e(dados), n);
    let af = ae + linhas_1f(dados);
    lema_linhas_de_juntas(ae, linhas_1f(dados), n);
    lema_linhas_de_juntas(af, linhas_1g(dados), n);
    assert(linhas_de(linhas_do_subproblema(dados), n));
}

/// Appends the rows and right-hand sides of a block.
fn juntar<S: Escalar>(a: &mut Vec<Vec<S>>, b: &mut Vec<S>, bloco: (Vec<Vec<S>>, Vec<S>))
    ensures
        matriz_spec(final(a)) == matriz_spec(old(a)) + matriz_spec(&bloco.0),
        final(b)@ == old(b)@ + bloco.1@,
{
    let (mut ba, mut bb) = bloco;
    a.append(&mut ba);
    b.append(&mut bb);
    assert(matriz_spec(a) =~= matriz_spec(old(a)) + matriz_spec(&bloco.0));
}

/// Builds the matrix and the vectors of the linear subproblem of `problema` at `x`:
/// minimise `c . v` subject to `A v >= b`. `lista_direcoes` holds the directions found so
/// far in this iteration and `hessiana_atual` the current approximation of the Hessian.
pub fn matriz_e_vetores_problema_linear<S: Escalar, F: Funcao<S>>(
    problema: &Problema<S, F>,
    x: Ponto<S>,
    lista_direcoes: &Vec<Ponto<S>>,
    hessiana_atual: &Vec<Vec<S>>,
    config: &Configuracao<S>,
) -> (r: (Vec<Vec<S>>, Vec<S>, Vec<S>))
    requires
        dimensoes_cabem(problema),
        lista_direcoes.len() > 0 ==> cobre_o_espaco(matriz_spec(hessiana_atual)),
    ensures
        (matriz_spec(&r.0), r.1@, r.2@) == subproblema_spec(
            problema,
            x,
            pontos_spec(lista_direcoes),
            matriz_spec(hessiana_atual),
            config,
        ),
        r.0.len() == r.1.len(),
        r.0.len() > 0,
        r.2.len() == DIM + problema.restricoes_desigualdades.len() + 2
            * problema.restricoes_igualdades.len(),
        linhas_de(matriz_spec(&r.0), r.2.len() as int),
{
    let info = InformacoesProblema::novo(problema, x, lista_direcoes, hessiana_atual, config);
    let ghost dados = info@;
    let mut c: Vec<S> = Vec::new();
    let mut i: usize = 0;
    while i < info.n
        invariant
            i <= info.n,
            info.n == DIM,
            c.len() == i,
            forall|k: int| 0 <= k < i ==> #[trigger] c[k] == info.grad_funcao_objetivo[k],
        decreases info.n - i,
    {
        c.push(info.grad_funcao_objetivo[i]);
        i += 1;
    }
    let folgas = info.mi + info.me + info.me;
    let mut t: usize = 0;
    while t < folgas
        invariant
            t <= folgas,
            info.n == DIM,
            c.len() == info.n + t,
            forall|k: int| 0 <= k < info.n ==> #[trigger] c[k] == info.grad_funcao_objetivo[k],
            forall|k: int| info.n <= k < info.n + t ==> #[trigger] c[k] == config.c,
        decreases folgas - t,
    {
        c.push(config.c);
        t += 1;
    }
    assert(c@ =~= vetor_c_spec(dados, config.c));
    let mut a: Vec<Vec<S>> = Vec::new();
    let mut b: Vec<S> = Vec::new();
    assert(matriz_spec(&a) =~= Seq::<Seq<S>>::empty());
    juntar(&mut a, &mut b, restricao_1a(&info));
    juntar(&mut a, &mut b, restricao_1b(&info));
    juntar(&mut a, &mut b, restricao_1c(&info));
    juntar(&mut a, &mut b, restricao_1d(&info));
    juntar(&mut a, &mut b, restricao_1e(&info));
    juntar(&mut a, &mut b, restricao_1f(&info));
    juntar(&mut a, &mut b, restricao_1g(&info));
    assert(matriz_spec(&a) =~= linhas_do_subproblema(dados));
    assert(b@ =~= lados_do_subproblema(dados));
    let b_negado = negar(b.as_slice());
    let mut a_negada: Vec<Vec<S>> = Vec::new();
    let mut l: usize = 0;
    while l < a.len()
        invariant
            l <= a.len(),
            a_negada.len() == l,
            forall|k: int| 0 <= k < l ==> (#[trigger] a_negada[k])@ == negado(a[k]@),
        decreases a.len() - l,
    {
        a_negada.push(negar(a[l].as_slice()));
        l += 1;
    }
    assert(matriz_spec(&a_negada) =~= negada(matriz_spec(&a)));
    proof {
        lema_forma_do_subproblema(dados, config.c);
    }
    (a_negada, b_negado, c)
}

} // verus!
