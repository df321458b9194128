//! The linear subproblem and its dual as linear programs for an outside engine, and the
//! reading of what the engine answers.

use crate::defs::{Erro, FalhaLinear, Funcao, Problema, DIM};
use crate::escalar::Escalar;
use crate::utils::{coluna_spec, matriz_spec, transpor_matriz, transposta_spec};
use vstd::prelude::*;

verus! {

/// Whether the objective is minimised or maximised.
#[derive(Clone, Copy, Debug, PartialEq, Eq, Structural)]
pub enum Direcao {
    Minimizar,
    Maximizar,
}

/// The values that every variable may take.
#[derive(Clone, Copy, Debug, PartialEq, Eq, Structural)]
pub enum Dominio {
    /// Any value.
    Livre,
    /// Zero or more.
    NaoNegativo,
}

/// How the left-hand side of every constraint relates to its right-hand side.
#[derive(Clone, Copy, Debug, PartialEq, Eq, Structural)]
pub enum Relacao {
    MaiorOuIgual,
    Igual,
}

/// A linear program: optimise `custos . v` over the variables `v` of the given domain,
/// subject to `linhas[i] . v` standing in the given relation to `lados[i]` for every `i`.
pub struct ProblemaLinear<S> {
    pub direcao: Direcao,
    pub dominio: Dominio,
    pub custos: Vec<S>,
    pub relacao: Relacao,
    pub linhas: Vec<Vec<S>>,
    pub lados: Vec<S>,
}

impl<S> ProblemaLinear<S> {
    /// Every constraint has one coefficient for each variable and one right-hand side.
    pub open spec fn bem_formado(&self) -> bool {
        &&& self.linhas.len() == self.lados.len()
        &&& forall|i: int|
            0 <= i < self.linhas.len() ==> (#[trigger] self.linhas[i]).len() == self.custos.len()
    }
}

/// What an engine answers: the optimal value and the value of every variable, or why
/// there is none.
pub type RespostaLinear<S> = Result<(S, Vec<S>), FalhaLinear>;

/// Number of variables of the linear subproblem of a problem.
pub open spec fn variaveis_do_primal<S: Escalar, F: Funcao<S>>(problema: &Problema<S, F>) -> int {
    DIM + problema.restricoes_desigualdades.len() + 2 * problema.restricoes_igualdades.len()
}

/// Whether `a`, `b` and `c` can be read as the subproblem of `problema`: a cost for each
/// variable, and a row with a coefficient for each variable for each right-hand side.
pub open spec fn forma_do_primal<S: Escalar, F: Funcao<S>>(
    problema: &Problema<S, F>,
    a: Seq<Seq<S>>,
    b: Seq<S>,
    c: Seq<S>,
) -> bool {
    &&& variaveis_do_primal(problema) <= c.len()
    &&& b.len() <= a.len()
    &&& forall|i: int| 0 <= i < b.len() ==> (#[trigger] a[i]).len() >= variaveis_do_primal(problema)
}

/// The rows of the linear program of the subproblem: one for each right-hand side, cut to
/// the number of variables.
pub open spec fn linhas_do_primal<S>(a: Seq<Seq<S>>, linhas: int, variaveis: int) -> Seq<Seq<S>> {
    Seq::new(linhas as nat, |i: int| a[i].take(variaveis))
}

/// The linear subproblem as a linear program: minimise `c . v` subject to `A v >= b`, every
/// variable free.
pub fn montar_problema_primal<S: Escalar, F: Funcao<S>>(
    problema: &Problema<S, F>,
    a: &Vec<Vec<S>>,
    b: &Vec<S>,
    c: &Vec<S>,
) -> (r: ProblemaLinear<S>)
    requires
        forma_do_primal(problema, matriz_spec(a), b@, c@),
    ensures
        r.bem_formado(),
        r.direcao == Direcao::Minimizar,
        r.dominio == Dominio::Livre,
        r.relacao == Relacao::MaiorOuIgual,
        r.custos@ == c@.take(variaveis_do_primal(problema)),
        matriz_spec(&r.linhas) == linhas_do_primal(
            matriz_spec(a),
            b.len() as int,
            variaveis_do_primal(problema),
        ),
        r.lados@ == b@,
{
    let mi = problema.restricoes_desigualdades.len();
    let me = problema.restricoes_igualdades.len();
    assert(DIM + mi + 2 * me <= c.len() <= usize::MAX);
    let variaveis = DIM + mi + me + me;
    let custos = copiar_inicio(c, variaveis);
    let mut linhas: Vec<Vec<S>> = Vec::new();
    let mut lados: Vec<S> = Vec::new();
    let mut idx_linha: usize = 0;
    while idx_linha < b.len()
        invariant
            idx_linha <= b.len(),
            variaveis == variaveis_do_primal(problema),
            forma_do_primal(problema, matriz_spec(a), b@, c@),
            linhas.len() == idx_linha,
            lados.len() == idx_linha,
            forall|i: int|
                0 <= i < idx_linha ==> (#[trigger] linhas[i])@ == a[i]@.take(variaveis as int)
                    && linhas[i].len() == variaveis,
            forall|i: int| 0 <= i < idx_linha ==> #[trigger] lados[i] == b[i],
        decreases b.len() - idx_linha,
    {
        assert(matriz_spec(a)[idx_linha as int].len() >= variaveis);
        linhas.push(copiar_inicio(&a[idx_linha], variaveis));
        lados.push(b[idx_linha]);
        idx_linha += 1;
    }
    assert(matriz_spec(&linhas) =~= linhas_do_primal(
        matriz_spec(a),
        b.len() as int,
        variaveis as int,
    ));
    assert(lados@ =~= b@);
    ProblemaLinear {
        direcao: Direcao::Minimizar,
        dominio: Dominio::Livre,
        custos,
        relacao: Relacao::MaiorOuIgual,
        linhas,
        lados,
    }
}

/// The first `n` items of `v`.
fn copiar_inicio<S: Copy>(v: &Vec<S>, n: usize) -> (r: Vec<S>)
    requires
        n <= v.len(),
    ensures
        r@ == v@.take(n as int),
{
    let mut r: Vec<S> = Vec::new();
    let mut i: usize = 0;
    while i < n
        invariant
            i <= n,
            n <= v.len(),
            r@ == v@.take(i as int),
        decreases n - i,
    {
        r.push(v[i]);
        i += 1;
        assert(r@ =~= v@.take(i as int));
    }
    r
}

/// Whether `a`, `b` and `c` can be read as a program with a dual: `a` has a row, none
/// longer than the first, and each of its first `c.len()` columns has an item for each
/// right-hand side.
pub open spec fn forma_do_dual<S>(a: Seq<Seq<S>>, b: Seq<S>, c: Seq<S>) -> bool {
    &&& a.len() > 0
    &&& forall|k: int| 0 <= k < a.len() ==> (#[trigger] a[k]).len() <= a[0].len()
    &&& c.len() <= a[0].len()
    &&& forall|i: int|
        0 <= i < c.len() ==> (#[trigger] coluna_spec(a, i, a.len() as int)).len() >= b.len()
}

/// The rows of the dual: the first `linhas` rows of the transpose of `a`, cut to the
/// number of dual variables.
pub open spec fn linhas_do_dual<S>(a: Seq<Seq<S>>, linhas: int, variaveis: int) -> Seq<Seq<S>> {
    Seq::new(linhas as nat, |i: int| transposta_spec(a)[i].take(variaveis))
}

/// The dual of the linear subproblem as a linear program: maximise `b . y` subject to
/// `A^T y = c`, every variable zero or more.
pub fn montar_problema_dual<S: Escalar>(
    a: &Vec<Vec<S>>,
    b: &Vec<S>,
    c: &Vec<S>,
) -> (r: ProblemaLinear<S>)
    requires
        forma_do_dual(matriz_spec(a), b@, c@),
    ensures
        r.bem_formado(),
        r.direcao == Direcao::Maximizar,
        r.dominio == Dominio::NaoNegativo,
        r.relacao == Relacao::Igual,
        r.custos@ == b@,
        matriz_spec(&r.linhas) == linhas_do_dual(matriz_spec(a), c.len() as int, b.len() as int),
        r.lados@ == c@,
{
    assert(forall|k: int| 0 <= k < a.len() ==> (#[trigger] a[k]).len() == matriz_spec(a)[k].len());
    let at = transpor_matriz(a);
    assert(at.len() == matriz_spec(&at).len());
    let custos = copiar_inicio(b, b.len());
    let mut linhas: Vec<Vec<S>> = Vec::new();
    let mut lados: Vec<S> = Vec::new();
    let mut idx: usize = 0;
    while idx < c.len()
        invariant
            idx <= c.len(),
            forma_do_dual(matriz_spec(a), b@, c@),
            matriz_spec(&at) == transposta_spec(matriz_spec(a)),
            at.len() == matriz_spec(a)[0].len(),
            linhas.len() == idx,
            lados.len() == idx,
            forall|i: int|
                0 <= i < idx ==> (#[trigger] linhas[i])@ == transposta_spec(matriz_spec(a))[i].take(
                    b.len() as int,
                ),
            forall|i: int| 0 <= i < idx ==> #[trigger] lados[i] == c[i],
        decreases c.len() - idx,
    {
        assert(matriz_spec(&at)[idx as int] == at[idx as int]@);
        assert(coluna_spec(matriz_spec(a), idx as int, a.len() as int).len() >= b.len());
        linhas.push(copiar_inicio(&at[idx], b.len()));
        lados.push(c[idx]);
        idx += 1;
    }
    assert(matriz_spec(&linhas) =~= linhas_do_dual(matriz_spec(a), c.len() as int, b.len() as int));
    assert(lados@ =~= c@);
    assert(custos@ =~= b@);
    ProblemaLinear {
        direcao: Direcao::Maximizar,
        dominio: Dominio::NaoNegativo,
        custos,
        relacao: Relacao::Igual,
        linhas,
        lados,
    }
}

/// The solution of the linear subproblem: its value, the direction and the three groups of slacks.
pub struct SolucaoPrimal<S> {
    pub objetivo: S,
    pub d: Vec<S>,
    pub tg: Vec<S>,
    pub thp: Vec<S>,
    pub thm: Vec<S>,
}

/// What the answer of an engine to the linear subproblem is read as: the failure, if the
/// engine found no solution; a dimension error, unless there is one value for each
/// variable; else the value of the program and the values of its variables.
pub open spec fn primal_lido<S: Escalar, F: Funcao<S>>(
    problema: &Problema<S, F>,
    resposta: RespostaLinear<S>,
) -> Result<(S, Seq<S>), Erro> {
    match resposta {
        Err(falha) => Err(Erro::PrimalSemSolucao(falha)),
        Ok((objetivo, valores)) => if valores.len() != variaveis_do_primal(problema) {
            Err(Erro::DimensaoIncompativel)
        } else {
            Ok((objetivo, valores@))
        },
    }
}

/// The direction among the values of the variables of the subproblem.
pub open spec fn direcao_lida<S>(valores: Seq<S>) -> Seq<S> {
    valores.subrange(0, DIM as int)
}

/// The slacks of the `mi` inequality constraints among the values of the variables.
pub open spec fn folgas_tg<S>(valores: Seq<S>, mi: int) -> Seq<S> {
    valores.subrange(DIM as int, DIM + mi)
}

/// The first group of slacks of the `me` equality constraints among the values of the variables.
pub open spec fn folgas_thp<S>(valores: Seq<S>, mi: int, me: int) -> Seq<S> {
    valores.subrange(DIM + mi, DIM + mi + me)
}

/// The second group of slacks of the `me` equality constraints among the values of the variables.
pub open spec fn folgas_thm<S>(valores: Seq<S>, mi: int, me: int) -> Seq<S> {
    valores.subrange(DIM + mi + me, DIM + mi + 2 * me)
}

/// Whether `r` is the reading `lido` of the answer to the subproblem of a problem with
/// `mi` inequality and `me` equality constraints.
pub open spec fn solucao_lida<S>(
    lido: Result<(S, Seq<S>), Erro>,
    mi: int,
    me: int,
    r: Result<SolucaoPrimal<S>, Erro>,
) -> bool {
    match lido {
        Err(e) => r == Err::<SolucaoPrimal<S>, Erro>(e),
        Ok((objetivo, valores)) => {
            &&& r matches Ok(s)
            &&& s.objetivo == objetivo
            &&& s.d@ == direcao_lida(valores)
            &&& s.tg@ == folgas_tg(valores, mi)
            &&& s.thp@ == folgas_thp(valores, mi, me)
            &&& s.thm@ == folgas_thm(valores, mi, me)
        },
    }
}

/// The items of `v` from `inicio` up to `fim`.
fn copiar_trecho<S: Copy>(v: &Vec<S>, inicio: usize, fim: usize) -> (r: Vec<S>)
    requires
        inicio <= fim <= v.len(),
    ensures
        r@ == v@.subrange(inicio as int, fim as int),
{
    let mut r: Vec<S> = Vec::new();
    let mut i: usize = inicio;
    while i < fim
        invariant
            inicio <= i <= fim,
            fim <= v.len(),
            r@ == v@.subrange(inicio as int, i as int),
        decreases fim - i,
    {
        r.push(v[i]);
        i += 1;
        assert(r@ =~= v@.subrange(inicio as int, i as int));
    }
    r
}

/// Reads the answer of the engine to the linear subproblem of `problema`.
pub fn resolver_problema_linear_matriz<S: Escalar, F: Funcao<S>>(
    problema: &Problema<S, F>,
    resposta: RespostaLinear<S>,
) -> (r: Result<SolucaoPrimal<S>, Erro>)
    ensures
        solucao_lida(
            primal_lido(problema, resposta),
            problema.restricoes_desigualdades.len() as int,
            problema.restricoes_igualdades.len() as int,
            r,
        ),
{
    match resposta {
        Err(falha) => Err(Erro::PrimalSemSolucao(falha)),
        Ok((objetivo, valores)) => {
            let mi = problema.restricoes_desigualdades.len();
            let me = problema.restricoes_igualdades.len();
            let n = valores.len();
            if n < DIM || n - DIM < mi || (n - DIM - mi) / 2 != me || (n - DIM - mi) % 2 != 0 {
                return Err(Erro::DimensaoIncompativel);
            }
            let d = copiar_trecho(&valores, 0, DIM);
            let tg = copiar_trecho(&valores, DIM, DIM + mi);
            let thp = copiar_trecho(&valores, DIM + mi, DIM + mi + me);
            let thm = copiar_trecho(&valores, DIM + mi + me, n);
            Ok(SolucaoPrimal { objetivo, d, tg, thp, thm })
        },
    }
}

/// What the answer of an engine to the dual is read as: the failure, if the engine found
/// no solution; a dimension error, if there are fewer values than multipliers to estimate;
/// else the value of the program and the values of its variables.
pub open spec fn dual_lido<S: Escalar, F: Funcao<S>>(
    problema: &Problema<S, F>,
    resposta: RespostaLinear<S>,
) -> Result<(S, Seq<S>), Erro> {
    match resposta {
        Err(falha) => Err(Erro::DualSemSolucao(falha)),
        Ok((objetivo, valores)) => if valores.len() < problema.restricoes_desigualdades.len() + 2
            * problema.restricoes_igualdades.len() {
            Err(Erro::DimensaoIncompativel)
        } else {
            Ok((objetivo, valores@))
        },
    }
}

/// Whether `r` is the reading `lido` of the answer to the dual.
pub open spec fn dual_lida<S>(
    lido: Result<(S, Seq<S>), Erro>,
    r: Result<(S, Vec<S>), Erro>,
) -> bool {
    match lido {
        Err(e) => r == Err::<(S, Vec<S>), Erro>(e),
        Ok((objetivo, valores)) => {
            &&& r matches Ok(q)
            &&& q.0 == objetivo
            &&& q.1@ == valores
        },
    }
}

/// Reads the answer of the engine to the dual of the linear subproblem of `problema`.
pub fn resolver_problema_dual_matriz<S: Escalar, F: Funcao<S>>(
    problema: &Problema<S, F>,
    resposta: RespostaLinear<S>,
) -> (r: Result<(S, Vec<S>), Erro>)
    ensures
        dual_lida(dual_lido(problema, resposta), r),
{
    match resposta {
        Err(falha) => Err(Erro::DualSemSolucao(falha)),
        Ok((objetivo, valores)) => {
            let mi = problema.restricoes_desigualdades.len();
            let me = problema.restricoes_igualdades.len();
            let n = valores.len();
            if n < mi || (n - mi) / 2 < me {
                return Err(Erro::DimensaoIncompativel);
            }
            Ok((objetivo, valores))
        },
    }
}

} // verus!
