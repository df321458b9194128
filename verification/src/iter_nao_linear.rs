//! The outer iteration: one step for each inner iteration carried out.

use crate::defs::{multiplicadores_casam, Configuracao, Funcao, Ponto, Problema, DIM};
use crate::escalar::{menor_ou_igual_spec, um, um_spec, zero, zero_spec, Escalar};
use crate::funcao_merito::{verificacao_funcao_merito, verificacao_spec};
use crate::iter_linear::{EstadoLinear, ResultadoLinear};
use crate::ponto_estacionario::{checar_ponto_estacionario, ponto_estacionario};
use crate::regiao_de_confianca::{
    delta_max_spec, lei_regiao_ordenada, limite_atualizado, verificar_regiao_de_confianca,
};
use crate::utils::{_iguais, e_quadrada, iguais_spec, matriz_spec, quadrada, simetrica};
use vstd::prelude::*;

verus! {

/// The most outer iterations that are started.
pub const LIMITE_DE_ITERACOES: usize = 100;

/// Where the outer iteration stands before an inner iteration is run.
pub struct EstadoNaoLinear<S: Escalar> {
    /// The current point.
    pub x: Ponto<S>,
    /// The approximation of the Hessian that the next inner iteration starts from.
    pub hessiana: Vec<Vec<S>>,
    /// The points accepted so far, in order.
    pub passos_tomados: Vec<Vec<S>>,
    /// Number of the outer iteration, from one.
    pub k: usize,
}

impl<S: Escalar> EstadoNaoLinear<S> {
    /// The approximation of the Hessian is square, the count is below the limit and there
    /// is one accepted point, with all its coordinates, for each iteration carried out.
    pub open spec fn valido(&self) -> bool {
        &&& quadrada(matriz_spec(&self.hessiana))
        &&& 1 <= self.k < LIMITE_DE_ITERACOES
        &&& self.passos_tomados.len() == self.k - 1
        &&& forall|i: int|
            0 <= i < self.passos_tomados.len() ==> (#[trigger] self.passos_tomados[i]).len() == DIM
    }

    /// Tests whether the state is valid.
    pub fn e_valido(&self) -> (r: bool)
        ensures
            r == self.valido(),
    {
        if !(e_quadrada(&self.hessiana) && 1 <= self.k && self.k < LIMITE_DE_ITERACOES
            && self.passos_tomados.len() == self.k - 1) {
            return false;
        }
        let mut i: usize = 0;
        while i < self.passos_tomados.len()
            invariant
                i <= self.passos_tomados.len(),
                forall|j: int| 0 <= j < i ==> (#[trigger] self.passos_tomados[j]).len() == DIM,
            decreases self.passos_tomados.len() - i,
        {
            if self.passos_tomados[i].len() != DIM {
                return false;
            }
            i += 1;
        }
        true
    }

    /// The state at the start of the outer iteration from `x`: the first iteration, no
    /// point accepted yet, the identity as the approximation of the Hessian.
    pub fn novo(x: Ponto<S>) -> (r: Self)
        ensures
            r.valido(),
            r.x == x,
            matriz_spec(&r.hessiana) == identidade_spec::<S>(),
            r.passos_tomados@ == Seq::<Vec<S>>::empty(),
            r.k == 1,
    {
        EstadoNaoLinear { x, hessiana: identidade(), passos_tomados: Vec::new(), k: 1 }
    }

    /// The state from which the inner iteration of this outer iteration starts.
    pub fn iniciar_iteracoes_lineares(&self) -> (r: EstadoLinear<S>)
        requires
            self.valido(),
        ensures
            r.valido(),
            r.ponto_atual == self.x,
            matriz_spec(&r.hessiana_atual) == matriz_spec(&self.hessiana),
            r.direcoes@ == Seq::<Ponto<S>>::empty(),
            r.i == 1,
    {
        EstadoLinear::novo(self.x, copiar_matriz(&self.hessiana))
    }
}

/// The identity matrix of order `DIM`.
pub open spec fn identidade_spec<S: Escalar>() -> Seq<Seq<S>> {
    Seq::new(
        DIM as nat,
        |i: int|
            Seq::new(
                DIM as nat,
                |j: int|
                    if i == j {
                        um_spec::<S>()
                    } else {
                        zero_spec::<S>()
                    },
            ),
    )
}

/// The identity matrix of order `DIM`.
pub fn identidade<S: Escalar>() -> (r: Vec<Vec<S>>)
    ensures
        matriz_spec(&r) == identidade_spec::<S>(),
        quadrada(matriz_spec(&r)),
{
    let mut r: Vec<Vec<S>> = Vec::new();
    let mut i: usize = 0;
    while i < DIM
        invariant
            i <= DIM,
            r.len() == i,
            forall|k: int| 0 <= k < i ==> (#[trigger] r[k])@ == identidade_spec::<S>()[k],
        decreases DIM - i,
    {
        let mut linha: Vec<S> = Vec::new();
        let mut j: usize = 0;
        while j < DIM
            invariant
                i < DIM,
                j <= DIM,
                linha.len() == j,
                forall|c: int|
                    0 <= c < j ==> #[trigger] linha[c] == if i == c {
                        um_spec::<S>()
                    } else {
                        zero_spec::<S>()
                    },
            decreases DIM - j,
        {
            if i == j {
                linha.push(um::<S>());
            } else {
                linha.push(zero::<S>());
            }
            j += 1;
        }
        assert(linha@ =~= identidade_spec::<S>()[i as int]);
        r.push(linha);
        i += 1;
    }
    assert(matriz_spec(&r) =~= identidade_spec::<S>());
    r
}

/// The identity is symmetric.
pub proof fn lema_identidade_simetrica<S: Escalar>()
    ensures
        quadrada(identidade_spec::<S>()),
        simetrica(identidade_spec::<S>()),
{
}

/// A copy of the matrix.
fn copiar_matriz<S: Copy>(m: &Vec<Vec<S>>) -> (r: Vec<Vec<S>>)
    ensures
        matriz_spec(&r) == matriz_spec(m),
{
    let mut r: Vec<Vec<S>> = Vec::new();
    let mut i: usize = 0;
    while i < m.len()
        invariant
            i <= m.len(),
            r.len() == i,
            forall|k: int| 0 <= k < i ==> (#[trigger] r[k])@ == m[k]@,
        decreases m.len() - i,
    {
        let mut linha: Vec<S> = Vec::new();
        let mut j: usize = 0;
        while j < m[i].len()
            invariant
                i < m.len(),
                j <= m[i as int].len(),
                linha@ == m[i as int]@.take(j as int),
            decreases m[i as int].len() - j,
        {
            linha.push(m[i][j]);
            j += 1;
            assert(linha@ =~= m[i as int]@.take(j as int));
        }
        assert(linha@ =~= m[i as int]@);
        r.push(linha);
        i += 1;
    }
    assert(matriz_spec(&r) =~= matriz_spec(m));
    r
}

/// The coordinates of a point, as a vector.
fn vetor_de_ponto<S: Copy>(p: &Ponto<S>) -> (r: Vec<S>)
    ensures
        r@ == p@,
{
    let mut r: Vec<S> = Vec::new();
    let mut i: usize = 0;
    while i < DIM
        invariant
            i <= DIM,
            r@ == p@.take(i as int),
        decreases DIM - i,
    {
        r.push(p[i]);
        i += 1;
        assert(r@ =~= p@.take(i as int));
    }
    assert(r@ =~= p@);
    r
}

/// Why the outer iteration stopped at a point.
#[derive(Clone, Copy, Debug, PartialEq, Eq, Structural)]
pub enum Parada {
    /// The inner iteration found a stationary point.
    SubiteracaoLinear,
    /// The point accepted by the outer iteration is stationary.
    IteracaoNaoLinear,
    /// The point did not move over the last iterations: it is returned as the best found.
    PassosRepetidos,
}

/// What a step of the outer iteration decides.
pub enum PassoNaoLinear<S: Escalar> {
    /// Another inner iteration is to be run, from this state.
    Continuar(EstadoNaoLinear<S>),
    /// The iteration stopped at this point.
    Otimo(Ponto<S>, Parada),
    /// The limit of iterations was reached.
    NaoEncontrado,
}

/// Whether the point `x` and the two points accepted last coincide.
pub open spec fn passos_repetidos<S: Escalar>(x: Ponto<S>, passos: Seq<Vec<S>>, k: int) -> bool {
    &&& k > 2
    &&& iguais_spec(x@, passos[k - 2]@, DIM as int)
    &&& iguais_spec(x@, passos[k - 3]@, DIM as int)
}

/// What a step of the outer iteration returns and how it leaves the problem.
pub open spec fn iteracao_nao_linear_spec<S: Escalar, F: Funcao<S>>(
    antes: &Problema<S, F>,
    depois: &Problema<S, F>,
    estado: EstadoNaoLinear<S>,
    resultado: ResultadoLinear<S>,
    config: &Configuracao<S>,
    r: PassoNaoLinear<S>,
) -> bool {
    let x_novo = verificacao_spec(
        antes,
        resultado.ponto,
        estado.x,
        resultado.alpha,
        resultado.direcao,
        &resultado.multiplicadores,
        config,
    );
    let delta_max = delta_max_spec(antes.d_l@, antes.d_u@, x_novo@, estado.x@);
    &&& depois.funcao_objetivo == antes.funcao_objetivo
    &&& depois.restricoes_desigualdades == antes.restricoes_desigualdades
    &&& depois.restricoes_igualdades == antes.restricoes_igualdades
    &&& if resultado.estacionario {
        &&& r matches PassoNaoLinear::Otimo(p, motivo)
        &&& p == resultado.ponto
        &&& motivo == Parada::SubiteracaoLinear
        &&& depois.d_l == antes.d_l
        &&& depois.d_u == antes.d_u
    } else {
        &&& depois.d_l@ == limite_atualizado(antes.d_l@, delta_max, config)
        &&& depois.d_u@ == limite_atualizado(antes.d_u@, delta_max, config)
        &&& if ponto_estacionario(depois, x_novo, &resultado.multiplicadores, config) {
            &&& r matches PassoNaoLinear::Otimo(p, motivo)
            &&& p == x_novo
            &&& motivo == Parada::IteracaoNaoLinear
        } else if passos_repetidos(x_novo, estado.passos_tomados@, estado.k as int) {
            &&& r matches PassoNaoLinear::Otimo(p, motivo)
            &&& p == x_novo
            &&& motivo == Parada::PassosRepetidos
        } else if estado.k + 1 >= LIMITE_DE_ITERACOES {
            r is NaoEncontrado
        } else {
            &&& r matches PassoNaoLinear::Continuar(e)
            &&& e.valido()
            &&& e.x == x_novo
            &&& matriz_spec(&e.hessiana) == matriz_spec(&resultado.hessiana)
            &&& e.passos_tomados@.len() == estado.passos_tomados@.len() + 1
            &&& e.passos_tomados@.drop_last() == estado.passos_tomados@
            &&& e.passos_tomados@.last()@ == x_novo@
            &&& e.k == estado.k + 1
        }
    }
}

/// A step keeps the bounds of the trust region ordered, whenever they are ordered before
/// it, the shrink threshold is positive and the largest ratio of the move is not negative.
pub proof fn lei_iteracao_ordenada<S: Escalar, F: Funcao<S>>(
    antes: &Problema<S, F>,
    depois: &Problema<S, F>,
    estado: EstadoNaoLinear<S>,
    resultado: ResultadoLinear<S>,
    config: &Configuracao<S>,
    r: PassoNaoLinear<S>,
)
    requires
        antes.regiao_ordenada(),
        config.regiao_valida(),
        iteracao_nao_linear_spec(antes, depois, estado, resultado, config, r),
        menor_ou_igual_spec(
            zero_spec::<S>(),
            delta_max_spec(
                antes.d_l@,
                antes.d_u@,
                verificacao_spec(
                    antes,
                    resultado.ponto,
                    estado.x,
                    resultado.alpha,
                    resultado.direcao,
                    &resultado.multiplicadores,
                    config,
                )@,
                estado.x@,
            ),
        ),
    ensures
        depois.regiao_ordenada(),
{
    if !resultado.estacionario {
        let x_novo = verificacao_spec(
            antes,
            resultado.ponto,
            estado.x,
            resultado.alpha,
            resultado.direcao,
            &resultado.multiplicadores,
            config,
        );
        lei_regiao_ordenada(antes.d_l@, antes.d_u@, x_novo@, estado.x@, config);
        let delta_max = delta_max_spec(antes.d_l@, antes.d_u@, x_novo@, estado.x@);
        assert forall|l: int| 0 <= l < DIM implies menor_ou_igual_spec(
            #[trigger] depois.d_l[l],
            depois.d_u[l],
        ) by {
            assert(depois.d_l[l] == limite_atualizado(antes.d_l@, delta_max, config)[l]);
            assert(depois.d_u[l] == limite_atualizado(antes.d_u@, delta_max, config)[l]);
        }
    }
}

/// One step of the outer iteration, from the state in which the inner iteration was
/// started and what that iteration returned.
///
/// If the inner iteration found a stationary point, that point is the answer. Else the
/// merit function accepts or replaces the point found, the trust region of the problem is
/// updated from the move, and the new point is the answer if it is stationary or if it
/// coincides with the two points accepted before it. Else the point is accepted and the
/// iteration goes on, unless its limit is reached.
pub fn iteracao_nao_linear<S: Escalar, F: Funcao<S>>(
    problema: &mut Problema<S, F>,
    estado: EstadoNaoLinear<S>,
    resultado: ResultadoLinear<S>,
    config: &Configuracao<S>,
) -> (r: PassoNaoLinear<S>)
    requires
        estado.valido(),
        quadrada(matriz_spec(&resultado.hessiana)),
        multiplicadores_casam(old(problema), &resultado.multiplicadores),
    ensures
        iteracao_nao_linear_spec(old(problema), final(problema), estado, resultado, config, r),
{
    if resultado.estacionario {
        return PassoNaoLinear::Otimo(resultado.ponto, Parada::SubiteracaoLinear);
    }
    let x = estado.x;
    let x_novo = verificacao_funcao_merito(
        problema,
        resultado.ponto,
        x,
        resultado.alpha,
        resultado.direcao,
        &resultado.multiplicadores,
        config,
    );
    let (d_l, d_u) = verificar_regiao_de_confianca(problema, &x_novo, &x, config);
    problema.atualizar_regiao_de_confianca(d_l, d_u);
    if checar_ponto_estacionario(problema, &x_novo, &resultado.multiplicadores, config) {
        return PassoNaoLinear::Otimo(x_novo, Parada::IteracaoNaoLinear);
    }
    let k = estado.k;
    let mut passos_tomados = estado.passos_tomados;
    if k > 2 {
        let x_teste = vetor_de_ponto(&x_novo);
        if _iguais(&x_teste, &passos_tomados[k - 2], DIM) && _iguais(
            &x_teste,
            &passos_tomados[k - 3],
            DIM,
        ) {
            return PassoNaoLinear::Otimo(x_novo, Parada::PassosRepetidos);
        }
    }
    if k + 1 >= LIMITE_DE_ITERACOES {
        return PassoNaoLinear::NaoEncontrado;
    }
    passos_tomados.push(vetor_de_ponto(&x_novo));
    let e = EstadoNaoLinear { x: x_novo, hessiana: resultado.hessiana, passos_tomados, k: k + 1 };
    assert(e.passos_tomados@.drop_last() =~= estado.passos_tomados@);
    PassoNaoLinear::Continuar(e)
}

} // verus!
