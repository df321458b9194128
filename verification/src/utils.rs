//! Vectors, matrices and the numerical routines built on them: finite-difference
//! gradients, the line search and the quasi-Newton update.

use crate::defs::{Configuracao, Funcao, Ponto, DIM, OP};
use crate::escalar::{
    menor_ou_igual_spec, menos_um, menos_um_spec, um, um_spec, zero, zero_spec, Escalar,
};
use vstd::array::spec_array_update;
use vstd::prelude::*;

verus! {

/// The sum `((0 + t(0)) + t(1)) + ... + t(n - 1)`, added in that order.
pub open spec fn somatorio<S: Escalar>(termo: spec_fn(int) -> S, n: int) -> S
    decreases n,
{
    if n <= 0 {
        zero_spec::<S>()
    } else {
        somatorio(termo, n - 1).soma_spec(termo(n - 1))
    }
}

/// The first `DIM` items of a vector, as a point.
pub fn vec_arr_fixo<T: Copy>(v_in: Vec<T>) -> (r: [T; DIM])
    requires
        v_in.len() >= DIM,
    ensures
        r@ == v_in@.take(DIM as int),
{
    let mut r: [T; DIM] = [v_in[0];DIM];
    let mut i: usize = 0;
    while i < DIM
        invariant
            i <= DIM,
            v_in.len() >= DIM,
            forall|k: int| 0 <= k < i ==> r[k] == v_in[k],
        decreases DIM - i,
    {
        r[i] = v_in[i];
        i += 1;
    }
    assert(r@ =~= v_in@.take(DIM as int));
    r
}

/// `x` with its coordinate `i` moved by `delta`.
pub open spec fn deslocado<S: Escalar>(x: Ponto<S>, i: int, delta: S) -> Ponto<S> {
    spec_array_update(x, i, x[i].soma_spec(delta))
}

/// `x` with its coordinate `i` moved back by `delta`.
pub open spec fn recuado<S: Escalar>(x: Ponto<S>, i: int, delta: S) -> Ponto<S> {
    spec_array_update(x, i, x[i].subtrai_spec(delta))
}

/// The central difference of `f` at `x` along coordinate `i`: the difference of the values
/// at the two displaced points, over twice the displacement.
pub open spec fn derivada_central<S: Escalar, F: Funcao<S>>(
    f: &F,
    x: Ponto<S>,
    i: int,
    eps: S,
) -> S {
    f.valor(deslocado(x, i, eps)).subtrai_spec(f.valor(recuado(x, i, eps))).divide_spec(
        S::de_razao_spec(2, 1).multiplica_spec(eps),
    )
}

/// The finite-difference gradient of `f` at `x`.
pub open spec fn gradiente_spec<S: Escalar, F: Funcao<S>>(f: &F, x: Ponto<S>, eps: S) -> Seq<S> {
    Seq::new(DIM as nat, |i: int| derivada_central(f, x, i, eps))
}

/// Gradient of `f` at `x` by central differences with step `config.eps`.
pub fn auto_grad<S: Escalar, F: Funcao<S>>(
    x: Ponto<S>,
    f: &F,
    config: &Configuracao<S>,
) -> (r: Ponto<S>)
    ensures
        r@ == gradiente_spec(f, x, config.eps),
{
    let mut r: Ponto<S> = [zero::<S>();DIM];
    let dois_eps = S::de_razao(2, 1).multiplica(config.eps);
    let mut i: usize = 0;
    while i < DIM
        invariant
            i <= DIM,
            dois_eps == S::de_razao_spec(2, 1).multiplica_spec(config.eps),
            forall|k: int| 0 <= k < i ==> r[k] == derivada_central(f, x, k, config.eps),
        decreases DIM - i,
    {
        let mut x1 = x;
        let mut x2 = x;
        x1[i] = x1[i].subtrai(config.eps);
        x2[i] = x2[i].soma(config.eps);
        assert(x1 == recuado(x, i as int, config.eps));
        assert(x2 == deslocado(x, i as int, config.eps));
        let y1 = f.avaliar(x1);
        let y2 = f.avaliar(x2);
        r[i] = y2.subtrai(y1).divide(dois_eps);
        i += 1;
    }
    assert(r@ =~= gradiente_spec(f, x, config.eps));
    r
}

/// The terms of the inner product of `a` and `b`.
pub open spec fn termos_produto<S: Escalar>(a: Seq<S>, b: Seq<S>) -> spec_fn(int) -> S {
    |i: int| a[i].multiplica_spec(b[i])
}

/// Inner product of two points, summed from the first coordinate on.
pub open spec fn produto_interno_spec<S: Escalar>(a: Seq<S>, b: Seq<S>) -> S {
    somatorio(termos_produto(a, b), DIM as int)
}

/// Inner product of two points.
pub fn produto_interno<S: Escalar>(a: &Ponto<S>, b: &Ponto<S>) -> (r: S)
    ensures
        r == produto_interno_spec(a@, b@),
{
    let mut acc = zero::<S>();
    let mut idx: usize = 0;
    while idx < DIM
        invariant
            idx <= DIM,
            acc == somatorio(termos_produto(a@, b@), idx as int),
        decreases DIM - idx,
    {
        acc = acc.soma(a[idx].multiplica(b[idx]));
        idx += 1;
    }
    acc
}

/// Inner product of two vectors of any length, over the length of the shorter.
pub open spec fn produto_interno_generico_spec<S: Escalar>(a: Seq<S>, b: Seq<S>) -> S {
    somatorio(
        termos_produto(a, b),
        if a.len() <= b.len() {
            a.len() as int
        } else {
            b.len() as int
        },
    )
}

/// Inner product of two vectors, over the length of the shorter.
pub fn _produto_interno_generico<S: Escalar>(a: &Vec<S>, b: &Vec<S>) -> (r: S)
    ensures
        r == produto_interno_generico_spec(a@, b@),
{
    let n = if a.len() <= b.len() { a.len() } else { b.len() };
    let mut acc = zero::<S>();
    let mut idx: usize = 0;
    while idx < n
        invariant
            idx <= n,
            n <= a.len(),
            n <= b.len(),
            acc == somatorio(termos_produto(a@, b@), idx as int),
        decreases n - idx,
    {
        acc = acc.soma(a[idx].multiplica(b[idx]));
        idx += 1;
    }
    acc
}

/// Euclidean norm: the root of the sum of the squares.
pub open spec fn norma_spec<S: Escalar>(x: Seq<S>) -> S {
    somatorio(termos_produto(x, x), DIM as int).raiz_spec()
}

/// Euclidean norm of a point.
pub fn norma<S: Escalar>(x: &Ponto<S>) -> (r: S)
    ensures
        r == norma_spec(x@),
{
    let mut soma = zero::<S>();
    let mut i: usize = 0;
    while i < DIM
        invariant
            i <= DIM,
            soma == somatorio(termos_produto(x@, x@), i as int),
        decreases DIM - i,
    {
        soma = soma.soma(x[i].multiplica(x[i]));
        i += 1;
    }
    soma.raiz()
}

/// `n` is closer to zero than `eps`.
pub open spec fn quase_zero<S: Escalar>(n: S, eps: S) -> bool {
    n.subtrai_spec(zero_spec::<S>()).modulo_spec().menor_spec(eps)
}

/// Whether `n` is close enough to zero to count as zero.
pub fn prox_o_suficiente_de_zero<S: Escalar>(n: S, config: &Configuracao<S>) -> (r: bool)
    ensures
        r == quase_zero(n, config.eps),
{
    n.subtrai(zero::<S>()).modulo().menor(config.eps)
}

/// The vector scaled by the inverse of its norm.
pub open spec fn normalizar_spec<S: Escalar>(vetor: Seq<S>) -> Seq<S> {
    Seq::new(DIM as nat, |i: int| vetor[i].divide_spec(norma_spec(vetor)))
}

/// The vector scaled to norm one.
pub fn normalizar<S: Escalar>(vetor: &Ponto<S>) -> (r: Ponto<S>)
    ensures
        r@ == normalizar_spec(vetor@),
{
    let norma = norma(vetor);
    let mut novo_vetor = *vetor;
    let mut idx: usize = 0;
    while idx < DIM
        invariant
            idx <= DIM,
            norma == norma_spec(vetor@),
            forall|k: int| 0 <= k < idx ==> novo_vetor[k] == vetor[k].divide_spec(norma),
            forall|k: int| idx <= k < DIM ==> novo_vetor[k] == vetor[k],
        decreases DIM - idx,
    {
        novo_vetor[idx] = novo_vetor[idx].divide(norma);
        idx += 1;
    }
    assert(novo_vetor@ =~= normalizar_spec(vetor@));
    novo_vetor
}

/// The terms of the squared distance between `p` and `q`.
pub open spec fn termos_distancia<S: Escalar>(p: Seq<S>, q: Seq<S>) -> spec_fn(int) -> S {
    |i: int| p[i].subtrai_spec(q[i]).multiplica_spec(p[i].subtrai_spec(q[i]))
}

/// Euclidean distance between two points.
pub open spec fn dist_spec<S: Escalar>(p: Seq<S>, q: Seq<S>) -> S {
    somatorio(termos_distancia(p, q), DIM as int).raiz_spec()
}

/// Euclidean distance between two points.
pub fn dist<S: Escalar>(p: Ponto<S>, q: Ponto<S>) -> (r: S)
    ensures
        r == dist_spec(p@, q@),
{
    let mut acc = zero::<S>();
    let mut i: usize = 0;
    while i < DIM
        invariant
            i <= DIM,
            acc == somatorio(termos_distancia(p@, q@), i as int),
        decreases DIM - i,
    {
        let diferenca = p[i].subtrai(q[i]);
        acc = acc.soma(diferenca.multiplica(diferenca));
        i += 1;
    }
    acc.raiz()
}

/// The larger of two scalars; the first when neither is below the other.
pub open spec fn max_spec<S: Escalar>(a: S, b: S) -> S {
    if a.menor_spec(b) {
        b
    } else {
        a
    }
}

/// The larger of two scalars.
pub fn max<S: Escalar>(a: S, b: S) -> (r: S)
    ensures
        r == max_spec(a, b),
{
    if a.menor(b) {
        b
    } else {
        a
    }
}

/// The point whose coordinates are the items of `s`.
pub open spec fn ponto_de<S: Escalar>(s: Seq<S>) -> Ponto<S> {
    ponto_ate(arbitrary(), s, DIM as int)
}

/// `base` with its first `n` coordinates replaced by the first `n` items of `s`.
pub open spec fn ponto_ate<S: Escalar>(base: Ponto<S>, s: Seq<S>, n: int) -> Ponto<S>
    decreases n,
{
    if n <= 0 {
        base
    } else {
        spec_array_update(ponto_ate(base, s, n - 1), n - 1, s[n - 1])
    }
}

proof fn lema_ponto_ate<S: Escalar>(base: Ponto<S>, s: Seq<S>, n: int)
    requires
        0 <= n <= DIM,
    ensures
        forall|k: int| 0 <= k < n ==> #[trigger] ponto_ate(base, s, n)[k] == s[k],
    decreases n,
{
    if n > 0 {
        lema_ponto_ate(base, s, n - 1);
        let anterior = ponto_ate(base, s, n - 1);
        assert(ponto_ate(base, s, n)@ == anterior@.update(n - 1, s[n - 1]));
        assert forall|k: int| 0 <= k < n implies #[trigger] ponto_ate(base, s, n)[k] == s[k] by {
            if k < n - 1 {
                assert(anterior[k] == s[k]);
            }
        }
    }
}

/// A point built from a sequence of `DIM` items has exactly those items, and it is the only
/// point that has them.
pub proof fn lema_ponto_de<S: Escalar>(s: Seq<S>)
    requires
        s.len() == DIM,
    ensures
        ponto_de(s)@ == s,
        forall|p: Ponto<S>| p@ == s ==> p == ponto_de(s),
{
    lema_ponto_ate::<S>(arbitrary(), s, DIM as int);
    assert(ponto_de(s)@ =~= s);
    assert forall|p: Ponto<S>| p@ == s implies p == ponto_de(s) by {
        assert(p =~= ponto_de(s));
    }
}

/// Every coordinate of `b` times `a`.
pub open spec fn produto_escalar_spec<S: Escalar>(a: S, b: Seq<S>) -> Seq<S> {
    Seq::new(DIM as nat, |i: int| a.multiplica_spec(b[i]))
}

/// The point `b` scaled by `a`.
pub fn produto_escalar<S: Escalar>(a: S, b: Ponto<S>) -> (r: Ponto<S>)
    ensures
        r@ == produto_escalar_spec(a, b@),
{
    let mut r: Ponto<S> = [zero::<S>();DIM];
    let mut i: usize = 0;
    while i < DIM
        invariant
            i <= DIM,
            forall|k: int| 0 <= k < i ==> r[k] == a.multiplica_spec(b[k]),
        decreases DIM - i,
    {
        r[i] = a.multiplica(b[i]);
        i += 1;
    }
    assert(r@ =~= produto_escalar_spec(a, b@));
    r
}

/// Coordinate-wise sum.
pub open spec fn soma_pontos_spec<S: Escalar>(a: Seq<S>, b: Seq<S>) -> Seq<S> {
    Seq::new(DIM as nat, |i: int| a[i].soma_spec(b[i]))
}

/// The sum of two points.
pub fn soma_pontos<S: Escalar>(a: Ponto<S>, b: Ponto<S>) -> (r: Ponto<S>)
    ensures
        r@ == soma_pontos_spec(a@, b@),
{
    let mut r: Ponto<S> = [zero::<S>();DIM];
    let mut i: usize = 0;
    while i < DIM
        invariant
            i <= DIM,
            forall|k: int| 0 <= k < i ==> r[k] == a[k].soma_spec(b[k]),
        decreases DIM - i,
    {
        r[i] = a[i].soma(b[i]);
        i += 1;
    }
    assert(r@ =~= soma_pontos_spec(a@, b@));
    r
}

/// Coordinate-wise difference.
pub open spec fn subtracao_pontos_spec<S: Escalar>(a: Seq<S>, b: Seq<S>) -> Seq<S> {
    Seq::new(DIM as nat, |i: int| a[i].subtrai_spec(b[i]))
}

/// The difference of two points.
pub fn subtracao_pontos<S: Escalar>(a: Ponto<S>, b: Ponto<S>) -> (r: Ponto<S>)
    ensures
        r@ == subtracao_pontos_spec(a@, b@),
{
    let mut r: Ponto<S> = [zero::<S>();DIM];
    let mut i: usize = 0;
    while i < DIM
        invariant
            i <= DIM,
            forall|k: int| 0 <= k < i ==> r[k] == a[k].subtrai_spec(b[k]),
        decreases DIM - i,
    {
        r[i] = a[i].subtrai(b[i]);
        i += 1;
    }
    assert(r@ =~= subtracao_pontos_spec(a@, b@));
    r
}

/// The point reached from `x` by the step `a` along `d`.
pub open spec fn avanco<S: Escalar>(x: Ponto<S>, a: S, d: Ponto<S>) -> Ponto<S> {
    ponto_de(soma_pontos_spec(x@, produto_escalar_spec(a, d@)))
}

/// `x` moved by the step `a` along `d`.
pub fn avancar<S: Escalar>(x: Ponto<S>, a: S, d: Ponto<S>) -> (r: Ponto<S>)
    ensures
        r == avanco(x, a, d),
        r@ == soma_pontos_spec(x@, produto_escalar_spec(a, d@)),
{
    let r = soma_pontos(x, produto_escalar(a, d));
    proof {
        lema_ponto_de(soma_pontos_spec(x@, produto_escalar_spec(a, d@)));
    }
    r
}

/// Whether the first `dim` items of `a` and `b` are equal, one by one.
pub open spec fn iguais_spec<S: Escalar>(a: Seq<S>, b: Seq<S>, dim: int) -> bool {
    forall|i: int| 0 <= i < dim ==> (#[trigger] a[i]).igual_spec(b[i])
}

/// Tests whether the first `dim` items of two vectors are equal.
pub fn _iguais<S: Escalar>(a: &Vec<S>, b: &Vec<S>, dim: usize) -> (r: bool)
    requires
        dim <= a.len(),
        dim <= b.len(),
    ensures
        r == iguais_spec(a@, b@, dim as int),
{
    let mut idx: usize = 0;
    while idx < dim
        invariant
            idx <= dim,
            dim <= a.len(),
            dim <= b.len(),
            iguais_spec(a@, b@, idx as int),
        decreases dim - idx,
    {
        if !a[idx].igual(b[idx]) {
            return false;
        }
        idx += 1;
    }
    true
}

/// Whether the first `dim` items of `a` and `b` differ by no more than `eps`, one by one.
pub open spec fn quase_iguais_spec<S: Escalar>(a: Seq<S>, b: Seq<S>, dim: int, eps: S) -> bool {
    forall|i: int|
        0 <= i < dim ==> !eps.menor_spec((#[trigger] a[i]).subtrai_spec(b[i]).modulo_spec())
}

/// Tests whether the first `dim` items of two vectors are equal up to the tolerance.
pub fn quase_iguais<S: Escalar>(
    a: &Vec<S>,
    b: &Vec<S>,
    dim: usize,
    config: &Configuracao<S>,
) -> (r: bool)
    requires
        dim <= a.len(),
        dim <= b.len(),
    ensures
        r == quase_iguais_spec(a@, b@, dim as int, config.eps),
{
    let mut idx: usize = 0;
    while idx < dim
        invariant
            idx <= dim,
            dim <= a.len(),
            dim <= b.len(),
            quase_iguais_spec(a@, b@, idx as int, config.eps),
        decreases dim - idx,
    {
        if config.eps.menor(a[idx].subtrai(b[idx]).modulo()) {
            return false;
        }
        idx += 1;
    }
    true
}

/// The vector of `dim` zeros but for `val` at `idx`.
pub open spec fn nulo_exceto<S: Escalar>(idx: int, dim: int, val: S) -> Seq<S> {
    Seq::new(dim as nat, |i: int| if i == idx { val } else { zero_spec::<S>() })
}

/// The vector of `dim` zeros.
pub open spec fn nulo<S: Escalar>(dim: int) -> Seq<S> {
    Seq::new(dim as nat, |i: int| zero_spec::<S>())
}

/// The vector of `dim` zeros but for `val` at `idx`.
pub fn fn_aux_vetor_nulo_exceto<S: Escalar>(idx: usize, dim: usize, val: S) -> (r: Vec<S>)
    requires
        idx < dim,
    ensures
        r@ == nulo_exceto(idx as int, dim as int, val),
{
    let mut ret: Vec<S> = Vec::new();
    let mut i: usize = 0;
    while i < dim
        invariant
            i <= dim,
            ret.len() == i,
            forall|k: int| 0 <= k < i ==> ret[k] == if k == idx { val } else { zero_spec::<S>() },
        decreases dim - i,
    {
        if i == idx {
            ret.push(val);
        } else {
            ret.push(zero::<S>());
        }
        i += 1;
    }
    assert(ret@ =~= nulo_exceto(idx as int, dim as int, val));
    ret
}

/// The vector of `dim` zeros.
pub fn vetor_nulo<S: Escalar>(dim: usize) -> (r: Vec<S>)
    ensures
        r@ == nulo::<S>(dim as int),
{
    let mut ret: Vec<S> = Vec::new();
    let mut i: usize = 0;
    while i < dim
        invariant
            i <= dim,
            ret.len() == i,
            forall|k: int| 0 <= k < i ==> ret[k] == zero_spec::<S>(),
        decreases dim - i,
    {
        ret.push(zero::<S>());
        i += 1;
    }
    assert(ret@ =~= nulo::<S>(dim as int));
    ret
}

/// Coefficients that pick the slack `idx` of the inequality constraints, negated.
pub fn fn_aux_vtgj<S: Escalar>(idx: usize, mi: usize) -> (r: Vec<S>)
    requires
        idx < mi,
    ensures
        r@ == nulo_exceto(idx as int, mi as int, menos_um_spec::<S>()),
{
    fn_aux_vetor_nulo_exceto(idx, mi, menos_um::<S>())
}

/// Coefficients that pick the slack `idx` of the equality constraints.
pub fn fn_aux_vrh_p<S: Escalar>(idx: usize, me: usize) -> (r: Vec<S>)
    requires
        idx < me,
    ensures
        r@ == nulo_exceto(idx as int, me as int, um_spec::<S>()),
{
    fn_aux_vetor_nulo_exceto(idx, me, um::<S>())
}

/// Coefficients that pick the slack `idx` of the equality constraints, negated.
pub fn fn_aux_vrh_n<S: Escalar>(idx: usize, me: usize) -> (r: Vec<S>)
    requires
        idx < me,
    ensures
        r@ == nulo_exceto(idx as int, me as int, menos_um_spec::<S>()),
{
    fn_aux_vetor_nulo_exceto(idx, me, menos_um::<S>())
}

/// The next point of the grid that covers the box from `x_min` to `x_max` in steps of
/// `passo`, after `k` coordinates were looked at, from the last one down: the last
/// coordinate moves by one step, and a coordinate that went past its upper bound goes back
/// to its lower bound and moves the one before it.
pub open spec fn prox_ponto_apos<S: Escalar>(
    x: Seq<S>,
    x_min: Seq<S>,
    x_max: Seq<S>,
    dim: int,
    passo: S,
    k: int,
) -> Seq<S>
    decreases k,
{
    if k <= 0 {
        x.update(dim - 1, x[dim - 1].soma_spec(passo))
    } else {
        let anterior = prox_ponto_apos(x, x_min, x_max, dim, passo, k - 1);
        let idx = dim - k;
        if x_max[idx].menor_spec(anterior[idx]) {
            let reposto = anterior.update(idx, x_min[idx]);
            if idx > 0 {
                reposto.update(idx - 1, reposto[idx - 1].soma_spec(passo))
            } else {
                reposto
            }
        } else {
            anterior
        }
    }
}

/// The next point of the grid, once every coordinate was looked at.
pub open spec fn prox_ponto_spec<S: Escalar>(
    x: Seq<S>,
    x_min: Seq<S>,
    x_max: Seq<S>,
    dim: int,
    passo: S,
) -> Seq<S> {
    prox_ponto_apos(x, x_min, x_max, dim, passo, dim)
}

proof fn lema_prox_ponto_len<S: Escalar>(
    x: Seq<S>,
    x_min: Seq<S>,
    x_max: Seq<S>,
    dim: int,
    passo: S,
    k: int,
)
    requires
        1 <= dim <= x.len(),
        0 <= k <= dim,
    ensures
        prox_ponto_apos(x, x_min, x_max, dim, passo, k).len() == x.len(),
    decreases k,
{
    if k > 0 {
        lema_prox_ponto_len(x, x_min, x_max, dim, passo, k - 1);
    }
}

/// The next point of the grid of step `passo` over the box from `x_min` to `x_max`, in
/// its first `dim` coordinates.
pub fn prox_ponto<S: Escalar>(
    x: Vec<S>,
    x_min: &Vec<S>,
    x_max: &Vec<S>,
    dim: usize,
    passo: S,
) -> (r: Vec<S>)
    requires
        1 <= dim <= x.len(),
        dim <= x_min.len(),
        dim <= x_max.len(),
    ensures
        r@ == prox_ponto_spec(x@, x_min@, x_max@, dim as int, passo),
{
    let mut x = x;
    let ghost x0 = x@;
    let valor = x[dim - 1].soma(passo);
    x.set(dim - 1, valor);
    let mut k: usize = 0;
    while k < dim
        invariant
            k <= dim,
            1 <= dim <= x0.len(),
            dim <= x_min.len(),
            dim <= x_max.len(),
            x.len() == x0.len(),
            x@ == prox_ponto_apos(x0, x_min@, x_max@, dim as int, passo, k as int),
        decreases dim - k,
    {
        let idx = dim - 1 - k;
        if x_max[idx].menor(x[idx]) {
            x.set(idx, x_min[idx]);
            if idx > 0 {
                let vizinho = x[idx - 1].soma(passo);
                x.set(idx - 1, vizinho);
            }
        }
        k += 1;
        proof {
            lema_prox_ponto_len(x0, x_min@, x_max@, dim as int, passo, k as int);
        }
    }
    x
}

/// Whether two of the given vectors, scaled to norm one, are closer than `eps`.
pub open spec fn par_dependente<S: Escalar>(pontos: Seq<Ponto<S>>, i: int, j: int, eps: S) -> bool {
    quase_zero(dist_spec(normalizar_spec(pontos[i]@), normalizar_spec(pontos[j]@)), eps)
}

/// Whether some two different vectors of the list are dependent.
pub open spec fn dependentes_spec<S: Escalar>(pontos: Seq<Ponto<S>>, eps: S) -> bool {
    exists|i: int, j: int|
        0 <= i < pontos.len() && 0 <= j < pontos.len() && i != j && #[trigger] par_dependente(
            pontos,
            i,
            j,
            eps,
        )
}

/// Whether at least two vectors of the list are linearly dependent: their normalised forms
/// coincide up to the tolerance.
pub fn sao_linearmente_dependentes<S: Escalar>(
    pontos: &Vec<Ponto<S>>,
    config: &Configuracao<S>,
) -> (r: bool)
    ensures
        r == dependentes_spec(pontos@, config.eps),
{
    let n = pontos.len();
    let mut normais: Vec<Ponto<S>> = Vec::new();
    let mut t: usize = 0;
    while t < n
        invariant
            t <= n,
            n == pontos.len(),
            normais.len() == t,
            forall|k: int| 0 <= k < t ==> (#[trigger] normais[k])@ == normalizar_spec(pontos[k]@),
        decreases n - t,
    {
        normais.push(normalizar(&pontos[t]));
        t += 1;
    }
    let mut i: usize = 0;
    while i < n
        invariant
            i <= n,
            n == pontos.len(),
            normais.len() == n,
            forall|k: int| 0 <= k < n ==> (#[trigger] normais[k])@ == normalizar_spec(pontos[k]@),
            forall|a: int, b: int|
                0 <= a < i && 0 <= b < n && a != b ==> !#[trigger] par_dependente(
                    pontos@,
                    a,
                    b,
                    config.eps,
                ),
        decreases n - i,
    {
        let mut j: usize = 0;
        while j < n
            invariant
                i < n,
                j <= n,
                n == pontos.len(),
                normais.len() == n,
                forall|k: int|
                    0 <= k < n ==> (#[trigger] normais[k])@ == normalizar_spec(pontos[k]@),
                forall|a: int, b: int|
                    0 <= a < i && 0 <= b < n && a != b ==> !#[trigger] par_dependente(
                        pontos@,
                        a,
                        b,
                        config.eps,
                    ),
                forall|b: int|
                    0 <= b < j && b != i ==> !#[trigger] par_dependente(
                        pontos@,
                        i as int,
                        b,
                        config.eps,
                    ),
            decreases n - j,
        {
            if i != j {
                if prox_o_suficiente_de_zero(dist(normais[i], normais[j]), config) {
                    assert(par_dependente(pontos@, i as int, j as int, config.eps));
                    return true;
                }
            }
            j += 1;
        }
        i += 1;
    }
    false
}

/// The state of the line search after `n` step sizes: the last step size, the best value
/// found and the step size that gave it. The search starts with step size zero and the
/// value at `x`. The step size is increased by `passo` as long as the new step size is
/// below one, and the new point replaces the best only if its value is strictly lower.
pub open spec fn busca_apos<S: Escalar, F: Funcao<S>>(
    f: &F,
    x: Ponto<S>,
    d: Ponto<S>,
    passo: S,
    n: int,
) -> (S, S, S)
    decreases n,
{
    if n <= 0 {
        (zero_spec::<S>(), f.valor(x), zero_spec::<S>())
    } else {
        let anterior = busca_apos(f, x, d, passo, n - 1);
        let a = anterior.0.soma_spec(passo);
        if a.menor_spec(um_spec::<S>()) {
            let y = f.valor(avanco(x, a, d));
            if y.menor_spec(anterior.1) {
                (a, y, a)
            } else {
                (a, anterior.1, anterior.2)
            }
        } else {
            anterior
        }
    }
}

/// Whether the search takes its step `k`: the step size that it gives is below one.
pub open spec fn passo_tomado<S: Escalar, F: Funcao<S>>(
    f: &F,
    x: Ponto<S>,
    d: Ponto<S>,
    passo: S,
    k: int,
) -> bool {
    k >= 1 && busca_apos(f, x, d, passo, k - 1).0.soma_spec(passo).menor_spec(um_spec::<S>())
}

/// The step size that the line search returns.
pub open spec fn line_search_spec<S: Escalar, F: Funcao<S>>(
    f: &F,
    x: Ponto<S>,
    d: Ponto<S>,
    config: &Configuracao<S>,
) -> S {
    busca_apos(f, x, d, config.passo_busca, config.limite_busca as int).2
}

/// Once the next step size is not below one the search no longer moves.
pub proof fn lema_busca_parada<S: Escalar, F: Funcao<S>>(
    f: &F,
    x: Ponto<S>,
    d: Ponto<S>,
    passo: S,
    k: int,
    n: int,
)
    requires
        0 <= k <= n,
        !busca_apos(f, x, d, passo, k).0.soma_spec(passo).menor_spec(um_spec::<S>()),
    ensures
        busca_apos(f, x, d, passo, n) == busca_apos(f, x, d, passo, k),
    decreases n - k,
{
    if k < n {
        lema_busca_parada(f, x, d, passo, k, n - 1);
    }
}

/// Every step size of the search, the last one as the one it keeps, is below one.
pub proof fn lei_busca_abaixo_de_um<S: Escalar, F: Funcao<S>>(
    f: &F,
    x: Ponto<S>,
    d: Ponto<S>,
    passo: S,
    n: int,
)
    ensures
        busca_apos(f, x, d, passo, n).0.menor_spec(um_spec::<S>()),
        busca_apos(f, x, d, passo, n).2.menor_spec(um_spec::<S>()),
    decreases n,
{
    S::lei_zero_menor_que_um();
    if n > 0 {
        lei_busca_abaixo_de_um(f, x, d, passo, n - 1);
    }
}

/// With an increment that is not negative, no step size of the search is negative.
pub proof fn lei_busca_nao_negativa<S: Escalar, F: Funcao<S>>(
    f: &F,
    x: Ponto<S>,
    d: Ponto<S>,
    passo: S,
    n: int,
)
    requires
        menor_ou_igual_spec(zero_spec::<S>(), passo),
    ensures
        menor_ou_igual_spec(zero_spec::<S>(), busca_apos(f, x, d, passo, n).0),
        menor_ou_igual_spec(zero_spec::<S>(), busca_apos(f, x, d, passo, n).2),
    decreases n,
{
    if n <= 0 {
        S::lei_menor_irreflexiva(zero_spec::<S>());
        S::lei_ordem_total(zero_spec::<S>(), zero_spec::<S>());
    } else {
        lei_busca_nao_negativa(f, x, d, passo, n - 1);
        S::lei_soma_nao_negativa(busca_apos(f, x, d, passo, n - 1).0, passo);
    }
}

/// A step of size zero leaves the point where it is.
pub proof fn lema_avanco_nulo<S: Escalar>(x: Ponto<S>, d: Ponto<S>)
    ensures
        avanco(x, zero_spec::<S>(), d) == x,
{
    let s = soma_pontos_spec(x@, produto_escalar_spec(zero_spec::<S>(), d@));
    assert forall|i: int| 0 <= i < DIM implies s[i] == x@[i] by {
        S::lei_passo_nulo(x[i], d[i]);
    }
    assert(s =~= x@);
    lema_ponto_de(x@);
}

/// The value that the search keeps is the value of `f` at the point of the step size that
/// it keeps.
pub proof fn lei_busca_valor<S: Escalar, F: Funcao<S>>(
    f: &F,
    x: Ponto<S>,
    d: Ponto<S>,
    passo: S,
    n: int,
)
    ensures
        busca_apos(f, x, d, passo, n).1 == f.valor(avanco(x, busca_apos(f, x, d, passo, n).2, d)),
    decreases n,
{
    if n <= 0 {
        lema_avanco_nulo(x, d);
    } else {
        lei_busca_valor(f, x, d, passo, n - 1);
    }
}

/// The value that the search keeps never grows: after more step sizes it is the same or
/// strictly lower.
pub proof fn lema_busca_decrescente<S: Escalar, F: Funcao<S>>(
    f: &F,
    x: Ponto<S>,
    d: Ponto<S>,
    passo: S,
    k: int,
    n: int,
)
    requires
        0 <= k <= n,
    ensures
        busca_apos(f, x, d, passo, n).1 == busca_apos(f, x, d, passo, k).1 || busca_apos(
            f,
            x,
            d,
            passo,
            n,
        ).1.menor_spec(busca_apos(f, x, d, passo, k).1),
    decreases n - k,
{
    if k < n {
        lema_busca_decrescente(f, x, d, passo, k, n - 1);
        let yk = busca_apos(f, x, d, passo, k).1;
        let ya = busca_apos(f, x, d, passo, n - 1).1;
        let yn = busca_apos(f, x, d, passo, n).1;
        if yn != ya && ya != yk {
            S::lei_menor_transitiva(yn, ya, yk);
        }
    }
}

/// The search never keeps a value above the one at the starting point.
pub proof fn lei_busca_nao_piora<S: Escalar, F: Funcao<S>>(
    f: &F,
    x: Ponto<S>,
    d: Ponto<S>,
    passo: S,
    n: int,
)
    requires
        0 <= n,
    ensures
        !f.valor(x).menor_spec(busca_apos(f, x, d, passo, n).1),
{
    lema_busca_decrescente(f, x, d, passo, 0, n);
    let y0 = f.valor(x);
    let yn = busca_apos(f, x, d, passo, n).1;
    S::lei_menor_irreflexiva(y0);
    if yn.menor_spec(y0) && y0.menor_spec(yn) {
        S::lei_menor_transitiva(y0, yn, y0);
    }
}

/// No step size that the search tried gave a value strictly below the one it keeps: if
/// step `k` was taken, the value at its point is not below the value kept after `n >= k` steps.
pub proof fn lei_busca_minima<S: Escalar, F: Funcao<S>>(
    f: &F,
    x: Ponto<S>,
    d: Ponto<S>,
    passo: S,
    k: int,
    n: int,
)
    requires
        k <= n,
        passo_tomado(f, x, d, passo, k),
    ensures
        !f.valor(avanco(x, busca_apos(f, x, d, passo, k).0, d)).menor_spec(
            busca_apos(f, x, d, passo, n).1,
        ),
{
    lema_busca_decrescente(f, x, d, passo, k, n);
    let c = f.valor(avanco(x, busca_apos(f, x, d, passo, k).0, d));
    let yk = busca_apos(f, x, d, passo, k).1;
    let yn = busca_apos(f, x, d, passo, n).1;
    S::lei_menor_irreflexiva(c);
    assert(!c.menor_spec(yk));
    if c.menor_spec(yn) && yn.menor_spec(yk) {
        S::lei_menor_transitiva(c, yn, yk);
    }
}

/// Searches the step size that minimises `f` from `x` along `direcao`, on the grid of
/// step `config.passo_busca` from zero up to, and without, one. Among step sizes of equal
/// value the first wins.
pub fn line_search<S: Escalar, F: Funcao<S>>(
    x: Ponto<S>,
    direcao: Ponto<S>,
    f: &F,
    config: &Configuracao<S>,
) -> (r: S)
    ensures
        r == line_search_spec(f, x, direcao, config),
        r.menor_spec(um_spec::<S>()),
        menor_ou_igual_spec(zero_spec::<S>(), config.passo_busca) ==> menor_ou_igual_spec(
            zero_spec::<S>(),
            r,
        ),
{
    let mut y_atual = f.avaliar(x);
    let mut a_atual = zero::<S>();
    let mut melhor_a = zero::<S>();
    let um = um::<S>();
    let mut proximo = a_atual.soma(config.passo_busca);
    let mut k: usize = 0;
    while k < config.limite_busca && proximo.menor(um)
        invariant
            k <= config.limite_busca,
            um == um_spec::<S>(),
            proximo == a_atual.soma_spec(config.passo_busca),
            (a_atual, y_atual, melhor_a) == busca_apos(f, x, direcao, config.passo_busca, k as int),
        decreases config.limite_busca - k,
    {
        a_atual = proximo;
        let x_novo = avancar(x, a_atual, direcao);
        let y_novo = f.avaliar(x_novo);
        if y_novo.menor(y_atual) {
            y_atual = y_novo;
            melhor_a = a_atual;
        }
        k += 1;
        proximo = a_atual.soma(config.passo_busca);
    }
    proof {
        let n = config.limite_busca as int;
        if k < config.limite_busca {
            lema_busca_parada(f, x, direcao, config.passo_busca, k as int, n);
        }
        lei_busca_abaixo_de_um(f, x, direcao, config.passo_busca, n);
        if menor_ou_igual_spec(zero_spec::<S>(), config.passo_busca) {
            lei_busca_nao_negativa(f, x, direcao, config.passo_busca, n);
        }
    }
    melhor_a
}

/// A matrix as the sequence of its rows.
pub open spec fn matriz_spec<S>(m: &Vec<Vec<S>>) -> Seq<Seq<S>> {
    Seq::new(m.len() as nat, |i: int| m[i]@)
}

/// Column `i` of the first `n` rows of `m`; a row too short to have an item `i` gives none.
pub open spec fn coluna_spec<S>(m: Seq<Seq<S>>, i: int, n: int) -> Seq<S>
    decreases n,
{
    if n <= 0 {
        Seq::empty()
    } else if i < m[n - 1].len() {
        coluna_spec(m, i, n - 1).push(m[n - 1][i])
    } else {
        coluna_spec(m, i, n - 1)
    }
}

/// The transpose: one row for each item of the first row of `m`.
pub open spec fn transposta_spec<S>(m: Seq<Seq<S>>) -> Seq<Seq<S>> {
    Seq::new(m[0].len(), |i: int| coluna_spec(m, i, m.len() as int))
}

/// In a matrix whose rows all have the length of the first, the transpose swaps the indices.
pub proof fn lema_transposta_retangular<S>(m: Seq<Seq<S>>, n: int)
    requires
        0 <= n <= m.len(),
        m.len() > 0,
        forall|k: int| 0 <= k < m.len() ==> (#[trigger] m[k]).len() == m[0].len(),
    ensures
        forall|i: int|
            0 <= i < m[0].len() ==> (#[trigger] coluna_spec(m, i, n)).len() == n && forall|
                k: int,
            | 0 <= k < n ==> coluna_spec(m, i, n)[k] == m[k][i],
    decreases n,
{
    if n > 0 {
        lema_transposta_retangular(m, n - 1);
        assert forall|i: int| 0 <= i < m[0].len() implies (#[trigger] coluna_spec(m, i, n)).len()
            == n && forall|k: int| 0 <= k < n ==> coluna_spec(m, i, n)[k] == m[k][i] by {
            let anterior = coluna_spec(m, i, n - 1);
            assert(anterior.len() == n - 1);
            assert(m[n - 1].len() == m[0].len());
            assert(coluna_spec(m, i, n) == anterior.push(m[n - 1][i]));
        }
    }
}

/// Transposes a matrix with at least one row, none longer than the first.
pub fn transpor_matriz<S: Copy>(m: &Vec<Vec<S>>) -> (t: Vec<Vec<S>>)
    requires
        m.len() > 0,
        forall|k: int| 0 <= k < m.len() ==> (#[trigger] m[k]).len() <= m[0].len(),
    ensures
        matriz_spec(&t) == transposta_spec(matriz_spec(m)),
{
    let colunas = m[0].len();
    let mut t: Vec<Vec<S>> = Vec::new();
    let mut i: usize = 0;
    while i < colunas
        invariant
            i <= colunas,
            colunas == m[0].len(),
            m.len() > 0,
            t.len() == i,
            forall|c: int|
                0 <= c < i ==> (#[trigger] t[c])@ == coluna_spec(
                    matriz_spec(m),
                    c,
                    m.len() as int,
                ),
        decreases colunas - i,
    {
        let mut coluna: Vec<S> = Vec::new();
        let mut r: usize = 0;
        while r < m.len()
            invariant
                r <= m.len(),
                coluna@ == coluna_spec(matriz_spec(m), i as int, r as int),
            decreases m.len() - r,
        {
            if i < m[r].len() {
                coluna.push(m[r][i]);
            }
            r += 1;
        }
        t.push(coluna);
        i += 1;
    }
    assert(matriz_spec(&t) =~= transposta_spec(matriz_spec(m)));
    t
}

/// Whether two matrices have the same number of rows and rows of the same lengths.
pub open spec fn mesma_forma<S>(a: Seq<Seq<S>>, b: Seq<Seq<S>>) -> bool {
    &&& a.len() == b.len()
    &&& forall|i: int| 0 <= i < a.len() ==> (#[trigger] a[i]).len() == b[i].len()
}

/// What the entry-wise operation gives for one pair of entries.
pub open spec fn op_spec<S: Escalar>(x: S, y: S, op: OP) -> S {
    match op {
        OP::ADD => x.soma_spec(y),
        OP::SUB => x.subtrai_spec(y),
    }
}

/// The entry-wise sum or difference of two matrices.
pub open spec fn op_direta_spec<S: Escalar>(a: Seq<Seq<S>>, b: Seq<Seq<S>>, op: OP) -> Seq<Seq<S>> {
    Seq::new(a.len(), |i: int| Seq::new(a[i].len(), |j: int| op_spec(a[i][j], b[i][j], op)))
}

/// Entry-wise sum or difference of two matrices of the same form.
pub fn op_direta_matriz<S: Escalar>(a: &Vec<Vec<S>>, b: &Vec<Vec<S>>, op: OP) -> (r: Vec<Vec<S>>)
    requires
        mesma_forma(matriz_spec(a), matriz_spec(b)),
    ensures
        matriz_spec(&r) == op_direta_spec(matriz_spec(a), matriz_spec(b), op),
{
    let mut resultante: Vec<Vec<S>> = Vec::new();
    let mut i: usize = 0;
    while i < a.len()
        invariant
            i <= a.len(),
            mesma_forma(matriz_spec(a), matriz_spec(b)),
            resultante.len() == i,
            forall|k: int|
                0 <= k < i ==> (#[trigger] resultante[k])@ == op_direta_spec(
                    matriz_spec(a),
                    matriz_spec(b),
                    op,
                )[k],
        decreases a.len() - i,
    {
        assert(matriz_spec(a)[i as int].len() == matriz_spec(b)[i as int].len());
        let mut linha: Vec<S> = Vec::new();
        let mut j: usize = 0;
        while j < a[i as usize].len()
            invariant
                i < a.len(),
                a.len() == b.len(),
                a[i as int].len() == b[i as int].len(),
                j <= a[i as int].len(),
                linha.len() == j,
                forall|c: int|
                    0 <= c < j ==> #[trigger] linha[c] == op_spec(
                        a[i as int][c],
                        b[i as int][c],
                        op,
                    ),
            decreases a[i as int].len() - j,
        {
            let val = match op {
                OP::ADD => a[i][j].soma(b[i][j]),
                OP::SUB => a[i][j].subtrai(b[i][j]),
            };
            linha.push(val);
            j += 1;
        }
        assert(linha@ =~= op_direta_spec(matriz_spec(a), matriz_spec(b), op)[i as int]);
        resultante.push(linha);
        i += 1;
    }
    assert(matriz_spec(&resultante) =~= op_direta_spec(matriz_spec(a), matriz_spec(b), op));
    resultante
}

/// Entry-wise difference of two matrices of the same form.
pub fn _subtracao_matriz<S: Escalar>(a: &Vec<Vec<S>>, b: &Vec<Vec<S>>) -> (r: Vec<Vec<S>>)
    requires
        mesma_forma(matriz_spec(a), matriz_spec(b)),
    ensures
        matriz_spec(&r) == op_direta_spec(matriz_spec(a), matriz_spec(b), OP::SUB),
{
    op_direta_matriz(a, b, OP::SUB)
}

/// Entry-wise sum of two matrices of the same form.
pub fn soma_matriz<S: Escalar>(a: &Vec<Vec<S>>, b: &Vec<Vec<S>>) -> (r: Vec<Vec<S>>)
    requires
        mesma_forma(matriz_spec(a), matriz_spec(b)),
    ensures
        matriz_spec(&r) == op_direta_spec(matriz_spec(a), matriz_spec(b), OP::ADD),
{
    op_direta_matriz(a, b, OP::ADD)
}

/// Every entry of `b` times `a`.
pub open spec fn matriz_por_escalar_spec<S: Escalar>(a: S, b: Seq<Seq<S>>) -> Seq<Seq<S>> {
    Seq::new(b.len(), |i: int| Seq::new(b[i].len(), |j: int| a.multiplica_spec(b[i][j])))
}

/// Every entry of the matrix times `a`.
pub fn matriz_por_escalar<S: Escalar>(a: S, b: Vec<Vec<S>>) -> (r: Vec<Vec<S>>)
    ensures
        matriz_spec(&r) == matriz_por_escalar_spec(a, matriz_spec(&b)),
{
    let mut resultante: Vec<Vec<S>> = Vec::new();
    let mut i: usize = 0;
    while i < b.len()
        invariant
            i <= b.len(),
            resultante.len() == i,
            forall|k: int|
                0 <= k < i ==> (#[trigger] resultante[k])@ == matriz_por_escalar_spec(
                    a,
                    matriz_spec(&b),
                )[k],
        decreases b.len() - i,
    {
        let mut linha: Vec<S> = Vec::new();
        let mut j: usize = 0;
        while j < b[i].len()
            invariant
                i < b.len(),
                j <= b[i as int].len(),
                linha.len() == j,
                forall|c: int|
                    0 <= c < j ==> #[trigger] linha[c] == a.multiplica_spec(b[i as int][c]),
            decreases b[i as int].len() - j,
        {
            linha.push(a.multiplica(b[i][j]));
            j += 1;
        }
        assert(linha@ =~= matriz_por_escalar_spec(a, matriz_spec(&b))[i as int]);
        resultante.push(linha);
        i += 1;
    }
    assert(matriz_spec(&resultante) =~= matriz_por_escalar_spec(a, matriz_spec(&b)));
    resultante
}

/// The outer product of two points.
pub open spec fn produto_externo_spec<S: Escalar>(a: Seq<S>, b: Seq<S>) -> Seq<Seq<S>> {
    Seq::new(DIM as nat, |i: int| Seq::new(DIM as nat, |j: int| a[i].multiplica_spec(b[j])))
}

/// Outer product: the matrix whose entry `(i, j)` is `a[i]` times `b[j]`.
pub fn produto_externo<S: Escalar>(a: Ponto<S>, b: Ponto<S>) -> (r: Vec<Vec<S>>)
    ensures
        matriz_spec(&r) == produto_externo_spec(a@, b@),
{
    let mut resultante: Vec<Vec<S>> = Vec::new();
    let mut i: usize = 0;
    while i < DIM
        invariant
            i <= DIM,
            resultante.len() == i,
            forall|k: int|
                0 <= k < i ==> (#[trigger] resultante[k])@ == produto_externo_spec(a@, b@)[k],
        decreases DIM - i,
    {
        let mut linha: Vec<S> = Vec::new();
        let mut j: usize = 0;
        while j < DIM
            invariant
                i < DIM,
                j <= DIM,
                linha.len() == j,
                forall|c: int|
                    0 <= c < j ==> #[trigger] linha[c] == a[i as int].multiplica_spec(b[c]),
            decreases DIM - j,
        {
            linha.push(a[i].multiplica(b[j]));
            j += 1;
        }
        assert(linha@ =~= produto_externo_spec(a@, b@)[i as int]);
        resultante.push(linha);
        i += 1;
    }
    assert(matriz_spec(&resultante) =~= produto_externo_spec(a@, b@));
    resultante
}

/// The terms of entry `(i, j)` of the product of `a` and `b`.
pub open spec fn termos_prod_matriz<S: Escalar>(
    a: Seq<Seq<S>>,
    b: Seq<Seq<S>>,
    i: int,
    j: int,
) -> spec_fn(int) -> S {
    |k: int| a[i][k].multiplica_spec(b[k][j])
}

/// The product of two matrices, each entry summed from the first term on.
pub open spec fn prod_matriz_spec<S: Escalar>(a: Seq<Seq<S>>, b: Seq<Seq<S>>) -> Seq<Seq<S>> {
    Seq::new(
        a.len(),
        |i: int|
            Seq::new(
                b[0].len(),
                |j: int| somatorio(termos_prod_matriz(a, b, i, j), b.len() as int),
            ),
    )
}

/// Product of two matrices: as many rows as `a`, as many columns as the first row of `b`.
pub fn prod_matriz<S: Escalar>(a: &Vec<Vec<S>>, b: &Vec<Vec<S>>) -> (r: Vec<Vec<S>>)
    requires
        b.len() > 0,
        forall|i: int| 0 <= i < a.len() ==> (#[trigger] a[i]).len() >= b.len(),
        forall|k: int| 0 <= k < b.len() ==> (#[trigger] b[k]).len() >= b[0].len(),
    ensures
        matriz_spec(&r) == prod_matriz_spec(matriz_spec(a), matriz_spec(b)),
{
    let colunas = b[0].len();
    let mut resultante: Vec<Vec<S>> = Vec::new();
    let mut i: usize = 0;
    while i < a.len()
        invariant
            i <= a.len(),
            b.len() > 0,
            colunas == b[0].len(),
            forall|i: int| 0 <= i < a.len() ==> (#[trigger] a[i]).len() >= b.len(),
            forall|k: int| 0 <= k < b.len() ==> (#[trigger] b[k]).len() >= b[0].len(),
            resultante.len() == i,
            forall|l: int|
                0 <= l < i ==> (#[trigger] resultante[l])@ == prod_matriz_spec(
                    matriz_spec(a),
                    matriz_spec(b),
                )[l],
        decreases a.len() - i,
    {
        let mut linha: Vec<S> = Vec::new();
        let mut j: usize = 0;
        while j < colunas
            invariant
                i < a.len(),
                j <= colunas,
                b.len() > 0,
                colunas == b[0].len(),
                a[i as int].len() >= b.len(),
                forall|k: int| 0 <= k < b.len() ==> (#[trigger] b[k]).len() >= b[0].len(),
                linha.len() == j,
                forall|c: int|
                    0 <= c < j ==> #[trigger] linha[c] == somatorio(
                        termos_prod_matriz(matriz_spec(a), matriz_spec(b), i as int, c),
                        b.len() as int,
                    ),
            decreases colunas - j,
        {
            let mut soma = zero::<S>();
            let mut k: usize = 0;
            while k < b.len()
                invariant
                    i < a.len(),
                    j < colunas,
                    k <= b.len(),
                    colunas == b[0].len(),
                    a[i as int].len() >= b.len(),
                    forall|k: int| 0 <= k < b.len() ==> (#[trigger] b[k]).len() >= b[0].len(),
                    soma == somatorio(
                        termos_prod_matriz(matriz_spec(a), matriz_spec(b), i as int, j as int),
                        k as int,
                    ),
                decreases b.len() - k,
            {
                soma = soma.soma(a[i][k].multiplica(b[k][j]));
                k += 1;
            }
            linha.push(soma);
            j += 1;
        }
        assert(linha@ =~= prod_matriz_spec(matriz_spec(a), matriz_spec(b))[i as int]);
        resultante.push(linha);
        i += 1;
    }
    assert(matriz_spec(&resultante) =~= prod_matriz_spec(matriz_spec(a), matriz_spec(b)));
    resultante
}

/// Whether the matrix has at least `DIM` rows of at least `DIM` items each.
pub open spec fn cobre_o_espaco<S>(m: Seq<Seq<S>>) -> bool {
    &&& m.len() >= DIM
    &&& forall|i: int| 0 <= i < m.len() ==> (#[trigger] m[i]).len() >= DIM
}

/// Whether the matrix is square of order `DIM`.
pub open spec fn quadrada<S>(m: Seq<Seq<S>>) -> bool {
    &&& m.len() == DIM
    &&& forall|i: int| 0 <= i < DIM ==> (#[trigger] m[i]).len() == DIM
}

/// Tests whether the matrix is square of order `DIM`.
pub fn e_quadrada<S>(m: &Vec<Vec<S>>) -> (r: bool)
    ensures
        r == quadrada(matriz_spec(m)),
{
    if m.len() != DIM {
        return false;
    }
    let mut i: usize = 0;
    while i < DIM
        invariant
            i <= DIM,
            m.len() == DIM,
            forall|k: int| 0 <= k < i ==> (#[trigger] matriz_spec(m)[k]).len() == DIM,
        decreases DIM - i,
    {
        if m[i].len() != DIM {
            assert(matriz_spec(m)[i as int].len() != DIM);
            return false;
        }
        i += 1;
    }
    true
}

/// The matrix applied to a point: the inner product of each of the first `DIM` rows with it.
pub open spec fn produto_matriz_vetor_spec<S: Escalar>(
    matriz: Seq<Seq<S>>,
    vetor: Seq<S>,
) -> Seq<S> {
    Seq::new(DIM as nat, |i: int| produto_interno_spec(matriz[i], vetor))
}

/// Applies a matrix to a point.
pub fn produto_matriz_vetor<S: Escalar>(matriz: &Vec<Vec<S>>, vetor: &Ponto<S>) -> (r: Ponto<S>)
    requires
        cobre_o_espaco(matriz_spec(matriz)),
    ensures
        r@ == produto_matriz_vetor_spec(matriz_spec(matriz), vetor@),
{
    let mut r: Ponto<S> = [zero::<S>();DIM];
    let mut i: usize = 0;
    while i < DIM
        invariant
            i <= DIM,
            cobre_o_espaco(matriz_spec(matriz)),
            forall|l: int| 0 <= l < i ==> r[l] == produto_interno_spec(matriz[l]@, vetor@),
        decreases DIM - i,
    {
        assert(matriz_spec(matriz)[i as int].len() >= DIM);
        let mut soma = zero::<S>();
        let mut k: usize = 0;
        while k < DIM
            invariant
                i < DIM,
                k <= DIM,
                matriz.len() >= DIM,
                matriz[i as int].len() >= DIM,
                soma == somatorio(termos_produto(matriz[i as int]@, vetor@), k as int),
            decreases DIM - k,
        {
            soma = soma.soma(matriz[i][k].multiplica(vetor[k]));
            k += 1;
        }
        r[i] = soma;
        i += 1;
    }
    assert(r@ =~= produto_matriz_vetor_spec(matriz_spec(matriz), vetor@));
    r
}

/// The factor of the first correction of the quasi-Newton update: one over `y . s`.
pub open spec fn bfgs_alpha<S: Escalar>(s: Seq<S>, y: Seq<S>) -> S {
    um_spec::<S>().divide_spec(produto_interno_spec(y, s))
}

/// The factor of the second correction: minus one over `s . (H s)`.
pub open spec fn bfgs_beta<S: Escalar>(h: Seq<Seq<S>>, s: Seq<S>) -> S {
    menos_um_spec::<S>().divide_spec(produto_interno_spec(s, produto_matriz_vetor_spec(h, s)))
}

/// Entry `(i, j)` of the updated approximation: that of `H`, plus the sum of the two
/// corrections `alpha (y y^T)` and `beta (H s)(H s)^T`.
pub open spec fn bfgs_entrada<S: Escalar>(
    h: Seq<Seq<S>>,
    s: Seq<S>,
    y: Seq<S>,
    i: int,
    j: int,
) -> S {
    let v = produto_matriz_vetor_spec(h, s);
    h[i][j].soma_spec(
        bfgs_alpha(s, y).multiplica_spec(y[i].multiplica_spec(y[j])).soma_spec(
            bfgs_beta(h, s).multiplica_spec(v[i].multiplica_spec(v[j])),
        ),
    )
}

/// The updated approximation.
pub open spec fn bfgs_spec<S: Escalar>(h: Seq<Seq<S>>, s: Seq<S>, y: Seq<S>) -> Seq<Seq<S>> {
    Seq::new(DIM as nat, |i: int| Seq::new(DIM as nat, |j: int| bfgs_entrada(h, s, y, i, j)))
}

/// The quasi-Newton update of the approximation `hessiana` of the Hessian, from the step
/// `s` that was taken and the change `y` of the gradient along it. It divides by `y . s`
/// and by `s . (H s)` whatever they are; `atualizar_hessiana` skips the update where one
/// of them counts as zero.
pub fn bfgs<S: Escalar>(hessiana: Vec<Vec<S>>, s: Ponto<S>, y: Ponto<S>) -> (r: Vec<Vec<S>>)
    requires
        quadrada(matriz_spec(&hessiana)),
    ensures
        matriz_spec(&r) == bfgs_spec(matriz_spec(&hessiana), s@, y@),
        quadrada(matriz_spec(&r)),
{
    let b_s = produto_matriz_vetor(&hessiana, &s);
    let alpha = um::<S>().divide(produto_interno(&y, &s));
    let beta = menos_um::<S>().divide(produto_interno(&s, &b_s));
    let alpha_uut = matriz_por_escalar(alpha, produto_externo(y, y));
    let beta_vvt = matriz_por_escalar(beta, produto_externo(b_s, b_s));
    let correcao = soma_matriz(&alpha_uut, &beta_vvt);
    let hessiana_atualizada = soma_matriz(&hessiana, &correcao);
    proof {
        let h = matriz_spec(&hessiana);
        let r = matriz_spec(&hessiana_atualizada);
        assert(r.len() == DIM);
        assert forall|i: int| 0 <= i < DIM implies #[trigger] r[i] =~= bfgs_spec(h, s@, y@)[i] by {
            assert(h[i].len() == DIM);
        }
        assert(r =~= bfgs_spec(h, s@, y@));
    }
    hessiana_atualizada
}

/// A symmetric matrix: entry `(i, j)` equals entry `(j, i)`.
pub open spec fn simetrica<S>(m: Seq<Seq<S>>) -> bool {
    forall|i: int, j: int| 0 <= i < DIM && 0 <= j < DIM ==> #[trigger] m[i][j] == m[j][i]
}

/// The update of a symmetric approximation is symmetric, whatever the step and the change
/// of the gradient.
pub proof fn lei_bfgs_simetrica<S: Escalar>(h: Seq<Seq<S>>, s: Seq<S>, y: Seq<S>)
    requires
        quadrada(h),
        simetrica(h),
    ensures
        quadrada(bfgs_spec(h, s, y)),
        simetrica(bfgs_spec(h, s, y)),
{
    let r = bfgs_spec(h, s, y);
    let v = produto_matriz_vetor_spec(h, s);
    assert forall|i: int, j: int| 0 <= i < DIM && 0 <= j < DIM implies #[trigger] r[i][j]
        == r[j][i] by {
        S::lei_multiplica_comutativa(y[i], y[j]);
        S::lei_multiplica_comutativa(v[i], v[j]);
        assert(h[i][j] == h[j][i]);
        assert(r[i][j] == bfgs_entrada(h, s, y, i, j));
        assert(r[j][i] == bfgs_entrada(h, s, y, j, i));
    }
}

/// Whether the update would divide by a number that counts as zero: `y . s` or
/// `s . (H s)` is closer to zero than `eps`.
pub open spec fn curvatura_degenerada<S: Escalar>(
    h: Seq<Seq<S>>,
    s: Seq<S>,
    y: Seq<S>,
    eps: S,
) -> bool {
    ||| quase_zero(produto_interno_spec(y, s), eps)
    ||| quase_zero(produto_interno_spec(s, produto_matriz_vetor_spec(h, s)), eps)
}

/// The approximation after a step: the quasi-Newton update, or the approximation as it
/// was where the update would divide by a number that counts as zero.
pub open spec fn hessiana_atualizada<S: Escalar>(
    h: Seq<Seq<S>>,
    s: Seq<S>,
    y: Seq<S>,
    eps: S,
) -> Seq<Seq<S>> {
    if curvatura_degenerada(h, s, y, eps) {
        h
    } else {
        bfgs_spec(h, s, y)
    }
}

/// Updates the approximation of the Hessian from the step `s` and the change `y` of the
/// gradient, and keeps it as it is where the update is degenerate.
pub fn atualizar_hessiana<S: Escalar>(
    hessiana: Vec<Vec<S>>,
    s: Ponto<S>,
    y: Ponto<S>,
    config: &Configuracao<S>,
) -> (r: Vec<Vec<S>>)
    requires
        quadrada(matriz_spec(&hessiana)),
    ensures
        matriz_spec(&r) == hessiana_atualizada(matriz_spec(&hessiana), s@, y@, config.eps),
        quadrada(matriz_spec(&r)),
{
    let b_s = produto_matriz_vetor(&hessiana, &s);
    if prox_o_suficiente_de_zero(produto_interno(&y, &s), config) || prox_o_suficiente_de_zero(
        produto_interno(&s, &b_s),
        config,
    ) {
        return hessiana;
    }
    bfgs(hessiana, s, y)
}

/// A symmetric approximation stays symmetric after every step, updated or kept.
pub proof fn lei_hessiana_simetrica<S: Escalar>(h: Seq<Seq<S>>, s: Seq<S>, y: Seq<S>, eps: S)
    requires
        quadrada(h),
        simetrica(h),
    ensures
        quadrada(hessiana_atualizada(h, s, y, eps)),
        simetrica(hessiana_atualizada(h, s, y, eps)),
{
    lei_bfgs_simetrica(h, s, y);
}

} // verus!
