//! The numbers the solver computes with.
//!
//! Every routine of the library is written over a scalar type that implements
//! [`Escalar`]. Each operation has a specification twin (`soma_spec` for `soma`,
//! and so on) that names its result, so that contracts can say exactly which
//! operations were applied and in which order. The laws at the end of the trait
//! are the only facts about the arithmetic that the proofs of the library use:
//! they are laws of exact arithmetic, and a scalar with rounding or with values
//! that are not numbers meets them only where those do not interfere.

use vstd::prelude::*;

verus! {

pub trait Escalar: Copy + Sized {
    /// The scalar that stands for the fraction `num / den`.
    spec fn de_razao_spec(num: i64, den: i64) -> Self;

    fn de_razao(num: i64, den: i64) -> (r: Self)
        requires
            den > 0,
        ensures
            r == Self::de_razao_spec(num, den),
    ;

    spec fn soma_spec(self, outro: Self) -> Self;

    fn soma(self, outro: Self) -> (r: Self)
        ensures
            r == self.soma_spec(outro),
    ;

    spec fn subtrai_spec(self, outro: Self) -> Self;

    fn subtrai(self, outro: Self) -> (r: Self)
        ensures
            r == self.subtrai_spec(outro),
    ;

    spec fn multiplica_spec(self, outro: Self) -> Self;

    fn multiplica(self, outro: Self) -> (r: Self)
        ensures
            r == self.multiplica_spec(outro),
    ;

    /// Division is total: what a division by zero gives is up to the scalar.
    spec fn divide_spec(self, outro: Self) -> Self;

    fn divide(self, outro: Self) -> (r: Self)
        ensures
            r == self.divide_spec(outro),
    ;

    spec fn oposto_spec(self) -> Self;

    fn oposto(self) -> (r: Self)
        ensures
            r == self.oposto_spec(),
    ;

    spec fn modulo_spec(self) -> Self;

    fn modulo(self) -> (r: Self)
        ensures
            r == self.modulo_spec(),
    ;

    /// Square root; total, like division.
    spec fn raiz_spec(self) -> Self;

    fn raiz(self) -> (r: Self)
        ensures
            r == self.raiz_spec(),
    ;

    spec fn menor_spec(self, outro: Self) -> bool;

    fn menor(self, outro: Self) -> (r: bool)
        ensures
            r == self.menor_spec(outro),
    ;

    spec fn igual_spec(self, outro: Self) -> bool;

    fn igual(self, outro: Self) -> (r: bool)
        ensures
            r == self.igual_spec(outro),
    ;

    /// Multiplication does not depend on the order of its factors.
    proof fn lei_multiplica_comutativa(a: Self, b: Self)
        ensures
            a.multiplica_spec(b) == b.multiplica_spec(a),
    ;

    /// A step of size zero does not move: `a + 0 * b` is `a`.
    proof fn lei_passo_nulo(a: Self, b: Self)
        ensures
            a.soma_spec(Self::de_razao_spec(0, 1).multiplica_spec(b)) == a,
    ;

    /// Nothing is strictly below itself.
    proof fn lei_menor_irreflexiva(a: Self)
        ensures
            !a.menor_spec(a),
    ;

    /// Strict order is transitive.
    proof fn lei_menor_transitiva(a: Self, b: Self, c: Self)
        requires
            a.menor_spec(b),
            b.menor_spec(c),
        ensures
            a.menor_spec(c),
    ;

    /// Any two scalars compare: if `a` is not below `b`, then `b` is below or equal to `a`.
    proof fn lei_ordem_total(a: Self, b: Self)
        requires
            !a.menor_spec(b),
        ensures
            b.menor_spec(a) || b.igual_spec(a),
    ;

    /// "Below or equal" is transitive.
    proof fn lei_menor_ou_igual_transitiva(a: Self, b: Self, c: Self)
        requires
            a.menor_spec(b) || a.igual_spec(b),
            b.menor_spec(c) || b.igual_spec(c),
        ensures
            a.menor_spec(c) || a.igual_spec(c),
    ;

    /// Zero is below one.
    proof fn lei_zero_menor_que_um()
        ensures
            Self::de_razao_spec(0, 1).menor_spec(Self::de_razao_spec(1, 1)),
    ;

    /// The sum of two non-negative scalars is not negative.
    proof fn lei_soma_nao_negativa(a: Self, b: Self)
        requires
            Self::de_razao_spec(0, 1).menor_spec(a) || Self::de_razao_spec(0, 1).igual_spec(a),
            Self::de_razao_spec(0, 1).menor_spec(b) || Self::de_razao_spec(0, 1).igual_spec(b),
        ensures
            Self::de_razao_spec(0, 1).menor_spec(a.soma_spec(b))
                || Self::de_razao_spec(0, 1).igual_spec(a.soma_spec(b)),
    ;

    /// A fraction of a non-negative numerator and a positive denominator is not negative.
    proof fn lei_razao_nao_negativa(num: i64, den: i64)
        requires
            num >= 0,
            den > 0,
        ensures
            Self::de_razao_spec(0, 1).menor_spec(Self::de_razao_spec(num, den))
                || Self::de_razao_spec(0, 1).igual_spec(Self::de_razao_spec(num, den)),
    ;

    /// The product of two non-negative scalars is not negative.
    proof fn lei_produto_nao_negativo(a: Self, b: Self)
        requires
            Self::de_razao_spec(0, 1).menor_spec(a) || Self::de_razao_spec(0, 1).igual_spec(a),
            Self::de_razao_spec(0, 1).menor_spec(b) || Self::de_razao_spec(0, 1).igual_spec(b),
        ensures
            Self::de_razao_spec(0, 1).menor_spec(a.multiplica_spec(b))
                || Self::de_razao_spec(0, 1).igual_spec(a.multiplica_spec(b)),
    ;

    /// Multiplying by a non-negative scalar keeps the order.
    proof fn lei_multiplica_monotona(e: Self, a: Self, b: Self)
        requires
            Self::de_razao_spec(0, 1).menor_spec(e) || Self::de_razao_spec(0, 1).igual_spec(e),
            a.menor_spec(b) || a.igual_spec(b),
        ensures
            e.multiplica_spec(a).menor_spec(e.multiplica_spec(b))
                || e.multiplica_spec(a).igual_spec(e.multiplica_spec(b)),
    ;

    /// A non-negative scalar divided by a positive one is not negative.
    proof fn lei_quociente_de_positivos(a: Self, b: Self)
        requires
            Self::de_razao_spec(0, 1).menor_spec(a) || Self::de_razao_spec(0, 1).igual_spec(a),
            Self::de_razao_spec(0, 1).menor_spec(b),
        ensures
            Self::de_razao_spec(0, 1).menor_spec(a.divide_spec(b))
                || Self::de_razao_spec(0, 1).igual_spec(a.divide_spec(b)),
    ;

    /// A non-positive scalar divided by a negative one is not negative.
    proof fn lei_quociente_de_negativos(a: Self, b: Self)
        requires
            a.menor_spec(Self::de_razao_spec(0, 1)) || a.igual_spec(Self::de_razao_spec(0, 1)),
            b.menor_spec(Self::de_razao_spec(0, 1)),
        ensures
            Self::de_razao_spec(0, 1).menor_spec(a.divide_spec(b))
                || Self::de_razao_spec(0, 1).igual_spec(a.divide_spec(b)),
    ;
}

/// Zero, as the scalar type writes it.
pub open spec fn zero_spec<S: Escalar>() -> S {
    S::de_razao_spec(0, 1)
}

/// One, as the scalar type writes it.
pub open spec fn um_spec<S: Escalar>() -> S {
    S::de_razao_spec(1, 1)
}

/// Minus one: the opposite of one.
pub open spec fn menos_um_spec<S: Escalar>() -> S {
    um_spec::<S>().oposto_spec()
}

/// `a` is below `b` or equal to it.
pub open spec fn menor_ou_igual_spec<S: Escalar>(a: S, b: S) -> bool {
    a.menor_spec(b) || a.igual_spec(b)
}

/// Zero.
pub fn zero<S: Escalar>() -> (r: S)
    ensures
        r == zero_spec::<S>(),
{
    S::de_razao(0, 1)
}

/// One.
pub fn um<S: Escalar>() -> (r: S)
    ensures
        r == um_spec::<S>(),
{
    S::de_razao(1, 1)
}

/// Minus one.
pub fn menos_um<S: Escalar>() -> (r: S)
    ensures
        r == menos_um_spec::<S>(),
{
    um::<S>().oposto()
}

/// Whether `a` is below `b` or equal to it.
pub fn menor_ou_igual<S: Escalar>(a: S, b: S) -> (r: bool)
    ensures
        r == menor_ou_igual_spec(a, b),
{
    a.menor(b) || a.igual(b)
}

} // verus!
