//! A scalar with exact arithmetic: decimal fixed point with twelve decimal places, in a
//! 64-bit word, saturating at the ends of its range.

use crate::defs::Configuracao;
use crate::escalar::Escalar;
use crate::utils::quase_zero;
use vstd::prelude::*;

verus! {

/// How many units of the last decimal place make one.
pub const ESCALA: i64 = 1_000_000_000_000;

/// The number `bruto / ESCALA`.
#[derive(Clone, Copy, Debug, PartialEq, Eq, Structural)]
pub struct Fixo {
    pub bruto: i64,
}

/// `v`, or the end of the range of a 64-bit word that is nearest to it.
pub open spec fn saturado(v: int) -> i64 {
    if v < i64::MIN {
        i64::MIN
    } else if v > i64::MAX {
        i64::MAX
    } else {
        v as i64
    }
}

/// The absolute value of `v`.
pub open spec fn magnitude(v: int) -> int {
    if v >= 0 {
        v
    } else {
        -v
    }
}

/// The quotient of `a` by `b` rounded toward zero; zero where `b` is zero.
pub open spec fn quociente(a: int, b: int) -> int {
    if b == 0 {
        0
    } else if (a >= 0) == (b > 0) {
        magnitude(a) / magnitude(b)
    } else {
        -(magnitude(a) / magnitude(b))
    }
}

/// Whether `r` is the integer part of the square root of `n`.
pub open spec fn e_raiz_inteira(n: int, r: int) -> bool {
    r >= 0 && r * r <= n < (r + 1) * (r + 1)
}

/// The integer part of the square root of `n`.
pub open spec fn raiz_inteira(n: int) -> int {
    choose|r: int| e_raiz_inteira(n, r)
}

proof fn lema_raiz_unica(n: int, r1: int, r2: int)
    requires
        e_raiz_inteira(n, r1),
        e_raiz_inteira(n, r2),
    ensures
        r1 == r2,
{
    if r1 < r2 {
        assert((r1 + 1) * (r1 + 1) <= r2 * r2) by (nonlinear_arith)
            requires
                0 <= r1 + 1 <= r2,
        ;
    } else if r2 < r1 {
        assert((r2 + 1) * (r2 + 1) <= r1 * r1) by (nonlinear_arith)
            requires
                0 <= r2 + 1 <= r1,
        ;
    }
}

fn saturar(v: i128) -> (r: i64)
    ensures
        r == saturado(v as int),
{
    if v < i64::MIN as i128 {
        i64::MIN
    } else if v > i64::MAX as i128 {
        i64::MAX
    } else {
        v as i64
    }
}

/// The largest magnitude that the quotient is computed for.
pub open spec fn limite_do_quociente() -> int {
    0x4000_0000_0000_0000_0000_0000_0000_0000
}

fn dividir(a: i128, b: i128) -> (r: i128)
    requires
        -limite_do_quociente() <= a <= limite_do_quociente(),
        -limite_do_quociente() <= b <= limite_do_quociente(),
    ensures
        r == quociente(a as int, b as int),
{
    if b == 0 {
        return 0;
    }
    let ma: u128 = if a >= 0 {
        a as u128
    } else {
        (-a) as u128
    };
    let mb: u128 = if b >= 0 {
        b as u128
    } else {
        (-b) as u128
    };
    let q: u128 = ma / mb;
    assert(0 <= q <= ma) by {
        vstd::arithmetic::div_mod::lemma_div_is_ordered_by_denominator(ma as int, 1, mb as int);
        vstd::arithmetic::div_mod::lemma_div_pos_is_pos(ma as int, mb as int);
    }
    if (a >= 0) == (b > 0) {
        q as i128
    } else {
        -(q as i128)
    }
}

fn raiz_de(n: u128) -> (r: u128)
    requires
        n < 0x1_0000_0000_0000_0000_0000_0000_00,
    ensures
        e_raiz_inteira(n as int, r as int),
        r < 0x10_0000_0000_0000,
{
    let mut lo: u128 = 0;
    let mut hi: u128 = 0x10_0000_0000_0000;
    assert(0x10_0000_0000_0000 * 0x10_0000_0000_0000 == 0x1_0000_0000_0000_0000_0000_0000_00int)
        by (nonlinear_arith);
    while hi - lo > 1
        invariant
            lo < hi <= 0x10_0000_0000_0000,
            lo * lo <= n < hi * hi,
        decreases hi - lo,
    {
        let mid = lo + (hi - lo) / 2;
        assert(mid * mid <= 0x10_0000_0000_0000 * 0x10_0000_0000_0000) by (nonlinear_arith)
            requires
                0 <= mid <= 0x10_0000_0000_0000,
        ;
        if mid * mid <= n {
            lo = mid;
        } else {
            hi = mid;
        }
    }
    lo
}

impl Escalar for Fixo {
    open spec fn de_razao_spec(num: i64, den: i64) -> Self {
        Fixo { bruto: saturado(quociente(num * ESCALA, den as int)) }
    }

    fn de_razao(num: i64, den: i64) -> (r: Self) {
        assert(-limite_do_quociente() <= num * ESCALA <= limite_do_quociente()) by (nonlinear_arith)
            requires
                i64::MIN <= num <= i64::MAX,
                ESCALA == 1_000_000_000_000,
        ;
        let produto: i128 = (num as i128) * (ESCALA as i128);
        Fixo { bruto: saturar(dividir(produto, den as i128)) }
    }

    open spec fn soma_spec(self, outro: Self) -> Self {
        Fixo { bruto: saturado(self.bruto + outro.bruto) }
    }

    fn soma(self, outro: Self) -> (r: Self) {
        Fixo { bruto: saturar(self.bruto as i128 + outro.bruto as i128) }
    }

    open spec fn subtrai_spec(self, outro: Self) -> Self {
        Fixo { bruto: saturado(self.bruto - outro.bruto) }
    }

    fn subtrai(self, outro: Self) -> (r: Self) {
        Fixo { bruto: saturar(self.bruto as i128 - outro.bruto as i128) }
    }

    open spec fn multiplica_spec(self, outro: Self) -> Self {
        Fixo { bruto: saturado(quociente(self.bruto * outro.bruto, ESCALA as int)) }
    }

    fn multiplica(self, outro: Self) -> (r: Self) {
        assert(-limite_do_quociente() <= self.bruto * outro.bruto <= limite_do_quociente())
            by (nonlinear_arith)
            requires
                i64::MIN <= self.bruto <= i64::MAX,
                i64::MIN <= outro.bruto <= i64::MAX,
        ;
        let produto: i128 = (self.bruto as i128) * (outro.bruto as i128);
        Fixo { bruto: saturar(dividir(produto, ESCALA as i128)) }
    }

    open spec fn divide_spec(self, outro: Self) -> Self {
        Fixo { bruto: saturado(quociente(self.bruto * ESCALA, outro.bruto as int)) }
    }

    fn divide(self, outro: Self) -> (r: Self) {
        assert(-limite_do_quociente() <= self.bruto * ESCALA <= limite_do_quociente())
            by (nonlinear_arith)
            requires
                i64::MIN <= self.bruto <= i64::MAX,
                ESCALA == 1_000_000_000_000,
        ;
        let produto: i128 = (self.bruto as i128) * (ESCALA as i128);
        Fixo { bruto: saturar(dividir(produto, outro.bruto as i128)) }
    }

    open spec fn oposto_spec(self) -> Self {
        Fixo { bruto: saturado(-self.bruto) }
    }

    fn oposto(self) -> (r: Self) {
        Fixo { bruto: saturar(-(self.bruto as i128)) }
    }

    open spec fn modulo_spec(self) -> Self {
        Fixo { bruto: saturado(magnitude(self.bruto as int)) }
    }

    fn modulo(self) -> (r: Self) {
        if self.bruto >= 0 {
            self
        } else {
            Fixo { bruto: saturar(-(self.bruto as i128)) }
        }
    }

    open spec fn raiz_spec(self) -> Self {
        if self.bruto <= 0 {
            Fixo { bruto: 0 }
        } else {
            Fixo { bruto: saturado(raiz_inteira(self.bruto * ESCALA)) }
        }
    }

    fn raiz(self) -> (r: Self) {
        if self.bruto <= 0 {
            return Fixo { bruto: 0 };
        }
        let n: u128 = (self.bruto as u128) * (ESCALA as u128);
        let raiz = raiz_de(n);
        proof {
            assert(e_raiz_inteira(n as int, raiz_inteira(n as int)));
            lema_raiz_unica(n as int, raiz as int, raiz_inteira(n as int));
        }
        Fixo { bruto: saturar(raiz as i128) }
    }

    open spec fn menor_spec(self, outro: Self) -> bool {
        self.bruto < outro.bruto
    }

    fn menor(self, outro: Self) -> (r: bool) {
        self.bruto < outro.bruto
    }

    open spec fn igual_spec(self, outro: Self) -> bool {
        self.bruto == outro.bruto
    }

    fn igual(self, outro: Self) -> (r: bool) {
        self.bruto == outro.bruto
    }

    proof fn lei_multiplica_comutativa(a: Self, b: Self) {
        assert(a.bruto * b.bruto == b.bruto * a.bruto) by (nonlinear_arith);
    }

    proof fn lei_passo_nulo(a: Self, b: Self) {
        assert(0 * ESCALA == 0);
        assert(0 * b.bruto == 0);
    }

    proof fn lei_menor_irreflexiva(a: Self) {
    }

    proof fn lei_menor_transitiva(a: Self, b: Self, c: Self) {
    }

    proof fn lei_ordem_total(a: Self, b: Self) {
    }

    proof fn lei_menor_ou_igual_transitiva(a: Self, b: Self, c: Self) {
    }

    proof fn lei_zero_menor_que_um() {
        assert(0 * ESCALA == 0);
        assert(1 * ESCALA == 1_000_000_000_000);
        assert(1_000_000_000_000int / 1 == 1_000_000_000_000) by (nonlinear_arith);
    }

    proof fn lei_soma_nao_negativa(a: Self, b: Self) {
        assert(0 * ESCALA == 0);
    }

    proof fn lei_razao_nao_negativa(num: i64, den: i64) {
        assert(0 * ESCALA == 0);
        assert(num * ESCALA >= 0) by (nonlinear_arith)
            requires
                num >= 0,
        ;
        lema_quociente_nao_negativo(num * ESCALA, den as int);
    }

    proof fn lei_produto_nao_negativo(a: Self, b: Self) {
        assert(0 * ESCALA == 0);
        assert(a.bruto * b.bruto >= 0) by (nonlinear_arith)
            requires
                a.bruto >= 0,
                b.bruto >= 0,
        ;
        lema_quociente_nao_negativo(a.bruto * b.bruto, ESCALA as int);
    }

    proof fn lei_multiplica_monotona(e: Self, a: Self, b: Self) {
        assert(0 * ESCALA == 0);
        assert(e.bruto * a.bruto <= e.bruto * b.bruto) by (nonlinear_arith)
            requires
                e.bruto >= 0,
                a.bruto <= b.bruto,
        ;
        lema_quociente_monotono(e.bruto * a.bruto, e.bruto * b.bruto, ESCALA as int);
    }

    proof fn lei_quociente_de_positivos(a: Self, b: Self) {
        assert(0 * ESCALA == 0);
        assert(a.bruto * ESCALA >= 0) by (nonlinear_arith)
            requires
                a.bruto >= 0,
        ;
        lema_quociente_nao_negativo(a.bruto * ESCALA, b.bruto as int);
    }

    proof fn lei_quociente_de_negativos(a: Self, b: Self) {
        assert(0 * ESCALA == 0);
        assert(a.bruto * ESCALA <= 0) by (nonlinear_arith)
            requires
                a.bruto <= 0,
        ;
        let x = a.bruto * ESCALA;
        let y = b.bruto as int;
        if x < 0 {
            vstd::arithmetic::div_mod::lemma_div_pos_is_pos(magnitude(x), magnitude(y));
        } else {
            assert(magnitude(x) / magnitude(y) == 0);
        }
    }
}

/// With this scalar, the configuration with the constants of the method has a positive
/// shrink threshold.
pub proof fn lema_padrao_com_regiao_valida(sigma: Fixo, eta: Fixo, incremento: Fixo)
    ensures
        Configuracao::<Fixo>::padrao_spec(sigma, eta, incremento).regiao_valida(),
{
    assert(0 * ESCALA == 0);
    assert(quociente(0, 1) == 0);
    assert(1 * ESCALA == 1_000_000_000_000);
    assert(1_000_000_000_000int / 4 == 250_000_000_000) by (nonlinear_arith);
}

/// With this scalar, the tolerance of the method is one unit of the last decimal place,
/// and only zero is closer to zero than it: what the method tests up to the tolerance, it
/// tests exactly.
pub proof fn lema_tolerancia_exata(sigma: Fixo, eta: Fixo, incremento: Fixo, v: Fixo)
    ensures
        Configuracao::<Fixo>::padrao_spec(sigma, eta, incremento).eps == (Fixo { bruto: 1 }),
        quase_zero(v, Fixo { bruto: 1 }) <==> v.bruto == 0,
{
    assert(0 * ESCALA == 0);
    assert(quociente(0, 1) == 0);
    assert(1 * ESCALA == 1_000_000_000_000);
    assert(1_000_000_000_000int / 1_000_000_000_000 == 1) by (nonlinear_arith);
}

/// A quotient of a non-negative number by a positive one is not negative.
proof fn lema_quociente_nao_negativo(a: int, b: int)
    requires
        a >= 0,
        b > 0,
    ensures
        quociente(a, b) >= 0,
{
    vstd::arithmetic::div_mod::lemma_div_pos_is_pos(a, b);
}

/// Rounding toward zero keeps the order of the quotients by a positive number.
proof fn lema_quociente_monotono(x: int, y: int, b: int)
    requires
        x <= y,
        b > 0,
    ensures
        quociente(x, b) <= quociente(y, b),
{
    if x >= 0 {
        vstd::arithmetic::div_mod::lemma_div_is_ordered(x, y, b);
    } else if y >= 0 {
        vstd::arithmetic::div_mod::lemma_div_pos_is_pos(-x, b);
        vstd::arithmetic::div_mod::lemma_div_pos_is_pos(y, b);
    } else {
        vstd::arithmetic::div_mod::lemma_div_is_ordered(-y, -x, b);
    }
}

} // verus!
