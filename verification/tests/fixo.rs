//! The fixed-point scalar.

use scp::escalar::{menor_ou_igual, menos_um, um, zero, Escalar};
use scp::fixo::{Fixo, ESCALA};

fn bruto(b: i64) -> Fixo {
    Fixo { bruto: b }
}

#[test]
fn escala_tem_doze_casas() {
    assert_eq!(ESCALA, 1_000_000_000_000);
}

#[test]
fn de_razao_e_exata_nas_constantes() {
    assert_eq!(Fixo::de_razao(1, 1_000_000_000_000), bruto(1));
    assert_eq!(Fixo::de_razao(7055, 10000), bruto(705_500_000_000));
    assert_eq!(Fixo::de_razao(3, 4), bruto(750_000_000_000));
    assert_eq!(Fixo::de_razao(1, 4), bruto(250_000_000_000));
    assert_eq!(Fixo::de_razao(1, 100), bruto(10_000_000_000));
    assert_eq!(Fixo::de_razao(2, 1), bruto(2_000_000_000_000));
}

#[test]
fn de_razao_arredonda_para_zero() {
    assert_eq!(Fixo::de_razao(1, 3), bruto(333_333_333_333));
    assert_eq!(Fixo::de_razao(-1, 3), bruto(-333_333_333_333));
    assert_eq!(Fixo::de_razao(1, 10_000_000_000_000), bruto(0));
}

#[test]
fn de_razao_satura() {
    assert_eq!(Fixo::de_razao(i64::MAX, 1), bruto(i64::MAX));
    assert_eq!(Fixo::de_razao(i64::MIN, 1), bruto(i64::MIN));
}

#[test]
fn zero_um_e_menos_um() {
    assert_eq!(zero::<Fixo>(), bruto(0));
    assert_eq!(um::<Fixo>(), bruto(ESCALA));
    assert_eq!(menos_um::<Fixo>(), bruto(-ESCALA));
}

#[test]
fn soma_e_subtracao() {
    assert_eq!(bruto(3).soma(bruto(4)), bruto(7));
    assert_eq!(bruto(3).subtrai(bruto(4)), bruto(-1));
    assert_eq!(bruto(i64::MAX).soma(bruto(1)), bruto(i64::MAX));
    assert_eq!(bruto(i64::MIN).subtrai(bruto(1)), bruto(i64::MIN));
    assert_eq!(bruto(i64::MIN).soma(bruto(i64::MIN)), bruto(i64::MIN));
}

#[test]
fn multiplicacao() {
    let tres_meios = Fixo::de_razao(3, 2);
    let meio = Fixo::de_razao(1, 2);
    assert_eq!(tres_meios.multiplica(meio), Fixo::de_razao(3, 4));
    assert_eq!(tres_meios.multiplica(meio.oposto()), Fixo::de_razao(-3, 4));
    assert_eq!(bruto(1).multiplica(bruto(1)), bruto(0));
    assert_eq!(bruto(-1).multiplica(bruto(999_999_999_999)), bruto(0));
    assert_eq!(bruto(i64::MAX).multiplica(bruto(i64::MAX)), bruto(i64::MAX));
    assert_eq!(bruto(i64::MAX).multiplica(bruto(i64::MIN)), bruto(i64::MIN));
}

#[test]
fn divisao() {
    assert_eq!(um::<Fixo>().divide(Fixo::de_razao(4, 1)), Fixo::de_razao(1, 4));
    assert_eq!(um::<Fixo>().divide(Fixo::de_razao(-4, 1)), Fixo::de_razao(-1, 4));
    assert_eq!(um::<Fixo>().divide(Fixo::de_razao(3, 1)), bruto(333_333_333_333));
    assert_eq!(menos_um::<Fixo>().divide(Fixo::de_razao(3, 1)), bruto(-333_333_333_333));
    assert_eq!(um::<Fixo>().divide(bruto(1)), bruto(i64::MAX));
}

#[test]
fn divisao_por_zero_da_zero() {
    assert_eq!(um::<Fixo>().divide(zero::<Fixo>()), zero::<Fixo>());
    assert_eq!(zero::<Fixo>().divide(zero::<Fixo>()), zero::<Fixo>());
}

#[test]
fn oposto_e_modulo() {
    assert_eq!(bruto(5).oposto(), bruto(-5));
    assert_eq!(bruto(-5).oposto(), bruto(5));
    assert_eq!(bruto(i64::MIN).oposto(), bruto(i64::MAX));
    assert_eq!(bruto(-5).modulo(), bruto(5));
    assert_eq!(bruto(5).modulo(), bruto(5));
    assert_eq!(bruto(i64::MIN).modulo(), bruto(i64::MAX));
}

#[test]
fn raiz_quadrada() {
    assert_eq!(Fixo::de_razao(4, 1).raiz(), Fixo::de_razao(2, 1));
    assert_eq!(Fixo::de_razao(25, 1).raiz(), Fixo::de_razao(5, 1));
    assert_eq!(Fixo::de_razao(1, 4).raiz(), Fixo::de_razao(1, 2));
    assert_eq!(Fixo::de_razao(2, 1).raiz(), bruto(1_414_213_562_373));
    assert_eq!(bruto(1).raiz(), bruto(1_000_000));
    assert_eq!(zero::<Fixo>().raiz(), zero::<Fixo>());
    assert_eq!(menos_um::<Fixo>().raiz(), zero::<Fixo>());
    assert_eq!(bruto(i64::MAX).raiz(), bruto(3_037_000_499_976_049));
}

#[test]
fn comparacoes() {
    assert!(bruto(1).menor(bruto(2)));
    assert!(!bruto(2).menor(bruto(2)));
    assert!(!bruto(3).menor(bruto(2)));
    assert!(bruto(2).igual(bruto(2)));
    assert!(!bruto(2).igual(bruto(3)));
    assert!(menor_ou_igual(bruto(2), bruto(2)));
    assert!(menor_ou_igual(bruto(1), bruto(2)));
    assert!(!menor_ou_igual(bruto(3), bruto(2)));
}

#[test]
fn multiplicacao_nao_depende_da_ordem() {
    for (a, b) in [(3, 7), (-5, 11), (i64::MAX, 2), (123_456_789_012_345, -987_654_321)] {
        assert_eq!(bruto(a).multiplica(bruto(b)), bruto(b).multiplica(bruto(a)));
    }
}

#[test]
fn passo_nulo_nao_move() {
    for (a, b) in [(3, 7), (-5, i64::MAX), (i64::MIN, i64::MIN)] {
        assert_eq!(bruto(a).soma(zero::<Fixo>().multiplica(bruto(b))), bruto(a));
    }
}
