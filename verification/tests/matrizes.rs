//! Matrices and the quasi-Newton update, on the fixed-point scalar.

use scp::defs::{Configuracao, OP};
use scp::escalar::Escalar;
use scp::fixo::Fixo;
use scp::iter_nao_linear::identidade;
use scp::utils::{
    _subtracao_matriz, atualizar_hessiana, bfgs, e_quadrada, matriz_por_escalar,
    op_direta_matriz, prod_matriz, produto_externo, produto_matriz_vetor, soma_matriz,
    transpor_matriz,
};

fn fx(n: i64) -> Fixo {
    Fixo::de_razao(n, 1)
}

fn fr(num: i64, den: i64) -> Fixo {
    Fixo::de_razao(num, den)
}

fn matriz(linhas: &[&[i64]]) -> Vec<Vec<Fixo>> {
    linhas.iter().map(|l| l.iter().map(|v| fx(*v)).collect()).collect()
}

fn config() -> Configuracao<Fixo> {
    Configuracao::padrao(fr(1, 10000), fr(9, 10), fr(1, 1000))
}

fn simetrica(m: &Vec<Vec<Fixo>>) -> bool {
    (0..2).all(|i| (0..2).all(|j| m[i][j] == m[j][i]))
}

#[test]
fn transposta_de_matriz_retangular() {
    let m = matriz(&[&[1, 2, 3], &[4, 5, 6]]);
    assert_eq!(transpor_matriz(&m), matriz(&[&[1, 4], &[2, 5], &[3, 6]]));
}

#[test]
fn transposta_de_linhas_curtas() {
    let m = matriz(&[&[1, 2, 3], &[4]]);
    assert_eq!(transpor_matriz(&m), matriz(&[&[1, 4], &[2], &[3]]));
}

#[test]
fn transposta_sem_colunas() {
    let m: Vec<Vec<Fixo>> = vec![Vec::new(), Vec::new()];
    assert_eq!(transpor_matriz(&m), Vec::<Vec<Fixo>>::new());
}

#[test]
fn soma_e_subtracao_de_matrizes() {
    let a = matriz(&[&[1, 2], &[3, 4]]);
    let b = matriz(&[&[10, 20], &[30, 40]]);
    assert_eq!(op_direta_matriz(&a, &b, OP::ADD), matriz(&[&[11, 22], &[33, 44]]));
    assert_eq!(op_direta_matriz(&a, &b, OP::SUB), matriz(&[&[-9, -18], &[-27, -36]]));
    assert_eq!(soma_matriz(&a, &b), matriz(&[&[11, 22], &[33, 44]]));
    assert_eq!(_subtracao_matriz(&b, &a), matriz(&[&[9, 18], &[27, 36]]));
}

#[test]
fn matriz_vezes_numero() {
    let a = matriz(&[&[1, -2], &[3]]);
    assert_eq!(matriz_por_escalar(fx(3), a), matriz(&[&[3, -6], &[9]]));
}

#[test]
fn produto_externo_de_dois_pontos() {
    assert_eq!(produto_externo([fx(1), fx(2)], [fx(3), fx(4)]), matriz(&[&[3, 4], &[6, 8]]));
}

#[test]
fn produto_de_matrizes() {
    let a = matriz(&[&[1, 2], &[3, 4]]);
    let b = matriz(&[&[5, 6], &[7, 8]]);
    assert_eq!(prod_matriz(&a, &b), matriz(&[&[19, 22], &[43, 50]]));
    let coluna = matriz(&[&[5], &[6]]);
    assert_eq!(prod_matriz(&a, &coluna), matriz(&[&[17], &[39]]));
}

#[test]
fn matriz_aplicada_a_ponto() {
    let a = matriz(&[&[1, 2], &[3, 4]]);
    assert_eq!(produto_matriz_vetor(&a, &[fx(5), fx(6)]), [fx(17), fx(39)]);
}

#[test]
fn matriz_identidade() {
    assert_eq!(identidade::<Fixo>(), matriz(&[&[1, 0], &[0, 1]]));
}

#[test]
fn atualizacao_ao_longo_de_um_eixo() {
    let h = bfgs(identidade(), [fx(1), fx(0)], [fx(2), fx(0)]);
    assert_eq!(h, matriz(&[&[2, 0], &[0, 1]]));
}

#[test]
fn atualizacao_com_terceiros() {
    let h = bfgs(identidade(), [fx(1), fx(1)], [fx(1), fx(2)]);
    let esperado = vec![
        vec![Fixo { bruto: 833_333_333_333 }, Fixo { bruto: 166_666_666_666 }],
        vec![Fixo { bruto: 166_666_666_666 }, Fixo { bruto: 1_833_333_333_332 }],
    ];
    assert_eq!(h, esperado);
}

#[test]
fn atualizacao_mantem_a_simetria() {
    let mut h = identidade::<Fixo>();
    let passos = [
        ([fx(1), fx(1)], [fx(1), fx(2)]),
        ([fr(1, 3), fx(-2)], [fr(7, 5), fr(-1, 9)]),
        ([fx(5), fr(1, 7)], [fx(-3), fx(11)]),
        ([fr(-2, 3), fr(4, 9)], [fr(1, 11), fr(13, 3)]),
    ];
    for (s, y) in passos {
        h = bfgs(h, s, y);
        assert!(simetrica(&h), "{:?}", h);
    }
}

#[test]
fn atualizacao_degenerada_e_pulada() {
    let h = matriz(&[&[2, 1], &[1, 3]]);
    let c = config();
    assert_eq!(atualizar_hessiana(h.clone(), [fx(0), fx(0)], [fx(1), fx(2)], &c), h);
    assert_eq!(atualizar_hessiana(h.clone(), [fx(1), fx(0)], [fx(0), fx(1)], &c), h);
}

#[test]
fn atualizacao_regular_e_a_do_metodo() {
    let c = config();
    let h = atualizar_hessiana(identidade(), [fx(1), fx(0)], [fx(2), fx(0)], &c);
    assert_eq!(h, matriz(&[&[2, 0], &[0, 1]]));
    let mut g = identidade::<Fixo>();
    for (s, y) in [([fx(1), fx(1)], [fx(1), fx(2)]), ([fx(0), fx(0)], [fx(1), fx(1)])] {
        g = atualizar_hessiana(g, s, y, &c);
        assert!(simetrica(&g));
    }
}

#[test]
fn matriz_quadrada() {
    assert!(e_quadrada(&matriz(&[&[1, 2], &[3, 4]])));
    assert!(!e_quadrada(&matriz(&[&[1, 2], &[3]])));
    assert!(!e_quadrada(&matriz(&[&[1, 2]])));
    assert!(!e_quadrada(&matriz(&[&[1, 2], &[3, 4], &[5, 6]])));
    assert!(!e_quadrada(&matriz(&[&[1, 2, 3], &[4, 5, 6]])));
    assert!(!e_quadrada(&matriz(&[])));
}
