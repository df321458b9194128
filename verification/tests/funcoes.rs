//! The Lagrangians, the merit function, the test of stationarity and the update of the
//! trust region, on the fixed-point scalar.

use scp::defs::{Configuracao, Funcao, MultiplicadoresDeLagrange, Problema};
use scp::escalar::{menor_ou_igual, Escalar};
use scp::fixo::Fixo;
use scp::funcao_merito::{
    derivada_direcional_g, derivada_direcional_h, gerar_derivada_direcional_funcao_merito,
    gerar_funcao_merito, verificacao_funcao_merito,
};
use scp::lagrangianas::{lagrangiana, lagrangiana_penalizada};
use scp::ponto_estacionario::checar_ponto_estacionario;
use scp::regiao_de_confianca::verificar_regiao_de_confianca;
use scp::utils::avancar;

fn fx(n: i64) -> Fixo {
    Fixo::de_razao(n, 1)
}

fn fr(num: i64, den: i64) -> Fixo {
    Fixo::de_razao(num, den)
}

fn linha(valores: &[i64]) -> Vec<Fixo> {
    valores.iter().map(|v| fx(*v)).collect()
}

fn config() -> Configuracao<Fixo> {
    Configuracao::padrao(fr(1, 10000), fr(9, 10), fr(1, 1000))
}

fn multiplicadores(lambdas: &[i64], mus: &[i64]) -> MultiplicadoresDeLagrange<Fixo> {
    MultiplicadoresDeLagrange { lambdas: linha(lambdas), mus: linha(mus) }
}

struct Fun(fn([Fixo; 2]) -> Fixo);

impl Funcao<Fixo> for Fun {
    fn valor(&self, x: [Fixo; 2]) -> Fixo {
        (self.0)(x)
    }

    fn avaliar(&self, x: [Fixo; 2]) -> Fixo {
        (self.0)(x)
    }
}

/// Minimise `3 x0 + 4 x1` subject to `2 x0 - x1 - 5 <= 0`, `x0 + 3 x1 + 7 = 0` and
/// `x0 - 1 = 0`. At `(4, 0)` the objective is 12 and the constraints are 3, 11 and 3.
fn problema_afim() -> Problema<Fixo, Fun> {
    Problema::novo(
        Fun(|x| fx(3).multiplica(x[0]).soma(fx(4).multiplica(x[1]))),
        vec![Fun(|x| fx(2).multiplica(x[0]).subtrai(x[1]).subtrai(fx(5)))],
        vec![Fun(|x| x[0].soma(fx(3).multiplica(x[1])).soma(fx(7))), Fun(|x| x[0].subtrai(fx(1)))],
        [fx(-4), fx(-4)],
        [fx(4), fx(4)],
    )
}

/// Minimise `x0^2 + x1^2` subject to `-x0 <= 0` and `x0 + x1 - 2 = 0`.
fn problema_quadratico() -> Problema<Fixo, Fun> {
    Problema::novo(
        Fun(|x| x[0].multiplica(x[0]).soma(x[1].multiplica(x[1]))),
        vec![Fun(|x| x[0].oposto())],
        vec![Fun(|x| x[0].soma(x[1]).subtrai(fx(2)))],
        [fx(-4), fx(-4)],
        [fx(4), fx(4)],
    )
}

/// Minimise `x0^2 + x1^2`, with no constraint.
fn problema_livre() -> Problema<Fixo, Fun> {
    Problema::novo(
        Fun(|x| x[0].multiplica(x[0]).soma(x[1].multiplica(x[1]))),
        Vec::new(),
        Vec::new(),
        [fx(-4), fx(-4)],
        [fx(4), fx(4)],
    )
}

#[test]
fn problema_guarda_o_que_recebe() {
    let mut p = problema_afim();
    assert_eq!(p.mi(), 1);
    assert_eq!(p.me(), 2);
    assert_eq!(p.d_l, [fx(-4), fx(-4)]);
    assert_eq!(p.d_u, [fx(4), fx(4)]);
    p.atualizar_regiao_de_confianca([fx(-1), fx(-2)], [fx(3), fx(4)]);
    assert_eq!(p.d_l, [fx(-1), fx(-2)]);
    assert_eq!(p.d_u, [fx(3), fx(4)]);
    assert_eq!(p.mi(), 1);
    assert_eq!(p.me(), 2);
}

#[test]
fn avaliacao_do_problema() {
    let p = problema_afim();
    let (f, grad_f, g, h, grads_g, grads_h) = p.avaliar_em([fx(4), fx(0)], &config());
    assert_eq!(f, fx(12));
    assert_eq!(grad_f, [fx(3), fx(4)]);
    assert_eq!(g, linha(&[3]));
    assert_eq!(h, linha(&[11, 3]));
    assert_eq!(grads_g, vec![[fx(2), fx(-1)]]);
    assert_eq!(grads_h, vec![[fx(1), fx(3)], [fx(1), fx(0)]]);
}

#[test]
fn valor_da_lagrangiana() {
    let p = problema_afim();
    let m = multiplicadores(&[2], &[-1, 5]);
    assert_eq!(lagrangiana(&p, &m).avaliar([fx(4), fx(0)]), fx(12 + 6 - 11 + 15));
}

#[test]
fn lagrangiana_com_menos_multiplicadores() {
    let p = problema_afim();
    let m = multiplicadores(&[], &[-1]);
    assert_eq!(lagrangiana(&p, &m).avaliar([fx(4), fx(0)]), fx(12 - 11));
}

#[test]
fn valor_da_lagrangiana_penalizada() {
    let p = problema_afim();
    let m = multiplicadores(&[2], &[-1, 2]);
    let c = config();
    // 12 + 2 * 3 + (11 + 6) + 0.7055 * (2 * 9) + 0.7055 * (1 * 121 + 2 * 9)
    let esperado = fx(35).soma(fr(7055, 10000).multiplica(fx(18))).soma(
        fr(7055, 10000).multiplica(fx(139)),
    );
    assert_eq!(lagrangiana_penalizada(&p, &m, c.rho).avaliar([fx(4), fx(0)]), esperado);
    assert_eq!(esperado, fr(1457635, 10000));
}

#[test]
fn lagrangiana_penalizada_ignora_desigualdade_satisfeita() {
    let p = problema_afim();
    let m = multiplicadores(&[2], &[0, 0]);
    // At (0, 0) the inequality constraint is -5.
    assert_eq!(lagrangiana_penalizada(&p, &m, config().rho).avaliar([fx(0), fx(0)]), fx(0));
}

#[test]
fn valor_da_funcao_de_merito() {
    let p = problema_afim();
    let m = multiplicadores(&[-2], &[-1, 2]);
    let c = config();
    // 12 + 2.001 * 3 + 1.001 * 11 + 2.001 * 3
    let merito = gerar_funcao_merito(&p, &m, &c);
    assert_eq!(merito.avaliar([fx(4), fx(0)]), fr(35017, 1000));
    // At (0, 0): 0 + 2.001 * 0 + 1.001 * 7 + 2.001 * 1
    assert_eq!(merito.avaliar([fx(0), fx(0)]), fr(9008, 1000));
}

#[test]
fn derivada_direcional_de_desigualdade() {
    let c = config();
    let d = [fx(1), fx(0)];
    let sobe = Fun(|x| x[0]);
    let desce = Fun(|x| x[0].oposto());
    assert_eq!(derivada_direcional_g(d, &sobe, [fx(2), fx(0)], &c), fx(1));
    assert_eq!(derivada_direcional_g(d, &desce, [fx(-2), fx(0)], &c), fx(-1));
    assert_eq!(derivada_direcional_g(d, &sobe, [fx(0), fx(0)], &c), fx(1));
    assert_eq!(derivada_direcional_g(d, &desce, [fx(0), fx(0)], &c), fx(0));
    assert_eq!(derivada_direcional_g(d, &sobe, [fx(-2), fx(0)], &c), fx(0));
}

#[test]
fn derivada_direcional_de_igualdade() {
    let c = config();
    let d = [fx(1), fx(0)];
    let sobe = Fun(|x| x[0]);
    let desce = Fun(|x| x[0].oposto());
    assert_eq!(derivada_direcional_h(d, &sobe, [fx(2), fx(0)], &c), fx(1));
    assert_eq!(derivada_direcional_h(d, &desce, [fx(-2), fx(0)], &c), fx(-1));
    assert_eq!(derivada_direcional_h(d, &desce, [fx(0), fx(0)], &c), fx(1));
    assert_eq!(derivada_direcional_h(d, &sobe, [fx(-2), fx(0)], &c), fx(-1));
    assert_eq!(derivada_direcional_h(d, &desce, [fx(2), fx(0)], &c), fx(1));
}

#[test]
fn derivada_direcional_da_funcao_de_merito() {
    let p = problema_afim();
    let m = multiplicadores(&[2], &[-1, 0]);
    let c = config();
    let derivada = gerar_derivada_direcional_funcao_merito([fx(1), fx(0)], &p, &m, &c);
    // 3 + 2.001 * 2 + 1.001 * 1 + 0.001 * 1
    assert_eq!(derivada.avaliar([fx(4), fx(0)]), fr(8004, 1000));
    // At (0, 0) the constraints are -5, 7 and -1: 3 + 0 + 1.001 * 1 + 0.001 * (-1)
    assert_eq!(derivada.avaliar([fx(0), fx(0)]), fx(4));
}

#[test]
fn ponto_de_teste_aceito() {
    let p = problema_livre();
    let m = multiplicadores(&[], &[]);
    let x = verificacao_funcao_merito(
        &p,
        [fx(0), fx(0)],
        [fx(1), fx(0)],
        fx(1),
        [fx(-1), fx(0)],
        &m,
        &config(),
    );
    assert_eq!(x, [fx(0), fx(0)]);
}

#[test]
fn ponto_de_teste_que_aumenta_o_merito_e_trocado() {
    let p = problema_livre();
    let m = multiplicadores(&[], &[]);
    let c = config();
    let x = verificacao_funcao_merito(
        &p,
        [fx(3), fx(0)],
        [fx(1), fx(0)],
        fx(1),
        [fx(-1), fx(0)],
        &m,
        &c,
    );
    // The search goes as far as the step size 0.99.
    assert_eq!(x, [fr(1, 100), fx(0)]);
}

#[test]
fn ponto_de_teste_com_descida_insuficiente_e_trocado() {
    let p = problema_livre();
    let m = multiplicadores(&[], &[]);
    let mut c = config();
    c.sigma = fx(1);
    // From (1, 0) along (-1, 0) the merit falls by 0.75 at (0.5, 0), less than the
    // 0.5 * 2 = 1 that the test asks for.
    let x = verificacao_funcao_merito(
        &p,
        [fr(1, 2), fx(0)],
        [fx(1), fx(0)],
        fr(1, 2),
        [fx(-1), fx(0)],
        &m,
        &c,
    );
    // The search goes as far as the step size 0.99.
    assert_eq!(x, [fr(1, 100), fx(0)]);
}

#[test]
fn ponto_de_teste_com_derivada_baixa_demais_e_trocado() {
    let p = problema_livre();
    let m = multiplicadores(&[], &[]);
    let mut c = config();
    c.eta = fr(1, 10);
    // The derivative along (-1, 0) is -2 at (1, 0) and -1.8 at (0.9, 0), below
    // 0.1 * (-2).
    let x = verificacao_funcao_merito(
        &p,
        [fr(9, 10), fx(0)],
        [fx(1), fx(0)],
        fr(1, 10),
        [fx(-1), fx(0)],
        &m,
        &c,
    );
    // The search goes as far as the step size 0.99.
    assert_eq!(x, [fr(1, 100), fx(0)]);
}

#[test]
fn ponto_trocado_tem_o_menor_merito_da_busca() {
    let p = problema_quadratico();
    let m = multiplicadores(&[1], &[-2]);
    let c = config();
    let atual = [fx(3), fr(1, 2)];
    let d = [fx(-4), fr(1, 3)];
    let x = verificacao_funcao_merito(&p, [fx(9), fx(9)], atual, fx(1), d, &m, &c);
    let merito = gerar_funcao_merito(&p, &m, &c);
    let melhor = merito.avaliar(x);
    assert!(menor_ou_igual(melhor, merito.avaliar(atual)));
    for k in 1..100 {
        let candidato = avancar(atual, Fixo::de_razao(k, 100), d);
        assert!(menor_ou_igual(melhor, merito.avaliar(candidato)), "{}", k);
    }
}

#[test]
fn ponto_estacionario_reconhecido() {
    let p = problema_quadratico();
    let c = config();
    assert!(checar_ponto_estacionario(&p, &[fx(1), fx(1)], &multiplicadores(&[0], &[-2]), &c));
}

#[test]
fn multiplicador_negativo_nao_e_estacionario() {
    let p = problema_quadratico();
    let c = config();
    assert!(!checar_ponto_estacionario(&p, &[fx(1), fx(1)], &multiplicadores(&[-1], &[-2]), &c));
}

#[test]
fn desigualdade_violada_nao_e_estacionario() {
    let p = problema_quadratico();
    let c = config();
    assert!(!checar_ponto_estacionario(&p, &[fx(-1), fx(3)], &multiplicadores(&[0], &[-2]), &c));
}

#[test]
fn igualdade_violada_nao_e_estacionario() {
    let p = problema_quadratico();
    let c = config();
    assert!(!checar_ponto_estacionario(
        &p,
        &[fx(1), Fixo { bruto: 1_000_000_000_001 }],
        &multiplicadores(&[0], &[-2]),
        &c
    ));
}

#[test]
fn igualdade_e_folga_valem_ate_a_tolerancia() {
    let p = problema_quadratico();
    let mut c = config();
    c.eps = fr(1, 1000);
    let x = [fx(1), fr(10005, 10000)];
    let m = MultiplicadoresDeLagrange {
        lambdas: vec![fr(1, 10000)],
        mus: vec![fr(-20005, 10000)],
    };
    assert!(checar_ponto_estacionario(&p, &x, &m, &c));
    assert!(!checar_ponto_estacionario(&p, &x, &m, &config()));
    let folgado = MultiplicadoresDeLagrange {
        lambdas: vec![fr(1, 1000)],
        mus: vec![fr(-20005, 10000)],
    };
    assert!(!checar_ponto_estacionario(&p, &x, &folgado, &c));
    let longe = [fx(1), fr(1001, 1000)];
    assert!(!checar_ponto_estacionario(&p, &longe, &m, &c));
}

#[test]
fn folga_nao_complementar_nao_e_estacionario() {
    let p = problema_quadratico();
    let c = config();
    assert!(!checar_ponto_estacionario(&p, &[fx(1), fx(1)], &multiplicadores(&[1], &[-2]), &c));
}

#[test]
fn gradiente_nao_nulo_nao_e_estacionario() {
    let p = problema_quadratico();
    let c = config();
    assert!(!checar_ponto_estacionario(&p, &[fx(2), fx(0)], &multiplicadores(&[0], &[-2]), &c));
    assert!(!checar_ponto_estacionario(&p, &[fx(1), fx(1)], &multiplicadores(&[0], &[-1]), &c));
}

#[test]
fn desigualdade_ativa_com_multiplicador_positivo() {
    // Minimise x0 + x1 subject to -x0 <= 0 and x1 = 0: at the origin, lambda = 1 and mu = -1.
    let p = Problema::novo(
        Fun(|x| x[0].soma(x[1])),
        vec![Fun(|x| x[0].oposto())],
        vec![Fun(|x| x[1])],
        [fx(-4), fx(-4)],
        [fx(4), fx(4)],
    );
    let c = config();
    assert!(checar_ponto_estacionario(&p, &[fx(0), fx(0)], &multiplicadores(&[1], &[-1]), &c));
    assert!(!checar_ponto_estacionario(&p, &[fx(0), fx(0)], &multiplicadores(&[0], &[-1]), &c));
}

#[test]
fn checagem_repetida_da_a_mesma_resposta() {
    let p = problema_quadratico();
    let c = config();
    for (x, lambda, mu) in [
        ([fx(1), fx(1)], 0, -2),
        ([fx(1), fx(1)], 1, -2),
        ([fx(2), fx(0)], 0, -2),
        ([fx(-1), fx(3)], 0, 5),
    ] {
        let m = multiplicadores(&[lambda], &[mu]);
        let primeira = checar_ponto_estacionario(&p, &x, &m, &c);
        let segunda = checar_ponto_estacionario(&p, &x, &m, &c);
        assert_eq!(primeira, segunda);
    }
}

#[test]
fn regiao_fica_onde_o_movimento_e_medio() {
    let p = problema_livre();
    let (d_l, d_u) =
        verificar_regiao_de_confianca(&p, &[fx(2), fx(1)], &[fx(0), fx(1)], &config());
    assert_eq!(d_l, [fx(-4), fx(-4)]);
    assert_eq!(d_u, [fx(4), fx(4)]);
    let (d_l, d_u) =
        verificar_regiao_de_confianca(&p, &[fx(1), fx(1)], &[fx(0), fx(1)], &config());
    assert_eq!(d_l, [fx(-4), fx(-4)]);
    assert_eq!(d_u, [fx(4), fx(4)]);
    let (d_l, d_u) =
        verificar_regiao_de_confianca(&p, &[fx(3), fx(1)], &[fx(0), fx(1)], &config());
    assert_eq!(d_l, [fx(-4), fx(-4)]);
    assert_eq!(d_u, [fx(4), fx(4)]);
}

#[test]
fn regiao_encolhe_com_movimento_pequeno() {
    let p = problema_livre();
    let (d_l, d_u) =
        verificar_regiao_de_confianca(&p, &[fr(1, 2), fx(1)], &[fx(0), fx(1)], &config());
    assert_eq!(d_l, [fx(-2), fx(-2)]);
    assert_eq!(d_u, [fx(2), fx(2)]);
}

#[test]
fn regiao_cresce_com_movimento_grande() {
    let p = problema_livre();
    let (d_l, d_u) =
        verificar_regiao_de_confianca(&p, &[fx(0), fx(-3)], &[fx(0), fx(1)], &config());
    assert_eq!(d_l, [fx(-8), fx(-8)]);
    assert_eq!(d_u, [fx(8), fx(8)]);
}

#[test]
fn regiao_se_fecha_sem_movimento() {
    let p = problema_livre();
    let (d_l, d_u) =
        verificar_regiao_de_confianca(&p, &[fx(1), fx(1)], &[fx(1), fx(1)], &config());
    assert_eq!(d_l, [fx(0), fx(0)]);
    assert_eq!(d_u, [fx(0), fx(0)]);
}

#[test]
fn regiao_usa_a_maior_razao_entre_as_coordenadas() {
    let mut p = problema_livre();
    p.atualizar_regiao_de_confianca([fx(-1), fx(-8)], [fx(4), fx(2)]);
    // Ratios: max(-2 / -1, -2 / 4) = 2 and max(1 / -8, 1 / 2) = 0.5; the factor is 4.
    let (d_l, d_u) =
        verificar_regiao_de_confianca(&p, &[fx(-2), fx(1)], &[fx(0), fx(0)], &config());
    assert_eq!(d_l, [fx(-4), fx(-32)]);
    assert_eq!(d_u, [fx(16), fx(8)]);
}

#[test]
fn regiao_atualizada_continua_ordenada() {
    let p = problema_livre();
    let c = config();
    for novo in [[fx(0), fx(0)], [fr(1, 3), fr(-1, 7)], [fx(5), fx(-9)], [fr(-7, 2), fx(2)]] {
        let (d_l, d_u) = verificar_regiao_de_confianca(&p, &novo, &[fr(1, 10), fr(1, 5)], &c);
        assert!(menor_ou_igual(d_l[0], d_u[0]) && menor_ou_igual(d_l[1], d_u[1]));
    }
}

#[test]
fn regiao_que_nao_contem_zero_pode_se_inverter() {
    let mut p = problema_livre();
    p.atualizar_regiao_de_confianca([fx(1), fx(1)], [fx(2), fx(2)]);
    // Both ratios of each coordinate are negative: the largest is -0.5 and the factor -2.
    let (d_l, d_u) =
        verificar_regiao_de_confianca(&p, &[fx(-1), fx(-1)], &[fx(0), fx(0)], &config());
    assert_eq!(d_l, [fx(-2), fx(-2)]);
    assert_eq!(d_u, [fx(-4), fx(-4)]);
}
