//! The steps of the inner and of the outer iteration, on the fixed-point scalar, with the
//! answers of the engine written by hand.

use scp::defs::{Configuracao, Erro, FalhaLinear, Funcao, MultiplicadoresDeLagrange, Problema};
use scp::escalar::Escalar;
use scp::fixo::Fixo;
use scp::iter_linear::{
    iteracoes_lineares, programas_lineares, subproblema_linear, EstadoLinear, PassoLinear,
    ResultadoLinear,
};
use scp::iter_nao_linear::{
    identidade, iteracao_nao_linear, EstadoNaoLinear, Parada, PassoNaoLinear, LIMITE_DE_ITERACOES,
};
use scp::prob_linear::{Direcao, RespostaLinear};

fn fx(n: i64) -> Fixo {
    Fixo::de_razao(n, 1)
}

fn fr(num: i64, den: i64) -> Fixo {
    Fixo::de_razao(num, den)
}

fn linha(valores: &[i64]) -> Vec<Fixo> {
    valores.iter().map(|v| fx(*v)).collect()
}

fn config() -> Configuracao<Fixo> {
    Configuracao::padrao(fr(1, 10000), fr(9, 10), fr(1, 1000))
}

struct Fun(fn([Fixo; 2]) -> Fixo);

impl Funcao<Fixo> for Fun {
    fn valor(&self, x: [Fixo; 2]) -> Fixo {
        (self.0)(x)
    }

    fn avaliar(&self, x: [Fixo; 2]) -> Fixo {
        (self.0)(x)
    }
}

fn quadrados() -> Fun {
    Fun(|x| x[0].multiplica(x[0]).soma(x[1].multiplica(x[1])))
}

/// Minimise `x0^2 + x1^2`, with no constraint.
fn problema_livre() -> Problema<Fixo, Fun> {
    Problema::novo(quadrados(), Vec::new(), Vec::new(), [fx(-4), fx(-4)], [fx(4), fx(4)])
}

/// Minimise `x0^2 + x1^2` subject to `x0 + 5 <= 0`.
fn problema_violado() -> Problema<Fixo, Fun> {
    Problema::novo(
        quadrados(),
        vec![Fun(|x| x[0].soma(fx(5)))],
        Vec::new(),
        [fx(-4), fx(-4)],
        [fx(4), fx(4)],
    )
}

fn resposta(objetivo: i64, valores: &[i64]) -> RespostaLinear<Fixo> {
    Ok((fx(objetivo), linha(valores)))
}

fn inicio(x: [i64; 2]) -> EstadoLinear<Fixo> {
    EstadoLinear::novo([fx(x[0]), fx(x[1])], identidade())
}

fn terminado(passo: Result<PassoLinear<Fixo>, Erro>) -> ResultadoLinear<Fixo> {
    match passo {
        Ok(PassoLinear::Terminar(resultado)) => resultado,
        Ok(PassoLinear::Continuar(_)) => panic!("a iteração continua"),
        Err(erro) => panic!("{:?}", erro),
    }
}

fn continuado(passo: Result<PassoLinear<Fixo>, Erro>) -> EstadoLinear<Fixo> {
    match passo {
        Ok(PassoLinear::Continuar(estado)) => estado,
        Ok(PassoLinear::Terminar(_)) => panic!("a iteração terminou"),
        Err(erro) => panic!("{:?}", erro),
    }
}

fn erro_de(passo: Result<PassoLinear<Fixo>, Erro>) -> Erro {
    match passo {
        Err(erro) => erro,
        Ok(_) => panic!("o passo não falhou"),
    }
}

#[test]
fn estado_inicial() {
    let e = inicio([1, 2]);
    assert_eq!(e.ponto_atual, [fx(1), fx(2)]);
    assert_eq!(e.hessiana_atual, vec![linha(&[1, 0]), linha(&[0, 1])]);
    assert!(e.direcoes.is_empty());
    assert!(e.multiplicadores.lambdas.is_empty() && e.multiplicadores.mus.is_empty());
    assert_eq!(e.i, 1);
}

#[test]
fn programas_do_estado_inicial() {
    let p = problema_livre();
    let e = inicio([1, 1]);
    let c = config();
    let (a, b, custos) = subproblema_linear(&p, &e, &c);
    assert_eq!(a, vec![linha(&[1, 0]), linha(&[0, 1]), linha(&[-1, 0]), linha(&[0, -1])]);
    assert_eq!(b, linha(&[-4, -4, -4, -4]));
    assert_eq!(custos, linha(&[2, 2]));
    let (primal, dual) = programas_lineares(&p, &e, &c);
    assert_eq!(primal.direcao, Direcao::Minimizar);
    assert_eq!(primal.custos, custos);
    assert_eq!(primal.linhas, a);
    assert_eq!(primal.lados, b);
    assert_eq!(dual.direcao, Direcao::Maximizar);
    assert_eq!(dual.custos, b);
    assert_eq!(dual.linhas, vec![linha(&[1, 0, -1, 0]), linha(&[0, 1, 0, -1])]);
    assert_eq!(dual.lados, custos);
}

#[test]
fn passo_sem_restricoes_termina_no_primeiro_subproblema() {
    let p = problema_livre();
    let r = terminado(iteracoes_lineares(
        &p,
        inicio([1, 1]),
        resposta(-8, &[-2, -2]),
        resposta(-8, &[2, 2, 0, 0]),
        &config(),
    ));
    assert!(!r.estacionario);
    assert_eq!(r.ponto, [fx(0), fx(0)]);
    assert_eq!(r.direcao, [fx(-2), fx(-2)]);
    assert_eq!(r.alpha, fr(1, 2));
    assert!(r.tg.is_empty() && r.thp.is_empty() && r.thm.is_empty());
    assert!(r.multiplicadores.lambdas.is_empty() && r.multiplicadores.mus.is_empty());
    assert_eq!(r.hessiana, vec![vec![fr(3, 2), fr(1, 2)], vec![fr(1, 2), fr(3, 2)]]);
}

#[test]
fn passo_em_ponto_estacionario() {
    let p = problema_livre();
    let r = terminado(iteracoes_lineares(
        &p,
        inicio([0, 0]),
        resposta(0, &[3, 4]),
        resposta(0, &[0, 0, 0, 0]),
        &config(),
    ));
    assert!(r.estacionario);
    assert_eq!(r.ponto, [fx(0), fx(0)]);
    assert_eq!(r.direcao, [fx(3), fx(4)]);
    assert_eq!(r.alpha, fx(0));
    assert_eq!(r.hessiana, identidade::<Fixo>());
}

#[test]
fn passo_que_continua() {
    let p = problema_violado();
    let e = continuado(iteracoes_lineares(
        &p,
        inicio([1, 1]),
        resposta(7, &[-2, -2, 0]),
        resposta(7, &[0]),
        &config(),
    ));
    assert_eq!(e.i, 2);
    assert_eq!(e.ponto_atual, [fx(0), fx(0)]);
    assert_eq!(e.direcoes, vec![[fx(-2), fx(-2)]]);
    assert_eq!(e.multiplicadores.lambdas, linha(&[0]));
    assert!(e.multiplicadores.mus.is_empty());
    assert_eq!(e.hessiana_atual, vec![vec![fr(3, 2), fr(1, 2)], vec![fr(1, 2), fr(3, 2)]]);
}

#[test]
fn segundo_passo_para_com_folga_positiva() {
    let p = problema_violado();
    let c = config();
    let e = continuado(iteracoes_lineares(
        &p,
        inicio([1, 1]),
        resposta(7, &[-2, -2, 0]),
        resposta(7, &[0]),
        &c,
    ));
    let (a, _, _) = subproblema_linear(&p, &e, &c);
    // The rows of the direction already found: H d = (-4, -4), with the sign changed.
    assert_eq!(a[1], linha(&[4, 4, 0]));
    assert_eq!(a[2], linha(&[-4, -4, 0]));
    let r = terminado(iteracoes_lineares(
        &p,
        e,
        resposta(7, &[2, 0, 1]),
        resposta(7, &[0]),
        &c,
    ));
    assert!(!r.estacionario);
    assert_eq!(r.direcao, [fx(2), fx(0)]);
    assert_eq!(r.tg, linha(&[1]));
    // From the origin along (2, 0) the squares only grow: the step has size zero, and the
    // update of the approximation is skipped.
    assert_eq!(r.alpha, fx(0));
    assert_eq!(r.ponto, [fx(0), fx(0)]);
    assert_eq!(r.hessiana, vec![vec![fr(3, 2), fr(1, 2)], vec![fr(1, 2), fr(3, 2)]]);
}

#[test]
fn terceiro_passo_para_pela_contagem() {
    let p = problema_violado();
    let c = config();
    let mut e = EstadoLinear::novo([fx(1), fx(1)], identidade());
    e.i = 3;
    let r = terminado(iteracoes_lineares(
        &p,
        e,
        resposta(7, &[-2, -2, 0]),
        resposta(7, &[0]),
        &c,
    ));
    assert!(!r.estacionario);
    assert_eq!(r.ponto, [fx(0), fx(0)]);
    assert_eq!(r.alpha, fr(1, 2));
}

#[test]
fn passo_para_com_direcao_nula() {
    let p = problema_violado();
    let r = terminado(iteracoes_lineares(
        &p,
        inicio([1, 1]),
        resposta(7, &[0, 0, 0]),
        resposta(7, &[0]),
        &config(),
    ));
    assert!(!r.estacionario);
    assert_eq!(r.ponto, [fx(1), fx(1)]);
    assert_eq!(r.direcao, [fx(0), fx(0)]);
    assert_eq!(r.alpha, fx(0));
    assert_eq!(r.hessiana, identidade::<Fixo>());
}

#[test]
fn passo_quase_inteiro_so_para_com_tolerancia_larga() {
    let p = problema_violado();
    // The largest step size of the search is 0.99: with the tolerance of the method the
    // iteration goes on.
    let e = continuado(iteracoes_lineares(
        &p,
        inicio([1, 1]),
        resposta(7, &[-1, -1, 0]),
        resposta(7, &[0]),
        &config(),
    ));
    assert_eq!(e.ponto_atual, [fr(1, 100), fr(1, 100)]);
    let mut larga = config();
    larga.tol_passo = fr(2, 100);
    let r = terminado(iteracoes_lineares(
        &p,
        inicio([1, 1]),
        resposta(7, &[-1, -1, 0]),
        resposta(7, &[0]),
        &larga,
    ));
    assert!(!r.estacionario);
    assert_eq!(r.ponto, [fr(1, 100), fr(1, 100)]);
    assert_eq!(r.alpha, fr(99, 100));
}

#[test]
fn passo_para_sem_folga_ativa() {
    let p = problema_violado();
    let r = terminado(iteracoes_lineares(
        &p,
        inicio([1, 1]),
        resposta(7, &[-2, -2, 5]),
        resposta(7, &[0]),
        &config(),
    ));
    assert!(!r.estacionario);
    assert_eq!(r.ponto, [fx(0), fx(0)]);
    assert_eq!(r.alpha, fr(1, 2));
    assert_eq!(r.tg, linha(&[5]));
}

#[test]
fn engine_sem_solucao_do_subproblema() {
    let p = problema_violado();
    for falha in [FalhaLinear::Inviavel, FalhaLinear::Ilimitado] {
        let passo = iteracoes_lineares(&p, inicio([1, 1]), Err(falha), Err(falha), &config());
        assert_eq!(erro_de(passo), Erro::PrimalSemSolucao(falha));
        let passo =
            iteracoes_lineares(&p, inicio([1, 1]), Err(falha), resposta(7, &[0]), &config());
        assert_eq!(erro_de(passo), Erro::PrimalSemSolucao(falha));
    }
}

#[test]
fn engine_sem_solucao_do_dual() {
    let p = problema_violado();
    for falha in [FalhaLinear::Inviavel, FalhaLinear::Ilimitado] {
        let passo = iteracoes_lineares(
            &p,
            inicio([1, 1]),
            resposta(7, &[-2, -2, 0]),
            Err(falha),
            &config(),
        );
        assert_eq!(erro_de(passo), Erro::DualSemSolucao(falha));
    }
}

#[test]
fn valores_diferentes_violam_a_dualidade() {
    let p = problema_violado();
    let passo = iteracoes_lineares(
        &p,
        inicio([1, 1]),
        Ok((fx(7), linha(&[-2, -2, 0]))),
        Ok((Fixo { bruto: 7_000_000_001_000 }, linha(&[0]))),
        &config(),
    );
    assert_eq!(erro_de(passo), Erro::DualidadeViolada);
}

#[test]
fn valores_dentro_da_tolerancia_nao_violam_a_dualidade() {
    let p = problema_violado();
    let passo = iteracoes_lineares(
        &p,
        inicio([1, 1]),
        Ok((fx(7), linha(&[-2, -2, 0]))),
        Ok((Fixo { bruto: 6_999_999_999_001 }, linha(&[0]))),
        &config(),
    );
    assert!(passo.is_ok());
}

#[test]
fn solucoes_de_tamanho_errado() {
    let p = problema_violado();
    let passo = iteracoes_lineares(
        &p,
        inicio([1, 1]),
        resposta(7, &[-2, -2]),
        resposta(7, &[0]),
        &config(),
    );
    assert_eq!(erro_de(passo), Erro::DimensaoIncompativel);
    let passo = iteracoes_lineares(
        &p,
        inicio([1, 1]),
        resposta(7, &[-2, -2, 0]),
        resposta(7, &[]),
        &config(),
    );
    assert_eq!(erro_de(passo), Erro::DimensaoIncompativel);
}

fn resultado(ponto: [i64; 2], estacionario: bool) -> ResultadoLinear<Fixo> {
    ResultadoLinear {
        ponto: [fx(ponto[0]), fx(ponto[1])],
        direcao: [fx(-2), fx(-2)],
        tg: linha(&[0]),
        thp: Vec::new(),
        thm: Vec::new(),
        multiplicadores: MultiplicadoresDeLagrange { lambdas: linha(&[0]), mus: Vec::new() },
        hessiana: vec![vec![fr(3, 2), fr(1, 2)], vec![fr(1, 2), fr(3, 2)]],
        estacionario,
        alpha: fr(1, 2),
    }
}

fn estado_externo(x: [i64; 2], passos: &[[i64; 2]]) -> EstadoNaoLinear<Fixo> {
    EstadoNaoLinear {
        x: [fx(x[0]), fx(x[1])],
        hessiana: identidade(),
        passos_tomados: passos.iter().map(|p| linha(p)).collect(),
        k: passos.len() + 1,
    }
}

#[test]
fn estado_externo_inicial() {
    let e = EstadoNaoLinear::novo([fx(1), fx(2)]);
    assert_eq!(e.x, [fx(1), fx(2)]);
    assert_eq!(e.k, 1);
    assert!(e.passos_tomados.is_empty());
    assert_eq!(e.hessiana, identidade::<Fixo>());
    let linear = e.iniciar_iteracoes_lineares();
    assert_eq!(linear.ponto_atual, [fx(1), fx(2)]);
    assert_eq!(linear.hessiana_atual, identidade::<Fixo>());
    assert_eq!(linear.i, 1);
    assert!(linear.direcoes.is_empty());
    assert_eq!(LIMITE_DE_ITERACOES, 100);
}

#[test]
fn otimo_achado_pela_iteracao_interna() {
    let mut p = problema_violado();
    let passo = iteracao_nao_linear(
        &mut p,
        estado_externo([1, 1], &[]),
        resultado([7, 8], true),
        &config(),
    );
    match passo {
        PassoNaoLinear::Otimo(ponto, parada) => {
            assert_eq!(ponto, [fx(7), fx(8)]);
            assert_eq!(parada, Parada::SubiteracaoLinear);
        }
        _ => panic!("a iteração não parou"),
    }
    assert_eq!(p.d_l, [fx(-4), fx(-4)]);
    assert_eq!(p.d_u, [fx(4), fx(4)]);
}

#[test]
fn passo_externo_que_continua() {
    let mut p = problema_violado();
    let passo = iteracao_nao_linear(
        &mut p,
        estado_externo([1, 1], &[]),
        resultado([0, 0], false),
        &config(),
    );
    match passo {
        PassoNaoLinear::Continuar(e) => {
            assert_eq!(e.x, [fx(0), fx(0)]);
            assert_eq!(e.k, 2);
            assert_eq!(e.passos_tomados, vec![linha(&[0, 0])]);
            assert_eq!(e.hessiana, vec![vec![fr(3, 2), fr(1, 2)], vec![fr(1, 2), fr(3, 2)]]);
        }
        _ => panic!("a iteração não continuou"),
    }
    // The move was a quarter of the region: the region stays.
    assert_eq!(p.d_l, [fx(-4), fx(-4)]);
    assert_eq!(p.d_u, [fx(4), fx(4)]);
}

#[test]
fn passo_externo_atualiza_a_regiao() {
    let mut p = problema_violado();
    let passo = iteracao_nao_linear(
        &mut p,
        estado_externo([1, 1], &[]),
        ResultadoLinear { ponto: [fr(1, 2), fr(1, 2)], ..resultado([0, 0], false) },
        &config(),
    );
    assert!(matches!(passo, PassoNaoLinear::Continuar(_)));
    assert_eq!(p.d_l, [fx(-2), fx(-2)]);
    assert_eq!(p.d_u, [fx(2), fx(2)]);
}

#[test]
fn otimo_achado_pela_iteracao_externa() {
    let mut p = problema_livre();
    let r = ResultadoLinear {
        tg: Vec::new(),
        multiplicadores: MultiplicadoresDeLagrange { lambdas: Vec::new(), mus: Vec::new() },
        ..resultado([0, 0], false)
    };
    let passo = iteracao_nao_linear(&mut p, estado_externo([1, 1], &[]), r, &config());
    match passo {
        PassoNaoLinear::Otimo(ponto, parada) => {
            assert_eq!(ponto, [fx(0), fx(0)]);
            assert_eq!(parada, Parada::IteracaoNaoLinear);
        }
        _ => panic!("a iteração não parou"),
    }
}

#[test]
fn parada_por_passos_repetidos() {
    let mut p = problema_violado();
    let passo = iteracao_nao_linear(
        &mut p,
        estado_externo([1, 1], &[[0, 0], [0, 0]]),
        resultado([0, 0], false),
        &config(),
    );
    match passo {
        PassoNaoLinear::Otimo(ponto, parada) => {
            assert_eq!(ponto, [fx(0), fx(0)]);
            assert_eq!(parada, Parada::PassosRepetidos);
        }
        _ => panic!("a iteração não parou"),
    }
}

#[test]
fn dois_passos_nao_bastam_para_a_repeticao() {
    let mut p = problema_violado();
    let passo = iteracao_nao_linear(
        &mut p,
        estado_externo([1, 1], &[[0, 0]]),
        resultado([0, 0], false),
        &config(),
    );
    assert!(matches!(passo, PassoNaoLinear::Continuar(_)));
    let mut p = problema_violado();
    let passo = iteracao_nao_linear(
        &mut p,
        estado_externo([1, 1], &[[0, 1], [0, 0]]),
        resultado([0, 0], false),
        &config(),
    );
    assert!(matches!(passo, PassoNaoLinear::Continuar(_)));
}

#[test]
fn limite_de_iteracoes() {
    let mut p = problema_violado();
    let passos: Vec<[i64; 2]> = (0..98).map(|i| [i, 1]).collect();
    let passo = iteracao_nao_linear(
        &mut p,
        estado_externo([1, 1], &passos),
        resultado([0, 0], false),
        &config(),
    );
    assert!(matches!(passo, PassoNaoLinear::NaoEncontrado));
    let mut p = problema_violado();
    let passo = iteracao_nao_linear(
        &mut p,
        estado_externo([1, 1], &passos[..97]),
        resultado([0, 0], false),
        &config(),
    );
    match passo {
        PassoNaoLinear::Continuar(e) => assert_eq!(e.k, 99),
        _ => panic!("a iteração não continuou"),
    }
}

#[test]
fn validade_dos_estados() {
    let mut linear = inicio([1, 1]);
    assert!(linear.e_valido());
    linear.i = 3;
    assert!(linear.e_valido());
    linear.i = 4;
    assert!(!linear.e_valido());
    linear.i = 0;
    assert!(!linear.e_valido());
    linear.i = 1;
    linear.hessiana_atual = vec![linha(&[1, 0])];
    assert!(!linear.e_valido());

    assert!(estado_externo([1, 1], &[]).e_valido());
    assert!(estado_externo([1, 1], &[[0, 0], [1, 1]]).e_valido());
    let mut externo = estado_externo([1, 1], &[[0, 0]]);
    externo.k = 1;
    assert!(!externo.e_valido());
    externo.k = 2;
    externo.passos_tomados = vec![linha(&[0])];
    assert!(!externo.e_valido());
    let passos: Vec<[i64; 2]> = (0..99).map(|i| [i, 1]).collect();
    assert!(!estado_externo([1, 1], &passos).e_valido());
    assert!(estado_externo([1, 1], &passos[..98]).e_valido());
}

#[test]
fn validade_do_resultado() {
    let p = problema_violado();
    assert!(resultado([0, 0], false).e_valido(&p));
    assert!(!resultado([0, 0], false).e_valido(&problema_livre()));
    let sem_hessiana = ResultadoLinear { hessiana: Vec::new(), ..resultado([0, 0], false) };
    assert!(!sem_hessiana.e_valido(&p));
}

#[test]
fn passos_devolvem_resultados_validos() {
    let p = problema_violado();
    let c = config();
    let e = continuado(iteracoes_lineares(
        &p,
        inicio([1, 1]),
        resposta(7, &[-2, -2, 0]),
        resposta(7, &[0]),
        &c,
    ));
    assert!(e.e_valido());
    let r = terminado(iteracoes_lineares(&p, e, resposta(7, &[2, 0, 1]), resposta(7, &[0]), &c));
    assert!(r.e_valido(&p));
}
