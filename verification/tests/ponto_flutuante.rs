//! The solver on double-precision numbers, with an outside engine for the linear programs.

use scp::defs::{Configuracao, Erro, FalhaLinear, Funcao, MultiplicadoresDeLagrange, Problema};
use scp::escalar::Escalar;
use scp::iter_linear::{iteracoes_lineares, programas_lineares, PassoLinear, ResultadoLinear};
use scp::iter_nao_linear::{iteracao_nao_linear, EstadoNaoLinear, PassoNaoLinear};
use scp::ponto_estacionario::checar_ponto_estacionario;
use scp::prob_linear::{Direcao, Dominio, ProblemaLinear, Relacao, RespostaLinear};
use scp::utils::auto_grad;

#[derive(Clone, Copy, Debug, PartialEq)]
struct Num(f64);

impl Escalar for Num {
    fn de_razao_spec(num: i64, den: i64) -> Self {
        Num(num as f64 / den as f64)
    }
    fn de_razao(num: i64, den: i64) -> Self {
        Num(num as f64 / den as f64)
    }
    fn soma_spec(self, outro: Self) -> Self {
        Num(self.0 + outro.0)
    }
    fn soma(self, outro: Self) -> Self {
        Num(self.0 + outro.0)
    }
    fn subtrai_spec(self, outro: Self) -> Self {
        Num(self.0 - outro.0)
    }
    fn subtrai(self, outro: Self) -> Self {
        Num(self.0 - outro.0)
    }
    fn multiplica_spec(self, outro: Self) -> Self {
        Num(self.0 * outro.0)
    }
    fn multiplica(self, outro: Self) -> Self {
        Num(self.0 * outro.0)
    }
    fn divide_spec(self, outro: Self) -> Self {
        Num(self.0 / outro.0)
    }
    fn divide(self, outro: Self) -> Self {
        Num(self.0 / outro.0)
    }
    fn oposto_spec(self) -> Self {
        Num(-self.0)
    }
    fn oposto(self) -> Self {
        Num(-self.0)
    }
    fn modulo_spec(self) -> Self {
        Num(self.0.abs())
    }
    fn modulo(self) -> Self {
        Num(self.0.abs())
    }
    fn raiz_spec(self) -> Self {
        Num(self.0.sqrt())
    }
    fn raiz(self) -> Self {
        Num(self.0.sqrt())
    }
    fn menor_spec(self, outro: Self) -> bool {
        self.0 < outro.0
    }
    fn menor(self, outro: Self) -> bool {
        self.0 < outro.0
    }
    fn igual_spec(self, outro: Self) -> bool {
        self.0 == outro.0
    }
    fn igual(self, outro: Self) -> bool {
        self.0 == outro.0
    }
    fn lei_multiplica_comutativa(_a: Self, _b: Self) {}
    fn lei_passo_nulo(_a: Self, _b: Self) {}
    fn lei_menor_irreflexiva(_a: Self) {}
    fn lei_menor_transitiva(_a: Self, _b: Self, _c: Self) {}
    fn lei_ordem_total(_a: Self, _b: Self) {}
    fn lei_menor_ou_igual_transitiva(_a: Self, _b: Self, _c: Self) {}
    fn lei_zero_menor_que_um() {}
    fn lei_soma_nao_negativa(_a: Self, _b: Self) {}
    fn lei_razao_nao_negativa(_num: i64, _den: i64) {}
    fn lei_produto_nao_negativo(_a: Self, _b: Self) {}
    fn lei_multiplica_monotona(_e: Self, _a: Self, _b: Self) {}
    fn lei_quociente_de_positivos(_a: Self, _b: Self) {}
    fn lei_quociente_de_negativos(_a: Self, _b: Self) {}
}

type Ponto = [Num; 2];

struct Fun(fn(Ponto) -> f64);

impl Funcao<Num> for Fun {
    fn valor(&self, x: Ponto) -> Num {
        Num((self.0)(x))
    }
    fn avaliar(&self, x: Ponto) -> Num {
        Num((self.0)(x))
    }
}

/// The constants of the method, with a step size within two increments of one counted as
/// a full step.
fn config() -> Configuracao<Num> {
    let mut config = Configuracao::padrao(Num(0.0001), Num(0.9), Num(0.001));
    config.tol_passo = Num(0.02);
    config
}

fn resolver(pl: &ProblemaLinear<Num>) -> RespostaLinear<Num> {
    let direcao = match pl.direcao {
        Direcao::Minimizar => minilp::OptimizationDirection::Minimize,
        Direcao::Maximizar => minilp::OptimizationDirection::Maximize,
    };
    let dominio = match pl.dominio {
        Dominio::Livre => (f64::NEG_INFINITY, f64::INFINITY),
        Dominio::NaoNegativo => (0.0, f64::INFINITY),
    };
    let relacao = match pl.relacao {
        Relacao::MaiorOuIgual => minilp::ComparisonOp::Ge,
        Relacao::Igual => minilp::ComparisonOp::Eq,
    };
    let mut problema = minilp::Problem::new(direcao);
    let variaveis: Vec<minilp::Variable> =
        pl.custos.iter().map(|c| problema.add_var(c.0, dominio)).collect();
    for (linha, lado) in pl.linhas.iter().zip(pl.lados.iter()) {
        let mut expressao = minilp::LinearExpr::empty();
        for (variavel, coeficiente) in variaveis.iter().zip(linha.iter()) {
            expressao.add(*variavel, coeficiente.0);
        }
        problema.add_constraint(expressao, relacao, lado.0);
    }
    match problema.solve() {
        Ok(solucao) => Ok((
            Num(solucao.objective()),
            variaveis.iter().map(|v| Num(solucao[*v])).collect(),
        )),
        Err(minilp::Error::Infeasible) => Err(FalhaLinear::Inviavel),
        Err(minilp::Error::Unbounded) => Err(FalhaLinear::Ilimitado),
    }
}

fn iteracao_interna(
    problema: &Problema<Num, Fun>,
    estado: &EstadoNaoLinear<Num>,
    config: &Configuracao<Num>,
    valores: &mut Vec<(f64, f64)>,
) -> Result<ResultadoLinear<Num>, Erro> {
    let mut linear = estado.iniciar_iteracoes_lineares();
    loop {
        let (programa_primal, programa_dual) = programas_lineares(problema, &linear, config);
        let primal = resolver(&programa_primal);
        let dual = resolver(&programa_dual);
        if let (Ok(p), Ok(d)) = (&primal, &dual) {
            valores.push((p.0 .0, d.0 .0));
        }
        match iteracoes_lineares(problema, linear, primal, dual, config)? {
            PassoLinear::Continuar(seguinte) => linear = seguinte,
            PassoLinear::Terminar(resultado) => return Ok(resultado),
        }
    }
}

fn otimizar(
    problema: &mut Problema<Num, Fun>,
    x_inicial: Ponto,
    config: &Configuracao<Num>,
    valores: &mut Vec<(f64, f64)>,
) -> Result<Option<(Ponto, MultiplicadoresDeLagrange<Num>)>, Erro> {
    let mut estado = EstadoNaoLinear::novo(x_inicial);
    loop {
        let resultado = iteracao_interna(problema, &estado, config, valores)?;
        let multiplicadores = resultado.multiplicadores.clone();
        match iteracao_nao_linear(problema, estado, resultado, config) {
            PassoNaoLinear::Continuar(seguinte) => estado = seguinte,
            PassoNaoLinear::Otimo(ponto, _) => return Ok(Some((ponto, multiplicadores))),
            PassoNaoLinear::NaoEncontrado => return Ok(None),
        }
    }
}

#[test]
fn gradiente_em_precisao_dupla() {
    let f = Fun(|x| x[0].0 * x[0].0 + x[1].0 * x[1].0);
    let g = auto_grad([Num(1.0), Num(2.0)], &f, &config());
    assert!((g[0].0 - 2.0).abs() < 1e-3, "{:?}", g);
    assert!((g[1].0 - 4.0).abs() < 1e-3, "{:?}", g);
}

fn problema_do_produto() -> Problema<Num, Fun> {
    Problema::novo(
        Fun(|x| x[0].0 * x[1].0),
        vec![
            Fun(|x| (x[0].0 - 2.0).powi(2) + (x[1].0 - 2.0).powi(2) - 2.0),
            Fun(|x| (x[0].0 - 2.5).powi(2) + (x[1].0 - 2.0).powi(2) - 2.0),
        ],
        vec![Fun(|x| x[0].0 + x[1].0 - 4.0)],
        [Num(-4.0), Num(-4.0)],
        [Num(4.0), Num(4.0)],
    )
}

#[test]
fn produto_sobre_a_reta_converge() {
    let mut problema = problema_do_produto();
    let config = config();
    let mut valores = Vec::new();
    let achado = otimizar(&mut problema, [Num(2.0), Num(2.0)], &config, &mut valores);
    let (ponto, multiplicadores) = achado.unwrap().unwrap();
    assert!(checar_ponto_estacionario(&problema, &ponto, &multiplicadores, &config));
    assert!((ponto[0].0 + ponto[1].0 - 4.0).abs() <= 1e-9);
    assert!((ponto[0].0 - 2.0).powi(2) + (ponto[1].0 - 2.0).powi(2) - 2.0 <= 0.0);
    assert!((ponto[0].0 - 2.5).powi(2) + (ponto[1].0 - 2.0).powi(2) - 2.0 <= 0.0);
}

fn problema_217() -> Problema<Num, Fun> {
    Problema::novo(
        Fun(|x| -x[1].0),
        vec![Fun(|x| -(1.0 + x[0].0 - 2.0 * x[1].0))],
        vec![Fun(|x| x[0].0 * x[0].0 + x[1].0 * x[1].0 - 1.0)],
        [Num(-100.0), Num(-100.0)],
        [Num(100.0), Num(100.0)],
    )
}

#[test]
fn problema_217_converge() {
    let mut problema = problema_217();
    let config = config();
    let mut valores = Vec::new();
    let achado = otimizar(&mut problema, [Num(10.0), Num(10.0)], &config, &mut valores);
    let (ponto, _) = achado.unwrap().unwrap();
    assert!((ponto[0].0 - 0.6).abs() < 1e-3, "{:?}", ponto);
    assert!((ponto[1].0 - 0.8).abs() < 1e-3, "{:?}", ponto);
}

#[test]
fn primal_e_dual_coincidem() {
    let mut problema = problema_217();
    let config = config();
    let mut valores = Vec::new();
    let _ = otimizar(&mut problema, [Num(10.0), Num(10.0)], &config, &mut valores);
    assert!(!valores.is_empty());
    for (primal, dual) in valores {
        assert!((primal - dual).abs() < 1e-9, "{} {}", primal, dual);
    }
}
