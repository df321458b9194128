//! Trust-region sequential convex programming for smooth constrained problems: minimise
//! an objective subject to inequality and equality constraints by solving a sequence of
//! linearised subproblems.
//!
//! The method is written over an abstract scalar ([`escalar::Escalar`]); [`fixo::Fixo`] is
//! a scalar with exact arithmetic. The linear programs are solved outside the library:
//! [`iter_linear::programas_lineares`] gives the two programs of a step of the inner
//! iteration, [`iter_linear::iteracoes_lineares`] takes the answers and carries the step
//! out, and [`iter_nao_linear::iteracao_nao_linear`] carries out a step of the outer
//! iteration from what the inner iteration returned.

pub mod defs;
pub mod escalar;
pub mod estimativa_mul_lagrange;
pub mod fixo;
pub mod funcao_merito;
pub mod iter_linear;
pub mod iter_nao_linear;
pub mod lagrangianas;
pub mod matricial;
pub mod ponto_estacionario;
pub mod prob_linear;
pub mod regiao_de_confianca;
pub mod utils;
