//! Move search for m-by-n, k-in-a-row board games: the position model, line
//! evaluators, a whole-board scorer, and a greedy and an alpha-beta solver.
pub mod number;
pub mod board;
pub mod state;
pub mod lines;
pub mod evaluator;
pub mod scorer;
pub mod solver;
pub mod parser;
pub mod notation;
pub mod protocol;
pub mod command;
