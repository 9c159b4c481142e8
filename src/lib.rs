//! Move search for a chess-variant engine: iterative deepening over a
//! fail-hard negamax alpha-beta search with a transposition table,
//! killer and history move ordering, quiescence search on captures and
//! null-move pruning. The board, move generation and evaluation are
//! supplied by the caller through the traits of `collaborators`.
pub mod chess_move;
pub mod collaborators;
pub mod heuristics;
pub mod searcher;
pub mod transposition;

pub use chess_move::Move;
pub use collaborators::{Evaluator, MoveGenerator, Position};
pub use heuristics::{HistoryTable, KillerTable, KILLER_PLIES, SQUARES};
pub use searcher::{DepthReport, Searcher, MATE_SCORE};
pub use transposition::{Entry, EntryFlag, TranspositionTable};
