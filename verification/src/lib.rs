//! Verified core of chess2lichess: chess.com game URLs, PGN extraction
//! and metadata, lichess import responses, and the CLI's output rules.

pub mod text;
pub mod json;
pub mod pgn_extract;
pub mod patterns;
pub mod error;
pub mod chesscom;
pub mod fetch;
pub mod eco_table;
pub mod metadata;
pub mod lichess;
pub mod style;
pub mod cli;
pub mod app;
pub mod tui;
pub mod tidy;
pub mod ply_laws;
