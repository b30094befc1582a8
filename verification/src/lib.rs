//! Core of an interactive chessboard widget: piece/board value types, a
//! fixed-point geometry mapper, a figurine store with time-based animation,
//! a board-state reconciliation engine, and threshold-gated drag controllers
//! for the board and for the piece pockets.
//!
//! The windowing toolkit, the vector renderer and the chess-rules library are
//! external collaborators: this crate works on plain values (integer
//! coordinates in thousandths of a board unit, millisecond timestamps) that
//! the surrounding application converts at its edge.
#![allow(unused_imports)]

pub mod chess;
pub mod geometry;
pub mod figurine;
pub mod drag;
pub mod pockets;
pub mod board;
