//! Core of a terminal-resident text editor at the stage where it manages
//! terminal geometry, a caret position, and a batched screen-draw cycle.
//!
//! The verified library owns the editor state machine (caret movement, quit
//! decision), the frame renderer, and the drawing-intent queue. The embedding
//! binary performs the actual terminal I/O: it hands input events to the
//! library as plain values and writes the committed intent batches to the
//! host display.

pub mod editor;
