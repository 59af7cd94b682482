//! The state engine of an interactive colour-palette editor.
//!
//! The editor holds an ordered, never empty palette of colour entries and a
//! selection. Entries can be added, removed, moved, locked and given new
//! colours; the palette can be exported as text. All of this is verified:
//! each operation has a contract over the mathematical model in [`palette`],
//! and the laws of that model are proved in [`laws`].
//!
//! The editor does no input or output and draws no random numbers. A caller
//! feeds it key presses and freshly drawn colours, and carries out what
//! [`input::Action`] asks for.

pub mod app;
pub mod color;
pub mod export;
pub mod input;
pub mod laws;
pub mod palette;
pub mod scroll;
pub mod sliders;
pub mod strings;
