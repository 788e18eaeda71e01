//! Driver for the 4.2" tri-colour e-paper panel: packed frame buffers with
//! rotation, and the command streams that the panel controller expects.
pub mod color;
pub mod graphics;
pub mod epd4in2b;
pub mod interface;
pub mod command;
pub mod constants;
pub mod epd4in2bc;
