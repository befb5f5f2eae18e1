pub mod config;
pub mod gradient;
pub mod render;
pub mod ring_buffer;
pub mod symbols;
pub mod widget;

pub use gradient::{ColorGradient, ColorPalette, GradientTheme};
pub use ring_buffer::RingBuffer;
pub use symbols::SymbolSet;
pub use widget::Direction;
