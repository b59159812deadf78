//! A driver core for the MCP2517FD family of CAN FD controllers on an SPI bus: the register
//! model, the instruction codec, bounds-checked register and RAM access, the configuration
//! sequence, and the codecs of the message headers.
pub mod bits;
pub mod bus;
pub mod can;
pub mod configure;
pub mod generic;
pub mod message;
pub mod sequence;
pub mod settings;
pub mod spi;
