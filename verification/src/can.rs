//! The registers of the CAN block.
pub mod control;
pub mod fifo;
