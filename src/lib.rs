//! Verified driver logic for DMA-paced I2C on the LPC82x.
//!
//! The crate holds the register images and protocol state of the DMA
//! controller, the I2C master and slave, and the system configuration blocks
//! that feed them. Every operation computes the next register values and
//! state; moving those values to and from the memory-mapped registers is left
//! to the caller.
pub mod descriptors;
pub mod dma;
pub mod error;
pub mod i2c;
pub mod pmu;
pub mod slave;
pub mod swm;
pub mod syscon;
