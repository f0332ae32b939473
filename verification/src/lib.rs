//! Model-level driver for an asynchronous serial (USART) peripheral with a
//! DMA bulk-transfer path.
//!
//! The hardware registers are modelled as plain values ([`device::UsartRegs`],
//! [`dma::DmaChannel`]) so that the driver logic — baud-rate resolution, the
//! non-blocking byte transaction protocol with its fault clear sequence, the
//! split/ownership model, and DMA transfer programming and teardown — is
//! stated and proved over an explicit register state.

pub mod config;
pub mod device;
pub mod dma;
pub mod serial;
