//! Host-side client for the JABI request/response protocol: the wire codec,
//! the USB and UART transports, the shared device handle and the peripheral
//! command set.
pub mod error;
pub mod frame;
pub mod interface;
pub mod usb;
pub mod uart;
pub mod device;
pub mod envelope;
pub mod metadata;
pub mod can;
pub mod lin;
pub mod gpio;
pub mod i2c;
pub mod spi;
pub mod uart_bus;
pub mod analog;

pub use crate::can::{CANMessage, CANMode, CANState};
pub use crate::device::{Device, Transport};
pub use crate::error::Error;
pub use crate::frame::{InterfaceRequest, InterfaceResponse};
pub use crate::gpio::{GPIODir, GPIOPull};
pub use crate::i2c::I2CFreq;
pub use crate::interface::Interface;
pub use crate::lin::{LINChecksum, LINMessage, LINMode, LINStatus};
pub use crate::metadata::InstID;
pub use crate::uart_bus::{UARTParity, UARTStop};
