//! Transport for an SSD1306-class display controller on a Linux I2C bus.
//!
//! The library holds the decisions and the wire framing of the transport:
//! which device-control request binds a slave address, whether the bind
//! succeeded, and the exact bytes of each data or command transfer. The
//! caller performs the opening, the device-control call and the writes.
pub mod i2c;

pub use i2c::{BindRequest, I2c, I2cError, COMMAND_PREFIX, DATA_PREFIX, I2C_SLAVE};
