//! Host-side driver for a USB software-defined-radio dongle built around an
//! RTL2832U demodulator and an interchangeable RF tuner chip.
//!
//! The crate turns a generic USB control-transfer channel into a
//! register-level control protocol for the demodulator, an emulated I2C bus
//! used to program the tuner, a baseband bring-up sequence, and a tuner
//! driver with a register-shadow cache and table-driven frequency lookup.
//!
//! All protocol logic operates over a [`transport::Transport`], which is
//! either a real USB device handle or an in-memory simulated dongle whose
//! behaviour is specified exactly; the contracts of the protocol layer state,
//! bit for bit, which control transfers reach the simulated device.

pub mod baseband;
pub mod codec;
pub mod error;
pub mod fc0013;
pub mod r820t;
pub mod sdr;
pub mod sim;
pub mod transport;
pub mod tuner;
pub mod usb;
pub mod usb_io;
