//! Model of a USB CDC-ACM serial echo device.
//!
//! The device exposes a virtual serial port and echoes received ASCII text
//! back to the host with lowercase letters folded to uppercase, while a
//! status LED reflects the connection state.  This crate holds the verified
//! core: the byte transform, the echo-loop state machine with its
//! partial-write discipline, the USB device-state model, and the
//! configuration checks performed at bring-up.  The hardware glue (clock
//! tree, GPIO, the USB controller itself) lives outside and drives the
//! state machine with plain values.

pub mod bringup;
pub mod device;
pub mod echo;
pub mod transform;
