//! The host side of a camera: register maps read through a [`crate::control::DeviceControl`],
//! the streaming parameters, the `GenApi` XML checks, and the decisions of the `GigE Vision`
//! control and stream channels.

pub mod registers;
pub mod u3v_register_map;
pub mod device;
pub mod device_register_map;
pub mod streaming;
pub mod gige_register_map;
pub mod xml;
pub mod gige_control;
pub mod gige_memory;
pub mod gige_stream;
pub mod u3v_control;
