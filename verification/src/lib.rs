//! Protocol codecs and register maps for `GenICam` compatible cameras
//! (`USB3 Vision` and `GigE Vision`).

pub mod bytes;
pub mod camera;
pub mod common;
pub mod control;
pub mod gige;
pub mod payload;
pub mod u3v;
