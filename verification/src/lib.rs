//! Screen-region capture pipeline: pixel normalization, image encoding,
//! transport payloads, the display-resource protocol and the text-recognition
//! protocol, with machine-checked contracts.

pub mod capture;
pub mod encode;
pub mod ocr;
pub mod overlay;
pub mod pixels;
pub mod region;
pub mod session;
pub mod transport;
