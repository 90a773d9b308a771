//! A small HTTP service core that turns an uploaded image into the text an OCR
//! engine finds in it: request routing, the image decoding step, the OCR
//! pipeline, and the per-request exchange that answers each request once.
pub mod error;
pub mod exchange;
pub mod image;
pub mod pipeline;
pub mod reply;
pub mod route;
