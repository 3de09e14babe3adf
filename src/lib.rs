//! Verified parts of a small path tracer: the plain-text image encoding of
//! quantized pixels, and the state machine behind a timer future.
mod ppm;
mod timer;

pub use ppm::{
    decimal, digit_char, encode_ppm, is_grid, pixel_text, ppm_header, ppm_image, row_text, rows_text,
    Rgb8,
};
pub use timer::TimerFuture;
