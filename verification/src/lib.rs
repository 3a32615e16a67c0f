//! Verified integer and text logic of the solar-system fly-through renderer:
//! decimal formatting, frame file naming, the ffmpeg stitching arguments,
//! frame-buffer assembly, material dispatch and the PPM text encoding.

pub mod decimal;
pub mod frames;
pub mod framebuf;
pub mod shading;
pub mod ppm;
