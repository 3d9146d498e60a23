//! Verified core of a desktop music visualizer and MP4 exporter: the frame
//! and sample arithmetic of the export pipeline, the export job's state
//! machine, the FFmpeg command lines and filters, the checks on the decoded
//! WAV header, and the integer layout decisions of the spectrum analysis
//! and of the visualizer.

pub mod export;
pub mod ffmpeg;
pub mod fft;
pub mod job;
pub mod player;
pub mod text;
pub mod visuals;
pub mod wav;
