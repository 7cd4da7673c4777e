//! NeuMusic: downloads audio with yt-dlp or takes a local file, and converts it
//! with ffmpeg to MP3 (capped at 192 kbps) or OGG (capped at 208 kbps), with
//! optional leading silence and re-encoding at a fixed bitrate.
//!
//! This library holds what the program decides and computes: the processing run as a
//! state machine, the command lines of yt-dlp, ffmpeg and ffprobe, the choice of
//! files in the output directory, file names, the texts of the window in seven
//! languages, update checks and the window's state. The program around it performs
//! what the library asks for.
pub mod text;
pub mod path;
pub mod lang;
pub mod ffmpeg;
pub mod ffmpeg_laws;
pub mod selection;
pub mod messages;
pub mod pipeline;
pub mod pipeline_laws;
pub mod download;
pub mod updates;
pub mod setup;
pub mod icon;
pub mod app;

pub use app::NeuMusicApp;
