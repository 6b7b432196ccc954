//! OpenHarmony: the OHAudio output.

pub mod ohaudio;
