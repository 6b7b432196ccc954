//! Verified core of a media player: audio queueing and recovery, video
//! colour and render-graph planning, and GPU backend selection.

pub mod android;
pub mod apple;
pub mod audio;
pub mod color;
pub mod float;
pub mod ohos;
pub mod pcm;
pub mod renderer;
pub mod time;
