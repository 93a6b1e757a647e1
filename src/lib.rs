// Streaming spectrum analysis for an audio visualizer: the sliding sample
// window and its stereo ingestion, the length check of the radix-2 transform,
// the double-buffered publication of results, the visualization-mode cycle and
// the file-name and text helpers of the player.
pub mod media;
pub mod mode;
pub mod snapshot;
pub mod spectrum;
pub mod window;
