//! Flow descriptions, as they are kept beside the flows.
use std::collections::HashMap;
use vstd::prelude::*;

verus! {

/// Grains per second.
#[derive(Debug, Clone, Copy, PartialEq, Eq, Structural)]
pub struct GrainRate {
    pub numerator: i32,
    pub denominator: i32,
}

/// One plane of a picture.
#[derive(Debug)]
pub struct Component {
    pub name: String,
    pub width: i32,
    pub height: i32,
    pub bit_depth: u8,
}

/// The description of a video flow.
#[derive(Debug)]
pub struct FlowDefVideo {
    pub copyright: String,
    pub license: String,
    pub description: String,
    pub id: String,
    pub tags: HashMap<String, Vec<String>>,
    pub format: String,
    pub label: String,
    pub parents: Vec<String>,
    pub media_type: String,
    pub grain_rate: GrainRate,
    pub frame_width: i32,
    pub frame_height: i32,
    pub interlace_mode: String,
    pub colorspace: String,
    pub components: Vec<Component>,
}

/// Samples per second.
#[derive(Debug, Clone, Copy, PartialEq, Eq, Structural)]
pub struct SampleRate {
    pub numerator: i32,
}

/// The description of an audio flow.
#[derive(Debug)]
pub struct FlowDefAudio {
    pub copyright: String,
    pub license: String,
    pub description: String,
    pub format: String,
    pub tags: HashMap<String, Vec<String>>,
    pub label: String,
    pub id: String,
    pub media_type: String,
    pub sample_rate: SampleRate,
    pub channel_count: i32,
    pub bit_depth: u8,
    pub parents: Vec<String>,
}

/// The description of a flow of either kind.
#[derive(Debug)]
pub struct FlowDef {
    pub video: Option<FlowDefVideo>,
    pub audio: Option<FlowDefAudio>,
}

} // verus!
