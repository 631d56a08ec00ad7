//! Host-side core of the DepthAI device API: camera and device enumerations
//! with their native codes, version and device descriptors, the error rules of
//! the native layer, frame payloads and descriptions, pipeline nodes and a
//! pipeline builder, each with a verified contract.

pub mod common;
pub mod device;
pub mod device_info;
pub mod encoded_frame;
pub mod error;
pub mod frame;
pub mod pipeline;
pub mod pointcloud;
pub mod queue;
pub mod rerun_host_node;
pub mod rgbd;
pub mod stereo_depth;
pub mod text;
pub mod video_encoder;
pub mod xlink;
