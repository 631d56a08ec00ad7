//! Host-to-device input stream: its settings and the host-side node that
//! carries them.

use vstd::prelude::*;
use vstd::string::*;
use crate::error::{DaiError, DaiResult};
use crate::pipeline::PipelineNode;
use crate::pipeline::nodes::texts;

verus! {

/// Settings of an XLink input stream: its name, the largest message it takes
/// and the number of frames in its pool.
#[derive(Debug)]
pub struct XLinkInConfig {
    pub stream_name: String,
    pub max_data_size: Option<usize>,
    pub num_frames: Option<u8>,
}

impl Clone for XLinkInConfig {
    fn clone(&self) -> (r: Self)
        ensures
            r == *self,
    {
        XLinkInConfig {
            stream_name: self.stream_name.clone(),
            max_data_size: self.max_data_size,
            num_frames: self.num_frames,
        }
    }
}

impl Default for XLinkInConfig {
    /// Stream "input", no size limit, a pool of 8 frames.
    fn default() -> (r: Self)
        ensures
            r.stream_name@ == "input"@,
            r.max_data_size is None,
            r.num_frames == Some(8u8),
    {
        XLinkInConfig { stream_name: "input".to_string(), max_data_size: None, num_frames: Some(8) }
    }
}

/// XLink input node: streams data from the host to the device.
pub struct XLinkIn {
    pub id: String,
    pub config: XLinkInConfig,
    /// Whether `configure` has created the native node.
    pub(crate) configured: bool,
}

impl XLinkIn {
    /// Identifier of the node.
    pub closed spec fn node_id(&self) -> Seq<char> {
        self.id@
    }

    /// Settings of the node.
    pub closed spec fn settings(&self) -> XLinkInConfig {
        self.config
    }

    /// Whether the native node has been created.
    pub closed spec fn is_configured(&self) -> bool {
        self.configured
    }

    /// Node `id` with default settings.
    pub fn new(id: &str) -> (r: XLinkIn)
        ensures
            r.node_id() == id@,
            r.settings().stream_name@ == "input"@,
            r.settings().max_data_size is None,
            r.settings().num_frames == Some(8u8),
            !r.is_configured(),
    {
        XLinkIn { id: String::from_str(id), config: XLinkInConfig::default(), configured: false }
    }

    /// Node `id` with the given settings.
    pub fn with_config(id: &str, config: XLinkInConfig) -> (r: XLinkIn)
        ensures
            r.node_id() == id@,
            r.settings() == config,
            !r.is_configured(),
    {
        XLinkIn { id: String::from_str(id), config, configured: false }
    }

    /// Sets the stream name; returns the node for further settings.
    pub fn set_stream_name(&mut self, name: &str) -> (r: &mut Self)
        ensures
            r.settings().stream_name@ == name@,
            r.settings().max_data_size == old(self).settings().max_data_size,
            r.settings().num_frames == old(self).settings().num_frames,
            r.node_id() == old(self).node_id(),
            r.is_configured() == old(self).is_configured(),
            *final(self) == *final(r),
    {
        self.config.stream_name = String::from_str(name);
        self
    }

    /// Sets the largest message size; returns the node for further settings.
    pub fn set_max_data_size(&mut self, size: usize) -> (r: &mut Self)
        ensures
            r.settings().max_data_size == Some(size),
            r.settings().stream_name == old(self).settings().stream_name,
            r.settings().num_frames == old(self).settings().num_frames,
            r.node_id() == old(self).node_id(),
            r.is_configured() == old(self).is_configured(),
            *final(self) == *final(r),
    {
        self.config.max_data_size = Some(size);
        self
    }

    /// Sets the number of frames in the pool; returns the node for further
    /// settings.
    pub fn set_num_frames(&mut self, frames: u8) -> (r: &mut Self)
        ensures
            r.settings().num_frames == Some(frames),
            r.settings().stream_name == old(self).settings().stream_name,
            r.settings().max_data_size == old(self).settings().max_data_size,
            r.node_id() == old(self).node_id(),
            r.is_configured() == old(self).is_configured(),
            *final(self) == *final(r),
    {
        self.config.num_frames = Some(frames);
        self
    }
}

impl PipelineNode for XLinkIn {
    fn id(&self) -> (r: String)
        ensures
            r@ == self.node_id(),
    {
        self.id.clone()
    }

    fn node_type(&self) -> (r: String)
        ensures
            r@ == "XLinkIn"@,
    {
        String::from_str("XLinkIn")
    }

    /// Creates the native node; fails, changing nothing, when it exists
    /// already.
    fn configure(&mut self) -> (r: DaiResult<()>)
        ensures
            old(self).is_configured() ==> (r matches Err(DaiError::AlreadyInitialized)
                && *final(self) == *old(self)),
            !old(self).is_configured() ==> r is Ok && final(self).is_configured(),
            final(self).node_id() == old(self).node_id(),
            final(self).settings() == old(self).settings(),
    {
        if self.configured {
            return Err(DaiError::AlreadyInitialized);
        }
        self.configured = true;
        Ok(())
    }

    /// No input ports: the data comes from the host.
    fn inputs(&self) -> (r: Vec<String>)
        ensures
            r@.len() == 0,
    {
        Vec::new()
    }

    /// The single output port, "out".
    fn outputs(&self) -> (r: Vec<String>)
        ensures
            texts(r@) == seq!["out"@],
    {
        let mut v: Vec<String> = Vec::new();
        v.push(String::from_str("out"));
        assert(texts(v@) =~= seq!["out"@]);
        v
    }
}

} // verus!
