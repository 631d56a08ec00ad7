//! Device-to-host output stream: its settings and the host-side node that
//! carries them.

use vstd::prelude::*;
use vstd::string::*;
use crate::error::{DaiError, DaiResult};
use crate::pipeline::PipelineNode;
use crate::pipeline::nodes::{bound, port_text, push_bound, texts};

verus! {

/// Settings of an XLink output stream: its name and whether only message
/// metadata is sent.
#[derive(Debug)]
pub struct XLinkOutConfig {
    pub stream_name: String,
    pub metadata_only: bool,
}

impl Clone for XLinkOutConfig {
    fn clone(&self) -> (r: Self)
        ensures
            r == *self,
    {
        XLinkOutConfig { stream_name: self.stream_name.clone(), metadata_only: self.metadata_only }
    }
}

impl Default for XLinkOutConfig {
    /// Stream "output", full messages.
    fn default() -> (r: Self)
        ensures
            r.stream_name@ == "output"@,
            !r.metadata_only,
    {
        XLinkOutConfig { stream_name: "output".to_string(), metadata_only: false }
    }
}

/// Text of the error that `configure` gives for an empty stream name.
pub open spec fn missing_stream_name_text() -> Seq<char> {
    "XLinkOut stream name is required"@
}

/// XLink output node: streams data from the device to the host under a stream
/// name.
pub struct XLinkOut {
    id: String,
    config: XLinkOutConfig,
    /// Whether `configure` has created the native node.
    configured: bool,
    /// Stream bound to the node's single input port.
    input: Option<String>,
}

impl XLinkOut {
    /// Identifier of the node.
    pub closed spec fn node_id(&self) -> Seq<char> {
        self.id@
    }

    /// Settings of the node.
    pub closed spec fn settings(&self) -> XLinkOutConfig {
        self.config
    }

    /// Whether the native node has been created.
    pub closed spec fn is_configured(&self) -> bool {
        self.configured
    }

    /// Stream bound to the input port.
    pub closed spec fn input_port(&self) -> Option<String> {
        self.input
    }

    /// Node `id` streaming under `stream_name`, other settings at their defaults.
    pub fn new(id: &str, stream_name: &str) -> (r: XLinkOut)
        ensures
            r.node_id() == id@,
            r.settings().stream_name@ == stream_name@,
            !r.settings().metadata_only,
            !r.is_configured(),
            r.input_port() is None,
    {
        let config = XLinkOutConfig { stream_name: String::from_str(stream_name), metadata_only: false };
        Self::with_config(id, config)
    }

    /// Node `id` with the given settings.
    pub fn with_config(id: &str, config: XLinkOutConfig) -> (r: XLinkOut)
        ensures
            r.node_id() == id@,
            r.settings() == config,
            !r.is_configured(),
            r.input_port() is None,
    {
        XLinkOut { id: String::from_str(id), config, configured: false, input: None }
    }

    /// Sets the stream name.
    pub fn set_stream_name(&mut self, name: &str)
        ensures
            final(self).settings().stream_name@ == name@,
            final(self).settings().metadata_only == old(self).settings().metadata_only,
            final(self).node_id() == old(self).node_id(),
            final(self).is_configured() == old(self).is_configured(),
            final(self).input_port() == old(self).input_port(),
    {
        self.config.stream_name = String::from_str(name);
    }

    /// Sets whether only message metadata is sent.
    pub fn set_metadata_only(&mut self, metadata_only: bool)
        ensures
            final(self).settings().metadata_only == metadata_only,
            final(self).settings().stream_name == old(self).settings().stream_name,
            final(self).node_id() == old(self).node_id(),
            final(self).is_configured() == old(self).is_configured(),
            final(self).input_port() == old(self).input_port(),
    {
        self.config.metadata_only = metadata_only;
    }

    /// Binds `stream_name` to the input port, replacing an earlier binding, and
    /// hands the name back.
    pub fn request_input(&mut self, stream_name: &str) -> (r: DaiResult<String>)
        ensures
            r matches Ok(s) && s@ == stream_name@,
            port_text(final(self).input_port()) == Some(stream_name@),
            final(self).settings() == old(self).settings(),
            final(self).node_id() == old(self).node_id(),
            final(self).is_configured() == old(self).is_configured(),
    {
        let name = String::from_str(stream_name);
        self.input = Some(name.clone());
        Ok(name)
    }

    /// Settings of the node.
    pub fn config(&self) -> (r: &XLinkOutConfig)
        ensures
            *r == self.settings(),
    {
        &self.config
    }

    /// Stream name of the node.
    pub fn stream_name(&self) -> (r: &str)
        ensures
            r@ == self.settings().stream_name@,
    {
        self.config.stream_name.as_str()
    }
}

impl PipelineNode for XLinkOut {
    fn id(&self) -> (r: String)
        ensures
            r@ == self.node_id(),
    {
        self.id.clone()
    }

    fn node_type(&self) -> (r: String)
        ensures
            r@ == "XLinkOut"@,
    {
        String::from_str("XLinkOut")
    }

    /// Fails, changing nothing, when the stream name is empty; otherwise
    /// creates the native node.
    fn configure(&mut self) -> (r: DaiResult<()>)
        ensures
            old(self).settings().stream_name@.len() == 0 ==> (r matches Err(
                DaiError::InvalidConfiguration(m),
            ) && m@ == missing_stream_name_text() && *final(self) == *old(self)),
            old(self).settings().stream_name@.len() > 0 ==> r is Ok && final(self).is_configured(),
            final(self).settings() == old(self).settings(),
            final(self).node_id() == old(self).node_id(),
            final(self).input_port() == old(self).input_port(),
    {
        if self.config.stream_name.as_str().is_empty() {
            return Err(DaiError::InvalidConfiguration(String::from_str("XLinkOut stream name is required")));
        }
        self.configured = true;
        Ok(())
    }

    /// The stream bound to the input port, if any.
    fn inputs(&self) -> (r: Vec<String>)
        ensures
            texts(r@) == bound(self.input_port()),
    {
        let mut v: Vec<String> = Vec::new();
        push_bound(&mut v, &self.input);
        assert(texts(v@) =~= bound(self.input_port()));
        v
    }

    /// No output ports: the stream leaves the device.
    fn outputs(&self) -> (r: Vec<String>)
        ensures
            r@.len() == 0,
    {
        Vec::new()
    }
}

} // verus!
