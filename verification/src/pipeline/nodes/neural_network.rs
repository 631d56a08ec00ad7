//! Neural network node: the model blob it runs, its execution settings, and the
//! host-side node that carries them.

use vstd::prelude::*;
use vstd::string::*;
use std::path::Path;
use crate::error::{DaiError, DaiResult};
use crate::pipeline::PipelineNode;
use crate::pipeline::nodes::{bound, port_text, push_bound, texts};

verus! {

/// Calls `Path::exists`: whether something is found at `path` on the file
/// system at the time of the call. The answer depends on the disk, so nothing is
/// stated of it.
#[verifier::external_body]
fn path_exists(path: &str) -> bool {
    Path::new(path).exists()
}

/// Text of the error for a blob path at which no file is found.
pub open spec fn blob_not_found_text(path: Seq<char>) -> Seq<char> {
    "Blob file not found: "@ + path
}

/// Text of the error for a node without a blob path.
pub open spec fn blob_required_text() -> Seq<char> {
    "Neural network blob path is required"@
}

/// Settings of a neural network node: the model blob, threads and compute
/// engines per thread, the input size, and the confidence threshold, kept as the
/// IEEE-754 bit pattern of a single-precision number (`f32::to_bits`).
#[derive(Debug)]
pub struct NeuralNetworkConfig {
    pub blob_path: String,
    pub num_threads: Option<u32>,
    pub num_nce_per_thread: Option<u32>,
    pub input_size: Option<(u32, u32)>,
    pub confidence_threshold_bits: Option<u32>,
}

impl Clone for NeuralNetworkConfig {
    fn clone(&self) -> (r: Self)
        ensures
            r == *self,
    {
        NeuralNetworkConfig {
            blob_path: self.blob_path.clone(),
            num_threads: self.num_threads,
            num_nce_per_thread: self.num_nce_per_thread,
            input_size: self.input_size,
            confidence_threshold_bits: self.confidence_threshold_bits,
        }
    }
}

impl Default for NeuralNetworkConfig {
    /// No blob and every setting left to the device.
    fn default() -> (r: Self)
        ensures
            r.blob_path@ == Seq::<char>::empty(),
            r.num_threads is None,
            r.num_nce_per_thread is None,
            r.input_size is None,
            r.confidence_threshold_bits is None,
    {
        NeuralNetworkConfig {
            blob_path: String::new(),
            num_threads: None,
            num_nce_per_thread: None,
            input_size: None,
            confidence_threshold_bits: None,
        }
    }
}

/// Neural network node: runs a compiled model blob on its input stream.
pub struct NeuralNetwork {
    id: String,
    config: NeuralNetworkConfig,
    /// Whether `configure` has created the native node.
    configured: bool,
    input: Option<String>,
    out: Option<String>,
    passthrough: Option<String>,
}

impl NeuralNetwork {
    /// Identifier of the node.
    pub closed spec fn node_id(&self) -> Seq<char> {
        self.id@
    }

    /// Settings of the node.
    pub closed spec fn settings(&self) -> NeuralNetworkConfig {
        self.config
    }

    /// Whether the native node has been created.
    pub closed spec fn is_configured(&self) -> bool {
        self.configured
    }

    /// Stream bound to the input.
    pub closed spec fn input_port(&self) -> Option<String> {
        self.input
    }

    /// Stream bound to the result output.
    pub closed spec fn out_port(&self) -> Option<String> {
        self.out
    }

    /// Stream bound to the passthrough output.
    pub closed spec fn passthrough_port(&self) -> Option<String> {
        self.passthrough
    }

    /// Same identifier, native-node state and port bindings as `other`.
    pub open spec fn same_node(&self, other: NeuralNetwork) -> bool {
        &&& self.node_id() == other.node_id()
        &&& self.is_configured() == other.is_configured()
        &&& self.input_port() == other.input_port()
        &&& self.out_port() == other.out_port()
        &&& self.passthrough_port() == other.passthrough_port()
    }

    /// `a` and `b` agree on every setting but the blob path.
    pub open spec fn same_but_blob(a: NeuralNetworkConfig, b: NeuralNetworkConfig) -> bool {
        &&& a.num_threads == b.num_threads
        &&& a.num_nce_per_thread == b.num_nce_per_thread
        &&& a.input_size == b.input_size
        &&& a.confidence_threshold_bits == b.confidence_threshold_bits
    }

    /// Node `id` running the blob at `blob_path`, other settings at their
    /// defaults.
    pub fn new(id: &str, blob_path: &str) -> (r: NeuralNetwork)
        ensures
            r.node_id() == id@,
            r.settings().blob_path@ == blob_path@,
            r.settings().num_threads is None,
            r.settings().num_nce_per_thread is None,
            r.settings().input_size is None,
            r.settings().confidence_threshold_bits is None,
            !r.is_configured(),
            r.input_port() is None,
            r.out_port() is None,
            r.passthrough_port() is None,
    {
        let config = NeuralNetworkConfig {
            blob_path: String::from_str(blob_path),
            num_threads: None,
            num_nce_per_thread: None,
            input_size: None,
            confidence_threshold_bits: None,
        };
        Self::with_config(id, config)
    }

    /// Node `id` with the given settings.
    pub fn with_config(id: &str, config: NeuralNetworkConfig) -> (r: NeuralNetwork)
        ensures
            r.node_id() == id@,
            r.settings() == config,
            !r.is_configured(),
            r.input_port() is None,
            r.out_port() is None,
            r.passthrough_port() is None,
    {
        NeuralNetwork {
            id: String::from_str(id),
            config,
            configured: false,
            input: None,
            out: None,
            passthrough: None,
        }
    }

    /// Sets the blob path when a file is found there (`exists`); otherwise
    /// fails, changing nothing.
    pub fn set_blob_path_checked(&mut self, path: &str, exists: bool) -> (r: DaiResult<()>)
        ensures
            exists ==> r is Ok && final(self).settings().blob_path@ == path@
                && NeuralNetwork::same_but_blob(final(self).settings(), old(self).settings())
                && final(self).same_node(*old(self)),
            !exists ==> (r matches Err(DaiError::FileNotFound(m)) && m@ == blob_not_found_text(
                path@,
            ) && *final(self) == *old(self)),
    {
        if !exists {
            let msg = String::from_str("Blob file not found: ").concat(path);
            return Err(DaiError::FileNotFound(msg));
        }
        self.config.blob_path = String::from_str(path);
        Ok(())
    }

    /// Sets the blob path after checking on the file system that a file is
    /// found there; fails, changing nothing, when none is.
    pub fn set_blob_path(&mut self, path: &str) -> (r: DaiResult<()>)
        ensures
            r is Ok ==> final(self).settings().blob_path@ == path@
                && NeuralNetwork::same_but_blob(final(self).settings(), old(self).settings())
                && final(self).same_node(*old(self)),
            r is Err ==> (r matches Err(DaiError::FileNotFound(m)) && m@ == blob_not_found_text(
                path@,
            ) && *final(self) == *old(self)),
    {
        let exists = path_exists(path);
        self.set_blob_path_checked(path, exists)
    }

    /// Sets the number of inference threads.
    pub fn set_num_threads(&mut self, num_threads: u32)
        ensures
            final(self).settings().num_threads == Some(num_threads),
            final(self).settings().blob_path == old(self).settings().blob_path,
            final(self).settings().num_nce_per_thread == old(self).settings().num_nce_per_thread,
            final(self).settings().input_size == old(self).settings().input_size,
            final(self).settings().confidence_threshold_bits == old(
                self,
            ).settings().confidence_threshold_bits,
            final(self).same_node(*old(self)),
    {
        self.config.num_threads = Some(num_threads);
    }

    /// Sets the number of compute engines per thread.
    pub fn set_num_nce_per_thread(&mut self, num_nce: u32)
        ensures
            final(self).settings().num_nce_per_thread == Some(num_nce),
            final(self).settings().blob_path == old(self).settings().blob_path,
            final(self).settings().num_threads == old(self).settings().num_threads,
            final(self).settings().input_size == old(self).settings().input_size,
            final(self).settings().confidence_threshold_bits == old(
                self,
            ).settings().confidence_threshold_bits,
            final(self).same_node(*old(self)),
    {
        self.config.num_nce_per_thread = Some(num_nce);
    }

    /// Sets the input size for preprocessing.
    pub fn set_input_size(&mut self, width: u32, height: u32)
        ensures
            final(self).settings().input_size == Some((width, height)),
            final(self).settings().blob_path == old(self).settings().blob_path,
            final(self).settings().num_threads == old(self).settings().num_threads,
            final(self).settings().num_nce_per_thread == old(self).settings().num_nce_per_thread,
            final(self).settings().confidence_threshold_bits == old(
                self,
            ).settings().confidence_threshold_bits,
            final(self).same_node(*old(self)),
    {
        self.config.input_size = Some((width, height));
    }

    /// Sets the confidence threshold, given as the bit pattern of an `f32`.
    pub fn set_confidence_threshold(&mut self, threshold_bits: u32)
        ensures
            final(self).settings().confidence_threshold_bits == Some(threshold_bits),
            final(self).settings().blob_path == old(self).settings().blob_path,
            final(self).settings().num_threads == old(self).settings().num_threads,
            final(self).settings().num_nce_per_thread == old(self).settings().num_nce_per_thread,
            final(self).settings().input_size == old(self).settings().input_size,
            final(self).same_node(*old(self)),
    {
        self.config.confidence_threshold_bits = Some(threshold_bits);
    }

    /// Binds `stream_name` to the input, replacing an earlier binding, and hands
    /// the name back.
    pub fn request_input(&mut self, stream_name: &str) -> (r: DaiResult<String>)
        ensures
            r matches Ok(s) && s@ == stream_name@,
            port_text(final(self).input_port()) == Some(stream_name@),
            final(self).out_port() == old(self).out_port(),
            final(self).passthrough_port() == old(self).passthrough_port(),
            final(self).settings() == old(self).settings(),
            final(self).node_id() == old(self).node_id(),
            final(self).is_configured() == old(self).is_configured(),
    {
        let name = String::from_str(stream_name);
        self.input = Some(name.clone());
        Ok(name)
    }

    /// Binds `stream_name` to the result output, replacing an earlier binding,
    /// and hands the name back.
    pub fn request_output(&mut self, stream_name: &str) -> (r: DaiResult<String>)
        ensures
            r matches Ok(s) && s@ == stream_name@,
            port_text(final(self).out_port()) == Some(stream_name@),
            final(self).input_port() == old(self).input_port(),
            final(self).passthrough_port() == old(self).passthrough_port(),
            final(self).settings() == old(self).settings(),
            final(self).node_id() == old(self).node_id(),
            final(self).is_configured() == old(self).is_configured(),
    {
        let name = String::from_str(stream_name);
        self.out = Some(name.clone());
        Ok(name)
    }

    /// Binds `stream_name` to the passthrough output (the frames the network
    /// ran on), replacing an earlier binding, and hands the name back.
    pub fn request_passthrough(&mut self, stream_name: &str) -> (r: DaiResult<String>)
        ensures
            r matches Ok(s) && s@ == stream_name@,
            port_text(final(self).passthrough_port()) == Some(stream_name@),
            final(self).input_port() == old(self).input_port(),
            final(self).out_port() == old(self).out_port(),
            final(self).settings() == old(self).settings(),
            final(self).node_id() == old(self).node_id(),
            final(self).is_configured() == old(self).is_configured(),
    {
        let name = String::from_str(stream_name);
        self.passthrough = Some(name.clone());
        Ok(name)
    }

    /// Settings of the node.
    pub fn config(&self) -> (r: &NeuralNetworkConfig)
        ensures
            *r == self.settings(),
    {
        &self.config
    }

    /// Creates the native node, given whether a file is found at the blob path
    /// (`blob_exists`): fails, changing nothing, when the blob path is empty or
    /// no file is found there.
    pub fn configure_checked(&mut self, blob_exists: bool) -> (r: DaiResult<()>)
        ensures
            old(self).settings().blob_path@.len() == 0 ==> (r matches Err(
                DaiError::InvalidConfiguration(m),
            ) && m@ == blob_required_text() && *final(self) == *old(self)),
            old(self).settings().blob_path@.len() > 0 && !blob_exists ==> (r matches Err(
                DaiError::FileNotFound(m),
            ) && m@ == blob_not_found_text(old(self).settings().blob_path@) && *final(self)
                == *old(self)),
            old(self).settings().blob_path@.len() > 0 && blob_exists ==> r is Ok
                && final(self).is_configured(),
            final(self).settings() == old(self).settings(),
            final(self).node_id() == old(self).node_id(),
            final(self).input_port() == old(self).input_port(),
            final(self).out_port() == old(self).out_port(),
            final(self).passthrough_port() == old(self).passthrough_port(),
    {
        if self.config.blob_path.as_str().is_empty() {
            return Err(
                DaiError::InvalidConfiguration(
                    String::from_str("Neural network blob path is required"),
                ),
            );
        }
        if !blob_exists {
            let msg = String::from_str("Blob file not found: ").concat(self.config.blob_path.as_str());
            return Err(DaiError::FileNotFound(msg));
        }
        self.configured = true;
        Ok(())
    }
}

impl PipelineNode for NeuralNetwork {
    fn id(&self) -> (r: String)
        ensures
            r@ == self.node_id(),
    {
        self.id.clone()
    }

    fn node_type(&self) -> (r: String)
        ensures
            r@ == "NeuralNetwork"@,
    {
        String::from_str("NeuralNetwork")
    }

    /// Checks the blob path, then whether a file is found there on the file
    /// system, and creates the native node; each failure changes nothing.
    fn configure(&mut self) -> (r: DaiResult<()>)
        ensures
            old(self).settings().blob_path@.len() == 0 ==> (r matches Err(
                DaiError::InvalidConfiguration(m),
            ) && m@ == blob_required_text() && *final(self) == *old(self)),
            old(self).settings().blob_path@.len() > 0 ==> (r is Ok && final(self).is_configured())
                || (r matches Err(DaiError::FileNotFound(m)) && m@ == blob_not_found_text(
                old(self).settings().blob_path@,
            ) && *final(self) == *old(self)),
            final(self).settings() == old(self).settings(),
            final(self).node_id() == old(self).node_id(),
    {
        let exists = if self.config.blob_path.as_str().is_empty() {
            false
        } else {
            path_exists(self.config.blob_path.as_str())
        };
        self.configure_checked(exists)
    }

    /// The stream bound to the input, if any.
    fn inputs(&self) -> (r: Vec<String>)
        ensures
            texts(r@) == bound(self.input_port()),
    {
        let mut v: Vec<String> = Vec::new();
        push_bound(&mut v, &self.input);
        assert(texts(v@) =~= bound(self.input_port()));
        v
    }

    /// The streams bound to the result output and the passthrough output, in
    /// that order.
    fn outputs(&self) -> (r: Vec<String>)
        ensures
            texts(r@) == bound(self.out_port()) + bound(self.passthrough_port()),
    {
        let mut v: Vec<String> = Vec::new();
        push_bound(&mut v, &self.out);
        push_bound(&mut v, &self.passthrough);
        assert(texts(v@) =~= bound(self.out_port()) + bound(self.passthrough_port()));
        v
    }
}

} // verus!
