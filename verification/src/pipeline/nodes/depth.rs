//! Stereo depth node: its settings and the host-side node that carries them.

use vstd::prelude::*;
use vstd::string::*;
use crate::error::DaiResult;
use crate::pipeline::PipelineNode;
use crate::pipeline::nodes::{bound, port_text, push_bound, texts};

verus! {

/// Accuracy/density trade-off preset of a stereo depth node.
#[derive(Debug, Clone, Copy, PartialEq, Eq, Structural)]
pub enum DepthPreset {
    HighAccuracy,
    HighDensity,
    MediumAccuracy,
    MediumDensity,
}

/// Median filter applied to the disparity map.
#[derive(Debug, Clone, Copy, PartialEq, Eq, Structural)]
pub enum MedianFilter {
    Kernel3x3,
    Kernel5x5,
    Kernel7x7,
}

/// Native number of each median filter.
pub open spec fn median_filter_code(f: MedianFilter) -> u32 {
    match f {
        MedianFilter::Kernel3x3 => 0,
        MedianFilter::Kernel5x5 => 1,
        MedianFilter::Kernel7x7 => 2,
    }
}

impl MedianFilter {
    /// Native number of this filter: 0 for 3x3, 1 for 5x5, 2 for 7x7.
    pub fn as_type(&self) -> (r: u32)
        ensures
            r == median_filter_code(*self),
    {
        match self {
            MedianFilter::Kernel3x3 => 0,
            MedianFilter::Kernel5x5 => 1,
            MedianFilter::Kernel7x7 => 2,
        }
    }
}

/// Settings of a stereo depth node.
#[derive(Debug, Clone, Copy, PartialEq, Eq, Structural)]
pub struct DepthConfig {
    pub preset: Option<DepthPreset>,
    pub median_filter: Option<MedianFilter>,
    pub left_right_check: bool,
    pub extended_disparity: bool,
    pub subpixel: bool,
}

impl DepthConfig {
    /// No preset, no median filter, every check off.
    pub open spec fn default_settings() -> DepthConfig {
        DepthConfig {
            preset: None,
            median_filter: None,
            left_right_check: false,
            extended_disparity: false,
            subpixel: false,
        }
    }
}

/// `c` with the preset set to `preset`.
pub open spec fn with_preset(c: DepthConfig, preset: DepthPreset) -> DepthConfig {
    DepthConfig { preset: Some(preset), ..c }
}

/// `c` with the left-right check turned on or off.
pub open spec fn with_left_right_check(c: DepthConfig, enable: bool) -> DepthConfig {
    DepthConfig { left_right_check: enable, ..c }
}

/// `c` with subpixel disparity turned on or off.
pub open spec fn with_subpixel(c: DepthConfig, enable: bool) -> DepthConfig {
    DepthConfig { subpixel: enable, ..c }
}

/// `c` with the median filter set to `filter`.
pub open spec fn with_median_filter(c: DepthConfig, filter: MedianFilter) -> DepthConfig {
    DepthConfig { median_filter: Some(filter), ..c }
}

impl Default for DepthConfig {
    /// No preset, no median filter, every check off.
    fn default() -> (r: Self)
        ensures
            r == DepthConfig::default_settings(),
    {
        DepthConfig {
            preset: None,
            median_filter: None,
            left_right_check: false,
            extended_disparity: false,
            subpixel: false,
        }
    }
}

/// Stereo depth node: computes depth from a left and a right camera stream.
pub struct Depth {
    id: String,
    config: DepthConfig,
    /// Whether `configure` has created the native node.
    configured: bool,
    left: Option<String>,
    right: Option<String>,
    depth_out: Option<String>,
    disparity_out: Option<String>,
    rectified_left_out: Option<String>,
    rectified_right_out: Option<String>,
}

impl Depth {
    /// Identifier of the node.
    pub closed spec fn node_id(&self) -> Seq<char> {
        self.id@
    }

    /// Settings of the node.
    pub closed spec fn settings(&self) -> DepthConfig {
        self.config
    }

    /// Whether the native node has been created.
    pub closed spec fn is_configured(&self) -> bool {
        self.configured
    }

    /// Stream bound to the left input.
    pub closed spec fn left_port(&self) -> Option<String> {
        self.left
    }

    /// Stream bound to the right input.
    pub closed spec fn right_port(&self) -> Option<String> {
        self.right
    }

    /// Stream bound to the depth output.
    pub closed spec fn depth_out_port(&self) -> Option<String> {
        self.depth_out
    }

    /// Stream bound to the disparity output.
    pub closed spec fn disparity_out_port(&self) -> Option<String> {
        self.disparity_out
    }

    /// Stream bound to the rectified left output.
    pub closed spec fn rectified_left_out_port(&self) -> Option<String> {
        self.rectified_left_out
    }

    /// Stream bound to the rectified right output.
    pub closed spec fn rectified_right_out_port(&self) -> Option<String> {
        self.rectified_right_out
    }

    /// Streams bound to the inputs: left, then right.
    pub open spec fn input_streams(&self) -> Seq<Seq<char>> {
        bound(self.left_port()) + bound(self.right_port())
    }

    /// Streams bound to the outputs: depth, disparity, rectified left, then
    /// rectified right.
    pub open spec fn output_streams(&self) -> Seq<Seq<char>> {
        bound(self.depth_out_port()) + bound(self.disparity_out_port()) + bound(
            self.rectified_left_out_port(),
        ) + bound(self.rectified_right_out_port())
    }

    /// Same identifier and native-node state as `other`.
    pub open spec fn same_node(&self, other: Depth) -> bool {
        self.node_id() == other.node_id() && self.is_configured() == other.is_configured()
    }

    /// Same input bindings as `other`.
    pub open spec fn same_inputs(&self, other: Depth) -> bool {
        self.left_port() == other.left_port() && self.right_port() == other.right_port()
    }

    /// Same output bindings as `other`.
    pub open spec fn same_outputs(&self, other: Depth) -> bool {
        &&& self.depth_out_port() == other.depth_out_port()
        &&& self.disparity_out_port() == other.disparity_out_port()
        &&& self.rectified_left_out_port() == other.rectified_left_out_port()
        &&& self.rectified_right_out_port() == other.rectified_right_out_port()
    }

    /// Same port bindings as `other`.
    pub open spec fn same_ports(&self, other: Depth) -> bool {
        self.same_inputs(other) && self.same_outputs(other)
    }

    /// No stream bound to any port.
    pub open spec fn unbound(&self) -> bool {
        &&& self.left_port() is None
        &&& self.right_port() is None
        &&& self.depth_out_port() is None
        &&& self.disparity_out_port() is None
        &&& self.rectified_left_out_port() is None
        &&& self.rectified_right_out_port() is None
    }

    /// Node `id` with default settings.
    pub fn new(id: &str) -> (r: Depth)
        ensures
            r.node_id() == id@,
            r.settings() == DepthConfig::default_settings(),
            !r.is_configured(),
            r.unbound(),
    {
        Self::with_config(id, DepthConfig::default())
    }

    /// Node `id` with the given settings.
    pub fn with_config(id: &str, config: DepthConfig) -> (r: Depth)
        ensures
            r.node_id() == id@,
            r.settings() == config,
            !r.is_configured(),
            r.unbound(),
    {
        Depth {
            id: String::from_str(id),
            config,
            configured: false,
            left: None,
            right: None,
            depth_out: None,
            disparity_out: None,
            rectified_left_out: None,
            rectified_right_out: None,
        }
    }

    /// Sets the accuracy/density preset.
    pub fn set_preset(&mut self, preset: DepthPreset)
        ensures
            final(self).settings().preset == Some(preset),
            final(self).settings().median_filter == old(self).settings().median_filter,
            final(self).settings().left_right_check == old(self).settings().left_right_check,
            final(self).settings().extended_disparity == old(self).settings().extended_disparity,
            final(self).settings().subpixel == old(self).settings().subpixel,
            final(self).same_node(*old(self)),
            final(self).same_ports(*old(self)),
    {
        self.config.preset = Some(preset);
    }

    /// Turns the left-right consistency check on or off.
    pub fn set_left_right_check(&mut self, enable: bool)
        ensures
            final(self).settings().left_right_check == enable,
            final(self).settings().preset == old(self).settings().preset,
            final(self).settings().median_filter == old(self).settings().median_filter,
            final(self).settings().extended_disparity == old(self).settings().extended_disparity,
            final(self).settings().subpixel == old(self).settings().subpixel,
            final(self).same_node(*old(self)),
            final(self).same_ports(*old(self)),
    {
        self.config.left_right_check = enable;
    }

    /// Turns subpixel disparity on or off.
    pub fn set_subpixel(&mut self, enable: bool)
        ensures
            final(self).settings().subpixel == enable,
            final(self).settings().preset == old(self).settings().preset,
            final(self).settings().median_filter == old(self).settings().median_filter,
            final(self).settings().left_right_check == old(self).settings().left_right_check,
            final(self).settings().extended_disparity == old(self).settings().extended_disparity,
            final(self).same_node(*old(self)),
            final(self).same_ports(*old(self)),
    {
        self.config.subpixel = enable;
    }

    /// Turns extended disparity on or off.
    pub fn set_extended_disparity(&mut self, enable: bool)
        ensures
            final(self).settings().extended_disparity == enable,
            final(self).settings().preset == old(self).settings().preset,
            final(self).settings().median_filter == old(self).settings().median_filter,
            final(self).settings().left_right_check == old(self).settings().left_right_check,
            final(self).settings().subpixel == old(self).settings().subpixel,
            final(self).same_node(*old(self)),
            final(self).same_ports(*old(self)),
    {
        self.config.extended_disparity = enable;
    }

    /// Sets the median filter.
    pub fn set_median_filter(&mut self, filter: MedianFilter)
        ensures
            final(self).settings().median_filter == Some(filter),
            final(self).settings().preset == old(self).settings().preset,
            final(self).settings().left_right_check == old(self).settings().left_right_check,
            final(self).settings().extended_disparity == old(self).settings().extended_disparity,
            final(self).settings().subpixel == old(self).settings().subpixel,
            final(self).same_node(*old(self)),
            final(self).same_ports(*old(self)),
    {
        self.config.median_filter = Some(filter);
    }

    /// Binds `stream_name` to the left input, replacing an earlier binding,
    /// and hands the name back.
    pub fn request_left_input(&mut self, stream_name: &str) -> (r: DaiResult<String>)
        ensures
            r matches Ok(s) && s@ == stream_name@,
            port_text(final(self).left_port()) == Some(stream_name@),
            final(self).right_port() == old(self).right_port(),
            final(self).same_outputs(*old(self)),
            final(self).same_node(*old(self)),
            final(self).settings() == old(self).settings(),
    {
        let name = String::from_str(stream_name);
        self.left = Some(name.clone());
        Ok(name)
    }

    /// Binds `stream_name` to the right input, replacing an earlier binding,
    /// and hands the name back.
    pub fn request_right_input(&mut self, stream_name: &str) -> (r: DaiResult<String>)
        ensures
            r matches Ok(s) && s@ == stream_name@,
            port_text(final(self).right_port()) == Some(stream_name@),
            final(self).left_port() == old(self).left_port(),
            final(self).same_outputs(*old(self)),
            final(self).same_node(*old(self)),
            final(self).settings() == old(self).settings(),
    {
        let name = String::from_str(stream_name);
        self.right = Some(name.clone());
        Ok(name)
    }

    /// Binds `stream_name` to the depth output, replacing an earlier binding,
    /// and hands the name back.
    pub fn request_depth_output(&mut self, stream_name: &str) -> (r: DaiResult<String>)
        ensures
            r matches Ok(s) && s@ == stream_name@,
            port_text(final(self).depth_out_port()) == Some(stream_name@),
            final(self).disparity_out_port() == old(self).disparity_out_port(),
            final(self).rectified_left_out_port() == old(self).rectified_left_out_port(),
            final(self).rectified_right_out_port() == old(self).rectified_right_out_port(),
            final(self).same_inputs(*old(self)),
            final(self).same_node(*old(self)),
            final(self).settings() == old(self).settings(),
    {
        let name = String::from_str(stream_name);
        self.depth_out = Some(name.clone());
        Ok(name)
    }

    /// Binds `stream_name` to the disparity output, replacing an earlier
    /// binding, and hands the name back.
    pub fn request_disparity_output(&mut self, stream_name: &str) -> (r: DaiResult<String>)
        ensures
            r matches Ok(s) && s@ == stream_name@,
            port_text(final(self).disparity_out_port()) == Some(stream_name@),
            final(self).depth_out_port() == old(self).depth_out_port(),
            final(self).rectified_left_out_port() == old(self).rectified_left_out_port(),
            final(self).rectified_right_out_port() == old(self).rectified_right_out_port(),
            final(self).same_inputs(*old(self)),
            final(self).same_node(*old(self)),
            final(self).settings() == old(self).settings(),
    {
        let name = String::from_str(stream_name);
        self.disparity_out = Some(name.clone());
        Ok(name)
    }

    /// Binds `stream_name` to the rectified left output, replacing an earlier
    /// binding, and hands the name back.
    pub fn request_rectified_left_output(&mut self, stream_name: &str) -> (r: DaiResult<String>)
        ensures
            r matches Ok(s) && s@ == stream_name@,
            port_text(final(self).rectified_left_out_port()) == Some(stream_name@),
            final(self).depth_out_port() == old(self).depth_out_port(),
            final(self).disparity_out_port() == old(self).disparity_out_port(),
            final(self).rectified_right_out_port() == old(self).rectified_right_out_port(),
            final(self).same_inputs(*old(self)),
            final(self).same_node(*old(self)),
            final(self).settings() == old(self).settings(),
    {
        let name = String::from_str(stream_name);
        self.rectified_left_out = Some(name.clone());
        Ok(name)
    }

    /// Binds `stream_name` to the rectified right output, replacing an earlier
    /// binding, and hands the name back.
    pub fn request_rectified_right_output(&mut self, stream_name: &str) -> (r: DaiResult<String>)
        ensures
            r matches Ok(s) && s@ == stream_name@,
            port_text(final(self).rectified_right_out_port()) == Some(stream_name@),
            final(self).depth_out_port() == old(self).depth_out_port(),
            final(self).disparity_out_port() == old(self).disparity_out_port(),
            final(self).rectified_left_out_port() == old(self).rectified_left_out_port(),
            final(self).same_inputs(*old(self)),
            final(self).same_node(*old(self)),
            final(self).settings() == old(self).settings(),
    {
        let name = String::from_str(stream_name);
        self.rectified_right_out = Some(name.clone());
        Ok(name)
    }

    /// Settings of the node.
    pub fn config(&self) -> (r: &DepthConfig)
        ensures
            *r == self.settings(),
    {
        &self.config
    }
}

impl PipelineNode for Depth {
    fn id(&self) -> (r: String)
        ensures
            r@ == self.node_id(),
    {
        self.id.clone()
    }

    fn node_type(&self) -> (r: String)
        ensures
            r@ == "StereoDepth"@,
    {
        String::from_str("StereoDepth")
    }

    /// Creates the native node; always succeeds.
    fn configure(&mut self) -> (r: DaiResult<()>)
        ensures
            r is Ok,
            final(self).is_configured(),
            final(self).node_id() == old(self).node_id(),
            final(self).settings() == old(self).settings(),
            final(self).same_ports(*old(self)),
    {
        self.configured = true;
        Ok(())
    }

    /// Streams bound to the inputs, left before right.
    fn inputs(&self) -> (r: Vec<String>)
        ensures
            texts(r@) == self.input_streams(),
    {
        let mut v: Vec<String> = Vec::new();
        push_bound(&mut v, &self.left);
        push_bound(&mut v, &self.right);
        assert(texts(v@) =~= self.input_streams());
        v
    }

    /// Streams bound to the outputs: depth, disparity, rectified left, rectified
    /// right.
    fn outputs(&self) -> (r: Vec<String>)
        ensures
            texts(r@) == self.output_streams(),
    {
        let mut v: Vec<String> = Vec::new();
        push_bound(&mut v, &self.depth_out);
        push_bound(&mut v, &self.disparity_out);
        push_bound(&mut v, &self.rectified_left_out);
        push_bound(&mut v, &self.rectified_right_out);
        assert(texts(v@) =~= self.output_streams());
        v
    }
}

} // verus!
