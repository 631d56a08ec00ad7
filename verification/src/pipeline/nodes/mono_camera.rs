//! Mono camera node: sensor resolutions, settings and the host-side node that
//! carries them.

use vstd::prelude::*;
use vstd::string::*;
use crate::common::CameraBoardSocket;
use crate::error::DaiResult;
use crate::pipeline::PipelineNode;
use crate::pipeline::nodes::{bound, port_text, push_bound, texts};

verus! {

/// Sensor resolution of a mono camera.
#[derive(Debug, Clone, Copy, PartialEq, Eq, Structural)]
pub enum MonoCameraResolution {
    The400P,
    The480P,
    The720P,
    The800P,
    The1200P,
}

impl Default for MonoCameraResolution {
    fn default() -> (r: Self)
        ensures
            r == MonoCameraResolution::The400P,
    {
        MonoCameraResolution::The400P
    }
}

/// Width and height of each resolution.
pub open spec fn mono_dimensions(r: MonoCameraResolution) -> (u32, u32) {
    match r {
        MonoCameraResolution::The400P => (640, 400),
        MonoCameraResolution::The480P => (640, 480),
        MonoCameraResolution::The720P => (1280, 720),
        MonoCameraResolution::The800P => (1280, 800),
        MonoCameraResolution::The1200P => (1920, 1200),
    }
}

/// The number of lines that a resolution's name gives: `The<N>P` has N.
pub open spec fn nominal_lines(r: MonoCameraResolution) -> u32 {
    match r {
        MonoCameraResolution::The400P => 400,
        MonoCameraResolution::The480P => 480,
        MonoCameraResolution::The720P => 720,
        MonoCameraResolution::The800P => 800,
        MonoCameraResolution::The1200P => 1200,
    }
}

/// Dimensions of the mono resolutions: the height of `The<N>P` is N lines; the
/// width is between 4/3 and 16/9 of the height; and distinct resolutions have
/// distinct dimensions.
pub proof fn lemma_mono_dimensions(r: MonoCameraResolution, s: MonoCameraResolution)
    ensures
        mono_dimensions(r).1 == nominal_lines(r),
        3 * mono_dimensions(r).0 >= 4 * mono_dimensions(r).1,
        9 * mono_dimensions(r).0 <= 16 * mono_dimensions(r).1,
        r != s ==> mono_dimensions(r) != mono_dimensions(s),
{
}

impl MonoCameraResolution {
    /// Width and height in pixels.
    pub fn dimensions(&self) -> (r: (u32, u32))
        ensures
            r == mono_dimensions(*self),
    {
        match self {
            MonoCameraResolution::The400P => (640, 400),
            MonoCameraResolution::The480P => (640, 480),
            MonoCameraResolution::The720P => (1280, 720),
            MonoCameraResolution::The800P => (1280, 800),
            MonoCameraResolution::The1200P => (1920, 1200),
        }
    }

    /// Number of pixels: width times height.
    pub fn pixel_count(&self) -> (r: u32)
        ensures
            r == mono_dimensions(*self).0 * mono_dimensions(*self).1,
    {
        let (w, h) = self.dimensions();
        w * h
    }
}

/// Bit pattern of the `f32` 30.0, the default frame rate.
pub const FPS_30_BITS: u32 = 0x41f0_0000;

/// Settings of a mono camera node. The frame rate is kept as the IEEE-754 bit
/// pattern of a single-precision number (`f32::to_bits`).
#[derive(Debug, Clone, Copy)]
pub struct MonoCameraConfig {
    pub board_socket: Option<CameraBoardSocket>,
    pub resolution: MonoCameraResolution,
    pub fps_bits: u32,
}

impl MonoCameraConfig {
    /// Socket A, 720p, 30 frames per second.
    pub open spec fn default_settings() -> MonoCameraConfig {
        MonoCameraConfig {
            board_socket: Some(CameraBoardSocket::CamA),
            resolution: MonoCameraResolution::The720P,
            fps_bits: FPS_30_BITS,
        }
    }
}

impl Default for MonoCameraConfig {
    fn default() -> (r: Self)
        ensures
            r == MonoCameraConfig::default_settings(),
    {
        MonoCameraConfig {
            board_socket: Some(CameraBoardSocket::CamA),
            resolution: MonoCameraResolution::The720P,
            fps_bits: FPS_30_BITS,
        }
    }
}

/// Mono camera node: captures grayscale images.
pub struct MonoCamera {
    id: String,
    config: MonoCameraConfig,
    /// Whether `configure` has created the native node.
    configured: bool,
    /// Stream bound to the output "out".
    out: Option<String>,
}

impl MonoCamera {
    /// Identifier of the node.
    pub closed spec fn node_id(&self) -> Seq<char> {
        self.id@
    }

    /// Settings of the node.
    pub closed spec fn settings(&self) -> MonoCameraConfig {
        self.config
    }

    /// Whether the native node has been created.
    pub closed spec fn is_configured(&self) -> bool {
        self.configured
    }

    /// Stream bound to the output.
    pub closed spec fn out_port(&self) -> Option<String> {
        self.out
    }

    /// Node `id` with default settings.
    pub fn new(id: &str) -> (r: MonoCamera)
        ensures
            r.node_id() == id@,
            r.settings() == MonoCameraConfig::default_settings(),
            !r.is_configured(),
            r.out_port() is None,
    {
        Self::with_config(id, MonoCameraConfig::default())
    }

    /// Node `id` with the given settings.
    pub fn with_config(id: &str, config: MonoCameraConfig) -> (r: MonoCamera)
        ensures
            r.node_id() == id@,
            r.settings() == config,
            !r.is_configured(),
            r.out_port() is None,
    {
        MonoCamera { id: String::from_str(id), config, configured: false, out: None }
    }

    /// Binds `stream_name` to the output, replacing an earlier binding, and
    /// hands the name back.
    pub fn request_output(&mut self, stream_name: &str) -> (r: DaiResult<String>)
        ensures
            r matches Ok(s) && s@ == stream_name@,
            port_text(final(self).out_port()) == Some(stream_name@),
            final(self).settings() == old(self).settings(),
            final(self).node_id() == old(self).node_id(),
            final(self).is_configured() == old(self).is_configured(),
    {
        let name = String::from_str(stream_name);
        self.out = Some(name.clone());
        Ok(name)
    }

    /// Sets the socket.
    pub fn set_board_socket(&mut self, socket: CameraBoardSocket)
        ensures
            final(self).settings() == (MonoCameraConfig {
                board_socket: Some(socket),
                ..old(self).settings()
            }),
            final(self).node_id() == old(self).node_id(),
            final(self).is_configured() == old(self).is_configured(),
            final(self).out_port() == old(self).out_port(),
    {
        self.config.board_socket = Some(socket);
    }

    /// Sets the resolution.
    pub fn set_resolution(&mut self, resolution: MonoCameraResolution)
        ensures
            final(self).settings() == (MonoCameraConfig { resolution, ..old(self).settings() }),
            final(self).node_id() == old(self).node_id(),
            final(self).is_configured() == old(self).is_configured(),
            final(self).out_port() == old(self).out_port(),
    {
        self.config.resolution = resolution;
    }

    /// Sets the frame rate, given as the bit pattern of an `f32`.
    pub fn set_fps(&mut self, fps_bits: u32)
        ensures
            final(self).settings() == (MonoCameraConfig { fps_bits, ..old(self).settings() }),
            final(self).node_id() == old(self).node_id(),
            final(self).is_configured() == old(self).is_configured(),
            final(self).out_port() == old(self).out_port(),
    {
        self.config.fps_bits = fps_bits;
    }

    /// Settings of the node.
    pub fn config(&self) -> (r: &MonoCameraConfig)
        ensures
            *r == self.settings(),
    {
        &self.config
    }
}

impl PipelineNode for MonoCamera {
    fn id(&self) -> (r: String)
        ensures
            r@ == self.node_id(),
    {
        self.id.clone()
    }

    fn node_type(&self) -> (r: String)
        ensures
            r@ == "MonoCamera"@,
    {
        String::from_str("MonoCamera")
    }

    /// Creates the native node; always succeeds.
    fn configure(&mut self) -> (r: DaiResult<()>)
        ensures
            r is Ok,
            final(self).is_configured(),
            final(self).node_id() == old(self).node_id(),
            final(self).settings() == old(self).settings(),
            final(self).out_port() == old(self).out_port(),
    {
        self.configured = true;
        Ok(())
    }

    /// No input ports: the images come from the sensor.
    fn inputs(&self) -> (r: Vec<String>)
        ensures
            r@.len() == 0,
    {
        Vec::new()
    }

    /// The stream bound to the output, if any.
    fn outputs(&self) -> (r: Vec<String>)
        ensures
            texts(r@) == bound(self.out_port()),
    {
        let mut v: Vec<String> = Vec::new();
        push_bound(&mut v, &self.out);
        assert(texts(v@) =~= bound(self.out_port()));
        v
    }
}

} // verus!
