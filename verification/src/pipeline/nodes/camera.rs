//! Colour camera node: its settings and the host-side node that carries them.

use vstd::prelude::*;
use vstd::string::*;
use crate::error::{DaiError, DaiResult};
use crate::pipeline::PipelineNode;
use crate::pipeline::nodes::texts;

verus! {

/// Camera socket of a colour camera node: the RGB (centre) camera or one of the
/// two stereo cameras.
#[derive(Debug, Clone, Copy, PartialEq, Eq, Structural)]
pub enum CameraBoardSocket {
    Rgb,
    Left,
    Right,
}

/// Native number of each socket.
pub open spec fn node_socket_code(s: CameraBoardSocket) -> u32 {
    match s {
        CameraBoardSocket::Rgb => 0,
        CameraBoardSocket::Left => 1,
        CameraBoardSocket::Right => 2,
    }
}

impl CameraBoardSocket {
    /// Native number of this socket: 0 for RGB, 1 for left, 2 for right.
    pub fn as_u32(&self) -> (r: u32)
        ensures
            r == node_socket_code(*self),
    {
        match self {
            CameraBoardSocket::Rgb => 0,
            CameraBoardSocket::Left => 1,
            CameraBoardSocket::Right => 2,
        }
    }
}

/// Sensor resolution of a colour camera.
#[derive(Debug, Clone, Copy, PartialEq, Eq, Structural)]
pub enum CameraResolution {
    The1080P,
    The4K,
    The720P,
    The800P,
}

impl Default for CameraResolution {
    fn default() -> (r: Self)
        ensures
            r == CameraResolution::The1080P,
    {
        CameraResolution::The1080P
    }
}

/// Channel order of colour output.
#[derive(Debug, Clone, Copy, PartialEq, Eq, Structural)]
pub enum ColorOrder {
    BGR,
    RGB,
}

/// Settings of a colour camera node. The frame rate is kept as the IEEE-754
/// bit pattern of a single-precision number (`f32::to_bits`).
#[derive(Debug, Clone, Copy)]
pub struct CameraConfig {
    pub board_socket: Option<CameraBoardSocket>,
    pub resolution: CameraResolution,
    pub fps_bits: u32,
    pub preview_size: Option<(u32, u32)>,
    pub color_order: Option<ColorOrder>,
}

impl CameraConfig {
    /// No socket, 1080p, frame rate 0.0 (bit pattern 0), no preview size and no
    /// colour order.
    pub open spec fn default_settings() -> CameraConfig {
        CameraConfig {
            board_socket: None,
            resolution: CameraResolution::The1080P,
            fps_bits: 0,
            preview_size: None,
            color_order: None,
        }
    }
}

impl Default for CameraConfig {
    fn default() -> (r: Self)
        ensures
            r == CameraConfig::default_settings(),
    {
        CameraConfig {
            board_socket: None,
            resolution: CameraResolution::default(),
            fps_bits: 0,
            preview_size: None,
            color_order: None,
        }
    }
}

/// Colour camera node.
pub struct Camera {
    pub id: String,
    pub config: CameraConfig,
    /// Whether `configure` has created the native node.
    pub(crate) configured: bool,
}

impl Camera {
    /// Identifier of the node.
    pub closed spec fn node_id(&self) -> Seq<char> {
        self.id@
    }

    /// Settings of the node.
    pub closed spec fn settings(&self) -> CameraConfig {
        self.config
    }

    /// Whether the native node has been created.
    pub closed spec fn is_configured(&self) -> bool {
        self.configured
    }

    /// Node `id` with default settings.
    pub fn new(id: &str) -> (r: Camera)
        ensures
            r.node_id() == id@,
            r.settings() == CameraConfig::default_settings(),
            !r.is_configured(),
    {
        Camera { id: String::from_str(id), config: CameraConfig::default(), configured: false }
    }

    /// Node `id` with the given settings.
    pub fn with_config(id: &str, config: CameraConfig) -> (r: Camera)
        ensures
            r.node_id() == id@,
            r.settings() == config,
            !r.is_configured(),
    {
        Camera { id: String::from_str(id), config, configured: false }
    }

    /// Sets the socket; returns the node for further settings.
    pub fn set_board_socket(&mut self, socket: CameraBoardSocket) -> (r: &mut Self)
        ensures
            r.settings() == (CameraConfig { board_socket: Some(socket), ..old(self).settings() }),
            r.node_id() == old(self).node_id(),
            r.is_configured() == old(self).is_configured(),
            *final(self) == *final(r),
    {
        self.config.board_socket = Some(socket);
        self
    }

    /// Sets the resolution; returns the node for further settings.
    pub fn set_resolution(&mut self, resolution: CameraResolution) -> (r: &mut Self)
        ensures
            r.settings() == (CameraConfig { resolution, ..old(self).settings() }),
            r.node_id() == old(self).node_id(),
            r.is_configured() == old(self).is_configured(),
            *final(self) == *final(r),
    {
        self.config.resolution = resolution;
        self
    }

    /// Sets the frame rate, given as the bit pattern of an `f32`; returns the
    /// node for further settings.
    pub fn set_fps(&mut self, fps_bits: u32) -> (r: &mut Self)
        ensures
            r.settings() == (CameraConfig { fps_bits, ..old(self).settings() }),
            r.node_id() == old(self).node_id(),
            r.is_configured() == old(self).is_configured(),
            *final(self) == *final(r),
    {
        self.config.fps_bits = fps_bits;
        self
    }
}

impl PipelineNode for Camera {
    fn id(&self) -> (r: String)
        ensures
            r@ == self.node_id(),
    {
        self.id.clone()
    }

    fn node_type(&self) -> (r: String)
        ensures
            r@ == "Camera"@,
    {
        String::from_str("Camera")
    }

    /// Creates the native node; fails, changing nothing, when it exists
    /// already.
    fn configure(&mut self) -> (r: DaiResult<()>)
        ensures
            old(self).is_configured() ==> (r matches Err(DaiError::AlreadyInitialized)
                && *final(self) == *old(self)),
            !old(self).is_configured() ==> r is Ok && final(self).is_configured(),
            final(self).node_id() == old(self).node_id(),
            final(self).settings() == old(self).settings(),
    {
        if self.configured {
            return Err(DaiError::AlreadyInitialized);
        }
        self.configured = true;
        Ok(())
    }

    /// The control input, "inputControl".
    fn inputs(&self) -> (r: Vec<String>)
        ensures
            texts(r@) == seq!["inputControl"@],
    {
        let mut v: Vec<String> = Vec::new();
        v.push(String::from_str("inputControl"));
        assert(texts(v@) =~= seq!["inputControl"@]);
        v
    }

    /// The outputs "video", "still" and "isp".
    fn outputs(&self) -> (r: Vec<String>)
        ensures
            texts(r@) == seq!["video"@, "still"@, "isp"@],
    {
        let mut v: Vec<String> = Vec::new();
        v.push(String::from_str("video"));
        v.push(String::from_str("still"));
        v.push(String::from_str("isp"));
        assert(texts(v@) =~= seq!["video"@, "still"@, "isp"@]);
        v
    }
}

} // verus!
