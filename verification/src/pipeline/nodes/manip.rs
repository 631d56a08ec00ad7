//! Image manipulation node: resize and crop settings and the host-side node that
//! carries them.

use vstd::prelude::*;
use vstd::string::*;
use crate::error::DaiResult;
use crate::pipeline::PipelineNode;

verus! {

/// How an image is fitted to a new size.
#[derive(Debug, Clone, Copy, PartialEq, Eq, Structural)]
pub enum ResizeMode {
    Crop,
    Letterbox,
    Stretch,
}

/// Resize step: target size, fitting mode and whether the aspect ratio is kept.
#[derive(Debug, Clone, Copy, PartialEq, Eq, Structural)]
pub struct ResizeConfig {
    pub width: u32,
    pub height: u32,
    pub mode: ResizeMode,
    pub keep_aspect_ratio: bool,
}

/// Crop step: the normalised corners of the kept rectangle, each kept as the
/// IEEE-754 bit pattern of a single-precision number (`f32::to_bits`).
#[derive(Debug, Clone, Copy, PartialEq, Eq, Structural)]
pub struct CropConfig {
    pub x_min_bits: u32,
    pub y_min_bits: u32,
    pub x_max_bits: u32,
    pub y_max_bits: u32,
}

/// Settings of an image manipulation node.
#[derive(Debug, Clone, Copy)]
pub struct ImageManipConfig {
    pub resize: Option<ResizeConfig>,
    pub crop: Option<CropConfig>,
    pub keep_aspect_ratio: Option<bool>,
    pub interpolation: Option<u32>,
}

impl ImageManipConfig {
    /// No resize, no crop, aspect ratio kept, default interpolation.
    pub open spec fn default_settings() -> ImageManipConfig {
        ImageManipConfig {
            resize: None,
            crop: None,
            keep_aspect_ratio: Some(true),
            interpolation: None,
        }
    }
}

impl Default for ImageManipConfig {
    fn default() -> (r: Self)
        ensures
            r == ImageManipConfig::default_settings(),
    {
        ImageManipConfig { resize: None, crop: None, keep_aspect_ratio: Some(true), interpolation: None }
    }
}

/// Image manipulation node: resizes and crops frames.
pub struct ImageManip {
    /// Whether `configure` has created the native node.
    configured: bool,
    config: ImageManipConfig,
}

impl ImageManip {
    /// Settings of the node.
    pub closed spec fn settings(&self) -> ImageManipConfig {
        self.config
    }

    /// Whether the native node has been created.
    pub closed spec fn is_configured(&self) -> bool {
        self.configured
    }

    /// Node with default settings.
    pub fn new() -> (r: ImageManip)
        ensures
            r.settings() == ImageManipConfig::default_settings(),
            !r.is_configured(),
    {
        ImageManip { configured: false, config: ImageManipConfig::default() }
    }

    /// Node with the given settings.
    pub fn with_config(config: ImageManipConfig) -> (r: ImageManip)
        ensures
            r.settings() == config,
            !r.is_configured(),
    {
        ImageManip { configured: false, config }
    }

    /// Resizes to `width` by `height` with `mode`, keeping the aspect ratio;
    /// returns the node for further settings.
    pub fn set_resize(&mut self, width: u32, height: u32, mode: ResizeMode) -> (r: &mut Self)
        ensures
            r.settings() == (ImageManipConfig {
                resize: Some(ResizeConfig { width, height, mode, keep_aspect_ratio: true }),
                ..old(self).settings()
            }),
            r.is_configured() == old(self).is_configured(),
            *final(self) == *final(r),
    {
        self.config.resize = Some(ResizeConfig { width, height, mode, keep_aspect_ratio: true });
        self
    }

    /// Crops to the rectangle with the given normalised corners, each given as
    /// the bit pattern of an `f32`; returns the node for further settings.
    pub fn set_crop(
        &mut self,
        x_min_bits: u32,
        y_min_bits: u32,
        x_max_bits: u32,
        y_max_bits: u32,
    ) -> (r: &mut Self)
        ensures
            r.settings() == (ImageManipConfig {
                crop: Some(CropConfig { x_min_bits, y_min_bits, x_max_bits, y_max_bits }),
                ..old(self).settings()
            }),
            r.is_configured() == old(self).is_configured(),
            *final(self) == *final(r),
    {
        self.config.crop = Some(CropConfig { x_min_bits, y_min_bits, x_max_bits, y_max_bits });
        self
    }

    /// Sets whether the aspect ratio is kept; returns the node for further
    /// settings.
    pub fn set_keep_aspect_ratio(&mut self, keep: bool) -> (r: &mut Self)
        ensures
            r.settings() == (ImageManipConfig {
                keep_aspect_ratio: Some(keep),
                ..old(self).settings()
            }),
            r.is_configured() == old(self).is_configured(),
            *final(self) == *final(r),
    {
        self.config.keep_aspect_ratio = Some(keep);
        self
    }

    /// Sets the interpolation method by its native number; returns the node for
    /// further settings.
    pub fn set_interpolation(&mut self, interpolation: u32) -> (r: &mut Self)
        ensures
            r.settings() == (ImageManipConfig {
                interpolation: Some(interpolation),
                ..old(self).settings()
            }),
            r.is_configured() == old(self).is_configured(),
            *final(self) == *final(r),
    {
        self.config.interpolation = Some(interpolation);
        self
    }

    /// The resize step, if one is set.
    pub fn get_resize_config(&self) -> (r: Option<&ResizeConfig>)
        ensures
            r is Some <==> self.settings().resize is Some,
            r matches Some(c) ==> self.settings().resize == Some(*c),
    {
        self.config.resize.as_ref()
    }

    /// The crop step, if one is set.
    pub fn get_crop_config(&self) -> (r: Option<&CropConfig>)
        ensures
            r is Some <==> self.settings().crop is Some,
            r matches Some(c) ==> self.settings().crop == Some(*c),
    {
        self.config.crop.as_ref()
    }
}

impl Default for ImageManip {
    fn default() -> (r: Self)
        ensures
            r.settings() == ImageManipConfig::default_settings(),
            !r.is_configured(),
    {
        ImageManip::new()
    }
}

impl PipelineNode for ImageManip {
    /// Every image manipulation node is identified as "image_manip".
    fn id(&self) -> (r: String)
        ensures
            r@ == "image_manip"@,
    {
        String::from_str("image_manip")
    }

    fn node_type(&self) -> (r: String)
        ensures
            r@ == "ImageManip"@,
    {
        String::from_str("ImageManip")
    }

    /// Creates the native node unless it exists already; always succeeds.
    fn configure(&mut self) -> (r: DaiResult<()>)
        ensures
            r is Ok,
            final(self).is_configured(),
            final(self).settings() == old(self).settings(),
    {
        if !self.configured {
            self.configured = true;
        }
        Ok(())
    }

    /// No port bindings are kept for this node.
    fn inputs(&self) -> (r: Vec<String>)
        ensures
            r@.len() == 0,
    {
        Vec::new()
    }

    /// No port bindings are kept for this node.
    fn outputs(&self) -> (r: Vec<String>)
        ensures
            r@.len() == 0,
    {
        Vec::new()
    }
}

} // verus!
