//! Fluent construction of a pipeline description: a builder collects colour and
//! mono cameras, neural networks, stereo depth and image manipulation nodes,
//! output and input streams, each under an identifier, and the links between
//! node ports.

use vstd::prelude::*;
use vstd::string::*;
use crate::common::{socket_code, CameraBoardSocket as BoardSocket};
use crate::pipeline::nodes::camera::{
    node_socket_code, Camera, CameraBoardSocket, CameraConfig, CameraResolution, ColorOrder,
};
use crate::pipeline::nodes::depth::{
    with_left_right_check, with_median_filter, with_preset, with_subpixel, Depth, DepthConfig,
    DepthPreset, MedianFilter,
};
use crate::pipeline::nodes::input::{XLinkIn, XLinkInConfig};
use crate::pipeline::nodes::manip::{
    CropConfig, ImageManip, ImageManipConfig, ResizeConfig, ResizeMode,
};
use crate::pipeline::nodes::mono_camera::{MonoCamera, MonoCameraConfig, MonoCameraResolution};
use crate::pipeline::nodes::neural_network::{NeuralNetwork, NeuralNetworkConfig};
use crate::pipeline::nodes::output::{XLinkOut, XLinkOutConfig};

verus! {

/// `longer` is `shorter` with one more item at the end.
pub open spec fn appended<T>(longer: Seq<T>, shorter: Seq<T>) -> bool {
    longer.len() == shorter.len() + 1 && longer.subrange(0, shorter.len() as int) == shorter
}

/// A link from an output port of one node to an input port of another.
#[derive(Debug)]
pub struct Connection {
    pub from_node: String,
    pub from_port: String,
    pub to_node: String,
    pub to_port: String,
}

impl Clone for Connection {
    fn clone(&self) -> (r: Self)
        ensures
            r == *self,
    {
        Connection {
            from_node: self.from_node.clone(),
            from_port: self.from_port.clone(),
            to_node: self.to_node.clone(),
            to_port: self.to_port.clone(),
        }
    }
}

/// The node lists of a builder, to name one of them in a contract.
#[derive(Debug, Clone, Copy, PartialEq, Eq, Structural)]
pub enum NodeList {
    Cameras,
    MonoCameras,
    NeuralNetworks,
    DepthNodes,
    ManipNodes,
    OutputNodes,
    InputNodes,
}

/// Collects the nodes of a pipeline and the links between them.
pub struct PipelineBuilder {
    cameras: Vec<(String, Camera)>,
    mono_cameras: Vec<(String, MonoCamera)>,
    neural_networks: Vec<(String, NeuralNetwork)>,
    depth_nodes: Vec<(String, Depth)>,
    manip_nodes: Vec<(String, ImageManip)>,
    output_nodes: Vec<(String, XLinkOut)>,
    input_nodes: Vec<(String, XLinkIn)>,
    connections: Vec<Connection>,
}

impl PipelineBuilder {
    /// Colour cameras added so far, with their identifiers, in order.
    pub closed spec fn camera_entries(&self) -> Seq<(String, Camera)> {
        self.cameras@
    }

    /// Mono cameras added so far, with their identifiers, in order.
    pub closed spec fn mono_camera_entries(&self) -> Seq<(String, MonoCamera)> {
        self.mono_cameras@
    }

    /// Neural networks added so far, with their identifiers, in order.
    pub closed spec fn neural_network_entries(&self) -> Seq<(String, NeuralNetwork)> {
        self.neural_networks@
    }

    /// Stereo depth nodes added so far, with their identifiers, in order.
    pub closed spec fn depth_entries(&self) -> Seq<(String, Depth)> {
        self.depth_nodes@
    }

    /// Image manipulation nodes added so far, with their identifiers, in order.
    pub closed spec fn manip_entries(&self) -> Seq<(String, ImageManip)> {
        self.manip_nodes@
    }

    /// Output streams added so far, with their identifiers, in order.
    pub closed spec fn output_entries(&self) -> Seq<(String, XLinkOut)> {
        self.output_nodes@
    }

    /// Input streams added so far, with their identifiers, in order.
    pub closed spec fn input_entries(&self) -> Seq<(String, XLinkIn)> {
        self.input_nodes@
    }

    /// Links added so far, in order.
    pub closed spec fn links(&self) -> Seq<Connection> {
        self.connections@
    }

    /// Same entries as `other` in every node list but `except`, and the same
    /// links.
    pub open spec fn same_except(&self, other: PipelineBuilder, except: NodeList) -> bool {
        &&& (except != NodeList::Cameras ==> self.camera_entries() == other.camera_entries())
        &&& (except != NodeList::MonoCameras ==> self.mono_camera_entries()
            == other.mono_camera_entries())
        &&& (except != NodeList::NeuralNetworks ==> self.neural_network_entries()
            == other.neural_network_entries())
        &&& (except != NodeList::DepthNodes ==> self.depth_entries() == other.depth_entries())
        &&& (except != NodeList::ManipNodes ==> self.manip_entries() == other.manip_entries())
        &&& (except != NodeList::OutputNodes ==> self.output_entries() == other.output_entries())
        &&& (except != NodeList::InputNodes ==> self.input_entries() == other.input_entries())
        &&& self.links() == other.links()
    }

    /// Same nodes of every kind as `other`.
    pub open spec fn same_nodes(&self, other: PipelineBuilder) -> bool {
        &&& self.camera_entries() == other.camera_entries()
        &&& self.mono_camera_entries() == other.mono_camera_entries()
        &&& self.neural_network_entries() == other.neural_network_entries()
        &&& self.depth_entries() == other.depth_entries()
        &&& self.manip_entries() == other.manip_entries()
        &&& self.output_entries() == other.output_entries()
        &&& self.input_entries() == other.input_entries()
    }

    /// Nothing added yet.
    pub open spec fn is_empty(&self) -> bool {
        &&& self.camera_entries().len() == 0
        &&& self.mono_camera_entries().len() == 0
        &&& self.neural_network_entries().len() == 0
        &&& self.depth_entries().len() == 0
        &&& self.manip_entries().len() == 0
        &&& self.output_entries().len() == 0
        &&& self.input_entries().len() == 0
        &&& self.links().len() == 0
    }

    /// A builder with no nodes and no links.
    pub fn new() -> (r: PipelineBuilder)
        ensures
            r.is_empty(),
    {
        PipelineBuilder {
            cameras: Vec::new(),
            mono_cameras: Vec::new(),
            neural_networks: Vec::new(),
            depth_nodes: Vec::new(),
            manip_nodes: Vec::new(),
            output_nodes: Vec::new(),
            input_nodes: Vec::new(),
            connections: Vec::new(),
        }
    }

    /// Starts a colour camera on `socket` with default settings, identified as
    /// "camera_" followed by the socket's name unless renamed.
    pub fn add_camera(self, socket: CameraBoardSocket) -> (r: CameraBuilder)
        ensures
            r.parent_builder() == self,
            r.node_name() == "camera_"@ + node_socket_name(socket),
            r.settings() == (CameraConfig {
                board_socket: Some(socket),
                ..CameraConfig::default_settings()
            }),
    {
        CameraBuilder::new(self, socket)
    }

    /// Starts a mono camera on `socket` with default settings, identified as
    /// "mono_camera_" followed by the socket's name unless renamed.
    pub fn add_mono_camera(self, socket: BoardSocket) -> (r: MonoCameraBuilder)
        ensures
            r.parent_builder() == self,
            r.node_name() == "mono_camera_"@ + board_socket_name(socket),
            r.settings() == (MonoCameraConfig {
                board_socket: Some(socket),
                ..MonoCameraConfig::default_settings()
            }),
    {
        MonoCameraBuilder::new(self, socket)
    }

    /// Starts a neural network running the blob at `blob_path`, other settings
    /// at their defaults, identified as "neural_network" unless renamed.
    pub fn add_neural_network(self, blob_path: &str) -> (r: NeuralNetworkBuilder)
        ensures
            r.parent_builder() == self,
            r.node_name() == "neural_network"@,
            r.settings().blob_path@ == blob_path@,
            r.settings().num_threads is None,
            r.settings().num_nce_per_thread is None,
            r.settings().input_size is None,
            r.settings().confidence_threshold_bits is None,
    {
        NeuralNetworkBuilder::new(self, blob_path)
    }

    /// Starts a stereo depth node with default settings, identified as
    /// "stereo_depth" unless renamed.
    pub fn add_stereo_depth(self) -> (r: DepthBuilder)
        ensures
            r.parent_builder() == self,
            r.node_name() == "stereo_depth"@,
            r.settings() == DepthConfig::default_settings(),
    {
        DepthBuilder::new(self)
    }

    /// Starts an image manipulation node with default settings, identified as
    /// "image_manip" unless renamed.
    pub fn add_image_manip(self) -> (r: ImageManipBuilder)
        ensures
            r.parent_builder() == self,
            r.node_name() == "image_manip"@,
            r.settings() == ImageManipConfig::default_settings(),
    {
        ImageManipBuilder::new(self)
    }

    /// Starts an output stream named `stream_name`, identified as "output_"
    /// followed by the stream name unless renamed.
    pub fn add_output(self, stream_name: &str) -> (r: OutputBuilder)
        ensures
            r.parent_builder() == self,
            r.node_name() == "output_"@ + stream_name@,
            r.settings().stream_name@ == stream_name@,
            !r.settings().metadata_only,
    {
        OutputBuilder::new(self, stream_name)
    }

    /// Starts an input stream named `stream_name`, identified as "input_"
    /// followed by the stream name unless renamed.
    pub fn add_input(self, stream_name: &str) -> (r: InputBuilder)
        ensures
            r.parent_builder() == self,
            r.node_name() == "input_"@ + stream_name@,
            r.settings().stream_name@ == stream_name@,
            r.settings().max_data_size is None,
            r.settings().num_frames == Some(8u8),
    {
        InputBuilder::new(self, stream_name)
    }

    /// Adds a link from port `from_port` of node `from_node` to port `to_port`
    /// of node `to_node`, after the links added before.
    pub fn connect(
        self,
        from_node: &str,
        from_port: &str,
        to_node: &str,
        to_port: &str,
    ) -> (r: PipelineBuilder)
        ensures
            appended(r.links(), self.links()),
            r.links().last().from_node@ == from_node@,
            r.links().last().from_port@ == from_port@,
            r.links().last().to_node@ == to_node@,
            r.links().last().to_port@ == to_port@,
            r.same_nodes(self),
    {
        let mut this = self;
        let ghost before = this.connections@;
        this.connections.push(
            Connection {
                from_node: String::from_str(from_node),
                from_port: String::from_str(from_port),
                to_node: String::from_str(to_node),
                to_port: String::from_str(to_port),
            },
        );
        assert(this.connections@.subrange(0, before.len() as int) =~= before);
        this
    }

    /// Colour cameras added so far, with their identifiers.
    pub fn cameras(&self) -> (r: &Vec<(String, Camera)>)
        ensures
            r@ == self.camera_entries(),
    {
        &self.cameras
    }

    /// Mono cameras added so far, with their identifiers.
    pub fn mono_cameras(&self) -> (r: &Vec<(String, MonoCamera)>)
        ensures
            r@ == self.mono_camera_entries(),
    {
        &self.mono_cameras
    }

    /// Neural networks added so far, with their identifiers.
    pub fn neural_networks(&self) -> (r: &Vec<(String, NeuralNetwork)>)
        ensures
            r@ == self.neural_network_entries(),
    {
        &self.neural_networks
    }

    /// Stereo depth nodes added so far, with their identifiers.
    pub fn depth_nodes(&self) -> (r: &Vec<(String, Depth)>)
        ensures
            r@ == self.depth_entries(),
    {
        &self.depth_nodes
    }

    /// Image manipulation nodes added so far, with their identifiers.
    pub fn manip_nodes(&self) -> (r: &Vec<(String, ImageManip)>)
        ensures
            r@ == self.manip_entries(),
    {
        &self.manip_nodes
    }

    /// Output streams added so far, with their identifiers.
    pub fn output_nodes(&self) -> (r: &Vec<(String, XLinkOut)>)
        ensures
            r@ == self.output_entries(),
    {
        &self.output_nodes
    }

    /// Input streams added so far, with their identifiers.
    pub fn input_nodes(&self) -> (r: &Vec<(String, XLinkIn)>)
        ensures
            r@ == self.input_entries(),
    {
        &self.input_nodes
    }

    /// Links added so far.
    pub fn connections(&self) -> (r: &Vec<Connection>)
        ensures
            r@ == self.links(),
    {
        &self.connections
    }
}

impl Default for PipelineBuilder {
    /// A builder with no nodes and no links.
    fn default() -> (r: Self)
        ensures
            r.is_empty(),
    {
        PipelineBuilder::new()
    }
}

/// Name of a colour camera socket as `{:?}` prints it.
pub open spec fn node_socket_name(s: CameraBoardSocket) -> Seq<char> {
    match s {
        CameraBoardSocket::Rgb => "Rgb"@,
        CameraBoardSocket::Left => "Left"@,
        CameraBoardSocket::Right => "Right"@,
    }
}

fn node_socket_str(s: CameraBoardSocket) -> (r: &'static str)
    ensures
        r@ == node_socket_name(s),
{
    match s {
        CameraBoardSocket::Rgb => "Rgb",
        CameraBoardSocket::Left => "Left",
        CameraBoardSocket::Right => "Right",
    }
}

/// Name of a board socket as `{:?}` prints it.
pub open spec fn board_socket_name(s: BoardSocket) -> Seq<char> {
    match s {
        BoardSocket::Auto => "Auto"@,
        BoardSocket::CamA => "CamA"@,
        BoardSocket::CamB => "CamB"@,
        BoardSocket::CamC => "CamC"@,
        BoardSocket::CamD => "CamD"@,
        BoardSocket::CamE => "CamE"@,
        BoardSocket::CamF => "CamF"@,
        BoardSocket::CamG => "CamG"@,
        BoardSocket::CamH => "CamH"@,
    }
}

fn board_socket_str(s: BoardSocket) -> (r: &'static str)
    ensures
        r@ == board_socket_name(s),
{
    match s {
        BoardSocket::Auto => "Auto",
        BoardSocket::CamA => "CamA",
        BoardSocket::CamB => "CamB",
        BoardSocket::CamC => "CamC",
        BoardSocket::CamD => "CamD",
        BoardSocket::CamE => "CamE",
        BoardSocket::CamF => "CamF",
        BoardSocket::CamG => "CamG",
        BoardSocket::CamH => "CamH",
    }
}

/// Default identifiers of colour cameras: the socket's name is the one listed
/// at the socket's native number in the order Rgb, Left, Right, and cameras on
/// distinct sockets get distinct default identifiers.
pub proof fn lemma_camera_default_ids(s: CameraBoardSocket, t: CameraBoardSocket)
    ensures
        seq!["Rgb"@, "Left"@, "Right"@][node_socket_code(s) as int] == node_socket_name(s),
        s != t ==> "camera_"@ + node_socket_name(s) != "camera_"@ + node_socket_name(t),
{
    reveal_strlit("Rgb");
    reveal_strlit("Left");
    reveal_strlit("Right");
    if s != t {
        assert(node_socket_name(s).len() != node_socket_name(t).len());
        assert(("camera_"@ + node_socket_name(s)).len() != ("camera_"@ + node_socket_name(t)).len());
    }
}

/// Default identifiers of mono cameras: the socket's name is the one listed at
/// the socket's native number in the order Auto, CamA, ..., CamH, and cameras on
/// distinct sockets get distinct default identifiers.
pub proof fn lemma_mono_camera_default_ids(s: BoardSocket, t: BoardSocket)
    ensures
        seq!["Auto"@, "CamA"@, "CamB"@, "CamC"@, "CamD"@, "CamE"@, "CamF"@, "CamG"@, "CamH"@][socket_code(
            s,
        ) as int] == board_socket_name(s),
        s != t ==> "mono_camera_"@ + board_socket_name(s) != "mono_camera_"@ + board_socket_name(t),
{
    reveal_strlit("Auto");
    reveal_strlit("CamA");
    reveal_strlit("CamB");
    reveal_strlit("CamC");
    reveal_strlit("CamD");
    reveal_strlit("CamE");
    reveal_strlit("CamF");
    reveal_strlit("CamG");
    reveal_strlit("CamH");
    reveal_strlit("mono_camera_");
    if s != t {
        let a = "mono_camera_"@ + board_socket_name(s);
        let b = "mono_camera_"@ + board_socket_name(t);
        assert(board_socket_name(s)[3] != board_socket_name(t)[3] || board_socket_name(s)[0]
            != board_socket_name(t)[0]);
        assert(a[15] == board_socket_name(s)[3]);
        assert(b[15] == board_socket_name(t)[3]);
        assert(a[12] == board_socket_name(s)[0]);
        assert(b[12] == board_socket_name(t)[0]);
    }
}

/// Settings of a colour camera being added to a builder.
pub struct CameraBuilder {
    parent: PipelineBuilder,
    socket: CameraBoardSocket,
    config: CameraConfig,
    id: String,
}

impl CameraBuilder {
    /// The builder the camera goes to.
    pub closed spec fn parent_builder(&self) -> PipelineBuilder {
        self.parent
    }

    /// Settings the camera will have.
    pub closed spec fn settings(&self) -> CameraConfig {
        self.config
    }

    /// Identifier the camera will have.
    pub closed spec fn node_name(&self) -> Seq<char> {
        self.id@
    }

    fn new(parent: PipelineBuilder, socket: CameraBoardSocket) -> (r: CameraBuilder)
        ensures
            r.parent_builder() == parent,
            r.node_name() == "camera_"@ + node_socket_name(socket),
            r.settings() == (CameraConfig {
                board_socket: Some(socket),
                ..CameraConfig::default_settings()
            }),
    {
        let id = String::from_str("camera_").concat(node_socket_str(socket));
        let mut config = CameraConfig::default();
        config.board_socket = Some(socket);
        CameraBuilder { parent, socket, config, id }
    }

    /// Sets the resolution.
    pub fn resolution(self, resolution: CameraResolution) -> (r: CameraBuilder)
        ensures
            r.settings() == (CameraConfig { resolution, ..self.settings() }),
            r.node_name() == self.node_name(),
            r.parent_builder() == self.parent_builder(),
    {
        let mut this = self;
        this.config.resolution = resolution;
        this
    }

    /// Sets the frame rate, given as the bit pattern of an `f32`.
    pub fn fps(self, fps_bits: u32) -> (r: CameraBuilder)
        ensures
            r.settings() == (CameraConfig { fps_bits, ..self.settings() }),
            r.node_name() == self.node_name(),
            r.parent_builder() == self.parent_builder(),
    {
        let mut this = self;
        this.config.fps_bits = fps_bits;
        this
    }

    /// Sets the preview size.
    pub fn preview_size(self, width: u32, height: u32) -> (r: CameraBuilder)
        ensures
            r.settings() == (CameraConfig { preview_size: Some((width, height)), ..self.settings() }),
            r.node_name() == self.node_name(),
            r.parent_builder() == self.parent_builder(),
    {
        let mut this = self;
        this.config.preview_size = Some((width, height));
        this
    }

    /// Sets the colour order.
    pub fn color_order(self, order: ColorOrder) -> (r: CameraBuilder)
        ensures
            r.settings() == (CameraConfig { color_order: Some(order), ..self.settings() }),
            r.node_name() == self.node_name(),
            r.parent_builder() == self.parent_builder(),
    {
        let mut this = self;
        this.config.color_order = Some(order);
        this
    }

    /// Sets the camera's identifier.
    pub fn id(self, id: &str) -> (r: CameraBuilder)
        ensures
            r.node_name() == id@,
            r.settings() == self.settings(),
            r.parent_builder() == self.parent_builder(),
    {
        let mut this = self;
        this.id = String::from_str(id);
        this
    }

    /// Adds the camera, under its identifier, after the colour cameras of the
    /// builder, and hands the builder back.
    pub fn finish(self) -> (r: PipelineBuilder)
        ensures
            appended(r.camera_entries(), self.parent_builder().camera_entries()),
            r.camera_entries().last().0@ == self.node_name(),
            r.camera_entries().last().1.node_id() == self.node_name(),
            r.camera_entries().last().1.settings() == self.settings(),
            !r.camera_entries().last().1.is_configured(),
            r.same_except(self.parent_builder(), NodeList::Cameras),
    {
        let CameraBuilder { mut parent, socket: _, config, id } = self;
        let camera = Camera::with_config(id.as_str(), config);
        let ghost before = parent.cameras@;
        parent.cameras.push((id, camera));
        assert(parent.cameras@.subrange(0, before.len() as int) =~= before);
        parent
    }
}

/// Settings of a mono camera being added to a builder.
pub struct MonoCameraBuilder {
    parent: PipelineBuilder,
    socket: BoardSocket,
    config: MonoCameraConfig,
    id: String,
}

impl MonoCameraBuilder {
    /// The builder the camera goes to.
    pub closed spec fn parent_builder(&self) -> PipelineBuilder {
        self.parent
    }

    /// Settings the camera will have.
    pub closed spec fn settings(&self) -> MonoCameraConfig {
        self.config
    }

    /// Identifier the camera will have.
    pub closed spec fn node_name(&self) -> Seq<char> {
        self.id@
    }

    fn new(parent: PipelineBuilder, socket: BoardSocket) -> (r: MonoCameraBuilder)
        ensures
            r.parent_builder() == parent,
            r.node_name() == "mono_camera_"@ + board_socket_name(socket),
            r.settings() == (MonoCameraConfig {
                board_socket: Some(socket),
                ..MonoCameraConfig::default_settings()
            }),
    {
        let id = String::from_str("mono_camera_").concat(board_socket_str(socket));
        let mut config = MonoCameraConfig::default();
        config.board_socket = Some(socket);
        MonoCameraBuilder { parent, socket, config, id }
    }

    /// Sets the resolution.
    pub fn resolution(self, resolution: MonoCameraResolution) -> (r: MonoCameraBuilder)
        ensures
            r.settings() == (MonoCameraConfig { resolution, ..self.settings() }),
            r.node_name() == self.node_name(),
            r.parent_builder() == self.parent_builder(),
    {
        let mut this = self;
        this.config.resolution = resolution;
        this
    }

    /// Sets the frame rate, given as the bit pattern of an `f32`.
    pub fn fps(self, fps_bits: u32) -> (r: MonoCameraBuilder)
        ensures
            r.settings() == (MonoCameraConfig { fps_bits, ..self.settings() }),
            r.node_name() == self.node_name(),
            r.parent_builder() == self.parent_builder(),
    {
        let mut this = self;
        this.config.fps_bits = fps_bits;
        this
    }

    /// Sets the camera's identifier.
    pub fn id(self, id: &str) -> (r: MonoCameraBuilder)
        ensures
            r.node_name() == id@,
            r.settings() == self.settings(),
            r.parent_builder() == self.parent_builder(),
    {
        let mut this = self;
        this.id = String::from_str(id);
        this
    }

    /// Adds the camera, under its identifier, after the mono cameras of the
    /// builder, and hands the builder back.
    pub fn finish(self) -> (r: PipelineBuilder)
        ensures
            appended(r.mono_camera_entries(), self.parent_builder().mono_camera_entries()),
            r.mono_camera_entries().last().0@ == self.node_name(),
            r.mono_camera_entries().last().1.node_id() == self.node_name(),
            r.mono_camera_entries().last().1.settings() == self.settings(),
            !r.mono_camera_entries().last().1.is_configured(),
            r.mono_camera_entries().last().1.out_port() is None,
            r.same_except(self.parent_builder(), NodeList::MonoCameras),
    {
        let MonoCameraBuilder { mut parent, socket: _, config, id } = self;
        let camera = MonoCamera::with_config(id.as_str(), config);
        let ghost before = parent.mono_cameras@;
        parent.mono_cameras.push((id, camera));
        assert(parent.mono_cameras@.subrange(0, before.len() as int) =~= before);
        parent
    }
}

/// Settings of a neural network being added to a builder.
pub struct NeuralNetworkBuilder {
    parent: PipelineBuilder,
    config: NeuralNetworkConfig,
    id: String,
}

impl NeuralNetworkBuilder {
    /// The builder the network goes to.
    pub closed spec fn parent_builder(&self) -> PipelineBuilder {
        self.parent
    }

    /// Settings the network will have.
    pub closed spec fn settings(&self) -> NeuralNetworkConfig {
        self.config
    }

    /// Identifier the network will have.
    pub closed spec fn node_name(&self) -> Seq<char> {
        self.id@
    }

    fn new(parent: PipelineBuilder, blob_path: &str) -> (r: NeuralNetworkBuilder)
        ensures
            r.parent_builder() == parent,
            r.node_name() == "neural_network"@,
            r.settings().blob_path@ == blob_path@,
            r.settings().num_threads is None,
            r.settings().num_nce_per_thread is None,
            r.settings().input_size is None,
            r.settings().confidence_threshold_bits is None,
    {
        let config = NeuralNetworkConfig {
            blob_path: String::from_str(blob_path),
            num_threads: None,
            num_nce_per_thread: None,
            input_size: None,
            confidence_threshold_bits: None,
        };
        NeuralNetworkBuilder { parent, config, id: String::from_str("neural_network") }
    }

    /// Sets the number of inference threads.
    pub fn num_threads(self, threads: u32) -> (r: NeuralNetworkBuilder)
        ensures
            r.settings() == (NeuralNetworkConfig { num_threads: Some(threads), ..self.settings() }),
            r.node_name() == self.node_name(),
            r.parent_builder() == self.parent_builder(),
    {
        let mut this = self;
        this.config.num_threads = Some(threads);
        this
    }

    /// Sets the input size for preprocessing.
    pub fn input_size(self, width: u32, height: u32) -> (r: NeuralNetworkBuilder)
        ensures
            r.settings() == (NeuralNetworkConfig {
                input_size: Some((width, height)),
                ..self.settings()
            }),
            r.node_name() == self.node_name(),
            r.parent_builder() == self.parent_builder(),
    {
        let mut this = self;
        this.config.input_size = Some((width, height));
        this
    }

    /// Sets the confidence threshold, given as the bit pattern of an `f32`.
    pub fn confidence_threshold(self, threshold_bits: u32) -> (r: NeuralNetworkBuilder)
        ensures
            r.settings() == (NeuralNetworkConfig {
                confidence_threshold_bits: Some(threshold_bits),
                ..self.settings()
            }),
            r.node_name() == self.node_name(),
            r.parent_builder() == self.parent_builder(),
    {
        let mut this = self;
        this.config.confidence_threshold_bits = Some(threshold_bits);
        this
    }

    /// Sets the network's identifier.
    pub fn id(self, id: &str) -> (r: NeuralNetworkBuilder)
        ensures
            r.node_name() == id@,
            r.settings() == self.settings(),
            r.parent_builder() == self.parent_builder(),
    {
        let mut this = self;
        this.id = String::from_str(id);
        this
    }

    /// Adds the network, under its identifier, after the neural networks of
    /// the builder, and hands the builder back.
    pub fn finish(self) -> (r: PipelineBuilder)
        ensures
            appended(r.neural_network_entries(), self.parent_builder().neural_network_entries()),
            r.neural_network_entries().last().0@ == self.node_name(),
            r.neural_network_entries().last().1.node_id() == self.node_name(),
            r.neural_network_entries().last().1.settings() == self.settings(),
            !r.neural_network_entries().last().1.is_configured(),
            r.same_except(self.parent_builder(), NodeList::NeuralNetworks),
    {
        let NeuralNetworkBuilder { mut parent, config, id } = self;
        let network = NeuralNetwork::with_config(id.as_str(), config);
        let ghost before = parent.neural_networks@;
        parent.neural_networks.push((id, network));
        assert(parent.neural_networks@.subrange(0, before.len() as int) =~= before);
        parent
    }
}

/// Settings of a stereo depth node being added to a builder.
pub struct DepthBuilder {
    parent: PipelineBuilder,
    config: DepthConfig,
    id: String,
}

impl DepthBuilder {
    /// The builder the node goes to.
    pub closed spec fn parent_builder(&self) -> PipelineBuilder {
        self.parent
    }

    /// Settings the node will have.
    pub closed spec fn settings(&self) -> DepthConfig {
        self.config
    }

    /// Identifier the node will have.
    pub closed spec fn node_name(&self) -> Seq<char> {
        self.id@
    }

    fn new(parent: PipelineBuilder) -> (r: DepthBuilder)
        ensures
            r.parent_builder() == parent,
            r.node_name() == "stereo_depth"@,
            r.settings() == DepthConfig::default_settings(),
    {
        DepthBuilder { parent, config: DepthConfig::default(), id: String::from_str("stereo_depth") }
    }

    /// Sets the accuracy/density preset.
    pub fn preset(self, preset: DepthPreset) -> (r: DepthBuilder)
        ensures
            r.settings() == with_preset(self.settings(), preset),
            r.node_name() == self.node_name(),
            r.parent_builder() == self.parent_builder(),
    {
        let mut this = self;
        this.config.preset = Some(preset);
        this
    }

    /// Turns the left-right consistency check on or off.
    pub fn left_right_check(self, enable: bool) -> (r: DepthBuilder)
        ensures
            r.settings() == with_left_right_check(self.settings(), enable),
            r.node_name() == self.node_name(),
            r.parent_builder() == self.parent_builder(),
    {
        let mut this = self;
        this.config.left_right_check = enable;
        this
    }

    /// Turns subpixel disparity on or off.
    pub fn subpixel(self, enable: bool) -> (r: DepthBuilder)
        ensures
            r.settings() == with_subpixel(self.settings(), enable),
            r.node_name() == self.node_name(),
            r.parent_builder() == self.parent_builder(),
    {
        let mut this = self;
        this.config.subpixel = enable;
        this
    }

    /// Sets the median filter.
    pub fn median_filter(self, filter: MedianFilter) -> (r: DepthBuilder)
        ensures
            r.settings() == with_median_filter(self.settings(), filter),
            r.node_name() == self.node_name(),
            r.parent_builder() == self.parent_builder(),
    {
        let mut this = self;
        this.config.median_filter = Some(filter);
        this
    }

    /// Sets the node's identifier.
    pub fn id(self, id: &str) -> (r: DepthBuilder)
        ensures
            r.node_name() == id@,
            r.settings() == self.settings(),
            r.parent_builder() == self.parent_builder(),
    {
        let mut this = self;
        this.id = String::from_str(id);
        this
    }

    /// Adds the node, under its identifier, after the stereo depth nodes of the
    /// builder, and hands the builder back.
    pub fn finish(self) -> (r: PipelineBuilder)
        ensures
            appended(r.depth_entries(), self.parent_builder().depth_entries()),
            r.depth_entries().last().0@ == self.node_name(),
            r.depth_entries().last().1.node_id() == self.node_name(),
            r.depth_entries().last().1.settings() == self.settings(),
            !r.depth_entries().last().1.is_configured(),
            r.depth_entries().last().1.unbound(),
            r.same_except(self.parent_builder(), NodeList::DepthNodes),
    {
        let DepthBuilder { mut parent, config, id } = self;
        let depth = Depth::with_config(id.as_str(), config);
        let ghost before = parent.depth_nodes@;
        parent.depth_nodes.push((id, depth));
        assert(parent.depth_nodes@.subrange(0, before.len() as int) =~= before);
        parent
    }
}

/// Chains of stereo depth settings, as `DepthBuilder`'s setters apply them: a
/// later setting of a field replaces an earlier one, and settings of different
/// fields give the same result in either order. (For the identifier, `id`
/// states that the last one given is the one `finish` uses.)
pub proof fn lemma_depth_settings_chain(
    c: DepthConfig,
    p: DepthPreset,
    q: DepthPreset,
    a: bool,
    b: bool,
    x: bool,
    y: bool,
    f: MedianFilter,
    g: MedianFilter,
)
    ensures
        with_preset(with_preset(c, p), q) == with_preset(c, q),
        with_left_right_check(with_left_right_check(c, a), b) == with_left_right_check(c, b),
        with_subpixel(with_subpixel(c, x), y) == with_subpixel(c, y),
        with_median_filter(with_median_filter(c, f), g) == with_median_filter(c, g),
        with_preset(with_left_right_check(c, a), p) == with_left_right_check(with_preset(c, p), a),
        with_preset(with_subpixel(c, x), p) == with_subpixel(with_preset(c, p), x),
        with_preset(with_median_filter(c, f), p) == with_median_filter(with_preset(c, p), f),
        with_left_right_check(with_subpixel(c, x), a) == with_subpixel(
            with_left_right_check(c, a),
            x,
        ),
        with_left_right_check(with_median_filter(c, f), a) == with_median_filter(
            with_left_right_check(c, a),
            f,
        ),
        with_subpixel(with_median_filter(c, f), x) == with_median_filter(with_subpixel(c, x), f),
{
}

/// Settings of an image manipulation node being added to a builder.
pub struct ImageManipBuilder {
    parent: PipelineBuilder,
    config: ImageManipConfig,
    id: String,
}

impl ImageManipBuilder {
    /// The builder the node goes to.
    pub closed spec fn parent_builder(&self) -> PipelineBuilder {
        self.parent
    }

    /// Settings the node will have.
    pub closed spec fn settings(&self) -> ImageManipConfig {
        self.config
    }

    /// Identifier the node will have in the builder.
    pub closed spec fn node_name(&self) -> Seq<char> {
        self.id@
    }

    fn new(parent: PipelineBuilder) -> (r: ImageManipBuilder)
        ensures
            r.parent_builder() == parent,
            r.node_name() == "image_manip"@,
            r.settings() == ImageManipConfig::default_settings(),
    {
        ImageManipBuilder {
            parent,
            config: ImageManipConfig::default(),
            id: String::from_str("image_manip"),
        }
    }

    /// Resizes to `width` by `height` with `mode`, keeping the aspect ratio.
    pub fn resize(self, width: u32, height: u32, mode: ResizeMode) -> (r: ImageManipBuilder)
        ensures
            r.settings() == (ImageManipConfig {
                resize: Some(ResizeConfig { width, height, mode, keep_aspect_ratio: true }),
                ..self.settings()
            }),
            r.node_name() == self.node_name(),
            r.parent_builder() == self.parent_builder(),
    {
        let mut this = self;
        this.config.resize = Some(ResizeConfig { width, height, mode, keep_aspect_ratio: true });
        this
    }

    /// Crops to the rectangle with the given normalised corners, each given as
    /// the bit pattern of an `f32`.
    pub fn crop(
        self,
        x_min_bits: u32,
        y_min_bits: u32,
        x_max_bits: u32,
        y_max_bits: u32,
    ) -> (r: ImageManipBuilder)
        ensures
            r.settings() == (ImageManipConfig {
                crop: Some(CropConfig { x_min_bits, y_min_bits, x_max_bits, y_max_bits }),
                ..self.settings()
            }),
            r.node_name() == self.node_name(),
            r.parent_builder() == self.parent_builder(),
    {
        let mut this = self;
        this.config.crop = Some(CropConfig { x_min_bits, y_min_bits, x_max_bits, y_max_bits });
        this
    }

    /// Sets the node's identifier in the builder.
    pub fn id(self, id: &str) -> (r: ImageManipBuilder)
        ensures
            r.node_name() == id@,
            r.settings() == self.settings(),
            r.parent_builder() == self.parent_builder(),
    {
        let mut this = self;
        this.id = String::from_str(id);
        this
    }

    /// Adds the node, under its identifier, after the image manipulation nodes
    /// of the builder, and hands the builder back.
    pub fn finish(self) -> (r: PipelineBuilder)
        ensures
            appended(r.manip_entries(), self.parent_builder().manip_entries()),
            r.manip_entries().last().0@ == self.node_name(),
            r.manip_entries().last().1.settings() == self.settings(),
            !r.manip_entries().last().1.is_configured(),
            r.same_except(self.parent_builder(), NodeList::ManipNodes),
    {
        let ImageManipBuilder { mut parent, config, id } = self;
        let manip = ImageManip::with_config(config);
        let ghost before = parent.manip_nodes@;
        parent.manip_nodes.push((id, manip));
        assert(parent.manip_nodes@.subrange(0, before.len() as int) =~= before);
        parent
    }
}

/// Settings of an output stream being added to a builder.
pub struct OutputBuilder {
    parent: PipelineBuilder,
    config: XLinkOutConfig,
    id: String,
}

impl OutputBuilder {
    /// The builder the stream goes to.
    pub closed spec fn parent_builder(&self) -> PipelineBuilder {
        self.parent
    }

    /// Settings the stream will have.
    pub closed spec fn settings(&self) -> XLinkOutConfig {
        self.config
    }

    /// Identifier the stream's node will have.
    pub closed spec fn node_name(&self) -> Seq<char> {
        self.id@
    }

    fn new(parent: PipelineBuilder, stream_name: &str) -> (r: OutputBuilder)
        ensures
            r.parent_builder() == parent,
            r.node_name() == "output_"@ + stream_name@,
            r.settings().stream_name@ == stream_name@,
            !r.settings().metadata_only,
    {
        let id = String::from_str("output_").concat(stream_name);
        let config = XLinkOutConfig { stream_name: String::from_str(stream_name), metadata_only: false };
        OutputBuilder { parent, config, id }
    }

    /// Sets whether only message metadata is sent.
    pub fn metadata_only(self, metadata_only: bool) -> (r: OutputBuilder)
        ensures
            r.settings().metadata_only == metadata_only,
            r.settings().stream_name == self.settings().stream_name,
            r.node_name() == self.node_name(),
            r.parent_builder() == self.parent_builder(),
    {
        let mut this = self;
        this.config.metadata_only = metadata_only;
        this
    }

    /// Sets the identifier of the stream's node.
    pub fn id(self, id: &str) -> (r: OutputBuilder)
        ensures
            r.node_name() == id@,
            r.settings() == self.settings(),
            r.parent_builder() == self.parent_builder(),
    {
        let mut this = self;
        this.id = String::from_str(id);
        this
    }

    /// Adds the stream's node, under its identifier, after the output streams of
    /// the builder, and hands the builder back.
    pub fn finish(self) -> (r: PipelineBuilder)
        ensures
            appended(r.output_entries(), self.parent_builder().output_entries()),
            r.output_entries().last().0@ == self.node_name(),
            r.output_entries().last().1.node_id() == self.node_name(),
            r.output_entries().last().1.settings() == self.settings(),
            !r.output_entries().last().1.is_configured(),
            r.output_entries().last().1.input_port() is None,
            r.same_except(self.parent_builder(), NodeList::OutputNodes),
    {
        let OutputBuilder { mut parent, config, id } = self;
        let output = XLinkOut::with_config(id.as_str(), config);
        let ghost before = parent.output_nodes@;
        parent.output_nodes.push((id, output));
        assert(parent.output_nodes@.subrange(0, before.len() as int) =~= before);
        parent
    }
}

/// Settings of an input stream being added to a builder.
pub struct InputBuilder {
    parent: PipelineBuilder,
    config: XLinkInConfig,
    id: String,
}

impl InputBuilder {
    /// The builder the stream goes to.
    pub closed spec fn parent_builder(&self) -> PipelineBuilder {
        self.parent
    }

    /// Settings the stream will have.
    pub closed spec fn settings(&self) -> XLinkInConfig {
        self.config
    }

    /// Identifier the stream's node will have.
    pub closed spec fn node_name(&self) -> Seq<char> {
        self.id@
    }

    fn new(parent: PipelineBuilder, stream_name: &str) -> (r: InputBuilder)
        ensures
            r.parent_builder() == parent,
            r.node_name() == "input_"@ + stream_name@,
            r.settings().stream_name@ == stream_name@,
            r.settings().max_data_size is None,
            r.settings().num_frames == Some(8u8),
    {
        let id = String::from_str("input_").concat(stream_name);
        let config = XLinkInConfig {
            stream_name: String::from_str(stream_name),
            max_data_size: None,
            num_frames: Some(8),
        };
        InputBuilder { parent, config, id }
    }

    /// Sets the largest message size.
    pub fn max_data_size(self, size: u32) -> (r: InputBuilder)
        ensures
            r.settings().max_data_size == Some(size as usize),
            r.settings().stream_name == self.settings().stream_name,
            r.settings().num_frames == self.settings().num_frames,
            r.node_name() == self.node_name(),
            r.parent_builder() == self.parent_builder(),
    {
        let mut this = self;
        this.config.max_data_size = Some(size as usize);
        this
    }

    /// Sets the number of frames in the pool, keeping the low eight bits of
    /// `frames`.
    pub fn num_frames(self, frames: u32) -> (r: InputBuilder)
        ensures
            r.settings().num_frames == Some((frames % 256) as u8),
            r.settings().stream_name == self.settings().stream_name,
            r.settings().max_data_size == self.settings().max_data_size,
            r.node_name() == self.node_name(),
            r.parent_builder() == self.parent_builder(),
    {
        let mut this = self;
        let low: u8 = frames as u8;
        assert(low == (frames % 256) as u8) by (bit_vector)
            requires
                low == frames as u8,
        ;
        this.config.num_frames = Some(low);
        this
    }

    /// Sets the identifier of the stream's node.
    pub fn id(self, id: &str) -> (r: InputBuilder)
        ensures
            r.node_name() == id@,
            r.settings() == self.settings(),
            r.parent_builder() == self.parent_builder(),
    {
        let mut this = self;
        this.id = String::from_str(id);
        this
    }

    /// Adds the stream's node, under its identifier, after the input streams of
    /// the builder, and hands the builder back.
    pub fn finish(self) -> (r: PipelineBuilder)
        ensures
            appended(r.input_entries(), self.parent_builder().input_entries()),
            r.input_entries().last().0@ == self.node_name(),
            r.input_entries().last().1.node_id() == self.node_name(),
            r.input_entries().last().1.settings() == self.settings(),
            !r.input_entries().last().1.is_configured(),
            r.same_except(self.parent_builder(), NodeList::InputNodes),
    {
        let InputBuilder { mut parent, config, id } = self;
        let input = XLinkIn::with_config(id.as_str(), config);
        let ghost before = parent.input_nodes@;
        parent.input_nodes.push((id, input));
        assert(parent.input_nodes@.subrange(0, before.len() as int) =~= before);
        parent
    }
}

} // verus!
