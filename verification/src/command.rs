//! The command stream that the passes are recorded into.

use vstd::prelude::*;
use crate::layout::LayoutId;
use crate::math::UVec3;
use crate::pipeline::{CachedComputePipelineId, CachedRenderPipelineId};
use crate::resources::Lut;
use crate::texture_cache::TextureId;

verus! {

/// The passes of the atmosphere, in the order in which they are issued.
#[derive(Clone, Copy, Debug, PartialEq, Eq, Hash, Structural)]
pub enum Pass {
    TransmittanceLut,
    MultiscatteringLut,
    SkyViewLut,
    AerialViewLut,
    RenderSky,
}

/// How a pass runs on the device.
#[derive(Clone, Copy, Debug, PartialEq, Eq, Hash, Structural)]
pub enum PassKind {
    /// One full-screen triangle is rasterised into a colour target.
    Raster,
    /// Workgroups are dispatched over a storage texture.
    Compute,
}

impl Pass {
    /// Position of the pass in the order of issue.
    pub open spec fn spec_index(self) -> int {
        match self {
            Pass::TransmittanceLut => 0,
            Pass::MultiscatteringLut => 1,
            Pass::SkyViewLut => 2,
            Pass::AerialViewLut => 3,
            Pass::RenderSky => 4,
        }
    }

    pub open spec fn spec_kind(self) -> PassKind {
        match self {
            Pass::TransmittanceLut => PassKind::Raster,
            Pass::MultiscatteringLut => PassKind::Compute,
            Pass::SkyViewLut => PassKind::Raster,
            Pass::AerialViewLut => PassKind::Compute,
            Pass::RenderSky => PassKind::Raster,
        }
    }

    /// The table that the pass writes; the compositing pass writes none.
    pub open spec fn spec_writes(self) -> Option<Lut> {
        match self {
            Pass::TransmittanceLut => Some(Lut::Transmittance),
            Pass::MultiscatteringLut => Some(Lut::Multiscattering),
            Pass::SkyViewLut => Some(Lut::SkyView),
            Pass::AerialViewLut => Some(Lut::AerialView),
            Pass::RenderSky => None,
        }
    }

    /// Whether the pass samples the table `lut`.
    pub open spec fn spec_reads(self, lut: Lut) -> bool {
        match self {
            Pass::TransmittanceLut => false,
            Pass::MultiscatteringLut => lut == Lut::Transmittance,
            Pass::SkyViewLut => lut == Lut::Transmittance || lut == Lut::Multiscattering,
            Pass::AerialViewLut => lut == Lut::Transmittance || lut == Lut::Multiscattering,
            Pass::RenderSky => true,
        }
    }

    /// The binding layout of the pass.
    pub open spec fn spec_layout(self) -> LayoutId {
        match self {
            Pass::TransmittanceLut => LayoutId::TransmittanceLut,
            Pass::MultiscatteringLut => LayoutId::MultiscatteringLut,
            Pass::SkyViewLut => LayoutId::SkyViewLut,
            Pass::AerialViewLut => LayoutId::AerialViewLut,
            Pass::RenderSky => LayoutId::RenderSky,
        }
    }

    pub fn index(self) -> (index: usize)
        ensures
            index == self.spec_index(),
    {
        match self {
            Pass::TransmittanceLut => 0,
            Pass::MultiscatteringLut => 1,
            Pass::SkyViewLut => 2,
            Pass::AerialViewLut => 3,
            Pass::RenderSky => 4,
        }
    }

    pub fn kind(self) -> (kind: PassKind)
        ensures
            kind == self.spec_kind(),
    {
        match self {
            Pass::TransmittanceLut | Pass::SkyViewLut | Pass::RenderSky => PassKind::Raster,
            Pass::MultiscatteringLut | Pass::AerialViewLut => PassKind::Compute,
        }
    }

    pub fn writes(self) -> (lut: Option<Lut>)
        ensures
            lut == self.spec_writes(),
    {
        match self {
            Pass::TransmittanceLut => Some(Lut::Transmittance),
            Pass::MultiscatteringLut => Some(Lut::Multiscattering),
            Pass::SkyViewLut => Some(Lut::SkyView),
            Pass::AerialViewLut => Some(Lut::AerialView),
            Pass::RenderSky => None,
        }
    }

    pub fn reads(self, lut: Lut) -> (reads: bool)
        ensures
            reads == self.spec_reads(lut),
    {
        match self {
            Pass::TransmittanceLut => false,
            Pass::MultiscatteringLut => lut == Lut::Transmittance,
            Pass::SkyViewLut | Pass::AerialViewLut => lut == Lut::Transmittance || lut
                == Lut::Multiscattering,
            Pass::RenderSky => true,
        }
    }

    pub fn layout(self) -> (layout: LayoutId)
        ensures
            layout == self.spec_layout(),
    {
        match self {
            Pass::TransmittanceLut => LayoutId::TransmittanceLut,
            Pass::MultiscatteringLut => LayoutId::MultiscatteringLut,
            Pass::SkyViewLut => LayoutId::SkyViewLut,
            Pass::AerialViewLut => LayoutId::AerialViewLut,
            Pass::RenderSky => LayoutId::RenderSky,
        }
    }

    /// The name under which the pass shows in a capture of the frame.
    pub fn label(self) -> (label: &'static str)
        ensures
            label@ == (match self {
                Pass::TransmittanceLut => "transmittance_lut_pass"@,
                Pass::MultiscatteringLut => "multiscattering_lut_pass"@,
                Pass::SkyViewLut => "sky_view_lut_pass"@,
                Pass::AerialViewLut => "aerial_view_lut_pass"@,
                Pass::RenderSky => "render_sky_pass"@,
            }),
    {
        match self {
            Pass::TransmittanceLut => "transmittance_lut_pass",
            Pass::MultiscatteringLut => "multiscattering_lut_pass",
            Pass::SkyViewLut => "sky_view_lut_pass",
            Pass::AerialViewLut => "aerial_view_lut_pass",
            Pass::RenderSky => "render_sky_pass",
        }
    }
}

/// The five passes in the order of issue.
pub fn pass_order() -> (order: Vec<Pass>)
    ensures
        order@ == seq![
            Pass::TransmittanceLut,
            Pass::MultiscatteringLut,
            Pass::SkyViewLut,
            Pass::AerialViewLut,
            Pass::RenderSky,
        ],
        forall|i: int| 0 <= i < order.len() ==> (#[trigger] order[i]).spec_index() == i,
{
    vec![
        Pass::TransmittanceLut,
        Pass::MultiscatteringLut,
        Pass::SkyViewLut,
        Pass::AerialViewLut,
        Pass::RenderSky,
    ]
}

/// The order of issue is an order of dependency: a pass that samples a
/// table comes after the pass that writes it.
pub proof fn lemma_pass_order_respects_dependencies(reader: Pass, writer: Pass, lut: Lut)
    requires
        reader.spec_reads(lut),
        writer.spec_writes() == Some(lut),
    ensures
        writer.spec_index() < reader.spec_index(),
{
}

/// What happens to the colour target when a raster pass begins.
#[derive(Clone, Copy, Debug, PartialEq, Eq, Hash, Structural)]
pub enum LoadOp {
    /// The target is cleared.
    Clear,
    /// The target keeps what earlier passes have drawn.
    Load,
}

/// What happens to what a raster pass has drawn when the pass ends.
#[derive(Clone, Copy, Debug, PartialEq, Eq, Hash, Structural)]
pub enum StoreOp {
    /// The target keeps it.
    Store,
    /// It is thrown away.
    Discard,
}

/// The offsets into the uniform buffers at which the data of one view lie.
#[derive(Clone, Copy, Debug, PartialEq, Eq, Hash, Structural)]
pub struct ViewUniformOffsets {
    pub atmosphere: u32,
    pub settings: u32,
    pub view: u32,
    pub lights: u32,
}

/// The offsets that a pass gives for the uniform slots of its layout.
#[derive(Clone, Copy, Debug, PartialEq, Eq, Hash, Structural)]
pub enum DynamicOffsets {
    /// For a layout with the atmosphere and settings uniforms.
    Two { atmosphere: u32, settings: u32 },
    /// For a layout that has the view and light uniforms too.
    Four { atmosphere: u32, settings: u32, view: u32, lights: u32 },
}

impl DynamicOffsets {
    /// The offsets in the order of their slots.
    pub open spec fn spec_to_vec(self) -> Seq<u32> {
        match self {
            DynamicOffsets::Two { atmosphere, settings } => seq![atmosphere, settings],
            DynamicOffsets::Four { atmosphere, settings, view, lights } => seq![
                atmosphere,
                settings,
                view,
                lights,
            ],
        }
    }

    /// Whether the offsets are those of the view with `offsets`.
    pub open spec fn spec_is_of(self, offsets: ViewUniformOffsets) -> bool {
        match self {
            DynamicOffsets::Two { atmosphere, settings } => atmosphere == offsets.atmosphere
                && settings == offsets.settings,
            DynamicOffsets::Four { atmosphere, settings, view, lights } => atmosphere
                == offsets.atmosphere && settings == offsets.settings && view == offsets.view
                && lights == offsets.lights,
        }
    }

    pub fn to_vec(self) -> (offsets: Vec<u32>)
        ensures
            offsets@ == self.spec_to_vec(),
    {
        match self {
            DynamicOffsets::Two { atmosphere, settings } => vec![atmosphere, settings],
            DynamicOffsets::Four { atmosphere, settings, view, lights } => vec![
                atmosphere,
                settings,
                view,
                lights,
            ],
        }
    }
}

/// A raster pass: the pipeline draws `vertices` vertices, `instances`
/// times, into the one colour target `target`, without a depth target,
/// with the binding set of the view for `bind_group` bound to group 0 at
/// `dynamic_offsets`.
#[derive(Clone, Copy, Debug, PartialEq, Eq, Hash, Structural)]
pub struct RenderPassCommand {
    pub pass: Pass,
    pub target: TextureId,
    pub load: LoadOp,
    pub store: StoreOp,
    pub pipeline: CachedRenderPipelineId,
    pub bind_group: LayoutId,
    pub dynamic_offsets: DynamicOffsets,
    pub vertices: u32,
    pub instances: u32,
}

/// A compute pass: the pipeline is dispatched over `workgroups`, with the
/// binding set of the view for `bind_group` bound to group 0 at
/// `dynamic_offsets`.
#[derive(Clone, Copy, Debug, PartialEq, Eq, Hash, Structural)]
pub struct ComputePassCommand {
    pub pass: Pass,
    pub pipeline: CachedComputePipelineId,
    pub bind_group: LayoutId,
    pub dynamic_offsets: DynamicOffsets,
    pub workgroups: UVec3,
}

/// A rectangle of the target that a pass is confined to.
#[derive(Clone, Copy, Debug, PartialEq, Eq, Hash, Structural)]
pub struct Viewport {
    pub x: u32,
    pub y: u32,
    pub width: u32,
    pub height: u32,
}

/// The temporal anti-aliasing pass: it blends `source` with `history_read`
/// by the motion vectors and the depth of the frame, and draws the result
/// into `destination` and into `history_write`.
#[derive(Clone, Copy, Debug, PartialEq, Eq, Hash, Structural)]
pub struct TaaPassCommand {
    pub pipeline: CachedRenderPipelineId,
    pub source: TextureId,
    pub history_read: TextureId,
    pub motion_vectors: TextureId,
    pub depth: TextureId,
    pub destination: TextureId,
    pub history_write: TextureId,
    pub viewport: Option<Viewport>,
    pub vertices: u32,
    pub instances: u32,
}

/// One entry of the command stream.
#[derive(Clone, Copy, Debug, PartialEq, Eq, Hash, Structural)]
pub enum Command {
    /// Opens the group that holds the lookup-table passes of a view.
    PushDebugGroup,
    RenderPass(RenderPassCommand),
    ComputePass(ComputePassCommand),
    TaaPass(TaaPassCommand),
    /// Closes the group.
    PopDebugGroup,
}

impl Command {
    /// The pass of the atmosphere that the command records, if it is one.
    pub open spec fn spec_pass(self) -> Option<Pass> {
        match self {
            Command::RenderPass(command) => Some(command.pass),
            Command::ComputePass(command) => Some(command.pass),
            _ => None,
        }
    }

    pub fn pass(&self) -> (pass: Option<Pass>)
        ensures
            pass == self.spec_pass(),
    {
        match self {
            Command::RenderPass(command) => Some(command.pass),
            Command::ComputePass(command) => Some(command.pass),
            _ => None,
        }
    }
}

/// Name of the debug group that holds the lookup-table passes.
pub fn debug_group_label() -> (label: &'static str)
    ensures
        label@ == "atmosphere_luts"@,
{
    "atmosphere_luts"
}

/// Records the commands of one view in one frame, in the order in which
/// the device will run them.
pub struct CommandEncoder {
    commands: Vec<Command>,
}

impl View for CommandEncoder {
    type V = Seq<Command>;

    closed spec fn view(&self) -> Seq<Command> {
        self.commands@
    }
}

impl CommandEncoder {
    pub fn new() -> (encoder: Self)
        ensures
            encoder@ == Seq::<Command>::empty(),
    {
        CommandEncoder { commands: Vec::new() }
    }

    /// Appends `command` to the stream.
    pub fn record(&mut self, command: Command)
        ensures
            final(self)@ == old(self)@.push(command),
    {
        self.commands.push(command);
    }

    /// Number of commands recorded.
    pub fn len(&self) -> (n: usize)
        ensures
            n == self@.len(),
    {
        self.commands.len()
    }

    /// The commands recorded, in their order.
    pub fn finish(self) -> (commands: Vec<Command>)
        ensures
            commands@ == self@,
    {
        self.commands
    }
}

} // verus!
