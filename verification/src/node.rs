//! The pass sequencer: records the passes of one view in dependency order.
//!
//! A lookup-table pass is recorded only if its pipeline is compiled and
//! every table it samples has been written earlier in the same frame. A
//! pass that is left out is no error: the table it would have written
//! keeps what it held, and the table passes that sample it are left out
//! too. The compositing pass is recorded whenever its own pipeline is
//! compiled.

use vstd::prelude::*;
use crate::command::{
    Command, CommandEncoder, ComputePassCommand, DynamicOffsets, LoadOp, Pass, RenderPassCommand,
    StoreOp, ViewUniformOffsets,
};
use crate::layout::LayoutId;
use crate::math::UVec3;
use crate::pipeline::{spec_compute_pipeline, spec_render_pipeline, CachedPipeline, PipelineCache};
use crate::resources::{
    lemma_view_textures_return, spec_prepare_atmosphere_textures, AtmosphereBindGroups,
    AtmospherePipelines, AtmosphereTextures, Lut,
};
use crate::settings::AtmosphereSettings;
use crate::texture::Limits;
use crate::texture_cache::{Pool, TextureId};

verus! {

/// The two places of the atmosphere in the render graph of a view.
#[derive(Clone, Copy, Debug, PartialEq, Eq, Hash, Structural)]
pub enum AtmosphereNode {
    /// The four lookup-table passes: after the prepasses, before the main
    /// pass.
    RenderLuts,
    /// The compositing pass: after the opaque geometry, before the
    /// transparent.
    RenderSky,
}

/// Edge length, in invocations, of the square workgroups of the compute
/// passes.
pub const WORKGROUP_SIZE: u32 = 16;

/// The least number of workgroups whose invocations cover `dimension`
/// texels: the quotient of `dimension` by the workgroup size, rounded up.
pub open spec fn spec_workgroup_count(dimension: int) -> int {
    (dimension + WORKGROUP_SIZE - 1) / (WORKGROUP_SIZE as int)
}

/// Number of workgroups to dispatch along an axis of `dimension` texels.
pub fn workgroup_count(dimension: u32) -> (count: u32)
    ensures
        count == spec_workgroup_count(dimension as int),
        count * WORKGROUP_SIZE >= dimension,
        dimension > 0 ==> (count - 1) * WORKGROUP_SIZE < dimension,
        dimension == 0 ==> count == 0,
{
    let whole: u32 = dimension / WORKGROUP_SIZE;
    if dimension % WORKGROUP_SIZE == 0 {
        whole
    } else {
        whole + 1
    }
}

/// Workgroup counts are ceilings: `count` workgroups cover the dimension
/// and one fewer would not.
pub proof fn lemma_workgroups_cover_exactly(dimension: int)
    requires
        dimension >= 0,
    ensures
        spec_workgroup_count(dimension) * WORKGROUP_SIZE >= dimension,
        (spec_workgroup_count(dimension) - 1) * WORKGROUP_SIZE < dimension || dimension == 0,
        dimension % (WORKGROUP_SIZE as int) == 0 ==> spec_workgroup_count(dimension) * WORKGROUP_SIZE
            == dimension,
{
}

/// What one view brings to its passes in one frame.
pub struct AtmosphereViewResources {
    pub textures: AtmosphereTextures,
    pub settings: AtmosphereSettings,
    pub bind_groups: AtmosphereBindGroups,
    pub offsets: ViewUniformOffsets,
}

/// For each table, a flag: whether its pipeline is compiled, or whether it
/// has been written in the frame.
#[derive(Clone, Copy, Debug, PartialEq, Eq, Hash, Structural)]
pub struct LutFlags {
    pub transmittance: bool,
    pub multiscattering: bool,
    pub sky_view: bool,
    pub aerial_view: bool,
}

impl LutFlags {
    pub open spec fn spec_none() -> Self {
        LutFlags { transmittance: false, multiscattering: false, sky_view: false, aerial_view: false }
    }

    pub open spec fn spec_all(self) -> bool {
        self.transmittance && self.multiscattering && self.sky_view && self.aerial_view
    }

    pub open spec fn spec_get(self, lut: Lut) -> bool {
        match lut {
            Lut::Transmittance => self.transmittance,
            Lut::Multiscattering => self.multiscattering,
            Lut::SkyView => self.sky_view,
            Lut::AerialView => self.aerial_view,
        }
    }

    /// No flag is set.
    pub fn none() -> (flags: Self)
        ensures
            flags == Self::spec_none(),
    {
        LutFlags { transmittance: false, multiscattering: false, sky_view: false, aerial_view: false }
    }

    /// Whether every flag is set.
    pub fn all(&self) -> (all: bool)
        ensures
            all == self.spec_all(),
    {
        self.transmittance && self.multiscattering && self.sky_view && self.aerial_view
    }

    pub fn get(&self, lut: Lut) -> (flag: bool)
        ensures
            flag == self.spec_get(lut),
    {
        match lut {
            Lut::Transmittance => self.transmittance,
            Lut::Multiscattering => self.multiscattering,
            Lut::SkyView => self.sky_view,
            Lut::AerialView => self.aerial_view,
        }
    }
}

/// Which of the pipelines of the lookup-table passes are compiled.
pub open spec fn lut_pipelines_ready(cache: Seq<CachedPipeline>, pipelines: AtmospherePipelines) -> LutFlags {
    LutFlags {
        transmittance: spec_render_pipeline(cache, pipelines.transmittance_lut.0 as int) is Some,
        multiscattering: spec_compute_pipeline(cache, pipelines.multiscattering_lut.0 as int)
            is Some,
        sky_view: spec_render_pipeline(cache, pipelines.sky_view_lut.0 as int) is Some,
        aerial_view: spec_compute_pipeline(cache, pipelines.aerial_view_lut.0 as int) is Some,
    }
}

/// The tables that are written in a frame in which the pipelines `ready`
/// are compiled: a table is written if the pipeline of its pass is
/// compiled and every table that the pass samples is written.
pub open spec fn spec_luts_written(ready: LutFlags) -> LutFlags {
    let transmittance = ready.transmittance;
    let multiscattering = ready.multiscattering && transmittance;
    LutFlags {
        transmittance,
        multiscattering,
        sky_view: ready.sky_view && transmittance && multiscattering,
        aerial_view: ready.aerial_view && transmittance && multiscattering,
    }
}

/// The two-uniform offsets of a view.
pub open spec fn two_offsets(offsets: ViewUniformOffsets) -> DynamicOffsets {
    DynamicOffsets::Two { atmosphere: offsets.atmosphere, settings: offsets.settings }
}

/// The four-uniform offsets of a view.
pub open spec fn four_offsets(offsets: ViewUniformOffsets) -> DynamicOffsets {
    DynamicOffsets::Four {
        atmosphere: offsets.atmosphere,
        settings: offsets.settings,
        view: offsets.view,
        lights: offsets.lights,
    }
}

/// The transmittance pass: a full-screen triangle into the cleared
/// transmittance table.
pub open spec fn transmittance_pass(
    textures: AtmosphereTextures,
    offsets: ViewUniformOffsets,
    pipelines: AtmospherePipelines,
) -> Command {
    Command::RenderPass(
        RenderPassCommand {
            pass: Pass::TransmittanceLut,
            target: textures.transmittance_lut.texture,
            load: LoadOp::Clear,
            store: StoreOp::Store,
            pipeline: pipelines.transmittance_lut,
            bind_group: LayoutId::TransmittanceLut,
            dynamic_offsets: two_offsets(offsets),
            vertices: 3,
            instances: 1,
        },
    )
}

/// The multiscattering pass: one invocation for each texel of the
/// multiscattering table, in workgroups that cover its width and height.
pub open spec fn multiscattering_pass(
    settings: AtmosphereSettings,
    offsets: ViewUniformOffsets,
    pipelines: AtmospherePipelines,
) -> Command {
    Command::ComputePass(
        ComputePassCommand {
            pass: Pass::MultiscatteringLut,
            pipeline: pipelines.multiscattering_lut,
            bind_group: LayoutId::MultiscatteringLut,
            dynamic_offsets: two_offsets(offsets),
            workgroups: UVec3 {
                x: spec_workgroup_count(settings.multiscattering_lut_size.x as int) as u32,
                y: spec_workgroup_count(settings.multiscattering_lut_size.y as int) as u32,
                z: 1,
            },
        },
    )
}

/// The sky-view pass: a full-screen triangle into the cleared sky-view
/// table.
pub open spec fn sky_view_pass(
    textures: AtmosphereTextures,
    offsets: ViewUniformOffsets,
    pipelines: AtmospherePipelines,
) -> Command {
    Command::RenderPass(
        RenderPassCommand {
            pass: Pass::SkyViewLut,
            target: textures.sky_view_lut.texture,
            load: LoadOp::Clear,
            store: StoreOp::Store,
            pipeline: pipelines.sky_view_lut,
            bind_group: LayoutId::SkyViewLut,
            dynamic_offsets: four_offsets(offsets),
            vertices: 3,
            instances: 1,
        },
    )
}

/// The aerial-view pass: workgroups that cover the width and height of the
/// volume; the shader walks its depth.
pub open spec fn aerial_view_pass(
    settings: AtmosphereSettings,
    offsets: ViewUniformOffsets,
    pipelines: AtmospherePipelines,
) -> Command {
    Command::ComputePass(
        ComputePassCommand {
            pass: Pass::AerialViewLut,
            pipeline: pipelines.aerial_view_lut,
            bind_group: LayoutId::AerialViewLut,
            dynamic_offsets: four_offsets(offsets),
            workgroups: UVec3 {
                x: spec_workgroup_count(settings.aerial_view_lut_size.x as int) as u32,
                y: spec_workgroup_count(settings.aerial_view_lut_size.y as int) as u32,
                z: 1,
            },
        },
    )
}

/// The compositing pass: a full-screen triangle over what the colour
/// target of the view already holds, which is kept and not cleared, drawn
/// by the pipeline for targets that are HDR or not, as the target is.
pub open spec fn render_sky_pass(
    target: TextureId,
    hdr: bool,
    offsets: ViewUniformOffsets,
    pipelines: AtmospherePipelines,
) -> Command {
    Command::RenderPass(
        RenderPassCommand {
            pass: Pass::RenderSky,
            target,
            load: LoadOp::Load,
            store: StoreOp::Store,
            pipeline: pipelines.spec_render_sky_for(hdr),
            bind_group: LayoutId::RenderSky,
            dynamic_offsets: four_offsets(offsets),
            vertices: 3,
            instances: 1,
        },
    )
}

/// `command` if `issued`, else nothing.
pub open spec fn when(issued: bool, command: Command) -> Seq<Command> {
    if issued {
        seq![command]
    } else {
        Seq::empty()
    }
}

/// The lookup-table passes that write the tables `written`, in the order
/// of issue.
pub open spec fn spec_lut_passes(
    textures: AtmosphereTextures,
    settings: AtmosphereSettings,
    offsets: ViewUniformOffsets,
    pipelines: AtmospherePipelines,
    written: LutFlags,
) -> Seq<Command> {
    when(written.transmittance, transmittance_pass(textures, offsets, pipelines)) + when(
        written.multiscattering,
        multiscattering_pass(settings, offsets, pipelines),
    ) + when(written.sky_view, sky_view_pass(textures, offsets, pipelines)) + when(
        written.aerial_view,
        aerial_view_pass(settings, offsets, pipelines),
    )
}

/// What the lookup-table node records for a view: the passes that write
/// the tables `written`, inside a debug group; nothing if no table is
/// written.
pub open spec fn spec_lut_commands(
    textures: AtmosphereTextures,
    settings: AtmosphereSettings,
    offsets: ViewUniformOffsets,
    pipelines: AtmospherePipelines,
    written: LutFlags,
) -> Seq<Command> {
    if written.transmittance {
        seq![Command::PushDebugGroup] + spec_lut_passes(
            textures,
            settings,
            offsets,
            pipelines,
            written,
        ) + seq![Command::PopDebugGroup]
    } else {
        Seq::empty()
    }
}

/// The node that records the four lookup-table passes of a view.
#[derive(Clone, Copy, Debug, Default)]
pub struct AtmosphereLutsNode {}

impl AtmosphereLutsNode {
    /// Records the lookup-table passes of one view and returns which
    /// tables they write.
    ///
    /// `view` is `None` for a view whose resources could not be prepared
    /// this frame, `pipelines` is `None` where the device cannot run the
    /// passes: nothing is recorded then. Otherwise each pass is recorded
    /// if its pipeline is compiled and the tables it samples are written.
    pub fn run(
        &self,
        encoder: &mut CommandEncoder,
        view: Option<&AtmosphereViewResources>,
        pipelines: Option<&AtmospherePipelines>,
        pipeline_cache: &PipelineCache,
    ) -> (written: LutFlags)
        ensures
            view is None || pipelines is None ==> written == LutFlags::spec_none()
                && final(encoder)@ == old(encoder)@,
            view is Some && pipelines is Some ==> {
                &&& written == spec_luts_written(
                    lut_pipelines_ready(pipeline_cache@, *pipelines->Some_0),
                )
                &&& final(encoder)@ == old(encoder)@ + spec_lut_commands(
                    view->Some_0.textures,
                    view->Some_0.settings,
                    view->Some_0.offsets,
                    *pipelines->Some_0,
                    written,
                )
            },
    {
        let (view, pipelines) = match (view, pipelines) {
            (Some(view), Some(pipelines)) => (view, pipelines),
            _ => {
                return LutFlags::none();
            },
        };
        let transmittance = pipeline_cache.get_render_pipeline(pipelines.transmittance_lut).is_some();
        let multiscattering = transmittance && pipeline_cache.get_compute_pipeline(
            pipelines.multiscattering_lut,
        ).is_some();
        let sky_view = multiscattering && pipeline_cache.get_render_pipeline(
            pipelines.sky_view_lut,
        ).is_some();
        let aerial_view = multiscattering && pipeline_cache.get_compute_pipeline(
            pipelines.aerial_view_lut,
        ).is_some();
        let written = LutFlags { transmittance, multiscattering, sky_view, aerial_view };
        if !transmittance {
            return written;
        }
        let offsets = view.offsets;
        let two = DynamicOffsets::Two { atmosphere: offsets.atmosphere, settings: offsets.settings };
        let four = DynamicOffsets::Four {
            atmosphere: offsets.atmosphere,
            settings: offsets.settings,
            view: offsets.view,
            lights: offsets.lights,
        };

        encoder.record(Command::PushDebugGroup);
        encoder.record(
            Command::RenderPass(
                RenderPassCommand {
                    pass: Pass::TransmittanceLut,
                    target: view.textures.transmittance_lut.texture,
                    load: LoadOp::Clear,
                    store: StoreOp::Store,
                    pipeline: pipelines.transmittance_lut,
                    bind_group: LayoutId::TransmittanceLut,
                    dynamic_offsets: two,
                    vertices: 3,
                    instances: 1,
                },
            ),
        );
        if multiscattering {
            encoder.record(
                Command::ComputePass(
                    ComputePassCommand {
                        pass: Pass::MultiscatteringLut,
                        pipeline: pipelines.multiscattering_lut,
                        bind_group: LayoutId::MultiscatteringLut,
                        dynamic_offsets: two,
                        workgroups: UVec3 {
                            x: workgroup_count(view.settings.multiscattering_lut_size.x),
                            y: workgroup_count(view.settings.multiscattering_lut_size.y),
                            z: 1,
                        },
                    },
                ),
            );
        }
        if sky_view {
            encoder.record(
                Command::RenderPass(
                    RenderPassCommand {
                        pass: Pass::SkyViewLut,
                        target: view.textures.sky_view_lut.texture,
                        load: LoadOp::Clear,
                    store: StoreOp::Store,
                        pipeline: pipelines.sky_view_lut,
                        bind_group: LayoutId::SkyViewLut,
                        dynamic_offsets: four,
                        vertices: 3,
                        instances: 1,
                    },
                ),
            );
        }
        if aerial_view {
            encoder.record(
                Command::ComputePass(
                    ComputePassCommand {
                        pass: Pass::AerialViewLut,
                        pipeline: pipelines.aerial_view_lut,
                        bind_group: LayoutId::AerialViewLut,
                        dynamic_offsets: four,
                        workgroups: UVec3 {
                            x: workgroup_count(view.settings.aerial_view_lut_size.x),
                            y: workgroup_count(view.settings.aerial_view_lut_size.y),
                            z: 1,
                        },
                    },
                ),
            );
        }
        encoder.record(Command::PopDebugGroup);
        assert(encoder@ =~= old(encoder)@ + spec_lut_commands(
            view.textures,
            view.settings,
            view.offsets,
            *pipelines,
            written,
        ));
        written
    }
}

/// What the compositing node records for a view: the compositing pass, if
/// its pipeline is compiled; else nothing.
pub open spec fn spec_render_sky_commands(
    target: TextureId,
    hdr: bool,
    offsets: ViewUniformOffsets,
    pipelines: AtmospherePipelines,
    pipeline_ready: bool,
) -> Seq<Command> {
    when(pipeline_ready, render_sky_pass(target, hdr, offsets, pipelines))
}

/// Whether the compositing pass of a view is recorded: the view has
/// resources, the device can run the passes, and the pipeline for the
/// target of the view is compiled.
pub open spec fn spec_render_sky_runs(
    view: Option<&AtmosphereViewResources>,
    hdr: bool,
    pipelines: Option<&AtmospherePipelines>,
    cache: Seq<CachedPipeline>,
) -> bool {
    &&& view is Some
    &&& pipelines is Some
    &&& spec_render_pipeline(cache, pipelines->Some_0.spec_render_sky_for(hdr).0 as int) is Some
}

/// The node that records the compositing pass of a view.
#[derive(Clone, Copy, Debug, Default)]
pub struct RenderSkyNode;

impl RenderSkyNode {
    /// Records the compositing pass of one view into the colour target
    /// `target`, which is HDR or not as `hdr` says, and returns whether it
    /// did.
    ///
    /// The pass is recorded if the view has resources, the device can run
    /// the passes, and the pipeline of the pass is compiled. It is one
    /// render pass that keeps what the target holds and draws one
    /// full-screen triangle, with the binding set of the pass bound at the
    /// four offsets of the view. It does not wait for the tables: where a
    /// table pass was left out this frame, it samples what the table holds.
    pub fn run(
        &self,
        encoder: &mut CommandEncoder,
        view: Option<&AtmosphereViewResources>,
        target: TextureId,
        hdr: bool,
        pipelines: Option<&AtmospherePipelines>,
        pipeline_cache: &PipelineCache,
    ) -> (issued: bool)
        ensures
            issued == spec_render_sky_runs(view, hdr, pipelines, pipeline_cache@),
            !issued ==> final(encoder)@ == old(encoder)@,
            issued ==> final(encoder)@ == old(encoder)@.push(
                render_sky_pass(target, hdr, view->Some_0.offsets, *pipelines->Some_0),
            ),
    {
        let (view, pipelines) = match (view, pipelines) {
            (Some(view), Some(pipelines)) => (view, pipelines),
            _ => {
                return false;
            },
        };
        let pipeline = pipelines.render_sky_for(hdr);
        if pipeline_cache.get_render_pipeline(pipeline).is_none() {
            return false;
        }
        let offsets = view.offsets;
        encoder.record(
            Command::RenderPass(
                RenderPassCommand {
                    pass: Pass::RenderSky,
                    target,
                    load: LoadOp::Load,
                    store: StoreOp::Store,
                    pipeline,
                    bind_group: LayoutId::RenderSky,
                    dynamic_offsets: DynamicOffsets::Four {
                        atmosphere: offsets.atmosphere,
                        settings: offsets.settings,
                        view: offsets.view,
                        lights: offsets.lights,
                    },
                    vertices: 3,
                    instances: 1,
                },
            ),
        );
        true
    }
}

/// Whether a pass that writes the table `lut` is recorded in `commands`
/// before the position `at`.
pub open spec fn written_before(commands: Seq<Command>, at: int, lut: Lut) -> bool {
    exists|j: int|
        0 <= j < at && j < commands.len() && (#[trigger] commands[j]).spec_pass() is Some
            && commands[j].spec_pass()->Some_0.spec_writes() == Some(lut)
}

/// Whether every pass in `commands` comes after the passes that write the
/// tables it samples.
pub open spec fn reads_follow_writes(commands: Seq<Command>) -> bool {
    forall|i: int, lut: Lut|
        0 <= i < commands.len() && (#[trigger] commands[i]).spec_pass() is Some
            && commands[i].spec_pass()->Some_0.spec_reads(lut) ==> #[trigger] written_before(
            commands,
            i,
            lut,
        )
}

/// The dynamic offsets that `command` binds its uniforms at, if it is a
/// pass of the atmosphere.
pub open spec fn offsets_of(command: Command) -> Option<DynamicOffsets> {
    match command {
        Command::RenderPass(pass) => Some(pass.dynamic_offsets),
        Command::ComputePass(pass) => Some(pass.dynamic_offsets),
        _ => None,
    }
}

/// What both nodes record for one view in one frame, the lookup-table
/// passes first.
pub open spec fn spec_frame_commands(
    textures: AtmosphereTextures,
    settings: AtmosphereSettings,
    offsets: ViewUniformOffsets,
    target: TextureId,
    hdr: bool,
    pipelines: AtmospherePipelines,
    ready: LutFlags,
    render_sky_ready: bool,
) -> Seq<Command> {
    spec_lut_commands(textures, settings, offsets, pipelines, spec_luts_written(ready))
        + spec_render_sky_commands(target, hdr, offsets, pipelines, render_sky_ready)
}

/// Pass ordering: whatever pipelines are compiled, every lookup-table pass
/// recorded for a view in a frame comes after the passes that write the
/// tables it samples. In particular the sky-view pass never comes before
/// the transmittance or the multiscattering pass, and is not recorded
/// without them.
pub proof fn lemma_passes_follow_their_inputs(
    textures: AtmosphereTextures,
    settings: AtmosphereSettings,
    offsets: ViewUniformOffsets,
    pipelines: AtmospherePipelines,
    ready: LutFlags,
)
    ensures
        reads_follow_writes(
            spec_lut_commands(textures, settings, offsets, pipelines, spec_luts_written(ready)),
        ),
{
    let written = spec_luts_written(ready);
    let commands = spec_lut_commands(textures, settings, offsets, pipelines, written);
    let t = transmittance_pass(textures, offsets, pipelines);
    let m = multiscattering_pass(settings, offsets, pipelines);
    let s = sky_view_pass(textures, offsets, pipelines);
    let a = aerial_view_pass(settings, offsets, pipelines);
    let push = Command::PushDebugGroup;
    let pop = Command::PopDebugGroup;
    if !written.transmittance {
        assert(commands =~= Seq::<Command>::empty());
    } else if !written.multiscattering {
        assert(commands =~= seq![push, t, pop]);
    } else {
        assert(commands[1] == t && commands[2] == m);
        assert(t.spec_pass() == Some(Pass::TransmittanceLut));
        assert(m.spec_pass() == Some(Pass::MultiscatteringLut));
        if written.sky_view && written.aerial_view {
            assert(commands =~= seq![push, t, m, s, a, pop]);
        } else if written.sky_view {
            assert(commands =~= seq![push, t, m, s, pop]);
        } else if written.aerial_view {
            assert(commands =~= seq![push, t, m, a, pop]);
        } else {
            assert(commands =~= seq![push, t, m, pop]);
        }
        assert forall|i: int, lut: Lut|
            0 <= i < commands.len() && (#[trigger] commands[i]).spec_pass() is Some
                && commands[i].spec_pass()->Some_0.spec_reads(lut) implies #[trigger] written_before(
            commands,
            i,
            lut,
        ) by {
            let j: int = if lut == Lut::Transmittance {
                1
            } else {
                2
            };
            assert(commands[j].spec_pass() is Some && commands[j].spec_pass()->Some_0.spec_writes()
                == Some(lut));
        }
    }
}

/// Degradation: while the multiscattering pipeline is not compiled, the
/// multiscattering, sky-view and aerial-view passes are left out; of the
/// lookup-table passes the transmittance pass is the only one that may be
/// recorded. The compositing pass goes by its own pipeline.
pub proof fn lemma_pending_multiscattering_skips_dependents(
    textures: AtmosphereTextures,
    settings: AtmosphereSettings,
    offsets: ViewUniformOffsets,
    target: TextureId,
    hdr: bool,
    pipelines: AtmospherePipelines,
    ready: LutFlags,
    render_sky_ready: bool,
)
    requires
        !ready.multiscattering,
    ensures
        ({
            let written = spec_luts_written(ready);
            let tables = spec_lut_commands(textures, settings, offsets, pipelines, written);
            let frame = spec_frame_commands(
                textures,
                settings,
                offsets,
                target,
                hdr,
                pipelines,
                ready,
                render_sky_ready,
            );
            &&& !written.multiscattering && !written.sky_view && !written.aerial_view
            &&& tables == if ready.transmittance {
                seq![
                    Command::PushDebugGroup,
                    transmittance_pass(textures, offsets, pipelines),
                    Command::PopDebugGroup,
                ]
            } else {
                Seq::empty()
            }
            &&& forall|i: int|
                0 <= i < frame.len() && (#[trigger] frame[i]).spec_pass() is Some ==> {
                    let pass = frame[i].spec_pass()->Some_0;
                    pass == Pass::TransmittanceLut || pass == Pass::RenderSky
                }
        }),
{
    let written = spec_luts_written(ready);
    let tables = spec_lut_commands(textures, settings, offsets, pipelines, written);
    let frame = spec_frame_commands(
        textures,
        settings,
        offsets,
        target,
        hdr,
        pipelines,
        ready,
        render_sky_ready,
    );
    let t = transmittance_pass(textures, offsets, pipelines);
    let r = render_sky_pass(target, hdr, offsets, pipelines);
    if ready.transmittance {
        assert(tables =~= seq![Command::PushDebugGroup, t, Command::PopDebugGroup]);
    } else {
        assert(tables =~= Seq::<Command>::empty());
    }
    assert forall|i: int| 0 <= i < frame.len() implies {
        let c = #[trigger] frame[i];
        c == Command::PushDebugGroup || c == Command::PopDebugGroup || c == t || c == r
    } by {}
}

/// Full execution: with every pipeline compiled, all five passes are
/// recorded, in the order of issue, whatever happened in earlier frames.
pub proof fn lemma_ready_pipelines_run_every_pass(
    textures: AtmosphereTextures,
    settings: AtmosphereSettings,
    offsets: ViewUniformOffsets,
    target: TextureId,
    hdr: bool,
    pipelines: AtmospherePipelines,
    ready: LutFlags,
)
    requires
        ready.spec_all(),
    ensures
        spec_frame_commands(textures, settings, offsets, target, hdr, pipelines, ready, true)
            == seq![
            Command::PushDebugGroup,
            transmittance_pass(textures, offsets, pipelines),
            multiscattering_pass(settings, offsets, pipelines),
            sky_view_pass(textures, offsets, pipelines),
            aerial_view_pass(settings, offsets, pipelines),
            Command::PopDebugGroup,
            render_sky_pass(target, hdr, offsets, pipelines),
        ],
{
    assert(spec_frame_commands(textures, settings, offsets, target, hdr, pipelines, ready, true)
        =~= seq![
        Command::PushDebugGroup,
        transmittance_pass(textures, offsets, pipelines),
        multiscattering_pass(settings, offsets, pipelines),
        sky_view_pass(textures, offsets, pipelines),
        aerial_view_pass(settings, offsets, pipelines),
        Command::PopDebugGroup,
        render_sky_pass(target, hdr, offsets, pipelines),
    ]);
}

/// No torn reads: every pass recorded for a view in a frame binds its
/// uniforms at the offsets of that view.
pub proof fn lemma_passes_share_offsets(
    textures: AtmosphereTextures,
    settings: AtmosphereSettings,
    offsets: ViewUniformOffsets,
    target: TextureId,
    hdr: bool,
    pipelines: AtmospherePipelines,
    ready: LutFlags,
    render_sky_ready: bool,
)
    ensures
        ({
            let commands = spec_frame_commands(
                textures,
                settings,
                offsets,
                target,
                hdr,
                pipelines,
                ready,
                render_sky_ready,
            );
            forall|i: int|
                0 <= i < commands.len() && offsets_of(#[trigger] commands[i]) is Some ==> offsets_of(
                    commands[i],
                )->Some_0.spec_is_of(offsets)
        }),
{
    let commands = spec_frame_commands(
        textures,
        settings,
        offsets,
        target,
        hdr,
        pipelines,
        ready,
        render_sky_ready,
    );
    let t = transmittance_pass(textures, offsets, pipelines);
    let m = multiscattering_pass(settings, offsets, pipelines);
    let s = sky_view_pass(textures, offsets, pipelines);
    let a = aerial_view_pass(settings, offsets, pipelines);
    let r = render_sky_pass(target, hdr, offsets, pipelines);
    assert forall|i: int| 0 <= i < commands.len() implies {
        let c = #[trigger] commands[i];
        c == Command::PushDebugGroup || c == Command::PopDebugGroup || c == t || c == m || c == s
            || c == a || c == r
    } by {}
}

/// Workgroup dispatch: the compute passes are dispatched with the width
/// and the height of their table, each divided by the workgroup size and
/// rounded up, and with a depth of one.
pub proof fn lemma_dispatch_covers_table(
    settings: AtmosphereSettings,
    offsets: ViewUniformOffsets,
    pipelines: AtmospherePipelines,
)
    ensures
        ({
            let multiscattering = multiscattering_pass(settings, offsets, pipelines)->ComputePass_0;
            let aerial_view = aerial_view_pass(settings, offsets, pipelines)->ComputePass_0;
            &&& multiscattering.workgroups.x == spec_workgroup_count(
                settings.multiscattering_lut_size.x as int,
            )
            &&& multiscattering.workgroups.y == spec_workgroup_count(
                settings.multiscattering_lut_size.y as int,
            )
            &&& multiscattering.workgroups.z == 1
            &&& multiscattering.workgroups.x * WORKGROUP_SIZE >= settings.multiscattering_lut_size.x
            &&& multiscattering.workgroups.y * WORKGROUP_SIZE >= settings.multiscattering_lut_size.y
            &&& aerial_view.workgroups.x == spec_workgroup_count(
                settings.aerial_view_lut_size.x as int,
            )
            &&& aerial_view.workgroups.y == spec_workgroup_count(
                settings.aerial_view_lut_size.y as int,
            )
            &&& aerial_view.workgroups.z == 1
            &&& aerial_view.workgroups.x * WORKGROUP_SIZE >= settings.aerial_view_lut_size.x
            &&& aerial_view.workgroups.y * WORKGROUP_SIZE >= settings.aerial_view_lut_size.y
        }),
{
}

/// Idempotence: what is leased and recorded for a view depends on the
/// settings, the offsets, the target, the pipelines and the pool alone.
/// So two runs from cold pools of one eviction window lease the same
/// textures and record the same commands; and so does a second run from
/// the pool that the first has left, after the frame has ended and before
/// its textures are evicted.
pub proof fn lemma_rerun_is_identical(
    cold: Pool,
    other_cold: Pool,
    limits: Limits,
    settings: AtmosphereSettings,
    offsets: ViewUniformOffsets,
    target: TextureId,
    hdr: bool,
    pipelines: AtmospherePipelines,
    ready: LutFlags,
    render_sky_ready: bool,
    frames: nat,
)
    requires
        cold.textures.len() == 0,
        other_cold.textures.len() == 0,
        other_cold.next_id == cold.next_id,
        other_cold.eviction_frames == cold.eviction_frames,
        spec_prepare_atmosphere_textures(cold, limits, settings).1 is Ok,
        1 <= frames <= cold.eviction_frames,
    ensures
        ({
            let (end, first) = spec_prepare_atmosphere_textures(cold, limits, settings);
            let second = spec_prepare_atmosphere_textures(other_cold, limits, settings).1;
            let third = spec_prepare_atmosphere_textures(end.end_frames(frames), limits, settings).1;
            let commands = |textures: AtmosphereTextures|
                spec_frame_commands(
                    textures,
                    settings,
                    offsets,
                    target,
                    hdr,
                    pipelines,
                    ready,
                    render_sky_ready,
                );
            &&& second == first
            &&& third == first
            &&& commands(second->Ok_0) == commands(first->Ok_0)
            &&& commands(third->Ok_0) == commands(first->Ok_0)
        }),
{
    assert(cold.textures =~= other_cold.textures);
    assert(cold == other_cold);
    lemma_view_textures_return(cold, limits, settings, frames);
}

} // verus!
