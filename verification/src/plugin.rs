//! Start-up of the atmosphere: the capability gate, the resources made
//! once, and the places of the nodes in the render graph.

use vstd::prelude::*;
use crate::layout::{supports_atmosphere, AtmosphereBindGroupLayouts, RenderSkyBindGroupLayout};
use crate::node::AtmosphereNode;
use crate::pipeline::PipelineCache;
use crate::resources::{AtmospherePipelines, AtmosphereSamplers};
use crate::texture::RenderAdapter;

verus! {

/// What is reported when the atmosphere cannot run.
#[derive(Clone, Copy, Debug, PartialEq, Eq, Hash, Structural)]
pub enum Diagnostic {
    /// The adapter cannot write textures of the tables' format as storage
    /// textures. Reported once, at start-up; the atmosphere stays off.
    StorageBindingUnsupported,
    /// The textures of a view could not be allocated. The view goes
    /// without atmosphere for the frame.
    AllocationFailed,
}

impl Diagnostic {
    /// The text of the report.
    pub fn message(self) -> (text: &'static str)
        ensures
            text@ == (match self {
                Diagnostic::StorageBindingUnsupported => "atmosphere not loaded: the adapter cannot write Rgba16Float textures as storage textures"@,
                Diagnostic::AllocationFailed => "atmosphere skipped for a view: its lookup tables could not be allocated"@,
            }),
    {
        match self {
            Diagnostic::StorageBindingUnsupported => "atmosphere not loaded: the adapter cannot write Rgba16Float textures as storage textures",
            Diagnostic::AllocationFailed => "atmosphere skipped for a view: its lookup tables could not be allocated",
        }
    }
}

/// The nodes of the render graph that the passes are ordered against.
#[derive(Clone, Copy, Debug, PartialEq, Eq, Hash, Structural)]
pub enum Node3d {
    EndPrepasses,
    StartMainPass,
    MainOpaquePass,
    MainTransparentPass,
    EndMainPass,
    Taa,
    MotionBlur,
    Bloom,
    Tonemapping,
}

/// A node of the render graph of a view: one of the renderer's own, or one
/// of the atmosphere.
#[derive(Clone, Copy, Debug, PartialEq, Eq, Hash, Structural)]
pub enum GraphNode {
    Core(Node3d),
    Atmosphere(AtmosphereNode),
}

/// An edge of the render graph: `before` runs before `after`.
#[derive(Clone, Copy, Debug, PartialEq, Eq, Hash, Structural)]
pub struct GraphEdge {
    pub before: GraphNode,
    pub after: GraphNode,
}

/// The node that runs before `node` and the node that runs after it.
pub open spec fn spec_neighbours(node: AtmosphereNode) -> (Node3d, Node3d) {
    match node {
        AtmosphereNode::RenderLuts => (Node3d::EndPrepasses, Node3d::StartMainPass),
        AtmosphereNode::RenderSky => (Node3d::MainOpaquePass, Node3d::MainTransparentPass),
    }
}

/// The edges that the atmosphere adds to the render graph: the lookup
/// tables are rendered after the prepasses and before the main pass; the
/// sky is composited after the opaque and before the transparent geometry.
pub open spec fn atmosphere_graph_edges() -> Seq<GraphEdge> {
    seq![
        GraphEdge {
            before: GraphNode::Core(Node3d::EndPrepasses),
            after: GraphNode::Atmosphere(AtmosphereNode::RenderLuts),
        },
        GraphEdge {
            before: GraphNode::Atmosphere(AtmosphereNode::RenderLuts),
            after: GraphNode::Core(Node3d::StartMainPass),
        },
        GraphEdge {
            before: GraphNode::Core(Node3d::MainOpaquePass),
            after: GraphNode::Atmosphere(AtmosphereNode::RenderSky),
        },
        GraphEdge {
            before: GraphNode::Atmosphere(AtmosphereNode::RenderSky),
            after: GraphNode::Core(Node3d::MainTransparentPass),
        },
    ]
}

/// What the atmosphere makes once and keeps for the session.
#[derive(Clone, Debug, PartialEq, Eq)]
pub struct AtmosphereResources {
    pub layouts: AtmosphereBindGroupLayouts,
    pub render_sky_layout: RenderSkyBindGroupLayout,
    pub samplers: AtmosphereSamplers,
    pub pipelines: AtmospherePipelines,
    /// The edges to add to the render graph of every view.
    pub graph_edges: Vec<GraphEdge>,
}

/// The atmosphere as a part of the renderer.
#[derive(Clone, Copy, Debug, Default)]
pub struct AtmospherePlugin;

impl AtmospherePlugin {
    /// Queries the adapter once and, if it can run the passes, makes the
    /// layouts and samplers, requests the pipelines, and gives the edges
    /// that place the two nodes in the render graph.
    ///
    /// On an adapter that cannot, nothing is made or requested, no edge is
    /// given, and the one diagnostic to report is returned: the atmosphere
    /// is off for the session.
    pub fn finish(&self, adapter: &RenderAdapter, pipeline_cache: &mut PipelineCache) -> (result:
        Result<AtmosphereResources, Diagnostic>)
        ensures
            result is Ok <==> supports_atmosphere(*adapter),
            result is Err ==> result->Err_0 == Diagnostic::StorageBindingUnsupported
                && final(pipeline_cache)@ == old(pipeline_cache)@,
            result is Ok ==> {
                let resources = result->Ok_0;
                &&& resources.layouts.wf()
                &&& resources.render_sky_layout.wf()
                &&& resources.samplers == AtmosphereSamplers::spec_new()
                &&& (final(pipeline_cache)@, resources.pipelines) == AtmospherePipelines::spec_queue(
                    old(pipeline_cache)@,
                )
                &&& resources.pipelines.spec_stand_in(final(pipeline_cache)@)
                &&& resources.graph_edges@ == atmosphere_graph_edges()
            },
    {
        let layouts = match AtmosphereBindGroupLayouts::from_adapter(adapter) {
            Some(layouts) => layouts,
            None => {
                return Err(Diagnostic::StorageBindingUnsupported);
            },
        };
        let render_sky_layout = RenderSkyBindGroupLayout::new();
        let samplers = AtmosphereSamplers::new();
        let pipelines = AtmospherePipelines::queue(pipeline_cache);
        let (before_luts, after_luts) = AtmosphereNode::RenderLuts.neighbours();
        let (before_sky, after_sky) = AtmosphereNode::RenderSky.neighbours();
        let graph_edges = vec![
            GraphEdge {
                before: GraphNode::Core(before_luts),
                after: GraphNode::Atmosphere(AtmosphereNode::RenderLuts),
            },
            GraphEdge {
                before: GraphNode::Atmosphere(AtmosphereNode::RenderLuts),
                after: GraphNode::Core(after_luts),
            },
            GraphEdge {
                before: GraphNode::Core(before_sky),
                after: GraphNode::Atmosphere(AtmosphereNode::RenderSky),
            },
            GraphEdge {
                before: GraphNode::Atmosphere(AtmosphereNode::RenderSky),
                after: GraphNode::Core(after_sky),
            },
        ];
        Ok(AtmosphereResources { layouts, render_sky_layout, samplers, pipelines, graph_edges })
    }
}

/// The pipelines to hand to the nodes: those of `resources`, or `None`
/// where the atmosphere is off.
pub fn pipelines_of(resources: &Result<AtmosphereResources, Diagnostic>) -> (pipelines: Option<
    &AtmospherePipelines,
>)
    ensures
        pipelines is Some <==> resources is Ok,
        pipelines is Some ==> *pipelines->Some_0 == resources->Ok_0.pipelines,
{
    match resources {
        Ok(resources) => Some(&resources.pipelines),
        Err(_) => None,
    }
}

/// Decides which allocation failures are reported: the first of a run of
/// failures is, the rest of the run is not.
#[derive(Clone, Copy, Debug, PartialEq, Eq, Hash, Structural)]
pub struct AllocationDiagnostics {
    /// Whether the last allocation failed.
    pub failing: bool,
}

impl AllocationDiagnostics {
    pub fn new() -> (log: Self)
        ensures
            log.failing == false,
    {
        AllocationDiagnostics { failing: false }
    }

    /// Takes note of the outcome of an allocation and returns the
    /// diagnostic to report, if any: a failure is reported unless the
    /// allocation before it failed too.
    pub fn note(&mut self, succeeded: bool) -> (report: Option<Diagnostic>)
        ensures
            final(self).failing == !succeeded,
            report == if !succeeded && !old(self).failing {
                Some(Diagnostic::AllocationFailed)
            } else {
                None
            },
    {
        let report = if !succeeded && !self.failing {
            Some(Diagnostic::AllocationFailed)
        } else {
            None
        };
        self.failing = !succeeded;
        report
    }
}

impl AtmosphereNode {
    /// The node that runs before this one and the node that runs after
    /// it: the lookup tables are rendered between the prepasses and the
    /// main pass, the sky between the opaque and the transparent geometry.
    pub fn neighbours(self) -> (around: (Node3d, Node3d))
        ensures
            around == spec_neighbours(self),
    {
        match self {
            AtmosphereNode::RenderLuts => (Node3d::EndPrepasses, Node3d::StartMainPass),
            AtmosphereNode::RenderSky => (Node3d::MainOpaquePass, Node3d::MainTransparentPass),
        }
    }
}

} // verus!
