//! Pipeline descriptors and the cache that compiles each of them once.
//!
//! Compilation happens elsewhere and takes time. The cache hands out an
//! identity at once; the identity resolves to a pipeline only after the
//! compiler has reported it ready.

use vstd::prelude::*;
use crate::layout::LayoutId;
use crate::texture::TextureFormat;

verus! {

/// Handles of the shaders. The first two hold what the others import.
pub const TYPES_SHADER: u128 = 0xB4CA686B10FA592B508580CCC2F9558C;

pub const FUNCTIONS_SHADER: u128 = 0xD5524FD88BDC153FBF256B7F2C21906F;

pub const TRANSMITTANCE_LUT_SHADER: u128 = 0xEECBDEDFEED7F4EAFBD401BFAA5E0EFB;

pub const MULTISCATTERING_LUT_SHADER: u128 = 0x65915B32C44B6287C0CCE1E70AF2936A;

pub const SKY_VIEW_LUT_SHADER: u128 = 0x54136D7E6FFCD45BE38399A4E5ED7186;

pub const AERIAL_VIEW_LUT_SHADER: u128 = 0x6FDEC284AD356B78C3A4D8ED4CBA0BC5;

pub const RENDER_SKY_SHADER: u128 = 0x1951EB87C8A6129F0B541B1E4B3D4962;

/// A shader to load: its handle and the file that holds its source.
#[derive(Clone, Copy, Debug, PartialEq, Eq, Hash)]
pub struct ShaderSource {
    pub handle: u128,
    pub path: &'static str,
}

/// Whether `source` is the shader `handle` in the file `path`.
pub open spec fn is_shader(source: ShaderSource, handle: u128, path: Seq<char>) -> bool {
    source.handle == handle && source.path@ == path
}

/// The shaders of the atmosphere, in the order in which they are loaded:
/// what the others import first.
pub fn atmosphere_shaders() -> (shaders: Vec<ShaderSource>)
    ensures
        shaders@.len() == 7,
        is_shader(shaders@[0], TYPES_SHADER, "types.wgsl"@),
        is_shader(shaders@[1], FUNCTIONS_SHADER, "functions.wgsl"@),
        is_shader(shaders@[2], TRANSMITTANCE_LUT_SHADER, "transmittance_lut.wgsl"@),
        is_shader(shaders@[3], MULTISCATTERING_LUT_SHADER, "multiscattering_lut.wgsl"@),
        is_shader(shaders@[4], SKY_VIEW_LUT_SHADER, "sky_view_lut.wgsl"@),
        is_shader(shaders@[5], AERIAL_VIEW_LUT_SHADER, "aerial_view_lut.wgsl"@),
        is_shader(shaders@[6], RENDER_SKY_SHADER, "render_sky.wgsl"@),
{
    vec![
        ShaderSource { handle: TYPES_SHADER, path: "types.wgsl" },
        ShaderSource { handle: FUNCTIONS_SHADER, path: "functions.wgsl" },
        ShaderSource { handle: TRANSMITTANCE_LUT_SHADER, path: "transmittance_lut.wgsl" },
        ShaderSource { handle: MULTISCATTERING_LUT_SHADER, path: "multiscattering_lut.wgsl" },
        ShaderSource { handle: SKY_VIEW_LUT_SHADER, path: "sky_view_lut.wgsl" },
        ShaderSource { handle: AERIAL_VIEW_LUT_SHADER, path: "aerial_view_lut.wgsl" },
        ShaderSource { handle: RENDER_SKY_SHADER, path: "render_sky.wgsl" },
    ]
}

/// The features a shader is compiled with.
#[derive(Clone, Copy, Debug, PartialEq, Eq, Hash, Structural)]
pub struct ShaderDefs {
    /// Tone-map before and after filtering: for HDR targets.
    pub tonemap: bool,
    /// Ignore the history of earlier frames.
    pub reset: bool,
}

/// The function of the shader that a pipeline starts in.
#[derive(Clone, Copy, Debug, PartialEq, Eq, Hash, Structural)]
pub enum EntryPoint {
    Main,
    Taa,
}

/// A pipeline that draws one full-screen triangle into `target_count`
/// colour targets of `target_format`.
#[derive(Clone, Copy, Debug, PartialEq, Eq, Hash, Structural)]
pub struct RenderPipelineDescriptor {
    pub layout: LayoutId,
    pub shader: u128,
    pub shader_defs: ShaderDefs,
    pub entry_point: EntryPoint,
    pub target_format: TextureFormat,
    pub target_count: u32,
}

#[derive(Clone, Copy, Debug, PartialEq, Eq, Hash, Structural)]
pub struct ComputePipelineDescriptor {
    pub layout: LayoutId,
    pub shader: u128,
    pub shader_defs: ShaderDefs,
    pub entry_point: EntryPoint,
}

/// What a pipeline is: the key under which the cache holds it.
#[derive(Clone, Copy, Debug, PartialEq, Eq, Hash, Structural)]
pub enum PipelineDescriptor {
    Render(RenderPipelineDescriptor),
    Compute(ComputePipelineDescriptor),
}

/// Identity of a render pipeline in the cache.
#[derive(Clone, Copy, Debug, PartialEq, Eq, Hash, Structural)]
pub struct CachedRenderPipelineId(pub usize);

/// Identity of a compute pipeline in the cache.
#[derive(Clone, Copy, Debug, PartialEq, Eq, Hash, Structural)]
pub struct CachedComputePipelineId(pub usize);

#[derive(Clone, Copy, Debug, PartialEq, Eq, Hash, Structural)]
pub enum CachedPipelineState {
    /// Handed to the compiler, not yet compiled.
    Queued,
    /// Compiled.
    Ready,
}

#[derive(Clone, Copy, Debug, PartialEq, Eq, Hash, Structural)]
pub struct CachedPipeline {
    pub descriptor: PipelineDescriptor,
    pub state: CachedPipelineState,
}

/// Index of the pipeline of `descriptor`; the length of `pipelines` if
/// there is none.
pub open spec fn index_of(pipelines: Seq<CachedPipeline>, descriptor: PipelineDescriptor) -> int
    decreases pipelines.len(),
{
    if pipelines.len() == 0 {
        0
    } else if pipelines[0].descriptor == descriptor {
        0
    } else {
        1 + index_of(pipelines.drop_first(), descriptor)
    }
}

/// No two pipelines have the same descriptor.
pub open spec fn distinct_descriptors(pipelines: Seq<CachedPipeline>) -> bool {
    forall|i: int, j: int|
        0 <= i < j < pipelines.len() ==> (#[trigger] pipelines[i]).descriptor != (
        #[trigger] pipelines[j]).descriptor
}

/// The cache and the identity after a request for `descriptor`: the
/// identity that the descriptor has, or, for a new descriptor, the next
/// identity, with the pipeline queued for compilation.
pub open spec fn spec_get_or_compile(
    pipelines: Seq<CachedPipeline>,
    descriptor: PipelineDescriptor,
) -> (Seq<CachedPipeline>, int) {
    let id = index_of(pipelines, descriptor);
    if id < pipelines.len() {
        (pipelines, id)
    } else {
        (pipelines.push(CachedPipeline { descriptor, state: CachedPipelineState::Queued }), id)
    }
}

/// The cache after the compiler has reported the pipeline `id` ready.
pub open spec fn spec_finish_compilation(pipelines: Seq<CachedPipeline>, id: int) -> Seq<
    CachedPipeline,
> {
    if 0 <= id < pipelines.len() {
        pipelines.update(id, CachedPipeline { state: CachedPipelineState::Ready, ..pipelines[id] })
    } else {
        pipelines
    }
}

/// The render pipeline that `id` resolves to, if it is compiled.
pub open spec fn spec_render_pipeline(pipelines: Seq<CachedPipeline>, id: int) -> Option<
    RenderPipelineDescriptor,
> {
    if 0 <= id < pipelines.len() && pipelines[id].state == CachedPipelineState::Ready {
        match pipelines[id].descriptor {
            PipelineDescriptor::Render(descriptor) => Some(descriptor),
            PipelineDescriptor::Compute(_) => None,
        }
    } else {
        None
    }
}

/// The compute pipeline that `id` resolves to, if it is compiled.
pub open spec fn spec_compute_pipeline(pipelines: Seq<CachedPipeline>, id: int) -> Option<
    ComputePipelineDescriptor,
> {
    if 0 <= id < pipelines.len() && pipelines[id].state == CachedPipelineState::Ready {
        match pipelines[id].descriptor {
            PipelineDescriptor::Compute(descriptor) => Some(descriptor),
            PipelineDescriptor::Render(_) => None,
        }
    } else {
        None
    }
}

/// The identities in `pipelines` that await compilation, ascending.
pub open spec fn spec_queued(pipelines: Seq<CachedPipeline>) -> Seq<usize>
    decreases pipelines.len(),
{
    if pipelines.len() == 0 {
        Seq::empty()
    } else {
        let rest = spec_queued(pipelines.drop_last());
        if pipelines.last().state == CachedPipelineState::Queued {
            rest.push((pipelines.len() - 1) as usize)
        } else {
            rest
        }
    }
}

/// The pipelines of the process, each compiled once.
pub struct PipelineCache {
    pipelines: Vec<CachedPipeline>,
}

impl View for PipelineCache {
    type V = Seq<CachedPipeline>;

    closed spec fn view(&self) -> Seq<CachedPipeline> {
        self.pipelines@
    }
}

impl PipelineCache {
    pub fn new() -> (cache: Self)
        ensures
            cache@ == Seq::<CachedPipeline>::empty(),
            cache@.len() <= usize::MAX,
    {
        PipelineCache { pipelines: Vec::new() }
    }

    /// Number of pipelines in the cache, compiled or not. Every identity
    /// below it is an identity of the cache.
    pub fn len(&self) -> (n: usize)
        ensures
            n == self@.len(),
    {
        self.pipelines.len()
    }

    /// The identity of the pipeline of `descriptor`. A descriptor seen for
    /// the first time is queued for compilation. The identity is one of
    /// the cache from now on, and what the cache held, it holds.
    pub fn get_or_compile(&mut self, descriptor: PipelineDescriptor) -> (id: usize)
        ensures
            (final(self)@, id as int) == spec_get_or_compile(old(self)@, descriptor),
            distinct_descriptors(old(self)@) ==> distinct_descriptors(final(self)@),
            final(self)@.len() <= usize::MAX,
            id < final(self)@.len(),
            final(self)@[id as int].descriptor == descriptor,
            old(self)@.len() <= final(self)@.len(),
            forall|i: int| 0 <= i < old(self)@.len() ==> final(self)@[i] == old(self)@[i],
    {
        let n: usize = self.pipelines.len();
        let mut i: usize = 0;
        while i < n
            invariant
                i <= n,
                n == self.pipelines.len(),
                *self == *old(self),
                forall|j: int| 0 <= j < i ==> (#[trigger] self.pipelines@[j]).descriptor != descriptor,
            decreases n - i,
        {
            if self.pipelines[i].descriptor == descriptor {
                proof {
                    lemma_index_of_found(self.pipelines@, descriptor, i as int);
                }
                return i;
            }
            i += 1;
        }
        proof {
            lemma_index_of_absent(self.pipelines@, descriptor);
        }
        self.pipelines.push(CachedPipeline { descriptor, state: CachedPipelineState::Queued });
        assert(self.pipelines.len() == self.pipelines@.len());
        n
    }

    /// The identity of the render pipeline of `descriptor`.
    pub fn queue_render_pipeline(&mut self, descriptor: RenderPipelineDescriptor) -> (id:
        CachedRenderPipelineId)
        ensures
            (final(self)@, id.0 as int) == spec_get_or_compile(
                old(self)@,
                PipelineDescriptor::Render(descriptor),
            ),
            distinct_descriptors(old(self)@) ==> distinct_descriptors(final(self)@),
            final(self)@.len() <= usize::MAX,
            id.0 < final(self)@.len(),
            final(self)@[id.0 as int].descriptor == PipelineDescriptor::Render(descriptor),
            old(self)@.len() <= final(self)@.len(),
            forall|i: int| 0 <= i < old(self)@.len() ==> final(self)@[i] == old(self)@[i],
    {
        CachedRenderPipelineId(self.get_or_compile(PipelineDescriptor::Render(descriptor)))
    }

    /// The identity of the compute pipeline of `descriptor`.
    pub fn queue_compute_pipeline(&mut self, descriptor: ComputePipelineDescriptor) -> (id:
        CachedComputePipelineId)
        ensures
            (final(self)@, id.0 as int) == spec_get_or_compile(
                old(self)@,
                PipelineDescriptor::Compute(descriptor),
            ),
            distinct_descriptors(old(self)@) ==> distinct_descriptors(final(self)@),
            final(self)@.len() <= usize::MAX,
            id.0 < final(self)@.len(),
            final(self)@[id.0 as int].descriptor == PipelineDescriptor::Compute(descriptor),
            old(self)@.len() <= final(self)@.len(),
            forall|i: int| 0 <= i < old(self)@.len() ==> final(self)@[i] == old(self)@[i],
    {
        CachedComputePipelineId(self.get_or_compile(PipelineDescriptor::Compute(descriptor)))
    }

    /// The compiled render pipeline of `id`; `None` while it is not
    /// compiled, or if `id` is not the identity of a render pipeline.
    pub fn get_render_pipeline(&self, id: CachedRenderPipelineId) -> (pipeline: Option<
        RenderPipelineDescriptor,
    >)
        ensures
            pipeline == spec_render_pipeline(self@, id.0 as int),
    {
        if id.0 >= self.pipelines.len() {
            return None;
        }
        let cached: CachedPipeline = self.pipelines[id.0];
        match (cached.state, cached.descriptor) {
            (CachedPipelineState::Ready, PipelineDescriptor::Render(descriptor)) => Some(descriptor),
            _ => None,
        }
    }

    /// The compiled compute pipeline of `id`; `None` while it is not
    /// compiled, or if `id` is not the identity of a compute pipeline.
    pub fn get_compute_pipeline(&self, id: CachedComputePipelineId) -> (pipeline: Option<
        ComputePipelineDescriptor,
    >)
        ensures
            pipeline == spec_compute_pipeline(self@, id.0 as int),
    {
        if id.0 >= self.pipelines.len() {
            return None;
        }
        let cached: CachedPipeline = self.pipelines[id.0];
        match (cached.state, cached.descriptor) {
            (CachedPipelineState::Ready, PipelineDescriptor::Compute(descriptor)) => Some(descriptor),
            _ => None,
        }
    }

    /// What the pipeline `id` is, compiled or not; `None` if `id` is not
    /// an identity of the cache.
    pub fn descriptor(&self, id: usize) -> (descriptor: Option<PipelineDescriptor>)
        ensures
            descriptor == if id < self@.len() {
                Some(self@[id as int].descriptor)
            } else {
                None
            },
    {
        if id < self.pipelines.len() {
            Some(self.pipelines[id].descriptor)
        } else {
            None
        }
    }

    /// The identities that await compilation, ascending.
    pub fn queued(&self) -> (ids: Vec<usize>)
        ensures
            ids@ == spec_queued(self@),
    {
        let mut ids: Vec<usize> = Vec::new();
        let n: usize = self.pipelines.len();
        let mut i: usize = 0;
        while i < n
            invariant
                i <= n,
                n == self.pipelines.len(),
                ids@ == spec_queued(self.pipelines@.subrange(0, i as int)),
            decreases n - i,
        {
            proof {
                let next = self.pipelines@.subrange(0, i + 1);
                assert(next.drop_last() =~= self.pipelines@.subrange(0, i as int));
            }
            match self.pipelines[i].state {
                CachedPipelineState::Queued => {
                    ids.push(i);
                },
                CachedPipelineState::Ready => {},
            }
            i += 1;
        }
        assert(self.pipelines@.subrange(0, n as int) =~= self.pipelines@);
        ids
    }

    /// Records that the compiler has compiled the pipeline `id`. Returns
    /// whether `id` is an identity of the cache; if not, nothing changes.
    pub fn finish_compilation(&mut self, id: usize) -> (known: bool)
        ensures
            known == (id < old(self)@.len()),
            final(self)@ == spec_finish_compilation(old(self)@, id as int),
            distinct_descriptors(old(self)@) ==> distinct_descriptors(final(self)@),
            final(self)@.len() == old(self)@.len(),
            final(self)@.len() <= usize::MAX,
    {
        if id >= self.pipelines.len() {
            return false;
        }
        let cached: CachedPipeline = self.pipelines[id];
        self.pipelines.set(id, CachedPipeline { state: CachedPipelineState::Ready, ..cached });
        assert(self.pipelines.len() == self.pipelines@.len());
        true
    }
}

/// `index_of` is `i` if the descriptor is at `i` and nowhere before.
pub proof fn lemma_index_of_found(pipelines: Seq<CachedPipeline>, descriptor: PipelineDescriptor, i: int)
    requires
        0 <= i < pipelines.len(),
        pipelines[i].descriptor == descriptor,
        forall|j: int| 0 <= j < i ==> (#[trigger] pipelines[j]).descriptor != descriptor,
    ensures
        index_of(pipelines, descriptor) == i,
    decreases pipelines.len(),
{
    if i > 0 {
        let rest = pipelines.drop_first();
        assert forall|j: int| 0 <= j < i - 1 implies (#[trigger] rest[j]).descriptor != descriptor by {
            assert(rest[j] == pipelines[j + 1]);
        }
        lemma_index_of_found(rest, descriptor, i - 1);
    }
}

/// `index_of` is the length if the descriptor is nowhere.
pub proof fn lemma_index_of_absent(pipelines: Seq<CachedPipeline>, descriptor: PipelineDescriptor)
    requires
        forall|j: int| 0 <= j < pipelines.len() ==> (#[trigger] pipelines[j]).descriptor != descriptor,
    ensures
        index_of(pipelines, descriptor) == pipelines.len(),
    decreases pipelines.len(),
{
    if pipelines.len() > 0 {
        let rest = pipelines.drop_first();
        assert forall|j: int| 0 <= j < rest.len() implies (#[trigger] rest[j]).descriptor != descriptor by {
            assert(rest[j] == pipelines[j + 1]);
        }
        lemma_index_of_absent(rest, descriptor);
    }
}

/// `index_of` is at most the length, and below the length it is an index
/// of the descriptor.
pub proof fn lemma_index_of_bounds(pipelines: Seq<CachedPipeline>, descriptor: PipelineDescriptor)
    ensures
        0 <= index_of(pipelines, descriptor) <= pipelines.len(),
        index_of(pipelines, descriptor) < pipelines.len() ==> pipelines[index_of(
            pipelines,
            descriptor,
        )].descriptor == descriptor,
    decreases pipelines.len(),
{
    if pipelines.len() > 0 && pipelines[0].descriptor != descriptor {
        lemma_index_of_bounds(pipelines.drop_first(), descriptor);
    }
}

/// A second request for a descriptor returns the identity of the first
/// and leaves the cache as it is.
pub proof fn lemma_same_key_same_pipeline(
    pipelines: Seq<CachedPipeline>,
    descriptor: PipelineDescriptor,
)
    ensures
        ({
            let (first_cache, first) = spec_get_or_compile(pipelines, descriptor);
            let (second_cache, second) = spec_get_or_compile(first_cache, descriptor);
            &&& second == first
            &&& second_cache == first_cache
            &&& 0 <= first < first_cache.len()
            &&& first_cache[first].descriptor == descriptor
        }),
{
    lemma_index_of_bounds(pipelines, descriptor);
    let (first_cache, first) = spec_get_or_compile(pipelines, descriptor);
    if first < pipelines.len() {
    } else {
        assert forall|j: int| 0 <= j < first implies (#[trigger] first_cache[j]).descriptor
            != descriptor by {
            lemma_index_of_first(pipelines, descriptor, j);
        }
        lemma_index_of_found(first_cache, descriptor, first);
    }
}

/// Determinism: in a cache without duplicates, a descriptor that has the
/// identity `id` resolves to `id`, and the request changes nothing.
pub proof fn lemma_identity_is_stable(
    pipelines: Seq<CachedPipeline>,
    descriptor: PipelineDescriptor,
    id: int,
)
    requires
        distinct_descriptors(pipelines),
        0 <= id < pipelines.len(),
        pipelines[id].descriptor == descriptor,
    ensures
        spec_get_or_compile(pipelines, descriptor) == (pipelines, id),
{
    lemma_index_of_found(pipelines, descriptor, id);
}

/// No pipeline before `index_of` has the descriptor.
pub proof fn lemma_index_of_first(pipelines: Seq<CachedPipeline>, descriptor: PipelineDescriptor, j: int)
    requires
        0 <= j < index_of(pipelines, descriptor),
        j < pipelines.len(),
    ensures
        pipelines[j].descriptor != descriptor,
    decreases pipelines.len(),
{
    if j > 0 {
        let rest = pipelines.drop_first();
        assert(pipelines[j] == rest[j - 1]);
        lemma_index_of_bounds(rest, descriptor);
        lemma_index_of_first(rest, descriptor, j - 1);
    }
}

/// Requests and compilations keep what the cache holds: an identity keeps
/// its descriptor, and a compiled pipeline stays compiled.
pub proof fn lemma_cache_only_grows(
    pipelines: Seq<CachedPipeline>,
    descriptor: PipelineDescriptor,
    compiled: int,
    id: int,
)
    requires
        0 <= id < pipelines.len(),
    ensures
        ({
            let requested = spec_get_or_compile(pipelines, descriptor).0;
            let finished = spec_finish_compilation(pipelines, compiled);
            &&& id < requested.len()
            &&& requested[id] == pipelines[id]
            &&& id < finished.len()
            &&& finished[id].descriptor == pipelines[id].descriptor
            &&& pipelines[id].state == CachedPipelineState::Ready ==> finished[id].state
                == CachedPipelineState::Ready
        }),
{
}

} // verus!
