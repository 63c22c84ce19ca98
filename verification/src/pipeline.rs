use vstd::prelude::*;
use std::collections::HashMap;

verus! {

broadcast use vstd::std_specs::hash::group_hash_axioms;

/// A label type that names one pipeline.
pub trait PipelineLabel {}

/// Where a shader module comes from: a shader crate to build, or a SPIR-V
/// file.
#[derive(Clone, PartialEq, Eq, Hash, Debug)]
pub enum ShaderSource {
    Crate(String),
    SPV(String),
}

impl View for ShaderSource {
    /// Whether it is a crate, and its path.
    type V = (bool, Seq<char>);

    open spec fn view(&self) -> (bool, Seq<char>) {
        match self {
            ShaderSource::Crate(p) => (true, p@),
            ShaderSource::SPV(p) => (false, p@),
        }
    }
}

impl ShaderSource {
    /// Whether two sources name the same module.
    pub fn same_as(&self, other: &ShaderSource) -> (r: bool)
        ensures
            r == (self@ == other@),
    {
        match (self, other) {
            (ShaderSource::Crate(a), ShaderSource::Crate(b)) => a.eq(b),
            (ShaderSource::SPV(a), ShaderSource::SPV(b)) => a.eq(b),
            _ => false,
        }
    }

    /// A copy of the source.
    pub fn duplicate(&self) -> (r: ShaderSource)
        ensures
            r@ == self@,
    {
        match self {
            ShaderSource::Crate(p) => ShaderSource::Crate(p.clone()),
            ShaderSource::SPV(p) => ShaderSource::SPV(p.clone()),
        }
    }
}

/// What a pipeline is made of. The fixed-function state of a graphics
/// pipeline, `G`, is only passed through.
pub enum PipelineInfo<G> {
    Compute { shader_source: ShaderSource, entry_point: &'static str },
    Graphics {
        task_shader: Option<(ShaderSource, &'static str)>,
        mesh_shader: (ShaderSource, &'static str),
        fragment_shader: (ShaderSource, &'static str),
        fixed_function: G,
    },
    RayTracing {},
}

/// Raw values of `VkPipelineBindPoint`.
pub const BIND_POINT_GRAPHICS: i32 = 0;
pub const BIND_POINT_COMPUTE: i32 = 1;
pub const BIND_POINT_RAY_TRACING: i32 = 1000165000;

pub open spec fn spec_bind_point<G>(info: PipelineInfo<G>) -> i32 {
    match info {
        PipelineInfo::Compute { .. } => BIND_POINT_COMPUTE,
        PipelineInfo::Graphics { .. } => BIND_POINT_GRAPHICS,
        PipelineInfo::RayTracing { .. } => BIND_POINT_RAY_TRACING,
    }
}

/// The point that a pipeline of this kind binds to.
pub fn bind_point<G>(info: &PipelineInfo<G>) -> (r: i32)
    ensures
        r == spec_bind_point(*info),
{
    match info {
        PipelineInfo::Compute { .. } => BIND_POINT_COMPUTE,
        PipelineInfo::Graphics { .. } => BIND_POINT_GRAPHICS,
        PipelineInfo::RayTracing { .. } => BIND_POINT_RAY_TRACING,
    }
}

/// The shader sources of a pipeline, in the order they are loaded: the
/// compute shader; or the task shader if any, the mesh shader and the
/// fragment shader.
pub open spec fn spec_shader_sources<G>(info: PipelineInfo<G>) -> Seq<(bool, Seq<char>)> {
    match info {
        PipelineInfo::Compute { shader_source, .. } => seq![shader_source@],
        PipelineInfo::Graphics { task_shader, mesh_shader, fragment_shader, .. } => match task_shader {
            Some(task) => seq![task.0@, mesh_shader.0@, fragment_shader.0@],
            None => seq![mesh_shader.0@, fragment_shader.0@],
        },
        PipelineInfo::RayTracing { .. } => Seq::empty(),
    }
}

/// The shader sources of a pipeline, as `spec_shader_sources` orders them.
pub fn shader_sources<G>(info: &PipelineInfo<G>) -> (r: Vec<&ShaderSource>)
    ensures
        r@.map_values(|s: &ShaderSource| s@) == spec_shader_sources(*info),
{
    let mut r: Vec<&ShaderSource> = Vec::new();
    match info {
        PipelineInfo::Compute { shader_source, .. } => {
            r.push(shader_source);
        },
        PipelineInfo::Graphics { task_shader, mesh_shader, fragment_shader, .. } => {
            match task_shader {
                Some(task) => r.push(&task.0),
                None => {},
            }
            r.push(&mesh_shader.0);
            r.push(&fragment_shader.0);
        },
        PipelineInfo::RayTracing { .. } => {},
    }
    assert(r@.map_values(|s: &ShaderSource| s@) =~= spec_shader_sources(*info));
    r
}

/// Why a pipeline request is refused.
#[derive(Clone, Copy, Debug, PartialEq, Eq, Structural)]
pub enum PipelineError {
    /// No pipeline has the label.
    NotFound,
    /// A pipeline with the label exists already.
    Overwrite,
    /// A push constant larger than the device allows.
    PushConstantTooLarge,
}

impl PipelineError {
    pub fn message(&self) -> (r: &'static str)
        ensures
            *self == PipelineError::NotFound ==> r@ == "No pipeline found with label:"@,
            *self == PipelineError::Overwrite ==> r@ == "Overwriting pipelines is not currently supported."@,
            *self == PipelineError::PushConstantTooLarge ==> r@ == "Push constant should be no larger than"@,
    {
        match self {
            PipelineError::NotFound => "No pipeline found with label:",
            PipelineError::Overwrite => "Overwriting pipelines is not currently supported.",
            PipelineError::PushConstantTooLarge => "Push constant should be no larger than",
        }
    }
}

/// Checks the size of a push constant against the device's limit.
pub fn check_push_constant_size(size: usize, max_push_constants_size: u32) -> (r: Result<(), PipelineError>)
    ensures
        size > max_push_constants_size ==> r == Err::<(), PipelineError>(PipelineError::PushConstantTooLarge),
        size <= max_push_constants_size ==> r == Ok::<(), PipelineError>(()),
{
    if size > max_push_constants_size as usize {
        Err(PipelineError::PushConstantTooLarge)
    } else {
        Ok(())
    }
}

/// A pipeline: what it was made of and what the device holds for it.
pub struct Pipeline<P, G> {
    pub info: PipelineInfo<G>,
    pub inner: P,
}

/// A pipeline that is set under a label is what the label gives back, and
/// every other label gives back what it gave before.
pub proof fn law_set_then_get<P, G>(pipelines: Map<u64, Pipeline<P, G>>, label: u64, pipeline: Pipeline<P, G>, other: u64)
    requires
        other != label,
    ensures
        pipelines.insert(label, pipeline).contains_key(label),
        pipelines.insert(label, pipeline)[label] == pipeline,
        pipelines.insert(label, pipeline).contains_key(other) == pipelines.contains_key(other),
        pipelines.contains_key(other) ==> pipelines.insert(label, pipeline)[other] == pipelines[other],
{
}

/// The pipelines of a device, by label, and the shader modules they were
/// built from, by source.
pub struct PipelineManager<P, S, G> {
    max_push_constants_size: u32,
    pipelines: HashMap<u64, Pipeline<P, G>>,
    shader_modules: Vec<(ShaderSource, S)>,
}

/// The abstract state of a pipeline manager.
pub struct PipelineManagerModel<P, S, G> {
    pub max_push_constants_size: u32,
    pub pipelines: Map<u64, Pipeline<P, G>>,
    pub shader_modules: Seq<((bool, Seq<char>), S)>,
}

/// No shader source is cached twice.
pub open spec fn manager_wf<P, S, G>(m: PipelineManagerModel<P, S, G>) -> bool {
    forall|i: int, j: int|
        0 <= i < m.shader_modules.len() && 0 <= j < m.shader_modules.len() && i != j
            ==> (#[trigger] m.shader_modules[i]).0 != (#[trigger] m.shader_modules[j]).0
}

/// Whether a module built from `source` is cached.
pub open spec fn spec_has_module<P, S, G>(m: PipelineManagerModel<P, S, G>, source: (bool, Seq<char>)) -> bool {
    exists|i: int| 0 <= i < m.shader_modules.len() && (#[trigger] m.shader_modules[i]).0 == source
}

/// No two cached modules come from the same source.
spec fn sources_distinct<S>(modules: Seq<(ShaderSource, S)>) -> bool {
    forall|i: int, j: int|
        0 <= i < modules.len() && 0 <= j < modules.len() && i != j ==> (#[trigger] modules[i]).0@ != (
        #[trigger] modules[j]).0@
}

/// A manager whose sources are distinct is well formed.
proof fn lemma_sources_distinct<P, S, G>(m: &PipelineManager<P, S, G>)
    requires
        sources_distinct(m.shader_modules@),
    ensures
        manager_wf(m@),
{
    assert forall|i: int, j: int|
        0 <= i < m@.shader_modules.len() && 0 <= j < m@.shader_modules.len() && i != j implies (
        #[trigger] m@.shader_modules[i]).0 != (#[trigger] m@.shader_modules[j]).0 by {
        assert(m.shader_modules@[i].0@ != m.shader_modules@[j].0@);
    }
}

impl<P, S, G> View for PipelineManager<P, S, G> {
    type V = PipelineManagerModel<P, S, G>;

    closed spec fn view(&self) -> PipelineManagerModel<P, S, G> {
        PipelineManagerModel {
            max_push_constants_size: self.max_push_constants_size,
            pipelines: self.pipelines@,
            shader_modules: self.shader_modules@.map_values(|e: (ShaderSource, S)| (e.0@, e.1)),
        }
    }
}

impl<P, S, G> PipelineManager<P, S, G> {
    /// No shader source is cached twice, whatever is done to the manager.
    #[verifier::type_invariant]
    spec fn wf(self) -> bool {
        sources_distinct(self.shader_modules@)
    }


    /// The largest push constant, in bytes, that the device takes.
    pub fn max_push_constants_size(&self) -> (r: u32)
        ensures
            r == self@.max_push_constants_size,
    {
        self.max_push_constants_size
    }

    /// A manager with no pipeline and no shader module.
    pub fn new(max_push_constants_size: u32) -> (r: Self)
        ensures
            r@.max_push_constants_size == max_push_constants_size,
            r@.pipelines == Map::<u64, Pipeline<P, G>>::empty(),
            r@.shader_modules.len() == 0,
            manager_wf(r@),
    {
        let r = PipelineManager { max_push_constants_size, pipelines: HashMap::new(), shader_modules: Vec::new() };
        assert(r@.shader_modules.len() == 0);
        proof {
            lemma_sources_distinct(&r);
        }
        r
    }

    /// The pipeline of a label; refused when there is none.
    pub fn get(&self, label: u64) -> (r: Result<&Pipeline<P, G>, PipelineError>)
        ensures
            self@.pipelines.contains_key(label) ==> (r matches Ok(p) && *p == self@.pipelines[label]),
            !self@.pipelines.contains_key(label) ==> r == Err::<&Pipeline<P, G>, PipelineError>(
                PipelineError::NotFound,
            ),
    {
        match self.pipelines.get(&label) {
            Some(pipeline) => Ok(pipeline),
            None => Err(PipelineError::NotFound),
        }
    }

    /// Whether a pipeline may be set under `label`: refused when one is set.
    pub fn check_new_pipeline(&self, label: u64) -> (r: Result<(), PipelineError>)
        ensures
            self@.pipelines.contains_key(label) ==> r == Err::<(), PipelineError>(PipelineError::Overwrite),
            !self@.pipelines.contains_key(label) ==> r == Ok::<(), PipelineError>(()),
    {
        if self.pipelines.contains_key(&label) {
            Err(PipelineError::Overwrite)
        } else {
            Ok(())
        }
    }

    /// Sets a pipeline under a label that has none.
    pub fn insert_pipeline(&mut self, label: u64, info: PipelineInfo<G>, inner: P)
        requires
            !old(self)@.pipelines.contains_key(label),
        ensures
            final(self)@.pipelines == old(self)@.pipelines.insert(label, Pipeline { info, inner }),
            final(self)@.shader_modules == old(self)@.shader_modules,
            final(self)@.max_push_constants_size == old(self)@.max_push_constants_size,
            manager_wf(final(self)@),
    {
        proof {
            use_type_invariant(&*self);
        }
        let mut pipelines: HashMap<u64, Pipeline<P, G>> = HashMap::new();
        std::mem::swap(&mut pipelines, &mut self.pipelines);
        pipelines.insert(label, Pipeline { info, inner });
        self.pipelines = pipelines;
        proof {
            lemma_sources_distinct(&*self);
        }
    }

    /// The cached module built from `source`, if any.
    pub fn shader_module(&self, source: &ShaderSource) -> (r: Option<&S>)
        ensures
            spec_has_module(self@, source@) <==> r is Some,
            r matches Some(module) ==> exists|i: int| 0 <= i < self@.shader_modules.len()
                && self@.shader_modules[i] == (source@, *module),
    {
        let mut k: usize = 0;
        while k < self.shader_modules.len()
            invariant
                k <= self.shader_modules@.len(),
                forall|i: int| 0 <= i < k ==> self@.shader_modules[i].0 != source@,
            decreases self.shader_modules.len() - k,
        {
            assert(self@.shader_modules[k as int] == (self.shader_modules@[k as int].0@, self.shader_modules@[k as int].1));
            if self.shader_modules[k].0.same_as(source) {
                return Some(&self.shader_modules[k].1);
            }
            k = k + 1;
        }
        None
    }

    /// Caches the module built from a source that has none.
    pub fn insert_shader_module(&mut self, source: ShaderSource, module: S)
        requires
            !spec_has_module(old(self)@, source@),
        ensures
            final(self)@.shader_modules == old(self)@.shader_modules.push((source@, module)),
            final(self)@.pipelines == old(self)@.pipelines,
            final(self)@.max_push_constants_size == old(self)@.max_push_constants_size,
            manager_wf(final(self)@),
    {
        proof {
            use_type_invariant(&*self);
        }
        let ghost s = source@;
        let ghost old_modules = self.shader_modules@;
        let mut modules: Vec<(ShaderSource, S)> = Vec::new();
        std::mem::swap(&mut modules, &mut self.shader_modules);
        let ghost n = modules@.len();
        modules.push((source, module));
        assert forall|i: int, j: int|
            0 <= i < modules@.len() && 0 <= j < modules@.len() && i != j implies (#[trigger] modules@[i]).0@
                != (#[trigger] modules@[j]).0@ by {
            if i == n {
                assert(old(self)@.shader_modules[j].0 == old_modules[j].0@);
                assert(!(old(self)@.shader_modules[j].0 == s));
            } else if j == n {
                assert(old(self)@.shader_modules[i].0 == old_modules[i].0@);
                assert(!(old(self)@.shader_modules[i].0 == s));
            } else {
                assert(modules@[i] == old_modules[i] && modules@[j] == old_modules[j]);
            }
        }
        self.shader_modules = modules;
        assert(self@.shader_modules =~= old(self)@.shader_modules.push((s, module)));
        proof {
            lemma_sources_distinct(&*self);
        }
    }

    /// Checks a push constant of `size` bytes against the device's limit.
    pub fn check_push_constant(&self, size: usize) -> (r: Result<(), PipelineError>)
        ensures
            r == (if size > self@.max_push_constants_size {
                Err::<(), PipelineError>(PipelineError::PushConstantTooLarge)
            } else {
                Ok::<(), PipelineError>(())
            }),
    {
        check_push_constant_size(size, self.max_push_constants_size)
    }

    /// The sources of a pipeline that have no cached module, each once, in
    /// the order the pipeline first names them: the modules to build before
    /// the pipeline is made. A cached source is never built again.
    pub fn sources_to_load(&self, info: &PipelineInfo<G>) -> (r: Vec<ShaderSource>)
        ensures
            r@.map_values(|s: ShaderSource| s@) == spec_sources_to_load(self@, spec_shader_sources(*info)),
            forall|k: int| 0 <= k < r@.len() ==> !spec_has_module(self@, (#[trigger] r@[k])@),
    {
        let srcs = shader_sources(info);
        let ghost keys = spec_shader_sources(*info);
        let mut r: Vec<ShaderSource> = Vec::new();
        let mut i: usize = 0;
        assert(keys.take(0) =~= Seq::<(bool, Seq<char>)>::empty());
        assert(r@.map_values(|s: ShaderSource| s@) =~= Seq::<(bool, Seq<char>)>::empty());
        while i < srcs.len()
            invariant
                i <= srcs@.len(),
                srcs@.map_values(|s: &ShaderSource| s@) == keys,
                r@.map_values(|s: ShaderSource| s@) == spec_sources_to_load(self@, keys.take(i as int)),
            decreases srcs.len() - i,
        {
            let src = srcs[i];
            assert(src@ == keys[i as int]);
            let cached = self.shader_module(src).is_some();
            let ghost rest = r@.map_values(|s: ShaderSource| s@);
            let mut seen = false;
            let mut k: usize = 0;
            while k < r.len()
                invariant
                    k <= r@.len(),
                    rest == r@.map_values(|s: ShaderSource| s@),
                    seen <==> exists|l: int| 0 <= l < k && rest[l] == src@,
                decreases r.len() - k,
            {
                assert(rest[k as int] == r@[k as int]@);
                if r[k].same_as(src) {
                    seen = true;
                }
                assert(seen <==> exists|l: int| 0 <= l < k + 1 && rest[l] == src@) by {
                    if rest[k as int] == src@ {
                        assert(0 <= k < k + 1 && rest[k as int] == src@);
                    }
                }
                k = k + 1;
            }
            assert(seen <==> rest.contains(src@));
            assert(keys.take(i + 1).drop_last() =~= keys.take(i as int));
            assert(keys.take(i + 1).last() == src@);
            if !cached && !seen {
                let ghost before = r@;
                r.push(src.duplicate());
                assert(r@.map_values(|s: ShaderSource| s@) =~= before.map_values(|s: ShaderSource| s@).push(src@));
            }
            i = i + 1;
        }
        assert(keys.take(i as int) =~= keys);
        proof {
            lemma_sources_to_load(self@, keys);
            assert forall|k: int| 0 <= k < r@.len() implies !spec_has_module(self@, (#[trigger] r@[k])@) by {
                assert(r@.map_values(|s: ShaderSource| s@)[k] == r@[k]@);
            }
        }
        r
    }
}

/// The sources among `srcs` that have no cached module, each once, in the
/// order they first appear.
pub open spec fn spec_sources_to_load<P, S, G>(m: PipelineManagerModel<P, S, G>, srcs: Seq<(bool, Seq<char>)>) -> Seq<
    (bool, Seq<char>),
>
    decreases srcs.len(),
{
    if srcs.len() == 0 {
        Seq::empty()
    } else {
        let rest = spec_sources_to_load(m, srcs.drop_last());
        let s = srcs.last();
        if spec_has_module(m, s) || rest.contains(s) {
            rest
        } else {
            rest.push(s)
        }
    }
}

/// The manager after caching `modules[k]` as the module of `loads[k]`, in
/// order.
pub open spec fn spec_cache_modules<P, S, G>(
    m: PipelineManagerModel<P, S, G>,
    loads: Seq<(bool, Seq<char>)>,
    modules: Seq<S>,
) -> PipelineManagerModel<P, S, G> {
    PipelineManagerModel {
        shader_modules: m.shader_modules + Seq::new(loads.len(), |k: int| (loads[k], modules[k])),
        ..m
    }
}

proof fn lemma_sources_to_load<P, S, G>(m: PipelineManagerModel<P, S, G>, srcs: Seq<(bool, Seq<char>)>)
    ensures
        ({
            let r = spec_sources_to_load(m, srcs);
            &&& forall|k: int| 0 <= k < r.len() ==> !spec_has_module(m, #[trigger] r[k]) && srcs.contains(r[k])
            &&& r.no_duplicates()
            &&& forall|s: (bool, Seq<char>)| srcs.contains(s) ==> spec_has_module(m, s) || r.contains(s)
        }),
    decreases srcs.len(),
{
    if srcs.len() > 0 {
        let front = srcs.drop_last();
        lemma_sources_to_load(m, front);
        let rest = spec_sources_to_load(m, front);
        let r = spec_sources_to_load(m, srcs);
        let last = srcs.last();
        assert forall|x: (bool, Seq<char>)| front.contains(x) implies srcs.contains(x) by {
            let i = choose|i: int| 0 <= i < front.len() && front[i] == x;
            assert(srcs[i] == x);
        }
        assert(srcs.contains(last)) by {
            assert(srcs[srcs.len() - 1] == last);
        }
        assert forall|s: (bool, Seq<char>)| srcs.contains(s) implies spec_has_module(m, s) || r.contains(s) by {
            let i = choose|i: int| 0 <= i < srcs.len() && srcs[i] == s;
            if i < srcs.len() - 1 {
                assert(front[i] == s);
                assert(front.contains(s));
                if !spec_has_module(m, s) {
                    let k = choose|k: int| 0 <= k < rest.len() && rest[k] == s;
                    assert(r[k] == s);
                }
            } else if !spec_has_module(m, s) && !rest.contains(s) {
                assert(r[rest.len() as int] == s);
            }
        }
        if !(spec_has_module(m, last) || rest.contains(last)) {
            assert forall|k: int| 0 <= k < r.len() implies !spec_has_module(m, #[trigger] r[k]) && srcs.contains(r[k]) by {
                if k < rest.len() {
                    assert(r[k] == rest[k]);
                    assert(front.contains(rest[k]));
                }
            }
        }
    }
}

/// Caching a module for each source that `sources_to_load` plans leaves no
/// source of the pipeline without a module, builds no source twice and no
/// cached source again, and touches no pipeline: when the pipeline cannot be
/// made afterwards, the pipelines are as they were.
pub proof fn law_planned_loads_cache_every_source<P, S, G>(
    m: PipelineManagerModel<P, S, G>,
    info: PipelineInfo<G>,
    modules: Seq<S>,
)
    requires
        modules.len() == spec_sources_to_load(m, spec_shader_sources(info)).len(),
    ensures
        ({
            let loads = spec_sources_to_load(m, spec_shader_sources(info));
            let m2 = spec_cache_modules(m, loads, modules);
            &&& forall|s: (bool, Seq<char>)| spec_shader_sources(info).contains(s) ==> spec_has_module(m2, s)
            &&& forall|s: (bool, Seq<char>)| spec_has_module(m, s) ==> !loads.contains(s)
            &&& loads.no_duplicates()
            &&& m2.pipelines == m.pipelines
            &&& m2.max_push_constants_size == m.max_push_constants_size
        }),
{
    let srcs = spec_shader_sources(info);
    let loads = spec_sources_to_load(m, srcs);
    let m2 = spec_cache_modules(m, loads, modules);
    lemma_sources_to_load(m, srcs);
    let n = m.shader_modules.len();
    assert forall|s: (bool, Seq<char>)| srcs.contains(s) implies spec_has_module(m2, s) by {
        if spec_has_module(m, s) {
            let i = choose|i: int| 0 <= i < m.shader_modules.len() && (#[trigger] m.shader_modules[i]).0 == s;
            assert(m2.shader_modules[i] == m.shader_modules[i]);
        } else {
            let k = choose|k: int| 0 <= k < loads.len() && loads[k] == s;
            assert(m2.shader_modules[n + k] == (loads[k], modules[k]));
        }
    }
    assert forall|s: (bool, Seq<char>)| spec_has_module(m, s) implies !loads.contains(s) by {
        if loads.contains(s) {
            let k = choose|k: int| 0 <= k < loads.len() && loads[k] == s;
            assert(!spec_has_module(m, loads[k]));
        }
    }
}

} // verus!
verus! {

pub const NEWLINE: u8 = 10;
pub const CARRIAGE_RETURN: u8 = 13;

/// Where the last line of a non-empty text ends: before its final line
/// ending, `\n` or `\r\n`, if it has one.
pub open spec fn last_line_end(s: Seq<u8>) -> int {
    if s.len() >= 1 && s.last() == NEWLINE {
        if s.len() >= 2 && s[s.len() - 2] == CARRIAGE_RETURN {
            s.len() - 2
        } else {
            s.len() - 1
        }
    } else {
        s.len() as int
    }
}

/// The byte range `[start, end)` of the last line of a text, as
/// `str::lines` splits it: lines end at `\n` or `\r\n`, and the final line
/// ending is optional. `None` for an empty text, which has no lines.
pub fn last_line(text: &[u8]) -> (r: Option<(usize, usize)>)
    ensures
        text@.len() == 0 <==> r is None,
        r matches Some((start, end)) ==> {
            &&& end == last_line_end(text@)
            &&& start <= end
            &&& (start == 0 || text@[start - 1] == NEWLINE)
            &&& forall|i: int| start <= i < end ==> text@[i] != NEWLINE
        },
{
    let n = text.len();
    if n == 0 {
        return None;
    }
    let end = if text[n - 1] == NEWLINE {
        if n >= 2 && text[n - 2] == CARRIAGE_RETURN {
            n - 2
        } else {
            n - 1
        }
    } else {
        n
    };
    let mut start = end;
    while start > 0 && text[start - 1] != NEWLINE
        invariant
            start <= end <= n == text@.len(),
            forall|i: int| start <= i < end ==> text@[i] != NEWLINE,
        decreases start,
    {
        start = start - 1;
    }
    Some((start, end))
}

} // verus!
verus! {

/// The dynamic state of a graphics pipeline.
#[derive(Clone, Copy, Debug, Default)]
pub struct DynamicStateInfo {}

/// Raw values of `VkBlendFactor`, `VkBlendOp` and `VkColorComponentFlags`.
pub const BLEND_FACTOR_ZERO: i32 = 0;
pub const BLEND_FACTOR_ONE: i32 = 1;
pub const BLEND_OP_ADD: i32 = 0;
pub const COLOR_COMPONENT_RGBA: u32 = 0xf;

/// How a color attachment blends, as raw Vulkan values.
#[derive(Clone, Copy, Debug, PartialEq, Eq, Structural)]
pub struct ColorBlendInfo {
    pub source_color_blend_factor: i32,
    pub destination_color_blend_factor: i32,
    pub color_blend_op: i32,
    pub source_alpha_blend_factor: i32,
    pub destination_alpha_blend_factor: i32,
    pub alpha_blend_op: i32,
    pub color_write_mask: u32,
}

impl Default for ColorBlendInfo {
    /// Plain replacement: the source is written over the destination, in
    /// all four channels.
    fn default() -> (r: Self)
        ensures
            r == (ColorBlendInfo {
                source_color_blend_factor: BLEND_FACTOR_ONE,
                destination_color_blend_factor: BLEND_FACTOR_ZERO,
                color_blend_op: BLEND_OP_ADD,
                source_alpha_blend_factor: BLEND_FACTOR_ONE,
                destination_alpha_blend_factor: BLEND_FACTOR_ZERO,
                alpha_blend_op: BLEND_OP_ADD,
                color_write_mask: COLOR_COMPONENT_RGBA,
            }),
    {
        ColorBlendInfo {
            source_color_blend_factor: BLEND_FACTOR_ONE,
            destination_color_blend_factor: BLEND_FACTOR_ZERO,
            color_blend_op: BLEND_OP_ADD,
            source_alpha_blend_factor: BLEND_FACTOR_ONE,
            destination_alpha_blend_factor: BLEND_FACTOR_ZERO,
            alpha_blend_op: BLEND_OP_ADD,
            color_write_mask: COLOR_COMPONENT_RGBA,
        }
    }
}


/// The programmable stages of a pipeline.
#[derive(Clone, Copy, Debug, PartialEq, Eq, Structural)]
pub enum ShaderStage {
    Compute,
    Task,
    Mesh,
    Fragment,
}

/// The stages a pipeline is made of, each with its source and entry point:
/// the compute stage; or the mesh stage, the fragment stage and then the
/// task stage if there is one.
pub open spec fn spec_stages<G>(info: PipelineInfo<G>) -> Seq<(ShaderStage, (bool, Seq<char>), Seq<char>)> {
    match info {
        PipelineInfo::Compute { shader_source, entry_point } => seq![
            (ShaderStage::Compute, shader_source@, entry_point@),
        ],
        PipelineInfo::Graphics { task_shader, mesh_shader, fragment_shader, .. } => {
            let base = seq![
                (ShaderStage::Mesh, mesh_shader.0@, mesh_shader.1@),
                (ShaderStage::Fragment, fragment_shader.0@, fragment_shader.1@),
            ];
            match task_shader {
                Some(task) => base.push((ShaderStage::Task, task.0@, task.1@)),
                None => base,
            }
        },
        PipelineInfo::RayTracing { .. } => Seq::empty(),
    }
}

/// The view of one planned stage.
pub open spec fn stage_view(t: (ShaderStage, &ShaderSource, &'static str)) -> (ShaderStage, (bool, Seq<char>), Seq<char>) {
    (t.0, t.1@, t.2@)
}

/// The stages of a pipeline, as `spec_stages` orders them.
pub fn pipeline_stages<G>(info: &PipelineInfo<G>) -> (r: Vec<(ShaderStage, &ShaderSource, &'static str)>)
    ensures
        r@.map_values(|t: (ShaderStage, &ShaderSource, &'static str)| stage_view(t)) == spec_stages(*info),
{
    let mut r: Vec<(ShaderStage, &ShaderSource, &'static str)> = Vec::new();
    match info {
        PipelineInfo::Compute { shader_source, entry_point } => {
            r.push((ShaderStage::Compute, shader_source, *entry_point));
        },
        PipelineInfo::Graphics { task_shader, mesh_shader, fragment_shader, .. } => {
            r.push((ShaderStage::Mesh, &mesh_shader.0, mesh_shader.1));
            r.push((ShaderStage::Fragment, &fragment_shader.0, fragment_shader.1));
            match task_shader {
                Some(task) => r.push((ShaderStage::Task, &task.0, task.1)),
                None => {},
            }
        },
        PipelineInfo::RayTracing { .. } => {},
    }
    assert(r@.map_values(|t: (ShaderStage, &ShaderSource, &'static str)| stage_view(t)) =~= spec_stages(*info));
    r
}

/// The color attachments of a graphics pipeline as Vulkan takes them: the
/// format of every attachment, in order, and the blend state of those that
/// blend, in order.
pub fn attachment_plan(attachments: &Vec<(i32, Option<ColorBlendInfo>)>) -> (r: (Vec<i32>, Vec<ColorBlendInfo>))
    ensures
        r.0@ == attachments@.map_values(|a: (i32, Option<ColorBlendInfo>)| a.0),
        r.1@ == attachments@.filter_map(|a: (i32, Option<ColorBlendInfo>)| a.1),
{
    let mut formats: Vec<i32> = Vec::new();
    let mut blends: Vec<ColorBlendInfo> = Vec::new();
    let mut k: usize = 0;
    assert(attachments@.take(0).filter_map(|a: (i32, Option<ColorBlendInfo>)| a.1) =~= Seq::<ColorBlendInfo>::empty());
    while k < attachments.len()
        invariant
            k <= attachments@.len(),
            formats@ == attachments@.take(k as int).map_values(|a: (i32, Option<ColorBlendInfo>)| a.0),
            blends@ == attachments@.take(k as int).filter_map(|a: (i32, Option<ColorBlendInfo>)| a.1),
        decreases attachments.len() - k,
    {
        proof {
            attachments@.lemma_filter_map_take_succ(|a: (i32, Option<ColorBlendInfo>)| a.1, k as int);
        }
        let (format, blend) = attachments[k];
        formats.push(format);
        match blend {
            Some(b) => blends.push(b),
            None => {},
        }
        assert(attachments@.take(k + 1).map_values(|a: (i32, Option<ColorBlendInfo>)| a.0) =~= attachments@.take(
            k as int,
        ).map_values(|a: (i32, Option<ColorBlendInfo>)| a.0).push(format));
        k = k + 1;
    }
    assert(attachments@.take(k as int) =~= attachments@);
    (formats, blends)
}


/// A graphics pipeline has a mesh stage with its mesh source and entry
/// point, a fragment stage with its fragment source and entry point, and a
/// task stage exactly when a task shader is given, and no other stage; its
/// shader sources are the sources of those stages.
pub proof fn law_graphics_stages<G>(
    task_shader: Option<(ShaderSource, &'static str)>,
    mesh_shader: (ShaderSource, &'static str),
    fragment_shader: (ShaderSource, &'static str),
    fixed_function: G,
)
    ensures
        ({
            let info = PipelineInfo::Graphics { task_shader, mesh_shader, fragment_shader, fixed_function };
            let stages = spec_stages(info);
            let sources = spec_shader_sources(info);
            &&& stages.len() == if task_shader is Some { 3int } else { 2int }
            &&& stages.contains((ShaderStage::Mesh, mesh_shader.0@, mesh_shader.1@))
            &&& stages.contains((ShaderStage::Fragment, fragment_shader.0@, fragment_shader.1@))
            &&& forall|t: (ShaderSource, &'static str)|
                task_shader == Some(t) ==> stages.contains((ShaderStage::Task, t.0@, t.1@))
            &&& task_shader is None ==> forall|k: int| 0 <= k < stages.len() ==> (#[trigger] stages[k]).0 != ShaderStage::Task
            &&& forall|k: int| 0 <= k < stages.len() ==> (#[trigger] stages[k]).0 != ShaderStage::Compute
            &&& sources.len() == stages.len()
            &&& sources.contains(mesh_shader.0@)
            &&& sources.contains(fragment_shader.0@)
            &&& forall|t: (ShaderSource, &'static str)| task_shader == Some(t) ==> sources.contains(t.0@)
        }),
{
    let info = PipelineInfo::Graphics { task_shader, mesh_shader, fragment_shader, fixed_function };
    let stages = spec_stages(info);
    let sources = spec_shader_sources(info);
    assert(stages[0] == (ShaderStage::Mesh, mesh_shader.0@, mesh_shader.1@));
    assert(stages[1] == (ShaderStage::Fragment, fragment_shader.0@, fragment_shader.1@));
    match task_shader {
        Some(t) => {
            assert(stages[2] == (ShaderStage::Task, t.0@, t.1@));
            assert(sources[0] == t.0@);
            assert(sources[1] == mesh_shader.0@);
            assert(sources[2] == fragment_shader.0@);
        },
        None => {
            assert(sources[0] == mesh_shader.0@);
            assert(sources[1] == fragment_shader.0@);
        },
    }
}

/// A compute pipeline has exactly one stage, the compute stage with its
/// source and entry point, and that source is its only shader source.
pub proof fn law_compute_stages<G>(shader_source: ShaderSource, entry_point: &'static str)
    ensures
        ({
            let info = PipelineInfo::<G>::Compute { shader_source, entry_point };
            &&& spec_stages(info) =~= seq![(ShaderStage::Compute, shader_source@, entry_point@)]
            &&& spec_shader_sources(info) =~= seq![shader_source@]
        }),
{
}

/// The sources that a pipeline's stages name are exactly its shader
/// sources.
pub proof fn law_stage_sources<G>(info: PipelineInfo<G>)
    ensures
        forall|k: int| 0 <= k < spec_stages(info).len() ==> spec_shader_sources(info).contains(
            (#[trigger] spec_stages(info)[k]).1,
        ),
        forall|k: int| 0 <= k < spec_shader_sources(info).len() ==> exists|j: int|
            0 <= j < spec_stages(info).len() && (#[trigger] spec_stages(info)[j]).1 == #[trigger] spec_shader_sources(
                info,
            )[k],
{
    let stages = spec_stages(info);
    let sources = spec_shader_sources(info);
    match info {
        PipelineInfo::Compute { .. } => {
            assert(stages[0].1 == sources[0]);
        },
        PipelineInfo::Graphics { task_shader, mesh_shader, fragment_shader, .. } => {
            match task_shader {
                Some(t) => {
                    assert(stages[0].1 == sources[1]);
                    assert(stages[1].1 == sources[2]);
                    assert(stages[2].1 == sources[0]);
                },
                None => {
                    assert(stages[0].1 == sources[0]);
                    assert(stages[1].1 == sources[1]);
                },
            }
        },
        PipelineInfo::RayTracing { .. } => {},
    }
}

/// Before a pipeline is made, every source that one of its stages names is
/// either cached or planned to be built: for a graphics pipeline, its mesh
/// and fragment sources, and its task source when it has one.
pub proof fn law_stage_sources_planned<P, S, G>(m: PipelineManagerModel<P, S, G>, info: PipelineInfo<G>)
    ensures
        ({
            let loads = spec_sources_to_load(m, spec_shader_sources(info));
            &&& forall|k: int| 0 <= k < spec_stages(info).len() ==> spec_has_module(
                m,
                (#[trigger] spec_stages(info)[k]).1,
            ) || loads.contains(spec_stages(info)[k].1)
            &&& info matches PipelineInfo::Graphics { mesh_shader, fragment_shader, .. } ==> (spec_has_module(
                m,
                mesh_shader.0@,
            ) || loads.contains(mesh_shader.0@)) && (spec_has_module(m, fragment_shader.0@) || loads.contains(
                fragment_shader.0@,
            ))
        }),
{
    lemma_sources_to_load(m, spec_shader_sources(info));
    law_stage_sources(info);
    match info {
        PipelineInfo::Graphics { task_shader, mesh_shader, fragment_shader, fixed_function } => {
            law_graphics_stages(task_shader, mesh_shader, fragment_shader, fixed_function);
        },
        _ => {},
    }
}

} // verus!
