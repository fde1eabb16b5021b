use vstd::prelude::*;
use vstd::string::StringSliceAdditionalSpecFns;
use core::marker::PhantomData;

verus! {

/// A programmable stage of the graphics pipeline.
#[derive(Debug, Clone, Copy, PartialEq, Eq, Hash, Structural)]
pub enum ShaderStage {
    Vertex,
    Fragment,
    Compute,
    Geometry,
}

/// The name of the function a shader source defines for `stage`.
pub open spec fn entry_point_of(stage: ShaderStage) -> &'static str {
    match stage {
        ShaderStage::Vertex => "vertex_main",
        ShaderStage::Fragment => "fragment_main",
        ShaderStage::Compute => "compute_main",
        ShaderStage::Geometry => "geometry_main",
    }
}

impl ShaderStage {
    pub fn entry_point(&self) -> (r: &'static str)
        ensures
            r == entry_point_of(*self),
    {
        match self {
            ShaderStage::Vertex => "vertex_main",
            ShaderStage::Fragment => "fragment_main",
            ShaderStage::Compute => "compute_main",
            ShaderStage::Geometry => "geometry_main",
        }
    }
}

/// The position of `stage` in pipeline order.
pub open spec fn stage_index(stage: ShaderStage) -> nat {
    match stage {
        ShaderStage::Vertex => 0,
        ShaderStage::Fragment => 1,
        ShaderStage::Compute => 2,
        ShaderStage::Geometry => 3,
    }
}

/// `needle` occurs in `hay` starting at `at`.
pub open spec fn occurs_at(hay: Seq<u8>, needle: Seq<u8>, at: int) -> bool {
    0 <= at && at + needle.len() <= hay.len() && hay.subrange(at, at + needle.len()) == needle
}

/// `needle` occurs somewhere in `hay`.
pub open spec fn occurs_in(hay: Seq<u8>, needle: Seq<u8>) -> bool {
    exists|at: int| occurs_at(hay, needle, at)
}

fn matches_at(hay: &[u8], needle: &[u8], at: usize) -> (r: bool)
    requires
        at + needle@.len() <= hay@.len(),
    ensures
        r == occurs_at(hay@, needle@, at as int),
{
    let hay_len = hay.len();
    let mut j: usize = 0;
    while j < needle.len()
        invariant
            0 <= j <= needle@.len(),
            hay_len == hay@.len(),
            at + needle@.len() <= hay@.len(),
            forall|k: int| 0 <= k < j ==> hay@[at + k] == needle@[k],
        decreases needle@.len() - j,
    {
        if hay[at + j] != needle[j] {
            assert(hay@.subrange(at as int, at + needle@.len())[j as int] != needle@[j as int]);
            return false;
        }
        j = j + 1;
    }
    assert(hay@.subrange(at as int, at + needle@.len()) =~= needle@);
    true
}

/// Whether `needle` occurs in `hay`.
pub fn contains_bytes(hay: &[u8], needle: &[u8]) -> (r: bool)
    ensures
        r == occurs_in(hay@, needle@),
{
    if needle.len() == 0 {
        assert(hay@.subrange(0, 0) =~= needle@);
        assert(occurs_at(hay@, needle@, 0));
        return true;
    }
    if needle.len() > hay.len() {
        return false;
    }
    let last = hay.len() - needle.len();
    let mut at: usize = 0;
    while at <= last
        invariant
            last + needle@.len() == hay@.len(),
            needle@.len() > 0,
            hay@.len() <= usize::MAX,
            forall|k: int| 0 <= k < at ==> !occurs_at(hay@, needle@, k),
        decreases last + 1 - at,
    {
        if matches_at(hay, needle, at) {
            return true;
        }
        at = at + 1;
    }
    assert forall|k: int| !occurs_at(hay@, needle@, k) by {
        if 0 <= k && k < at {
        }
    }
    false
}

/// A set of shader stages.
#[derive(Debug, Clone, Copy, PartialEq, Eq, Structural)]
pub struct ShaderStages {
    vertex: bool,
    fragment: bool,
    compute: bool,
    geometry: bool,
}

impl ShaderStages {
    pub closed spec fn has(self, stage: ShaderStage) -> bool {
        match stage {
            ShaderStage::Vertex => self.vertex,
            ShaderStage::Fragment => self.fragment,
            ShaderStage::Compute => self.compute,
            ShaderStage::Geometry => self.geometry,
        }
    }

    pub fn new() -> (r: ShaderStages)
        ensures
            forall|s: ShaderStage| !r.has(s),
    {
        ShaderStages { vertex: false, fragment: false, compute: false, geometry: false }
    }

    pub fn contains(&self, stage: ShaderStage) -> (r: bool)
        ensures
            r == self.has(stage),
    {
        match stage {
            ShaderStage::Vertex => self.vertex,
            ShaderStage::Fragment => self.fragment,
            ShaderStage::Compute => self.compute,
            ShaderStage::Geometry => self.geometry,
        }
    }

    pub fn insert(&mut self, stage: ShaderStage)
        ensures
            forall|s: ShaderStage| final(self).has(s) == (old(self).has(s) || s == stage),
    {
        match stage {
            ShaderStage::Vertex => self.vertex = true,
            ShaderStage::Fragment => self.fragment = true,
            ShaderStage::Compute => self.compute = true,
            ShaderStage::Geometry => self.geometry = true,
        }
    }
}

/// A shader's name, its source text, and the stages it provides.
#[derive(Debug, Clone, Copy)]
pub struct ShaderDescriptor {
    pub name: &'static str,
    pub source: &'static str,
    pub stages: ShaderStages,
}

/// Marks a shader builder whose stages are not chosen yet.
#[derive(Debug, Default, Clone, Copy)]
pub struct ShaderStagesMissing;

/// Marks a shader builder whose stages are chosen.
#[derive(Debug, Default, Clone, Copy)]
pub struct ShaderStagesSpecified;

/// Builds a shader descriptor; only one whose stages are chosen can be built.
pub struct ShaderBuilder<S> {
    specified: PhantomData<S>,
    descriptor: ShaderDescriptor,
}

impl<S> View for ShaderBuilder<S> {
    type V = ShaderDescriptor;

    closed spec fn view(&self) -> ShaderDescriptor {
        self.descriptor
    }
}

impl ShaderBuilder<ShaderStagesMissing> {
    pub fn new(name: &'static str, source: &'static str) -> (r: Self)
        ensures
            r@.name == name,
            r@.source == source,
            forall|s: ShaderStage| !r@.stages.has(s),
    {
        ShaderBuilder {
            specified: PhantomData,
            descriptor: ShaderDescriptor { name, source, stages: ShaderStages::new() },
        }
    }

    /// Chooses the stages whose entry point's name occurs in the source.
    pub fn detect_stages(self) -> (r: ShaderBuilder<ShaderStagesSpecified>)
        ensures
            r@.name == self@.name,
            r@.source == self@.source,
            forall|s: ShaderStage|
                #[trigger] r@.stages.has(s) == (self@.stages.has(s) || occurs_in(
                    self@.source.spec_bytes(),
                    entry_point_of(s).spec_bytes(),
                )),
    {
        let mut stages = self.descriptor.stages;
        let text = self.descriptor.source.as_bytes();
        let all = [
            ShaderStage::Vertex,
            ShaderStage::Fragment,
            ShaderStage::Compute,
            ShaderStage::Geometry,
        ];
        let mut i: usize = 0;
        while i < 4
            invariant
                all@ == seq![
                    ShaderStage::Vertex,
                    ShaderStage::Fragment,
                    ShaderStage::Compute,
                    ShaderStage::Geometry,
                ],
                text@ == self@.source.spec_bytes(),
                0 <= i <= 4,
                forall|s: ShaderStage|
                    #[trigger] stages.has(s) == (self@.stages.has(s) || (stage_index(s) < i
                        && occurs_in(text@, entry_point_of(s).spec_bytes()))),
            decreases 4 - i,
        {
            let stage = all[i];
            assert(stage_index(stage) == i);
            let name = stage.entry_point();
            if contains_bytes(text, name.as_bytes()) {
                stages.insert(stage);
            }
            i = i + 1;
        }
        ShaderBuilder {
            specified: PhantomData,
            descriptor: ShaderDescriptor {
                name: self.descriptor.name,
                source: self.descriptor.source,
                stages,
            },
        }
    }
}

impl<S> ShaderBuilder<S> {
    /// Adds `stage` to the chosen stages.
    pub fn with_stage(self, stage: ShaderStage) -> (r: ShaderBuilder<ShaderStagesSpecified>)
        ensures
            r@.name == self@.name,
            r@.source == self@.source,
            forall|s: ShaderStage| #[trigger] r@.stages.has(s) == (self@.stages.has(s) || s == stage),
    {
        let mut stages = self.descriptor.stages;
        stages.insert(stage);
        ShaderBuilder {
            specified: PhantomData,
            descriptor: ShaderDescriptor {
                name: self.descriptor.name,
                source: self.descriptor.source,
                stages,
            },
        }
    }
}

impl ShaderBuilder<ShaderStagesSpecified> {
    /// The finished descriptor, from which the device builds the shader module.
    pub fn build(self) -> (r: ShaderDescriptor)
        ensures
            r == self@,
    {
        self.descriptor
    }
}

} // verus!
