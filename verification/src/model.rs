//! The normalized in-memory graph model that the resolver consumes.
//!
//! A project is an ordered collection of targets (actors); each target owns
//! its variable and list declarations and a map from block identifier to
//! block. Blocks reference each other only through string identifiers that
//! resolve within the owning target's own block map; every block records the
//! index of its owning target, set by the ingestion layer that builds the
//! model. Identifier maps are kept as ordered association lists so that the
//! model, and everything derived from it, is deterministic.

use vstd::prelude::*;

use crate::strutil::str_eq;

verus! {

/// Raw metadata triple of a serialized project file, as decoded.
#[derive(Debug)]
pub struct JsonScratchMetadata {
    pub agent: String,
    pub semver: String,
    pub vm: String,
}

/// Metadata of a project file: provenance only, never used by translation.
#[derive(Debug)]
pub struct ScratchMetadata {
    pub user_agent: String,
    pub semantic_version: String,
    pub vm_version: String,
}

/// The initial value of a variable or list declaration.
#[derive(Debug)]
pub enum ScratchInitializer {
    List,
    Int(i64),
    Str(String),
}

/// A variable or list declaration: display name and initial value.
#[derive(Debug)]
pub struct ScratchVariableDecl {
    pub name: String,
    pub init: ScratchInitializer,
}

/// The tag of a tagged input value.
#[derive(Clone, Copy, PartialEq, Eq, Structural, Debug)]
pub enum ScratchTypes {
    Str,
    Number,
    BlockCall,
    Variable,
}

/// The payload of a tagged input value.
#[derive(Debug)]
pub enum ScratchValueData {
    Int(i64),
    Str(String),
    BlockCall(String),
    Variable(String),
}

/// A tagged input value: a literal, a reference to another block (the
/// expression to resolve from it), or a variable reference by display name.
#[derive(Debug)]
pub struct ScratchValue {
    pub value_type: ScratchTypes,
    pub data: ScratchValueData,
}

/// One entry of a block's input map: the slot's shadow marker and its value.
#[derive(Debug)]
pub struct ScratchInput {
    pub shadow: i64,
    pub value: ScratchValue,
}

/// One graph node: an opcode, optional chain links, named inputs, named
/// fields, and auxiliary mutation metadata (used by procedure blocks only).
#[derive(Debug)]
pub struct ScratchBlock {
    pub opcode: String,
    pub next: Option<String>,
    pub parent: Option<String>,
    pub inputs: Vec<(String, ScratchInput)>,
    pub fields: Vec<(String, Vec<String>)>,
    pub mutation: Vec<(String, String)>,
    /// Index of the owning target within the file; block identifiers in
    /// `next`, `parent` and input references resolve in that target only.
    pub target: usize,
}

/// One actor (the stage or a sprite) with its declarations and blocks.
#[derive(Debug)]
pub struct ScratchTarget {
    pub is_stage: bool,
    pub name: String,
    pub variables: Vec<ScratchVariableDecl>,
    pub lists: Vec<ScratchVariableDecl>,
    pub blocks: Vec<(String, ScratchBlock)>,
}

/// A fully decoded project file: metadata and the ordered targets.
#[derive(Debug)]
pub struct ScratchFile {
    pub metadata: ScratchMetadata,
    pub targets: Vec<ScratchTarget>,
}

/// Mathematical view of `ScratchMetadata`.
#[verifier::ext_equal]
pub struct MetadataV {
    pub user_agent: Seq<char>,
    pub semantic_version: Seq<char>,
    pub vm_version: Seq<char>,
}

/// Mathematical view of `ScratchInitializer`.
#[verifier::ext_equal]
pub enum InitializerV {
    List,
    Int(i64),
    Str(Seq<char>),
}

/// Mathematical view of `ScratchVariableDecl`.
#[verifier::ext_equal]
pub struct VariableDeclV {
    pub name: Seq<char>,
    pub init: InitializerV,
}

/// Mathematical view of `ScratchValueData`.
#[verifier::ext_equal]
pub enum ScratchValueDataV {
    Int(i64),
    Str(Seq<char>),
    BlockCall(Seq<char>),
    Variable(Seq<char>),
}

/// Mathematical view of `ScratchValue`.
#[verifier::ext_equal]
pub struct ScratchValueV {
    pub value_type: ScratchTypes,
    pub data: ScratchValueDataV,
}

/// Mathematical view of `ScratchInput`.
#[verifier::ext_equal]
pub struct ScratchInputV {
    pub shadow: i64,
    pub value: ScratchValueV,
}

/// Mathematical view of `ScratchBlock`.
#[verifier::ext_equal]
pub struct BlockV {
    pub opcode: Seq<char>,
    pub next: Option<Seq<char>>,
    pub parent: Option<Seq<char>>,
    pub inputs: Seq<(Seq<char>, ScratchInputV)>,
    pub fields: Seq<(Seq<char>, Seq<Seq<char>>)>,
    pub mutation: Seq<(Seq<char>, Seq<char>)>,
    pub target: usize,
}

/// Mathematical view of `ScratchTarget`.
#[verifier::ext_equal]
pub struct TargetV {
    pub is_stage: bool,
    pub name: Seq<char>,
    pub variables: Seq<VariableDeclV>,
    pub lists: Seq<VariableDeclV>,
    pub blocks: Seq<(Seq<char>, BlockV)>,
}

/// Mathematical view of `ScratchFile`.
#[verifier::ext_equal]
pub struct FileV {
    pub metadata: MetadataV,
    pub targets: Seq<TargetV>,
}

impl DeepView for ScratchMetadata {
    type V = MetadataV;

    open spec fn deep_view(&self) -> MetadataV {
        MetadataV {
            user_agent: self.user_agent@,
            semantic_version: self.semantic_version@,
            vm_version: self.vm_version@,
        }
    }
}

impl DeepView for ScratchInitializer {
    type V = InitializerV;

    open spec fn deep_view(&self) -> InitializerV {
        match self {
            ScratchInitializer::List => InitializerV::List,
            ScratchInitializer::Int(x) => InitializerV::Int(*x),
            ScratchInitializer::Str(s) => InitializerV::Str(s@),
        }
    }
}

impl DeepView for ScratchVariableDecl {
    type V = VariableDeclV;

    open spec fn deep_view(&self) -> VariableDeclV {
        VariableDeclV { name: self.name@, init: self.init.deep_view() }
    }
}

impl DeepView for ScratchTypes {
    type V = ScratchTypes;

    open spec fn deep_view(&self) -> ScratchTypes {
        *self
    }
}

impl DeepView for ScratchValueData {
    type V = ScratchValueDataV;

    open spec fn deep_view(&self) -> ScratchValueDataV {
        match self {
            ScratchValueData::Int(x) => ScratchValueDataV::Int(*x),
            ScratchValueData::Str(s) => ScratchValueDataV::Str(s@),
            ScratchValueData::BlockCall(s) => ScratchValueDataV::BlockCall(s@),
            ScratchValueData::Variable(s) => ScratchValueDataV::Variable(s@),
        }
    }
}

impl DeepView for ScratchValue {
    type V = ScratchValueV;

    open spec fn deep_view(&self) -> ScratchValueV {
        ScratchValueV { value_type: self.value_type, data: self.data.deep_view() }
    }
}

impl DeepView for ScratchInput {
    type V = ScratchInputV;

    open spec fn deep_view(&self) -> ScratchInputV {
        ScratchInputV { shadow: self.shadow, value: self.value.deep_view() }
    }
}

impl DeepView for ScratchBlock {
    type V = BlockV;

    open spec fn deep_view(&self) -> BlockV {
        BlockV {
            opcode: self.opcode@,
            next: match &self.next {
                Some(s) => Some(s@),
                None => None,
            },
            parent: match &self.parent {
                Some(s) => Some(s@),
                None => None,
            },
            inputs: self.inputs.deep_view(),
            fields: self.fields.deep_view(),
            mutation: self.mutation.deep_view(),
            target: self.target,
        }
    }
}

impl DeepView for ScratchTarget {
    type V = TargetV;

    open spec fn deep_view(&self) -> TargetV {
        TargetV {
            is_stage: self.is_stage,
            name: self.name@,
            variables: self.variables.deep_view(),
            lists: self.lists.deep_view(),
            blocks: self.blocks.deep_view(),
        }
    }
}

impl DeepView for ScratchFile {
    type V = FileV;

    open spec fn deep_view(&self) -> FileV {
        FileV { metadata: self.metadata.deep_view(), targets: self.targets.deep_view() }
    }
}

/// The element-wise deep view of a sequence.
pub open spec fn dv_seq<T: DeepView>(s: Seq<T>) -> Seq<T::V> {
    Seq::new(s.len(), |i: int| s[i].deep_view())
}

/// A vector's deep view is the element-wise deep view of its view.
pub proof fn lemma_vec_dv<T: DeepView>(v: Vec<T>)
    ensures
        v.deep_view() == dv_seq(v@),
{
    assert(v.deep_view() =~= dv_seq(v@));
}

/// The value bound to the first entry of an association list with the given
/// key, if any.
pub open spec fn alist_get<T>(m: Seq<(Seq<char>, T)>, k: Seq<char>) -> Option<T>
    decreases m.len(),
{
    if m.len() == 0 {
        None
    } else if m[0].0 == k {
        Some(m[0].1)
    } else {
        alist_get(m.drop_first(), k)
    }
}

proof fn lemma_alist_get_skip<T>(m: Seq<(Seq<char>, T)>, k: Seq<char>, i: int)
    requires
        0 <= i <= m.len(),
        forall|j: int| 0 <= j < i ==> m[j].0 != k,
    ensures
        alist_get(m, k) == alist_get(m.skip(i), k),
    decreases i,
{
    if i > 0 {
        assert(m[0].0 != k);
        assert forall|j: int| 0 <= j < i - 1 implies m.drop_first()[j].0 != k by {
            assert(m.drop_first()[j] == m[j + 1]);
        }
        lemma_alist_get_skip(m.drop_first(), k, i - 1);
        assert(m.drop_first().skip(i - 1) =~= m.skip(i));
    } else {
        assert(m.skip(0) =~= m);
    }
}

/// Finds the first entry with the given key in an ordered association list.
pub(crate) fn alist_lookup<'a, V: DeepView>(m: &'a Vec<(String, V)>, k: &str) -> (r: Option<
    &'a V,
>)
    ensures
        match r {
            Some(v) => alist_get(m.deep_view(), k@) == Some(v.deep_view()),
            None => alist_get(m.deep_view(), k@) is None,
        },
{
    let mut i: usize = 0;
    while i < m.len()
        invariant
            i <= m.len(),
            forall|j: int| 0 <= j < i ==> m.deep_view()[j].0 != k@,
        decreases m.len() - i,
    {
        if str_eq(m[i].0.as_str(), k) {
            proof {
                lemma_alist_get_skip(m.deep_view(), k@, i as int);
                assert(m.deep_view().skip(i as int)[0] == m.deep_view()[i as int]);
            }
            return Some(&m[i].1);
        }
        i += 1;
    }
    proof {
        lemma_alist_get_skip(m.deep_view(), k@, m.len() as int);
    }
    None
}

/// The block bound to `id` in target `t` of the file, if both exist.
pub open spec fn spec_lookup_block(f: FileV, t: usize, id: Seq<char>) -> Option<BlockV> {
    if (t as int) < f.targets.len() {
        alist_get(f.targets[t as int].blocks, id)
    } else {
        None
    }
}

/// Looks a block up by identifier within one target of the file.
pub(crate) fn lookup_block<'a>(f: &'a ScratchFile, t: usize, id: &str) -> (r: Option<
    &'a ScratchBlock,
>)
    ensures
        match r {
            Some(b) => spec_lookup_block(f.deep_view(), t, id@) == Some(b.deep_view()),
            None => spec_lookup_block(f.deep_view(), t, id@) is None,
        },
{
    if t < f.targets.len() {
        alist_lookup(&f.targets[t].blocks, id)
    } else {
        None
    }
}

/// The value of the named input slot of a block, if present.
pub open spec fn input_value(b: BlockV, slot: Seq<char>) -> Option<ScratchValueV> {
    match alist_get(b.inputs, slot) {
        Some(inp) => Some(inp.value),
        None => None,
    }
}

/// The block identifier held by the named input slot, if the slot is present
/// and holds a block reference; absent and non-reference slots are alike.
pub open spec fn input_block_id(b: BlockV, slot: Seq<char>) -> Option<Seq<char>> {
    match input_value(b, slot) {
        Some(v) => match v.data {
            ScratchValueDataV::BlockCall(id) => Some(id),
            _ => None,
        },
        None => None,
    }
}

/// Reads the value of the named input slot.
pub(crate) fn get_input_value<'a>(b: &'a ScratchBlock, slot: &str) -> (r: Option<
    &'a ScratchValue,
>)
    ensures
        match r {
            Some(v) => input_value(b.deep_view(), slot@) == Some(v.deep_view()),
            None => input_value(b.deep_view(), slot@) is None,
        },
{
    match alist_lookup(&b.inputs, slot) {
        Some(inp) => Some(&inp.value),
        None => None,
    }
}

/// Reads the block identifier held by the named input slot, if any.
pub(crate) fn get_input_block_id<'a>(b: &'a ScratchBlock, slot: &str) -> (r: Option<&'a String>)
    ensures
        match r {
            Some(id) => input_block_id(b.deep_view(), slot@) == Some(id@),
            None => input_block_id(b.deep_view(), slot@) is None,
        },
{
    match get_input_value(b, slot) {
        Some(v) => match &v.data {
            ScratchValueData::BlockCall(id) => Some(id),
            _ => None,
        },
        None => None,
    }
}

/// The string entries of the named field of a block, if present.
pub open spec fn field_strings(b: BlockV, name: Seq<char>) -> Option<Seq<Seq<char>>> {
    alist_get(b.fields, name)
}

/// Reads the named field of a block.
pub(crate) fn get_field<'a>(b: &'a ScratchBlock, name: &str) -> (r: Option<&'a Vec<String>>)
    ensures
        match r {
            Some(v) => field_strings(b.deep_view(), name@) == Some(v.deep_view()),
            None => field_strings(b.deep_view(), name@) is None,
        },
{
    alist_lookup(&b.fields, name)
}

/// The raw serialized metadata bound to the named mutation key, if present.
pub open spec fn mutation_value(b: BlockV, name: Seq<char>) -> Option<Seq<char>> {
    alist_get(b.mutation, name)
}

/// Reads the named mutation entry of a block.
pub(crate) fn get_mutation<'a>(b: &'a ScratchBlock, name: &str) -> (r: Option<&'a String>)
    ensures
        match r {
            Some(v) => mutation_value(b.deep_view(), name@) == Some(v@),
            None => mutation_value(b.deep_view(), name@) is None,
        },
{
    alist_lookup(&b.mutation, name)
}

} // verus!
