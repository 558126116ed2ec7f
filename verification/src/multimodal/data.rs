use vstd::prelude::*;

use crate::text::str_eq;

pub use crate::clock::now_unix;

verus! {

pub const MULTIMODAL_VERSION: u32 = 1;

/// What is known of a tier's multimodal support.
#[derive(Debug, Clone, Copy, PartialEq, Eq, Default, Structural)]
pub enum TierSupport {
    #[default]
    Unknown,
    Supported,
    Unsupported,
}

/// Multimodal support of one model on each tier.
#[derive(Debug, Clone, Copy, PartialEq, Eq, Structural)]
pub struct ModelCapability {
    pub edge: TierSupport,
    pub cloud: TierSupport,
    pub probed_at_unix: Option<u64>,
}

pub open spec fn unknown_capability() -> ModelCapability {
    ModelCapability { edge: TierSupport::Unknown, cloud: TierSupport::Unknown, probed_at_unix: None }
}

impl Default for ModelCapability {
    fn default() -> (r: ModelCapability)
        ensures
            r == unknown_capability(),
    {
        ModelCapability { edge: TierSupport::Unknown, cloud: TierSupport::Unknown, probed_at_unix: None }
    }
}

/// The capability record of one model.
#[derive(Debug, Clone)]
pub struct ModelEntry {
    pub model: String,
    pub capability: ModelCapability,
}

/// Capability records keyed by model, for one upstream fingerprint.
#[derive(Debug, Clone)]
pub struct MultimodalData {
    pub version: u32,
    pub upstream_fingerprint: String,
    pub by_model: Vec<ModelEntry>,
}

impl Default for MultimodalData {
    fn default() -> (r: MultimodalData)
        ensures
            r.version == 0,
            r.upstream_fingerprint@ == Seq::<char>::empty(),
            r.by_model@.len() == 0,
    {
        MultimodalData { version: 0, upstream_fingerprint: String::new(), by_model: Vec::new() }
    }
}

/// No two records share a model, as in a map keyed by model.
pub open spec fn models_unique(v: Seq<ModelEntry>) -> bool {
    forall|i: int, j: int| 0 <= i < j < v.len() ==> (#[trigger] v[i]).model@ != (#[trigger] v[j]).model@
}

/// The record of `model`: the first entry for it, or none.
pub open spec fn capability_of(v: Seq<ModelEntry>, model: Seq<char>) -> Option<ModelCapability>
    decreases v.len(),
{
    if v.len() == 0 {
        None
    } else if v[0].model@ == model {
        Some(v[0].capability)
    } else {
        capability_of(v.drop_first(), model)
    }
}

proof fn lemma_capability_at(v: Seq<ModelEntry>, i: int, model: Seq<char>)
    requires
        0 <= i < v.len(),
        v[i].model@ == model,
        forall|j: int| 0 <= j < i ==> (#[trigger] v[j]).model@ != model,
    ensures
        capability_of(v, model) == Some(v[i].capability),
    decreases i,
{
    if i > 0 {
        assert forall|j: int| 0 <= j < i - 1 implies (#[trigger] v.drop_first()[j]).model@ != model by {
            assert(v.drop_first()[j] == v[j + 1]);
        }
        lemma_capability_at(v.drop_first(), i - 1, model);
    }
}

proof fn lemma_capability_absent(v: Seq<ModelEntry>, model: Seq<char>)
    requires
        forall|j: int| 0 <= j < v.len() ==> (#[trigger] v[j]).model@ != model,
    ensures
        capability_of(v, model) is None,
    decreases v.len(),
{
    if v.len() > 0 {
        assert forall|j: int| 0 <= j < v.len() - 1 implies (#[trigger] v.drop_first()[j]).model@ != model by {
            assert(v.drop_first()[j] == v[j + 1]);
        }
        lemma_capability_absent(v.drop_first(), model);
    }
}

/// Changing the capability at `i`, the first entry of its model, changes only
/// that model's record.
proof fn lemma_capability_update(v: Seq<ModelEntry>, i: int, c: ModelCapability, m: Seq<char>)
    requires
        0 <= i < v.len(),
        forall|j: int| 0 <= j < i ==> (#[trigger] v[j]).model@ != v[i].model@,
    ensures
        capability_of(v.update(i, ModelEntry { model: v[i].model, capability: c }), m) == if m
            == v[i].model@ {
            Some(c)
        } else {
            capability_of(v, m)
        },
    decreases v.len(),
{
    let e = ModelEntry { model: v[i].model, capability: c };
    let w = v.update(i, e);
    assert(w[0] == if i == 0 { e } else { v[0] });
    if i == 0 {
        assert(w.drop_first() =~= v.drop_first());
    } else {
        assert forall|j: int| 0 <= j < i - 1 implies (#[trigger] v.drop_first()[j]).model@
            != v.drop_first()[i - 1].model@ by {
            assert(v.drop_first()[j] == v[j + 1]);
        }
        lemma_capability_update(v.drop_first(), i - 1, c, m);
        assert(w.drop_first() =~= v.drop_first().update(i - 1, e));
    }
}

/// Appending a record for a model that has none adds only that model's record.
proof fn lemma_capability_push(v: Seq<ModelEntry>, e: ModelEntry, m: Seq<char>)
    requires
        forall|j: int| 0 <= j < v.len() ==> (#[trigger] v[j]).model@ != e.model@,
    ensures
        capability_of(v.push(e), m) == if m == e.model@ {
            Some(e.capability)
        } else {
            capability_of(v, m)
        },
    decreases v.len(),
{
    let w = v.push(e);
    if v.len() == 0 {
        assert(w.drop_first() =~= Seq::<ModelEntry>::empty());
        assert(w[0] == e);
        assert(capability_of(w.drop_first(), m) is None);
    } else {
        assert(w[0] == v[0]);
        assert(v[0].model@ != e.model@);
        assert forall|j: int| 0 <= j < v.drop_first().len() implies (#[trigger] v.drop_first()[j]).model@
            != e.model@ by {
            assert(v.drop_first()[j] == v[j + 1]);
        }
        lemma_capability_push(v.drop_first(), e, m);
        assert(w.drop_first() =~= v.drop_first().push(e));
    }
}

/// The record of a model after `model_entry`: the existing one, or a fresh
/// unknown one.
pub open spec fn entry_or_default(v: Seq<ModelEntry>, model: Seq<char>) -> ModelCapability {
    match capability_of(v, model) {
        Some(c) => c,
        None => unknown_capability(),
    }
}

impl MultimodalData {
    /// Sets the current format version.
    pub fn touch(&mut self)
        ensures
            final(self).version == MULTIMODAL_VERSION,
            final(self).upstream_fingerprint == old(self).upstream_fingerprint,
            final(self).by_model == old(self).by_model,
    {
        self.version = MULTIMODAL_VERSION;
    }

    /// Index of the record of `model`, creating an unknown record when absent.
    fn entry_index(&mut self, model: &str) -> (r: usize)
        ensures
            r < final(self).by_model@.len(),
            final(self).by_model@[r as int].model@ == model@,
            final(self).by_model@[r as int].capability == entry_or_default(old(self).by_model@, model@),
            forall|j: int| 0 <= j < r ==> (#[trigger] final(self).by_model@[j]).model@ != model@,
            forall|m: Seq<char>|
                capability_of(final(self).by_model@, m) == if m == model@ {
                    Some(entry_or_default(old(self).by_model@, model@))
                } else {
                    capability_of(old(self).by_model@, m)
                },
            final(self).version == old(self).version,
            final(self).upstream_fingerprint == old(self).upstream_fingerprint,
            models_unique(old(self).by_model@) ==> models_unique(final(self).by_model@),
    {
        let mut i: usize = 0;
        while i < self.by_model.len()
            invariant
                i <= self.by_model@.len(),
                self.by_model == old(self).by_model,
                self.version == old(self).version,
                self.upstream_fingerprint == old(self).upstream_fingerprint,
                forall|j: int| 0 <= j < i ==> (#[trigger] self.by_model@[j]).model@ != model@,
            decreases self.by_model@.len() - i,
        {
            if str_eq(self.by_model[i].model.as_str(), model) {
                proof {
                    lemma_capability_at(self.by_model@, i as int, model@);
                }
                return i;
            }
            i += 1;
        }
        proof {
            lemma_capability_absent(self.by_model@, model@);
        }
        let ghost before = self.by_model@;
        self.by_model.push(ModelEntry { model: model.to_owned(), capability: ModelCapability::default() });
        proof {
            assert(self.by_model@.last().model@ == model@);
            if models_unique(before) {
                assert forall|a: int, b: int| 0 <= a < b < self.by_model@.len() implies (
                #[trigger] self.by_model@[a]).model@ != (#[trigger] self.by_model@[b]).model@ by {
                    assert(self.by_model@[a] == before[a]);
                    if b == before.len() {
                        assert(before[a].model@ != model@);
                    } else {
                        assert(self.by_model@[b] == before[b]);
                    }
                }
            }
            assert forall|m: Seq<char>|
                capability_of(self.by_model@, m) == if m == model@ {
                    Some(entry_or_default(before, model@))
                } else {
                    capability_of(before, m)
                } by {
                lemma_capability_push(before, self.by_model@.last(), m);
                assert(self.by_model@ == before.push(self.by_model@.last()));
            }
        }
        i
    }

    /// The capability record of `model`, inserted as unknown when absent. The
    /// record returned is the model's current one; whatever is written through
    /// it becomes the model's record and no other model's record changes.
    pub fn model_entry(&mut self, model: &str) -> (r: &mut ModelCapability)
        ensures
            *r == entry_or_default(old(self).by_model@, model@),
            forall|m: Seq<char>|
                capability_of(final(self).by_model@, m) == if m == model@ {
                    Some(*final(r))
                } else {
                    capability_of(old(self).by_model@, m)
                },
            final(self).version == old(self).version,
            final(self).upstream_fingerprint == old(self).upstream_fingerprint,
            models_unique(old(self).by_model@) ==> models_unique(final(self).by_model@),
    {
        let i = self.entry_index(model);
        let ghost mid = self.by_model@;
        proof {
            assert forall|m: Seq<char>, c: ModelCapability|
                capability_of(mid.update(i as int, ModelEntry { model: mid[i as int].model, capability: c }), m)
                    == if m == model@ {
                    Some(c)
                } else {
                    capability_of(old(self).by_model@, m)
                } by {
                lemma_capability_update(mid, i as int, c, m);
            }
        }
        &mut self.by_model[i].capability
    }

    /// Keeps the records only while the upstream endpoints stay the same: when
    /// `fingerprint` differs from the recorded one, every model's record is
    /// dropped (so each is probed again) and the new fingerprint is recorded.
    /// Returns whether the records were dropped.
    pub fn align_fingerprint(&mut self, fingerprint: String) -> (r: bool)
        ensures
            r == (old(self).upstream_fingerprint@ != fingerprint@),
            final(self).upstream_fingerprint@ == fingerprint@,
            final(self).version == old(self).version,
            r ==> final(self).by_model@.len() == 0,
            !r ==> final(self).by_model@ == old(self).by_model@,
    {
        if str_eq(self.upstream_fingerprint.as_str(), fingerprint.as_str()) {
            false
        } else {
            self.by_model = Vec::new();
            self.upstream_fingerprint = fingerprint;
            true
        }
    }
}

} // verus!
