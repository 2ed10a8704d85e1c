//! The model registry: a read-only table of registered model bindings,
//! keyed by provider-qualified full name, and exact-match resolution of
//! a client-supplied name to the registered descriptor.

use vstd::prelude::*;
use crate::gateway::GatewayApiError;

verus! {

/// The registry's record for one registered model binding: the
/// canonical model name that responses echo, and the provider the
/// binding points at.
pub struct ModelDescriptor {
    /// Canonical model name. Responses always carry this name, never
    /// the raw client string, even when the two coincide.
    pub model: String,
    /// Identity of the backend provider serving this binding.
    pub provider: String,
}

impl Clone for ModelDescriptor {
    fn clone(&self) -> (res: Self)
        ensures
            res == *self,
    {
        ModelDescriptor { model: self.model.clone(), provider: self.provider.clone() }
    }
}

/// One registry entry: the full name clients use to select a binding,
/// and the descriptor that name resolves to. The key and the
/// descriptor's canonical name often coincide, but need not (aliases).
pub struct ModelEntry {
    pub full_name: String,
    pub descriptor: ModelDescriptor,
}

/// The shared, read-only lookup table of registered models. Built once
/// at configuration time by an external collaborator and never mutated
/// while requests are in flight.
pub struct AvailableModels {
    pub entries: Vec<ModelEntry>,
}

/// The descriptor the first entry registered under `name` resolves to,
/// if any. Resolution is exact match on the full name: no fuzzy
/// matching, no provider-default fallback.
pub open spec fn seq_resolve(entries: Seq<ModelEntry>, name: Seq<char>) -> Option<ModelDescriptor>
    decreases entries.len(),
{
    if entries.len() == 0 {
        None
    } else if entries[0].full_name@ == name {
        Some(entries[0].descriptor)
    } else {
        seq_resolve(entries.drop_first(), name)
    }
}

impl AvailableModels {
    /// Whether some entry is registered under `name`.
    pub open spec fn contains_name(&self, name: Seq<char>) -> bool {
        exists|i: int| 0 <= i < self.entries@.len() && self.entries@[i].full_name@ == name
    }

    /// The descriptor `name` resolves to in this table, if any.
    pub open spec fn resolve_spec(&self, name: Seq<char>) -> Option<ModelDescriptor> {
        seq_resolve(self.entries@, name)
    }

    /// An empty registry: nothing resolves.
    pub fn new() -> (r: AvailableModels)
        ensures
            r.entries@ == Seq::<ModelEntry>::empty(),
    {
        AvailableModels { entries: Vec::new() }
    }

    /// Register a binding: `full_name` will resolve to `descriptor`,
    /// unless the name is already taken, in which case the earlier
    /// registration keeps precedence.
    pub fn register(&mut self, full_name: String, descriptor: ModelDescriptor)
        ensures
            final(self).entries@ == old(self).entries@.push(
                (ModelEntry { full_name, descriptor }),
            ),
    {
        self.entries.push(ModelEntry { full_name, descriptor });
    }
}

/// Resolution never resolves a name no entry carries, and always
/// resolves to a registered entry's descriptor when one carries it.
pub proof fn lemma_resolve_is_registered(entries: Seq<ModelEntry>, name: Seq<char>)
    ensures
        (seq_resolve(entries, name) is Some) <==> (exists|i: int|
            0 <= i < entries.len() && entries[i].full_name@ == name),
        seq_resolve(entries, name) matches Some(d) ==> (exists|i: int|
            0 <= i < entries.len() && entries[i].full_name@ == name && entries[i].descriptor == d),
    decreases entries.len(),
{
    if entries.len() == 0 {
    } else if entries[0].full_name@ == name {
    } else {
        lemma_resolve_is_registered(entries.drop_first(), name);
        if seq_resolve(entries, name) is Some {
            let j = choose|j: int|
                0 <= j < entries.drop_first().len() && entries.drop_first()[j].full_name@ == name;
            assert(entries[j + 1].full_name@ == name);
        }
        if exists|i: int| 0 <= i < entries.len() && entries[i].full_name@ == name {
            let i = choose|i: int| 0 <= i < entries.len() && entries[i].full_name@ == name;
            assert(entries.drop_first()[i - 1].full_name@ == name);
        }
        if seq_resolve(entries, name) is Some {
            let d = seq_resolve(entries, name)->Some_0;
            let j = choose|j: int|
                0 <= j < entries.drop_first().len() && entries.drop_first()[j].full_name@ == name
                    && entries.drop_first()[j].descriptor == d;
            assert(entries[j + 1].full_name@ == name && entries[j + 1].descriptor == d);
        }
    }
}

/// Resolve a client-supplied full model name against the registry.
///
/// Returns the exact matching descriptor, or `ModelNotFound` carrying
/// the unresolved name verbatim when no entry matches. Read-only: runs
/// before any credential work or invocation.
pub fn find_model_by_full_name(model: &String, models: &AvailableModels) -> (r: Result<
    ModelDescriptor,
    GatewayApiError,
>)
    ensures
        r matches Ok(d) ==> models.resolve_spec(model@) == Some(d),
        r matches Err(e) ==> models.resolve_spec(model@) is None && e == (
        GatewayApiError::ModelNotFound(*model)),
        (r is Ok) <==> models.contains_name(model@),
{
    let ghost all: Seq<ModelEntry> = models.entries@;
    let mut i: usize = 0;
    proof {
        assert(all.skip(0) =~= all);
    }
    while i < models.entries.len()
        invariant
            i <= all.len(),
            models.entries@ == all,
            forall|j: int| 0 <= j < i ==> all[j].full_name@ != model@,
            seq_resolve(all, model@) == seq_resolve(all.skip(i as int), model@),
        decreases all.len() - i,
    {
        let entry = &models.entries[i];
        if entry.full_name == *model {
            proof {
                let s = all.skip(i as int);
                assert(s[0] == all[i as int]);
                assert(seq_resolve(s, model@) == Some(all[i as int].descriptor));
                assert(models.contains_name(model@)) by {
                    assert(models.entries@[i as int].full_name@ == model@);
                }
            }
            return Ok(entry.descriptor.clone());
        }
        proof {
            assert(all.skip(i as int)[0] == all[i as int]);
            assert(all.skip(i as int).drop_first() =~= all.skip(i + 1));
        }
        i = i + 1;
    }
    proof {
        assert(all.skip(all.len() as int) =~= Seq::<ModelEntry>::empty());
        if models.contains_name(model@) {
            let j = choose|j: int| 0 <= j < all.len() && all[j].full_name@ == model@;
            assert(all[j].full_name@ != model@);
        }
    }
    Err(GatewayApiError::ModelNotFound(model.clone()))
}

} // verus!
