use vstd::prelude::*;

verus! {

/// What bind-group assembly did this frame.
#[derive(Clone, Copy, Debug, PartialEq, Eq, Structural)]
pub enum Assembly {
    /// A resource was not resolved yet; the previous group (if any) stays
    /// and assembly is tried again next frame.
    Skipped,
    /// The resources are those already bound; the existing group is kept.
    Reused,
    /// A new group was recorded over the given resources.
    Created,
}

/// Every resource handed to assembly is resolved.
pub open spec fn all_ready(resources: Seq<Option<u32>>) -> bool {
    forall|i: int| 0 <= i < resources.len() ==> (#[trigger] resources[i]) is Some
}

/// The identity of a resolved resource (an arbitrary value for a missing one).
pub open spec fn identity(resource: Option<u32>) -> u32 {
    match resource {
        Some(id) => id,
        None => 0,
    }
}

/// The identities of the resources, slot by slot.
pub open spec fn identities(resources: Seq<Option<u32>>) -> Seq<u32> {
    Seq::new(resources.len(), |i: int| identity(resources[i]))
}

/// What one assembly does, given the identities already bound (if any).
pub open spec fn assembly_kind(bound: Option<Seq<u32>>, resources: Seq<Option<u32>>) -> Assembly {
    if !all_ready(resources) {
        Assembly::Skipped
    } else if bound == Some(identities(resources)) {
        Assembly::Reused
    } else {
        Assembly::Created
    }
}

/// The identities bound after one assembly.
pub open spec fn assembled(bound: Option<Seq<u32>>, resources: Seq<Option<u32>>) -> Option<
    Seq<u32>,
> {
    if all_ready(resources) {
        Some(identities(resources))
    } else {
        bound
    }
}

/// The resource identities that a bind group holds, by binding slot
/// (slot `i` holds entry `i`), or nothing before the first assembly.
pub struct BindGroupCache {
    bound: Option<Vec<u32>>,
}

impl View for BindGroupCache {
    type V = Option<Seq<u32>>;

    closed spec fn view(&self) -> Option<Seq<u32>> {
        match self.bound {
            Some(v) => Some(v@),
            None => None,
        }
    }
}

fn same_ids(a: &Vec<u32>, b: &Vec<u32>) -> (r: bool)
    ensures
        r == (a@ == b@),
{
    if a.len() != b.len() {
        return false;
    }
    let mut i: usize = 0;
    while i < a.len()
        invariant
            a.len() == b.len(),
            0 <= i <= a.len(),
            forall|k: int| 0 <= k < i ==> a@[k] == b@[k],
        decreases a.len() - i,
    {
        if a[i] != b[i] {
            return false;
        }
        i += 1;
    }
    assert(a@ =~= b@);
    true
}

impl BindGroupCache {
    /// A cache with no group yet.
    pub fn new() -> (r: Self)
        ensures
            r@ is None,
    {
        BindGroupCache { bound: None }
    }

    /// Whether a group has been assembled.
    pub fn is_bound(&self) -> (r: bool)
        ensures
            r == self@ is Some,
    {
        self.bound.is_some()
    }

    /// The bound identities, by slot, if a group has been assembled.
    pub fn bound(&self) -> (r: Option<Vec<u32>>)
        ensures
            r is Some == self@ is Some,
            r is Some ==> self@ == Some(r->Some_0@),
    {
        match &self.bound {
            Some(v) => Some(v.clone()),
            None => None,
        }
    }

    /// Assemble a group over `resources`, one per slot in order: skip while
    /// any is unresolved, keep the group when the identities are those
    /// already bound, and record a new group otherwise.
    pub fn assemble(&mut self, resources: &Vec<Option<u32>>) -> (r: Assembly)
        ensures
            r == assembly_kind(old(self)@, resources@),
            final(self)@ == assembled(old(self)@, resources@),
    {
        let mut ids: Vec<u32> = Vec::new();
        let mut i: usize = 0;
        while i < resources.len()
            invariant
                0 <= i <= resources.len(),
                ids@ =~= identities(resources@.take(i as int)),
                all_ready(resources@.take(i as int)),
            decreases resources.len() - i,
        {
            match resources[i] {
                Some(id) => {
                    ids.push(id);
                },
                None => {
                    assert(!all_ready(resources@));
                    return Assembly::Skipped;
                },
            }
            i += 1;
            assert(resources@.take(i as int) =~= resources@.take(i - 1).push(resources@[i - 1]));
        }
        assert(resources@.take(i as int) =~= resources@);
        let same = match &self.bound {
            Some(b) => same_ids(b, &ids),
            None => false,
        };
        if same {
            Assembly::Reused
        } else {
            self.bound = Some(ids);
            Assembly::Created
        }
    }
}

/// Texture group assembly: the position map at slot 0, the velocity map at
/// slot 1, each given by the identity of its view once resolved.
pub fn prepare_textures_bind_group(
    cache: &mut BindGroupCache,
    position_view: Option<u32>,
    velocity_view: Option<u32>,
) -> (r: Assembly)
    ensures
        r == assembly_kind(old(cache)@, seq![position_view, velocity_view]),
        final(cache)@ == assembled(old(cache)@, seq![position_view, velocity_view]),
{
    let resources = vec![position_view, velocity_view];
    assert(resources@ =~= seq![position_view, velocity_view]);
    cache.assemble(&resources)
}

/// Uniform group assembly: the uniform buffer's binding at slot 0, given by
/// its identity once resolved.
pub fn prepare_uniforms_bind_group(cache: &mut BindGroupCache, uniform_buffer: Option<u32>) -> (r:
    Assembly)
    ensures
        r == assembly_kind(old(cache)@, seq![uniform_buffer]),
        final(cache)@ == assembled(old(cache)@, seq![uniform_buffer]),
{
    let resources = vec![uniform_buffer];
    assert(resources@ =~= seq![uniform_buffer]);
    cache.assemble(&resources)
}

/// Assembling twice over the same resolved resources creates no second
/// group: the second assembly reuses the first, binds the same identities,
/// and leaves the cache as it was.
pub proof fn lemma_reassembly_reuses(bound: Option<Seq<u32>>, resources: Seq<Option<u32>>)
    requires
        all_ready(resources),
    ensures
        assembled(bound, resources) == Some(identities(resources)),
        assembly_kind(assembled(bound, resources), resources) == Assembly::Reused,
        assembled(assembled(bound, resources), resources) == assembled(bound, resources),
{
}

} // verus!
