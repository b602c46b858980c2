//! Where descriptors are kept: one key for each kind and id.

use vstd::prelude::*;
use vstd::string::*;
use crate::deployment_state_store::state_key;
use crate::deployment_state_store::state_key_for;
use crate::deployment_state_store::DeploymentInfo;
use crate::deployment_state_store::DeploymentInfoView;
use crate::deployment_state_store::DeploymentState;
use crate::fluid::descriptor::DescriptorKind;
use crate::fluid::descriptor::IdentifiableDescriptor;
use crate::text::join3;

verus! {

/// The key under which the descriptor `id` of the kind with tag `kind` is
/// kept.
pub open spec fn descriptor_key(kind: Seq<char>, id: Seq<char>) -> Seq<char> {
    "descriptor/"@ + kind + "/"@ + id
}

/// The pattern that the keys of all descriptors of one kind match.
pub open spec fn kind_pattern(kind: Seq<char>) -> Seq<char> {
    "descriptor/"@ + kind + "/*"@
}

/// Whether a listing of the kind with tag `kind` finds `key`: the key
/// begins as the pattern does before its star.
pub open spec fn listed_under(key: Seq<char>, kind: Seq<char>) -> bool {
    ("descriptor/"@ + kind + "/"@).is_prefix_of(key)
}

/// The documents that were still there when they were fetched, in the
/// order of the fetches.
pub open spec fn present(fetched: Seq<Option<Seq<char>>>) -> Seq<Seq<char>> {
    fetched.filter_map(|document: Option<Seq<char>>| document)
}

/// What to write when a descriptor is taken in: the descriptor under
/// `descriptor_key`, then `state` under `state_key`.
#[derive(Clone, Debug, PartialEq, Eq)]
pub struct StoreWrites {
    pub descriptor_key: String,
    pub state_key: String,
    pub state: DeploymentInfo,
}

/// The writes of an intake as a mathematical value.
pub ghost struct StoreWritesView {
    pub descriptor_key: Seq<char>,
    pub state_key: Seq<char>,
    pub state: DeploymentInfoView,
}

impl View for StoreWrites {
    type V = StoreWritesView;

    open spec fn view(&self) -> StoreWritesView {
        StoreWritesView {
            descriptor_key: self.descriptor_key@,
            state_key: self.state_key@,
            state: self.state@,
        }
    }
}

/// What is written when the descriptor `id` of `kind` is taken in: the
/// descriptor under the key of its kind and id, and the state `Pending`
/// under the key of its id.
pub open spec fn intake_writes(kind: DescriptorKind, id: Seq<char>) -> StoreWritesView {
    StoreWritesView {
        descriptor_key: descriptor_key(kind.tag(), id),
        state_key: state_key(id),
        state: DeploymentInfoView { state: DeploymentState::Pending, description: None },
    }
}

/// The backing store as the descriptor store sees it: a document under
/// each key that was written, the last write winning.
pub ghost struct StoreModel {
    pub entries: Map<Seq<char>, Seq<char>>,
}

impl StoreModel {
    /// The store after `document` was put for the descriptor `id` of `kind`.
    pub open spec fn put(
        self,
        kind: DescriptorKind,
        id: Seq<char>,
        document: Seq<char>,
    ) -> StoreModel {
        StoreModel { entries: self.entries.insert(descriptor_key(kind.tag(), id), document) }
    }

    /// What a get for the descriptor `id` of `kind` returns.
    pub open spec fn get(self, id: Seq<char>, kind: DescriptorKind) -> Option<Seq<char>> {
        let key = descriptor_key(kind.tag(), id);
        if self.entries.contains_key(key) {
            Some(self.entries[key])
        } else {
            None
        }
    }

    /// The keys that a listing of `kind` finds.
    pub open spec fn list(self, kind: DescriptorKind) -> Set<Seq<char>> {
        self.entries.dom().filter(|key: Seq<char>| listed_under(key, kind.tag()))
    }

    /// The store after the deployment state of `id` was set.
    pub open spec fn set_state(self, id: Seq<char>, document: Seq<char>) -> StoreModel {
        StoreModel { entries: self.entries.insert(state_key(id), document) }
    }

    /// A get after a put returns the document that was put.
    pub proof fn lemma_get_after_put(
        self,
        kind: DescriptorKind,
        id: Seq<char>,
        document: Seq<char>,
    )
        ensures
            self.put(kind, id, document).get(id, kind) == Some(document),
    {
    }

    /// A put overwrites: of two puts for one descriptor the later one is
    /// read.
    pub proof fn lemma_last_put_wins(
        self,
        kind: DescriptorKind,
        id: Seq<char>,
        first: Seq<char>,
        second: Seq<char>,
    )
        ensures
            self.put(kind, id, first).put(kind, id, second) == self.put(kind, id, second),
    {
        assert(self.put(kind, id, first).put(kind, id, second).entries =~= self.put(
            kind,
            id,
            second,
        ).entries);
    }

    /// A put for one descriptor does not touch what is read for another.
    pub proof fn lemma_put_keeps_others(
        self,
        kind: DescriptorKind,
        id: Seq<char>,
        document: Seq<char>,
        other_kind: DescriptorKind,
        other_id: Seq<char>,
    )
        requires
            kind != other_kind || id != other_id,
        ensures
            self.put(kind, id, document).get(other_id, other_kind) == self.get(
                other_id,
                other_kind,
            ),
    {
        if descriptor_key(kind.tag(), id) == descriptor_key(other_kind.tag(), other_id) {
            lemma_key_names_one_descriptor(kind, id, other_kind, other_id);
        }
    }

    /// A descriptor that was put is found by a listing of its kind and by
    /// no listing of another kind.
    pub proof fn lemma_put_is_listed_under_its_kind(
        self,
        kind: DescriptorKind,
        id: Seq<char>,
        document: Seq<char>,
        listed: DescriptorKind,
    )
        ensures
            self.put(kind, id, document).list(listed).contains(descriptor_key(kind.tag(), id))
                <==> listed == kind,
    {
        lemma_key_is_listed_under_its_kind(kind, id, listed);
    }

    /// A listing never finds a deployment state.
    pub proof fn lemma_states_are_not_listed(self, kind: DescriptorKind, id: Seq<char>)
        ensures
            !self.list(kind).contains(state_key(id)),
    {
        reveal_strlit("descriptor/");
        reveal_strlit("deployment-state/");
        let prefix = "descriptor/"@ + kind.tag() + "/"@;
        if prefix.is_prefix_of(state_key(id)) {
            assert(prefix[2] == 's');
        }
    }

    /// Setting a deployment state does not touch any descriptor.
    pub proof fn lemma_state_keeps_descriptors(
        self,
        state_id: Seq<char>,
        document: Seq<char>,
        kind: DescriptorKind,
        id: Seq<char>,
    )
        ensures
            self.set_state(state_id, document).get(id, kind) == self.get(id, kind),
    {
        lemma_key_spaces_apart(state_id, kind.tag(), id);
    }
}

/// Two descriptors share a key only if they are of one kind and have one id.
pub proof fn lemma_key_names_one_descriptor(
    kind: DescriptorKind,
    id: Seq<char>,
    other_kind: DescriptorKind,
    other_id: Seq<char>,
)
    requires
        descriptor_key(kind.tag(), id) == descriptor_key(other_kind.tag(), other_id),
    ensures
        kind == other_kind,
        id == other_id,
{
    reveal_strlit("descriptor/");
    reveal_strlit("/");
    reveal_strlit("database");
    reveal_strlit("table");
    reveal_strlit("flow");
    let a = descriptor_key(kind.tag(), id);
    let b = descriptor_key(other_kind.tag(), other_id);
    let n = kind.tag().len() as int;
    let m = other_kind.tag().len() as int;
    if n < m {
        assert(b[11 + n] == other_kind.tag()[n]);
    } else if m < n {
        assert(a[11 + m] == kind.tag()[m]);
    } else {
        assert(a.len() == b.len());
        assert forall|i: int| 0 <= i < id.len() implies id[i] == other_id[i] by {
            assert(b[12 + n + i] == other_id[i]);
        }
    }
}

/// The key of a descriptor is found by a listing exactly when the listing
/// is of the descriptor's kind.
pub proof fn lemma_key_is_listed_under_its_kind(
    kind: DescriptorKind,
    id: Seq<char>,
    listed: DescriptorKind,
)
    ensures
        listed_under(descriptor_key(kind.tag(), id), listed.tag()) <==> listed == kind,
{
    reveal_strlit("descriptor/");
    reveal_strlit("/");
    reveal_strlit("database");
    reveal_strlit("table");
    reveal_strlit("flow");
    let key = descriptor_key(kind.tag(), id);
    let prefix = "descriptor/"@ + listed.tag() + "/"@;
    if listed != kind && prefix.is_prefix_of(key) {
        assert(key.subrange(0, prefix.len() as int)[11] == key[11]);
    }
}

/// No deployment state lies under the key of a descriptor.
pub proof fn lemma_key_spaces_apart(state_id: Seq<char>, kind: Seq<char>, id: Seq<char>)
    ensures
        state_key(state_id) != descriptor_key(kind, id),
{
    reveal_strlit("descriptor/");
    reveal_strlit("deployment-state/");
    assert(descriptor_key(kind, id)[2] == 's');
}

/// Writes the key under which the descriptor `id` of `kind` is kept.
pub fn key_for(id: &str, kind: &str) -> (r: String)
    ensures
        r@ == descriptor_key(kind@, id@),
{
    let mut key = join3("descriptor/", kind, "/");
    key.append(id);
    key
}

/// Writes the key under which `descriptor` is kept.
pub fn key_of<D: IdentifiableDescriptor>(descriptor: &D) -> (r: String)
    ensures
        r@ == descriptor_key(descriptor.spec_kind().tag(), descriptor.spec_id()),
{
    let kind = descriptor.kind();
    let id = descriptor.id();
    key_for(id.as_str(), kind.as_str())
}

/// Says what to write when `descriptor` is taken in.
pub fn writes_for<D: IdentifiableDescriptor>(descriptor: &D) -> (r: StoreWrites)
    ensures
        r@ == intake_writes(descriptor.spec_kind(), descriptor.spec_id()),
{
    let id = descriptor.id();
    let kind = descriptor.kind();
    StoreWrites {
        descriptor_key: key_for(id.as_str(), kind.as_str()),
        state_key: state_key_for(id.as_str()),
        state: DeploymentInfo::pending(),
    }
}

/// Writes the pattern that lists the keys of all descriptors of `kind`.
pub fn list_pattern(kind: &str) -> (r: String)
    ensures
        r@ == kind_pattern(kind@),
{
    join3("descriptor/", kind, "/*")
}

/// Keeps the documents that were still there when they were fetched. A key
/// that was listed and then deleted is no error: its descriptor is left out.
pub fn list_descriptors(fetched: Vec<Option<String>>) -> (r: Vec<String>)
    ensures
        r.deep_view() == present(fetched.deep_view()),
{
    let ghost pick = |document: Option<Seq<char>>| document;
    let mut documents: Vec<String> = Vec::new();
    let mut i: usize = 0;
    while i < fetched.len()
        invariant
            i <= fetched.len(),
            pick == |document: Option<Seq<char>>| document,
            documents.deep_view() == fetched.deep_view().take(i as int).filter_map(pick),
        decreases fetched.len() - i,
    {
        proof {
            fetched.deep_view().lemma_filter_map_take_succ(pick, i as int);
        }
        match &fetched[i] {
            Some(document) => {
                documents.push(document.clone());
            },
            None => {},
        }
        i = i + 1;
    }
    assert(fetched.deep_view().take(fetched.len() as int) =~= fetched.deep_view());
    documents
}

} // verus!
