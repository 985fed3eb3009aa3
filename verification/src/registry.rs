//! The workspace registry: the process-wide mapping from opaque workspace
//! ids to their on-disk directories. The registry itself is a plain value;
//! the caller owns it and serializes access (one exclusive lock around it).

use vstd::prelude::*;

use crate::errors::WsError;

verus! {

/// The id and directory handed back when a workspace is created.
#[derive(Clone, PartialEq, Eq, Debug)]
pub struct WorkspaceInfo {
    pub workspace_id: String,
    pub workspace_dir: String,
}

/// The registry state: id -> directory, every id mapped at most once.
pub struct WorkspaceState {
    entries: Vec<(String, String)>,
}

/// The mapping an entry list denotes; later entries would win, but the
/// registry never stores an id twice.
pub open spec fn map_of(s: Seq<(String, String)>) -> Map<Seq<char>, Seq<char>>
    decreases s.len(),
{
    if s.len() == 0 {
        Map::empty()
    } else {
        map_of(s.drop_last()).insert(s.last().0@, s.last().1@)
    }
}

/// A key is in the denoted mapping exactly when some entry carries it.
pub proof fn lemma_map_of_contains(s: Seq<(String, String)>, k: Seq<char>)
    ensures
        map_of(s).contains_key(k) <==> exists|i: int| 0 <= i < s.len() && s[i].0@ == k,
    decreases s.len(),
{
    if s.len() > 0 {
        lemma_map_of_contains(s.drop_last(), k);
        if map_of(s).contains_key(k) {
            if s.last().0@ == k {
                assert(s[s.len() - 1].0@ == k);
            } else {
                let i = choose|i: int| 0 <= i < s.drop_last().len() && s.drop_last()[i].0@ == k;
                assert(s[i].0@ == k);
            }
        }
        if exists|i: int| 0 <= i < s.len() && s[i].0@ == k {
            let i = choose|i: int| 0 <= i < s.len() && s[i].0@ == k;
            if i < s.len() - 1 {
                assert(s.drop_last()[i].0@ == k);
            }
        }
    }
}

/// An entry's directory is what the denoted mapping returns for its id,
/// provided no later entry carries the same id.
pub proof fn lemma_map_of_index(s: Seq<(String, String)>, i: int)
    requires
        0 <= i < s.len(),
        forall|j: int| i < j < s.len() ==> s[j].0@ != s[i].0@,
    ensures
        map_of(s).contains_key(s[i].0@),
        map_of(s)[s[i].0@] == s[i].1@,
    decreases s.len(),
{
    if i == s.len() - 1 {
    } else {
        lemma_map_of_index(s.drop_last(), i);
        assert(s.drop_last()[i] == s[i]);
    }
}

impl View for WorkspaceState {
    type V = Map<Seq<char>, Seq<char>>;

    closed spec fn view(&self) -> Map<Seq<char>, Seq<char>> {
        map_of(self.entries@)
    }
}

impl WorkspaceState {
    /// No id is stored twice.
    pub closed spec fn wf(&self) -> bool {
        forall|i: int, j: int|
            0 <= i < j < self.entries@.len() ==> #[trigger] self.entries@[i].0@
                != #[trigger] self.entries@[j].0@
    }

    /// Look the id up; unknown ids fail with `UnknownWorkspace`, never with
    /// an I/O error.
    pub fn resolve(&self, workspace_id: &str) -> (r: Result<String, WsError>)
        requires
            self.wf(),
        ensures
            r is Ok <==> self@.contains_key(workspace_id@),
            r is Ok ==> r->Ok_0@ == self@[workspace_id@],
            r is Err ==> r->Err_0 is UnknownWorkspace && r->Err_0->UnknownWorkspace_0@
                == workspace_id@,
    {
        let key: String = workspace_id.to_owned();
        let n = self.entries.len();
        let mut i: usize = 0;
        while i < n
            invariant
                self.wf(),
                n == self.entries@.len(),
                0 <= i <= n,
                key@ == workspace_id@,
                forall|j: int| 0 <= j < i ==> self.entries@[j].0@ != workspace_id@,
            decreases n - i,
        {
            if self.entries[i].0 == key {
                proof {
                    let ii = i as int;
                    assert forall|j: int| ii < j < self.entries@.len() implies self.entries@[j].0@
                        != self.entries@[ii].0@ by {
                        assert(0 <= ii < j < self.entries@.len());
                    }
                    lemma_map_of_index(self.entries@, i as int);
                }
                return Ok(self.entries[i].1.clone());
            }
            i += 1;
        }
        proof {
            lemma_map_of_contains(self.entries@, workspace_id@);
        }
        Err(WsError::UnknownWorkspace(key))
    }

    /// Register a fresh id. Returns `true` and adds the mapping when the id
    /// was not yet known; returns `false` and changes nothing when it was.
    pub fn register(&mut self, workspace_id: String, workspace_dir: String) -> (r: bool)
        requires
            old(self).wf(),
        ensures
            final(self).wf(),
            r <==> !old(self)@.contains_key(workspace_id@),
            r ==> final(self)@ == old(self)@.insert(workspace_id@, workspace_dir@),
            !r ==> final(self)@ == old(self)@,
    {
        let n = self.entries.len();
        let mut i: usize = 0;
        while i < n
            invariant
                self.wf(),
                *self == *old(self),
                n == self.entries@.len(),
                0 <= i <= n,
                forall|j: int| 0 <= j < i ==> self.entries@[j].0@ != workspace_id@,
            decreases n - i,
        {
            if self.entries[i].0 == workspace_id {
                proof {
                    assert(self.entries@[i as int].0@ == workspace_id@);
                    lemma_map_of_contains(self.entries@, workspace_id@);
                }
                return false;
            }
            i += 1;
        }
        proof {
            lemma_map_of_contains(self.entries@, workspace_id@);
        }
        let ghost pre = self.entries@;
        self.entries.push((workspace_id, workspace_dir));
        proof {
            assert(self.entries@.drop_last() =~= pre);
            assert(self.entries@.last().0@ == workspace_id@);
            assert forall|a: int, b: int|
                0 <= a < b < self.entries@.len() implies self.entries@[a].0@
                != self.entries@[b].0@ by {
                if b < pre.len() {
                    assert(old(self).wf());
                } else {
                    assert(self.entries@[b].0@ == workspace_id@);
                    assert(pre[a].0@ != workspace_id@);
                }
            }
        }
        true
    }
}

/// Look a workspace id up in the registry: its directory, or
/// `UnknownWorkspace` — never an I/O error — when the id was never created.
pub fn get_workspace_dir(state: &WorkspaceState, workspace_id: &str) -> (r: Result<
    String,
    WsError,
>)
    requires
        state.wf(),
    ensures
        r is Ok <==> state@.contains_key(workspace_id@),
        r is Ok ==> r->Ok_0@ == state@[workspace_id@],
        r is Err ==> r->Err_0 is UnknownWorkspace && r->Err_0->UnknownWorkspace_0@
            == workspace_id@,
{
    state.resolve(workspace_id)
}

/// The registry a fresh process starts from: empty.
pub fn workspaces() -> (r: WorkspaceState)
    ensures
        r.wf(),
        r@ == Map::<Seq<char>, Seq<char>>::empty(),
{
    WorkspaceState { entries: Vec::new() }
}

/// Relies on `uuid::Uuid::new_v4` and its `Display` impl: a fresh random
/// version-4 UUID rendered in the hyphenated form — 36 ASCII characters,
/// each a lowercase hex digit or `-`. Nothing is assumed about which value
/// comes back, only about its shape.
#[verifier::external_body]
fn fresh_workspace_id() -> (r: String)
    ensures
        r@.len() == 36,
        forall|i: int| 0 <= i < r@.len() ==> r@[i] != '/',
{
    uuid::Uuid::new_v4().to_string()
}

/// The directory a workspace with this id lives in, under the caller's
/// ephemeral-storage root.
pub open spec fn spec_workspace_dir(temp_root: Seq<char>, id: Seq<char>) -> Seq<char> {
    temp_root + "/serial-stamp-workspaces/"@ + id
}

/// Compute the directory path for a workspace id.
pub fn workspace_dir_for(temp_root: &str, workspace_id: &str) -> (r: String)
    ensures
        r@ == spec_workspace_dir(temp_root@, workspace_id@),
{
    let mut d: String = temp_root.to_owned();
    d.append("/serial-stamp-workspaces/");
    d.append(workspace_id);
    d
}

/// Distinct ids land in distinct directories under the same root: the id is
/// a suffix of the directory path, at a fixed offset.
pub proof fn lemma_distinct_ids_distinct_dirs(temp_root: Seq<char>, id1: Seq<char>, id2: Seq<char>)
    requires
        id1 != id2,
    ensures
        spec_workspace_dir(temp_root, id1) != spec_workspace_dir(temp_root, id2),
{
    let p = temp_root + "/serial-stamp-workspaces/"@;
    assert(id1 =~= (p + id1).subrange(p.len() as int, (p + id1).len() as int));
    assert(id2 =~= (p + id2).subrange(p.len() as int, (p + id2).len() as int));
}

/// A fresh workspace identity: a newly drawn id and its directory under the
/// given ephemeral-storage root, not yet registered. The id is a random
/// UUID in hyphenated form, so it never contains a path separator.
pub fn new_workspace_info(temp_root: &str) -> (r: WorkspaceInfo)
    ensures
        r.workspace_dir@ == spec_workspace_dir(temp_root@, r.workspace_id@),
        r.workspace_id@.len() == 36,
        forall|i: int| 0 <= i < r.workspace_id@.len() ==> r.workspace_id@[i] != '/',
{
    let workspace_id = fresh_workspace_id();
    let workspace_dir = workspace_dir_for(temp_root, workspace_id.as_str());
    WorkspaceInfo { workspace_id, workspace_dir }
}

/// Create a workspace: generate a fresh id, compute its directory under the
/// given ephemeral-storage root, and register the mapping. Succeeds exactly
/// when the generated id was not yet registered — ids are random UUIDs, so
/// a collision is the only failure, and an empty registry admits every
/// draw. On success the registry grew by exactly the returned mapping; on
/// failure it is unchanged.
pub fn workspace_new(state: &mut WorkspaceState, temp_root: &str) -> (r: Result<
    WorkspaceInfo,
    WsError,
>)
    requires
        old(state).wf(),
    ensures
        final(state).wf(),
        old(state)@ == Map::<Seq<char>, Seq<char>>::empty() ==> r is Ok,
        r is Ok ==> !old(state)@.contains_key(r->Ok_0.workspace_id@),
        r is Ok ==> r->Ok_0.workspace_dir@ == spec_workspace_dir(
            temp_root@,
            r->Ok_0.workspace_id@,
        ),
        r is Ok ==> final(state)@ == old(state)@.insert(
            r->Ok_0.workspace_id@,
            r->Ok_0.workspace_dir@,
        ),
        r is Err ==> final(state)@ == old(state)@,
{
    let info = new_workspace_info(temp_root);
    if state.register(info.workspace_id.clone(), info.workspace_dir.clone()) {
        Ok(info)
    } else {
        Err(WsError::Io(String::from_str("workspace id collision")))
    }
}

} // verus!
