//! Container state as the runtime records it, and where it is recorded.
use vstd::prelude::*;
use crate::text::{path_join, spec_path_join};

verus! {

/// Lifecycle status of a container.
#[derive(Debug, Clone, Copy, PartialEq, Eq, Structural)]
pub enum Status {
    Created,
    Running,
    Paused,
    Stopped,
}

/// The name by which a status is reported.
pub open spec fn status_name(s: Status) -> Seq<char> {
    match s {
        Status::Created => "created"@,
        Status::Running => "running"@,
        Status::Paused => "paused"@,
        Status::Stopped => "stopped"@,
    }
}

impl Status {
    pub fn as_str(&self) -> (r: &'static str)
        ensures
            r@ == status_name(*self),
    {
        match self {
            Status::Created => "created",
            Status::Running => "running",
            Status::Paused => "paused",
            Status::Stopped => "stopped",
        }
    }
}

/// The recorded state of one container. `bundle` is the bundle's path;
/// `annotations` are key/value pairs.
#[derive(Debug)]
pub struct ContainerState {
    pub version: String,
    pub id: String,
    pub status: Status,
    pub pid: u32,
    pub bundle: String,
    pub annotations: Vec<(String, String)>,
}

/// The mathematical model of a container state.
pub struct StateView {
    pub version: Seq<char>,
    pub id: Seq<char>,
    pub status: Status,
    pub pid: u32,
    pub bundle: Seq<char>,
    pub annotations: Seq<(Seq<char>, Seq<char>)>,
}

impl View for ContainerState {
    type V = StateView;

    open spec fn view(&self) -> StateView {
        StateView {
            version: self.version@,
            id: self.id@,
            status: self.status,
            pid: self.pid,
            bundle: self.bundle@,
            annotations: self.annotations.deep_view(),
        }
    }
}

impl ContainerState {
    /// A copy of the state.
    pub fn duplicate(&self) -> (r: ContainerState)
        ensures
            r@ == self@,
    {
        let ghost a = self.annotations.deep_view();
        let mut annotations: Vec<(String, String)> = Vec::new();
        let mut i: usize = 0;
        while i < self.annotations.len()
            invariant
                i <= self.annotations.len(),
                a == self.annotations.deep_view(),
                annotations.deep_view() =~= a.take(i as int),
            decreases self.annotations.len() - i,
        {
            let ghost before = annotations.deep_view();
            let k = self.annotations[i].0.clone();
            let v = self.annotations[i].1.clone();
            assert(a[i as int] == (k@, v@));
            annotations.push((k, v));
            assert(annotations.deep_view() =~= before.push((k@, v@)));
            assert(a.take(i + 1) =~= a.take(i as int).push(a[i as int]));
            i += 1;
        }
        assert(a.take(self.annotations.len() as int) =~= a);
        ContainerState {
            version: self.version.clone(),
            id: self.id.clone(),
            status: self.status,
            pid: self.pid,
            bundle: self.bundle.clone(),
            annotations,
        }
    }
}

/// The directory under which every container's state is kept.
pub open spec fn state_root() -> Seq<char> {
    "/run/kapsule"@
}

/// The directory of the container named `id`.
pub open spec fn container_dir_path(id: Seq<char>) -> Seq<char> {
    spec_path_join(state_root(), id)
}

/// The state file of the container named `id`.
pub open spec fn state_file_path(id: Seq<char>) -> Seq<char> {
    spec_path_join(container_dir_path(id), "state.json"@)
}

/// The pid file of the container named `id`.
pub open spec fn pidfile_path(id: Seq<char>) -> Seq<char> {
    spec_path_join(container_dir_path(id), "pidfile"@)
}

/// Locates the files in which container states are kept.
pub struct StateManager;

impl StateManager {
    pub fn container_dir(id: &str) -> (r: String)
        ensures
            r@ == container_dir_path(id@),
    {
        path_join("/run/kapsule", id)
    }

    pub fn state_file(id: &str) -> (r: String)
        ensures
            r@ == state_file_path(id@),
    {
        let dir = Self::container_dir(id);
        path_join(dir.as_str(), "state.json")
    }

    pub fn pidfile(id: &str) -> (r: String)
        ensures
            r@ == pidfile_path(id@),
    {
        let dir = Self::container_dir(id);
        path_join(dir.as_str(), "pidfile")
    }
}

/// An id that names a directory right under the state root: not empty, and
/// neither starting nor ending with a separator.
pub open spec fn plain_id(id: Seq<char>) -> bool {
    id.len() > 0 && id[0] != '/' && id.last() != '/'
}

/// A plain id's state lives in `/run/kapsule/<id>/state.json`.
pub proof fn lemma_plain_id_paths(id: Seq<char>)
    requires
        plain_id(id),
    ensures
        container_dir_path(id) == "/run/kapsule/"@ + id,
        state_file_path(id) == "/run/kapsule/"@ + id + "/state.json"@,
        pidfile_path(id) == "/run/kapsule/"@ + id + "/pidfile"@,
{
    reveal_strlit("/run/kapsule");
    reveal_strlit("/run/kapsule/");
    reveal_strlit("state.json");
    reveal_strlit("/state.json");
    reveal_strlit("pidfile");
    reveal_strlit("/pidfile");
    let dir = container_dir_path(id);
    assert(dir =~= "/run/kapsule/"@ + id);
    assert(dir.last() == id.last());
    assert(state_file_path(id) =~= "/run/kapsule/"@ + id + "/state.json"@);
    assert(pidfile_path(id) =~= "/run/kapsule/"@ + id + "/pidfile"@);
}

/// Two containers with different plain ids never share a state file.
pub proof fn lemma_state_files_distinct(a: Seq<char>, b: Seq<char>)
    requires
        plain_id(a),
        plain_id(b),
        a != b,
    ensures
        state_file_path(a) != state_file_path(b),
{
    lemma_plain_id_paths(a);
    lemma_plain_id_paths(b);
    let p = "/run/kapsule/"@;
    let q = "/state.json"@;
    if state_file_path(a) == state_file_path(b) {
        let fa = p + a + q;
        let fb = p + b + q;
        assert(fa.len() == fb.len());
        assert(a.len() == b.len());
        assert(a =~= fa.subrange(p.len() as int, (p.len() + a.len()) as int));
        assert(b =~= fb.subrange(p.len() as int, (p.len() + b.len()) as int));
    }
}

} // verus!
