use std::path::PathBuf;

use vstd::prelude::*;
use vstd::string::StringExecFns;

verus! {

#[verifier::external_type_specification]
#[verifier::external_body]
pub struct ExPathBuf(PathBuf);

/// Where the broker's canonical GIX object store lives as three JSON files:
/// the graph, the index, and the snapshot metadata that carries their shared
/// epoch id (written together so that they share it).
pub struct JsonFileBackend {
    pub graph_path: PathBuf,
    pub index_path: PathBuf,
    pub snapshot_path: PathBuf,
}

impl JsonFileBackend {
    /// A backend storing the graph, index and snapshot files at the given paths.
    pub fn new(
        graph_path: impl Into<PathBuf>,
        index_path: impl Into<PathBuf>,
        snapshot_path: impl Into<PathBuf>,
    ) -> (r: Self)
        ensures
            call_ensures(Into::<PathBuf>::into, (graph_path,), r.graph_path),
            call_ensures(Into::<PathBuf>::into, (index_path,), r.index_path),
            call_ensures(Into::<PathBuf>::into, (snapshot_path,), r.snapshot_path),
    {
        JsonFileBackend {
            graph_path: graph_path.into(),
            index_path: index_path.into(),
            snapshot_path: snapshot_path.into(),
        }
    }

    /// A backend at the paths set by `VCP_GRAPH_PATH`, `VCP_INDEX_PATH` and
    /// `VCP_SNAPSHOT_PATH` (their values here, `None` where unset), falling
    /// back to `vcp_graph.json`, `vcp_index.json` and `vcp_snapshot.json`.
    pub fn from_env(graph_path: Option<String>, index_path: Option<String>, snapshot_path: Option<String>) -> (r:
        Self)
        ensures
            exists|s: String|
                s@ == setting_or(graph_path, "vcp_graph.json"@) && #[trigger] call_ensures(
                    Into::<PathBuf>::into,
                    (s,),
                    r.graph_path,
                ),
            exists|s: String|
                s@ == setting_or(index_path, "vcp_index.json"@) && #[trigger] call_ensures(
                    Into::<PathBuf>::into,
                    (s,),
                    r.index_path,
                ),
            exists|s: String|
                s@ == setting_or(snapshot_path, "vcp_snapshot.json"@) && #[trigger] call_ensures(
                    Into::<PathBuf>::into,
                    (s,),
                    r.snapshot_path,
                ),
    {
        let graph = match graph_path {
            Some(p) => p,
            None => String::from_str("vcp_graph.json"),
        };
        let index = match index_path {
            Some(p) => p,
            None => String::from_str("vcp_index.json"),
        };
        let snapshot = match snapshot_path {
            Some(p) => p,
            None => String::from_str("vcp_snapshot.json"),
        };
        Self::new(graph, index, snapshot)
    }
}

/// A setting's value, or `default` where it is unset.
pub open spec fn setting_or(value: Option<String>, default: Seq<char>) -> Seq<char> {
    match value {
        Some(v) => v@,
        None => default,
    }
}

/// A backend that keeps nothing: loading gives an empty store and saving
/// succeeds (tests, in-memory mode).
pub struct NullBackend;

} // verus!
