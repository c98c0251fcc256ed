use std::path::PathBuf;

use vcp::JsonFileBackend;

#[test]
fn json_backend_paths_from_settings() {
    let b = JsonFileBackend::from_env(None, None, None);
    assert_eq!(b.graph_path, PathBuf::from("vcp_graph.json"));
    assert_eq!(b.index_path, PathBuf::from("vcp_index.json"));
    assert_eq!(b.snapshot_path, PathBuf::from("vcp_snapshot.json"));
    let b = JsonFileBackend::from_env(Some("/d/g.json".into()), None, Some("/d/s.json".into()));
    assert_eq!(b.graph_path, PathBuf::from("/d/g.json"));
    assert_eq!(b.index_path, PathBuf::from("vcp_index.json"));
    assert_eq!(b.snapshot_path, PathBuf::from("/d/s.json"));
    let b = JsonFileBackend::new("a", "b", "c");
    assert_eq!(b.index_path, PathBuf::from("b"));
}
