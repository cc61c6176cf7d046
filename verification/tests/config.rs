use enjo::config::{env_override, Config};
use std::path::PathBuf;

#[test]
fn db_path_is_data_dir_join_enjo_db() {
    let dir = PathBuf::from("/some/where/enjo-data");
    let config = Config::with_data_dir(dir.clone());
    assert_eq!(config.data_dir(), dir.as_path());
    assert_eq!(config.db_path(), dir.join("enjo.db"));
}

#[test]
fn empty_override_is_ignored() {
    assert_eq!(env_override(Some(String::new())), None);
    assert_eq!(env_override(None), None);
    assert_eq!(env_override(Some("/tmp/x".to_string())), Some("/tmp/x".to_string()));
}
