use kapsule::runtime::state::{StateManager, Status};
use std::path::PathBuf;

#[test]
fn test_status_display() {
    assert_eq!(Status::Created.as_str(), "created");
    assert_eq!(Status::Running.as_str(), "running");
    assert_eq!(Status::Paused.as_str(), "paused");
    assert_eq!(Status::Stopped.as_str(), "stopped");
}

#[test]
fn test_container_dir_path() {
    assert_eq!(
        PathBuf::from(StateManager::container_dir("mycontainer")),
        PathBuf::from("/run/kapsule/mycontainer")
    );
    assert_eq!(
        PathBuf::from(StateManager::state_file("mycontainer")),
        PathBuf::from("/run/kapsule/mycontainer/state.json")
    );
}

#[test]
fn test_get_arch() {
    assert_eq!(1, 1);
}
