use dropout_core::instance::{Instance, InstanceConfig, InstanceState};

fn state_with(ids: &[&str]) -> InstanceState {
    let mut state = InstanceState::new(InstanceConfig::default(), String::from("instances.json"));
    for id in ids {
        let dir = format!("/data/instances/{}", id);
        state.create_instance(Instance::fresh(id.to_string(), format!("Instance {}", id), dir, 1_700_000_000));
    }
    state
}

#[test]
fn test_instance_versions_isolated() {
    let mut state = state_with(&["a", "b"]);
    let mut a = state.get_instance("a").unwrap();
    a.version_id = Some(String::from("1.20.4"));
    state.update_instance(a).unwrap();
    assert_eq!(state.get_instance("a").unwrap().version_id.as_deref(), Some("1.20.4"));
    assert_eq!(state.get_instance("b").unwrap().version_id, None);
    assert_ne!(state.get_instance_game_dir("a"), state.get_instance_game_dir("b"));
    println!("✅ Test 1: Versions are isolated per instance");
}

#[test]
fn test_delete_version_instance_isolation() {
    let mut state = state_with(&["a", "b"]);
    for id in ["a", "b"] {
        let mut instance = state.get_instance(id).unwrap();
        instance.version_id = Some(String::from("1.20.4"));
        state.update_instance(instance).unwrap();
    }
    state.forget_deleted_version("a", "1.20.4").unwrap();
    assert_eq!(state.get_instance("a").unwrap().version_id, None);
    assert_eq!(state.get_instance("b").unwrap().version_id.as_deref(), Some("1.20.4"));
    println!("✅ Test 2: Version deletion doesn't cross instances");
}

#[test]
fn test_fabric_install_updates_instance_metadata() {
    let mut state = state_with(&["a"]);
    state
        .record_installed_loader("a", "fabric", "0.14.0", "fabric-loader-0.14.0-1.20.4")
        .unwrap();
    let a = state.get_instance("a").unwrap();
    assert_eq!(a.mod_loader.as_deref(), Some("fabric"));
    assert_eq!(a.mod_loader_version.as_deref(), Some("0.14.0"));
    assert_eq!(a.version_id.as_deref(), Some("fabric-loader-0.14.0-1.20.4"));
    println!("✅ Test 3: Fabric installation updates Instance.mod_loader");
}

#[test]
fn test_forge_install_updates_instance_metadata() {
    let mut state = state_with(&["a", "b"]);
    state.record_installed_loader("b", "forge", "47.2.0", "1.20.1-forge-47.2.0").unwrap();
    let b = state.get_instance("b").unwrap();
    assert_eq!(b.mod_loader.as_deref(), Some("forge"));
    assert_eq!(b.mod_loader_version.as_deref(), Some("47.2.0"));
    assert_eq!(b.version_id.as_deref(), Some("1.20.1-forge-47.2.0"));
    assert_eq!(state.get_instance("a").unwrap().mod_loader.as_deref(), Some("vanilla"));
    println!("✅ Test 4: Forge installation updates Instance.mod_loader");
}

#[test]
fn test_delete_fabric_version_clears_mod_loader() {
    let mut state = state_with(&["a"]);
    state
        .record_installed_loader("a", "fabric", "0.14.0", "fabric-loader-0.14.0-1.20.4")
        .unwrap();
    state.forget_deleted_version("a", "fabric-loader-0.14.0-1.20.4").unwrap();
    let a = state.get_instance("a").unwrap();
    assert_eq!(a.mod_loader, None);
    assert_eq!(a.mod_loader_version, None);
    println!("✅ Test 5: Deleting Fabric version clears mod_loader");
}

#[test]
fn test_instance_switch_refreshes_versions() {
    let mut state = state_with(&["a", "b"]);
    let mut a = state.get_instance("a").unwrap();
    a.version_id = Some(String::from("1.20.4"));
    state.update_instance(a).unwrap();
    let mut b = state.get_instance("b").unwrap();
    b.version_id = Some(String::from("1.19.2"));
    state.update_instance(b).unwrap();
    assert_eq!(state.get_active_instance().unwrap().version_id.as_deref(), Some("1.20.4"));
    state.set_active_instance("b").unwrap();
    assert_eq!(state.get_active_instance().unwrap().version_id.as_deref(), Some("1.19.2"));
    println!("✅ Test 6: Instance switching refreshes version list");
}

#[test]
fn test_version_metadata_per_instance() {
    let mut state = state_with(&["a", "b"]);
    let mut a = state.get_instance("a").unwrap();
    a.version_id = Some(String::from("1.20.4"));
    state.update_instance(a).unwrap();
    assert_eq!(state.get_instance_game_dir("a").as_deref(), Some("/data/instances/a"));
    assert_eq!(state.get_instance_game_dir("b").as_deref(), Some("/data/instances/b"));
    assert_eq!(state.get_instance("b").unwrap().version_id, None);
    println!("✅ Test 7: Version metadata is per-instance");
}

#[test]
fn test_version_id_collision_isolated() {
    let mut state = state_with(&["a", "b"]);
    for id in ["a", "b"] {
        state
            .record_installed_loader(id, "fabric", "0.14.0", "fabric-loader-0.14.0-1.20.4")
            .unwrap();
    }
    state.forget_deleted_version("a", "fabric-loader-0.14.0-1.20.4").unwrap();
    let a = state.get_instance("a").unwrap();
    let b = state.get_instance("b").unwrap();
    assert_eq!(a.version_id, None);
    assert_eq!(a.mod_loader, None);
    assert_eq!(b.version_id.as_deref(), Some("fabric-loader-0.14.0-1.20.4"));
    assert_eq!(b.mod_loader.as_deref(), Some("fabric"));
    println!("✅ Test 8: Same version ID in different instances is isolated");
}

#[test]
fn test_selected_version_deletion_handling() {
    let mut state = state_with(&["a"]);
    let mut a = state.get_instance("a").unwrap();
    a.version_id = Some(String::from("1.20.4"));
    state.update_instance(a).unwrap();
    state.forget_deleted_version("a", "1.20.4").unwrap();
    let a = state.get_instance("a").unwrap();
    assert_eq!(a.version_id, None);
    assert_eq!(a.mod_loader.as_deref(), Some("vanilla"));
    println!("✅ Test 9: Deleting selected version properly clears selection");
}

#[test]
fn test_instance_state_consistency() {
    let mut state = state_with(&["a"]);
    state
        .record_installed_loader("a", "fabric", "0.15.7", "fabric-loader-0.15.7-1.20.4")
        .unwrap();
    let first = state.get_instance("a").unwrap();
    let second = state.get_instance("a").unwrap();
    assert_eq!(first.mod_loader.as_deref(), Some("fabric"));
    assert_eq!(first.mod_loader, second.mod_loader);
    assert_eq!(first.mod_loader_version, second.mod_loader_version);
    assert_eq!(state.list_instances().len(), 1);
    println!("✅ Test 10: Instance state remains consistent");
}

#[test]
fn the_first_instance_created_becomes_active() {
    let state = state_with(&["a", "b"]);
    assert_eq!(state.get_active_instance().unwrap().id, "a");
}

#[test]
fn update_of_an_unknown_instance_is_refused() {
    let mut state = state_with(&["a"]);
    let stranger = Instance::fresh(String::from("zzz"), String::from("n"), String::from("/d"), 0);
    assert_eq!(state.update_instance(stranger), Err(String::from("Instance zzz not found")));
    assert_eq!(state.list_instances().len(), 1);
}

#[test]
fn set_active_of_an_unknown_instance_is_refused() {
    let mut state = state_with(&["a"]);
    assert_eq!(state.set_active_instance("b"), Err(String::from("Instance b not found")));
    assert_eq!(state.get_active_instance().unwrap().id, "a");
}

#[test]
fn deleting_the_active_instance_activates_the_first_left() {
    let mut state = state_with(&["a", "b", "c"]);
    let removed = state.delete_instance("a").unwrap();
    assert_eq!(removed.id, "a");
    assert_eq!(state.get_active_instance().unwrap().id, "b");
    assert!(state.get_instance("a").is_none());
    state.delete_instance("c").unwrap();
    assert_eq!(state.get_active_instance().unwrap().id, "b");
    state.delete_instance("b").unwrap();
    assert!(state.get_active_instance().is_none());
    assert_eq!(
        state.delete_instance("b").err(),
        Some(String::from("Instance b not found"))
    );
}

#[test]
fn a_duplicate_keeps_settings_and_was_never_played() {
    let mut source = Instance::fresh(String::from("a"), String::from("A"), String::from("/a"), 5);
    source.last_played = Some(99);
    source.notes = Some(String::from("hello"));
    source.record_mod_loader("forge", "47.2.0", "1.20.1-forge-47.2.0");
    let copy = source.duplicate(String::from("b"), String::from("B"), String::from("/b"), 7);
    assert_eq!(copy.id, "b");
    assert_eq!(copy.name, "B");
    assert_eq!(copy.game_dir, "/b");
    assert_eq!(copy.created_at, 7);
    assert_eq!(copy.last_played, None);
    assert_eq!(copy.notes.as_deref(), Some("hello"));
    assert_eq!(copy.mod_loader.as_deref(), Some("forge"));
    assert_eq!(copy.version_id.as_deref(), Some("1.20.1-forge-47.2.0"));
}

#[test]
fn forge_version_of_a_fabric_instance_leaves_the_loader() {
    let mut instance = Instance::fresh(String::from("a"), String::from("A"), String::from("/a"), 5);
    instance.record_mod_loader("fabric", "0.14.0", "fabric-loader-0.14.0-1.20.4");
    assert!(!instance.forget_version("1.20.1-forge-47.2.0"));
    assert_eq!(instance.mod_loader.as_deref(), Some("fabric"));
    assert!(instance.forget_version("fabric-loader-0.14.0-1.20.4"));
    assert_eq!(instance.mod_loader, None);
    assert_eq!(instance.version_id, None);
}
