use bunny_manager::manager::plugin_manager::{
    plugin_file_stem, BunnyPlugin, PluginDirs, PluginInfo, PluginManager, PluginStatus, StatusToggle,
};
use bunny_manager::classic::plugins::{config_file_name, plugin_config_path, plugin_name_for_file};

type Plugin = BunnyPlugin<u8, u32>;

fn plugin(name: &str, tag: u32) -> Plugin {
    BunnyPlugin::new(name.to_string(), tag, 0)
}

fn info() -> PluginInfo {
    PluginInfo { name: "Quest Timer".to_string(), version: "1.2.0".to_string() }
}

#[test]
fn status_messages() {
    assert_eq!(PluginStatus::Unloaded.context(3), None);
    assert_eq!(PluginStatus::Enabled.context(3), None);
    assert_eq!(
        PluginStatus::UnloadedStillBusy.context(3).unwrap(),
        "Still busy saving/unloading. Try again in a moment or restart your game."
    );
    assert_eq!(PluginStatus::UnloadFailed.context(3).unwrap(), "Failed to unload. Restart the game to load.");
    assert_eq!(
        PluginStatus::LoadedIncompatible.context(3).unwrap(),
        "Incompatible plugin. Loaded, but running independently."
    );
    assert_eq!(
        PluginStatus::LoadedWrongApiVersion(12).context(3).unwrap(),
        "API version mismatch: Manager API: 3 | Plugin API: 12"
    );
    assert_eq!(
        PluginStatus::LoadedInitFailed("no config".to_string()).context(3).unwrap(),
        "Plugin init failed: no config"
    );
}

#[test]
fn checkbox_behaviour() {
    assert_eq!(PluginStatus::Unloaded.toggle(), StatusToggle::Load);
    assert_eq!(PluginStatus::UnloadedStillBusy.toggle(), StatusToggle::Load);
    assert_eq!(PluginStatus::UnloadFailed.toggle(), StatusToggle::Locked);
    assert_eq!(PluginStatus::Enabled.toggle(), StatusToggle::Unload);
    assert_eq!(PluginStatus::LoadedIncompatible.toggle(), StatusToggle::Unload);
    assert_eq!(PluginStatus::LoadedWrongApiVersion(1).toggle(), StatusToggle::Unload);
    assert_eq!(PluginStatus::LoadedInitFailed(String::new()).toggle(), StatusToggle::Unload);
    assert!(PluginStatus::Enabled.is_enabled());
    assert!(!PluginStatus::Unloaded.is_enabled());
}

#[test]
fn successful_load_then_unload() {
    let mut p = plugin("quest_timer", 7);
    assert_eq!(p.name(), "quest_timer");
    assert_eq!(p.name_version(), "quest_timer");
    assert!(p.begin_load(false, false));
    assert!(p.library_loaded(Some(0xabc)));
    let f = p.exports_resolved(Some(9), Some(3), 3);
    assert_eq!(f, Some(9));
    p.init_finished(9, info(), Ok(()));
    assert!(p.enabled());
    assert_eq!(p.funcs, Some(9));
    assert_eq!(p.module_handle, Some(0xabc));
    assert_eq!(p.name(), "Quest Timer");
    assert_eq!(p.name_version(), "Quest Timer - 1.2.0");
    assert_eq!(p.unload(), Some(0xabc));
    assert!(matches!(p.status, PluginStatus::Unloaded));
    assert_eq!(p.funcs, None);
    assert_eq!(p.name(), "Quest Timer");
    assert_eq!(p.unload(), None);
}

#[test]
fn load_refusals() {
    let mut p = plugin("a", 0);
    assert!(!p.begin_load(true, true));
    assert!(matches!(p.status, PluginStatus::UnloadFailed));
    let mut p = plugin("a", 0);
    assert!(!p.begin_load(false, true));
    assert!(matches!(p.status, PluginStatus::UnloadedStillBusy));
    let mut p = plugin("a", 0);
    assert!(!p.library_loaded(None));
    assert!(matches!(p.status, PluginStatus::Unloaded));
    assert_eq!(p.module_handle, None);
}

#[test]
fn incompatible_and_wrong_version() {
    let mut p = plugin("a", 0);
    p.library_loaded(Some(1));
    assert_eq!(p.exports_resolved(None, Some(3), 3), None);
    assert!(matches!(p.status, PluginStatus::LoadedIncompatible));
    let mut p = plugin("a", 0);
    p.library_loaded(Some(1));
    assert_eq!(p.exports_resolved(Some(1), None, 3), None);
    assert!(matches!(p.status, PluginStatus::LoadedIncompatible));
    let mut p = plugin("a", 0);
    p.library_loaded(Some(1));
    assert_eq!(p.exports_resolved(Some(1), Some(4), 3), None);
    assert!(matches!(p.status, PluginStatus::LoadedWrongApiVersion(4)));
    assert_eq!(p.module_handle, Some(1));
}

#[test]
fn init_failure_keeps_plugin_disabled() {
    let mut p = plugin("a", 0);
    p.library_loaded(Some(1));
    p.init_finished(5, info(), Err("bad config".to_string()));
    assert!(!p.enabled());
    assert!(matches!(&p.status, PluginStatus::LoadedInitFailed(r) if r == "bad config"));
    assert_eq!(p.funcs, None);
    assert!(p.info.is_none());
}

#[test]
fn refresh_keeps_found_drops_gone_and_adds_new() {
    let mut m: PluginManager<u8, u32> = PluginManager::new(vec![plugin("a", 1), plugin("b", 2), plugin("c", 3)]);
    m.plugins[0].status = PluginStatus::Enabled;
    let first_new = m.refresh(vec![plugin("c", 30), plugin("d", 40), plugin("a", 10), plugin("d", 41)]);
    assert_eq!(first_new, 2);
    assert_eq!(m.file_names(), vec!["a", "c", "d"]);
    // kept plugins are the old ones, new ones come from the folder
    assert_eq!(m.plugins[0].resources, 1);
    assert!(m.plugins[0].enabled());
    assert_eq!(m.plugins[1].resources, 3);
    assert_eq!(m.plugins[2].resources, 40);
}

#[test]
fn refresh_with_empty_folder_forgets_everything() {
    let mut m: PluginManager<u8, u32> = PluginManager::new(vec![plugin("a", 1)]);
    assert_eq!(m.refresh(Vec::new()), 0);
    assert!(m.plugins.is_empty());
}

#[test]
fn plugin_files() {
    assert_eq!(plugin_file_stem("Timer.DLL"), Some("Timer".to_string()));
    assert_eq!(plugin_file_stem("timer.dll"), Some("timer".to_string()));
    assert_eq!(plugin_file_stem("timer.dll.bak"), None);
    assert_eq!(plugin_file_stem("dll"), None);
    assert_eq!(plugin_name_for_file("timer.dll"), Some("timer".to_string()));
    assert_eq!(plugin_name_for_file("timer.DLL"), None);
    assert_eq!(config_file_name("timer"), "timer.toml");
    let sep = std::path::MAIN_SEPARATOR;
    assert_eq!(plugin_config_path("/cfg", "timer"), format!("/cfg{sep}timer.toml"));
}

#[test]
fn plugin_dirs_in_module_dir() {
    let sep = std::path::MAIN_SEPARATOR;
    let d = PluginDirs::new("/mhf");
    assert_eq!(d.plugins, format!("/mhf{sep}bunny_plugins"));
    assert_eq!(d.configs, format!("/mhf{sep}bunny_config"));
}

#[test]
fn same_file_compares_file_names() {
    assert!(plugin("a", 1).same_file(&plugin("a", 2)));
    assert!(!plugin("a", 1).same_file(&plugin("b", 1)));
}

#[test]
fn entry_points_kept_exactly_when_enabled_after_each_kind_of_load() {
    // refused: library could not be freed before
    let mut p = plugin("a", 0);
    p.begin_load(true, false);
    assert_eq!(p.funcs.is_some(), p.enabled());
    // library did not load
    let mut p = plugin("a", 0);
    p.begin_load(false, false);
    p.library_loaded(None);
    assert_eq!(p.funcs.is_some(), p.enabled());
    assert!(matches!(p.status, PluginStatus::Unloaded));
    // incompatible
    let mut p = plugin("a", 0);
    p.library_loaded(Some(7));
    assert_eq!(p.exports_resolved(Some(2), None, 3), None);
    assert_eq!(p.funcs.is_some(), p.enabled());
    // initialised
    let mut p = plugin("a", 0);
    p.library_loaded(Some(7));
    let f = p.exports_resolved(Some(2), Some(3), 3).unwrap();
    p.init_finished(f, info(), Ok(()));
    assert!(p.enabled());
    assert_eq!(p.funcs, Some(2));
}
