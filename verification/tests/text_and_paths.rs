use bunny_manager::text::{push_decimal, split_file_name, str_eq, str_eq_ignore_ascii_case};
use bunny_manager::manager::config::{get_config_path, required_dirs};

fn decimal(n: u64) -> String {
    let mut s = String::new();
    push_decimal(&mut s, n);
    s
}

#[test]
fn decimal_matches_display() {
    for n in [0u64, 7, 9, 10, 12345, 1_000_000, u64::MAX] {
        assert_eq!(decimal(n), n.to_string());
    }
    let mut s = String::from("v");
    push_decimal(&mut s, 42);
    assert_eq!(s, "v42");
}

#[test]
fn split_file_name_follows_path_rules() {
    assert_eq!(split_file_name("plugin.dll"), ("plugin".to_string(), Some("dll".to_string())));
    assert_eq!(split_file_name("a.b.c"), ("a.b".to_string(), Some("c".to_string())));
    assert_eq!(split_file_name(".bashrc"), (".bashrc".to_string(), None));
    assert_eq!(split_file_name("noext"), ("noext".to_string(), None));
    assert_eq!(split_file_name("trailing."), ("trailing".to_string(), Some(String::new())));
    assert_eq!(split_file_name("..dll"), (".".to_string(), Some("dll".to_string())));
    assert_eq!(split_file_name(".."), ("..".to_string(), None));
    assert_eq!(split_file_name("ünï.Ttf"), ("ünï".to_string(), Some("Ttf".to_string())));
}

#[test]
fn split_file_name_agrees_with_std_path() {
    for name in ["plugin.dll", "a.b.c", ".bashrc", "noext", "trailing.", "..dll", "x.DLL", "ünï.Ttf", ".a.b"] {
        let p = std::path::Path::new(name);
        let (stem, ext) = split_file_name(name);
        assert_eq!(Some(stem.as_str()), p.file_stem().and_then(|s| s.to_str()), "{name}");
        assert_eq!(ext.as_deref(), p.extension().and_then(|s| s.to_str()), "{name}");
    }
}

#[test]
fn ascii_case_insensitive_comparison() {
    assert!(str_eq_ignore_ascii_case("DLL", "dll"));
    assert!(str_eq_ignore_ascii_case("oTf", "OTF"));
    assert!(!str_eq_ignore_ascii_case("dll", "dl"));
    assert!(!str_eq_ignore_ascii_case("dlx", "dll"));
    assert!(!str_eq_ignore_ascii_case("é", "É"));
    assert!(!str_eq_ignore_ascii_case("[", "{"));
    assert!(str_eq("dll", "dll"));
    assert!(!str_eq("dll", "DLL"));
}

#[test]
fn config_path_is_in_the_config_folder() {
    let sep = std::path::MAIN_SEPARATOR;
    assert_eq!(
        get_config_path("/opt/mhf"),
        format!("/opt/mhf{sep}bunny_config{sep}bunny_manager.toml")
    );
    assert_eq!(
        get_config_path("/opt/mhf/"),
        format!("/opt/mhf/bunny_config{sep}bunny_manager.toml")
    );
    let dirs = required_dirs("/opt/mhf");
    assert_eq!(
        dirs,
        vec![
            format!("/opt/mhf{sep}bunny_plugins"),
            format!("/opt/mhf{sep}bunny_config"),
            format!("/opt/mhf{sep}bunny_fonts"),
        ]
    );
}

#[test]
fn config_path_of_empty_folder_is_relative() {
    let sep = std::path::MAIN_SEPARATOR;
    assert_eq!(get_config_path(""), format!("bunny_config{sep}bunny_manager.toml"));
    assert_eq!(
        required_dirs("/")[1],
        "/bunny_config".to_string()
    );
}
