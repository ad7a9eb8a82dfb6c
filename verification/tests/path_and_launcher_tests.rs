use dashlayer::get_screen_size;
use dashlayer::launcher::{autostart_widgets, desktop_entry_content};
use dashlayer::paths::{
    config_dir_path, get_cache_dir, get_config_dir, store_file_path, widget_file_path,
};
use dashlayer::records::Widget;

fn widget(id: &str, auto_start: bool) -> Widget {
    Widget {
        id: id.to_string(),
        name: id.to_string(),
        html: String::new(),
        css: String::new(),
        js: String::new(),
        width: 100,
        height: 100,
        opacity: 100,
        always_on_top: false,
        transparent: false,
        x: 0,
        y: 0,
        auto_start,
        locked: false,
    }
}

#[test]
fn paths_are_built_under_the_configuration_directory() {
    assert_eq!(config_dir_path("/home/u/.config"), "/home/u/.config/dashlayer");
    assert_eq!(
        widget_file_path("/home/u/.config/dashlayer", "w1"),
        "/home/u/.config/dashlayer/widgets/w1.html"
    );
    assert_eq!(
        store_file_path("/home/u/.config/dashlayer", "widgets.json"),
        "/home/u/.config/dashlayer/widgets.json"
    );
}

#[test]
fn config_and_cache_dirs_agree_with_the_platform() {
    match get_config_dir() {
        Ok(p) => assert!(p.ends_with("/dashlayer")),
        Err(m) => assert_eq!(m, "Failed to get configuration directory"),
    }
    match get_cache_dir() {
        Ok(p) => assert!(p.ends_with("/dashlayer/cache")),
        Err(m) => assert_eq!(m, "Failed to get configuration directory"),
    }
}

#[test]
fn autostart_selects_flagged_widgets_in_order() {
    let widgets = vec![
        widget("a", false),
        widget("b", true),
        widget("c", false),
        widget("d", true),
    ];
    let selected = autostart_widgets(&widgets);
    assert_eq!(selected.len(), 2);
    assert_eq!(selected[0].id, "b");
    assert_eq!(selected[1].id, "d");

    let none = autostart_widgets(&vec![widget("a", false)]);
    assert_eq!(none.len(), 0);
}

#[test]
fn desktop_entry_registers_the_executable() {
    let entry = desktop_entry_content("/usr/bin/dashlayer");
    assert!(entry.starts_with("[Desktop Entry]\n"));
    assert!(entry.contains("Exec=/usr/bin/dashlayer\n"));
    assert!(entry.contains("Name=DashLayer\n"));
    assert!(entry.contains("X-GNOME-Autostart-enabled=true\n"));
}

#[test]
fn screen_size_is_the_fixed_placeholder() {
    assert_eq!(get_screen_size(), (1920, 1080));
}
