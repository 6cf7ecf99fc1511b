use directories::ext::read_file;
use directories::path::Style;

fn overrides() -> Vec<String> {
    vec![String::from("/etc/xdg"), String::from("/usr/share/"), String::from("/opt/defaults")]
}

#[test]
fn read_file_prefers_the_primary_base() {
    let everywhere = |_: &str| true;
    assert_eq!(
        read_file(Style::Unix, "/home/alice/.config", &overrides(), "app/settings.toml", everywhere),
        Some(String::from("/home/alice/.config/app/settings.toml"))
    );
    let two = |place: &str| {
        place == "/home/alice/.config/app/settings.toml" || place == "/etc/xdg/app/settings.toml"
    };
    assert_eq!(
        read_file(Style::Unix, "/home/alice/.config", &overrides(), "app/settings.toml", two),
        Some(String::from("/home/alice/.config/app/settings.toml"))
    );
}

#[test]
fn read_file_takes_the_first_override_that_has_the_file() {
    let later = |place: &str| {
        place == "/usr/share/app/settings.toml" || place == "/opt/defaults/app/settings.toml"
    };
    assert_eq!(
        read_file(Style::Unix, "/home/alice/.config", &overrides(), "app/settings.toml", later),
        Some(String::from("/usr/share/app/settings.toml"))
    );
    let last = |place: &str| place == "/opt/defaults/app/settings.toml";
    assert_eq!(
        read_file(Style::Unix, "/home/alice/.config", &overrides(), "app/settings.toml", last),
        Some(String::from("/opt/defaults/app/settings.toml"))
    );
}

#[test]
fn read_file_finds_nothing_where_nothing_is() {
    let nowhere = |_: &str| false;
    assert_eq!(
        read_file(Style::Unix, "/home/alice/.config", &overrides(), "app/settings.toml", nowhere),
        None
    );
    assert_eq!(read_file(Style::Unix, "/home/alice/.config", &Vec::new(), "x", nowhere), None);
    let elsewhere = |place: &str| place == "/etc/xdg/other";
    assert_eq!(
        read_file(Style::Unix, "/home/alice/.config", &overrides(), "app/settings.toml", elsewhere),
        None
    );
}

#[test]
fn read_file_asks_in_order_and_stops_at_the_first_find() {
    let asked = std::cell::RefCell::new(Vec::<String>::new());
    let probe = |place: &str| {
        asked.borrow_mut().push(String::from(place));
        place.starts_with("/usr")
    };
    let found = read_file(Style::Unix, "/home/alice/.config", &overrides(), "f", probe);
    assert_eq!(found, Some(String::from("/usr/share/f")));
    assert_eq!(*asked.borrow(), vec!["/home/alice/.config/f", "/etc/xdg/f", "/usr/share/f"]);
}

#[test]
fn read_file_on_windows_paths() {
    let dirs = vec![String::from("C:\\ProgramData")];
    let second = |place: &str| place == "C:\\ProgramData\\app\\settings.toml";
    assert_eq!(
        read_file(
            Style::Windows,
            "C:\\Users\\Alice\\AppData\\Roaming",
            &dirs,
            "app\\settings.toml",
            second
        ),
        Some(String::from("C:\\ProgramData\\app\\settings.toml"))
    );
}
