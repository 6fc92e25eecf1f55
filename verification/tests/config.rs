use vesa::config::{default_config_dir, default_hotkey, expand_home, parse_position, parse_position_any_case, ClientEntry, RunMode};
use vesa::event::Position;

#[test]
fn default_hotkey_is_escape() {
    assert_eq!(default_hotkey(), "Escape");
}

#[test]
fn positions_by_exact_name() {
    assert_eq!(parse_position("Left"), Some(Position::Left));
    assert_eq!(parse_position("Right"), Some(Position::Right));
    assert_eq!(parse_position("Top"), Some(Position::Top));
    assert_eq!(parse_position("Bottom"), Some(Position::Bottom));
    assert_eq!(parse_position("left"), None);
    assert_eq!(parse_position("Middle"), None);
    assert_eq!(parse_position(""), None);
}

#[test]
fn positions_in_either_case() {
    assert_eq!(parse_position_any_case("left"), Some(Position::Left));
    assert_eq!(parse_position_any_case("Right"), Some(Position::Right));
    assert_eq!(parse_position_any_case("top"), Some(Position::Top));
    assert_eq!(parse_position_any_case("bottom"), Some(Position::Bottom));
    assert_eq!(parse_position_any_case("BOTTOM"), None);
}

#[test]
fn run_mode_status_words() {
    assert_eq!(RunMode::Idle.status(), "idle");
    assert_eq!(RunMode::Server.status(), "server");
    assert_eq!(RunMode::Client.status(), "client");
}

#[test]
fn client_entry_holds_name_and_side() {
    let e = ClientEntry { name: "laptop".to_string(), position: Position::Right };
    let c = e.clone();
    assert_eq!(c.name, "laptop");
    assert_eq!(c.position, Position::Right);
}

#[test]
fn home_shorthand_is_expanded() {
    assert_eq!(expand_home("~/.config/vesa", Some("/home/kim".to_string())), "/home/kim/.config/vesa");
    assert_eq!(expand_home("~/é", Some("/h".to_string())), "/h/é");
    assert_eq!(expand_home("~/.config/vesa", None), "~/.config/vesa");
    assert_eq!(expand_home("/etc/vesa", Some("/home/kim".to_string())), "/etc/vesa");
    assert_eq!(expand_home("~user/x", Some("/home/kim".to_string())), "~user/x");
    assert_eq!(expand_home("~", Some("/home/kim".to_string())), "~");
    assert_eq!(expand_home("~/", Some("/h".to_string())), "/h/");
}

#[test]
fn default_config_directory() {
    assert_eq!(default_config_dir(Some("/home/ana".to_string())), "/home/ana/.config/vesa");
    assert_eq!(default_config_dir(Some("/home/ana/".to_string())), "/home/ana/.config/vesa");
    assert_eq!(default_config_dir(Some("/".to_string())), "/.config/vesa");
    assert_eq!(default_config_dir(Some(String::new())), ".config/vesa");
    assert_eq!(default_config_dir(None), ".vesa");
    let joined = std::path::PathBuf::from("/home/ana").join(".config").join("vesa");
    assert_eq!(default_config_dir(Some("/home/ana".to_string())), joined.to_str().unwrap());
}
