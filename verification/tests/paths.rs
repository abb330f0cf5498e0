use pls::path::{get_pls_path, pls_path_under, Location};
use pls::shell::Shell;
use std::path::PathBuf;

#[test]
fn pls_path_under_names_pls_in_the_data_directory() {
    let base = PathBuf::from("base").join("share");
    assert_eq!(
        pls_path_under(Some(base.clone())),
        Some(Location { base, name: "pls".to_string() })
    );
}

#[test]
fn pls_path_under_nothing_is_nothing() {
    assert_eq!(pls_path_under(None), None);
}

#[test]
fn get_pls_path_is_pls_in_the_data_directory_of_the_user() {
    match get_pls_path() {
        Some(location) => {
            assert_eq!(location.name, "pls");
            assert_eq!(Some(location.base), dirs_next::data_dir());
        }
        None => assert_eq!(dirs_next::data_dir(), None),
    }
}

#[test]
fn the_shell_is_sh_but_on_windows() {
    assert_eq!(Shell::of_host(false), Shell::Sh);
    assert_eq!(Shell::of_host(true), Shell::Cmd);
}

#[test]
fn each_shell_takes_the_line_after_its_flag() {
    assert_eq!(Shell::Sh.program(), "sh");
    assert_eq!(Shell::Sh.flag(), "-c");
    assert_eq!(Shell::Cmd.program(), "cmd");
    assert_eq!(Shell::Cmd.flag(), "/C");
}
