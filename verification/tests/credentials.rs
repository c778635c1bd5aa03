use tokensaver::credentials::{
    credentials_file, credentials_path, ConfigBase, CredentialsPath, CREDENTIALS_MODE,
};

#[test]
fn credentials_lie_under_xdg_config_home() {
    let dir: &[u8] = b"/cfg";
    assert_eq!(
        credentials_path(Some(dir)),
        CredentialsPath {
            base: ConfigBase::XdgConfigHome,
            names: vec!["tokensaver", "credentials.json"],
        }
    );
}

#[test]
fn credentials_lie_under_home_otherwise() {
    let empty: &[u8] = b"";
    for dir in [None, Some(empty)] {
        assert_eq!(
            credentials_path(dir),
            CredentialsPath {
                base: ConfigBase::Home,
                names: vec![".config", "tokensaver", "credentials.json"],
            }
        );
    }
}

#[test]
fn the_credentials_file_ends_with_a_newline() {
    assert_eq!(credentials_file("{}"), "{}\n");
    assert_eq!(CREDENTIALS_MODE, 0o600);
}
