//! The device credentials that an activation leaves behind.
use vstd::prelude::*;

verus! {

/// The permissions of the credentials file: its owner alone may read and write it.
pub const CREDENTIALS_MODE: u32 = 0o600;

/// What the credentials file holds. The texts are `String`s, and `Seq<char>`s in the view.
#[derive(Debug, PartialEq, Eq)]
pub struct Credentials<T = String> {
    pub portal_url: T,
    pub device_token: T,
}

impl View for Credentials<String> {
    type V = Credentials<Seq<char>>;

    open spec fn view(&self) -> Credentials<Seq<char>> {
        Credentials { portal_url: self.portal_url@, device_token: self.device_token@ }
    }
}

/// Where the path to the credentials starts.
#[derive(Debug, PartialEq, Eq)]
pub enum ConfigBase {
    /// The directory that `$XDG_CONFIG_HOME` names.
    XdgConfigHome,
    /// The user's home directory, or the empty path where there is none.
    Home,
}

/// The way to the credentials file: a base, and the names to append to it one after the other.
#[derive(Debug, PartialEq, Eq)]
pub struct CredentialsPath {
    pub base: ConfigBase,
    pub names: Vec<&'static str>,
}

/// Finds the way to the credentials file from the bytes of `$XDG_CONFIG_HOME`, which counts only
/// where it is set and not empty.
pub fn credentials_path(xdg_config_home: Option<&[u8]>) -> (r: CredentialsPath)
    ensures
        xdg_config_home matches Some(dir) && dir@.len() > 0 ==> {
            &&& r.base == ConfigBase::XdgConfigHome
            &&& r.names@ == seq!["tokensaver", "credentials.json"]
        },
        !(xdg_config_home matches Some(dir) && dir@.len() > 0) ==> {
            &&& r.base == ConfigBase::Home
            &&& r.names@ == seq![".config", "tokensaver", "credentials.json"]
        },
{
    let in_xdg: bool = match xdg_config_home {
        Some(dir) => dir.len() > 0,
        None => false,
    };
    let mut names: Vec<&'static str> = Vec::new();
    if !in_xdg {
        names.push(".config");
    }
    names.push("tokensaver");
    names.push("credentials.json");
    CredentialsPath {
        base: if in_xdg {
            ConfigBase::XdgConfigHome
        } else {
            ConfigBase::Home
        },
        names,
    }
}

/// The content of the credentials file: the credentials as JSON, and the end of the line.
pub fn credentials_file(json: &str) -> (r: String)
    ensures
        r@ == json@ + "\n"@,
{
    let mut r: String = json.to_owned();
    r.append("\n");
    r
}

/// The view of the credentials holds just their texts.
pub proof fn views_hold_the_texts(credentials: Credentials)
    ensures
        credentials@.portal_url == credentials.portal_url@,
        credentials@.device_token == credentials.device_token@,
{
}

} // verus!
