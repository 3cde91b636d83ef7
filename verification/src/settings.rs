//! What an operator can configure, and what holds where nothing is
//! configured.

use vstd::prelude::*;

verus! {

/// The configuration of the service.
#[derive(Clone, Debug, PartialEq, Eq)]
pub struct Settings {
    /// The address to listen on.
    pub listen: String,
    /// The redirect template, with the placeholders `{port}` and `{token}`.
    pub container_url: String,
    /// The directory under which each user's data lives.
    pub data_dir: String,
}

/// A `Settings` as plain sequences of characters.
pub struct SettingsModel {
    pub listen: Seq<char>,
    pub container_url: Seq<char>,
    pub data_dir: Seq<char>,
}

impl View for Settings {
    type V = SettingsModel;

    open spec fn view(&self) -> SettingsModel {
        SettingsModel {
            listen: self.listen@,
            container_url: self.container_url@,
            data_dir: self.data_dir@,
        }
    }
}

/// The value that was configured, or else the one that holds by default.
pub open spec fn configured(value: Option<String>, default: Seq<char>) -> Seq<char> {
    match value {
        Some(v) => v@,
        None => default,
    }
}

/// The value that was configured, or else `default`.
pub fn value_or(value: Option<String>, default: &str) -> (r: String)
    ensures
        r@ == configured(value, default@),
{
    match value {
        Some(v) => v,
        None => String::from_str(default),
    }
}

impl Settings {
    /// The settings for what was configured: the service listens on
    /// `127.0.0.1:3030`, redirects to `http://localhost:{port}/?tkn={token}`
    /// and keeps data under `/opt/vscs-farm` unless told otherwise.
    pub fn resolve(
        listen: Option<String>,
        container_url: Option<String>,
        data_dir: Option<String>,
    ) -> (settings: Settings)
        ensures
            settings@.listen == configured(listen, "127.0.0.1:3030"@),
            settings@.container_url == configured(
                container_url,
                "http://localhost:{port}/?tkn={token}"@,
            ),
            settings@.data_dir == configured(data_dir, "/opt/vscs-farm"@),
    {
        Settings {
            listen: value_or(listen, "127.0.0.1:3030"),
            container_url: value_or(container_url, "http://localhost:{port}/?tkn={token}"),
            data_dir: value_or(data_dir, "/opt/vscs-farm"),
        }
    }
}

} // verus!
