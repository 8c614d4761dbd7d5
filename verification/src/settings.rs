//! The application's settings: one record per installation.

use crate::descriptor::clone_opt_string;
use vstd::prelude::*;

verus! {

/// The settings of the application.
#[derive(Debug, PartialEq, Eq)]
pub struct AppSettings {
    pub theme_color: String,
    /// The opacity of the window, a 32-bit floating point number, held
    /// as its bits.
    pub opacity_bits: u32,
    /// The directory of unit files that the user has chosen.
    pub config_path: Option<String>,
    pub theme_mode: String,
    pub webdav_url: Option<String>,
    pub webdav_username: Option<String>,
    pub webdav_password: Option<String>,
    pub auto_launch: Option<bool>,
}

/// Mathematical form of [`AppSettings`].
pub struct AppSettingsView {
    pub theme_color: Seq<char>,
    pub opacity_bits: u32,
    pub config_path: Option<Seq<char>>,
    pub theme_mode: Seq<char>,
    pub webdav_url: Option<Seq<char>>,
    pub webdav_username: Option<Seq<char>>,
    pub webdav_password: Option<Seq<char>>,
    pub auto_launch: Option<bool>,
}

/// The bits of the opacity of a fresh installation, which is 0.8.
pub const DEFAULT_OPACITY_BITS: u32 = 0x3f4c_cccd;

impl AppSettingsView {
    /// The settings of a fresh installation.
    pub open spec fn initial() -> AppSettingsView {
        AppSettingsView {
            theme_color: "#3b82f6"@,
            opacity_bits: DEFAULT_OPACITY_BITS,
            config_path: None,
            theme_mode: "auto"@,
            webdav_url: None,
            webdav_username: None,
            webdav_password: None,
            auto_launch: Some(false),
        }
    }

    /// These settings without the endpoint and credentials of the remote
    /// store.
    pub open spec fn without_credentials(self) -> AppSettingsView {
        AppSettingsView { webdav_url: None, webdav_username: None, webdav_password: None, ..self }
    }

    /// These settings with the endpoint and credentials of `other`.
    pub open spec fn with_credentials_of(self, other: AppSettingsView) -> AppSettingsView {
        AppSettingsView {
            webdav_url: other.webdav_url,
            webdav_username: other.webdav_username,
            webdav_password: other.webdav_password,
            ..self
        }
    }
}

impl View for AppSettings {
    type V = AppSettingsView;

    open spec fn view(&self) -> AppSettingsView {
        AppSettingsView {
            theme_color: self.theme_color@,
            opacity_bits: self.opacity_bits,
            config_path: self.config_path.deep_view(),
            theme_mode: self.theme_mode@,
            webdav_url: self.webdav_url.deep_view(),
            webdav_username: self.webdav_username.deep_view(),
            webdav_password: self.webdav_password.deep_view(),
            auto_launch: self.auto_launch,
        }
    }
}

impl DeepView for AppSettings {
    type V = AppSettingsView;

    open spec fn deep_view(&self) -> AppSettingsView {
        self@
    }
}

impl Clone for AppSettings {
    fn clone(&self) -> (r: Self)
        ensures
            r@ == self@,
    {
        AppSettings {
            theme_color: self.theme_color.clone(),
            opacity_bits: self.opacity_bits,
            config_path: clone_opt_string(&self.config_path),
            theme_mode: self.theme_mode.clone(),
            webdav_url: clone_opt_string(&self.webdav_url),
            webdav_username: clone_opt_string(&self.webdav_username),
            webdav_password: clone_opt_string(&self.webdav_password),
            auto_launch: self.auto_launch,
        }
    }
}

impl Default for AppSettings {
    fn default() -> (r: Self)
        ensures
            r@ == AppSettingsView::initial(),
    {
        AppSettings {
            theme_color: "#3b82f6".to_owned(),
            opacity_bits: DEFAULT_OPACITY_BITS,
            config_path: None,
            theme_mode: "auto".to_owned(),
            webdav_url: None,
            webdav_username: None,
            webdav_password: None,
            auto_launch: Some(false),
        }
    }
}

/// The settings in force: those of the settings document where it could
/// be read, else those of a fresh installation.
pub fn get_app_settings(stored: Option<AppSettings>) -> (r: AppSettings)
    ensures
        r@ == (match stored {
            Some(s) => s@,
            None => AppSettingsView::initial(),
        }),
{
    match stored {
        Some(s) => s,
        None => AppSettings::default(),
    }
}

} // verus!
