//! The static assets: their names, and where a development build finds them.

use vstd::prelude::*;
use vstd::string::*;

verus! {

/// The static assets that the server hands out.
#[derive(Clone, Copy, Debug, PartialEq, Eq)]
pub enum Asset {
    AppHtml,
    ThemeCss,
    AppJs,
    KeysJs,
    WindowsHtml,
}

/// The file name of an asset.
pub open spec fn file_name_of(asset: Asset) -> Seq<char> {
    match asset {
        Asset::AppHtml => "app.html"@,
        Asset::ThemeCss => "theme.css"@,
        Asset::AppJs => "app.js"@,
        Asset::KeysJs => "keys.js"@,
        Asset::WindowsHtml => "windows.html"@,
    }
}

/// The folder from which a development build reads the assets, with the
/// separator that follows it in a path.
pub open spec fn development_folder() -> Seq<char> {
    "front/"@
}

/// The reason given when a development build does not find an asset.
pub open spec fn missing_asset_reason() -> Seq<char> {
    "No file found"@
}

/// The reason given when a development build does not find an asset.
pub fn missing_asset() -> (reason: String)
    ensures
        reason@ == missing_asset_reason(),
{
    String::from_str("No file found")
}

impl Asset {
    /// The name of the file that holds the asset.
    pub fn file_name(&self) -> (name: &'static str)
        ensures
            name@ == file_name_of(*self),
    {
        match self {
            Asset::AppHtml => "app.html",
            Asset::ThemeCss => "theme.css",
            Asset::AppJs => "app.js",
            Asset::KeysJs => "keys.js",
            Asset::WindowsHtml => "windows.html",
        }
    }

    /// The path at which a development build reads the asset: its file name
    /// inside the development folder.
    pub fn development_path(&self) -> (path: String)
        ensures
            path@ == development_folder() + file_name_of(*self),
    {
        String::from_str("front/").concat(self.file_name())
    }
}

} // verus!
