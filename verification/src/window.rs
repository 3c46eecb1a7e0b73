//! The window that shows the page of the server.

use vstd::prelude::*;
use vstd::string::*;

verus! {

/// What a window is opened with: the address of the page it shows, and its
/// size.
#[derive(Debug, PartialEq, Eq)]
pub struct ConfigView {
    pub url: String,
    pub width: i32,
    pub height: i32,
}

/// The address of the page of a server on `port`: its root, or, where the
/// page is shown on Windows, the smaller page made for it.
pub open spec fn url_of(port: Seq<char>, on_windows: bool) -> Seq<char> {
    let root = "http://localhost:"@ + port + "/"@;
    if on_windows {
        root + "windows"@
    } else {
        root
    }
}

/// The width of the window.
pub open spec fn width_of(on_windows: bool) -> int {
    if on_windows {
        250
    } else {
        600
    }
}

/// The height of the window.
pub open spec fn height_of(on_windows: bool) -> int {
    if on_windows {
        200
    } else {
        800
    }
}

/// The window for a server on `port`. On Windows it is small and shows the
/// page made for it; elsewhere it is large and shows the root page.
pub fn window_config(port: &str, on_windows: bool) -> (view: ConfigView)
    ensures
        view.url@ == url_of(port@, on_windows),
        view.width == width_of(on_windows),
        view.height == height_of(on_windows),
{
    let root = String::from_str("http://localhost:").concat(port).concat("/");
    if on_windows {
        ConfigView { url: root.concat("windows"), width: 250, height: 200 }
    } else {
        ConfigView { url: root, width: 600, height: 800 }
    }
}

} // verus!
