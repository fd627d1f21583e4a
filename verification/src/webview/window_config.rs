use vstd::prelude::*;

verus! {

/// Everything a window creation request may specify.  Missing fields fall
/// back to the defaults below.
#[derive(Clone, Debug)]
pub struct WindowConfig {
    pub title: String,
    pub url: String,
    pub icon: Option<String>,
    pub no_decorations: bool,
    pub dev_tools: bool,
    pub transparent: bool,
    pub width: i16,
    pub height: i16,
}

impl Default for WindowConfig {
    /// A decorated, opaque 680x480 window titled "WebView" showing
    /// "index.html", with the packaged icon and no dev tools.
    fn default() -> (c: Self)
        ensures
            c.title@ == "WebView"@,
            c.url@ == "index.html"@,
            c.icon is None,
            !c.no_decorations,
            !c.dev_tools,
            !c.transparent,
            c.width == 680,
            c.height == 480,
    {
        WindowConfig {
            title: "WebView".to_owned(),
            url: "index.html".to_owned(),
            icon: None,
            no_decorations: false,
            dev_tools: false,
            transparent: false,
            width: 680,
            height: 480,
        }
    }
}

} // verus!
