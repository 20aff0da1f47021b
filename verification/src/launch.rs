use vstd::prelude::*;

verus! {

/// This configuration struct is needed for launching an application.
/// Create it with `LaunchConfig::default`, change what you need, then launch.
pub struct LaunchConfig {
    wnd_title: String,
}

impl Default for LaunchConfig {
    /// The window title is "nlhgui window".
    fn default() -> (r: Self)
        ensures
            r.spec_title() == "nlhgui window"@,
    {
        LaunchConfig { wnd_title: "nlhgui window".to_owned() }
    }
}

impl LaunchConfig {
    /// The title the window will carry.
    pub closed spec fn spec_title(&self) -> Seq<char> {
        self.wnd_title@
    }

    /// Changes the title, e.g.
    /// `LaunchConfig::default().with_title("custom title")`.
    pub fn with_title(self, title: &str) -> (r: Self)
        ensures
            r.spec_title() == title@,
    {
        let mut s = self;
        s.wnd_title = title.to_owned();
        s
    }

    /// The title the window will carry.
    pub fn title(&self) -> (r: &str)
        ensures
            r@ == self.spec_title(),
    {
        self.wnd_title.as_str()
    }
}

} // verus!
