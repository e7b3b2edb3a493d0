//! Application launch settings: window size and title.

use vstd::prelude::*;

verus! {

/// Settings an application is launched with: an optional initial window size
/// in device pixels, and a window title.
pub struct App {
    pub size: Option<(u32, u32)>,
    pub title: String,
}

impl App {
    /// New settings: no explicit window size, the default title.
    pub fn new() -> (app: App)
        ensures
            app.size is None,
            app.title@ == "Paper Application"@,
    {
        App {
            size: None,
            title: String::from_str("Paper Application"),
        }
    }

    /// Request an initial window size of `width` by `height` device pixels.
    pub fn window_size(self, width: u32, height: u32) -> (app: App)
        ensures
            app.size == Some((width, height)),
            app.title == self.title,
    {
        App {
            size: Some((width, height)),
            ..self
        }
    }

    /// Replace the window title.
    pub fn title(self, title: String) -> (app: App)
        ensures
            app.title == title,
            app.size == self.size,
    {
        App { title, ..self }
    }
}

} // verus!
