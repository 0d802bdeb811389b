//! What a window is made from: its label, title, size and content.

use vstd::prelude::*;

verus! {

/// Mathematical value of a window description.
pub struct WindowModel {
    pub label: Seq<char>,
    pub title: Seq<char>,
    pub width: nat,
    pub height: nat,
    pub content: Seq<char>,
}

/// Description from which the runtime creates a window.
///
/// `width` and `height` are logical pixels; `content` is the path of a
/// document bundled with the application.
#[derive(Debug, PartialEq, Eq)]
pub struct WindowConfig {
    pub label: String,
    pub title: String,
    pub width: u32,
    pub height: u32,
    pub content: String,
}

impl View for WindowConfig {
    type V = WindowModel;

    open spec fn view(&self) -> WindowModel {
        WindowModel {
            label: self.label@,
            title: self.title@,
            width: self.width as nat,
            height: self.height as nat,
            content: self.content@,
        }
    }
}

impl Clone for WindowConfig {
    fn clone(&self) -> (copy: WindowConfig)
        ensures
            copy@ == self@,
    {
        WindowConfig {
            label: self.label.clone(),
            title: self.title.clone(),
            width: self.width,
            height: self.height,
            content: self.content.clone(),
        }
    }
}

/// Label under which the player view is known to the runtime.
pub open spec fn player_label() -> Seq<char> {
    "player"@
}

/// The one description the player view is ever created from.
pub open spec fn player_model() -> WindowModel {
    WindowModel {
        label: player_label(),
        title: "VTT - Player View"@,
        width: 1920,
        height: 1080,
        content: "index.html"@,
    }
}

impl WindowConfig {
    /// Label of the player view, for queries against the runtime.
    pub fn player_label() -> (label: &'static str)
        ensures
            label@ == player_label(),
    {
        "player"
    }

    /// The player view's description: titled "VTT - Player View", 1920 by
    /// 1080 logical pixels, showing the application's root document.
    pub fn player() -> (config: WindowConfig)
        ensures
            config@ == player_model(),
    {
        WindowConfig {
            label: "player".to_owned(),
            title: "VTT - Player View".to_owned(),
            width: 1920,
            height: 1080,
            content: "index.html".to_owned(),
        }
    }
}

} // verus!
