//! Configuration model for the Start-menu widget of the status bar. The
//! rendering itself is shell work; the engine only carries the validated
//! configuration values.

use vstd::prelude::*;

verus! {

/// How a widget presents itself.
#[derive(Clone, Copy, Debug, PartialEq, Eq, Structural)]
pub enum DisplayFormat {
    Icon,
    Text,
    IconAndText,
    TextAndIconOnSelected,
    IconAndTextOnSelected,
}

/// Which icon the Start-menu widget shows.
#[derive(Clone, Copy, Debug, PartialEq, Eq, Structural)]
pub enum StartMenuIcon {
    YinYang,
    WindowsLogo,
}

/// The widget's configuration as read from the user's file: optional
/// fields fall back to defaults.
#[derive(Clone, Copy, Debug, PartialEq, Eq, Structural)]
pub struct StartMenuConfig {
    /// Enable the Start menu widget.
    pub enable: bool,
    /// Display format.
    pub display: Option<DisplayFormat>,
    /// Start menu icon.
    pub icon: Option<StartMenuIcon>,
}

/// The widget's resolved settings.
#[derive(Clone, Copy, Debug, PartialEq, Eq, Structural)]
pub struct StartMenu {
    pub enable: bool,
    pub display: DisplayFormat,
    pub icon: StartMenuIcon,
}

impl From<StartMenuConfig> for StartMenu {
    /// Resolves a configuration: a missing display format means icon-only,
    /// a missing icon means the yin-yang glyph.
    fn from(value: StartMenuConfig) -> (r: StartMenu) {
        StartMenu {
            enable: value.enable,
            display: match value.display {
                Some(d) => d,
                None => DisplayFormat::Icon,
            },
            icon: match value.icon {
                Some(i) => i,
                None => StartMenuIcon::YinYang,
            },
        }
    }
}

impl vstd::std_specs::convert::FromSpecImpl<StartMenuConfig> for StartMenu {
    open spec fn obeys_from_spec() -> bool {
        true
    }

    open spec fn from_spec(value: StartMenuConfig) -> StartMenu {
        StartMenu {
            enable: value.enable,
            display: match value.display {
                Some(d) => d,
                None => DisplayFormat::Icon,
            },
            icon: match value.icon {
                Some(i) => i,
                None => StartMenuIcon::YinYang,
            },
        }
    }
}

} // verus!
