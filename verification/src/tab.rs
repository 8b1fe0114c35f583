//! Tabs, the tab bar model, hit resolution on the bar, and the bar's colours.

use vstd::prelude::*;

use crate::color::Rgb;
use crate::config::TabBarConfig;

verus! {

/// Unique identifier for a tab within a window.
#[derive(Debug, Clone, Copy, PartialEq, Eq, Hash)]
pub struct TabId(pub usize);

/// A single tab holding an independent terminal session.
///
/// `S` is everything the session owns besides its title (terminal state, PTY
/// notifier, search and mouse state, ...). When a tab is not the active tab of
/// its window all of its state lives here; when it is active, the state is
/// swapped into the window's own fields.
pub struct Tab<S> {
    pub id: TabId,
    pub title: String,
    pub preserve_title: bool,
    pub session: S,
}

/// Result of hit-testing a mouse position against the tab bar.
#[derive(Debug, Clone, Copy, PartialEq, Eq)]
pub enum TabBarHit {
    /// Clicked on a tab at the given index.
    Tab(usize),
    /// Clicked on the close button of the tab at the given index.
    CloseButton(usize),
    /// Clicked on the "+" new-tab button.
    NewButton,
}

/// Where a pointer lies relative to the bar's pixel geometry.
///
/// The geometry itself (cell sizes, padding, tab widths) is measured in
/// fractional pixels by the renderer; these are the answers to its questions.
#[derive(Debug, Clone, Copy, PartialEq, Eq)]
pub struct HitProbe {
    /// The pointer is within the bar's vertical extent.
    pub within_bar: bool,
    /// The pointer is at or right of the start of the "+" button area.
    pub over_new_button: bool,
    /// The tab whose horizontal span holds the pointer, if any.
    pub over_tab: Option<usize>,
    /// The pointer lies in the close-button zone at the right edge of that tab.
    pub over_close_button: bool,
}

/// Visual state of the tab bar.
pub struct TabBar {
    pub config: TabBarConfig,
    /// Cached titles for each tab (indexed by tab position).
    pub titles: Vec<String>,
    /// Which tab is active.
    pub active_index: usize,
}

impl TabBar {
    /// What a probe hits on this bar: nothing when the bar is disabled, has no
    /// tabs, or the pointer is outside it; otherwise the "+" button when it is
    /// shown and pointed at, else the tab under the pointer (its close button
    /// when that is shown and pointed at).
    pub open spec fn hit_of(self, probe: HitProbe) -> Option<TabBarHit> {
        if !self.config.enabled || self.titles@.len() == 0 || !probe.within_bar {
            None
        } else if self.config.show_new_button && probe.over_new_button {
            Some(TabBarHit::NewButton)
        } else {
            match probe.over_tab {
                Some(i) => if i < self.titles@.len() {
                    if self.config.show_close_button && probe.over_close_button {
                        Some(TabBarHit::CloseButton(i))
                    } else {
                        Some(TabBarHit::Tab(i))
                    }
                } else {
                    None
                },
                None => None,
            }
        }
    }

    pub fn new(config: TabBarConfig) -> (bar: Self)
        ensures
            bar.config == config,
            bar.titles@.len() == 0,
            bar.active_index == 0,
    {
        TabBar { config, titles: Vec::new(), active_index: 0 }
    }

    /// Total number of tabs.
    pub fn len(&self) -> (n: usize)
        ensures
            n == self.titles@.len(),
    {
        self.titles.len()
    }

    /// Decide what a click at the probed position hits.
    pub fn resolve_hit(&self, probe: HitProbe) -> (hit: Option<TabBarHit>)
        ensures
            hit == self.hit_of(probe),
    {
        if !self.config.enabled || self.titles.len() == 0 || !probe.within_bar {
            return None;
        }
        if self.config.show_new_button && probe.over_new_button {
            return Some(TabBarHit::NewButton);
        }
        match probe.over_tab {
            Some(i) => {
                if i < self.titles.len() {
                    if self.config.show_close_button && probe.over_close_button {
                        Some(TabBarHit::CloseButton(i))
                    } else {
                        Some(TabBarHit::Tab(i))
                    }
                } else {
                    None
                }
            },
            None => None,
        }
    }
}

/// Color scheme for the tab bar, derived from the terminal theme.
#[derive(Debug, Clone, Copy, PartialEq, Eq)]
pub struct TabBarColors {
    /// Background of the whole tab bar.
    pub bar_bg: Rgb,
    /// Background of an inactive tab.
    pub inactive_bg: Rgb,
    /// Background of the active tab.
    pub active_bg: Rgb,
    /// Text color for tab titles.
    pub text: Rgb,
    /// Text color for the active tab.
    pub active_text: Rgb,
    /// Color for the close button.
    pub close_button: Rgb,
}

/// One channel moved by `half_steps / 2` (a whole or half unit), clamped to
/// `0..=255`, any remaining half dropped toward zero.
pub open spec fn shift_channel(c: u8, half_steps: int) -> u8 {
    let twice = 2 * c + half_steps;
    if twice <= 0 {
        0
    } else if twice >= 510 {
        255
    } else {
        (twice / 2) as u8
    }
}

/// Every channel of `c` moved by `half_steps / 2`.
pub open spec fn shift_color(c: Rgb, half_steps: int) -> Rgb {
    Rgb {
        r: shift_channel(c.r, half_steps),
        g: shift_channel(c.g, half_steps),
        b: shift_channel(c.b, half_steps),
    }
}

/// Perceived luminance scaled by 1000: `299 r + 587 g + 114 b`.
pub open spec fn weighted_luminance(c: Rgb) -> int {
    299 * c.r + 587 * c.g + 114 * c.b
}

/// The colours whose luminance is exactly 128 but whose single-precision sum
/// `0.299 r + 0.587 g + 0.114 b` rounds just below 128.
pub open spec fn rounds_below_threshold(c: Rgb) -> bool {
    ||| c.r == 75 && c.g == 175 && c.b == 25
    ||| c.r == 94 && c.g == 156 && c.b == 73
    ||| c.r == 113 && c.g == 137 && c.b == 121
    ||| c.r == 132 && c.g == 118 && c.b == 169
    ||| c.r == 199 && c.g == 93 && c.b == 122
    ||| c.r == 202 && c.g == 114 && c.b == 6
    ||| c.r == 218 && c.g == 74 && c.b == 170
    ||| c.r == 237 && c.g == 55 && c.b == 218
}

/// A background counts as dark when its luminance is below 128.
pub open spec fn is_dark(bg: Rgb) -> bool {
    weighted_luminance(bg) < 128000 || rounds_below_threshold(bg)
}

/// The tab bar colours for a terminal background: on a dark background tabs
/// are lightened (by 25 for inactive tabs, 12.5 for the bar) with light grey
/// text and white active text; on a light one they are darkened by the same
/// amounts with dark grey text and black active text. The active tab keeps the
/// background colour and the close button is always a muted red.
pub open spec fn colors_for(bg: Rgb) -> TabBarColors {
    let dark = is_dark(bg);
    let offset: int = if dark { 50 } else { -50 };
    let text: u8 = if dark { 200 } else { 55 };
    TabBarColors {
        bar_bg: shift_color(bg, offset / 2),
        inactive_bg: shift_color(bg, offset),
        active_bg: bg,
        text: Rgb { r: text, g: text, b: text },
        active_text: if dark { Rgb { r: 255, g: 255, b: 255 } } else { Rgb { r: 0, g: 0, b: 0 } },
        close_button: Rgb { r: 180, g: 60, b: 60 },
    }
}

fn shift(c: u8, half_steps: i32) -> (res: u8)
    requires
        -510 <= half_steps <= 510,
    ensures
        res == shift_channel(c, half_steps as int),
{
    let twice: i32 = 2 * (c as i32) + half_steps;
    if twice <= 0 {
        0
    } else if twice >= 510 {
        255
    } else {
        (twice / 2) as u8
    }
}

fn lighten(c: Rgb, half_steps: i32) -> (res: Rgb)
    requires
        -510 <= half_steps <= 510,
    ensures
        res == shift_color(c, half_steps as int),
{
    Rgb::new(shift(c.r, half_steps), shift(c.g, half_steps), shift(c.b, half_steps))
}

fn background_is_dark(bg: Rgb) -> (dark: bool)
    ensures
        dark == is_dark(bg),
{
    let weighted: u32 = 299 * (bg.r as u32) + 587 * (bg.g as u32) + 114 * (bg.b as u32);
    if weighted < 128000 {
        return true;
    }
    let (r, g, b) = (bg.r, bg.g, bg.b);
    (r == 75 && g == 175 && b == 25) || (r == 94 && g == 156 && b == 73) || (r == 113 && g == 137
        && b == 121) || (r == 132 && g == 118 && b == 169) || (r == 199 && g == 93 && b == 122) || (
    r == 202 && g == 114 && b == 6) || (r == 218 && g == 74 && b == 170) || (r == 237 && g == 55
        && b == 218)
}

impl TabBarColors {
    /// Derive tab bar colors from the terminal background color.
    pub fn from_background(bg: Rgb) -> (colors: Self)
        ensures
            colors == colors_for(bg),
    {
        let is_dark = background_is_dark(bg);
        let (inactive_offset, text_brightness): (i32, u8) = if is_dark {
            (50, 200)
        } else {
            (-50, 55)
        };
        let text_color = Rgb::new(text_brightness, text_brightness, text_brightness);
        let active_text = if is_dark {
            Rgb::new(255, 255, 255)
        } else {
            Rgb::new(0, 0, 0)
        };
        TabBarColors {
            bar_bg: lighten(bg, inactive_offset / 2),
            inactive_bg: lighten(bg, inactive_offset),
            active_bg: bg,
            text: text_color,
            active_text,
            close_button: Rgb::new(180, 60, 60),
        }
    }
}

} // verus!
