//! Map colour mode: the map's palette is decoupled from the interface theme.

use vstd::prelude::*;

use crate::text::str_eq;

verus! {

/// Map colour mode (map output is independent of the interface theme).
#[derive(Clone, Copy, PartialEq, Eq, Debug, Structural)]
pub enum MapThemeMode {
    /// Always the light palette (default; keeps cartographic output correct).
    FixedLight,
    /// Always the dark palette.
    FixedDark,
    /// Follow the interface theme.
    FollowUi,
}

/// The status-bar label of each mode.
pub open spec fn map_theme_label(m: MapThemeMode) -> Seq<char> {
    match m {
        MapThemeMode::FixedLight => "地图: 固定晨山"@,
        MapThemeMode::FixedDark => "地图: 固定夜观星"@,
        MapThemeMode::FollowUi => "地图: 跟随界面"@,
    }
}

/// The mode that follows `m` in the cycle light → dark → follow → light.
pub open spec fn map_theme_next(m: MapThemeMode) -> MapThemeMode {
    match m {
        MapThemeMode::FixedLight => MapThemeMode::FixedDark,
        MapThemeMode::FixedDark => MapThemeMode::FollowUi,
        MapThemeMode::FollowUi => MapThemeMode::FixedLight,
    }
}

/// The persisted key of each mode.
pub open spec fn map_theme_key(m: MapThemeMode) -> Seq<char> {
    match m {
        MapThemeMode::FixedLight => "fixed_light"@,
        MapThemeMode::FixedDark => "fixed_dark"@,
        MapThemeMode::FollowUi => "follow_ui"@,
    }
}

/// The mode a persisted key denotes; unknown keys fall back to the default.
pub open spec fn map_theme_of_key(s: Seq<char>) -> MapThemeMode {
    if s == "fixed_dark"@ {
        MapThemeMode::FixedDark
    } else if s == "follow_ui"@ {
        MapThemeMode::FollowUi
    } else {
        MapThemeMode::FixedLight
    }
}

impl MapThemeMode {
    /// Status-bar label.
    pub fn label(self) -> (r: &'static str)
        ensures
            r@ == map_theme_label(self),
    {
        match self {
            MapThemeMode::FixedLight => "地图: 固定晨山",
            MapThemeMode::FixedDark => "地图: 固定夜观星",
            MapThemeMode::FollowUi => "地图: 跟随界面",
        }
    }

    /// Whether maps are drawn dark, given whether the interface is dark: the
    /// fixed modes decide alone, "follow" takes the interface's choice.
    pub fn map_is_dark(self, ui_dark: bool) -> (r: bool)
        ensures
            r == match self {
                MapThemeMode::FixedLight => false,
                MapThemeMode::FixedDark => true,
                MapThemeMode::FollowUi => ui_dark,
            },
    {
        match self {
            MapThemeMode::FixedLight => false,
            MapThemeMode::FixedDark => true,
            MapThemeMode::FollowUi => ui_dark,
        }
    }

    /// The next mode in the cycle.
    pub fn next(self) -> (r: Self)
        ensures
            r == map_theme_next(self),
    {
        match self {
            MapThemeMode::FixedLight => MapThemeMode::FixedDark,
            MapThemeMode::FixedDark => MapThemeMode::FollowUi,
            MapThemeMode::FollowUi => MapThemeMode::FixedLight,
        }
    }

    /// Persisted key (project files).
    pub fn as_str(self) -> (r: &'static str)
        ensures
            r@ == map_theme_key(self),
    {
        match self {
            MapThemeMode::FixedLight => "fixed_light",
            MapThemeMode::FixedDark => "fixed_dark",
            MapThemeMode::FollowUi => "follow_ui",
        }
    }

    /// Reads a persisted key; unknown values fall back to `FixedLight`.
    pub fn parse(s: &str) -> (r: Self)
        ensures
            r == map_theme_of_key(s@),
    {
        if str_eq(s, "fixed_dark") {
            MapThemeMode::FixedDark
        } else if str_eq(s, "follow_ui") {
            MapThemeMode::FollowUi
        } else {
            MapThemeMode::FixedLight
        }
    }
}

/// Cycling three times returns to the starting mode, and the three modes of a
/// cycle are pairwise different.
pub proof fn law_map_theme_cycle(m: MapThemeMode)
    ensures
        map_theme_next(map_theme_next(map_theme_next(m))) == m,
        map_theme_next(m) != m,
        map_theme_next(map_theme_next(m)) != m,
{
}

/// Reading back the persisted key of a mode gives the mode.
pub proof fn law_map_theme_key_roundtrip(m: MapThemeMode)
    ensures
        map_theme_of_key(map_theme_key(m)) == m,
{
    reveal_strlit("fixed_light");
    reveal_strlit("fixed_dark");
    reveal_strlit("follow_ui");
    assert("fixed_light"@.len() == 11);
    assert("fixed_dark"@.len() == 10);
    assert("follow_ui"@.len() == 9);
}

} // verus!
