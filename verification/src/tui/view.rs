//! What is drawn.

use crate::text::strings;
use crate::tui::state::{tab_count, UiState};
use vstd::prelude::*;

verus! {

/// What is shown below the tabs.
#[derive(Debug, Clone, Copy, PartialEq, Eq, Structural)]
pub enum Screen {
    Dashboard,
    /// The list of runs, and above it what is open.
    History { menu: bool, export: bool, comment: bool },
    /// One run as JSON.
    HistoryDetail,
    Traceroute,
    Charts,
    Help,
}

/// What is shown in a state.
pub open spec fn screen_of(s: UiState) -> Screen {
    if s.tab == 0 {
        Screen::Dashboard
    } else if s.tab == 1 {
        if s.history_detail_view {
            Screen::HistoryDetail
        } else {
            Screen::History {
                menu: s.history_menu_open,
                export: s.history_export_modal_open,
                comment: s.history_comment_modal_open,
            }
        }
    } else if s.traceroute_enabled && s.tab == 2 {
        Screen::Traceroute
    } else if s.tab == (if s.traceroute_enabled {
        3usize
    } else {
        2usize
    }) {
        Screen::Charts
    } else {
        Screen::Help
    }
}

/// What is shown in a state.
pub fn screen(state: &UiState) -> (r: Screen)
    ensures
        r == screen_of(*state),
{
    let charts: usize = if state.traceroute_enabled {
        3
    } else {
        2
    };
    if state.tab == 0 {
        Screen::Dashboard
    } else if state.tab == 1 {
        if state.history_detail_view {
            Screen::HistoryDetail
        } else {
            Screen::History {
                menu: state.history_menu_open,
                export: state.history_export_modal_open,
                comment: state.history_comment_modal_open,
            }
        }
    } else if state.traceroute_enabled && state.tab == 2 {
        Screen::Traceroute
    } else if state.tab == charts {
        Screen::Charts
    } else {
        Screen::Help
    }
}

/// The titles of the tabs: the traceroute has one only where it is enabled.
pub open spec fn titles(traceroute: bool) -> Seq<Seq<char>> {
    if traceroute {
        seq!["Dashboard"@, "History"@, "Traceroute"@, "Charts"@, "Help"@]
    } else {
        seq!["Dashboard"@, "History"@, "Charts"@, "Help"@]
    }
}

/// The titles of the tabs.
pub fn tab_titles(traceroute: bool) -> (r: Vec<String>)
    ensures
        strings(r@) == titles(traceroute),
{
    let mut r: Vec<String> = Vec::new();
    r.push("Dashboard".to_string());
    r.push("History".to_string());
    if traceroute {
        r.push("Traceroute".to_string());
    }
    r.push("Charts".to_string());
    r.push("Help".to_string());
    assert(strings(r@) =~= titles(traceroute));
    r
}

/// The title of the tab that a screen belongs to.
pub open spec fn title_of(screen: Screen) -> Seq<char> {
    match screen {
        Screen::Dashboard => "Dashboard"@,
        Screen::History { .. } => "History"@,
        Screen::HistoryDetail => "History"@,
        Screen::Traceroute => "Traceroute"@,
        Screen::Charts => "Charts"@,
        Screen::Help => "Help"@,
    }
}

/// There is a title for each tab, and the screen shown is that of the tab selected.
pub proof fn screen_matches_its_tab(s: UiState)
    requires
        s.wf(),
    ensures
        titles(s.traceroute_enabled).len() == tab_count(s.traceroute_enabled),
        titles(s.traceroute_enabled)[s.tab as int] == title_of(screen_of(s)),
{
}

/// The headline above the tabs: a plain part and one that stands out.
#[derive(Debug)]
pub struct Headline {
    pub plain: String,
    pub highlight: Option<String>,
}

/// The contents of a [`Headline`].
pub struct HeadlineView {
    pub plain: Seq<char>,
    pub highlight: Option<Seq<char>>,
}

impl View for Headline {
    type V = HeadlineView;

    open spec fn view(&self) -> HeadlineView {
        HeadlineView { plain: self.plain@, highlight: crate::model::text_of(self.highlight) }
    }
}

/// The headline of a version, which tells what is known of newer ones.
pub open spec fn headline_of(version: Seq<char>, status: Option<Option<String>>) -> HeadlineView {
    let name = "cloudflare-speed-cli v"@ + version;
    match status {
        Some(Some(newer)) => HeadlineView {
            plain: name + " "@,
            highlight: Some("(v"@ + newer@ + " available)"@),
        },
        Some(None) => HeadlineView { plain: name + " (latest)"@, highlight: None },
        None => HeadlineView { plain: name, highlight: None },
    }
}

/// The headline of a version.
pub fn headline(version: &str, status: &Option<Option<String>>) -> (r: Headline)
    ensures
        r@ == headline_of(version@, *status),
{
    let mut plain = "cloudflare-speed-cli v".to_string();
    plain.append(version);
    let mut highlight: Option<String> = None;
    match status {
        Some(Some(newer)) => {
            plain.append(" ");
            let mut text = "(v".to_string();
            text.append(newer.as_str());
            text.append(" available)");
            highlight = Some(text);
        },
        Some(None) => plain.append(" (latest)"),
        None => {},
    }
    Headline { plain, highlight }
}

} // verus!
