//! Placement and motion of the panel window: the screen edges it is anchored
//! to for each configured position, the transitions named in the
//! configuration, and what the header shows for each tab.

use vstd::prelude::*;
use crate::text::{lowercase, to_lowercase, str_eq, owned};

verus! {

// ---------------------------------------------------------------------------
// Position
// ---------------------------------------------------------------------------

/// The screen edges the window is anchored to.
#[derive(Clone, Copy, Debug, PartialEq, Eq, Structural)]
pub struct Anchors {
    pub top: bool,
    pub bottom: bool,
    pub left: bool,
    pub right: bool,
}

/// Anchors on the given edges.
pub open spec fn edges(top: bool, bottom: bool, left: bool, right: bool) -> Anchors {
    Anchors { top, bottom, left, right }
}

/// The edges for a configured position; no edge at all centres the window,
/// and a position that is not recognised means the top right corner.
pub open spec fn anchors_for(pos: Seq<char>) -> Anchors {
    if pos == "top-left"@ {
        edges(true, false, true, false)
    } else if pos == "top-center"@ {
        edges(true, false, false, false)
    } else if pos == "top-right"@ {
        edges(true, false, false, true)
    } else if pos == "center-left"@ {
        edges(false, false, true, false)
    } else if pos == "center"@ {
        edges(false, false, false, false)
    } else if pos == "center-right"@ {
        edges(false, false, false, true)
    } else if pos == "bottom-left"@ {
        edges(false, true, true, false)
    } else if pos == "bottom-center"@ {
        edges(false, true, false, false)
    } else if pos == "bottom-right"@ {
        edges(false, true, false, true)
    } else {
        edges(true, false, false, true)
    }
}

/// The edges the window is anchored to for a configured position (see
/// [`anchors_for`]).
pub fn position_anchors(pos: &str) -> (a: Anchors)
    ensures
        a == anchors_for(pos@),
{
    if str_eq(pos, "top-left") {
        Anchors { top: true, bottom: false, left: true, right: false }
    } else if str_eq(pos, "top-center") {
        Anchors { top: true, bottom: false, left: false, right: false }
    } else if str_eq(pos, "top-right") {
        Anchors { top: true, bottom: false, left: false, right: true }
    } else if str_eq(pos, "center-left") {
        Anchors { top: false, bottom: false, left: true, right: false }
    } else if str_eq(pos, "center") {
        Anchors { top: false, bottom: false, left: false, right: false }
    } else if str_eq(pos, "center-right") {
        Anchors { top: false, bottom: false, left: false, right: true }
    } else if str_eq(pos, "bottom-left") {
        Anchors { top: false, bottom: true, left: true, right: false }
    } else if str_eq(pos, "bottom-center") {
        Anchors { top: false, bottom: true, left: false, right: false }
    } else if str_eq(pos, "bottom-right") {
        Anchors { top: false, bottom: true, left: false, right: true }
    } else {
        Anchors { top: true, bottom: false, left: false, right: true }
    }
}

/// The window is never anchored to two opposite edges, whatever the
/// configured position.
pub proof fn lemma_anchors_never_opposite(pos: Seq<char>)
    ensures
        !(anchors_for(pos).top && anchors_for(pos).bottom),
        !(anchors_for(pos).left && anchors_for(pos).right),
{
}

// ---------------------------------------------------------------------------
// Transitions
// ---------------------------------------------------------------------------

/// How the window slides in and out.
#[derive(Clone, Copy, Debug, PartialEq, Eq, Structural)]
pub enum RevealerTransition {
    SlideRight,
    SlideLeft,
    SlideUp,
    SlideDown,
    SwingRight,
    SwingLeft,
    SwingUp,
    SwingDown,
    Crossfade,
    /// No animation.
    Instant,
}

/// The window transition named `t` (already lower-cased); slide-down when the
/// name is not known.
pub open spec fn revealer_for(t: Seq<char>) -> RevealerTransition {
    if t == "slideright"@ {
        RevealerTransition::SlideRight
    } else if t == "slideleft"@ {
        RevealerTransition::SlideLeft
    } else if t == "slideup"@ {
        RevealerTransition::SlideUp
    } else if t == "slidedown"@ {
        RevealerTransition::SlideDown
    } else if t == "swingright"@ {
        RevealerTransition::SwingRight
    } else if t == "swingleft"@ {
        RevealerTransition::SwingLeft
    } else if t == "swingup"@ {
        RevealerTransition::SwingUp
    } else if t == "swingdown"@ {
        RevealerTransition::SwingDown
    } else if t == "fade"@ || t == "crossfade"@ {
        RevealerTransition::Crossfade
    } else if t == "none"@ {
        RevealerTransition::Instant
    } else {
        RevealerTransition::SlideDown
    }
}

/// The window transition for a configured name, in any case (see
/// [`revealer_for`]).
pub fn parse_revealer_transition(t: &str) -> (r: RevealerTransition)
    ensures
        r == revealer_for(lowercase(t@)),
{
    let l = to_lowercase(t);
    let s = l.as_str();
    if str_eq(s, "slideright") {
        RevealerTransition::SlideRight
    } else if str_eq(s, "slideleft") {
        RevealerTransition::SlideLeft
    } else if str_eq(s, "slideup") {
        RevealerTransition::SlideUp
    } else if str_eq(s, "slidedown") {
        RevealerTransition::SlideDown
    } else if str_eq(s, "swingright") {
        RevealerTransition::SwingRight
    } else if str_eq(s, "swingleft") {
        RevealerTransition::SwingLeft
    } else if str_eq(s, "swingup") {
        RevealerTransition::SwingUp
    } else if str_eq(s, "swingdown") {
        RevealerTransition::SwingDown
    } else if str_eq(s, "fade") || str_eq(s, "crossfade") {
        RevealerTransition::Crossfade
    } else if str_eq(s, "none") {
        RevealerTransition::Instant
    } else {
        RevealerTransition::SlideDown
    }
}

/// How the pages of the panel replace each other.
#[derive(Clone, Copy, Debug, PartialEq, Eq, Structural)]
pub enum StackTransition {
    SlideRight,
    SlideLeft,
    SlideUp,
    SlideDown,
    SlideLeftRight,
    SlideUpDown,
    Crossfade,
    /// No animation.
    Instant,
}

/// The page transition named `t` (already lower-cased); sliding left or
/// right when the name is not known.
pub open spec fn stack_for(t: Seq<char>) -> StackTransition {
    if t == "slideright"@ {
        StackTransition::SlideRight
    } else if t == "slideleft"@ {
        StackTransition::SlideLeft
    } else if t == "slideup"@ {
        StackTransition::SlideUp
    } else if t == "slidedown"@ {
        StackTransition::SlideDown
    } else if t == "slidehorizontal"@ {
        StackTransition::SlideLeftRight
    } else if t == "slidevertical"@ {
        StackTransition::SlideUpDown
    } else if t == "crossfade"@ {
        StackTransition::Crossfade
    } else if t == "none"@ {
        StackTransition::Instant
    } else {
        StackTransition::SlideLeftRight
    }
}

/// The page transition for a configured name, in any case (see
/// [`stack_for`]).
pub fn parse_stack_transition(t: &str) -> (r: StackTransition)
    ensures
        r == stack_for(lowercase(t@)),
{
    let l = to_lowercase(t);
    let s = l.as_str();
    if str_eq(s, "slideright") {
        StackTransition::SlideRight
    } else if str_eq(s, "slideleft") {
        StackTransition::SlideLeft
    } else if str_eq(s, "slideup") {
        StackTransition::SlideUp
    } else if str_eq(s, "slidedown") {
        StackTransition::SlideDown
    } else if str_eq(s, "slidehorizontal") {
        StackTransition::SlideLeftRight
    } else if str_eq(s, "slidevertical") {
        StackTransition::SlideUpDown
    } else if str_eq(s, "crossfade") {
        StackTransition::Crossfade
    } else if str_eq(s, "none") {
        StackTransition::Instant
    } else {
        StackTransition::SlideLeftRight
    }
}

// ---------------------------------------------------------------------------
// Tabs
// ---------------------------------------------------------------------------

/// The three tabs of the header.
#[derive(Clone, Copy, Debug, PartialEq, Eq, Structural)]
pub enum PanelTab {
    Wifi,
    Bluetooth,
    Vpn,
}

/// The tab highlighted for a page name: the saved-networks page belongs to
/// the Wi-Fi tab; other names highlight no tab.
pub open spec fn tab_for(page: Seq<char>) -> Option<PanelTab> {
    if page == "wifi"@ || page == "saved"@ {
        Some(PanelTab::Wifi)
    } else if page == "bluetooth"@ {
        Some(PanelTab::Bluetooth)
    } else if page == "vpn"@ {
        Some(PanelTab::Vpn)
    } else {
        None
    }
}

/// The tab highlighted for a page name (see [`tab_for`]).
pub fn tab_of(page: &str) -> (t: Option<PanelTab>)
    ensures
        t == tab_for(page@),
{
    if str_eq(page, "wifi") || str_eq(page, "saved") {
        Some(PanelTab::Wifi)
    } else if str_eq(page, "bluetooth") {
        Some(PanelTab::Bluetooth)
    } else if str_eq(page, "vpn") {
        Some(PanelTab::Vpn)
    } else {
        None
    }
}

/// The label of the power switch on a tab; the VPN tab has no switch.
pub open spec fn power_label_for(t: PanelTab) -> Option<Seq<char>> {
    match t {
        PanelTab::Wifi => Some("WiFi"@),
        PanelTab::Bluetooth => Some("Bluetooth"@),
        PanelTab::Vpn => None,
    }
}

/// The label of the power switch on a tab, `None` where it is hidden (see
/// [`power_label_for`]).
pub fn power_switch_label(t: PanelTab) -> (s: Option<String>)
    ensures
        crate::scan::opt_text(s) == power_label_for(t),
{
    match t {
        PanelTab::Wifi => Some(owned("WiFi")),
        PanelTab::Bluetooth => Some(owned("Bluetooth")),
        PanelTab::Vpn => None,
    }
}

/// Whether the wired-connections button is shown on a tab: only on Wi-Fi.
pub fn wired_button_visible(t: PanelTab) -> (b: bool)
    ensures
        b == (t == PanelTab::Wifi),
{
    match t {
        PanelTab::Wifi => true,
        _ => false,
    }
}

} // verus!
