//! The command line: how the program starts, what a client asks of the
//! running panel and what it prints about the answer, and the two listings it
//! prints itself.

use vstd::prelude::*;
use crate::scan::{AccessPoint, AccessPointView, SecurityType, views};
use crate::text::{owned, push_str, push_decimal, decimal, push_char, chars_of};
use crate::theme::{hex2, push_hex2};

verus! {

/// A request to the running panel.
pub enum DaemonCommand {
    Show,
    Hide,
    /// Show or hide; when showing, first move to the position and open the
    /// tab given.
    Toggle(Option<String>, Option<String>),
    ReloadTheme,
    ReloadConfig,
    Quit,
}

/// The subcommands of the program.
pub enum CliCommand {
    /// Print the visible Wi-Fi networks.
    List,
    /// Run the panel in the background.
    Daemon,
    /// Show or hide the running panel.
    Toggle { position: Option<String>, tab: Option<String> },
    Show,
    Hide,
    ReloadTheme,
    ReloadConfig,
    /// Print the status line for Waybar.
    WaybarStatus,
}

// ---------------------------------------------------------------------------
// Starting
// ---------------------------------------------------------------------------

/// How the panel process starts.
#[derive(Clone, Copy, Debug, PartialEq, Eq, Structural)]
pub struct StartMode {
    /// Whether it serves requests from clients.
    pub daemon: bool,
    /// Whether the window is shown at once.
    pub show_window: bool,
}

/// The panel started without a subcommand: an ordinary window, shown at
/// once, that serves no clients.
pub fn run_gui() -> (m: StartMode)
    ensures
        m == (StartMode { daemon: false, show_window: true }),
{
    StartMode { daemon: false, show_window: true }
}

/// The panel started as a daemon: refused when one already runs; otherwise a
/// hidden window that serves clients.
pub fn run_daemon(already_running: bool) -> (r: Result<StartMode, String>)
    ensures
        match r {
            Ok(m) => !already_running && m == (StartMode { daemon: true, show_window: false }),
            Err(msg) => already_running && msg@ == "Daemon is already running"@,
        },
{
    if already_running {
        Err(owned("Daemon is already running"))
    } else {
        Ok(StartMode { daemon: true, show_window: false })
    }
}

// ---------------------------------------------------------------------------
// Client requests
// ---------------------------------------------------------------------------

/// The client subcommands that talk to the running panel.
#[derive(Clone, Copy, Debug, PartialEq, Eq, Structural)]
pub enum ClientKind {
    Toggle,
    Show,
    Hide,
    ReloadTheme,
    ReloadConfig,
}

/// What a client does before it sends anything.
pub enum ClientStep {
    /// Send the request.
    Send(DaemonCommand),
    /// Print this line and stop without error.
    Skip(String),
    /// Print this line as an error and fail.
    Fail(String),
}

/// The line a client prints, without sending, when no panel runs.
pub open spec fn not_running_text(k: ClientKind) -> Seq<char> {
    match k {
        ClientKind::Toggle => "Daemon is not running. Start it with: orbit daemon"@,
        ClientKind::Show => "Daemon not running, nothing to show."@,
        ClientKind::Hide => "Daemon not running, nothing to hide."@,
        ClientKind::ReloadTheme => "Daemon not running, nothing to reload."@,
        ClientKind::ReloadConfig => "Daemon not running, nothing to reload."@,
    }
}

/// What a client does before it sends anything: with no panel running, a
/// toggle fails and the other requests are skipped with a note; otherwise the
/// request is sent (a toggle carries its position and tab).
pub fn client_step(
    k: ClientKind,
    position: Option<String>,
    tab: Option<String>,
    daemon_running: bool,
) -> (s: ClientStep)
    ensures
        match s {
            ClientStep::Send(c) => daemon_running && match k {
                ClientKind::Toggle => c == DaemonCommand::Toggle(position, tab),
                ClientKind::Show => c is Show,
                ClientKind::Hide => c is Hide,
                ClientKind::ReloadTheme => c is ReloadTheme,
                ClientKind::ReloadConfig => c is ReloadConfig,
            },
            ClientStep::Skip(msg) => !daemon_running && k != ClientKind::Toggle && msg@
                == not_running_text(k),
            ClientStep::Fail(msg) => !daemon_running && k == ClientKind::Toggle && msg@
                == not_running_text(k),
        },
{
    if !daemon_running {
        return match k {
            ClientKind::Toggle => ClientStep::Fail(
                owned("Daemon is not running. Start it with: orbit daemon"),
            ),
            ClientKind::Show => ClientStep::Skip(owned("Daemon not running, nothing to show.")),
            ClientKind::Hide => ClientStep::Skip(owned("Daemon not running, nothing to hide.")),
            ClientKind::ReloadTheme => ClientStep::Skip(
                owned("Daemon not running, nothing to reload."),
            ),
            ClientKind::ReloadConfig => ClientStep::Skip(
                owned("Daemon not running, nothing to reload."),
            ),
        };
    }
    match k {
        ClientKind::Toggle => ClientStep::Send(DaemonCommand::Toggle(position, tab)),
        ClientKind::Show => ClientStep::Send(DaemonCommand::Show),
        ClientKind::Hide => ClientStep::Send(DaemonCommand::Hide),
        ClientKind::ReloadTheme => ClientStep::Send(DaemonCommand::ReloadTheme),
        ClientKind::ReloadConfig => ClientStep::Send(DaemonCommand::ReloadConfig),
    }
}

/// The line printed for the panel's answer.
pub open spec fn reply_text(k: ClientKind, reply: Seq<char>) -> Seq<char> {
    match k {
        ClientKind::Toggle => "Daemon response: "@ + reply,
        ClientKind::Show => "Show triggered: "@ + reply,
        ClientKind::Hide => "Hide triggered: "@ + reply,
        ClientKind::ReloadTheme => "Theme reload triggered: "@ + reply,
        ClientKind::ReloadConfig => "Config reload triggered: "@ + reply,
    }
}

/// The error line printed when the request could not be delivered.
pub open spec fn send_failure_text(k: ClientKind, err: Seq<char>) -> Seq<char> {
    match k {
        ClientKind::Toggle => "Failed to send command: "@ + err,
        ClientKind::Show => "Failed to show window: "@ + err,
        ClientKind::Hide => "Failed to hide window: "@ + err,
        ClientKind::ReloadTheme => "Failed to trigger theme reload: "@ + err,
        ClientKind::ReloadConfig => "Failed to trigger config reload: "@ + err,
    }
}

/// What the client prints once the request was sent: the answer on success
/// (`Ok`), the failure as an error (`Err`, after which it exits with failure).
pub fn client_outcome(k: ClientKind, reply: Result<String, String>) -> (r: Result<String, String>)
    ensures
        match reply {
            Ok(a) => r matches Ok(t) && t@ == reply_text(k, a@),
            Err(e) => r matches Err(t) && t@ == send_failure_text(k, e@),
        },
{
    match reply {
        Ok(a) => {
            let mut t = match k {
                ClientKind::Toggle => owned("Daemon response: "),
                ClientKind::Show => owned("Show triggered: "),
                ClientKind::Hide => owned("Hide triggered: "),
                ClientKind::ReloadTheme => owned("Theme reload triggered: "),
                ClientKind::ReloadConfig => owned("Config reload triggered: "),
            };
            push_str(&mut t, a.as_str());
            Ok(t)
        },
        Err(e) => {
            let mut t = match k {
                ClientKind::Toggle => owned("Failed to send command: "),
                ClientKind::Show => owned("Failed to show window: "),
                ClientKind::Hide => owned("Failed to hide window: "),
                ClientKind::ReloadTheme => owned("Failed to trigger theme reload: "),
                ClientKind::ReloadConfig => owned("Failed to trigger config reload: "),
            };
            push_str(&mut t, e.as_str());
            Err(t)
        },
    }
}

// ---------------------------------------------------------------------------
// Listings
// ---------------------------------------------------------------------------

/// The name of a security class in the listing.
pub open spec fn security_name(s: SecurityType) -> Seq<char> {
    match s {
        SecurityType::Open => "Open"@,
        SecurityType::WEP => "WEP"@,
        SecurityType::WPA => "WPA"@,
        SecurityType::WPA2 => "WPA2"@,
        SecurityType::WPA3 => "WPA3"@,
    }
}

/// The name of a security class in the listing (see [`security_name`]).
pub fn security_label(s: SecurityType) -> (t: String)
    ensures
        t@ == security_name(s),
{
    match s {
        SecurityType::Open => owned("Open"),
        SecurityType::WEP => owned("WEP"),
        SecurityType::WPA => owned("WPA"),
        SecurityType::WPA2 => owned("WPA2"),
        SecurityType::WPA3 => owned("WPA3"),
    }
}

/// The line of the listing for one network: name, signal, security, and a
/// mark on the connected one.
pub open spec fn list_line(a: AccessPointView) -> Seq<char> {
    "  "@ + a.ssid + " ("@ + decimal(a.signal_strength as nat) + "%) "@ + security_name(a.security)
        + if a.is_connected {
        " [Connected]"@
    } else {
        ""@
    }
}

/// The line of the listing for one network (see [`list_line`]).
pub fn network_list_line(a: &AccessPoint) -> (t: String)
    ensures
        t@ == list_line(a@),
{
    let mut t = owned("  ");
    push_str(&mut t, a.ssid.as_str());
    push_str(&mut t, " (");
    push_decimal(&mut t, a.signal_strength as u64);
    push_str(&mut t, "%) ");
    let sec = security_label(a.security);
    push_str(&mut t, sec.as_str());
    if a.is_connected {
        push_str(&mut t, " [Connected]");
    } else {
        push_str(&mut t, "");
    }
    t
}

/// The name of the first connected network of `s`, if any.
pub open spec fn first_connected(s: Seq<AccessPointView>) -> Option<Seq<char>>
    decreases s.len(),
{
    if s.len() == 0 {
        None
    } else if s[0].is_connected {
        Some(s[0].ssid)
    } else {
        first_connected(s.drop_first())
    }
}

/// The status Waybar shows: the first connected network, or "Disconnected"
/// when there is none or the networks could not be read.
pub open spec fn waybar_status_of(aps: Option<Seq<AccessPointView>>) -> Seq<char> {
    match aps {
        Some(s) => match first_connected(s) {
            Some(n) => n,
            None => "Disconnected"@,
        },
        None => "Disconnected"@,
    }
}

/// The name of the first connected network, if any (see
/// [`first_connected`]).
pub fn connected_network_name(v: &Vec<AccessPoint>) -> (r: Option<String>)
    ensures
        crate::scan::opt_text(r) == first_connected(views(v@)),
{
    let mut i: usize = 0;
    assert(views(v@).skip(0) =~= views(v@));
    while i < v.len()
        invariant
            i <= v.len(),
            first_connected(views(v@)) == first_connected(views(v@).skip(i as int)),
        decreases v.len() - i,
    {
        assert(views(v@).skip(i as int).drop_first() =~= views(v@).skip(i + 1));
        if v[i].is_connected {
            return Some(v[i].ssid.clone());
        }
        i = i + 1;
    }
    assert(views(v@).skip(i as int) =~= Seq::<AccessPointView>::empty());
    None
}

/// How one character is written inside a JSON string: quote, backslash and
/// the control characters below `0x20` escaped (the short forms `\b`, `\t`,
/// `\n`, `\f`, `\r` where they exist, `\u00xx` otherwise), every other
/// character as it is.
pub open spec fn json_char(c: char) -> Seq<char> {
    if c == '"' {
        "\\\""@
    } else if c == '\\' {
        "\\\\"@
    } else if c == '\n' {
        "\\n"@
    } else if c == '\r' {
        "\\r"@
    } else if c == '\t' {
        "\\t"@
    } else if c == '\u{8}' {
        "\\b"@
    } else if c == '\u{c}' {
        "\\f"@
    } else if (c as u32) < 0x20 {
        "\\u00"@ + hex2((c as u32) as u8)
    } else {
        seq![c]
    }
}

/// `s` written as the contents of a JSON string (see [`json_char`]).
pub open spec fn json_escaped(s: Seq<char>) -> Seq<char>
    decreases s.len(),
{
    if s.len() == 0 {
        Seq::empty()
    } else {
        json_escaped(s.drop_last()) + json_char(s.last())
    }
}

fn push_json_char(s: &mut String, c: char)
    ensures
        final(s)@ == old(s)@ + json_char(c),
{
    let code: u32 = c as u32;
    if c == '"' {
        push_str(s, "\\\"");
    } else if c == '\\' {
        push_str(s, "\\\\");
    } else if c == '\n' {
        push_str(s, "\\n");
    } else if c == '\r' {
        push_str(s, "\\r");
    } else if c == '\t' {
        push_str(s, "\\t");
    } else if c == '\u{8}' {
        push_str(s, "\\b");
    } else if c == '\u{c}' {
        push_str(s, "\\f");
    } else if code < 0x20 {
        push_str(s, "\\u00");
        push_hex2(s, code as u8);
        assert(final(s)@ =~= old(s)@ + json_char(c));
    } else {
        push_char(s, c);
        assert(final(s)@ =~= old(s)@ + json_char(c));
    }
}

/// `t` written as the contents of a JSON string (see [`json_escaped`]).
pub fn json_escape(t: &str) -> (r: String)
    ensures
        r@ == json_escaped(t@),
{
    let v = chars_of(t);
    let mut r = String::new();
    let mut i: usize = 0;
    while i < v.len()
        invariant
            i <= v.len(),
            v@ == t@,
            r@ == json_escaped(v@.take(i as int)),
        decreases v.len() - i,
    {
        assert(v@.take(i + 1).drop_last() =~= v@.take(i as int));
        push_json_char(&mut r, v[i]);
        i = i + 1;
    }
    assert(v@.take(v.len() as int) =~= v@);
    r
}

/// The status line printed for Waybar: one JSON object with a fixed icon
/// and, as tooltip, the status (see [`waybar_status_of`]) escaped as a JSON
/// string (see [`json_escaped`]).
pub fn waybar_status_json(aps: &Option<Vec<AccessPoint>>) -> (t: String)
    ensures
        t@ == "{\"text\": \"󱗿\", \"tooltip\": \""@ + json_escaped(
            waybar_status_of(
                match aps {
                    Some(v) => Some(views(v@)),
                    None => None,
                },
            ),
        ) + "\"}"@,
{
    let status = match aps {
        Some(v) => match connected_network_name(v) {
            Some(n) => n,
            None => owned("Disconnected"),
        },
        None => owned("Disconnected"),
    };
    let mut t = owned("{\"text\": \"󱗿\", \"tooltip\": \"");
    let escaped = json_escape(status.as_str());
    push_str(&mut t, escaped.as_str());
    push_str(&mut t, "\"}");
    t
}

} // verus!
