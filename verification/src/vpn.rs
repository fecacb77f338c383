//! VPN profiles: those stored by the network service and those of the
//! external VPN applications, and the commands that switch the latter.

use vstd::prelude::*;
use vstd::string::*;
use crate::network::{ConnectionSettings, ConnectionSettingsView, settings_views, text_views, list_contains};
use crate::text::{lossy_text, utf8_lossy, lowercase, to_lowercase, contains_seq, str_contains, is_prefix_of, str_starts_with, owned, chars_of, string_from_chars};

verus! {

/// One VPN profile as listed in the VPN view.
#[derive(Clone, Debug)]
pub struct VpnProfile {
    pub name: String,
    pub vpn_type: String,
    pub path: String,
    pub is_active: bool,
    pub is_external: bool,
}

/// The mathematical value of a [`VpnProfile`].
pub struct VpnProfileView {
    pub name: Seq<char>,
    pub vpn_type: Seq<char>,
    pub path: Seq<char>,
    pub is_active: bool,
    pub is_external: bool,
}

impl View for VpnProfile {
    type V = VpnProfileView;

    open spec fn view(&self) -> VpnProfileView {
        VpnProfileView {
            name: self.name@,
            vpn_type: self.vpn_type@,
            path: self.path@,
            is_active: self.is_active,
            is_external: self.is_external,
        }
    }
}

/// The views of a list of VPN profiles.
pub open spec fn vpn_views(s: Seq<VpnProfile>) -> Seq<VpnProfileView> {
    s.map_values(|p: VpnProfile| p@)
}

/// Connection types that count as VPNs.
pub open spec fn is_vpn_type(t: Seq<char>) -> bool {
    t == "vpn"@ || t == "wireguard"@ || t == "tun"@ || t == "ppp"@
}

/// Whether `t` is a VPN connection type (see [`is_vpn_type`]).
pub fn vpn_type_check(t: &str) -> (r: bool)
    ensures
        r == is_vpn_type(t@),
{
    crate::text::str_eq(t, "vpn") || crate::text::str_eq(t, "wireguard") || crate::text::str_eq(t, "tun")
        || crate::text::str_eq(t, "ppp")
}

/// The VPN entry of a stored profile: profiles of a VPN type, named by their
/// id (or "Unknown VPN"), active when some active connection uses them.
pub open spec fn vpn_entry(c: ConnectionSettingsView, active_targets: Seq<Seq<char>>) -> Option<VpnProfileView> {
    match c.conn_type {
        Some(t) => if is_vpn_type(t) {
            Some(VpnProfileView {
                name: match c.id { Some(n) => n, None => "Unknown VPN"@ },
                vpn_type: t,
                path: c.path,
                is_active: active_targets.contains(c.path),
                is_external: false,
            })
        } else {
            None
        },
        None => None,
    }
}

/// The VPN entries of a list of stored profiles, in order.
pub open spec fn vpn_entries(cs: Seq<ConnectionSettingsView>, active_targets: Seq<Seq<char>>) -> Seq<VpnProfileView>
    decreases cs.len(),
{
    if cs.len() == 0 {
        Seq::empty()
    } else {
        let front = vpn_entries(cs.drop_last(), active_targets);
        match vpn_entry(cs.last(), active_targets) {
            Some(e) => front.push(e),
            None => front,
        }
    }
}

/// The VPN entry of one stored profile (see [`vpn_entry`]).
pub fn vpn_entry_of(c: &ConnectionSettings, active_targets: &Vec<String>) -> (r: Option<VpnProfile>)
    ensures
        match r {
            Some(p) => vpn_entry(c@, text_views(active_targets@)) == Some(p@),
            None => vpn_entry(c@, text_views(active_targets@)) is None,
        },
{
    match &c.conn_type {
        Some(t) => {
            if !vpn_type_check(t.as_str()) {
                return None;
            }
            Some(VpnProfile {
                name: match &c.id {
                    Some(n) => n.clone(),
                    None => owned("Unknown VPN"),
                },
                vpn_type: t.clone(),
                path: c.path.clone(),
                is_active: list_contains(active_targets, &c.path),
                is_external: false,
            })
        },
        None => None,
    }
}

/// The VPN profiles among the stored profiles (see [`vpn_entry`]), in
/// their order; `active_targets` are the profiles used by the active
/// connections.
pub fn stored_vpn_profiles(conns: &Vec<ConnectionSettings>, active_targets: &Vec<String>) -> (o: Vec<VpnProfile>)
    ensures
        vpn_views(o@) == vpn_entries(settings_views(conns@), text_views(active_targets@)),
{
    let ghost act = text_views(active_targets@);
    let mut out: Vec<VpnProfile> = Vec::new();
    let mut i: usize = 0;
    while i < conns.len()
        invariant
            i <= conns.len(),
            act == text_views(active_targets@),
            vpn_views(out@) == vpn_entries(settings_views(conns@).take(i as int), act),
        decreases conns.len() - i,
    {
        let ghost before = vpn_views(out@);
        let e = vpn_entry_of(&conns[i], active_targets);
        proof {
            let t = settings_views(conns@).take(i + 1);
            assert(t.drop_last() =~= settings_views(conns@).take(i as int));
            assert(t.last() == conns@[i as int]@);
        }
        match e {
            Some(p) => {
                out.push(p);
                assert(vpn_views(out@) =~= before.push(out@.last()@));
            },
            None => {},
        }
        i = i + 1;
    }
    assert(settings_views(conns@).take(conns.len() as int) =~= settings_views(conns@));
    out
}

// ---------------------------------------------------------------------------
// External VPN applications
// ---------------------------------------------------------------------------

/// The outcome of running a status command.
pub enum ToolRun {
    /// The command could not be started.
    Failed,
    /// The command ran; its standard output and whether it exited successfully.
    Ran { stdout: Vec<u8>, success: bool },
}

/// The external VPN applications the panel knows.
#[derive(Clone, Copy, Debug, PartialEq, Eq, Structural)]
pub enum ExternalVpn {
    Riseup,
    Tailscale,
    Mullvad,
}

/// The profile path that stands for an external application.
pub open spec fn external_path(app: ExternalVpn) -> Seq<char> {
    match app {
        ExternalVpn::Riseup => "external:riseup"@,
        ExternalVpn::Tailscale => "external:tailscale"@,
        ExternalVpn::Mullvad => "external:mullvad"@,
    }
}

/// The Riseup profile: active when its tunnel interface is up.
pub open spec fn riseup_view(tunnel_up: bool) -> VpnProfileView {
    VpnProfileView {
        name: "Riseup VPN"@,
        vpn_type: if tunnel_up { "Secure Tunnel"@ } else { "App Open / Connecting"@ },
        path: external_path(ExternalVpn::Riseup),
        is_active: tunnel_up,
        is_external: true,
    }
}

/// Whether Tailscale's status output says it runs: the command ran,
/// succeeded, and did not report that Tailscale is stopped.
pub open spec fn tailscale_running(stdout: Seq<u8>, success: bool) -> bool {
    !contains_seq(lossy_text(stdout), "Tailscale is stopped"@) && success
}

/// The Tailscale profile.
pub open spec fn tailscale_view(active: bool) -> VpnProfileView {
    VpnProfileView {
        name: "Tailscale"@,
        vpn_type: "Mesh VPN"@,
        path: external_path(ExternalVpn::Tailscale),
        is_active: active,
        is_external: true,
    }
}

/// Whether Mullvad's status output says it is connected (case-insensitive).
pub open spec fn mullvad_connected(stdout: Seq<u8>) -> bool {
    contains_seq(lowercase(lossy_text(stdout)), "connected"@)
}

/// The Mullvad profile.
pub open spec fn mullvad_view(active: bool) -> VpnProfileView {
    VpnProfileView {
        name: "Mullvad VPN"@,
        vpn_type: "WireGuard/OpenVPN"@,
        path: external_path(ExternalVpn::Mullvad),
        is_active: active,
        is_external: true,
    }
}

/// The Riseup profile for the outcome of checking its tunnel interface.
pub fn riseup_profile(tunnel_check: &ToolRun) -> (p: VpnProfile)
    ensures
        p@ == riseup_view(match tunnel_check { ToolRun::Ran { success, .. } => *success, ToolRun::Failed => false }),
{
    let up = match tunnel_check {
        ToolRun::Ran { success, .. } => *success,
        ToolRun::Failed => false,
    };
    VpnProfile {
        name: owned("Riseup VPN"),
        vpn_type: if up { owned("Secure Tunnel") } else { owned("App Open / Connecting") },
        path: owned("external:riseup"),
        is_active: up,
        is_external: true,
    }
}

/// The Tailscale profile for the outcome of `tailscale status`.
pub fn tailscale_profile(status: &ToolRun) -> (p: VpnProfile)
    ensures
        p@ == tailscale_view(match status { ToolRun::Ran { stdout, success } => tailscale_running(stdout@, *success), ToolRun::Failed => false }),
{
    let active = match status {
        ToolRun::Ran { stdout, success } => {
            let s = utf8_lossy(stdout.as_slice());
            !str_contains(s.as_str(), "Tailscale is stopped") && *success
        },
        ToolRun::Failed => false,
    };
    VpnProfile {
        name: owned("Tailscale"),
        vpn_type: owned("Mesh VPN"),
        path: owned("external:tailscale"),
        is_active: active,
        is_external: true,
    }
}

/// The Mullvad profile for the outcome of `mullvad status`.
pub fn mullvad_profile(status: &ToolRun) -> (p: VpnProfile)
    ensures
        p@ == mullvad_view(match status { ToolRun::Ran { stdout, .. } => mullvad_connected(stdout@), ToolRun::Failed => false }),
{
    let active = match status {
        ToolRun::Ran { stdout, .. } => {
            let s = utf8_lossy(stdout.as_slice());
            let l = to_lowercase(s.as_str());
            str_contains(l.as_str(), "connected")
        },
        ToolRun::Failed => false,
    };
    VpnProfile {
        name: owned("Mullvad VPN"),
        vpn_type: owned("WireGuard/OpenVPN"),
        path: owned("external:mullvad"),
        is_active: active,
        is_external: true,
    }
}

/// What is known of the external applications: for each one installed, the
/// outcome of its status check.
pub struct ExternalVpnState {
    pub riseup: Option<ToolRun>,
    pub tailscale: Option<ToolRun>,
    pub mullvad: Option<ToolRun>,
}

/// The profiles of the installed external applications: Riseup, Tailscale,
/// Mullvad, in this order.
pub open spec fn external_views(st: ExternalVpnState) -> Seq<VpnProfileView> {
    let r = match st.riseup {
        Some(t) => seq![riseup_view(match t { ToolRun::Ran { success, .. } => success, ToolRun::Failed => false })],
        None => Seq::empty(),
    };
    let t = match st.tailscale {
        Some(t) => seq![tailscale_view(match t { ToolRun::Ran { stdout, success } => tailscale_running(stdout@, success), ToolRun::Failed => false })],
        None => Seq::empty(),
    };
    let m = match st.mullvad {
        Some(t) => seq![mullvad_view(match t { ToolRun::Ran { stdout, .. } => mullvad_connected(stdout@), ToolRun::Failed => false })],
        None => Seq::empty(),
    };
    r + t + m
}

/// The full VPN list: the stored VPN profiles followed by the profiles of
/// the installed external applications.
pub fn vpn_profiles(conns: &Vec<ConnectionSettings>, active_targets: &Vec<String>, external: &ExternalVpnState) -> (o: Vec<VpnProfile>)
    ensures
        vpn_views(o@) == vpn_entries(settings_views(conns@), text_views(active_targets@)) + external_views(*external),
{
    let mut out = stored_vpn_profiles(conns, active_targets);
    let ghost stored = vpn_views(out@);
    let ghost mut ext: Seq<VpnProfileView> = Seq::empty();
    match &external.riseup {
        Some(t) => {
            out.push(riseup_profile(t));
            proof { ext = ext.push(out@.last()@); }
        },
        None => {},
    }
    let ghost after_r = ext;
    match &external.tailscale {
        Some(t) => {
            out.push(tailscale_profile(t));
            proof { ext = ext.push(out@.last()@); }
        },
        None => {},
    }
    let ghost after_t = ext;
    match &external.mullvad {
        Some(t) => {
            out.push(mullvad_profile(t));
            proof { ext = ext.push(out@.last()@); }
        },
        None => {},
    }
    proof {
        assert(vpn_views(out@) =~= stored + ext);
        assert(ext =~= external_views(*external));
    }
    out
}

// ---------------------------------------------------------------------------
// Switching a profile
// ---------------------------------------------------------------------------

/// A command to run: program, arguments, and whether to wait for it.
pub struct Command {
    pub program: String,
    pub args: Vec<String>,
    pub wait: bool,
}

/// The mathematical value of a [`Command`].
pub struct CommandView {
    pub program: Seq<char>,
    pub args: Seq<Seq<char>>,
    pub wait: bool,
}

impl View for Command {
    type V = CommandView;

    open spec fn view(&self) -> CommandView {
        CommandView { program: self.program@, args: text_views(self.args@), wait: self.wait }
    }
}

/// What switching a VPN profile on or off amounts to.
pub enum VpnSwitch {
    /// Activate or deactivate the stored profile through the network service.
    Managed,
    /// Run a command of an external application.
    Run(Command),
    /// An external path that names no known application: nothing to do.
    Nothing,
}

/// The external application a profile path names, if it has the
/// `external:` prefix and a known name after it.
pub open spec fn external_app_of(path: Seq<char>) -> Option<ExternalVpn> {
    let name = path.skip(9);
    if name == "riseup"@ {
        Some(ExternalVpn::Riseup)
    } else if name == "tailscale"@ {
        Some(ExternalVpn::Tailscale)
    } else if name == "mullvad"@ {
        Some(ExternalVpn::Mullvad)
    } else {
        None
    }
}

/// The command that switches an external application on (`on`) or off.
pub open spec fn external_command(app: ExternalVpn, on: bool) -> CommandView {
    match app {
        ExternalVpn::Riseup => if on {
            CommandView { program: "sh"@, args: seq!["-c"@, "nohup riseup-vpn -n -w --start-vpn on >/dev/null 2>&1 &"@], wait: false }
        } else {
            CommandView { program: "sh"@, args: seq!["-c"@, "pkill riseup-vpn; sleep 1; pkexec /usr/sbin/bitmask-root firewall stop"@], wait: true }
        },
        ExternalVpn::Tailscale => CommandView { program: "tailscale"@, args: seq![if on { "up"@ } else { "down"@ }], wait: true },
        ExternalVpn::Mullvad => CommandView { program: "mullvad"@, args: seq![if on { "connect"@ } else { "disconnect"@ }], wait: true },
    }
}

/// What switching the profile at `path` on (`on`) or off amounts to: paths
/// with the `external:` prefix are external applications, all others stored
/// profiles.
pub open spec fn vpn_switch_spec(path: Seq<char>, on: bool) -> Option<Option<CommandView>> {
    if is_prefix_of("external:"@, path) {
        match external_app_of(path) {
            Some(app) => Some(Some(external_command(app, on))),
            None => Some(None),
        }
    } else {
        None
    }
}

fn cmd(program: &str, a: &str, b: Option<&str>, wait: bool) -> (c: Command)
    ensures
        c@ == (CommandView {
            program: program@,
            args: match b { Some(b) => seq![a@, b@], None => seq![a@] },
            wait: wait,
        }),
{
    let mut args: Vec<String> = Vec::new();
    args.push(owned(a));
    match b {
        Some(b) => args.push(owned(b)),
        None => {},
    }
    let c = Command { program: owned(program), args: args, wait: wait };
    assert(c@.args =~= match b { Some(b) => seq![a@, b@], None => seq![a@] });
    c
}

/// What switching the profile at `path` on (`on`) or off amounts to (see
/// [`vpn_switch_spec`]).
pub fn vpn_switch(path: &str, on: bool) -> (r: VpnSwitch)
    ensures
        match r {
            VpnSwitch::Managed => vpn_switch_spec(path@, on) is None,
            VpnSwitch::Nothing => vpn_switch_spec(path@, on) == Some(None::<CommandView>),
            VpnSwitch::Run(c) => vpn_switch_spec(path@, on) == Some(Some(c@)),
        },
{
    if !str_starts_with(path, "external:") {
        return VpnSwitch::Managed;
    }
    proof {
        reveal_strlit("external:");
    }
    let v = chars_of(path);
    let name_chars = crate::text::skip_chars(v.as_slice(), 9);
    let name = string_from_chars(name_chars.as_slice());
    let n = name.as_str();
    if crate::text::str_eq(n, "riseup") {
        if on {
            VpnSwitch::Run(cmd("sh", "-c", Some("nohup riseup-vpn -n -w --start-vpn on >/dev/null 2>&1 &"), false))
        } else {
            VpnSwitch::Run(cmd("sh", "-c", Some("pkill riseup-vpn; sleep 1; pkexec /usr/sbin/bitmask-root firewall stop"), true))
        }
    } else if crate::text::str_eq(n, "tailscale") {
        VpnSwitch::Run(cmd("tailscale", if on { "up" } else { "down" }, None, true))
    } else if crate::text::str_eq(n, "mullvad") {
        VpnSwitch::Run(cmd("mullvad", if on { "connect" } else { "disconnect" }, None, true))
    } else {
        VpnSwitch::Nothing
    }
}

/// An external application's profile is switched through that application:
/// its path has the external prefix and names it again.
pub proof fn lemma_external_profile_routes_back(app: ExternalVpn, on: bool)
    ensures
        vpn_switch_spec(external_path(app), on) == Some(Some(external_command(app, on))),
{
    reveal_strlit("external:riseup");
    reveal_strlit("external:tailscale");
    reveal_strlit("external:mullvad");
    reveal_strlit("external:");
    reveal_strlit("riseup");
    reveal_strlit("tailscale");
    reveal_strlit("mullvad");
    let p = external_path(app);
    assert(p.subrange(0, 9) =~= "external:"@);
    match app {
        ExternalVpn::Riseup => { assert(p.skip(9) =~= "riseup"@); }
        ExternalVpn::Tailscale => {
            assert(p.skip(9) =~= "tailscale"@);
            assert(p.skip(9) != "riseup"@) by { assert(p.skip(9).len() != "riseup"@.len()); }
        }
        ExternalVpn::Mullvad => {
            assert(p.skip(9) =~= "mullvad"@);
            assert(p.skip(9) != "riseup"@) by { assert(p.skip(9).len() != "riseup"@.len()); }
            assert(p.skip(9) != "tailscale"@) by { assert(p.skip(9).len() != "tailscale"@.len()); }
        }
    }
}

/// The command that brings each external application's VPN up: Riseup's
/// client started in the background, `tailscale up`, `mullvad connect`.
pub open spec fn bring_up_command(app: ExternalVpn) -> CommandView {
    match app {
        ExternalVpn::Riseup => CommandView {
            program: "sh"@,
            args: seq!["-c"@, "nohup riseup-vpn -n -w --start-vpn on >/dev/null 2>&1 &"@],
            wait: false,
        },
        ExternalVpn::Tailscale => CommandView { program: "tailscale"@, args: seq!["up"@], wait: true },
        ExternalVpn::Mullvad => CommandView { program: "mullvad"@, args: seq!["connect"@], wait: true },
    }
}

/// The command that brings each external application's VPN down: Riseup's
/// client stopped and its firewall lifted, `tailscale down`,
/// `mullvad disconnect`.
pub open spec fn bring_down_command(app: ExternalVpn) -> CommandView {
    match app {
        ExternalVpn::Riseup => CommandView {
            program: "sh"@,
            args: seq!["-c"@, "pkill riseup-vpn; sleep 1; pkexec /usr/sbin/bitmask-root firewall stop"@],
            wait: true,
        },
        ExternalVpn::Tailscale => CommandView { program: "tailscale"@, args: seq!["down"@], wait: true },
        ExternalVpn::Mullvad => CommandView { program: "mullvad"@, args: seq!["disconnect"@], wait: true },
    }
}

/// Switching an external application's VPN row on runs the command that
/// brings that VPN up; switching it off runs the one that brings it down.
pub proof fn lemma_external_switch_direction(app: ExternalVpn, on: bool)
    ensures
        vpn_switch_spec(external_path(app), on) == Some(Some(
            if on {
                bring_up_command(app)
            } else {
                bring_down_command(app)
            },
        )),
{
    lemma_external_profile_routes_back(app, on);
}

// ---------------------------------------------------------------------------
// Rows of the VPN list
// ---------------------------------------------------------------------------

/// The icon of a VPN row: the Tailscale application has its own.
pub open spec fn vpn_icon_for(path: Seq<char>) -> Seq<char> {
    if path == "external:tailscale"@ {
        "network-wireless-encrypted-symbolic"@
    } else {
        "network-vpn-symbolic"@
    }
}

/// The icon of a VPN row (see [`vpn_icon_for`]).
pub fn vpn_icon_name(p: &VpnProfile) -> (s: String)
    ensures
        s@ == vpn_icon_for(p@.path),
{
    if crate::text::str_eq(p.path.as_str(), "external:riseup") {
        proof {
            reveal_strlit("external:riseup");
            reveal_strlit("external:tailscale");
            assert("external:riseup"@[9] != "external:tailscale"@[9]);
        }
        owned("network-vpn-symbolic")
    } else if crate::text::str_eq(p.path.as_str(), "external:tailscale") {
        owned("network-wireless-encrypted-symbolic")
    } else {
        owned("network-vpn-symbolic")
    }
}

/// The name shown for a VPN profile: an application's profile is marked.
pub open spec fn vpn_title(p: VpnProfileView) -> Seq<char> {
    if p.is_external {
        p.name + " (App)"@
    } else {
        p.name
    }
}

/// The name shown for a VPN profile (see [`vpn_title`]).
pub fn vpn_row_title(p: &VpnProfile) -> (s: String)
    ensures
        s@ == vpn_title(p@),
{
    let mut s = p.name.clone();
    if p.is_external {
        crate::text::push_str(&mut s, " (App)");
    }
    s
}

/// The status line of a VPN profile: "Connected", or its connection type.
pub open spec fn vpn_status(p: VpnProfileView) -> Seq<char> {
    if p.is_active {
        "Connected"@
    } else {
        p.vpn_type
    }
}

/// The status line of a VPN profile (see [`vpn_status`]).
pub fn vpn_row_status(p: &VpnProfile) -> (s: String)
    ensures
        s@ == vpn_status(p@),
{
    if p.is_active {
        owned("Connected")
    } else {
        p.vpn_type.clone()
    }
}

// ---------------------------------------------------------------------------
// Detecting the external applications
// ---------------------------------------------------------------------------

/// The program files whose presence means the application is installed.
pub open spec fn install_paths_of(app: ExternalVpn) -> Seq<Seq<char>> {
    match app {
        ExternalVpn::Riseup => seq!["/usr/bin/riseup-vpn"@, "/usr/local/bin/riseup-vpn"@],
        ExternalVpn::Tailscale => seq!["/usr/bin/tailscale"@, "/usr/local/bin/tailscale"@],
        ExternalVpn::Mullvad => seq!["/usr/bin/mullvad"@, "/usr/local/bin/mullvad"@],
    }
}

/// The program files whose presence means the application is installed (see
/// [`install_paths_of`]).
pub fn install_paths(app: ExternalVpn) -> (v: Vec<String>)
    ensures
        text_views(v@) == install_paths_of(app),
{
    let mut v: Vec<String> = Vec::new();
    match app {
        ExternalVpn::Riseup => {
            v.push(owned("/usr/bin/riseup-vpn"));
            v.push(owned("/usr/local/bin/riseup-vpn"));
        },
        ExternalVpn::Tailscale => {
            v.push(owned("/usr/bin/tailscale"));
            v.push(owned("/usr/local/bin/tailscale"));
        },
        ExternalVpn::Mullvad => {
            v.push(owned("/usr/bin/mullvad"));
            v.push(owned("/usr/local/bin/mullvad"));
        },
    }
    assert(text_views(v@) =~= install_paths_of(app));
    v
}

/// The command whose outcome tells the application's state: whether Riseup's
/// tunnel interface exists, and the status reports of the two others.
pub open spec fn status_command_of(app: ExternalVpn) -> CommandView {
    match app {
        ExternalVpn::Riseup => CommandView { program: "ip"@, args: seq!["addr"@, "show"@, "tun0"@], wait: true },
        ExternalVpn::Tailscale => CommandView { program: "tailscale"@, args: seq!["status"@], wait: true },
        ExternalVpn::Mullvad => CommandView { program: "mullvad"@, args: seq!["status"@], wait: true },
    }
}

/// The command whose outcome tells the application's state (see
/// [`status_command_of`]).
pub fn status_command(app: ExternalVpn) -> (c: Command)
    ensures
        c@ == status_command_of(app),
{
    let mut args: Vec<String> = Vec::new();
    let program = match app {
        ExternalVpn::Riseup => {
            args.push(owned("addr"));
            args.push(owned("show"));
            args.push(owned("tun0"));
            owned("ip")
        },
        ExternalVpn::Tailscale => {
            args.push(owned("status"));
            owned("tailscale")
        },
        ExternalVpn::Mullvad => {
            args.push(owned("status"));
            owned("mullvad")
        },
    };
    let c = Command { program, args, wait: true };
    assert(c@.args =~= status_command_of(app).args);
    c
}

} // verus!
