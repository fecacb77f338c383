//! The panel's dialogs: what the Escape and arrow keys do with the overlays
//! open, and what the pairing, password and hidden-network dialogs answer.

use vstd::prelude::*;
use crate::text::{chars_of, owned, decimal, digit_char};
use crate::messages::passkey_digits;

verus! {

// ---------------------------------------------------------------------------
// Keys
// ---------------------------------------------------------------------------

/// The overlays of the window that may be open.
#[derive(Clone, Copy, Debug, PartialEq, Eq, Structural)]
pub struct Overlays {
    pub details: bool,
    pub password: bool,
    pub hidden: bool,
    pub saved: bool,
    pub agent: bool,
    pub error: bool,
    pub wired: bool,
}

/// One overlay.
#[derive(Clone, Copy, Debug, PartialEq, Eq, Structural)]
pub enum Overlay {
    Details,
    Password,
    Hidden,
    Saved,
    /// The pairing dialog; closing it refuses a pending confirmation.
    Agent,
    Error,
    Wired,
}

/// The keys the window handles.
#[derive(Clone, Copy, Debug, PartialEq, Eq, Structural)]
pub enum PanelKey {
    Escape,
    Down,
    Tab,
    Up,
    BackTab,
    Other,
}

/// What a key press does.
#[derive(Clone, Copy, Debug, PartialEq, Eq, Structural)]
pub enum KeyResponse {
    /// Close this overlay.
    Close(Overlay),
    /// Hide the window.
    HideWindow,
    /// Move the focus to the next control.
    FocusNext,
    /// Move the focus to the previous control.
    FocusPrevious,
    /// Let the focused control handle the key.
    PassOn,
}

/// The overlay Escape closes: the first open one in the order details,
/// password, hidden network, saved networks, pairing, error, wired; none when
/// all are closed.
pub open spec fn escape_closes(o: Overlays) -> Option<Overlay> {
    if o.details {
        Some(Overlay::Details)
    } else if o.password {
        Some(Overlay::Password)
    } else if o.hidden {
        Some(Overlay::Hidden)
    } else if o.saved {
        Some(Overlay::Saved)
    } else if o.agent {
        Some(Overlay::Agent)
    } else if o.error {
        Some(Overlay::Error)
    } else if o.wired {
        Some(Overlay::Wired)
    } else {
        None
    }
}

/// What a key press does: Escape closes one overlay (see
/// [`escape_closes`]) or, with none open, hides the window; Down and Tab move
/// the focus forward, Up and Shift-Tab backward; other keys go on to the
/// focused control.
pub fn key_response(key: PanelKey, o: Overlays) -> (r: KeyResponse)
    ensures
        r == match key {
            PanelKey::Escape => match escape_closes(o) {
                Some(v) => KeyResponse::Close(v),
                None => KeyResponse::HideWindow,
            },
            PanelKey::Down | PanelKey::Tab => KeyResponse::FocusNext,
            PanelKey::Up | PanelKey::BackTab => KeyResponse::FocusPrevious,
            PanelKey::Other => KeyResponse::PassOn,
        },
{
    match key {
        PanelKey::Escape => {
            if o.details {
                KeyResponse::Close(Overlay::Details)
            } else if o.password {
                KeyResponse::Close(Overlay::Password)
            } else if o.hidden {
                KeyResponse::Close(Overlay::Hidden)
            } else if o.saved {
                KeyResponse::Close(Overlay::Saved)
            } else if o.agent {
                KeyResponse::Close(Overlay::Agent)
            } else if o.error {
                KeyResponse::Close(Overlay::Error)
            } else if o.wired {
                KeyResponse::Close(Overlay::Wired)
            } else {
                KeyResponse::HideWindow
            }
        },
        PanelKey::Down | PanelKey::Tab => KeyResponse::FocusNext,
        PanelKey::Up | PanelKey::BackTab => KeyResponse::FocusPrevious,
        PanelKey::Other => KeyResponse::PassOn,
    }
}

/// What Escape does in the search box of the Wi-Fi list, which sees the key
/// first while it has the focus.
#[derive(Clone, Copy, Debug, PartialEq, Eq, Structural)]
pub enum SearchEscape {
    /// Empty the search box and move the focus to the list.
    ClearSearch,
    /// Hide the window.
    HideWindow,
}

/// What Escape does in the search box holding `search`: a non-empty search
/// is cleared first; an empty one lets Escape hide the window.
pub fn search_escape(search: &str) -> (r: SearchEscape)
    ensures
        r == (if search@.len() > 0 {
            SearchEscape::ClearSearch
        } else {
            SearchEscape::HideWindow
        }),
{
    if search.unicode_len() > 0 {
        SearchEscape::ClearSearch
    } else {
        SearchEscape::HideWindow
    }
}

/// Escape only hides the window once every overlay is closed, and then it
/// closes nothing else.
pub proof fn lemma_escape_hides_only_when_clear(o: Overlays)
    ensures
        escape_closes(o) is None <==> !(o.details || o.password || o.hidden || o.saved || o.agent
            || o.error || o.wired),
        escape_closes(o) matches Some(v) ==> match v {
            Overlay::Details => o.details,
            Overlay::Password => o.password,
            Overlay::Hidden => o.hidden,
            Overlay::Saved => o.saved,
            Overlay::Agent => o.agent,
            Overlay::Error => o.error,
            Overlay::Wired => o.wired,
        },
{
}

// ---------------------------------------------------------------------------
// Pairing dialog
// ---------------------------------------------------------------------------

/// The decimal value of a string of ASCII digits.
pub open spec fn digits_value(s: Seq<char>) -> nat
    decreases s.len(),
{
    if s.len() == 0 {
        0
    } else {
        digits_value(s.drop_last()) * 10 + ((s.last() as nat) - ('0' as nat)) as nat
    }
}

/// Whether every character of `s` is an ASCII digit.
pub open spec fn all_digits(s: Seq<char>) -> bool {
    forall|i: int| 0 <= i < s.len() ==> '0' <= #[trigger] s[i] && s[i] <= '9'
}

/// The number `s` writes as `str::parse::<u32>` reads it: an optional `+`,
/// then at least one ASCII digit and nothing else, with a value that fits.
pub open spec fn u32_text(s: Seq<char>) -> Option<u32> {
    let body = if s.len() > 0 && s[0] == '+' {
        s.drop_first()
    } else {
        s
    };
    if body.len() > 0 && all_digits(body) && digits_value(body) <= u32::MAX {
        Some(digits_value(body) as u32)
    } else {
        None
    }
}

proof fn lemma_digits_value_grows(s: Seq<char>, i: int)
    requires
        all_digits(s),
        0 <= i <= s.len(),
    ensures
        digits_value(s.take(i)) <= digits_value(s),
    decreases s.len() - i,
{
    if i < s.len() {
        lemma_digits_value_grows(s, i + 1);
        assert(s.take(i + 1).drop_last() =~= s.take(i));
    } else {
        assert(s.take(i) =~= s);
    }
}

/// Reads a passkey as `str::parse::<u32>` does (see [`u32_text`]).
pub fn parse_passkey(text: &str) -> (r: Option<u32>)
    ensures
        r == u32_text(text@),
{
    let v = chars_of(text);
    let start: usize = if v.len() > 0 && v[0] == '+' {
        1
    } else {
        0
    };
    let ghost body = if text@.len() > 0 && text@[0] == '+' {
        text@.drop_first()
    } else {
        text@
    };
    assert(v@.skip(start as int) =~= body);
    if start >= v.len() {
        return None;
    }
    let mut acc: u64 = 0;
    let mut i: usize = start;
    while i < v.len()
        invariant
            start <= i <= v.len(),
            v@ == text@,
            v@.skip(start as int) == body,
            body == (if text@.len() > 0 && text@[0] == '+' {
                text@.drop_first()
            } else {
                text@
            }),
            all_digits(body.take(i - start)),
            acc == digits_value(body.take(i - start)),
            acc <= u32::MAX,
        decreases v.len() - i,
    {
        let c = v[i];
        assert(body[i - start] == c);
        if !('0' <= c && c <= '9') {
            assert(!all_digits(body));
            return None;
        }
        let d = (c as u32 - '0' as u32) as u64;
        assert(body.take(i - start + 1).drop_last() =~= body.take(i - start));
        acc = acc * 10 + d;
        i = i + 1;
        assert(all_digits(body.take(i - start)));
        if acc > 0xffff_ffff {
            proof {
                if all_digits(body) {
                    lemma_digits_value_grows(body, i - start);
                }
            }
            return None;
        }
    }
    assert(body.take(i - start) =~= body);
    Some(acc as u32)
}

proof fn lemma_digit_char_value(d: nat)
    requires
        d < 10,
    ensures
        '0' <= digit_char(d) && digit_char(d) <= '9',
        (digit_char(d) as nat) - ('0' as nat) == d,
{
    if d == 0 {
    } else if d == 1 {
    } else if d == 2 {
    } else if d == 3 {
    } else if d == 4 {
    } else if d == 5 {
    } else if d == 6 {
    } else if d == 7 {
    } else if d == 8 {
    } else {
        assert(d == 9);
    }
}

proof fn lemma_decimal_digits(n: nat)
    ensures
        all_digits(decimal(n)),
        decimal(n).len() > 0,
        digits_value(decimal(n)) == n,
    decreases n,
{
    let s = decimal(n);
    if n < 10 {
        lemma_digit_char_value(n);
        assert(s.drop_last() =~= Seq::<char>::empty());
        assert(digits_value(Seq::<char>::empty()) == 0);
        assert(s.last() == digit_char(n));
        assert(digits_value(s) == digits_value(s.drop_last()) * 10 + ((s.last() as nat) - ('0'
            as nat)) as nat);
    } else {
        lemma_digit_char_value(n % 10);
        lemma_decimal_digits(n / 10);
        let d = decimal(n / 10);
        assert(s == d.push(digit_char(n % 10)));
        assert(s.drop_last() =~= d);
        assert(s.last() == digit_char(n % 10));
        assert(digits_value(s) == digits_value(s.drop_last()) * 10 + ((s.last() as nat) - ('0'
            as nat)) as nat);
        assert(n == (n / 10) * 10 + n % 10);
    }
}

proof fn lemma_zeros_value(m: nat)
    ensures
        digits_value(Seq::new(m, |i: int| '0')) == 0,
        all_digits(Seq::new(m, |i: int| '0')),
    decreases m,
{
    if m > 0 {
        lemma_zeros_value((m - 1) as nat);
        assert(Seq::new(m, |i: int| '0').drop_last() =~= Seq::new((m - 1) as nat, |i: int| '0'));
    }
}

proof fn lemma_leading_zeros(m: nat, s: Seq<char>)
    ensures
        digits_value(Seq::new(m, |i: int| '0') + s) == digits_value(s),
    decreases s.len(),
{
    let z = Seq::new(m, |i: int| '0');
    if s.len() == 0 {
        assert(z + s =~= z);
        lemma_zeros_value(m);
    } else {
        lemma_leading_zeros(m, s.drop_last());
        assert((z + s).drop_last() =~= z + s.drop_last());
        assert((z + s).last() == s.last());
    }
}

/// A passkey shown to the user reads back, as the dialog reads typed
/// passkeys, as the same number.
pub proof fn lemma_passkey_round_trip(k: u32)
    ensures
        u32_text(passkey_digits(k)) == Some(k),
{
    let d = decimal(k as nat);
    lemma_decimal_digits(k as nat);
    let t = passkey_digits(k);
    if d.len() >= 6 {
        assert(t == d);
    } else {
        let m = (6 - d.len()) as nat;
        let z = Seq::new(m, |i: int| '0');
        assert(t == z + d);
        lemma_leading_zeros(m, d);
        lemma_zeros_value(m);
        assert forall|i: int| 0 <= i < t.len() implies '0' <= #[trigger] t[i] && t[i] <= '9' by {
            if i < m {
                assert(t[i] == z[i]);
            } else {
                assert(t[i] == d[i - m]);
            }
        }
    }
    assert(t[0] != '+');
}

/// The request the pairing dialog is answering.
#[derive(Clone, Copy, Debug, PartialEq, Eq, Structural)]
pub enum AgentRequest {
    Pin,
    Passkey,
    Confirm,
}

/// The answer the pairing dialog gives.
pub enum AgentReply {
    Pin(String),
    Passkey(u32),
    Confirmed(bool),
    /// No answer is sent (the request is dropped, or the passkey typed is
    /// not a number).
    Silent,
}

/// The answer when the dialog's confirm button is pressed with `text` typed:
/// the PIN as typed, the passkey when the text is a number, or a yes.
pub fn agent_confirm(req: AgentRequest, text: &str) -> (r: AgentReply)
    ensures
        match req {
            AgentRequest::Pin => r matches AgentReply::Pin(p) && p@ == text@,
            AgentRequest::Passkey => match u32_text(text@) {
                Some(k) => r matches AgentReply::Passkey(x) && x == k,
                None => r is Silent,
            },
            AgentRequest::Confirm => r matches AgentReply::Confirmed(b) && b,
        },
{
    match req {
        AgentRequest::Pin => AgentReply::Pin(owned(text)),
        AgentRequest::Passkey => match parse_passkey(text) {
            Some(k) => AgentReply::Passkey(k),
            None => AgentReply::Silent,
        },
        AgentRequest::Confirm => AgentReply::Confirmed(true),
    }
}

/// The answer when the dialog is cancelled or closed: a confirmation is
/// refused; a PIN or passkey request is dropped unanswered.
pub fn agent_cancel(req: AgentRequest) -> (r: AgentReply)
    ensures
        req == AgentRequest::Confirm ==> (r matches AgentReply::Confirmed(b) && !b),
        req != AgentRequest::Confirm ==> r is Silent,
{
    match req {
        AgentRequest::Confirm => AgentReply::Confirmed(false),
        _ => AgentReply::Silent,
    }
}

} // verus!
