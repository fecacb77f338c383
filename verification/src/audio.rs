//! The audio sinks listed by `pactl list sinks`, and the parameters of the
//! commands that change them.

use vstd::prelude::*;
use vstd::string::*;
use crate::vpn::{Command, CommandView};
use crate::text::{
    chars_of, string_from_chars, trim, trim_chars, is_prefix_of, starts_with_chars, contains_seq,
    contains_chars, replace_all, replace_chars, first_index_of, find_char, after_first,
    after_first_chars, after_last, after_last_chars, last_word, last_word_chars, skip_chars, decimal, push_decimal, push_str, owned,
    str_eq,
};

verus! {

/// One sink as described by the listing. The volume is the number written
/// before the first `%` of the last `Volume:` line seen so far (`None` when
/// no such line was seen yet).
pub struct SinkRecord {
    pub id: String,
    pub name: String,
    pub volume_text: Option<String>,
    pub is_muted: bool,
}

/// The mathematical value of a [`SinkRecord`].
pub struct SinkView {
    pub id: Seq<char>,
    pub name: Seq<char>,
    pub volume_text: Option<Seq<char>>,
    pub is_muted: bool,
}

impl View for SinkRecord {
    type V = SinkView;

    open spec fn view(&self) -> SinkView {
        SinkView {
            id: self.id@,
            name: self.name@,
            volume_text: match self.volume_text { Some(v) => Some(v@), None => None },
            is_muted: self.is_muted,
        }
    }
}

/// The views of a list of sinks.
pub open spec fn sink_views(s: Seq<SinkRecord>) -> Seq<SinkView> {
    s.map_values(|r: SinkRecord| r@)
}

/// The lines of `s`: the pieces between newline characters. (A carriage
/// return before a newline stays on its line; every line is trimmed before it
/// is read, so this reads the same as `str::lines`.)
pub open spec fn lines_from(s: Seq<char>, cur: Seq<char>) -> Seq<Seq<char>>
    decreases s.len(),
{
    if s.len() == 0 {
        seq![cur]
    } else if s[0] == '\n' {
        seq![cur] + lines_from(s.drop_first(), Seq::empty())
    } else {
        lines_from(s.drop_first(), cur.push(s[0]))
    }
}

/// The state of the reader: the sinks finished so far and the one being read.
pub struct SinkParse {
    pub done: Seq<SinkView>,
    pub id: Seq<char>,
    pub name: Seq<char>,
    pub volume: Option<Seq<char>>,
    pub muted: bool,
}

/// The sinks finished, with the one being read added when it has an id.
pub open spec fn flushed(st: SinkParse) -> Seq<SinkView> {
    if st.id.len() > 0 {
        st.done.push(SinkView { id: st.id, name: st.name, volume_text: st.volume, is_muted: st.muted })
    } else {
        st.done
    }
}

/// A sink's name from its `Name:` value: the ALSA output prefix and the
/// analog-stereo suffix dropped, dashes turned to spaces.
pub open spec fn clean_sink_name(v: Seq<char>) -> Seq<char> {
    replace_all(replace_all(replace_all(v, "alsa_output."@, Seq::empty()), ".analog-stereo"@, Seq::empty()), "-"@, " "@)
}

/// The volume word of a `Volume:` line: the last word before the first `%`,
/// or `50` when there is none; `None` when the line has no `%`.
pub open spec fn volume_word(t: Seq<char>) -> Option<Seq<char>> {
    match first_index_of(t, '%') {
        Some(p) => Some(match last_word(t.take(p)) { Some(w) => w, None => "50"@ }),
        None => None,
    }
}

/// Reads one line: `Sink #` starts a new sink (finishing the previous one,
/// and keeping the volume and mute state read so far), `Name:` names it if it
/// has no name yet, `Description:` names it, `Volume:` and `Mute:` set its
/// volume and mute state; other lines change nothing.
pub open spec fn read_line(st: SinkParse, line: Seq<char>) -> SinkParse {
    let t = trim(line);
    if is_prefix_of("Sink #"@, t) {
        SinkParse { done: flushed(st), id: trim(after_last(t, '#')), name: Seq::empty(), ..st }
    } else if is_prefix_of("Name:"@, t) {
        if st.name.len() == 0 {
            SinkParse { name: clean_sink_name(trim(after_first(t, ':'))), ..st }
        } else {
            st
        }
    } else if is_prefix_of("Description:"@, t) {
        SinkParse { name: trim(after_first(t, ':')), ..st }
    } else if is_prefix_of("Volume:"@, t) {
        match volume_word(t) {
            Some(w) => SinkParse { volume: Some(w), ..st },
            None => st,
        }
    } else if is_prefix_of("Mute:"@, t) {
        SinkParse { muted: contains_seq(t, "yes"@), ..st }
    } else {
        st
    }
}

/// Reads lines in order.
pub open spec fn read_lines(st: SinkParse, lines: Seq<Seq<char>>) -> SinkParse
    decreases lines.len(),
{
    if lines.len() == 0 {
        st
    } else {
        read_lines(read_line(st, lines[0]), lines.drop_first())
    }
}

/// The reader before the first line.
pub open spec fn start_parse() -> SinkParse {
    SinkParse { done: Seq::empty(), id: Seq::empty(), name: Seq::empty(), volume: None, muted: false }
}

/// The sinks that a `pactl list sinks` listing describes, in order.
pub open spec fn sinks_of(listing: Seq<char>) -> Seq<SinkView> {
    flushed(read_lines(start_parse(), lines_from(listing, Seq::empty())))
}

proof fn lemma_read_lines_push(st: SinkParse, lines: Seq<Seq<char>>, l: Seq<char>)
    ensures
        read_lines(st, lines.push(l)) == read_line(read_lines(st, lines), l),
    decreases lines.len(),
{
    if lines.len() > 0 {
        assert(lines.push(l)[0] == lines[0]);
        assert(lines.push(l).drop_first() =~= lines.drop_first().push(l));
        lemma_read_lines_push(read_line(st, lines[0]), lines.drop_first(), l);
    } else {
        assert(lines.push(l)[0] == l);
        assert(lines.push(l).drop_first() =~= Seq::<Seq<char>>::empty());
        reveal_with_fuel(read_lines, 2);
    }
}

/// The exec state of the reader.
struct Reader {
    done: Vec<SinkRecord>,
    id: Vec<char>,
    name: Vec<char>,
    volume: Option<Vec<char>>,
    muted: bool,
}

spec fn reader_view(r: Reader) -> SinkParse {
    SinkParse {
        done: sink_views(r.done@),
        id: r.id@,
        name: r.name@,
        volume: match r.volume { Some(v) => Some(v@), None => None },
        muted: r.muted,
    }
}

fn flush(r: &mut Reader)
    ensures
        sink_views(final(r).done@) == flushed(reader_view(*old(r))),
        final(r).id@ == old(r).id@,
        final(r).name@ == old(r).name@,
        reader_view(*final(r)).volume == reader_view(*old(r)).volume,
        final(r).muted == old(r).muted,
{
    if r.id.len() > 0 {
        let rec = SinkRecord {
            id: string_from_chars(r.id.as_slice()),
            name: string_from_chars(r.name.as_slice()),
            volume_text: match &r.volume {
                Some(v) => Some(string_from_chars(v.as_slice())),
                None => None,
            },
            is_muted: r.muted,
        };
        let ghost before = sink_views(r.done@);
        r.done.push(rec);
        assert(sink_views(r.done@) =~= before.push(rec@));
    }
}

fn copy_chars(v: &[char]) -> (r: Vec<char>)
    ensures
        r@ == v@,
{
    let r = skip_chars(v, 0);
    assert(v@.skip(0) =~= v@);
    r
}

fn read_line_exec(r: &mut Reader, line: &[char])
    ensures
        reader_view(*final(r)) == read_line(reader_view(*old(r)), line@),
{
    let t = trim_chars(line);
    let t = t.as_slice();
    let sink = chars_of("Sink #");
    let name = chars_of("Name:");
    let desc = chars_of("Description:");
    let vol = chars_of("Volume:");
    let mute = chars_of("Mute:");
    if starts_with_chars(t, sink.as_slice()) {
        flush(r);
        let after = after_last_chars(t, '#');
        r.id = trim_chars(after.as_slice());
        r.name = Vec::new();
        assert(r.name@ =~= Seq::<char>::empty());
    } else if starts_with_chars(t, name.as_slice()) {
        if r.name.len() == 0 {
            let after = after_first_chars(t, ':');
            let v = trim_chars(after.as_slice());
            let a = chars_of("alsa_output.");
            let b = chars_of(".analog-stereo");
            let c = chars_of("-");
            let sp = chars_of(" ");
            let empty: Vec<char> = Vec::new();
            proof {
                reveal_strlit("alsa_output.");
                reveal_strlit(".analog-stereo");
                reveal_strlit("-");
            }
            assert(empty@ =~= Seq::<char>::empty());
            let v1 = replace_chars(v.as_slice(), a.as_slice(), empty.as_slice());
            let v2 = replace_chars(v1.as_slice(), b.as_slice(), empty.as_slice());
            let v3 = replace_chars(v2.as_slice(), c.as_slice(), sp.as_slice());
            r.name = v3;
        }
    } else if starts_with_chars(t, desc.as_slice()) {
        let after = after_first_chars(t, ':');
        r.name = trim_chars(after.as_slice());
    } else if starts_with_chars(t, vol.as_slice()) {
        match find_char(t, '%') {
            Some(p) => {
                let before = copy_chars(t);
                let mut head: Vec<char> = Vec::new();
                let mut k: usize = 0;
                while k < p
                    invariant
                        k <= p,
                        p < t.len(),
                        head@ == t@.subrange(0, k as int),
                    decreases p - k,
                {
                    head.push(t[k]);
                    k = k + 1;
                }
                assert(head@ =~= t@.take(p as int));
                let w = match last_word_chars(head.as_slice()) {
                    Some(w) => w,
                    None => chars_of("50"),
                };
                r.volume = Some(w);
            },
            None => {},
        }
    } else if starts_with_chars(t, mute.as_slice()) {
        let yes = chars_of("yes");
        r.muted = contains_chars(t, yes.as_slice());
    }
}

/// The sinks described by a `pactl list sinks` listing (see [`sinks_of`]).
pub fn parse_sinks(listing: &str) -> (o: Vec<SinkRecord>)
    ensures
        sink_views(o@) == sinks_of(listing@),
{
    let s = chars_of(listing);
    let mut r = Reader { done: Vec::new(), id: Vec::new(), name: Vec::new(), volume: None, muted: false };
    assert(reader_view(r) == start_parse()) by {
        assert(sink_views(r.done@) =~= Seq::<SinkView>::empty());
        assert(r.id@ =~= Seq::<char>::empty());
        assert(r.name@ =~= Seq::<char>::empty());
    }
    let mut cur: Vec<char> = Vec::new();
    let ghost mut seen: Seq<Seq<char>> = Seq::empty();
    let mut i: usize = 0;
    assert(s@.skip(0) =~= s@);
    assert(cur@ =~= Seq::<char>::empty());
    while i < s.len()
        invariant
            i <= s.len(),
            s@ == listing@,
            lines_from(s@, Seq::empty()) == seen + lines_from(s@.skip(i as int), cur@),
            reader_view(r) == read_lines(start_parse(), seen),
        decreases s.len() - i,
    {
        let ghost rest = s@.skip(i as int);
        assert(rest.drop_first() =~= s@.skip(i + 1));
        if s[i] == '\n' {
            proof {
                lemma_read_lines_push(start_parse(), seen, cur@);
                assert(seen + (seq![cur@] + lines_from(s@.skip(i + 1), Seq::empty())) =~= seen.push(cur@) + lines_from(s@.skip(i + 1), Seq::empty()));
                seen = seen.push(cur@);
            }
            read_line_exec(&mut r, cur.as_slice());
            cur = Vec::new();
            assert(cur@ =~= Seq::<char>::empty());
        } else {
            cur.push(s[i]);
        }
        i = i + 1;
    }
    proof {
        assert(s@.skip(s.len() as int) =~= Seq::<char>::empty());
        lemma_read_lines_push(start_parse(), seen, cur@);
        assert(lines_from(s@, Seq::empty()) =~= seen.push(cur@));
    }
    read_line_exec(&mut r, cur.as_slice());
    flush(&mut r);
    r.done
}

// ---------------------------------------------------------------------------
// Commands and the output selector
// ---------------------------------------------------------------------------

/// The `pactl` command that sets a sink's volume to `pct` percent.
pub open spec fn volume_command_of(sink: Seq<char>, pct: u32) -> CommandView {
    CommandView {
        program: "pactl"@,
        args: seq!["set-sink-volume"@, sink, decimal(pct as nat) + "%"@],
        wait: true,
    }
}

/// The `pactl` command that sets a sink's volume (see [`volume_command_of`]).
pub fn volume_command(sink: &str, pct: u32) -> (c: Command)
    ensures
        c@ == volume_command_of(sink@, pct),
{
    let mut level = String::new();
    push_decimal(&mut level, pct as u64);
    push_str(&mut level, "%");
    let mut args: Vec<String> = Vec::new();
    args.push(owned("set-sink-volume"));
    args.push(owned(sink));
    args.push(level);
    let c = Command { program: owned("pactl"), args, wait: true };
    assert(c@.args =~= volume_command_of(sink@, pct).args);
    c
}

/// The `pactl` command that mutes or unmutes a sink.
pub open spec fn mute_command_of(sink: Seq<char>, muted: bool) -> CommandView {
    CommandView {
        program: "pactl"@,
        args: seq!["set-sink-mute"@, sink, if muted { "1"@ } else { "0"@ }],
        wait: true,
    }
}

/// The `pactl` command that mutes or unmutes a sink (see
/// [`mute_command_of`]).
pub fn mute_command(sink: &str, muted: bool) -> (c: Command)
    ensures
        c@ == mute_command_of(sink@, muted),
{
    let mut args: Vec<String> = Vec::new();
    args.push(owned("set-sink-mute"));
    args.push(owned(sink));
    args.push(if muted { owned("1") } else { owned("0") });
    let c = Command { program: owned("pactl"), args, wait: true };
    assert(c@.args =~= mute_command_of(sink@, muted).args);
    c
}

/// The `pactl` command that makes a sink the default output.
pub open spec fn default_sink_command_of(sink: Seq<char>) -> CommandView {
    CommandView { program: "pactl"@, args: seq!["set-default-sink"@, sink], wait: true }
}

/// The `pactl` command that makes a sink the default output (see
/// [`default_sink_command_of`]).
pub fn default_sink_command(sink: &str) -> (c: Command)
    ensures
        c@ == default_sink_command_of(sink@),
{
    let mut args: Vec<String> = Vec::new();
    args.push(owned("set-default-sink"));
    args.push(owned(sink));
    let c = Command { program: owned("pactl"), args, wait: true };
    assert(c@.args =~= default_sink_command_of(sink@).args);
    c
}

/// The entry the output selector shows among outputs with ids `ids`: the
/// last one whose id is `active`, else the first; none when there are no
/// outputs.
pub fn selected_output(ids: &Vec<String>, active: &Option<String>) -> (r: Option<usize>)
    ensures
        match r {
            None => ids.len() == 0,
            Some(i) => {
                &&& i < ids.len()
                &&& match active {
                    Some(a) => if exists|k: int| 0 <= k < ids.len() && ids@[k]@ == a@ {
                        ids@[i as int]@ == a@ && forall|j: int| i < j < ids.len() ==> ids@[j]@ != a@
                    } else {
                        i == 0
                    },
                    None => i == 0,
                }
            },
        },
{
    if ids.len() == 0 {
        return None;
    }
    match active {
        None => Some(0),
        Some(a) => {
            let mut found: Option<usize> = None;
            let mut i: usize = 0;
            while i < ids.len()
                invariant
                    i <= ids.len(),
                    match found {
                        Some(f) => f < i && ids@[f as int]@ == a@ && forall|j: int| f < j < i ==> ids@[j]@ != a@,
                        None => forall|j: int| 0 <= j < i ==> ids@[j]@ != a@,
                    },
                decreases ids.len() - i,
            {
                if str_eq(ids[i].as_str(), a.as_str()) {
                    found = Some(i);
                }
                i = i + 1;
            }
            match found {
                Some(f) => Some(f),
                None => Some(0),
            }
        },
    }
}

/// The icon of the mute button.
pub open spec fn mute_icon_for(muted: bool) -> Seq<char> {
    if muted {
        "audio-volume-muted-symbolic"@
    } else {
        "audio-volume-high-symbolic"@
    }
}

/// The icon of the mute button (see [`mute_icon_for`]).
pub fn mute_icon_name(muted: bool) -> (s: String)
    ensures
        s@ == mute_icon_for(muted),
{
    if muted {
        owned("audio-volume-muted-symbolic")
    } else {
        owned("audio-volume-high-symbolic")
    }
}

} // verus!
