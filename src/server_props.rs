//! The `server.properties` file of a server: `key=value` lines, with
//! comments and other lines kept as they are.

use crate::text::{trim_of, trim_str};
use vstd::prelude::*;
use vstd::string::StringExecFns;

verus! {

/// The lines of a text, as `str::lines` splits it.
pub uninterp spec fn lines_of(s: Seq<char>) -> Seq<Seq<char>>;

/// Relies on `str::lines`: the result depends on the text alone.
#[verifier::external_body]
fn split_lines(s: &str) -> (r: Vec<String>)
    ensures
        r@.map_values(|l: String| l@) == lines_of(s@),
{
    s.lines().map(|l| l.to_owned()).collect()
}

/// The index of the first `c` in `s`, if any.
pub open spec fn find_char(s: Seq<char>, c: char) -> Option<int>
    decreases s.len(),
{
    if s.len() == 0 {
        None
    } else if s[0] == c {
        Some(0)
    } else {
        match find_char(s.drop_first(), c) {
            Some(i) => Some(i + 1),
            None => None,
        }
    }
}

/// Relies on `str::split_once`: splits around the first `=`.
#[verifier::external_body]
fn split_at_equals(s: &str) -> (r: Option<(String, String)>)
    ensures
        match find_char(s@, '=') {
            None => r is None,
            Some(i) => r matches Some((a, b)) && a@ == s@.take(i) && b@ == s@.skip(i + 1),
        },
{
    s.split_once('=').map(|(a, b)| (a.to_owned(), b.to_owned()))
}

/// One line of the file.
#[derive(Debug)]
pub enum PropLine {
    /// A `key=value` line, with key and value trimmed.
    Entry { key: String, value: String },
    /// A comment, a blank line or a line without `=`, kept as it is.
    Other { text: String },
}

/// The meaning of a line, over character sequences.
pub enum LineView {
    Entry(Seq<char>, Seq<char>),
    Other(Seq<char>),
}

impl PropLine {
    pub open spec fn view(&self) -> LineView {
        match self {
            PropLine::Entry { key, value } => LineView::Entry(key@, value@),
            PropLine::Other { text } => LineView::Other(text@),
        }
    }
}

/// Whether a trimmed line is a comment.
pub open spec fn is_comment(t: Seq<char>) -> bool {
    t.len() > 0 && (t[0] == '#' || t[0] == '!')
}

/// What a line of the file means.
pub open spec fn parse_line_spec(line: Seq<char>) -> LineView {
    let t = trim_of(line);
    if t.len() == 0 || is_comment(t) {
        LineView::Other(line)
    } else {
        match find_char(line, '=') {
            Some(i) => LineView::Entry(trim_of(line.take(i)), trim_of(line.skip(i + 1))),
            None => LineView::Other(line),
        }
    }
}

/// The text of a line as it is written back.
pub open spec fn render_line(v: LineView) -> Seq<char> {
    match v {
        LineView::Entry(k, val) => k + seq!['='] + val,
        LineView::Other(t) => t,
    }
}

/// The text of a file: each line followed by a newline.
pub open spec fn render_lines(lines: Seq<LineView>) -> Seq<char>
    decreases lines.len(),
{
    if lines.len() == 0 {
        Seq::empty()
    } else {
        render_lines(lines.drop_last()) + render_line(lines.last()) + seq!['\n']
    }
}

/// Whether line `v` sets `key`.
pub open spec fn sets_key(v: LineView, key: Seq<char>) -> bool {
    v matches LineView::Entry(k, _) && k == key
}

/// The index of the first line that sets `key`.
pub open spec fn first_setting(lines: Seq<LineView>, key: Seq<char>) -> Option<int>
    decreases lines.len(),
{
    if lines.len() == 0 {
        None
    } else if sets_key(lines[0], key) {
        Some(0)
    } else {
        match first_setting(lines.drop_first(), key) {
            Some(i) => Some(i + 1),
            None => None,
        }
    }
}

proof fn lemma_first_setting(lines: Seq<LineView>, key: Seq<char>, i: int)
    requires
        0 <= i <= lines.len(),
        forall|j: int| 0 <= j < i ==> !sets_key(#[trigger] lines[j], key),
    ensures
        i < lines.len() && sets_key(lines[i], key) ==> first_setting(lines, key) == Some(i),
        i == lines.len() ==> first_setting(lines, key) is None,
    decreases i,
{
    if i > 0 {
        assert forall|j: int| 0 <= j < i - 1 implies !sets_key(#[trigger] lines.drop_first()[j], key) by {
            assert(lines.drop_first()[j] == lines[j + 1]);
        }
        lemma_first_setting(lines.drop_first(), key, i - 1);
    }
}

/// The lines of a `server.properties` file.
pub struct ServerProperties {
    pub lines: Vec<PropLine>,
}

impl ServerProperties {
    pub open spec fn view(&self) -> Seq<LineView> {
        self.lines@.map_values(|l: PropLine| l.view())
    }

    /// Reads the lines of a file's text.
    pub fn parse(text: &str) -> (r: ServerProperties)
        ensures
            r.view() == lines_of(text@).map_values(|l: Seq<char>| parse_line_spec(l)),
    {
        let raw = split_lines(text);
        let ghost want = lines_of(text@).map_values(|l: Seq<char>| parse_line_spec(l));
        let mut lines: Vec<PropLine> = Vec::new();
        let mut i: usize = 0;
        while i < raw.len()
            invariant
                i <= raw@.len(),
                raw@.map_values(|l: String| l@) == lines_of(text@),
                lines@.len() == i,
                forall|j: int| 0 <= j < i ==> (#[trigger] lines@[j]).view() == parse_line_spec(raw@[j]@),
            decreases raw@.len() - i,
        {
            assert(raw@.map_values(|l: String| l@)[i as int] == raw@[i as int]@);
            lines.push(parse_line(raw[i].as_str()));
            i = i + 1;
        }
        let r = ServerProperties { lines };
        assert(r.view() =~= want) by {
            assert forall|j: int| 0 <= j < want.len() implies r.view()[j] == want[j] by {
                assert(raw@.map_values(|l: String| l@)[j] == raw@[j]@);
            }
        }
        r
    }

    /// The value of the first line that sets `key`.
    pub fn get(&self, key: &str) -> (r: Option<String>)
        ensures
            match first_setting(self.view(), key@) {
                Some(i) => r matches Some(v) && self.view()[i] == LineView::Entry(key@, v@),
                None => r is None,
            },
    {
        let wanted = key.to_owned();
        let mut i: usize = 0;
        while i < self.lines.len()
            invariant
                i <= self.lines@.len(),
                wanted@ == key@,
                forall|j: int| 0 <= j < i ==> !sets_key(#[trigger] self.view()[j], key@),
            decreases self.lines@.len() - i,
        {
            if let PropLine::Entry { key: k, value } = &self.lines[i] {
                if *k == wanted {
                    proof {
                        lemma_first_setting(self.view(), key@, i as int);
                    }
                    return Some(value.clone());
                }
            }
            assert(!sets_key(self.view()[i as int], key@));
            i = i + 1;
        }
        proof {
            lemma_first_setting(self.view(), key@, i as int);
        }
        None
    }

    /// Sets `key` to `value`: in the first line that sets it, else in a new
    /// line at the end.
    pub fn set(&mut self, key: &str, value: String)
        ensures
            match first_setting(old(self).view(), key@) {
                Some(i) => final(self).view() == old(self).view().update(i, LineView::Entry(key@, value@)),
                None => final(self).view() == old(self).view().push(LineView::Entry(key@, value@)),
            },
    {
        let ghost before = self.view();
        let wanted = key.to_owned();
        let mut i: usize = 0;
        while i < self.lines.len()
            invariant
                i <= self.lines@.len(),
                wanted@ == key@,
                before == old(self).view(),
                self.view() == before,
                forall|j: int| 0 <= j < i ==> !sets_key(#[trigger] before[j], key@),
            decreases self.lines@.len() - i,
        {
            let found = match &self.lines[i] {
                PropLine::Entry { key: k, value: _ } => *k == wanted,
                PropLine::Other { text: _ } => false,
            };
            if found {
                proof {
                    lemma_first_setting(before, key@, i as int);
                }
                self.lines.set(i, PropLine::Entry { key: wanted, value });
                assert(self.view() =~= before.update(i as int, LineView::Entry(key@, value@)));
                return;
            }
            assert(!sets_key(before[i as int], key@));
            i = i + 1;
        }
        proof {
            lemma_first_setting(before, key@, i as int);
        }
        self.lines.push(PropLine::Entry { key: key.to_owned(), value });
        assert(self.view() =~= before.push(LineView::Entry(key@, value@)));
    }

    /// The text of the file, each line followed by a newline.
    pub fn render(&self) -> (r: String)
        ensures
            r@ == render_lines(self.view()),
    {
        let mut out = String::new();
        let mut i: usize = 0;
        while i < self.lines.len()
            invariant
                i <= self.lines@.len(),
                out@ == render_lines(self.view().take(i as int)),
            decreases self.lines@.len() - i,
        {
            let ghost prefix = self.view().take(i as int);
            match &self.lines[i] {
                PropLine::Entry { key, value } => {
                    out.append(key.as_str());
                    out.append("=");
                    out.append(value.as_str());
                },
                PropLine::Other { text } => {
                    out.append(text.as_str());
                },
            }
            out.append("\n");
            proof {
                reveal_strlit("=");
                reveal_strlit("\n");
                let next = self.view().take(i + 1);
                assert(next.drop_last() =~= prefix);
                assert(next.last() == self.view()[i as int]);
            }
            i = i + 1;
        }
        assert(self.view().take(i as int) =~= self.view());
        out
    }
}

/// Reads one line of the file.
pub fn parse_line(line: &str) -> (r: PropLine)
    ensures
        r.view() == parse_line_spec(line@),
{
    let t = trim_str(line);
    if t.is_empty() || t.get_char(0) == '#' || t.get_char(0) == '!' {
        return PropLine::Other { text: line.to_owned() };
    }
    match split_at_equals(line) {
        Some((k, v)) => {
            let key = trim_str(k.as_str()).to_owned();
            let value = trim_str(v.as_str()).to_owned();
            PropLine::Entry { key, value }
        },
        None => PropLine::Other { text: line.to_owned() },
    }
}


/// The value that the first line setting `key` gives it.
pub open spec fn lookup(lines: Seq<LineView>, key: Seq<char>) -> Option<Seq<char>> {
    match first_setting(lines, key) {
        Some(i) => match lines[i] {
            LineView::Entry(_, v) => Some(v),
            LineView::Other(_) => None,
        },
        None => None,
    }
}

proof fn lemma_first_setting_sets(lines: Seq<LineView>, key: Seq<char>)
    ensures
        first_setting(lines, key) matches Some(i) ==> 0 <= i < lines.len() && sets_key(lines[i], key),
    decreases lines.len(),
{
    if lines.len() > 0 && !sets_key(lines[0], key) {
        lemma_first_setting_sets(lines.drop_first(), key);
    }
}

impl ServerProperties {
    /// The value of `key`, looked up as `get` does.
    pub fn value_of(&self, key: &str) -> (r: Option<String>)
        ensures
            match lookup(self.view(), key@) {
                Some(v) => r matches Some(s) && s@ == v,
                None => r is None,
            },
    {
        proof {
            lemma_first_setting_sets(self.view(), key@);
        }
        self.get(key)
    }
}

/// Whether every character of `d` is an ASCII digit.
pub open spec fn all_digits(d: Seq<char>) -> bool {
    forall|i: int| 0 <= i < d.len() ==> '0' <= #[trigger] d[i] <= '9'
}

/// The number that a string of decimal digits writes.
pub open spec fn decimal_value(d: Seq<char>) -> int
    decreases d.len(),
{
    if d.len() == 0 {
        0
    } else {
        10 * decimal_value(d.drop_last()) + (d.last() as int - '0' as int)
    }
}

/// The `u16` that a text writes in decimal, with an optional leading `+`.
pub open spec fn u16_of_text(s: Seq<char>) -> Option<u16> {
    let d = if s.len() > 0 && s[0] == '+' { s.drop_first() } else { s };
    if d.len() > 0 && all_digits(d) && decimal_value(d) <= u16::MAX {
        Some(decimal_value(d) as u16)
    } else {
        None
    }
}

/// Relies on `str::parse::<u16>`: decimal digits after an optional `+`,
/// with a value that fits in 16 bits; anything else is an error.
#[verifier::external_body]
fn parse_u16(s: &str) -> (r: Option<u16>)
    ensures
        r == u16_of_text(s@),
{
    s.parse::<u16>().ok()
}

/// Where the console connects, and with which password.
#[derive(Debug)]
pub struct RconSettings {
    pub host: String,
    pub port: u16,
    pub password: String,
}

pub open spec fn default_host() -> Seq<char> {
    seq!['1', '2', '7', '.', '0', '.', '0', '.', '1']
}

/// The port a server listens on for RCON unless told otherwise.
pub const DEFAULT_RCON_PORT: u16 = 25575;

/// The value of the first of two keys that is set.
pub open spec fn either(lines: Seq<LineView>, a: Seq<char>, b: Seq<char>) -> Option<Seq<char>> {
    match lookup(lines, a) {
        Some(v) => Some(v),
        None => lookup(lines, b),
    }
}

/// Looks up the first of two keys that is set.
fn value_of_either(props: &ServerProperties, a: &str, b: &str) -> (r: Option<String>)
    ensures
        match either(props.view(), a@, b@) {
            Some(v) => r matches Some(s) && s@ == v,
            None => r is None,
        },
{
    match props.value_of(a) {
        Some(v) => Some(v),
        None => props.value_of(b),
    }
}

/// The console's connection settings from `server.properties` (`None`
/// when there is no such file): `rcon.host` (or `rcon_host`), `rcon.port`
/// (or `rcon_port`) and `rcon.password` (or `rcon_password`), with the
/// defaults `127.0.0.1`, `25575` (also for a port that does not parse) and
/// an empty password.
pub fn rcon_settings(props: Option<&ServerProperties>) -> (r: RconSettings)
    ensures
        match props {
            None => r.host@ == default_host() && r.port == DEFAULT_RCON_PORT && r.password@.len() == 0,
            Some(p) => {
                let v = p.view();
                &&& r.host@ == (match either(v, "rcon.host"@, "rcon_host"@) {
                    Some(h) => h,
                    None => default_host(),
                })
                &&& r.port == (match either(v, "rcon.port"@, "rcon_port"@) {
                    Some(t) => match u16_of_text(t) {
                        Some(n) => n,
                        None => DEFAULT_RCON_PORT,
                    },
                    None => DEFAULT_RCON_PORT,
                })
                &&& r.password@ == (match either(v, "rcon.password"@, "rcon_password"@) {
                    Some(w) => w,
                    None => Seq::<char>::empty(),
                })
            },
        },
{
    proof {
        reveal_strlit("127.0.0.1");
    }
    let default = "127.0.0.1".to_owned();
    assert(default@ =~= default_host());
    match props {
        None => RconSettings { host: default, port: DEFAULT_RCON_PORT, password: String::new() },
        Some(p) => {
            let host = match value_of_either(p, "rcon.host", "rcon_host") {
                Some(h) => h,
                None => default,
            };
            let port = match value_of_either(p, "rcon.port", "rcon_port") {
                Some(t) => match parse_u16(t.as_str()) {
                    Some(n) => n,
                    None => DEFAULT_RCON_PORT,
                },
                None => DEFAULT_RCON_PORT,
            };
            let password = match value_of_either(p, "rcon.password", "rcon_password") {
                Some(w) => w,
                None => String::new(),
            };
            RconSettings { host, port, password }
        },
    }
}

} // verus!
