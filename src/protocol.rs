//! The text protocol: frames of the form `command:payload`, and the lines
//! that the coordinator delivers to every session.

use vstd::prelude::*;
use vstd::string::*;

verus! {

/// The characters with the Unicode `White_Space` property, which is what
/// `char::is_whitespace` and `str::trim` go by.
pub open spec fn is_ws(c: char) -> bool {
    let u = c as u32;
    (0x9 <= u && u <= 0xd) || u == 0x20 || u == 0x85 || u == 0xa0 || u == 0x1680 || (0x2000 <= u
        && u <= 0x200a) || u == 0x2028 || u == 0x2029 || u == 0x202f || u == 0x205f || u == 0x3000
}

/// `s` without its leading white space.
pub open spec fn trim_start(s: Seq<char>) -> Seq<char>
    decreases s.len(),
{
    if s.len() > 0 && is_ws(s[0]) {
        trim_start(s.drop_first())
    } else {
        s
    }
}

/// `s` without its trailing white space.
pub open spec fn trim_end(s: Seq<char>) -> Seq<char>
    decreases s.len(),
{
    if s.len() > 0 && is_ws(s.last()) {
        trim_end(s.drop_last())
    } else {
        s
    }
}

/// `s` without white space at either end.
pub open spec fn trim(s: Seq<char>) -> Seq<char> {
    trim_end(trim_start(s))
}

/// `i` is the position of the first `:` in `s`.
pub open spec fn is_first_colon(s: Seq<char>, i: int) -> bool {
    0 <= i < s.len() && s[i] == ':' && forall|j: int| 0 <= j < i ==> s[j] != ':'
}

/// What a frame asks for, over character sequences.
pub enum FrameModel {
    Text(Seq<char>),
    Name(Option<Seq<char>>),
    Unknown(Seq<char>),
    Malformed,
}

/// What a frame asks for.
pub enum Frame {
    /// Broadcast the payload.
    Text(String),
    /// Set the display name, or clear it when `None`.
    Name(Option<String>),
    /// A command that this protocol does not know; it carries the command.
    Unknown(String),
    /// A frame without a `:`.
    Malformed,
}

impl View for Frame {
    type V = FrameModel;

    open spec fn view(&self) -> FrameModel {
        match self {
            Frame::Text(t) => FrameModel::Text(t@),
            Frame::Name(n) => FrameModel::Name(opt_view(n)),
            Frame::Unknown(c) => FrameModel::Unknown(c@),
            Frame::Malformed => FrameModel::Malformed,
        }
    }
}

/// The display name that a `name` command with this payload leaves: the
/// trimmed payload, or none when nothing is left of it.
pub open spec fn name_from_payload(payload: Seq<char>) -> Option<Seq<char>> {
    let n = trim(payload);
    if n.len() == 0 {
        None
    } else {
        Some(n)
    }
}

/// The meaning of a raw frame: it is split at its first `:` into a command
/// and a payload. The command is looked up with the white space around it
/// ignored; the payload is the rest of the frame verbatim and may hold more
/// colons. Only a `name` payload is trimmed.
pub open spec fn parse_spec(raw: Seq<char>) -> FrameModel {
    if exists|i: int| is_first_colon(raw, i) {
        let i = choose|i: int| is_first_colon(raw, i);
        let command = trim(raw.subrange(0, i));
        let payload = raw.subrange(i + 1, raw.len() as int);
        if command == "text"@ {
            FrameModel::Text(payload)
        } else if command == "name"@ {
            FrameModel::Name(name_from_payload(payload))
        } else {
            FrameModel::Unknown(command)
        }
    } else {
        FrameModel::Malformed
    }
}

/// The characters of an optional string.
pub open spec fn opt_view(o: &Option<String>) -> Option<Seq<char>> {
    match o {
        Some(s) => Some(s@),
        None => None,
    }
}

/// The line delivered for a message: `name: text`, with `anonymous` standing
/// for a missing name.
pub open spec fn line_spec(name: Option<Seq<char>>, text: Seq<char>) -> Seq<char> {
    let who = match name {
        Some(n) => n,
        None => "anonymous"@,
    };
    who + ": "@ + text
}

/// Whether `c` is white space, as `char::is_whitespace` has it.
pub fn is_whitespace(c: char) -> (r: bool)
    ensures
        r == is_ws(c),
{
    let u = c as u32;
    (0x9 <= u && u <= 0xd) || u == 0x20 || u == 0x85 || u == 0xa0 || u == 0x1680 || (0x2000 <= u
        && u <= 0x200a) || u == 0x2028 || u == 0x2029 || u == 0x202f || u == 0x205f || u == 0x3000
}

/// `s` with the white space at both ends cut off.
pub fn trim_str(s: &str) -> (r: &str)
    ensures
        r@ == trim(s@),
{
    let n = s.unicode_len();
    let mut i: usize = 0;
    assert(s@.subrange(0, n as int) =~= s@);
    while i < n && is_whitespace(s.get_char(i))
        invariant
            n == s@.len(),
            i <= n,
            trim_start(s@) == trim_start(s@.subrange(i as int, n as int)),
        decreases n - i,
    {
        assert(s@.subrange(i as int, n as int).drop_first() =~= s@.subrange(i + 1, n as int));
        i = i + 1;
    }
    assert(trim_start(s@) == s@.subrange(i as int, n as int));
    let mut j: usize = n;
    while j > i && is_whitespace(s.get_char(j - 1))
        invariant
            n == s@.len(),
            i <= j <= n,
            trim(s@) == trim_end(s@.subrange(i as int, j as int)),
        decreases j,
    {
        assert(s@.subrange(i as int, j as int).drop_last() =~= s@.subrange(i as int, j - 1));
        j = j - 1;
    }
    s.substring_char(i, j)
}

/// Whether the two strings hold the same characters.
pub fn str_eq(a: &str, b: &str) -> (r: bool)
    ensures
        r == (a@ == b@),
{
    let n = a.unicode_len();
    if n != b.unicode_len() {
        return false;
    }
    let mut i: usize = 0;
    while i < n
        invariant
            n == a@.len(),
            n == b@.len(),
            i <= n,
            forall|k: int| 0 <= k < i ==> a@[k] == b@[k],
        decreases n - i,
    {
        if a.get_char(i) != b.get_char(i) {
            return false;
        }
        i = i + 1;
    }
    assert(a@ =~= b@);
    true
}

/// The position of the first `:` in `s`, if there is one.
pub fn find_colon(s: &str) -> (r: Option<usize>)
    ensures
        match r {
            Some(i) => is_first_colon(s@, i as int),
            None => forall|j: int| 0 <= j < s@.len() ==> s@[j] != ':',
        },
{
    let n = s.unicode_len();
    let mut i: usize = 0;
    while i < n
        invariant
            n == s@.len(),
            i <= n,
            forall|k: int| 0 <= k < i ==> s@[k] != ':',
        decreases n - i,
    {
        if s.get_char(i) == ':' {
            return Some(i);
        }
        i = i + 1;
    }
    None
}

/// Reads one inbound text frame.
pub fn parse_frame(raw: &str) -> (f: Frame)
    ensures
        f@ == parse_spec(raw@),
{
    match find_colon(raw) {
        None => {
            assert(!exists|i: int| is_first_colon(raw@, i));
            Frame::Malformed
        },
        Some(i) => {
            let n = raw.unicode_len();
            assert(forall|k: int| is_first_colon(raw@, k) ==> k == i as int);
            let command = trim_str(raw.substring_char(0, i));
            let payload = raw.substring_char(i + 1, n);
            if str_eq(command, "text") {
                Frame::Text(String::from_str(payload))
            } else if str_eq(command, "name") {
                let name = trim_str(payload);
                if name.unicode_len() == 0 {
                    Frame::Name(None)
                } else {
                    Frame::Name(Some(String::from_str(name)))
                }
            } else {
                Frame::Unknown(String::from_str(command))
            }
        },
    }
}

/// Formats the line that every session receives for a message.
pub fn format_line(name: &Option<String>, text: &str) -> (r: String)
    ensures
        r@ == line_spec(opt_view(name), text@),
{
    let mut line = match name {
        Some(n) => n.clone(),
        None => String::from_str("anonymous"),
    };
    line.append(": ");
    line.append(text);
    line
}

} // verus!
