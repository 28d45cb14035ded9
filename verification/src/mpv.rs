//! mpv's JSON IPC protocol as the player speaks it: the commands it sends,
//! how each is written on the socket, how each line mpv sends back is read,
//! and how long to wait for the socket to appear.
use crate::error::CadenceError;
use crate::text::{same_text, string_views};
use vstd::prelude::*;

verus! {

broadcast use vstd::seq_lib::group_seq_properties;

/// `serde_json::Value`, carried through so that numbers in a reply can be read
/// where floating point is available.
#[verifier::external_type_specification]
#[verifier::external_body]
pub struct ExJsonValue(serde_json::Value);

// ---------------------------------------------------------------------------
// Commands
// ---------------------------------------------------------------------------

/// The value a `set_property` command sets.
#[derive(Debug, PartialEq, Eq)]
pub enum PropertyValue {
    /// A boolean property, such as `pause`.
    Flag(bool),
    /// A value already written as JSON, such as a number; it must be one
    /// line of JSON text.
    Json(String),
}

/// A command the player sends to mpv.
#[derive(Debug, PartialEq, Eq)]
pub enum IpcCommand {
    /// Load and play a file or stream URL.
    LoadFile { url: String },
    /// Stop playback and unload the current file, leaving mpv idle.
    Stop,
    /// Set a property.
    SetProperty { name: String, value: PropertyValue },
    /// Read a property.
    GetProperty { name: String },
}

/// The hexadecimal digit (lower case) for `d` in 0..16.
pub open spec fn hex_digit(d: int) -> char {
    if d < 10 {
        crate::text::digit_char(d)
    } else if d == 10 {
        'a'
    } else if d == 11 {
        'b'
    } else if d == 12 {
        'c'
    } else if d == 13 {
        'd'
    } else if d == 14 {
        'e'
    } else {
        'f'
    }
}

/// How serde_json writes one character inside a JSON string: quote and
/// backslash are escaped, and so is every control character below U+0020
/// (short forms for backspace, tab, line feed, form feed and carriage return,
/// `\u00XX` for the rest); everything else is written as it is.
pub open spec fn json_escape(c: char) -> Seq<char> {
    let u = c as u32;
    if c == '"' {
        seq!['\\', '"']
    } else if c == '\\' {
        seq!['\\', '\\']
    } else if u == 0x08 {
        seq!['\\', 'b']
    } else if u == 0x09 {
        seq!['\\', 't']
    } else if u == 0x0A {
        seq!['\\', 'n']
    } else if u == 0x0C {
        seq!['\\', 'f']
    } else if u == 0x0D {
        seq!['\\', 'r']
    } else if u < 0x20 {
        seq!['\\', 'u', '0', '0', hex_digit((u / 16) as int), hex_digit((u % 16) as int)]
    } else {
        seq![c]
    }
}

/// The escaped characters of `s`.
pub open spec fn json_escape_all(s: Seq<char>) -> Seq<char>
    decreases s.len(),
{
    if s.len() == 0 {
        Seq::empty()
    } else {
        json_escape_all(s.drop_last()) + json_escape(s.last())
    }
}

/// A string as a JSON string literal, the way serde_json writes it.
pub open spec fn json_string(s: Seq<char>) -> Seq<char> {
    seq!['"'] + json_escape_all(s) + seq!['"']
}

/// Calls `serde_json::to_string` on a string. Claimed, from serde_json's
/// serializer: it succeeds (`to_string` writes into a `Vec` through
/// `to_vec`, and a string's serializer only writes), and the text is
/// `json_string` of the argument (`format_escaped_str` and its `ESCAPE`
/// table).
#[verifier::external_body]
fn encode_json_string(s: &str) -> (r: Result<String, serde_json::Error>)
    ensures
        r is Ok,
        r matches Ok(t) ==> t@ == json_string(s@),
{
    serde_json::to_string(s)
}

/// A property value as JSON.
pub open spec fn value_json(v: PropertyValue) -> Seq<char> {
    match v {
        PropertyValue::Flag(b) => if b {
            "true"@
        } else {
            "false"@
        },
        PropertyValue::Json(t) => t@,
    }
}

/// The JSON text of a command: `{"command":[...]}` with the command's name and
/// arguments, written compactly.
pub open spec fn command_json(cmd: IpcCommand) -> Seq<char> {
    let args = match cmd {
        IpcCommand::LoadFile { url } => json_string("loadfile"@) + ","@ + json_string(url@),
        IpcCommand::Stop => json_string("stop"@),
        IpcCommand::SetProperty { name, value } => json_string("set_property"@) + ","@
            + json_string(name@) + ","@ + value_json(value),
        IpcCommand::GetProperty { name } => json_string("get_property"@) + ","@ + json_string(
            name@,
        ),
    };
    "{\"command\":["@ + args + "]}"@
}

/// The line that carries a command on the socket.
pub open spec fn request_line(cmd: IpcCommand) -> Seq<char> {
    command_json(cmd) + "\n"@
}

fn append_json_string(out: &mut String, s: &str) -> (r: Result<(), CadenceError>)
    ensures
        r is Ok,
        final(out)@ == old(out)@ + json_string(s@),
{
    match encode_json_string(s) {
        Ok(t) => {
            out.append(t.as_str());
            Ok(())
        },
        Err(e) => Err(CadenceError::MpvSerialize(e)),
    }
}

impl IpcCommand {
    /// Loads a stream URL.
    pub fn load(url: &str) -> (c: IpcCommand)
        ensures
            c matches IpcCommand::LoadFile { url: u } && u@ == url@,
    {
        IpcCommand::LoadFile { url: url.to_owned() }
    }

    /// Pauses playback.
    pub fn pause() -> (c: IpcCommand)
        ensures
            c matches IpcCommand::SetProperty { name, value } && name@ == "pause"@ && value
                == PropertyValue::Flag(true),
    {
        IpcCommand::SetProperty { name: "pause".to_owned(), value: PropertyValue::Flag(true) }
    }

    /// Resumes playback.
    pub fn resume() -> (c: IpcCommand)
        ensures
            c matches IpcCommand::SetProperty { name, value } && name@ == "pause"@ && value
                == PropertyValue::Flag(false),
    {
        IpcCommand::SetProperty { name: "pause".to_owned(), value: PropertyValue::Flag(false) }
    }

    /// Stops playback.
    pub fn stop() -> (c: IpcCommand)
        ensures
            c == IpcCommand::Stop,
    {
        IpcCommand::Stop
    }

    /// Sets the volume; `level_json` is the level written as JSON.
    pub fn set_volume(level_json: String) -> (c: IpcCommand)
        ensures
            c matches IpcCommand::SetProperty { name, value } && name@ == "volume"@ && value
                == PropertyValue::Json(level_json),
    {
        IpcCommand::SetProperty { name: "volume".to_owned(), value: PropertyValue::Json(level_json) }
    }

    /// Seeks to an absolute position; `position_json` is the position in
    /// seconds written as JSON.
    pub fn seek(position_json: String) -> (c: IpcCommand)
        ensures
            c matches IpcCommand::SetProperty { name, value } && name@ == "time-pos"@ && value
                == PropertyValue::Json(position_json),
    {
        IpcCommand::SetProperty {
            name: "time-pos".to_owned(),
            value: PropertyValue::Json(position_json),
        }
    }

    /// Reads a property.
    pub fn get_property(name: &str) -> (c: IpcCommand)
        ensures
            c matches IpcCommand::GetProperty { name: n } && n@ == name@,
    {
        IpcCommand::GetProperty { name: name.to_owned() }
    }

    /// The command's JSON text. Writing it always succeeds; the `Result`
    /// is serde_json's, whose string writer cannot fail.
    pub fn to_json(&self) -> (r: Result<String, CadenceError>)
        ensures
            r matches Ok(t) && t@ == command_json(*self),
    {
        let mut out = String::new();
        out.append("{\"command\":[");
        match self {
            IpcCommand::LoadFile { url } => {
                append_json_string(&mut out, "loadfile")?;
                out.append(",");
                append_json_string(&mut out, url.as_str())?;
            },
            IpcCommand::Stop => {
                append_json_string(&mut out, "stop")?;
            },
            IpcCommand::SetProperty { name, value } => {
                append_json_string(&mut out, "set_property")?;
                out.append(",");
                append_json_string(&mut out, name.as_str())?;
                out.append(",");
                match value {
                    PropertyValue::Flag(b) => {
                        if *b {
                            out.append("true");
                        } else {
                            out.append("false");
                        }
                    },
                    PropertyValue::Json(t) => {
                        out.append(t.as_str());
                    },
                }
            },
            IpcCommand::GetProperty { name } => {
                append_json_string(&mut out, "get_property")?;
                out.append(",");
                append_json_string(&mut out, name.as_str())?;
            },
        }
        out.append("]}");
        Ok(out)
    }
}

/// Appends the line feed that ends a message on mpv's socket.
pub fn frame(command_json: &str) -> (line: String)
    ensures
        line@ == command_json@ + "\n"@,
{
    let mut line = command_json.to_owned();
    line.append("\n");
    line
}

/// Whether `s` holds no line feed.
pub open spec fn no_line_feed(s: Seq<char>) -> bool {
    forall|i: int| 0 <= i < s.len() ==> s[i] != '\n'
}

proof fn lemma_no_line_feed_concat(a: Seq<char>, b: Seq<char>)
    requires
        no_line_feed(a),
        no_line_feed(b),
    ensures
        no_line_feed(a + b),
{
    assert forall|i: int| 0 <= i < (a + b).len() implies (a + b)[i] != '\n' by {
        if i < a.len() {
            assert((a + b)[i] == a[i]);
        } else {
            assert((a + b)[i] == b[i - a.len()]);
        }
    }
}

proof fn lemma_escape_no_line_feed(c: char)
    ensures
        no_line_feed(json_escape(c)),
{
    let u = c as u32;
    if u < 0x20 && c != '"' && c != '\\' && u != 0x08 && u != 0x09 && u != 0x0A && u != 0x0C
        && u != 0x0D {
        let e = json_escape(c);
        assert(e.len() == 6);
        assert(e[4] == hex_digit((u / 16) as int));
        assert(e[5] == hex_digit((u % 16) as int));
    }
    if u == 0x0A {
        assert(c == '\n');
    }
}

proof fn lemma_escape_all_no_line_feed(s: Seq<char>)
    ensures
        no_line_feed(json_escape_all(s)),
    decreases s.len(),
{
    if s.len() > 0 {
        lemma_escape_all_no_line_feed(s.drop_last());
        lemma_escape_no_line_feed(s.last());
        lemma_no_line_feed_concat(json_escape_all(s.drop_last()), json_escape(s.last()));
    }
}

proof fn lemma_json_string_no_line_feed(s: Seq<char>)
    ensures
        no_line_feed(json_string(s)),
{
    lemma_escape_all_no_line_feed(s);
    lemma_no_line_feed_concat(seq!['"'], json_escape_all(s));
    lemma_no_line_feed_concat(seq!['"'] + json_escape_all(s), seq!['"']);
}

/// A command goes over the socket as exactly one line: its text holds no line
/// feed, and the line written ends with the only one. This holds whenever a
/// value given as JSON text is itself one line; every string in the command
/// has its line feeds escaped.
pub proof fn lemma_request_is_one_line(cmd: IpcCommand)
    requires
        cmd matches IpcCommand::SetProperty { value: PropertyValue::Json(t), .. } ==> no_line_feed(
            t@,
        ),
    ensures
        no_line_feed(command_json(cmd)),
        request_line(cmd).len() == command_json(cmd).len() + 1,
        request_line(cmd).last() == '\n',
        forall|i: int| 0 <= i < request_line(cmd).len() - 1 ==> request_line(cmd)[i] != '\n',
{
    reveal_strlit("{\"command\":[");
    reveal_strlit("]}");
    reveal_strlit(",");
    reveal_strlit("\n");
    reveal_strlit("true");
    reveal_strlit("false");
    let open = "{\"command\":["@;
    let close = "]}"@;
    let comma = ","@;
    assert(no_line_feed(open));
    assert(no_line_feed(close));
    assert(no_line_feed(comma));
    lemma_json_string_no_line_feed("loadfile"@);
    lemma_json_string_no_line_feed("stop"@);
    lemma_json_string_no_line_feed("set_property"@);
    lemma_json_string_no_line_feed("get_property"@);
    let args = match cmd {
        IpcCommand::LoadFile { url } => {
            lemma_json_string_no_line_feed(url@);
            lemma_no_line_feed_concat(json_string("loadfile"@), comma);
            lemma_no_line_feed_concat(json_string("loadfile"@) + comma, json_string(url@));
            json_string("loadfile"@) + comma + json_string(url@)
        },
        IpcCommand::Stop => json_string("stop"@),
        IpcCommand::SetProperty { name, value } => {
            lemma_json_string_no_line_feed(name@);
            assert(no_line_feed(value_json(value)));
            lemma_no_line_feed_concat(json_string("set_property"@), comma);
            lemma_no_line_feed_concat(json_string("set_property"@) + comma, json_string(name@));
            lemma_no_line_feed_concat(
                json_string("set_property"@) + comma + json_string(name@),
                comma,
            );
            lemma_no_line_feed_concat(
                json_string("set_property"@) + comma + json_string(name@) + comma,
                value_json(value),
            );
            json_string("set_property"@) + comma + json_string(name@) + comma + value_json(value)
        },
        IpcCommand::GetProperty { name } => {
            lemma_json_string_no_line_feed(name@);
            lemma_no_line_feed_concat(json_string("get_property"@), comma);
            lemma_no_line_feed_concat(json_string("get_property"@) + comma, json_string(name@));
            json_string("get_property"@) + comma + json_string(name@)
        },
    };
    assert(no_line_feed(args));
    lemma_no_line_feed_concat(open, args);
    lemma_no_line_feed_concat(open + args, close);
    assert(command_json(cmd) == open + args + close);
    let line = request_line(cmd);
    assert forall|i: int| 0 <= i < line.len() - 1 implies line[i] != '\n' by {
        assert(line[i] == command_json(cmd)[i]);
    }
}

/// Whether serde_json writes `c` inside a string as it is: not a quote, not a
/// backslash, not a control character below U+0020.
pub open spec fn is_plain_json_char(c: char) -> bool {
    c != '"' && c != '\\' && c as u32 >= 0x20
}

/// A string of plain characters is written as itself between two quotes.
pub proof fn lemma_json_string_of_plain(s: Seq<char>)
    requires
        forall|i: int| 0 <= i < s.len() ==> is_plain_json_char(#[trigger] s[i]),
    ensures
        json_escape_all(s) == s,
        json_string(s) == seq!['"'] + s + seq!['"'],
    decreases s.len(),
{
    if s.len() > 0 {
        assert forall|i: int| 0 <= i < s.drop_last().len() implies is_plain_json_char(
            #[trigger] s.drop_last()[i],
        ) by {
            assert(s.drop_last()[i] == s[i]);
        }
        lemma_json_string_of_plain(s.drop_last());
        assert(is_plain_json_char(s[s.len() - 1]));
        assert(json_escape(s.last()) == seq![s.last()]);
        assert(json_escape_all(s) =~= s);
    } else {
        assert(json_escape_all(s) =~= s);
    }
}

/// How serde_json writes the characters that need escaping inside a string:
/// quote, backslash, and the control characters, each as a backslash
/// sequence, never as themselves.
pub proof fn lemma_special_chars_escaped(c: char)
    ensures
        c == '"' ==> json_escape(c) == seq!['\\', '"'],
        c == '\\' ==> json_escape(c) == seq!['\\', '\\'],
        c == '\n' ==> json_escape(c) == seq!['\\', 'n'],
        c == '\r' ==> json_escape(c) == seq!['\\', 'r'],
        c == '\t' ==> json_escape(c) == seq!['\\', 't'],
        c as u32 == 0x08 ==> json_escape(c) == seq!['\\', 'b'],
        c as u32 == 0x0C ==> json_escape(c) == seq!['\\', 'f'],
        !is_plain_json_char(c) ==> json_escape(c).len() >= 2 && json_escape(c)[0] == '\\',
        c as u32 == 0x01 ==> json_escape(c) == seq!['\\', 'u', '0', '0', '0', '1'],
        c as u32 == 0x1F ==> json_escape(c) == seq!['\\', 'u', '0', '0', '1', 'f'],
        is_plain_json_char(c) ==> json_escape(c) == seq![c],
{
}

proof fn lemma_name_json(name: Seq<char>)
    requires
        forall|i: int| 0 <= i < name.len() ==> is_plain_json_char(#[trigger] name[i]),
    ensures
        json_string(name) == seq!['"'] + name + seq!['"'],
{
    lemma_json_string_of_plain(name);
}

/// What goes on the socket for each command, for every argument: a load is
/// `{"command":["loadfile",<url>]}` with the URL as a JSON string and nothing
/// after it; stop is `{"command":["stop"]}`; a property is read with
/// `{"command":["get_property",<name>]}` and set with
/// `{"command":["set_property",<name>,<value>]}`, the value written as
/// `true`, `false` or its JSON text.
pub proof fn lemma_command_texts(url: String, name: String, value: PropertyValue)
    ensures
        command_json(IpcCommand::LoadFile { url }) == "{\"command\":[\"loadfile\","@ + json_string(
            url@,
        ) + "]}"@,
        command_json(IpcCommand::Stop) == "{\"command\":[\"stop\"]}"@,
        command_json(IpcCommand::GetProperty { name }) == "{\"command\":[\"get_property\","@
            + json_string(name@) + "]}"@,
        command_json(IpcCommand::SetProperty { name, value }) == "{\"command\":[\"set_property\","@
            + json_string(name@) + ","@ + (match value {
            PropertyValue::Flag(true) => "true"@,
            PropertyValue::Flag(false) => "false"@,
            PropertyValue::Json(t) => t@,
        }) + "]}"@,
{
    reveal_strlit("loadfile");
    reveal_strlit("stop");
    reveal_strlit("get_property");
    reveal_strlit("set_property");
    reveal_strlit("{\"command\":[");
    reveal_strlit("]}");
    reveal_strlit(",");
    reveal_strlit("{\"command\":[\"loadfile\",");
    reveal_strlit("{\"command\":[\"stop\"]}");
    reveal_strlit("{\"command\":[\"get_property\",");
    reveal_strlit("{\"command\":[\"set_property\",");
    lemma_name_json("loadfile"@);
    lemma_name_json("stop"@);
    lemma_name_json("get_property"@);
    lemma_name_json("set_property"@);
    assert("{\"command\":["@ + json_string("loadfile"@) + ","@ =~= "{\"command\":[\"loadfile\","@);
    assert("{\"command\":["@ + json_string("stop"@) + "]}"@ =~= "{\"command\":[\"stop\"]}"@);
    assert("{\"command\":["@ + json_string("get_property"@) + ","@
        =~= "{\"command\":[\"get_property\","@);
    assert("{\"command\":["@ + json_string("set_property"@) + ","@
        =~= "{\"command\":[\"set_property\","@);
    let u = json_string(url@);
    assert("{\"command\":["@ + (json_string("loadfile"@) + ","@ + u) + "]}"@ =~= (
    "{\"command\":["@ + json_string("loadfile"@) + ","@) + u + "]}"@);
    let n = json_string(name@);
    assert("{\"command\":["@ + (json_string("get_property"@) + ","@ + n) + "]}"@ =~= (
    "{\"command\":["@ + json_string("get_property"@) + ","@) + n + "]}"@);
    let v = value_json(value);
    assert("{\"command\":["@ + (json_string("set_property"@) + ","@ + n + ","@ + v) + "]}"@ =~= (
    "{\"command\":["@ + json_string("set_property"@) + ","@) + n + ","@ + v + "]}"@);
}

// ---------------------------------------------------------------------------
// Replies
// ---------------------------------------------------------------------------

/// A line mpv sent, as far as the player reads it.
#[derive(Debug)]
pub struct MpvReply {
    /// The whole message, for the numbers in its `data` member.
    pub json: serde_json::Value,
    /// The `error` member, when it is a string. Only replies to commands
    /// carry one; events do not.
    pub error: Option<String>,
    /// The `data` member, when it is a boolean.
    pub data_flag: Option<bool>,
}

/// What serde_json reads from one line of mpv's output: `None` when the line
/// is not JSON, otherwise the `error` member when it is a string and the
/// `data` member when it is a boolean.
pub uninterp spec fn reply_fields(line: Seq<char>) -> Option<(Option<Seq<char>>, Option<bool>)>;

/// The text of an optional string.
pub open spec fn opt_text(s: Option<String>) -> Option<Seq<char>> {
    crate::models::opt_text(s)
}

/// Calls `serde_json::from_str` to read a line as a `serde_json::Value`, then
/// `Value::get` with `Value::as_str` on its `error` member and with
/// `Value::as_bool` on its `data` member. Claimed: the line parses exactly
/// when `reply_fields` is `Some`, and then the two members are the ones
/// `reply_fields` names; both depend on the line alone. Nothing is claimed
/// of `json` but that it is the parsed line.
#[verifier::external_body]
fn parse_reply(line: &str) -> (r: Result<MpvReply, serde_json::Error>)
    ensures
        r is Ok <==> reply_fields(line@) is Some,
        r matches Ok(rep) ==> reply_fields(line@) == Some((opt_text(rep.error), rep.data_flag)),
{
    let json: serde_json::Value = serde_json::from_str(line)?;
    let error = json.get("error").and_then(serde_json::Value::as_str).map(str::to_owned);
    let data_flag = json.get("data").and_then(serde_json::Value::as_bool);
    Ok(MpvReply { json, error, data_flag })
}

/// What to do after reading a line while waiting for a command's reply.
#[derive(Debug)]
pub enum ReplyStep {
    /// The line was an event, not the reply: read the next line.
    KeepReading,
    /// The command is answered.
    Done(Result<MpvReply, CadenceError>),
}

/// `step` is what a parsed line means for the command whose JSON text is
/// `command`: an event (no string `error` member) is skipped; an `error` of
/// "success" answers the command with the reply; any other `error` is the
/// command failing with that message; a line that is not JSON is a
/// serialization error.
pub open spec fn reply_step_of(
    command: Seq<char>,
    parsed: Result<MpvReply, serde_json::Error>,
    step: ReplyStep,
) -> bool {
    match parsed {
        Err(e) => step matches ReplyStep::Done(Err(CadenceError::MpvSerialize(e2))) && e2 == e,
        Ok(rep) => match rep.error {
            None => step is KeepReading,
            Some(m) => if m@ == "success"@ {
                step matches ReplyStep::Done(Ok(r)) && r == rep
            } else {
                step matches ReplyStep::Done(
                    Err(CadenceError::MpvCommand { command: c, message: msg }),
                ) && c@ == command && msg@ == m@
            },
        },
    }
}

/// Reads a parsed line while waiting for the reply to the command whose JSON
/// text is `command`. mpv interleaves unsolicited events with replies on the
/// same socket; only replies carry an `error` member.
pub fn classify_reply(command: &str, parsed: Result<MpvReply, serde_json::Error>) -> (step:
    ReplyStep)
    ensures
        reply_step_of(command@, parsed, step),
{
    match parsed {
        Err(e) => ReplyStep::Done(Err(CadenceError::MpvSerialize(e))),
        Ok(rep) => {
            let answered = match &rep.error {
                None => None,
                Some(m) => {
                    proof {
                        reveal_strlit("success");
                    }
                    Some(same_text(m.as_str(), "success"))
                },
            };
            match answered {
                None => ReplyStep::KeepReading,
                Some(true) => ReplyStep::Done(Ok(rep)),
                Some(false) => {
                    let message = match &rep.error {
                        Some(m) => m.clone(),
                        None => String::new(),
                    };
                    ReplyStep::Done(
                        Err(CadenceError::MpvCommand { command: command.to_owned(), message }),
                    )
                },
            }
        },
    }
}

/// Reads one line from mpv's socket while waiting for the reply to the
/// command whose JSON text is `command`; `bytes_read` is what the read
/// returned, 0 when the connection is closed.
pub fn on_reply_line(command: &str, bytes_read: usize, line: &str) -> (step: ReplyStep)
    ensures
        bytes_read == 0 ==> step matches ReplyStep::Done(Err(CadenceError::MpvConnectionClosed)),
        bytes_read != 0 ==> match reply_fields(line@) {
            None => step matches ReplyStep::Done(Err(CadenceError::MpvSerialize(_))),
            Some((None, _)) => step is KeepReading,
            Some((Some(m), flag)) => if m == "success"@ {
                step matches ReplyStep::Done(Ok(r)) && opt_text(r.error) == Some(m)
                    && r.data_flag == flag
            } else {
                step matches ReplyStep::Done(
                    Err(CadenceError::MpvCommand { command: c, message: msg }),
                ) && c@ == command@ && msg@ == m
            },
        },
{
    if bytes_read == 0 {
        return ReplyStep::Done(Err(CadenceError::MpvConnectionClosed));
    }
    let parsed = parse_reply(line);
    classify_reply(command, parsed)
}

impl MpvReply {
    /// The `data` member read as a boolean, false when it is not one (a
    /// property that is not a flag, or no data at all).
    pub fn flag(&self) -> (b: bool)
        ensures
            b == (self.data_flag == Some(true)),
    {
        match self.data_flag {
            Some(b) => b,
            None => false,
        }
    }
}

/// Whether `e` is mpv's "property unavailable" answer, which it gives for
/// `time-pos` and `duration` while nothing is loaded.
pub open spec fn is_property_unavailable(e: CadenceError) -> bool {
    e matches CadenceError::MpvCommand { message, .. } && message@ == "property unavailable"@
}

/// Reads the reply to a `get_property` for a property that may be
/// unavailable: "property unavailable" is no value rather than a failure;
/// every other outcome passes unchanged.
pub fn optional_property(reply: Result<MpvReply, CadenceError>) -> (r: Result<
    Option<MpvReply>,
    CadenceError,
>)
    ensures
        match reply {
            Ok(rep) => r matches Ok(Some(x)) && x == rep,
            Err(e) => if is_property_unavailable(e) {
                r matches Ok(None)
            } else {
                r matches Err(x) && x == e
            },
        },
{
    match reply {
        Ok(rep) => Ok(Some(rep)),
        Err(e) => {
            let unavailable = match &e {
                CadenceError::MpvCommand { message, .. } => {
                    proof {
                        reveal_strlit("property unavailable");
                    }
                    same_text(message.as_str(), "property unavailable")
                },
                _ => false,
            };
            if unavailable {
                Ok(None)
            } else {
                Err(e)
            }
        },
    }
}

// ---------------------------------------------------------------------------
// Starting mpv
// ---------------------------------------------------------------------------

/// How many times to try connecting to mpv's socket.
pub const SOCKET_CONNECT_MAX_ATTEMPTS: u32 = 50;

/// How long to wait after a failed connection attempt, in milliseconds.
pub const SOCKET_CONNECT_RETRY_DELAY_MS: u64 = 100;

/// mpv's arguments: idle with no file, no video output, no terminal output,
/// and the IPC server on `socket_path`.
pub open spec fn mpv_args_text(socket_path: Seq<char>) -> Seq<Seq<char>> {
    seq![
        "--idle=yes"@,
        "--no-video"@,
        "--really-quiet"@,
        "--input-ipc-server="@ + socket_path,
    ]
}

/// The arguments to start mpv with, given its socket path as text.
pub fn mpv_args(socket_path: &str) -> (args: Vec<String>)
    ensures
        string_views(args@) == mpv_args_text(socket_path@),
{
    let mut server = "--input-ipc-server=".to_owned();
    server.append(socket_path);
    let mut args: Vec<String> = Vec::new();
    args.push("--idle=yes".to_owned());
    args.push("--no-video".to_owned());
    args.push("--really-quiet".to_owned());
    args.push(server);
    assert(string_views(args@) =~= mpv_args_text(socket_path@));
    args
}

/// What to do after a failed attempt to connect to mpv's socket.
#[derive(Debug, Clone, Copy, PartialEq, Eq, Structural)]
pub enum RetryAction {
    /// Wait this many milliseconds, then try again.
    RetryAfter(u64),
    /// Wait this many milliseconds, then give up with a socket timeout.
    GiveUpAfter(u64),
}

/// Counts the failed attempts to connect to mpv's socket.
pub struct ConnectRetry {
    failed: u32,
}

impl View for ConnectRetry {
    type V = nat;

    closed spec fn view(&self) -> nat {
        self.failed as nat
    }
}

impl ConnectRetry {
    /// Whether the count is within the attempts allowed.
    pub open spec fn wf(&self) -> bool {
        self@ <= SOCKET_CONNECT_MAX_ATTEMPTS
    }

    /// No attempt made yet.
    pub fn new() -> (r: ConnectRetry)
        ensures
            r@ == 0,
            r.wf(),
    {
        ConnectRetry { failed: 0 }
    }

    /// Records a failed attempt: always wait before the next step, then try
    /// again until `SOCKET_CONNECT_MAX_ATTEMPTS` attempts have failed.
    pub fn on_failure(&mut self) -> (a: RetryAction)
        requires
            old(self).wf(),
            old(self)@ < SOCKET_CONNECT_MAX_ATTEMPTS,
        ensures
            final(self)@ == old(self)@ + 1,
            final(self).wf(),
            final(self)@ < SOCKET_CONNECT_MAX_ATTEMPTS ==> a == RetryAction::RetryAfter(
                SOCKET_CONNECT_RETRY_DELAY_MS,
            ),
            final(self)@ == SOCKET_CONNECT_MAX_ATTEMPTS ==> a == RetryAction::GiveUpAfter(
                SOCKET_CONNECT_RETRY_DELAY_MS,
            ),
    {
        self.failed = self.failed + 1;
        if self.failed < SOCKET_CONNECT_MAX_ATTEMPTS {
            RetryAction::RetryAfter(SOCKET_CONNECT_RETRY_DELAY_MS)
        } else {
            RetryAction::GiveUpAfter(SOCKET_CONNECT_RETRY_DELAY_MS)
        }
    }
}

} // verus!
