//! The IPC protocol carried over the browser's script-messaging channel.
//!
//! A message is one JSON object with a single member: its name is the event's
//! tag, its value the payload. `{"Fullscreen":true}`, `{"Init":null}`,
//! `{"OpenMedia":"stremio://..."}`, `{"Mpv":{"Command":["loadfile",["a.mkv"]]}}`.
//! JSON text is read and written by serde_json; what a message means is
//! decided here.
use vstd::prelude::*;
use crate::text::text_is;
use vstd::string::StringExecFns;

verus! {

broadcast use vstd::string::to_string_from_display_ensures_for_str;

/// The members of a JSON object, each value as its compact JSON text, or
/// `None` where the text is not a JSON object.
pub uninterp spec fn json_object_entries(text: Seq<char>) -> Option<Seq<(Seq<char>, Seq<char>)>>;

/// The items of a JSON array, each as its compact JSON text, or `None` where
/// the text is not a JSON array.
pub uninterp spec fn json_array_items(text: Seq<char>) -> Option<Seq<Seq<char>>>;

/// The characters of a JSON string, or `None` where the text is not one.
pub uninterp spec fn json_string_value(text: Seq<char>) -> Option<Seq<char>>;

/// Lower-case hexadecimal digit of `n` (`0 <= n < 16`).
pub open spec fn hex_digit(n: int) -> char {
    if n < 10 {
        ('0' as int + n) as char
    } else {
        ('a' as int + n - 10) as char
    }
}

/// How one character is written inside a JSON string literal: quote and
/// backslash escaped, the named control characters as `\b \t \n \f \r`,
/// the other control characters below U+0020 as `\u00XX`, everything else
/// as itself.
pub open spec fn json_escape(c: char) -> Seq<char> {
    if c == '"' {
        seq!['\\', '"']
    } else if c == '\\' {
        seq!['\\', '\\']
    } else if c == '\u{8}' {
        seq!['\\', 'b']
    } else if c == '\t' {
        seq!['\\', 't']
    } else if c == '\n' {
        seq!['\\', 'n']
    } else if c == '\u{c}' {
        seq!['\\', 'f']
    } else if c == '\r' {
        seq!['\\', 'r']
    } else if (c as u32) < 0x20 {
        seq!['\\', 'u', '0', '0', hex_digit(c as int / 16), hex_digit(c as int % 16)]
    } else {
        seq![c]
    }
}

/// The characters of `s`, each escaped.
pub open spec fn json_escaped(s: Seq<char>) -> Seq<char>
    decreases s.len(),
{
    if s.len() == 0 {
        Seq::empty()
    } else {
        json_escaped(s.drop_last()) + json_escape(s.last())
    }
}

/// The JSON string literal, quoted and escaped, that holds `s`.
pub open spec fn json_quoted(s: Seq<char>) -> Seq<char> {
    seq!['"'] + json_escaped(s) + seq!['"']
}

pub open spec fn entries_view(v: Seq<(String, String)>) -> Seq<(Seq<char>, Seq<char>)> {
    v.map_values(|e: (String, String)| (e.0@, e.1@))
}

pub open spec fn strings_view(v: Seq<String>) -> Seq<Seq<char>> {
    v.map_values(|s: String| s@)
}

/// Relies on serde_json::from_str into a serde_json::Map, and on the Display
/// of serde_json::Value for each member's compact JSON text.
#[verifier::external_body]
fn parse_object(text: &str) -> (r: Option<Vec<(String, String)>>)
    ensures
        match (r, json_object_entries(text@)) {
            (None, None) => true,
            (Some(v), Some(e)) => entries_view(v@) == e,
            _ => false,
        },
{
    serde_json::from_str::<serde_json::Map<String, serde_json::Value>>(text).ok().map(
        |m| m.into_iter().map(|(k, v)| (k, v.to_string())).collect(),
    )
}

/// Relies on serde_json::from_str into a Vec of serde_json::Value, and on the
/// Display of serde_json::Value for each item's compact JSON text.
#[verifier::external_body]
fn parse_array(text: &str) -> (r: Option<Vec<String>>)
    ensures
        match (r, json_array_items(text@)) {
            (None, None) => true,
            (Some(v), Some(e)) => strings_view(v@) == e,
            _ => false,
        },
{
    serde_json::from_str::<Vec<serde_json::Value>>(text).ok().map(
        |a| a.into_iter().map(|v| v.to_string()).collect(),
    )
}

/// Relies on serde_json::from_str into a String: the unescaped characters of
/// a JSON string literal.
#[verifier::external_body]
fn parse_string(text: &str) -> (r: Option<String>)
    ensures
        match (r, json_string_value(text@)) {
            (None, None) => true,
            (Some(v), Some(e)) => v@ == e,
            _ => false,
        },
{
    serde_json::from_str::<String>(text).ok()
}

/// Relies on the Display of serde_json::Value::String, which writes `s` in
/// quotes with serde_json's escape table (`format_escaped_str_contents`).
#[verifier::external_body]
pub(crate) fn quote(s: &str) -> (r: String)
    ensures
        r@ == json_quoted(s@),
{
    serde_json::Value::String(s.to_string()).to_string()
}

/// Media-engine sub-events.
#[derive(Debug, PartialEq, Eq)]
pub enum IpcEventMpv {
    /// Subscribe to a property by name.
    Observe(String),
    /// Run a named command with string arguments.
    Command((String, Vec<String>)),
    /// Write a property: its name and the value as JSON text.
    SetProperty((String, String)),
    /// An observed property changed: its name and the value as JSON text.
    Change((String, String)),
    /// Playback ended, with an optional reason.
    Ended(Option<String>),
}

/// Events exchanged with the web UI.
#[derive(Debug, PartialEq, Eq)]
pub enum IpcEvent {
    Init,
    Ready,
    Quit,
    Fullscreen(bool),
    Minimized(bool),
    Visibility(bool),
    OpenMedia(String),
    Mpv(IpcEventMpv),
}

/// Why a message was not turned into an event.
#[derive(Debug, PartialEq, Eq)]
pub enum IpcError {
    /// Not JSON, or not of the message's shape.
    Malformed,
    /// Well formed, with a tag that names no event.
    UnknownTag(String),
}

pub enum MpvMsg {
    Observe(Seq<char>),
    Command(Seq<char>, Seq<Seq<char>>),
    SetProperty(Seq<char>, Seq<char>),
    Change(Seq<char>, Seq<char>),
    Ended(Option<Seq<char>>),
}

pub enum EventMsg {
    Init,
    Ready,
    Quit,
    Fullscreen(bool),
    Minimized(bool),
    Visibility(bool),
    OpenMedia(Seq<char>),
    Mpv(MpvMsg),
}

pub enum ErrorMsg {
    Malformed,
    UnknownTag(Seq<char>),
}

impl View for IpcEventMpv {
    type V = MpvMsg;

    open spec fn view(&self) -> MpvMsg {
        match self {
            IpcEventMpv::Observe(n) => MpvMsg::Observe(n@),
            IpcEventMpv::Command((n, a)) => MpvMsg::Command(n@, strings_view(a@)),
            IpcEventMpv::SetProperty((n, v)) => MpvMsg::SetProperty(n@, v@),
            IpcEventMpv::Change((n, v)) => MpvMsg::Change(n@, v@),
            IpcEventMpv::Ended(r) => MpvMsg::Ended(
                match r {
                    Some(s) => Some(s@),
                    None => None,
                },
            ),
        }
    }
}

impl View for IpcEvent {
    type V = EventMsg;

    open spec fn view(&self) -> EventMsg {
        match self {
            IpcEvent::Init => EventMsg::Init,
            IpcEvent::Ready => EventMsg::Ready,
            IpcEvent::Quit => EventMsg::Quit,
            IpcEvent::Fullscreen(b) => EventMsg::Fullscreen(*b),
            IpcEvent::Minimized(b) => EventMsg::Minimized(*b),
            IpcEvent::Visibility(b) => EventMsg::Visibility(*b),
            IpcEvent::OpenMedia(u) => EventMsg::OpenMedia(u@),
            IpcEvent::Mpv(m) => EventMsg::Mpv(m@),
        }
    }
}

impl View for IpcError {
    type V = ErrorMsg;

    open spec fn view(&self) -> ErrorMsg {
        match self {
            IpcError::Malformed => ErrorMsg::Malformed,
            IpcError::UnknownTag(t) => ErrorMsg::UnknownTag(t@),
        }
    }
}

pub open spec fn result_view(r: Result<IpcEvent, IpcError>) -> Result<EventMsg, ErrorMsg> {
    match r {
        Ok(e) => Ok(e@),
        Err(x) => Err(x@),
    }
}

pub open spec fn mpv_result_view(r: Result<IpcEventMpv, IpcError>) -> Result<MpvMsg, ErrorMsg> {
    match r {
        Ok(e) => Ok(e@),
        Err(x) => Err(x@),
    }
}

// ---- decoding ----

/// The payload of an event without data.
pub open spec fn unit_payload(p: Seq<char>) -> bool {
    p == "null"@
}

pub open spec fn bool_payload(p: Seq<char>) -> Option<bool> {
    if p == "true"@ {
        Some(true)
    } else if p == "false"@ {
        Some(false)
    } else {
        None
    }
}

/// `[name, value]`: a JSON string and any JSON value.
pub open spec fn pair_payload(p: Seq<char>) -> Option<(Seq<char>, Seq<char>)> {
    match json_array_items(p) {
        Some(items) => if items.len() == 2 {
            match json_string_value(items[0]) {
                Some(name) => Some((name, items[1])),
                None => None,
            }
        } else {
            None
        },
        None => None,
    }
}

/// A JSON array of strings, unescaped.
pub open spec fn string_list(p: Seq<char>) -> Option<Seq<Seq<char>>> {
    match json_array_items(p) {
        Some(items) => if forall|i: int| 0 <= i < items.len() ==> (#[trigger] json_string_value(items[i])) is Some {
            Some(items.map_values(|t: Seq<char>| json_string_value(t).unwrap()))
        } else {
            None
        },
        None => None,
    }
}

pub open spec fn decode_mpv_entry_spec(sub: Seq<char>, p: Seq<char>) -> Result<MpvMsg, ErrorMsg> {
    if sub == "Observe"@ {
        match json_string_value(p) {
            Some(n) => Ok(MpvMsg::Observe(n)),
            None => Err(ErrorMsg::Malformed),
        }
    } else if sub == "Command"@ {
        match pair_payload(p) {
            Some((n, args)) => match string_list(args) {
                Some(a) => Ok(MpvMsg::Command(n, a)),
                None => Err(ErrorMsg::Malformed),
            },
            None => Err(ErrorMsg::Malformed),
        }
    } else if sub == "Set"@ {
        match pair_payload(p) {
            Some((n, v)) => Ok(MpvMsg::SetProperty(n, v)),
            None => Err(ErrorMsg::Malformed),
        }
    } else if sub == "Change"@ {
        match pair_payload(p) {
            Some((n, v)) => Ok(MpvMsg::Change(n, v)),
            None => Err(ErrorMsg::Malformed),
        }
    } else if sub == "Ended"@ {
        if unit_payload(p) {
            Ok(MpvMsg::Ended(None))
        } else {
            match json_string_value(p) {
                Some(r) => Ok(MpvMsg::Ended(Some(r))),
                None => Err(ErrorMsg::Malformed),
            }
        }
    } else {
        Err(ErrorMsg::UnknownTag(sub))
    }
}

/// The single member of a JSON object, if it has exactly one.
pub open spec fn single_entry(text: Seq<char>) -> Option<(Seq<char>, Seq<char>)> {
    match json_object_entries(text) {
        Some(es) => if es.len() == 1 {
            Some(es[0])
        } else {
            None
        },
        None => None,
    }
}

pub open spec fn decode_mpv_spec(p: Seq<char>) -> Result<MpvMsg, ErrorMsg> {
    match single_entry(p) {
        Some((sub, q)) => decode_mpv_entry_spec(sub, q),
        None => Err(ErrorMsg::Malformed),
    }
}

pub open spec fn flag_event(tag: Seq<char>, b: bool) -> EventMsg {
    if tag == "Fullscreen"@ {
        EventMsg::Fullscreen(b)
    } else if tag == "Minimized"@ {
        EventMsg::Minimized(b)
    } else {
        EventMsg::Visibility(b)
    }
}

/// The event that the member `tag: p` of a message stands for.
pub open spec fn decode_entry_spec(tag: Seq<char>, p: Seq<char>) -> Result<EventMsg, ErrorMsg> {
    if tag == "Init"@ || tag == "Ready"@ || tag == "Quit"@ {
        if unit_payload(p) {
            Ok(
                if tag == "Init"@ {
                    EventMsg::Init
                } else if tag == "Ready"@ {
                    EventMsg::Ready
                } else {
                    EventMsg::Quit
                },
            )
        } else {
            Err(ErrorMsg::Malformed)
        }
    } else if tag == "Fullscreen"@ || tag == "Minimized"@ || tag == "Visibility"@ {
        match bool_payload(p) {
            Some(b) => Ok(flag_event(tag, b)),
            None => Err(ErrorMsg::Malformed),
        }
    } else if tag == "OpenMedia"@ {
        match json_string_value(p) {
            Some(u) => Ok(EventMsg::OpenMedia(u)),
            None => Err(ErrorMsg::Malformed),
        }
    } else if tag == "Mpv"@ {
        match decode_mpv_spec(p) {
            Ok(m) => Ok(EventMsg::Mpv(m)),
            Err(e) => Err(e),
        }
    } else {
        Err(ErrorMsg::UnknownTag(tag))
    }
}

/// The event that a message stands for.
pub open spec fn decode_spec(text: Seq<char>) -> Result<EventMsg, ErrorMsg> {
    match single_entry(text) {
        Some((tag, p)) => decode_entry_spec(tag, p),
        None => Err(ErrorMsg::Malformed),
    }
}

fn single_member(text: &str) -> (r: Option<(String, String)>)
    ensures
        match (r, single_entry(text@)) {
            (None, None) => true,
            (Some(v), Some(e)) => v.0@ == e.0 && v.1@ == e.1,
            _ => false,
        },
{
    match parse_object(text) {
        Some(entries) => {
            if entries.len() == 1 {
                let k = entries[0].0.clone();
                let v = entries[0].1.clone();
                proof {
                    assert(entries_view(entries@)[0] == (entries@[0].0@, entries@[0].1@));
                }
                Some((k, v))
            } else {
                None
            }
        },
        None => None,
    }
}

fn name_and_value(p: &str) -> (r: Option<(String, String)>)
    ensures
        match (r, pair_payload(p@)) {
            (None, None) => true,
            (Some(v), Some(e)) => v.0@ == e.0 && v.1@ == e.1,
            _ => false,
        },
{
    match parse_array(p) {
        Some(items) => {
            if items.len() == 2 {
                proof {
                    assert(strings_view(items@)[0] == items@[0]@);
                    assert(strings_view(items@)[1] == items@[1]@);
                }
                match parse_string(items[0].as_str()) {
                    Some(name) => Some((name, items[1].clone())),
                    None => None,
                }
            } else {
                None
            }
        },
        None => None,
    }
}

fn string_items(p: &str) -> (r: Option<Vec<String>>)
    ensures
        match (r, string_list(p@)) {
            (None, None) => true,
            (Some(v), Some(e)) => strings_view(v@) == e,
            _ => false,
        },
{
    match parse_array(p) {
        Some(items) => {
            let ghost texts = strings_view(items@);
            let mut out: Vec<String> = Vec::new();
            let mut i: usize = 0;
            while i < items.len()
                invariant
                    texts == strings_view(items@),
                    json_array_items(p@) == Some(texts),
                    i <= items@.len(),
                    out@.len() == i,
                    forall|j: int| 0 <= j < i ==> #[trigger] json_string_value(texts[j]) == Some(
                        out@[j]@,
                    ),
                decreases items@.len() - i,
            {
                proof {
                    assert(texts[i as int] == items@[i as int]@);
                }
                match parse_string(items[i].as_str()) {
                    Some(s) => {
                        out.push(s);
                    },
                    None => {
                        assert(json_string_value(texts[i as int]) is None);
                        return None;
                    },
                }
                i = i + 1;
            }
            proof {
                assert(strings_view(out@) =~= texts.map_values(
                    |t: Seq<char>| json_string_value(t).unwrap(),
                ));
            }
            Some(out)
        },
        None => None,
    }
}

impl IpcEventMpv {
    /// The media-engine event that the member `sub: payload` stands for.
    pub fn from_entry(sub: &String, payload: &String) -> (r: Result<IpcEventMpv, IpcError>)
        ensures
            mpv_result_view(r) == decode_mpv_entry_spec(sub@, payload@),
    {
        if text_is(sub, "Observe") {
            match parse_string(payload.as_str()) {
                Some(n) => Ok(IpcEventMpv::Observe(n)),
                None => Err(IpcError::Malformed),
            }
        } else if text_is(sub, "Command") {
            match name_and_value(payload.as_str()) {
                Some((n, args)) => match string_items(args.as_str()) {
                    Some(a) => Ok(IpcEventMpv::Command((n, a))),
                    None => Err(IpcError::Malformed),
                },
                None => Err(IpcError::Malformed),
            }
        } else if text_is(sub, "Set") {
            match name_and_value(payload.as_str()) {
                Some((n, v)) => Ok(IpcEventMpv::SetProperty((n, v))),
                None => Err(IpcError::Malformed),
            }
        } else if text_is(sub, "Change") {
            match name_and_value(payload.as_str()) {
                Some((n, v)) => Ok(IpcEventMpv::Change((n, v))),
                None => Err(IpcError::Malformed),
            }
        } else if text_is(sub, "Ended") {
            if text_is(payload, "null") {
                Ok(IpcEventMpv::Ended(None))
            } else {
                match parse_string(payload.as_str()) {
                    Some(r) => Ok(IpcEventMpv::Ended(Some(r))),
                    None => Err(IpcError::Malformed),
                }
            }
        } else {
            Err(IpcError::UnknownTag(sub.clone()))
        }
    }
}

impl IpcEvent {
    /// The event that the member `tag: payload` of a message stands for.
    pub fn from_entry(tag: &String, payload: &String) -> (r: Result<IpcEvent, IpcError>)
        ensures
            result_view(r) == decode_entry_spec(tag@, payload@),
    {
        let is_init = text_is(tag, "Init");
        let is_ready = text_is(tag, "Ready");
        let is_quit = text_is(tag, "Quit");
        let is_fullscreen = text_is(tag, "Fullscreen");
        let is_minimized = text_is(tag, "Minimized");
        let is_visibility = text_is(tag, "Visibility");
        if is_init || is_ready || is_quit {
            if text_is(payload, "null") {
                Ok(
                    if is_init {
                        IpcEvent::Init
                    } else if is_ready {
                        IpcEvent::Ready
                    } else {
                        IpcEvent::Quit
                    },
                )
            } else {
                Err(IpcError::Malformed)
            }
        } else if is_fullscreen || is_minimized || is_visibility {
            let b = if text_is(payload, "true") {
                true
            } else if text_is(payload, "false") {
                false
            } else {
                return Err(IpcError::Malformed);
            };
            Ok(
                if is_fullscreen {
                    IpcEvent::Fullscreen(b)
                } else if is_minimized {
                    IpcEvent::Minimized(b)
                } else {
                    IpcEvent::Visibility(b)
                },
            )
        } else if text_is(tag, "OpenMedia") {
            match parse_string(payload.as_str()) {
                Some(u) => Ok(IpcEvent::OpenMedia(u)),
                None => Err(IpcError::Malformed),
            }
        } else if text_is(tag, "Mpv") {
            match single_member(payload.as_str()) {
                Some((sub, q)) => match IpcEventMpv::from_entry(&sub, &q) {
                    Ok(m) => Ok(IpcEvent::Mpv(m)),
                    Err(e) => Err(e),
                },
                None => Err(IpcError::Malformed),
            }
        } else {
            Err(IpcError::UnknownTag(tag.clone()))
        }
    }

    /// Parses one message of the web UI.
    pub fn try_from(value: &str) -> (r: Result<IpcEvent, IpcError>)
        ensures
            result_view(r) == decode_spec(value@),
    {
        match single_member(value) {
            Some((tag, payload)) => IpcEvent::from_entry(&tag, &payload),
            None => Err(IpcError::Malformed),
        }
    }
}

// ---- encoding ----

/// A message of one member `tag: payload`.
pub open spec fn frame(tag: Seq<char>, payload: Seq<char>) -> Seq<char> {
    "{\""@ + tag + "\":"@ + payload + "}"@
}

pub open spec fn bool_text(b: bool) -> Seq<char> {
    if b {
        "true"@
    } else {
        "false"@
    }
}

/// The JSON string literals of `items`, separated by commas.
pub open spec fn list_text(items: Seq<Seq<char>>) -> Seq<char>
    decreases items.len(),
{
    if items.len() == 0 {
        Seq::empty()
    } else if items.len() == 1 {
        json_quoted(items[0])
    } else {
        list_text(items.drop_last()) + ","@ + json_quoted(items.last())
    }
}

/// `[name, value]` with `name` quoted and `value` already JSON.
pub open spec fn pair_text(name: Seq<char>, value: Seq<char>) -> Seq<char> {
    "["@ + json_quoted(name) + ","@ + value + "]"@
}

pub open spec fn mpv_entry(m: MpvMsg) -> (Seq<char>, Seq<char>) {
    match m {
        MpvMsg::Observe(n) => ("Observe"@, json_quoted(n)),
        MpvMsg::Command(n, a) => ("Command"@, pair_text(n, "["@ + list_text(a) + "]"@)),
        MpvMsg::SetProperty(n, v) => ("Set"@, pair_text(n, v)),
        MpvMsg::Change(n, v) => ("Change"@, pair_text(n, v)),
        MpvMsg::Ended(None) => ("Ended"@, "null"@),
        MpvMsg::Ended(Some(r)) => ("Ended"@, json_quoted(r)),
    }
}

/// The member that stands for an event: its tag and its payload.
pub open spec fn entry_of(e: EventMsg) -> (Seq<char>, Seq<char>) {
    match e {
        EventMsg::Init => ("Init"@, "null"@),
        EventMsg::Ready => ("Ready"@, "null"@),
        EventMsg::Quit => ("Quit"@, "null"@),
        EventMsg::Fullscreen(b) => ("Fullscreen"@, bool_text(b)),
        EventMsg::Minimized(b) => ("Minimized"@, bool_text(b)),
        EventMsg::Visibility(b) => ("Visibility"@, bool_text(b)),
        EventMsg::OpenMedia(u) => ("OpenMedia"@, json_quoted(u)),
        EventMsg::Mpv(m) => ("Mpv"@, frame(mpv_entry(m).0, mpv_entry(m).1)),
    }
}

/// The message that carries an event.
pub open spec fn encode_spec(e: EventMsg) -> Seq<char> {
    frame(entry_of(e).0, entry_of(e).1)
}

fn framed(tag: &str, payload: &str) -> (r: String)
    ensures
        r@ == frame(tag@, payload@),
{
    let mut out = String::new();
    out.append("{\"");
    out.append(tag);
    out.append("\":");
    out.append(payload);
    out.append("}");
    assert(out@ =~= frame(tag@, payload@));
    out
}

fn pair_json(name: &str, value: &str) -> (r: String)
    ensures
        r@ == pair_text(name@, value@),
{
    let mut out = String::new();
    out.append("[");
    let q = quote(name);
    out.append(q.as_str());
    out.append(",");
    out.append(value);
    out.append("]");
    assert(out@ =~= pair_text(name@, value@));
    out
}

fn list_json(items: &Vec<String>) -> (r: String)
    ensures
        r@ == list_text(strings_view(items@)),
{
    let ghost all = strings_view(items@);
    let mut out = String::new();
    let mut i: usize = 0;
    while i < items.len()
        invariant
            all == strings_view(items@),
            i <= items@.len(),
            out@ == list_text(all.take(i as int)),
        decreases items@.len() - i,
    {
        let q = quote(items[i].as_str());
        proof {
            assert(all.take(i + 1).drop_last() =~= all.take(i as int));
            assert(all.take(i + 1).last() == items@[i as int]@);
        }
        if i > 0 {
            out.append(",");
        } else {
            assert(out@ =~= Seq::<char>::empty());
        }
        out.append(q.as_str());
        proof {
            if i == 0 {
                assert(out@ =~= list_text(all.take(1)));
            } else {
                assert(out@ =~= list_text(all.take(i + 1)));
            }
        }
        i = i + 1;
    }
    assert(all.take(items@.len() as int) =~= all);
    out
}

impl IpcEventMpv {
    /// The member `sub: payload` that stands for this event.
    pub fn to_entry(&self) -> (r: (String, String))
        ensures
            r.0@ == mpv_entry(self@).0,
            r.1@ == mpv_entry(self@).1,
    {
        match self {
            IpcEventMpv::Observe(n) => ("Observe".to_string(), quote(n.as_str())),
            IpcEventMpv::Command((n, a)) => {
                let mut list = String::new();
                list.append("[");
                let items = list_json(a);
                list.append(items.as_str());
                list.append("]");
                assert(list@ =~= "["@ + list_text(strings_view(a@)) + "]"@);
                ("Command".to_string(), pair_json(n.as_str(), list.as_str()))
            },
            IpcEventMpv::SetProperty((n, v)) => ("Set".to_string(), pair_json(n.as_str(), v.as_str())),
            IpcEventMpv::Change((n, v)) => ("Change".to_string(), pair_json(n.as_str(), v.as_str())),
            IpcEventMpv::Ended(None) => ("Ended".to_string(), "null".to_string()),
            IpcEventMpv::Ended(Some(r)) => ("Ended".to_string(), quote(r.as_str())),
        }
    }
}

impl IpcEvent {
    /// The member `tag: payload` that stands for this event.
    pub fn to_entry(&self) -> (r: (String, String))
        ensures
            r.0@ == entry_of(self@).0,
            r.1@ == entry_of(self@).1,
    {
        match self {
            IpcEvent::Init => ("Init".to_string(), "null".to_string()),
            IpcEvent::Ready => ("Ready".to_string(), "null".to_string()),
            IpcEvent::Quit => ("Quit".to_string(), "null".to_string()),
            IpcEvent::Fullscreen(b) => ("Fullscreen".to_string(), flag_json(*b)),
            IpcEvent::Minimized(b) => ("Minimized".to_string(), flag_json(*b)),
            IpcEvent::Visibility(b) => ("Visibility".to_string(), flag_json(*b)),
            IpcEvent::OpenMedia(u) => ("OpenMedia".to_string(), quote(u.as_str())),
            IpcEvent::Mpv(m) => {
                let (sub, payload) = m.to_entry();
                ("Mpv".to_string(), framed(sub.as_str(), payload.as_str()))
            },
        }
    }
}

fn flag_json(b: bool) -> (r: String)
    ensures
        r@ == bool_text(b),
{
    if b {
        "true".to_string()
    } else {
        "false".to_string()
    }
}

/// Reading back the member that carries an event whose payload is a flag or
/// nothing (`Init`, `Ready`, `Quit`, `Fullscreen`, `Minimized`,
/// `Visibility`) gives the same event: same tag, same payload.
pub proof fn lemma_entry_round_trip(e: EventMsg)
    requires
        e is Init || e is Ready || e is Quit || e is Fullscreen || e is Minimized || e is Visibility,
    ensures
        decode_entry_spec(entry_of(e).0, entry_of(e).1) == Ok::<EventMsg, ErrorMsg>(e),
{
    reveal_strlit("Init");
    reveal_strlit("Ready");
    reveal_strlit("Quit");
    reveal_strlit("Fullscreen");
    reveal_strlit("Minimized");
    reveal_strlit("Visibility");
    reveal_strlit("null");
    reveal_strlit("true");
    reveal_strlit("false");
    let tags = seq!["Init"@, "Ready"@, "Quit"@, "Fullscreen"@, "Minimized"@, "Visibility"@];
    assert(forall|i: int, j: int|
        0 <= i < 6 && 0 <= j < 6 && i != j ==> #[trigger] tags[i][0] != #[trigger] tags[j][0]);
    assert forall|i: int, j: int| 0 <= i < 6 && 0 <= j < 6 && i != j implies tags[i] != tags[j] by {
        assert(tags[i][0] != tags[j][0]);
    }
    assert("true"@.len() != "false"@.len());
}

/// The message that carries `event` to the web UI.
pub fn create_response(event: &IpcEvent) -> (r: String)
    ensures
        r@ == encode_spec(event@),
{
    let (tag, payload) = event.to_entry();
    framed(tag.as_str(), payload.as_str())
}

} // verus!
