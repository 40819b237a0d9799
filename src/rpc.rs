//! The network side: request envelopes, request identifiers, and the
//! formatting of replies. The HTTP exchange itself happens outside.
use vstd::prelude::*;

use crate::ConsoleError;
use vstd::arithmetic::power::pow;

verus! {

#[verifier::external_type_specification]
#[verifier::external_body]
pub struct ExJsonError(serde_json::Error);

#[verifier::external_type_specification]
#[verifier::external_body]
pub struct ExJsonValue(serde_json::Value);

/// The lower-case hexadecimal digit for `n`, for `n` in `0..16`.
pub open spec fn hex_digit(n: int) -> char {
    seq!['0', '1', '2', '3', '4', '5', '6', '7', '8', '9', 'a', 'b', 'c', 'd', 'e', 'f'][n]
}

/// How one character stands inside a JSON string literal: quote and
/// backslash are escaped, so are the control characters, with a short escape
/// where JSON has one and `\u00xx` otherwise; every other character stands
/// as it is.
pub open spec fn escaped_char(c: char) -> Seq<char> {
    if c == '"' {
        seq!['\\', '"']
    } else if c == '\\' {
        seq!['\\', '\\']
    } else if c == '\x08' {
        seq!['\\', 'b']
    } else if c == '\t' {
        seq!['\\', 't']
    } else if c == '\n' {
        seq!['\\', 'n']
    } else if c == '\x0c' {
        seq!['\\', 'f']
    } else if c == '\r' {
        seq!['\\', 'r']
    } else if (c as u32) < 0x20 {
        seq!['\\', 'u', '0', '0', hex_digit((c as u32 / 16) as int), hex_digit((c as u32 % 16) as int)]
    } else {
        seq![c]
    }
}

/// The characters of `s`, each escaped for a JSON string literal.
pub open spec fn escaped(s: Seq<char>) -> Seq<char>
    decreases s.len(),
{
    if s.len() == 0 {
        seq![]
    } else {
        escaped(s.drop_last()) + escaped_char(s.last())
    }
}

/// The JSON string literal for the text `s`.
pub open spec fn json_quoted(s: Seq<char>) -> Seq<char> {
    seq!['"'] + escaped(s) + seq!['"']
}

/// The indented JSON text that serde_json writes for the value `v`.
pub uninterp spec fn pretty_text(v: serde_json::Value) -> Seq<char>;

/// The `k`-th of the 32 hexadecimal digits of `id`, most significant first.
pub open spec fn id_digit(id: u128, k: int) -> int {
    (id as int / pow(16, (31 - k) as nat)) % 16
}

/// Which of the 32 digits stands at position `i` of the hyphenated form.
pub open spec fn digit_at(i: int) -> int {
    if i < 8 {
        i
    } else if i < 13 {
        i - 1
    } else if i < 18 {
        i - 2
    } else if i < 23 {
        i - 3
    } else {
        i - 4
    }
}

/// The lower-case hyphenated form of the UUID whose 128-bit value is `id`:
/// its 32 hexadecimal digits, most significant first, with a hyphen after
/// the 8th, 12th, 16th and 20th.
pub open spec fn uuid_text(id: u128) -> Seq<char> {
    Seq::new(
        36,
        |i: int|
            if i == 8 || i == 13 || i == 18 || i == 23 {
                '-'
            } else {
                hex_digit(id_digit(id, digit_at(i)))
            },
    )
}

/// Relies on `serde_json::to_string` applied to a `str`: the JSON string
/// literal for the text. Escaping a `str` into memory cannot fail.
#[verifier::external_body]
fn json_string(s: &str) -> (r: Result<String, serde_json::Error>)
    ensures
        r is Ok,
        r matches Ok(t) ==> t@ == json_quoted(s@),
{
    serde_json::to_string(s)
}

/// Relies on `serde_json::to_string_pretty`: the value written as indented
/// JSON. Writing a `Value` into memory cannot fail.
#[verifier::external_body]
fn pretty_json(v: &serde_json::Value) -> (r: Result<String, serde_json::Error>)
    ensures
        r is Ok,
        r matches Ok(t) ==> t@ == pretty_text(*v),
{
    serde_json::to_string_pretty(v)
}

/// Relies on `uuid::Uuid::hyphenated` and its `Display`: the lower-case
/// hyphenated form of the UUID with value `id`.
#[verifier::external_body]
fn hyphenated(id: u128) -> (r: String)
    ensures
        r@ == uuid_text(id),
{
    uuid::Uuid::from_u128(id).hyphenated().to_string()
}

/// Relies on `uuid::Uuid::new_v4`: a random UUID, its version nibble set to
/// 4 and its variant bits to `10`.
#[verifier::external_body]
fn new_v4_id() -> (r: u128)
    ensures
        r & 0xF000C000000000000000u128 == 0x40008000000000000000u128,
{
    uuid::Uuid::new_v4().as_u128()
}

/// The method every request calls.
pub const METHOD: &'static str = "printer.gcode.script";

/// The path of the JSON-RPC endpoint below the server's base address.
pub const RPC_PATH: &'static str = "/server/jsonrpc";

/// The body of a request, given the JSON forms of its identifier and script.
pub open spec fn envelope_text(id_json: Seq<char>, script_json: Seq<char>) -> Seq<char> {
    "{\"jsonrpc\":\"2.0\",\"id\":"@ + id_json + ",\"method\":\"printer.gcode.script\",\"params\":{\"script\":"@
        + script_json + "}}"@
}

/// The body of the request with identifier `id` for the script `script`.
pub open spec fn request_body(id: u128, script: Seq<char>) -> Seq<char> {
    envelope_text(json_quoted(uuid_text(id)), json_quoted(script))
}

/// Writes the body of a request from the JSON forms of its identifier and script.
pub fn frame_envelope(id_json: &str, script_json: &str) -> (r: String)
    ensures
        r@ == envelope_text(id_json@, script_json@),
{
    let mut body = String::new();
    body.push_str("{\"jsonrpc\":\"2.0\",\"id\":");
    body.push_str(id_json);
    body.push_str(",\"method\":\"printer.gcode.script\",\"params\":{\"script\":");
    body.push_str(script_json);
    body.push_str("}}");
    body
}

/// The body of the request with identifier `id` for `script`.
pub fn envelope(id: u128, script: &str) -> (r: Result<String, ConsoleError>)
    ensures
        r is Ok,
        r matches Ok(b) ==> b@ == request_body(id, script@),
{
    let id_text = hyphenated(id);
    let id_json = match json_string(id_text.as_str()) {
        Ok(t) => t,
        Err(e) => return Err(ConsoleError::Serde(e)),
    };
    let script_json = match json_string(script) {
        Ok(t) => t,
        Err(e) => return Err(ConsoleError::Serde(e)),
    };
    Ok(frame_envelope(id_json.as_str(), script_json.as_str()))
}

/// The address of the JSON-RPC endpoint of the server at `base`.
pub fn endpoint(base: &str) -> (r: String)
    ensures
        r@ == base@ + RPC_PATH@,
{
    let mut url = String::new();
    url.push_str(base);
    url.push_str(RPC_PATH);
    url
}

/// A reply formatted for the scrollback: the JSON value, indented.
pub fn format_json(value: &serde_json::Value) -> (r: Result<String, ConsoleError>)
    ensures
        r is Ok,
        r matches Ok(t) ==> t@ == pretty_text(*value),
{
    match pretty_json(value) {
        Ok(s) => Ok(s),
        Err(e) => Err(ConsoleError::Serde(e)),
    }
}

/// A request ready to be posted.
pub struct Request {
    pub id: u128,
    pub body: String,
}

/// The network loop's memory between requests: the identifier of the last
/// request it issued.
pub struct NetworkLoop {
    last_id: Option<u128>,
}

/// The texts of a command taken from the queue, or `None` for a closed queue.
pub open spec fn command_text(command: Option<String>) -> Option<Seq<char>> {
    match command {
        Some(c) => Some(c@),
        None => None,
    }
}

/// One step of the network loop from `old` to `new` on `command` with
/// result `r`. A closed queue ends the loop with a disconnect and no
/// change; an issued request carries a fresh identifier, different from the
/// previous one, and the body for the command; a failed step changes
/// nothing, and with a command it fails only on a drawn identifier that
/// repeats the previous one.
pub open spec fn request_step(
    old: NetworkLoop,
    command: Option<Seq<char>>,
    new: NetworkLoop,
    r: Result<Request, ConsoleError>,
) -> bool {
    &&& command is None <==> (r is Err && r->Err_0 is DisconnectedIOChannel)
    &&& r is Ok ==> {
        let req = r->Ok_0;
        &&& old.last_id() != Some(req.id)
        &&& new.last_id() == Some(req.id)
        &&& req.body@ == request_body(req.id, command->0)
    }
    &&& r is Err ==> {
        let e = r->Err_0;
        &&& new == old
        &&& command is Some ==> e is RepeatedRequestId && old.last_id() is Some
    }
}

impl NetworkLoop {
    /// The identifier of the last request issued, if any.
    pub closed spec fn last_id(&self) -> Option<u128> {
        self.last_id
    }

    /// A loop that has issued nothing yet.
    pub fn new() -> (r: Self)
        ensures
            r.last_id() is None,
    {
        NetworkLoop { last_id: None }
    }

    /// Turns `script` into the request with identifier `id`, unless `id`
    /// repeats the identifier of the previous request.
    pub fn request_for(&mut self, id: u128, script: String) -> (r: Result<Request, ConsoleError>)
        ensures
            old(self).last_id() == Some(id) ==> r is Err && r->Err_0 is RepeatedRequestId
                && *final(self) == *old(self),
            old(self).last_id() != Some(id) ==> r is Ok && r->Ok_0.id == id && r->Ok_0.body@
                == request_body(id, script@) && final(self).last_id() == Some(id),
    {
        if self.last_id == Some(id) {
            return Err(ConsoleError::RepeatedRequestId);
        }
        match envelope(id, script.as_str()) {
            Ok(body) => {
                self.last_id = Some(id);
                Ok(Request { id, body })
            },
            Err(e) => Err(e),
        }
    }

    /// Turns the next command from the queue into a request with a freshly
    /// drawn identifier. A closed queue is fatal, and so is a drawn
    /// identifier equal to the previous one.
    pub fn next_request(&mut self, command: Option<String>) -> (r: Result<Request, ConsoleError>)
        ensures
            request_step(*old(self), command_text(command), *final(self), r),
    {
        let script = match command {
            Some(c) => c,
            None => return Err(ConsoleError::DisconnectedIOChannel),
        };
        let id = new_v4_id();
        self.request_for(id, script)
    }
}

/// Two requests issued one after the other carry different identifiers.
pub proof fn lemma_consecutive_ids_differ(
    s0: NetworkLoop,
    c1: Option<Seq<char>>,
    s1: NetworkLoop,
    r1: Result<Request, ConsoleError>,
    c2: Option<Seq<char>>,
    s2: NetworkLoop,
    r2: Result<Request, ConsoleError>,
)
    requires
        request_step(s0, c1, s1, r1),
        request_step(s1, c2, s2, r2),
        r1 is Ok,
        r2 is Ok,
    ensures
        r1->Ok_0.id != r2->Ok_0.id,
{
}

/// A closed command queue ends the network loop with a disconnect, and a
/// session that ends so exits with a non-zero status.
pub proof fn lemma_closed_command_queue_fails(
    s0: NetworkLoop,
    s1: NetworkLoop,
    r: Result<Request, ConsoleError>,
)
    requires
        request_step(s0, None, s1, r),
    ensures
        r is Err && r->Err_0 is DisconnectedIOChannel,
        s1 == s0,
        crate::exit_code_of::<ConsoleError>(Err(r->Err_0)) != 0,
{
}

} // verus!
