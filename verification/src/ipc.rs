//! The control protocol between the daemon and its clients.
//!
//! A client sends one request on one line and reads one response on one
//! line; both are JSON objects whose member `type` names the variant. This
//! module writes the lines and decides what the daemon answers; reading a
//! line back into a value and moving lines over the socket are the
//! caller's part.

use vstd::prelude::*;
use vstd::string::StringExecFns;
use crate::paths::{join, joined};
use crate::text::{decimal_digits, from_chars, push_decimal, push_str, to_chars, views};

verus! {

/// A request to the daemon.
#[derive(Debug, Clone, Copy, PartialEq, Eq, Structural)]
pub enum DaemonCommand {
    /// Ask for the status.
    Status,
    /// Ask the daemon to load its configuration again.
    Reload,
    /// Ask the daemon to end.
    Stop,
    /// Ask for the latest entries of the log.
    GetLog { limit: usize },
    /// Ask for the statistics.
    GetStats,
}

/// A response of the daemon.
#[derive(Debug, Clone)]
pub enum DaemonResponse {
    /// The status.
    Status { running: bool, uptime_seconds: u64, watches: usize, rules: usize, files_processed: u64 },
    /// Entries of the log.
    Log { entries: Vec<String> },
    /// The request was taken. On the wire its type is `ok`.
    Acknowledged,
    /// The request could not be taken.
    Error { message: String },
}

/// Why a request got no response.
#[derive(Debug, Clone)]
pub enum IpcError {
    /// There are no local sockets on this platform.
    Unsupported,
    /// The daemon could not be reached.
    Unreachable(String),
    /// The response could not be read.
    Unreadable(String),
}

/// What the daemon knows of itself when a request arrives.
#[derive(Debug, Clone, Copy, PartialEq, Eq, Structural)]
pub struct DaemonFacts {
    /// How long the daemon has run, in seconds.
    pub uptime_seconds: u64,
    /// How many directories the configuration watches.
    pub watches: usize,
    /// How many rules the configuration holds.
    pub rules: usize,
    /// How many files were processed.
    pub files_processed: u64,
}

/// What the daemon's loop waits for.
#[derive(Debug)]
pub enum LoopEvent {
    /// The signal to terminate.
    Terminate,
    /// The signal to interrupt.
    Interrupt,
    /// The hang-up signal, which asks for a reload.
    HangUp,
    /// The polling timer.
    Tick,
    /// One line from a client: the request it holds, or why it holds none.
    Request(Result<DaemonCommand, String>),
}

/// What the daemon's loop does next.
#[derive(Debug, Clone)]
pub struct Decision {
    /// The response to send first, where the event was a request.
    pub response: Option<DaemonResponse>,
    /// Process the events of the watched directories.
    pub poll: bool,
    /// Load the configuration again and replace the watcher.
    pub reload: bool,
    /// Leave the loop, then remove the PID file and the socket.
    pub stop: bool,
}

/// The text of the member `type` for a request.
pub open spec fn command_tag(cmd: DaemonCommand) -> Seq<char> {
    match cmd {
        DaemonCommand::Status => "status"@,
        DaemonCommand::Reload => "reload"@,
        DaemonCommand::Stop => "stop"@,
        DaemonCommand::GetLog { limit } => "get_log"@,
        DaemonCommand::GetStats => "get_stats"@,
    }
}

/// A request as JSON.
pub open spec fn command_json(cmd: DaemonCommand) -> Seq<char> {
    match cmd {
        DaemonCommand::GetLog { limit } => "{\"type\":\"get_log\",\"limit\":"@ + decimal_digits(
            limit as nat,
        ) + "}"@,
        _ => "{\"type\":\""@ + command_tag(cmd) + "\"}"@,
    }
}

/// The digit of base sixteen for `d`.
pub open spec fn hex_digit(d: nat) -> char {
    if d % 16 < 10 {
        ((48 + d % 16) as u8) as char
    } else {
        ((87 + d % 16) as u8) as char
    }
}

/// One character as it stands inside a JSON string.
pub open spec fn json_char(c: char) -> Seq<char> {
    if c == '"' {
        seq!['\\', '"']
    } else if c == '\\' {
        seq!['\\', '\\']
    } else if c == '\u{8}' {
        seq!['\\', 'b']
    } else if c == '\u{c}' {
        seq!['\\', 'f']
    } else if c == '\n' {
        seq!['\\', 'n']
    } else if c == '\r' {
        seq!['\\', 'r']
    } else if c == '\t' {
        seq!['\\', 't']
    } else if (c as u32) < 0x20 {
        seq!['\\', 'u', '0', '0', hex_digit((c as u32 / 16) as nat), hex_digit((c as u32 % 16) as nat)]
    } else {
        seq![c]
    }
}

/// The characters of `s` as they stand inside a JSON string.
pub open spec fn json_chars(s: Seq<char>) -> Seq<char>
    decreases s.len(),
{
    if s.len() == 0 {
        Seq::empty()
    } else {
        json_chars(s.drop_last()) + json_char(s.last())
    }
}

/// `s` as a JSON string.
pub open spec fn json_string(s: Seq<char>) -> Seq<char> {
    seq!['"'] + json_chars(s) + seq!['"']
}

/// The first `n` of `items` as the elements of a JSON array.
pub open spec fn json_items(items: Seq<Seq<char>>, n: int) -> Seq<char>
    decreases n,
{
    if n <= 0 {
        Seq::empty()
    } else if n == 1 {
        json_string(items[0])
    } else {
        json_items(items, n - 1) + seq![','] + json_string(items[n - 1])
    }
}

/// `true` or `false`.
pub open spec fn json_bool(b: bool) -> Seq<char> {
    if b {
        "true"@
    } else {
        "false"@
    }
}

/// A response as JSON.
pub open spec fn response_json(r: DaemonResponse) -> Seq<char> {
    match r {
        DaemonResponse::Status { running, uptime_seconds, watches, rules, files_processed } => {
            "{\"type\":\"status\",\"running\":"@ + json_bool(running) + ",\"uptime_seconds\":"@
                + decimal_digits(uptime_seconds as nat) + ",\"watches\":"@ + decimal_digits(
                watches as nat,
            ) + ",\"rules\":"@ + decimal_digits(rules as nat) + ",\"files_processed\":"@
                + decimal_digits(files_processed as nat) + "}"@
        },
        DaemonResponse::Log { entries } => "{\"type\":\"log\",\"entries\":["@ + json_items(
            views(entries@),
            entries@.len() as int,
        ) + "]}"@,
        DaemonResponse::Acknowledged => "{\"type\":\"ok\"}"@,
        DaemonResponse::Error { message } => "{\"type\":\"error\",\"message\":"@ + json_string(
            message@,
        ) + "}"@,
    }
}

/// A line of the protocol: the JSON text and a line feed.
pub open spec fn line_of(json: Seq<char>) -> Seq<char> {
    json + seq!['\n']
}

/// Writes a request as JSON.
pub fn encode_command(cmd: &DaemonCommand) -> (r: String)
    ensures
        r@ == command_json(*cmd),
{
    let mut out: Vec<char> = Vec::new();
    match cmd {
        DaemonCommand::GetLog { limit } => {
            push_str(&mut out, "{\"type\":\"get_log\",\"limit\":");
            push_decimal(&mut out, *limit as u64);
            push_str(&mut out, "}");
        },
        _ => {
            push_str(&mut out, "{\"type\":\"");
            let tag = match cmd {
                DaemonCommand::Status => "status",
                DaemonCommand::Reload => "reload",
                DaemonCommand::Stop => "stop",
                DaemonCommand::GetLog { .. } => "get_log",
                DaemonCommand::GetStats => "get_stats",
            };
            push_str(&mut out, tag);
            push_str(&mut out, "\"}");
        },
    }
    assert(out@ =~= command_json(*cmd));
    from_chars(&out)
}

/// The digit of base sixteen for `d`.
fn hex(d: u32) -> (r: char)
    requires
        d < 16,
    ensures
        r == hex_digit(d as nat),
{
    if d < 10 {
        ((48 + d) as u8) as char
    } else {
        ((87 + d) as u8) as char
    }
}

/// Appends `c` to `out` as it stands inside a JSON string.
fn push_json_char(out: &mut Vec<char>, c: char)
    ensures
        final(out)@ == old(out)@ + json_char(c),
{
    if c == '"' {
        out.push('\\');
        out.push('"');
    } else if c == '\\' {
        out.push('\\');
        out.push('\\');
    } else if c == '\u{8}' {
        out.push('\\');
        out.push('b');
    } else if c == '\u{c}' {
        out.push('\\');
        out.push('f');
    } else if c == '\n' {
        out.push('\\');
        out.push('n');
    } else if c == '\r' {
        out.push('\\');
        out.push('r');
    } else if c == '\t' {
        out.push('\\');
        out.push('t');
    } else if (c as u32) < 0x20 {
        let code = c as u32;
        out.push('\\');
        out.push('u');
        out.push('0');
        out.push('0');
        out.push(hex(code / 16));
        out.push(hex(code % 16));
    } else {
        out.push(c);
    }
    assert(final(out)@ =~= old(out)@ + json_char(c));
}

/// Appends `s` to `out` as a JSON string.
pub fn push_json_string(out: &mut Vec<char>, s: &str)
    ensures
        final(out)@ == old(out)@ + json_string(s@),
{
    let chars = to_chars(s);
    out.push('"');
    let mut i: usize = 0;
    assert(chars@.take(0) =~= Seq::<char>::empty());
    assert(out@ =~= old(out)@ + seq!['"'] + json_chars(chars@.take(0)));
    while i < chars.len()
        invariant
            i <= chars.len(),
            out@ == old(out)@ + seq!['"'] + json_chars(chars@.take(i as int)),
        decreases chars.len() - i,
    {
        push_json_char(out, chars[i]);
        assert(chars@.take(i + 1).drop_last() =~= chars@.take(i as int));
        assert(out@ =~= old(out)@ + seq!['"'] + json_chars(chars@.take(i + 1)));
        i += 1;
    }
    assert(chars@.take(i as int) =~= chars@);
    out.push('"');
    assert(out@ =~= old(out)@ + json_string(s@));
}

/// Writes a response as JSON.
pub fn encode_response(response: &DaemonResponse) -> (r: String)
    ensures
        r@ == response_json(*response),
{
    let mut out: Vec<char> = Vec::new();
    match response {
        DaemonResponse::Status { running, uptime_seconds, watches, rules, files_processed } => {
            push_str(&mut out, "{\"type\":\"status\",\"running\":");
            push_str(
                &mut out,
                if *running {
                    "true"
                } else {
                    "false"
                },
            );
            push_str(&mut out, ",\"uptime_seconds\":");
            push_decimal(&mut out, *uptime_seconds);
            push_str(&mut out, ",\"watches\":");
            push_decimal(&mut out, *watches as u64);
            push_str(&mut out, ",\"rules\":");
            push_decimal(&mut out, *rules as u64);
            push_str(&mut out, ",\"files_processed\":");
            push_decimal(&mut out, *files_processed);
            push_str(&mut out, "}");
            assert(out@ =~= response_json(*response));
        },
        DaemonResponse::Log { entries } => {
            push_str(&mut out, "{\"type\":\"log\",\"entries\":[");
            let ghost head = out@;
            let mut i: usize = 0;
            assert(out@ =~= head + json_items(views(entries@), 0));
            while i < entries.len()
                invariant
                    i <= entries.len(),
                    out@ == head + json_items(views(entries@), i as int),
                decreases entries.len() - i,
            {
                if i > 0 {
                    out.push(',');
                }
                push_json_string(&mut out, entries[i].as_str());
                assert(views(entries@)[i as int] == entries@[i as int]@);
                assert(out@ =~= head + json_items(views(entries@), i + 1));
                i += 1;
            }
            push_str(&mut out, "]}");
            assert(out@ =~= response_json(*response));
        },
        DaemonResponse::Acknowledged => {
            push_str(&mut out, "{\"type\":\"ok\"}");
            assert(out@ =~= response_json(*response));
        },
        DaemonResponse::Error { message } => {
            push_str(&mut out, "{\"type\":\"error\",\"message\":");
            push_json_string(&mut out, message.as_str());
            push_str(&mut out, "}");
            assert(out@ =~= response_json(*response));
        },
    }
    from_chars(&out)
}

/// The line that carries `json`.
pub fn frame(json: &str) -> (r: String)
    ensures
        r@ == line_of(json@),
{
    let mut out = to_chars(json);
    out.push('\n');
    from_chars(&out)
}

/// The line to send for `cmd`, where the platform has local sockets.
pub fn send_command(cmd: &DaemonCommand, sockets: bool) -> (r: Result<String, IpcError>)
    ensures
        match r {
            Ok(line) => sockets && line@ == line_of(command_json(*cmd)),
            Err(e) => !sockets && e is Unsupported,
        },
{
    if !sockets {
        return Err(IpcError::Unsupported);
    }
    Ok(frame(encode_command(cmd).as_str()))
}

/// Whether the daemon runs: it does where a status request was answered.
/// A PID file alone does not tell.
pub fn is_daemon_running(reply: &Result<DaemonResponse, IpcError>) -> (r: bool)
    ensures
        r == (reply is Ok),
{
    match reply {
        Ok(_) => true,
        Err(_) => false,
    }
}

/// The path of the control socket: `hazelnut.sock` in the runtime
/// directory, else in the data directory, else in `/tmp`.
pub fn socket_path(runtime_dir: Option<&str>, data_dir: Option<&str>) -> (r: String)
    ensures
        r@ == (match (runtime_dir, data_dir) {
            (Some(d), _) => joined(d@, "hazelnut.sock"@),
            (None, Some(d)) => joined(d@, "hazelnut.sock"@),
            (None, None) => "/tmp/hazelnut.sock"@,
        }),
{
    match (runtime_dir, data_dir) {
        (Some(d), _) => join(d, "hazelnut.sock"),
        (None, Some(d)) => join(d, "hazelnut.sock"),
        (None, None) => "/tmp/hazelnut.sock".to_owned(),
    }
}

/// The status that the daemon reports of itself.
pub open spec fn is_status_of(r: DaemonResponse, facts: DaemonFacts) -> bool {
    r matches DaemonResponse::Status { running, uptime_seconds, watches, rules, files_processed }
        && running && uptime_seconds == facts.uptime_seconds && watches == facts.watches && rules
        == facts.rules && files_processed == facts.files_processed
}

/// What the daemon answers to a request, and what it does then.
pub open spec fn answered(request: Result<DaemonCommand, String>, facts: DaemonFacts, d: Decision)
    -> bool {
    &&& !d.poll
    &&& d.response matches Some(r) && match request {
        Ok(DaemonCommand::Status) | Ok(DaemonCommand::GetStats) => is_status_of(r, facts)
            && !d.reload && !d.stop,
        Ok(DaemonCommand::Reload) => r is Acknowledged && d.reload && !d.stop,
        Ok(DaemonCommand::Stop) => r is Acknowledged && !d.reload && d.stop,
        Ok(DaemonCommand::GetLog { limit }) => r matches DaemonResponse::Log { entries }
            && entries@.len() == 0 && !d.reload && !d.stop,
        Err(why) => r matches DaemonResponse::Error { message } && message@
            == "Invalid command: "@ + why@ && !d.reload && !d.stop,
    }
}

/// What the daemon's loop does on an event.
pub open spec fn decided(event: LoopEvent, facts: DaemonFacts, d: Decision) -> bool {
    match event {
        LoopEvent::Terminate | LoopEvent::Interrupt => d.response is None && !d.poll && !d.reload
            && d.stop,
        LoopEvent::HangUp => d.response is None && !d.poll && d.reload && !d.stop,
        LoopEvent::Tick => d.response is None && d.poll && !d.reload && !d.stop,
        LoopEvent::Request(request) => answered(request, facts, d),
    }
}

/// Answers one request. Every request gets a response, one that cannot be
/// read too. A request to stop is answered before the daemon leaves its
/// loop.
pub fn handle_request(request: &Result<DaemonCommand, String>, facts: &DaemonFacts) -> (d: Decision)
    ensures
        answered(*request, *facts, d),
{
    let status = DaemonResponse::Status {
        running: true,
        uptime_seconds: facts.uptime_seconds,
        watches: facts.watches,
        rules: facts.rules,
        files_processed: facts.files_processed,
    };
    match request {
        Ok(DaemonCommand::Status) => Decision {
            response: Some(status),
            poll: false,
            reload: false,
            stop: false,
        },
        Ok(DaemonCommand::GetStats) => Decision {
            response: Some(status),
            poll: false,
            reload: false,
            stop: false,
        },
        Ok(DaemonCommand::Reload) => Decision {
            response: Some(DaemonResponse::Acknowledged),
            poll: false,
            reload: true,
            stop: false,
        },
        Ok(DaemonCommand::Stop) => Decision {
            response: Some(DaemonResponse::Acknowledged),
            poll: false,
            reload: false,
            stop: true,
        },
        Ok(DaemonCommand::GetLog { .. }) => Decision {
            response: Some(DaemonResponse::Log { entries: Vec::new() }),
            poll: false,
            reload: false,
            stop: false,
        },
        Err(why) => {
            let mut message = String::from_str("Invalid command: ");
            message.append(why.as_str());
            Decision {
                response: Some(DaemonResponse::Error { message }),
                poll: false,
                reload: false,
                stop: false,
            }
        },
    }
}

/// Decides what the daemon's loop does on an event: the signals to
/// terminate and to interrupt end the loop, the hang-up signal reloads, the
/// timer polls, and a request is answered.
pub fn on_event(event: &LoopEvent, facts: &DaemonFacts) -> (d: Decision)
    ensures
        decided(*event, *facts, d),
{
    match event {
        LoopEvent::Terminate => Decision { response: None, poll: false, reload: false, stop: true },
        LoopEvent::Interrupt => Decision { response: None, poll: false, reload: false, stop: true },
        LoopEvent::HangUp => Decision { response: None, poll: false, reload: true, stop: false },
        LoopEvent::Tick => Decision { response: None, poll: true, reload: false, stop: false },
        LoopEvent::Request(request) => handle_request(request, facts),
    }
}

} // verus!
