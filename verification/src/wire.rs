//! The text of the frames sent to a device: one JSON object per frame,
//! `{"type": <variant>, "data": <payload>}`.
//!
//! The layout of each object is written out here. How a string is quoted
//! and escaped is left to `serde_json`.

use vstd::prelude::*;
use vstd::string::StringExecFns;
use crate::monitor::{ChunkData, HostMessage, Hundredths, StaticInfo, SystemStats};

verus! {

/// `serde_json::Error`, which is only passed on: nothing is known of what
/// it holds.
#[verifier::external_type_specification]
#[verifier::external_body]
pub struct ExJsonError(serde_json::Error);

/// The JSON string literal, quotes included, that `serde_json` writes for a
/// string.
pub uninterp spec fn json_string(text: Seq<char>) -> Seq<char>;

/// Calls `serde_json::to_string` on a string slice. The call succeeds
/// and its result is the JSON string literal for `text`. By its
/// documentation the call fails only where the value's `Serialize` impl
/// fails or the value holds a map with keys that are no strings; a string
/// slice does neither, and the text is written to a `Vec<u8>`.
#[verifier::external_body]
fn json_quote(text: &str) -> (quoted: Result<String, serde_json::Error>)
    ensures
        quoted is Ok,
        quoted matches Ok(q) ==> q@ == json_string(text@),
{
    serde_json::to_string(text)
}

/// A value could not be turned into JSON text.
#[derive(Debug, Clone, Copy, PartialEq, Eq, Structural)]
pub struct EncodeError;

/// The decimal digit for `d`, for `d` below ten.
pub open spec fn digit(d: nat) -> char {
    if d == 0 {
        '0'
    } else if d == 1 {
        '1'
    } else if d == 2 {
        '2'
    } else if d == 3 {
        '3'
    } else if d == 4 {
        '4'
    } else if d == 5 {
        '5'
    } else if d == 6 {
        '6'
    } else if d == 7 {
        '7'
    } else if d == 8 {
        '8'
    } else {
        '9'
    }
}

/// The decimal numeral of `n`, without leading zeros.
pub open spec fn decimal(n: nat) -> Seq<char>
    decreases n,
{
    if n < 10 {
        seq![digit(n)]
    } else {
        decimal(n / 10).push(digit(n % 10))
    }
}

fn digit_text(d: u64) -> (text: &'static str)
    requires
        d < 10,
    ensures
        text@ == seq![digit(d as nat)],
{
    proof {
        reveal_strlit("0");
        reveal_strlit("1");
        reveal_strlit("2");
        reveal_strlit("3");
        reveal_strlit("4");
        reveal_strlit("5");
        reveal_strlit("6");
        reveal_strlit("7");
        reveal_strlit("8");
        reveal_strlit("9");
    }
    if d == 0 {
        "0"
    } else if d == 1 {
        "1"
    } else if d == 2 {
        "2"
    } else if d == 3 {
        "3"
    } else if d == 4 {
        "4"
    } else if d == 5 {
        "5"
    } else if d == 6 {
        "6"
    } else if d == 7 {
        "7"
    } else if d == 8 {
        "8"
    } else {
        "9"
    }
}

/// Writes `n` in decimal.
pub fn decimal_text(n: u64) -> (text: String)
    ensures
        text@ == decimal(n as nat),
    decreases n,
{
    if n < 10 {
        String::from_str(digit_text(n))
    } else {
        let mut text = decimal_text(n / 10);
        text.append(digit_text(n % 10));
        text
    }
}

/// The numeral of a reading: sign, whole part, a point and two decimals.
pub open spec fn hundredths(value: int) -> Seq<char> {
    let magnitude = if value < 0 {
        -value
    } else {
        value
    };
    let sign = if value < 0 {
        seq!['-']
    } else {
        Seq::<char>::empty()
    };
    sign + decimal((magnitude / 100) as nat) + seq!['.'] + seq![
        digit(((magnitude / 10) % 10) as nat),
        digit((magnitude % 10) as nat),
    ]
}

/// Writes a reading as a JSON number with two decimals.
pub fn hundredths_text(value: Hundredths) -> (text: String)
    ensures
        text@ == hundredths(value.0 as int),
{
    proof {
        reveal_strlit("-");
        reveal_strlit(".");
        reveal_strlit("");
    }
    let magnitude: u64 = if value.0 < 0 {
        (-(value.0 + 1)) as u64 + 1
    } else {
        value.0 as u64
    };
    let mut text = if value.0 < 0 {
        String::from_str("-")
    } else {
        String::from_str("")
    };
    let whole = decimal_text(magnitude / 100);
    text.append(whole.as_str());
    text.append(".");
    text.append(digit_text((magnitude / 10) % 10));
    text.append(digit_text(magnitude % 10));
    text
}

/// An `Identity` frame around five JSON values.
pub open spec fn identity_layout(
    hostname: Seq<char>,
    ip: Seq<char>,
    mac: Seq<char>,
    os: Seq<char>,
    user: Seq<char>,
) -> Seq<char> {
    "{\"type\":\"Identity\",\"data\":{\"hostname\":"@ + hostname + ",\"ip\":"@ + ip
        + ",\"mac\":"@ + mac + ",\"os\":"@ + os + ",\"user\":"@ + user + "}}"@
}

/// A `ListFiles` frame around one JSON value.
pub open spec fn list_files_layout(path: Seq<char>) -> Seq<char> {
    "{\"type\":\"ListFiles\",\"data\":{\"path\":"@ + path + "}}"@
}

/// A `WriteChunk` frame around three JSON values.
pub open spec fn write_chunk_layout(path: Seq<char>, offset: Seq<char>, data: Seq<char>) -> Seq<
    char,
> {
    "{\"type\":\"WriteChunk\",\"data\":{\"path\":"@ + path + ",\"offset\":"@ + offset
        + ",\"data\":"@ + data + "}}"@
}

/// The `Stats` frame of a snapshot. Every field is a number.
pub open spec fn stats_json(stats: SystemStats) -> Seq<char> {
    "{\"type\":\"Stats\",\"data\":{\"cpu_percent\":"@ + hundredths(stats.cpu_percent.0 as int)
        + ",\"ram_used\":"@ + decimal(stats.ram_used as nat) + ",\"ram_total\":"@ + decimal(
        stats.ram_total as nat,
    ) + ",\"disk_used\":"@ + decimal(stats.disk_used as nat) + ",\"disk_total\":"@ + decimal(
        stats.disk_total as nat,
    ) + ",\"net_up\":"@ + decimal(stats.net_up as nat) + ",\"net_down\":"@ + decimal(
        stats.net_down as nat,
    ) + ",\"uptime\":"@ + decimal(stats.uptime as nat) + ",\"thermal_c\":"@ + hundredths(
        stats.thermal_c.0 as int,
    ) + ",\"gpu_percent\":"@ + hundredths(stats.gpu_percent.0 as int) + ",\"alert_level\":"@
        + decimal(stats.alert_level as nat) + "}}"@
}

/// The `Identity` frame of a record, its strings quoted by `serde_json`.
pub open spec fn identity_json(info: StaticInfo) -> Seq<char> {
    identity_layout(
        json_string(info.hostname@),
        json_string(info.ip@),
        json_string(info.mac@),
        json_string(info.os@),
        json_string(info.user@),
    )
}

/// The `ListFiles` frame for a path.
pub open spec fn list_files_json(path: Seq<char>) -> Seq<char> {
    list_files_layout(json_string(path))
}

/// The `WriteChunk` frame of a chunk.
pub open spec fn write_chunk_json(chunk: ChunkData) -> Seq<char> {
    write_chunk_layout(
        json_string(chunk.path@),
        decimal(chunk.offset as nat),
        json_string(chunk.data@),
    )
}

/// The frame of a message.
pub open spec fn message_json(message: HostMessage) -> Seq<char> {
    match message {
        HostMessage::Identity(info) => identity_json(info),
        HostMessage::Stats(stats) => stats_json(stats),
        HostMessage::ListFiles { path } => list_files_json(path@),
        HostMessage::WriteChunk(chunk) => write_chunk_json(chunk),
    }
}

/// Quotes a string as JSON. Every string can be quoted.
pub fn quote(text: &str) -> (quoted: Result<String, EncodeError>)
    ensures
        quoted matches Ok(q) && q@ == json_string(text@),
{
    match json_quote(text) {
        Ok(q) => Ok(q),
        Err(_) => Err(EncodeError),
    }
}

/// Lays out an `Identity` frame around values that are already JSON.
pub fn identity_frame(hostname: &str, ip: &str, mac: &str, os: &str, user: &str) -> (text: String)
    ensures
        text@ == identity_layout(hostname@, ip@, mac@, os@, user@),
{
    let mut text = String::from_str("{\"type\":\"Identity\",\"data\":{\"hostname\":");
    text.append(hostname);
    text.append(",\"ip\":");
    text.append(ip);
    text.append(",\"mac\":");
    text.append(mac);
    text.append(",\"os\":");
    text.append(os);
    text.append(",\"user\":");
    text.append(user);
    text.append("}}");
    text
}

/// Lays out a `ListFiles` frame around a value that is already JSON.
pub fn list_files_frame(path: &str) -> (text: String)
    ensures
        text@ == list_files_layout(path@),
{
    let mut text = String::from_str("{\"type\":\"ListFiles\",\"data\":{\"path\":");
    text.append(path);
    text.append("}}");
    text
}

/// Lays out a `WriteChunk` frame around values that are already JSON.
pub fn write_chunk_frame(path: &str, offset: &str, data: &str) -> (text: String)
    ensures
        text@ == write_chunk_layout(path@, offset@, data@),
{
    let mut text = String::from_str("{\"type\":\"WriteChunk\",\"data\":{\"path\":");
    text.append(path);
    text.append(",\"offset\":");
    text.append(offset);
    text.append(",\"data\":");
    text.append(data);
    text.append("}}");
    text
}

/// Writes the `Stats` frame of a snapshot.
pub fn stats_frame(stats: &SystemStats) -> (text: String)
    ensures
        text@ == stats_json(*stats),
{
    let mut text = String::from_str("{\"type\":\"Stats\",\"data\":{\"cpu_percent\":");
    text.append(hundredths_text(stats.cpu_percent).as_str());
    text.append(",\"ram_used\":");
    text.append(decimal_text(stats.ram_used).as_str());
    text.append(",\"ram_total\":");
    text.append(decimal_text(stats.ram_total).as_str());
    text.append(",\"disk_used\":");
    text.append(decimal_text(stats.disk_used).as_str());
    text.append(",\"disk_total\":");
    text.append(decimal_text(stats.disk_total).as_str());
    text.append(",\"net_up\":");
    text.append(decimal_text(stats.net_up).as_str());
    text.append(",\"net_down\":");
    text.append(decimal_text(stats.net_down).as_str());
    text.append(",\"uptime\":");
    text.append(decimal_text(stats.uptime).as_str());
    text.append(",\"thermal_c\":");
    text.append(hundredths_text(stats.thermal_c).as_str());
    text.append(",\"gpu_percent\":");
    text.append(hundredths_text(stats.gpu_percent).as_str());
    text.append(",\"alert_level\":");
    text.append(decimal_text(stats.alert_level as u64).as_str());
    text.append("}}");
    text
}

/// Writes the `Identity` frame of a record.
pub fn encode_identity(info: &StaticInfo) -> (encoded: Result<String, EncodeError>)
    ensures
        encoded matches Ok(text) && text@ == identity_json(*info),
{
    let hostname = quote(info.hostname.as_str())?;
    let ip = quote(info.ip.as_str())?;
    let mac = quote(info.mac.as_str())?;
    let os = quote(info.os.as_str())?;
    let user = quote(info.user.as_str())?;
    Ok(identity_frame(hostname.as_str(), ip.as_str(), mac.as_str(), os.as_str(), user.as_str()))
}

/// Writes the `ListFiles` frame for a path.
pub fn encode_list_files(path: &str) -> (encoded: Result<String, EncodeError>)
    ensures
        encoded matches Ok(text) && text@ == list_files_json(path@),
{
    let quoted = quote(path)?;
    Ok(list_files_frame(quoted.as_str()))
}

/// Writes the `WriteChunk` frame of a chunk.
pub fn encode_write_chunk(chunk: &ChunkData) -> (encoded: Result<String, EncodeError>)
    ensures
        encoded matches Ok(text) && text@ == write_chunk_json(*chunk),
{
    let path = quote(chunk.path.as_str())?;
    let data = quote(chunk.data.as_str())?;
    let offset = decimal_text(chunk.offset as u64);
    Ok(write_chunk_frame(path.as_str(), offset.as_str(), data.as_str()))
}

/// Writes the frame of a message. Every message can be written.
pub fn encode(message: &HostMessage) -> (encoded: Result<String, EncodeError>)
    ensures
        encoded matches Ok(text) && text@ == message_json(*message),
{
    match message {
        HostMessage::Identity(info) => encode_identity(info),
        HostMessage::Stats(stats) => Ok(stats_frame(stats)),
        HostMessage::ListFiles { path } => encode_list_files(path.as_str()),
        HostMessage::WriteChunk(chunk) => encode_write_chunk(chunk),
    }
}

/// The payload of a telemetry tick: the encoded frame, or nothing where
/// encoding failed.
pub open spec fn payload_of(encoded: Result<String, EncodeError>) -> Seq<char> {
    match encoded {
        Ok(text) => text@,
        Err(_) => Seq::<char>::empty(),
    }
}

/// Turns the outcome of encoding into the payload to broadcast: a failed
/// encoding yields the empty payload instead of an error.
pub fn payload_or_empty(encoded: Result<String, EncodeError>) -> (payload: String)
    ensures
        payload@ == payload_of(encoded),
{
    match encoded {
        Ok(text) => text,
        Err(_) => String::new(),
    }
}

/// A payload as it is put on a connection's queue: followed by a line feed.
pub open spec fn terminated(payload: Seq<char>) -> Seq<char> {
    payload.push('\n')
}

/// A queued frame as it is written to the transport: a line feed, which
/// clears the device's input buffer, and then the frame.
pub open spec fn guarded(frame: Seq<char>) -> Seq<char> {
    seq!['\n'] + frame
}

/// Appends the line feed that ends a queued frame.
pub fn terminate(payload: &str) -> (frame: String)
    ensures
        frame@ == terminated(payload@),
{
    proof {
        reveal_strlit("\n");
    }
    let frame = String::from_str(payload).concat("\n");
    frame
}

/// Puts the buffer-clearing line feed in front of a queued frame.
pub fn guard(frame: &str) -> (line: String)
    ensures
        line@ == guarded(frame@),
{
    proof {
        reveal_strlit("\n");
    }
    let line = String::from_str("\n").concat(frame);
    line
}

/// Writes the line that announces the host on a new connection's queue:
/// the `Identity` frame and a line feed.
pub fn identity_line(info: &StaticInfo) -> (line: Result<String, EncodeError>)
    ensures
        line matches Ok(text) && text@ == terminated(identity_json(*info)),
{
    let frame = encode_identity(info)?;
    Ok(terminate(frame.as_str()))
}

/// Writes the line that carries a chunk on a connection's queue: the
/// `WriteChunk` frame and a line feed.
pub fn chunk_line(chunk: &ChunkData) -> (line: Result<String, EncodeError>)
    ensures
        line matches Ok(text) && text@ == terminated(write_chunk_json(*chunk)),
{
    let frame = encode_write_chunk(chunk)?;
    Ok(terminate(frame.as_str()))
}

} // verus!
