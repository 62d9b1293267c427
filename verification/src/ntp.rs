//! Time synchronization: unpacking an NTP server reply and rendering
//! timestamps for the log.
//!
//! The socket exchange itself is a collaborator's job; this module owns
//! what can be computed from the reply bytes.

use core::fmt::Write;

use vstd::prelude::*;

verus! {

/// Seconds between the NTP epoch (1900-01-01) and the Unix epoch
/// (1970-01-01).
pub const NTP_UNIX_OFFSET_SECONDS: u64 = 2208988800;

/// Length of an NTP packet in bytes.
pub const NTP_PACKET_LEN: usize = 48;

/// Byte offset of the transmit timestamp's seconds word in a reply.
pub const NTP_SECONDS_OFFSET: usize = 40;

/// The fixed east-of-UTC offset, in seconds, at which synchronized
/// time is logged.
pub const LOG_TIME_OFFSET_SECONDS: i32 = 28800;

/// The 32-bit big-endian value whose four bytes stand at offset `i`.
pub open spec fn spec_be32_at(b: Seq<u8>, i: int) -> int {
    b[i] * 0x1000000 + b[i + 1] * 0x10000 + b[i + 2] * 0x100 + b[i + 3]
}

/// A timestamp could not be turned into a rendered calendar time.
#[derive(Clone, Copy, PartialEq, Eq, Structural, Debug)]
pub enum TimeError {
    Unrepresentable,
}

/// The text chrono renders for a timestamp at a fixed offset under a
/// strftime pattern; it is a function of these arguments alone.
pub uninterp spec fn spec_rendered_time(
    secs: int,
    nsecs: int,
    offset_east: int,
    fmt: Seq<char>,
) -> Seq<char>;

/// Relies on chrono: `DateTime::from_timestamp`, `with_timezone` with
/// a `FixedOffset`, and `format` render a timestamp deterministically
/// from the timestamp, the offset and the pattern. A timestamp out of
/// chrono's range, an offset of a whole day or more, or a pattern the
/// formatter rejects gives nothing back.
#[verifier::external_body]
fn render_timestamp(secs: i64, nsecs: u32, offset_east: i32, fmt: &str) -> (r: Option<String>)
    ensures
        r is Some ==> r.unwrap()@ == spec_rendered_time(
            secs as int,
            nsecs as int,
            offset_east as int,
            fmt@,
        ),
{
    let dt = chrono::DateTime::from_timestamp(secs, nsecs)?;
    let offset = chrono::FixedOffset::east_opt(offset_east)?;
    let local = dt.with_timezone(&offset);
    let mut out = String::new();
    match write!(&mut out, "{}", local.format(fmt)) {
        Ok(()) => Some(out),
        Err(_) => None,
    }
}

/// A client of the simple NTP exchange: one fixed request, one 48-byte
/// reply.
pub struct NtpClient;

impl NtpClient {
    /// A fresh client.
    pub fn new() -> NtpClient {
        NtpClient
    }

    /// The NTP seconds in a server reply: the big-endian word at byte
    /// offset 40, where the transmit timestamp's seconds stand.
    pub fn unpack_ntp_data(&self, buffer: &[u8; 48]) -> (r: u64)
        ensures
            r == spec_be32_at(buffer@, NTP_SECONDS_OFFSET as int),
    {
        let b0 = buffer[40] as u64;
        let b1 = buffer[41] as u64;
        let b2 = buffer[42] as u64;
        let b3 = buffer[43] as u64;
        b0 * 0x1000000 + b1 * 0x10000 + b2 * 0x100 + b3
    }
}

/// Turn NTP seconds into Unix seconds. NTP counts from 1900, Unix
/// from 1970; a reply from before the Unix epoch has no Unix form and
/// is left to the caller to refuse.
pub fn ntp_to_unix_seconds(ntp_seconds: u64) -> (r: u64)
    requires
        ntp_seconds >= NTP_UNIX_OFFSET_SECONDS,
    ensures
        r == ntp_seconds - NTP_UNIX_OFFSET_SECONDS,
{
    ntp_seconds - NTP_UNIX_OFFSET_SECONDS
}

/// A synchronized time as Unix seconds.
pub struct Response {
    pub unix_time: u64,
}

impl Response {
    /// Render the synchronized time under the given strftime pattern
    /// at the fixed logging offset east of UTC. The error comes
    /// exactly when chrono gives no rendering back.
    pub fn format_time(self, fmt: &str) -> (r: Result<String, TimeError>)
        ensures
            r is Ok ==> r.unwrap()@ == spec_rendered_time(
                self.unix_time as i64 as int,
                (self.unix_time as int % 1000) * 1000000,
                LOG_TIME_OFFSET_SECONDS as int,
                fmt@,
            ),
            r is Err ==> r == Result::<String, TimeError>::Err(TimeError::Unrepresentable),
    {
        let secs = self.unix_time as i64;
        let nsecs = ((self.unix_time % 1000) as u32) * 1000000;
        match render_timestamp(secs, nsecs, LOG_TIME_OFFSET_SECONDS, fmt) {
            Some(s) => Ok(s),
            None => Err(TimeError::Unrepresentable),
        }
    }
}

} // verus!
