//! The device configuration kept in a raw flash partition.
//!
//! Reading the partition and decoding the JSON text are collaborators'
//! jobs; this module owns the configuration values themselves and the
//! rule that says where the stored text ends: flash erases to 0xff, so
//! the text runs up to the first 0xff byte.

use vstd::prelude::*;

verus! {

/// One stored wireless network account.
pub struct Wifi {
    pub ssid: String,
    pub password: String,
}

/// The device configuration: the wireless accounts to try in order,
/// the resynchronization interval in seconds, and the fixed display
/// offset east of UTC in seconds.
pub struct Config {
    pub wifi: Vec<Wifi>,
    pub sync_time_interval: u32,
    pub date_fixed_offset: i32,
}

/// Where the configuration text in a freshly read partition buffer
/// ends: the index of the first erased (0xff) byte, or nothing when
/// every byte of the buffer is written.
pub fn config_payload_len(buffer: &[u8]) -> (r: Option<usize>)
    ensures
        r is Some ==> r.unwrap() < buffer@.len() && buffer@[r.unwrap() as int] == 0xff && (forall|
            j: int,
        |
            0 <= j < r.unwrap() ==> buffer@[j] != 0xff),
        r is None ==> forall|j: int| 0 <= j < buffer@.len() ==> buffer@[j] != 0xff,
{
    let len = buffer.len();
    let mut i: usize = 0;
    while i < len
        invariant
            i <= len,
            len == buffer@.len(),
            forall|j: int| 0 <= j < i ==> buffer@[j] != 0xff,
        decreases len - i,
    {
        if buffer[i] == 0xff {
            return Some(i);
        }
        i = i + 1;
    }
    None
}

} // verus!
