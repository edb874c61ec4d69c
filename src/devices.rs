use vstd::prelude::*;

use crate::sessions::text_view;
use crate::text::{same_text, tail_chars, tail_of};

verus! {

/// Characters of a device id kept in a synthesized device name.
pub const ID_TAIL: usize = 8;

/// An audio output device.
#[derive(Debug, Clone, PartialEq, Eq)]
pub struct AudioDevice {
    pub id: String,
    pub name: String,
    pub is_default: bool,
}

pub struct DeviceView {
    pub id: Seq<char>,
    pub name: Seq<char>,
    pub is_default: bool,
}

impl View for AudioDevice {
    type V = DeviceView;

    open spec fn view(&self) -> DeviceView {
        DeviceView { id: self.id@, name: self.name@, is_default: self.is_default }
    }
}

/// What the platform reported about one active output device; `friendly_name`
/// is `None` when it could not be read.
#[derive(Debug, Clone, PartialEq, Eq)]
pub struct DeviceRecord {
    pub id: String,
    pub friendly_name: Option<String>,
}

pub open spec fn device_prefix() -> Seq<char> {
    seq!['A', 'u', 'd', 'i', 'o', ' ', 'D', 'e', 'v', 'i', 'c', 'e', ' ']
}

/// The friendly name when it could be read and is not empty, else
/// "Audio Device " and the last `ID_TAIL` characters of the id.
pub open spec fn device_name_of(friendly: Option<Seq<char>>, id: Seq<char>) -> Seq<char> {
    match friendly {
        Some(n) => if n.len() > 0 {
            n
        } else {
            device_prefix() + tail_chars(id, ID_TAIL as nat)
        },
        None => device_prefix() + tail_chars(id, ID_TAIL as nat),
    }
}

/// Entry `i` of the listing: flagged as default when it is the first device
/// whose id is the default endpoint's.
pub open spec fn device_entry(records: Seq<DeviceRecord>, default_id: Seq<char>, i: int) -> DeviceView {
    DeviceView {
        id: records[i].id@,
        name: device_name_of(text_view(records[i].friendly_name), records[i].id@),
        is_default: records[i].id@ == default_id && forall|k: int|
            0 <= k < i ==> (#[trigger] records[k]).id@ != default_id,
    }
}

/// Name shown for a device.
pub fn get_device_name(friendly: &Option<String>, id: &str) -> (r: String)
    ensures
        r@ == device_name_of(text_view(*friendly), id@),
{
    proof {
        reveal_strlit("Audio Device ");
        assert("Audio Device "@ =~= device_prefix());
    }
    if let Some(n) = friendly {
        if n.unicode_len() > 0 {
            return n.clone();
        }
    }
    let mut name = String::from_str("Audio Device ");
    let tail = tail_of(id, ID_TAIL);
    name.append(tail.as_str());
    name
}

/// The active output devices, in order, with the default endpoint flagged.
pub fn list_audio_devices(records: &Vec<DeviceRecord>, default_id: &str) -> (r: Vec<AudioDevice>)
    ensures
        r@.len() == records@.len(),
        forall|i: int| 0 <= i < r@.len() ==> #[trigger] r@[i]@ == device_entry(records@, default_id@, i),
        forall|i: int, j: int|
            0 <= i < r@.len() && 0 <= j < r@.len() && #[trigger] r@[i].is_default
                && #[trigger] r@[j].is_default ==> i == j,
{
    let mut out: Vec<AudioDevice> = Vec::new();
    let mut seen = false;
    let mut i: usize = 0;
    while i < records.len()
        invariant
            i <= records@.len(),
            out@.len() == i,
            forall|k: int| 0 <= k < i ==> #[trigger] out@[k]@ == device_entry(records@, default_id@, k),
            seen == exists|k: int| 0 <= k < i && (#[trigger] records@[k]).id@ == default_id@,
        decreases records@.len() - i,
    {
        let rec = &records[i];
        let matches = same_text(rec.id.as_str(), default_id);
        let is_default = matches && !seen;
        let name = get_device_name(&rec.friendly_name, rec.id.as_str());
        out.push(AudioDevice { id: rec.id.clone(), name, is_default });
        proof {
            if !seen {
                assert(forall|k: int| 0 <= k < i ==> (#[trigger] records@[k]).id@ != default_id@);
            }
            if matches {
                assert(records@[i as int].id@ == default_id@);
            }
        }
        if matches {
            seen = true;
        }
        i = i + 1;
    }
    proof {
        assert forall|i: int, j: int|
            0 <= i < out@.len() && 0 <= j < out@.len() && #[trigger] out@[i].is_default
                && #[trigger] out@[j].is_default implies i == j by {
            assert(out@[i]@ == device_entry(records@, default_id@, i));
            assert(out@[j]@ == device_entry(records@, default_id@, j));
            if i < j {
                assert(records@[i].id@ != default_id@);
            } else if j < i {
                assert(records@[j].id@ != default_id@);
            }
        }
    }
    out
}

/// The default output device.
pub fn get_default_audio_device(record: &DeviceRecord) -> (r: AudioDevice)
    ensures
        r@ == (DeviceView {
            id: record.id@,
            name: device_name_of(text_view(record.friendly_name), record.id@),
            is_default: true,
        }),
{
    AudioDevice {
        id: record.id.clone(),
        name: get_device_name(&record.friendly_name, record.id.as_str()),
        is_default: true,
    }
}

} // verus!
