//! BLE beacon adapter: decodes beacon advertisement frames, filters them by
//! an allowed-identifier list, suppresses repeats of the same beacon inside
//! a configured window, and forwards each sighting to the broker as JSON.
//!
//! The radio — scanning, peripheral properties, the event stream — is
//! transport work done by the surrounding process, as is loading the
//! allowed-identifier list from configuration. The frame layout, the filter
//! decisions and the payload framing stand here.

use vstd::prelude::*;
use vstd::string::StringExecFns;

use crate::collectors::{Collector, CollectorFactory};
use crate::collectors::grpc::ForwardRequest;
use crate::config::CollectorCfg;
use crate::json::{
    append_hex_range,
    append_i64,
    append_json_quoted,
    append_u64,
    dec_str,
    dec_str_signed,
    hex_bytes,
    json_quoted,
    push_char,
};
use vstd::pervasive::VecAdditionalExecFns;

verus! {

/// One decoded beacon advertisement frame.
#[derive(Debug, Clone)]
pub struct IBeaconFrame {
    /// The beacon's 16-byte identifier.
    pub uuid: Vec<u8>,
    /// Big-endian group number.
    pub major: u16,
    /// Big-endian unit number.
    pub minor: u16,
    /// Calibrated transmit power.
    pub tx_power: i8,
}

/// Whether the manufacturer data carries a beacon frame: at least 23 bytes,
/// opening with the fixed type and length marks.
pub open spec fn spec_is_beacon_frame(data: Seq<u8>) -> bool {
    data.len() >= 23 && data[0] == 2 && data[1] == 21
}

/// Decodes one manufacturer-data blob: 16 identifier bytes, two big-endian
/// numbers, and the transmit power, exactly when the frame marks fit.
pub fn parse_ibeacon(data: &Vec<u8>) -> (r: Option<IBeaconFrame>)
    ensures
        r is Some <==> spec_is_beacon_frame(data@),
        r matches Some(f) ==> {
            &&& f.uuid@ == data@.subrange(2, 18)
            &&& f.major as int == data@[18] * 256 + data@[19]
            &&& f.minor as int == data@[20] * 256 + data@[21]
            &&& f.tx_power == data@[22] as i8
        },
{
    if data.len() >= 23 && data[0] == 2 && data[1] == 21 {
        let mut uuid: Vec<u8> = Vec::new();
        let mut i: usize = 2;
        while i < 18
            invariant
                2 <= i <= 18,
                data@.len() >= 23,
                uuid@ == data@.subrange(2, i as int),
            decreases 18 - i,
        {
            uuid.push(data[i]);
            proof {
                assert(uuid@ =~= data@.subrange(2, i + 1));
            }
            i = i + 1;
        }
        let major = (data[18] as u16) * 256 + (data[19] as u16);
        let minor = (data[20] as u16) * 256 + (data[21] as u16);
        let tx_power = data[22] as i8;
        Some(IBeaconFrame { uuid, major, minor, tx_power })
    } else {
        None
    }
}

/// Byte-for-byte equality of two byte vectors.
pub fn bytes_eq(a: &Vec<u8>, b: &Vec<u8>) -> (r: bool)
    ensures
        r == (a@ == b@),
{
    if a.len() != b.len() {
        return false;
    }
    let n = a.len();
    let mut i: usize = 0;
    while i < n
        invariant
            i <= n,
            n == a@.len(),
            n == b@.len(),
            forall|j: int| 0 <= j < i ==> a@[j] == b@[j],
        decreases n - i,
    {
        if a[i] != b[i] {
            return false;
        }
        i = i + 1;
    }
    proof {
        assert(a@ =~= b@);
    }
    true
}

/// Whether a sighting of this identifier passes the allow-list: an empty
/// list lets every beacon through, otherwise the identifier must be listed.
pub open spec fn spec_uuid_allowed(uuid: Seq<u8>, allowed: Seq<Vec<u8>>) -> bool {
    allowed.len() == 0 || exists|i: int| 0 <= i < allowed.len() && (#[trigger] allowed[i])@ == uuid
}

/// Screens one identifier against the allow-list.
pub fn uuid_allowed(uuid: &Vec<u8>, allowed: &Vec<Vec<u8>>) -> (r: bool)
    ensures
        r == spec_uuid_allowed(uuid@, allowed@),
{
    if allowed.len() == 0 {
        return true;
    }
    let n = allowed.len();
    let mut i: usize = 0;
    while i < n
        invariant
            i <= n,
            n == allowed@.len(),
            forall|j: int| 0 <= j < i ==> (#[trigger] allowed@[j])@ != uuid@,
        decreases n - i,
    {
        if bytes_eq(&allowed[i], uuid) {
            return true;
        }
        i = i + 1;
    }
    false
}

/// The big-endian value of the eight bytes at `at`.
pub open spec fn be64_at(bs: Seq<u8>, at: int) -> int {
    bs[at] * 0x100000000000000 + bs[at + 1] * 0x1000000000000 + bs[at + 2] * 0x10000000000 + bs[at
        + 3] * 0x100000000 + bs[at + 4] * 0x1000000 + bs[at + 5] * 0x10000 + bs[at + 6] * 0x100
        + bs[at + 7]
}

/// One beacon's identity for the duplicate filter: the identifier as two
/// big-endian words, with the group and unit numbers.
#[derive(Debug, Clone, Copy, PartialEq, Eq, Structural)]
pub struct BeaconKey {
    pub uuid_hi: u64,
    pub uuid_lo: u64,
    pub major: u16,
    pub minor: u16,
}

/// The filter key of one decoded frame.
pub fn beacon_key(frame: &IBeaconFrame) -> (k: BeaconKey)
    requires
        frame.uuid@.len() == 16,
    ensures
        k.uuid_hi as int == be64_at(frame.uuid@, 0),
        k.uuid_lo as int == be64_at(frame.uuid@, 8),
        k.major == frame.major,
        k.minor == frame.minor,
{
    let u = &frame.uuid;
    let hi = (u[0] as u64) * 0x100000000000000 + (u[1] as u64) * 0x1000000000000 + (u[2] as u64)
        * 0x10000000000 + (u[3] as u64) * 0x100000000 + (u[4] as u64) * 0x1000000 + (u[5] as u64)
        * 0x10000 + (u[6] as u64) * 0x100 + (u[7] as u64);
    let lo = (u[8] as u64) * 0x100000000000000 + (u[9] as u64) * 0x1000000000000 + (u[10] as u64)
        * 0x10000000000 + (u[11] as u64) * 0x100000000 + (u[12] as u64) * 0x1000000 + (u[13]
        as u64) * 0x10000 + (u[14] as u64) * 0x100 + (u[15] as u64);
    BeaconKey { uuid_hi: hi, uuid_lo: lo, major: frame.major, minor: frame.minor }
}

/// When each key was last let through: the first pair with the key decides.
spec fn last_seen(entries: Seq<(BeaconKey, u64)>, key: BeaconKey) -> Option<int>
    decreases entries.len(),
{
    if entries.len() == 0 {
        None
    } else if entries[0].0 == key {
        Some(entries[0].1 as int)
    } else {
        last_seen(entries.drop_first(), key)
    }
}

/// No two pairs carry the same key.
spec fn unique_keys(entries: Seq<(BeaconKey, u64)>) -> bool {
    forall|i: int, j: int|
        0 <= i < j < entries.len() ==> (#[trigger] entries[i]).0 != (#[trigger] entries[j]).0
}

/// A key whose first occurrence is at `i` is last seen at that pair's time.
proof fn lemma_last_seen_first(entries: Seq<(BeaconKey, u64)>, i: int, key: BeaconKey)
    requires
        0 <= i < entries.len(),
        entries[i].0 == key,
        forall|j: int| 0 <= j < i ==> (#[trigger] entries[j]).0 != key,
    ensures
        last_seen(entries, key) == Some(entries[i].1 as int),
    decreases i,
{
    if i > 0 {
        lemma_last_seen_first(entries.drop_first(), i - 1, key);
    }
}

/// A key that occurs nowhere has never been seen.
proof fn lemma_last_seen_absent(entries: Seq<(BeaconKey, u64)>, key: BeaconKey)
    requires
        forall|j: int| 0 <= j < entries.len() ==> (#[trigger] entries[j]).0 != key,
    ensures
        last_seen(entries, key) is None,
    decreases entries.len(),
{
    if entries.len() > 0 {
        lemma_last_seen_absent(entries.drop_first(), key);
    }
}

/// Appending a pair changes nothing for keys already seen, and records the
/// appended pair's key if it was absent.
proof fn lemma_last_seen_push(entries: Seq<(BeaconKey, u64)>, e: (BeaconKey, u64), key: BeaconKey)
    ensures
        last_seen(entries.push(e), key) == (match last_seen(entries, key) {
            Some(t) => Some(t),
            None => if e.0 == key {
                Some(e.1 as int)
            } else {
                None::<int>
            },
        }),
    decreases entries.len(),
{
    if entries.len() == 0 {
        assert(entries.push(e)[0] == e);
        if e.0 == key {
            assert(last_seen(entries.push(e), key) == Some(e.1 as int));
        } else {
            let rest = entries.push(e).drop_first();
            assert(rest =~= Seq::<(BeaconKey, u64)>::empty());
            assert(last_seen(rest, key) is None);
            assert(last_seen(entries.push(e), key) == last_seen(rest, key));
        }
    } else {
        assert(entries.push(e)[0] == entries[0]);
        assert(entries.push(e).drop_first() =~= entries.drop_first().push(e));
        lemma_last_seen_push(entries.drop_first(), e, key);
    }
}

/// Overwriting the sole pair of a key re-stamps that key and nothing else.
proof fn lemma_last_seen_update(
    entries: Seq<(BeaconKey, u64)>,
    i: int,
    e: (BeaconKey, u64),
    key: BeaconKey,
)
    requires
        0 <= i < entries.len(),
        entries[i].0 == e.0,
        unique_keys(entries),
    ensures
        last_seen(entries.update(i, e), key) == if key == e.0 {
            Some(e.1 as int)
        } else {
            last_seen(entries, key)
        },
    decreases i,
{
    if i == 0 {
        assert(entries.update(0, e)[0] == e);
        assert(entries.update(0, e).drop_first() =~= entries.drop_first());
    } else {
        assert(entries.update(i, e).drop_first() =~= entries.drop_first().update(i - 1, e));
        assert(entries.update(i, e)[0] == entries[0]);
        assert(unique_keys(entries.drop_first())) by {
            assert(forall|a: int, b: int|
                0 <= a < b < entries.drop_first().len() ==> entries.drop_first()[a]
                    == entries[a + 1] && entries.drop_first()[b] == entries[b + 1]);
        }
        lemma_last_seen_update(entries.drop_first(), i - 1, e, key);
        assert(entries[0].0 != entries[i].0);
    }
}

/// Suppresses repeated sightings of one beacon inside a fixed window, as
/// the data-arrival path's duplicate guard.
pub struct BeaconFilter {
    entries: Vec<(BeaconKey, u64)>,
    window_ms: u64,
}

impl BeaconFilter {
    /// The suppression window, in milliseconds.
    pub closed spec fn window(&self) -> int {
        self.window_ms as int
    }

    /// When the given beacon was last let through, if ever.
    pub closed spec fn seen(&self, key: BeaconKey) -> Option<int> {
        last_seen(self.entries@, key)
    }

    /// The filter's internal shape: one entry per beacon.
    pub closed spec fn wf(&self) -> bool {
        unique_keys(self.entries@)
    }

    /// A fresh filter that has seen nothing.
    pub fn new(window_ms: u64) -> (f: BeaconFilter)
        ensures
            f.wf(),
            f.window() == window_ms as int,
            forall|k: BeaconKey| f.seen(k) is None,
    {
        let f = BeaconFilter { entries: Vec::new(), window_ms };
        proof {
            assert forall|k: BeaconKey| f.seen(k) is None by {
                assert(f.entries@.len() == 0);
            }
        }
        f
    }

    /// The first entry holding `key`, scanning from the front.
    fn find_key(&self, key: BeaconKey) -> (r: Option<usize>)
        ensures
            r matches Some(i) ==> 0 <= i < self.entries@.len() && self.entries@[i as int].0 == key
                && (forall|j: int| 0 <= j < i ==> (#[trigger] self.entries@[j]).0 != key),
            r is None ==> forall|j: int|
                0 <= j < self.entries@.len() ==> (#[trigger] self.entries@[j]).0 != key,
    {
        let n = self.entries.len();
        let mut i: usize = 0;
        while i < n
            invariant
                i <= n,
                n == self.entries@.len(),
                forall|j: int| 0 <= j < i ==> (#[trigger] self.entries@[j]).0 != key,
            decreases n - i,
        {
            if self.entries[i].0 == key {
                return Some(i);
            }
            i = i + 1;
        }
        None
    }

    /// One sighting of `key` at `now_ms`. It passes — and is recorded —
    /// exactly when the beacon was never seen or its last pass lies at
    /// least one full window back; a sighting inside the window is dropped
    /// and leaves the filter untouched.
    pub fn observe(&mut self, key: BeaconKey, now_ms: u64) -> (pass: bool)
        requires
            old(self).wf(),
        ensures
            final(self).wf(),
            final(self).window() == old(self).window(),
            pass == (match old(self).seen(key) {
                Some(t) => now_ms as int >= t + old(self).window(),
                None => true,
            }),
            pass ==> final(self).seen(key) == Some(now_ms as int),
            pass ==> forall|k2: BeaconKey|
                k2 != key ==> #[trigger] final(self).seen(k2) == old(self).seen(k2),
            !pass ==> *final(self) == *old(self),
    {
        match self.find_key(key) {
            Some(i) => {
                let t = self.entries[i].1;
                proof {
                    lemma_last_seen_first(self.entries@, i as int, key);
                }
                if (now_ms as u128) < (t as u128) + (self.window_ms as u128) {
                    false
                } else {
                    let ghost before = self.entries@;
                    self.entries.set(i, (key, now_ms));
                    proof {
                        assert forall|k2: BeaconKey| #[trigger]
                            last_seen(self.entries@, k2) == if k2 == key {
                                Some(now_ms as int)
                            } else {
                                last_seen(before, k2)
                            } by {
                            lemma_last_seen_update(before, i as int, (key, now_ms), k2);
                        }
                        assert forall|a: int, b: int|
                            0 <= a < b < self.entries@.len() implies (#[trigger] self.entries@[a]).0
                            != (#[trigger] self.entries@[b]).0 by {
                            assert(before[a].0 != before[b].0);
                        }
                    }
                    true
                }
            },
            None => {
                proof {
                    lemma_last_seen_absent(self.entries@, key);
                }
                let ghost before = self.entries@;
                self.entries.push((key, now_ms));
                proof {
                    assert forall|k2: BeaconKey| #[trigger]
                        last_seen(self.entries@, k2) == if k2 == key {
                            Some(now_ms as int)
                        } else {
                            last_seen(before, k2)
                        } by {
                        lemma_last_seen_push(before, (key, now_ms), k2);
                        if k2 != key {
                        } else {
                            lemma_last_seen_absent(before, key);
                        }
                    }
                    assert forall|a: int, b: int|
                        0 <= a < b < self.entries@.len() implies (#[trigger] self.entries@[a]).0
                        != (#[trigger] self.entries@[b]).0 by {
                        if b < before.len() {
                            assert(before[a].0 != before[b].0);
                        } else {
                            assert(self.entries@[b].0 == key);
                            assert(before[a].0 != key);
                        }
                    }
                }
                true
            },
        }
    }
}

/// The beacon identifier in its canonical hyphenated hexadecimal form.
pub open spec fn spec_uuid_hyphenated(bs: Seq<u8>) -> Seq<char> {
    hex_bytes(bs.subrange(0, 4)) + seq!['-'] + hex_bytes(bs.subrange(4, 6)) + seq!['-'] + hex_bytes(
        bs.subrange(6, 8),
    ) + seq!['-'] + hex_bytes(bs.subrange(8, 10)) + seq!['-'] + hex_bytes(bs.subrange(10, 16))
}

/// Writes the identifier in its canonical hyphenated hexadecimal form.
pub fn uuid_hyphenated(uuid: &Vec<u8>) -> (r: String)
    requires
        uuid@.len() == 16,
    ensures
        r@ == spec_uuid_hyphenated(uuid@),
{
    let mut out = String::new();
    append_hex_range(&mut out, uuid, 0, 4);
    push_char(&mut out, '-');
    append_hex_range(&mut out, uuid, 4, 6);
    push_char(&mut out, '-');
    append_hex_range(&mut out, uuid, 6, 8);
    push_char(&mut out, '-');
    append_hex_range(&mut out, uuid, 8, 10);
    push_char(&mut out, '-');
    append_hex_range(&mut out, uuid, 10, 16);
    proof {
        assert(out@ =~= spec_uuid_hyphenated(uuid@));
    }
    out
}

/// The JSON payload for one beacon sighting: identifier, signal strength,
/// peripheral address, group and unit numbers, in that order.
pub open spec fn spec_ibeacon_payload(
    uuid: Seq<u8>,
    rssi: int,
    address: Seq<char>,
    major: int,
    minor: int,
) -> Seq<char> {
    seq!['{'] + json_quoted("uuid"@) + seq![':', '"'] + spec_uuid_hyphenated(uuid) + seq!['"', ',']
        + json_quoted("rssi"@) + seq![':'] + dec_str_signed(rssi) + seq![','] + json_quoted(
        "address"@,
    ) + seq![':'] + json_quoted(address) + seq![','] + json_quoted("major"@) + seq![':'] + dec_str(
        major as nat,
    ) + seq![','] + json_quoted("minor"@) + seq![':'] + dec_str(minor as nat) + seq!['}']
}

/// Builds the JSON payload for one beacon sighting.
#[verifier::rlimit(60)]
pub fn ibeacon_payload(uuid: &Vec<u8>, rssi: i16, address: &str, major: u16, minor: u16) -> (r:
    String)
    requires
        uuid@.len() == 16,
    ensures
        r@ == spec_ibeacon_payload(uuid@, rssi as int, address@, major as int, minor as int),
{
    let identifier = uuid_hyphenated(uuid);
    let mut out = String::new();
    push_char(&mut out, '{');
    append_json_quoted(&mut out, "uuid");
    push_char(&mut out, ':');
    push_char(&mut out, '"');
    out.append(identifier.as_str());
    push_char(&mut out, '"');
    push_char(&mut out, ',');
    append_json_quoted(&mut out, "rssi");
    push_char(&mut out, ':');
    append_i64(&mut out, rssi as i64);
    push_char(&mut out, ',');
    append_json_quoted(&mut out, "address");
    push_char(&mut out, ':');
    append_json_quoted(&mut out, address);
    push_char(&mut out, ',');
    append_json_quoted(&mut out, "major");
    push_char(&mut out, ':');
    append_u64(&mut out, major as u64);
    push_char(&mut out, ',');
    append_json_quoted(&mut out, "minor");
    push_char(&mut out, ':');
    append_u64(&mut out, minor as u64);
    push_char(&mut out, '}');
    proof {
        assert(out@ =~= spec_ibeacon_payload(
            uuid@,
            rssi as int,
            address@,
            major as int,
            minor as int,
        ));
    }
    out
}

/// The forward call for one beacon sighting.
pub fn ibeacon_forward_request(payload: Vec<u8>) -> (r: ForwardRequest)
    ensures
        r.collector_name@ == "ibeacon"@,
        r.content_type@ == "application/json"@,
        r.metadata@ == "{}"@,
        r.payload == payload,
{
    ForwardRequest {
        collector_name: String::from_str("ibeacon"),
        content_type: String::from_str("application/json"),
        metadata: String::from_str("{}"),
        payload,
    }
}

/// The BLE beacon adapter.
pub struct Ibeacon {
    pub config: CollectorCfg,
}

/// Builds the beacon adapter from a captured configuration.
pub struct IbeaconFactory {
    pub config: CollectorCfg,
}

impl IbeaconFactory {
    /// Captures the configuration the adapter will run with.
    pub fn new(config: CollectorCfg) -> (f: Self)
        ensures
            f.config == config,
    {
        Self { config }
    }
}

impl CollectorFactory for IbeaconFactory {
    type Created = Ibeacon;

    open spec fn spec_created_name(&self) -> Seq<char> {
        "ibeacon"@
    }

    open spec fn spec_created_enabled(&self) -> bool {
        self.config.ibeacon.enable
    }

    fn create(&self) -> (c: Ibeacon) {
        Ibeacon { config: self.config.clone() }
    }
}

impl Collector for Ibeacon {
    open spec fn spec_name(&self) -> Seq<char> {
        "ibeacon"@
    }

    open spec fn spec_enabled(&self) -> bool {
        self.config.ibeacon.enable
    }

    fn name(&self) -> (r: &'static str) {
        "ibeacon"
    }

    fn is_enable(&self) -> (r: bool) {
        self.config.ibeacon.enable
    }
}

} // verus!
