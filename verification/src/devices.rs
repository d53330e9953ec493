//! The registry of devices found on the local network, keyed by device id.

use vstd::prelude::*;
use crate::state::{BroadcastInfo, DeviceInfo, DeviceStatus};

verus! {

/// A device that has not been heard from for longer than this many seconds is offline.
pub const DEVICE_TIMEOUT_SECS: u64 = 10;

/// Whether no two devices of `s` share an id.
pub open spec fn unique_ids(s: Seq<DeviceInfo>) -> bool {
    forall|i: int, j: int|
        0 <= i < s.len() && 0 <= j < s.len() && i != j ==> #[trigger] s[i].id@ != #[trigger] s[j].id@
}

/// Whether some device of `s` has the id `id`.
pub open spec fn has_id(s: Seq<DeviceInfo>, id: Seq<char>) -> bool {
    exists|i: int| 0 <= i < s.len() && #[trigger] s[i].id@ == id
}

/// The record that a discovery announcement leaves for its device.
pub open spec fn discovered(info: BroadcastInfo, now: u64) -> DeviceInfo {
    DeviceInfo {
        id: info.id,
        name: info.name,
        ip: info.ip,
        port: info.port,
        status: DeviceStatus::Connected,
        last_seen: now,
    }
}

/// Whether the record `d` carries what the announcement `info` received at time
/// `now` says: the announced name, address and port, connected, seen now.
pub open spec fn records_announcement(d: DeviceInfo, info: BroadcastInfo, now: u64) -> bool {
    &&& d.id == info.id
    &&& d.name == info.name
    &&& d.ip == info.ip
    &&& d.port == info.port
    &&& d.status == DeviceStatus::Connected
    &&& d.last_seen == now
}

/// The record an announcement leaves carries the announced id, name, address and
/// port, is connected and was seen at the time of the announcement.
pub proof fn lemma_announcement_is_recorded_as_announced(info: BroadcastInfo, now: u64)
    ensures
        records_announcement(discovered(info, now), info, now),
{
}

/// Whether a device has been silent for longer than the timeout at time `now`.
pub open spec fn timed_out(d: DeviceInfo, now: u64) -> bool {
    now - d.last_seen > DEVICE_TIMEOUT_SECS
}

/// What the periodic clean-up makes of one device.
pub open spec fn after_expiry(d: DeviceInfo, now: u64) -> DeviceInfo {
    if timed_out(d, now) && d.status != DeviceStatus::Offline {
        DeviceInfo { status: DeviceStatus::Offline, ..d }
    } else {
        d
    }
}

/// `d` with its status set to `status`.
pub open spec fn with_status(d: DeviceInfo, status: DeviceStatus) -> DeviceInfo {
    DeviceInfo { status, ..d }
}

/// Whether the connection manager should try to reach `d`.
pub open spec fn wants_connection(d: DeviceInfo, connecting: Seq<Seq<char>>) -> bool {
    !connecting.contains(d.id@) && (d.status == DeviceStatus::Offline || d.status
        == DeviceStatus::Connecting)
}

/// Number of connected devices in `s`.
pub open spec fn count_connected(s: Seq<DeviceInfo>) -> nat
    decreases s.len(),
{
    if s.len() == 0 {
        0
    } else {
        count_connected(s.drop_last()) + if s.last().status == DeviceStatus::Connected {
            1nat
        } else {
            0nat
        }
    }
}

/// The devices found on the network, each id at most once, in the order in which
/// they were first heard of.
pub struct DeviceRegistry {
    devices: Vec<DeviceInfo>,
}

impl View for DeviceRegistry {
    type V = Seq<DeviceInfo>;

    closed spec fn view(&self) -> Seq<DeviceInfo> {
        self.devices@
    }
}

impl DeviceRegistry {
    /// Whether each device id occurs once.
    pub closed spec fn wf(&self) -> bool {
        unique_ids(self.devices@)
    }

    /// An empty registry.
    pub fn new() -> (r: Self)
        ensures
            r.wf(),
            r@ == Seq::<DeviceInfo>::empty(),
    {
        DeviceRegistry { devices: Vec::new() }
    }

    /// Number of known devices.
    pub fn len(&self) -> (n: usize)
        ensures
            n == self@.len(),
    {
        self.devices.len()
    }

    /// Position of the device with id `id`.
    pub fn index_of(&self, id: &String) -> (r: Option<usize>)
        requires
            self.wf(),
        ensures
            match r {
                Some(i) => i < self@.len() && self@[i as int].id@ == id@,
                None => !has_id(self@, id@),
            },
    {
        let mut j: usize = 0;
        while j < self.devices.len()
            invariant
                j <= self.devices@.len(),
                forall|k: int| 0 <= k < j ==> self.devices@[k].id@ != id@,
            decreases self.devices@.len() - j,
        {
            if self.devices[j].id == *id {
                return Some(j);
            }
            j = j + 1;
        }
        None
    }

    /// A copy of the record of device `id`.
    pub fn get(&self, id: &String) -> (r: Option<DeviceInfo>)
        requires
            self.wf(),
        ensures
            match r {
                Some(d) => d.id@ == id@ && self@.contains(d),
                None => !has_id(self@, id@),
            },
    {
        match self.index_of(id) {
            Some(i) => Some(self.devices[i].duplicate()),
            None => None,
        }
    }

    /// Copies of all device records, in registry order.
    pub fn list(&self) -> (r: Vec<DeviceInfo>)
        ensures
            r@ == self@,
    {
        let mut out: Vec<DeviceInfo> = Vec::new();
        let mut j: usize = 0;
        while j < self.devices.len()
            invariant
                j <= self.devices@.len(),
                out@ == self.devices@.subrange(0, j as int),
            decreases self.devices@.len() - j,
        {
            out.push(self.devices[j].duplicate());
            j = j + 1;
            assert(out@ =~= self.devices@.subrange(0, j as int));
        }
        assert(self.devices@.subrange(0, self.devices@.len() as int) =~= self.devices@);
        out
    }

    /// Records a discovery announcement received at time `now`: the device is connected
    /// and was last seen now.  Returns whether it is new or came back from offline.
    pub fn upsert_discovered(&mut self, info: &BroadcastInfo, now: u64) -> (notify: bool)
        requires
            old(self).wf(),
        ensures
            final(self).wf(),
            has_id(old(self)@, info.id@) ==> exists|i: int|
                0 <= i < old(self)@.len() && old(self)@[i].id@ == info.id@ && final(self)@
                    == old(self)@.update(i, discovered(*info, now)) && notify == (old(self)@[i].status
                    == DeviceStatus::Offline),
            !has_id(old(self)@, info.id@) ==> final(self)@ == old(self)@.push(discovered(*info, now))
                && notify,
            exists|i: int| 0 <= i < final(self)@.len() && #[trigger] records_announcement(final(self)@[i], *info, now),
            final(self)@.len() == old(self)@.len() + if has_id(old(self)@, info.id@) { 0int } else { 1int },
    {
        let dev = DeviceInfo {
            id: info.id.clone(),
            name: info.name.clone(),
            ip: info.ip.clone(),
            port: info.port,
            status: DeviceStatus::Connected,
            last_seen: now,
        };
        assert(dev == discovered(*info, now));
        match self.index_of(&info.id) {
            Some(i) => {
                let prev = self.devices[i].status;
                self.devices.set(i, dev);
                assert(unique_ids(self.devices@)) by {
                    assert forall|a: int, b: int|
                        0 <= a < self.devices@.len() && 0 <= b < self.devices@.len() && a != b
                        implies #[trigger] self.devices@[a].id@ != #[trigger] self.devices@[b].id@ by {
                        assert(old(self).devices@[a].id@ != old(self).devices@[b].id@);
                    }
                }
                assert(self.devices@[i as int] == dev);
                assert(records_announcement(self@[i as int], *info, now));
                prev == DeviceStatus::Offline
            },
            None => {
                self.devices.push(dev);
                assert(unique_ids(self.devices@)) by {
                    assert forall|a: int, b: int|
                        0 <= a < self.devices@.len() && 0 <= b < self.devices@.len() && a != b
                        implies #[trigger] self.devices@[a].id@ != #[trigger] self.devices@[b].id@ by {
                        if a < old(self).devices@.len() && b < old(self).devices@.len() {
                            assert(old(self).devices@[a].id@ != old(self).devices@[b].id@);
                        } else if a < old(self).devices@.len() {
                            assert(old(self).devices@[a].id@ != info.id@);
                        } else {
                            assert(old(self).devices@[b].id@ != info.id@);
                        }
                    }
                }
                assert(self.devices@[self.devices@.len() - 1] == dev);
                assert(records_announcement(self@[self@.len() - 1], *info, now));
                true
            },
        }
    }

    /// Sets the status of device `id`; returns whether the device is known.
    pub fn set_status(&mut self, id: &String, status: DeviceStatus) -> (found: bool)
        requires
            old(self).wf(),
        ensures
            final(self).wf(),
            found == has_id(old(self)@, id@),
            found ==> exists|i: int|
                0 <= i < old(self)@.len() && old(self)@[i].id@ == id@ && final(self)@ == old(self)@.update(
                    i,
                    with_status(old(self)@[i], status),
                ),
            !found ==> final(self)@ == old(self)@,
    {
        match self.index_of(id) {
            Some(i) => {
                let mut d = self.devices[i].duplicate();
                d.status = status;
                self.devices.set(i, d);
                assert(unique_ids(self.devices@)) by {
                    assert forall|a: int, b: int|
                        0 <= a < self.devices@.len() && 0 <= b < self.devices@.len() && a != b
                        implies #[trigger] self.devices@[a].id@ != #[trigger] self.devices@[b].id@ by {
                        assert(old(self).devices@[a].id@ != old(self).devices@[b].id@);
                    }
                }
                assert(self.devices@ == old(self).devices@.update(i as int, with_status(old(self).devices@[i as int], status)));
                true
            },
            None => false,
        }
    }

    /// Marks every device as offline.
    pub fn mark_all_offline(&mut self)
        requires
            old(self).wf(),
        ensures
            final(self).wf(),
            final(self)@ == old(self)@.map_values(|d: DeviceInfo| with_status(d, DeviceStatus::Offline)),
    {
        let ghost start = self.devices@;
        let mut j: usize = 0;
        while j < self.devices.len()
            invariant
                j <= self.devices@.len(),
                self.devices@.len() == start.len(),
                forall|k: int| 0 <= k < j ==> #[trigger] self.devices@[k] == with_status(start[k], DeviceStatus::Offline),
                forall|k: int| j <= k < start.len() ==> #[trigger] self.devices@[k] == start[k],
            decreases self.devices@.len() - j,
        {
            let mut d = self.devices[j].duplicate();
            d.status = DeviceStatus::Offline;
            self.devices.set(j, d);
            j = j + 1;
        }
        assert(self.devices@ =~= start.map_values(|d: DeviceInfo| with_status(d, DeviceStatus::Offline)));
        assert(unique_ids(self.devices@)) by {
            assert forall|a: int, b: int|
                0 <= a < self.devices@.len() && 0 <= b < self.devices@.len() && a != b
                implies #[trigger] self.devices@[a].id@ != #[trigger] self.devices@[b].id@ by {
                assert(start[a].id@ != start[b].id@);
            }
        }
    }

    /// The periodic clean-up at time `now`: every device silent for longer than the
    /// timeout that is not yet offline becomes offline.  Returns whether any did.
    pub fn expire(&mut self, now: u64) -> (changed: bool)
        requires
            old(self).wf(),
            forall|i: int| 0 <= i < old(self)@.len() ==> #[trigger] old(self)@[i].last_seen <= now,
        ensures
            final(self).wf(),
            final(self)@ == old(self)@.map_values(|d: DeviceInfo| after_expiry(d, now)),
            changed == exists|i: int|
                0 <= i < old(self)@.len() && timed_out(#[trigger] old(self)@[i], now) && old(self)@[i].status
                    != DeviceStatus::Offline,
    {
        let ghost start = self.devices@;
        let mut changed = false;
        let mut j: usize = 0;
        while j < self.devices.len()
            invariant
                j <= self.devices@.len(),
                self.devices@.len() == start.len(),
                forall|i: int| 0 <= i < start.len() ==> #[trigger] start[i].last_seen <= now,
                forall|k: int| 0 <= k < j ==> #[trigger] self.devices@[k] == after_expiry(start[k], now),
                forall|k: int| j <= k < start.len() ==> #[trigger] self.devices@[k] == start[k],
                changed == exists|i: int|
                    0 <= i < j && timed_out(#[trigger] start[i], now) && start[i].status != DeviceStatus::Offline,
            decreases self.devices@.len() - j,
        {
            let d = &self.devices[j];
            if now - d.last_seen > DEVICE_TIMEOUT_SECS && d.status != DeviceStatus::Offline {
                let mut nd = d.duplicate();
                nd.status = DeviceStatus::Offline;
                self.devices.set(j, nd);
                changed = true;
            }
            j = j + 1;
        }
        assert(self.devices@ =~= start.map_values(|d: DeviceInfo| after_expiry(d, now)));
        assert(unique_ids(self.devices@)) by {
            assert forall|a: int, b: int|
                0 <= a < self.devices@.len() && 0 <= b < self.devices@.len() && a != b
                implies #[trigger] self.devices@[a].id@ != #[trigger] self.devices@[b].id@ by {
                assert(start[a].id@ != start[b].id@);
            }
        }
        changed
    }

    /// Number of devices whose status is `Connected`.
    pub fn connected_count(&self) -> (n: usize)
        ensures
            n == count_connected(self@),
    {
        let mut n: usize = 0;
        let mut j: usize = 0;
        while j < self.devices.len()
            invariant
                j <= self.devices@.len(),
                n == count_connected(self.devices@.take(j as int)),
                n <= j,
            decreases self.devices@.len() - j,
        {
            assert(self.devices@.take(j + 1).drop_last() =~= self.devices@.take(j as int));
            if self.devices[j].status == DeviceStatus::Connected {
                n = n + 1;
            }
            j = j + 1;
        }
        assert(self.devices@.take(self.devices@.len() as int) =~= self.devices@);
        n
    }

    /// The devices that the connection manager should try to reach: those offline or
    /// still connecting, and not already being connected to.
    pub fn reconnect_candidates(&self, connecting: &Vec<String>) -> (r: Vec<DeviceInfo>)
        ensures
            r@ == self@.filter(|d: DeviceInfo| wants_connection(d, connecting@.map_values(|s: String| s@))),
    {
        let ghost ids = connecting@.map_values(|s: String| s@);
        let ghost pred = |d: DeviceInfo| wants_connection(d, ids);
        let mut out: Vec<DeviceInfo> = Vec::new();
        let mut j: usize = 0;
        while j < self.devices.len()
            invariant
                j <= self.devices@.len(),
                ids == connecting@.map_values(|s: String| s@),
                pred == (|d: DeviceInfo| wants_connection(d, ids)),
                out@ == self.devices@.take(j as int).filter(pred),
            decreases self.devices@.len() - j,
        {
            reveal_with_fuel(Seq::<_>::filter, 1);
            assert(self.devices@.take(j + 1).drop_last() =~= self.devices@.take(j as int));
            let d = &self.devices[j];
            let busy = contains_string(connecting, &d.id);
            assert(busy == ids.contains(d.id@));
            if !busy && (d.status == DeviceStatus::Offline || d.status == DeviceStatus::Connecting) {
                out.push(d.duplicate());
            }
            j = j + 1;
        }
        assert(self.devices@.take(self.devices@.len() as int) =~= self.devices@);
        out
    }

    /// The devices that a broadcast goes to: all that are not offline.
    pub fn broadcast_targets(&self) -> (r: Vec<DeviceInfo>)
        ensures
            r@ == self@.filter(|d: DeviceInfo| d.status != DeviceStatus::Offline),
    {
        let ghost pred = |d: DeviceInfo| d.status != DeviceStatus::Offline;
        let mut out: Vec<DeviceInfo> = Vec::new();
        let mut j: usize = 0;
        while j < self.devices.len()
            invariant
                j <= self.devices@.len(),
                pred == (|d: DeviceInfo| d.status != DeviceStatus::Offline),
                out@ == self.devices@.take(j as int).filter(pred),
            decreases self.devices@.len() - j,
        {
            reveal_with_fuel(Seq::<_>::filter, 1);
            assert(self.devices@.take(j + 1).drop_last() =~= self.devices@.take(j as int));
            if self.devices[j].status != DeviceStatus::Offline {
                out.push(self.devices[j].duplicate());
            }
            j = j + 1;
        }
        assert(self.devices@.take(self.devices@.len() as int) =~= self.devices@);
        out
    }
}

/// Whether `s` holds a string equal to `x`.
pub fn contains_string(s: &Vec<String>, x: &String) -> (r: bool)
    ensures
        r == s@.map_values(|v: String| v@).contains(x@),
{
    let ghost m = s@.map_values(|v: String| v@);
    let mut j: usize = 0;
    while j < s.len()
        invariant
            j <= s@.len(),
            m == s@.map_values(|v: String| v@),
            forall|k: int| 0 <= k < j ==> m[k] != x@,
        decreases s@.len() - j,
    {
        if s[j] == *x {
            assert(m[j as int] == x@);
            return true;
        }
        j = j + 1;
    }
    false
}

/// A device recorded from an announcement is not taken offline by a clean-up at
/// the same moment: it is connected and was just seen.
pub proof fn lemma_fresh_device_survives_expiry(info: BroadcastInfo, now: u64)
    ensures
        after_expiry(discovered(info, now), now) == discovered(info, now),
        discovered(info, now).status == DeviceStatus::Connected,
{
}

/// A clean-up at time `now` leaves every device that has been silent for longer than
/// the timeout offline and every other device as it was; a second clean-up at the
/// same time changes nothing.
pub proof fn lemma_expiry_takes_silent_devices_offline(s: Seq<DeviceInfo>, now: u64)
    ensures
        ({
            let t = s.map_values(|d: DeviceInfo| after_expiry(d, now));
            &&& forall|i: int| 0 <= i < s.len() ==> (timed_out(s[i], now) ==> (#[trigger] t[i]).status == DeviceStatus::Offline)
            &&& forall|i: int| 0 <= i < s.len() ==> (!timed_out(s[i], now) ==> #[trigger] t[i] == s[i])
            &&& t.map_values(|d: DeviceInfo| after_expiry(d, now)) == t
        }),
{
    let t = s.map_values(|d: DeviceInfo| after_expiry(d, now));
    assert(t.map_values(|d: DeviceInfo| after_expiry(d, now)) =~= t);
}

/// After every device is marked offline, a broadcast reaches no device.
pub proof fn lemma_all_offline_reaches_none(s: Seq<DeviceInfo>)
    ensures
        s.map_values(|d: DeviceInfo| with_status(d, DeviceStatus::Offline)).filter(|d: DeviceInfo| d.status
            != DeviceStatus::Offline).len() == 0,
{
    let t = s.map_values(|d: DeviceInfo| with_status(d, DeviceStatus::Offline));
    let pred = |d: DeviceInfo| d.status != DeviceStatus::Offline;
    assert(t.all(|d: DeviceInfo| !pred(d)));
    t.lemma_all_neg_filter_empty(pred);
}

} // verus!
