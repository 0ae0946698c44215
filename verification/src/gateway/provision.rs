//! Onboarding devices: each device and its numbered ports, created once and
//! then only confirmed.
use vstd::prelude::*;
use crate::billing::quote_pricing::{decimal, push_decimal};
use crate::text::string_eq;

verus! {

/// One device of a provisioning batch.
pub struct DeviceProvision {
    pub device_id: String,
    pub vendor_id: u64,
    pub station_id: u64,
    pub port_count: u8,
    pub model: Option<String>,
}

/// Two provisioning requests for a device are the same request: every field.
pub open spec fn provision_same(a: DeviceProvision, b: DeviceProvision) -> bool {
    &&& a.device_id@ == b.device_id@
    &&& a.vendor_id == b.vendor_id
    &&& a.station_id == b.station_id
    &&& a.port_count == b.port_count
    &&& match (a.model, b.model) {
        (Some(x), Some(y)) => x@ == y@,
        (None, None) => true,
        _ => false,
    }
}

/// A device is imported with one set of parameters: the request first kept
/// for it must be this one. A re-import with the same parameters goes on,
/// one with other parameters is refused.
pub fn reimport_matches(stored: &DeviceProvision, d: &DeviceProvision) -> (r: bool)
    ensures
        r == provision_same(*stored, *d),
{
    let model_ok = match (&stored.model, &d.model) {
        (Some(x), Some(y)) => string_eq(x, y),
        (None, None) => true,
        _ => false,
    };
    string_eq(&stored.device_id, &d.device_id) && stored.vendor_id == d.vendor_id
        && stored.station_id == d.station_id && stored.port_count == d.port_count && model_ok
}

/// A device already on record.
pub struct ExistingDevice {
    pub vendor_id: u64,
    pub station_id: Option<u64>,
    pub port_count: u8,
    pub model: Option<String>,
    pub enabled: bool,
    pub deleted: bool,
}

pub open spec fn existing_agrees(row: ExistingDevice, d: DeviceProvision) -> bool {
    &&& row.vendor_id == d.vendor_id
    &&& row.station_id == Some(d.station_id)
    &&& row.port_count == d.port_count
    &&& match (row.model, d.model) {
        (Some(a), Some(b)) => a@ == b@,
        (None, None) => true,
        _ => false,
    }
    &&& row.enabled
    &&& !row.deleted
}

/// Whether a device on record is the one the batch describes, enabled and
/// not deleted.
pub fn existing_matches(row: &ExistingDevice, d: &DeviceProvision) -> (r: bool)
    ensures
        r == existing_agrees(*row, *d),
{
    let model_ok = match (&row.model, &d.model) {
        (Some(a), Some(b)) => string_eq(a, b),
        (None, None) => true,
        _ => false,
    };
    row.vendor_id == d.vendor_id && row.station_id == Some(d.station_id) && row.port_count
        == d.port_count && model_ok && row.enabled && !row.deleted
}

/// The code of a device's port: the device id, `:` and the port number.
pub open spec fn port_code_spec(device_id: Seq<char>, port_no: u8) -> Seq<char> {
    device_id + seq![':'] + decimal(port_no as nat)
}

pub fn port_code(device_id: &String, port_no: u8) -> (r: String)
    ensures
        r@ == port_code_spec(device_id@, port_no),
{
    let mut out = device_id.clone();
    proof {
        reveal_strlit(":");
    }
    out.append(":");
    push_decimal(&mut out, port_no as u64);
    out
}

/// The ports on record, by number in order, are exactly 1 to `port_count`.
pub open spec fn ports_complete(port_nos: Seq<u8>, port_count: u8) -> bool {
    port_nos.len() == port_count && forall|i: int| 0 <= i < port_nos.len() ==> #[trigger] port_nos[i]
        == i + 1
}

pub fn check_ports(port_nos: &[u8], port_count: u8) -> (r: bool)
    ensures
        r == ports_complete(port_nos@, port_count),
{
    if port_nos.len() != port_count as usize {
        return false;
    }
    let mut i: usize = 0;
    while i < port_nos.len()
        invariant
            i <= port_nos@.len(),
            port_nos@.len() == port_count,
            forall|j: int| 0 <= j < i ==> #[trigger] port_nos@[j] == j + 1,
        decreases port_nos@.len() - i,
    {
        if port_nos[i] as usize != i + 1 {
            return false;
        }
        i = i + 1;
    }
    true
}

/// A character's code point after `char::to_ascii_lowercase`.
pub open spec fn fold_code(c: char) -> u32 {
    let x = c as u32;
    if 65 <= x && x <= 90 {
        (x + 32) as u32
    } else {
        x
    }
}

/// The key a device id is locked by: its code points, ASCII letters
/// lowercased.
pub open spec fn lock_key(s: Seq<char>) -> Seq<u32> {
    s.map_values(|c: char| fold_code(c))
}

/// Lexicographic order of keys, a prefix first: the order of the strings
/// the keys stand for (UTF-8 bytes compare as their code points do).
pub open spec fn key_le(a: Seq<u32>, b: Seq<u32>) -> bool
    decreases a.len(),
{
    if a.len() == 0 {
        true
    } else if b.len() == 0 {
        false
    } else if a[0] != b[0] {
        a[0] < b[0]
    } else {
        key_le(a.drop_first(), b.drop_first())
    }
}

proof fn lemma_key_le_total(a: Seq<u32>, b: Seq<u32>)
    ensures
        key_le(a, b) || key_le(b, a),
    decreases a.len(),
{
    if a.len() > 0 && b.len() > 0 && a[0] == b[0] {
        lemma_key_le_total(a.drop_first(), b.drop_first());
    }
}

proof fn lemma_key_le_trans(a: Seq<u32>, b: Seq<u32>, c: Seq<u32>)
    requires
        key_le(a, b),
        key_le(b, c),
    ensures
        key_le(a, c),
    decreases a.len(),
{
    if a.len() > 0 && b.len() > 0 && c.len() > 0 && a[0] == b[0] && b[0] == c[0] {
        lemma_key_le_trans(a.drop_first(), b.drop_first(), c.drop_first());
    }
}

proof fn lemma_key_le_antisymmetric(a: Seq<u32>, b: Seq<u32>)
    requires
        key_le(a, b),
        key_le(b, a),
    ensures
        a == b,
    decreases a.len(),
{
    if a.len() > 0 && b.len() > 0 && a[0] == b[0] {
        lemma_key_le_antisymmetric(a.drop_first(), b.drop_first());
        assert(a =~= seq![a[0]] + a.drop_first());
        assert(b =~= seq![b[0]] + b.drop_first());
    } else if a.len() == 0 && b.len() == 0 {
        assert(a =~= b);
    }
}

fn fold_char(c: char) -> (r: u32)
    ensures
        r == fold_code(c),
{
    let x = c as u32;
    if 65 <= x && x <= 90 {
        x + 32
    } else {
        x
    }
}

/// Whether `a` locks no later than `b`.
fn locks_first(a: &str, b: &str) -> (r: bool)
    ensures
        r == key_le(lock_key(a@), lock_key(b@)),
{
    let ghost ka = lock_key(a@);
    let ghost kb = lock_key(b@);
    let n = a.unicode_len();
    let m = b.unicode_len();
    let mut i: usize = 0;
    assert(ka.skip(0) =~= ka);
    assert(kb.skip(0) =~= kb);
    while i < n && i < m
        invariant
            n == a@.len(),
            m == b@.len(),
            ka == lock_key(a@),
            kb == lock_key(b@),
            i <= n,
            i <= m,
            key_le(ka, kb) == key_le(ka.skip(i as int), kb.skip(i as int)),
        decreases n - i,
    {
        let x = fold_char(a.get_char(i));
        let y = fold_char(b.get_char(i));
        assert(ka.skip(i as int)[0] == x);
        assert(kb.skip(i as int)[0] == y);
        if x != y {
            return x < y;
        }
        assert(ka.skip(i as int).drop_first() =~= ka.skip(i + 1));
        assert(kb.skip(i as int).drop_first() =~= kb.skip(i + 1));
        i = i + 1;
    }
    assert(i == n ==> ka.skip(i as int).len() == 0);
    assert(i < n ==> kb.skip(i as int).len() == 0 && ka.skip(i as int).len() > 0);
    i == n
}

/// The lock key of the device at `i` of a batch.
pub open spec fn device_key(devices: Seq<DeviceProvision>, i: int) -> Seq<u32> {
    lock_key(devices[i].device_id@)
}

/// `order` lists the devices of the batch in the order their locks are
/// taken: each index once, by lock key, and devices whose keys compare
/// equal in the batch's own order.
pub open spec fn is_lock_order(devices: Seq<DeviceProvision>, order: Seq<usize>) -> bool {
    &&& order.len() == devices.len()
    &&& forall|i: int| 0 <= i < order.len() ==> #[trigger] order[i] < devices.len()
    &&& forall|i: int, j: int|
        0 <= i < j < order.len() ==> #[trigger] order[i] != #[trigger] order[j]
    &&& forall|i: int, j: int|
        0 <= i < j < order.len() ==> key_le(
            device_key(devices, #[trigger] order[i] as int),
            device_key(devices, #[trigger] order[j] as int),
        )
    &&& forall|i: int, j: int|
        0 <= i < j < order.len() && key_le(
            device_key(devices, order[j] as int),
            device_key(devices, order[i] as int),
        ) ==> #[trigger] order[i] < #[trigger] order[j]
}

/// The order in which a provisioning batch takes its devices' locks, so that
/// concurrent batches lock in the same order: a stable sort by device id
/// with ASCII letters lowercased. Returns indices into the batch.
pub fn lock_order(devices: &[DeviceProvision]) -> (order: Vec<usize>)
    ensures
        is_lock_order(devices@, order@),
{
    let mut out: Vec<usize> = Vec::new();
    let n = devices.len();
    let mut k: usize = 0;
    while k < n
        invariant
            n == devices@.len(),
            k <= n,
            out@.len() == k,
            forall|i: int| 0 <= i < out@.len() ==> #[trigger] out@[i] < k,
            forall|i: int, j: int|
                0 <= i < j < out@.len() ==> #[trigger] out@[i] != #[trigger] out@[j],
            forall|i: int, j: int|
                0 <= i < j < out@.len() ==> key_le(
                    device_key(devices@, #[trigger] out@[i] as int),
                    device_key(devices@, #[trigger] out@[j] as int),
                ),
            forall|i: int, j: int|
                0 <= i < j < out@.len() && key_le(
                    device_key(devices@, out@[j] as int),
                    device_key(devices@, out@[i] as int),
                ) ==> #[trigger] out@[i] < #[trigger] out@[j],
        decreases n - k,
    {
        let ghost kk = device_key(devices@, k as int);
        let mut p = out.len();
        while p > 0 && !locks_first(
            devices[out[p - 1]].device_id.as_str(),
            devices[k].device_id.as_str(),
        )
            invariant
                n == devices@.len(),
                k < n,
                p <= out@.len(),
                kk == device_key(devices@, k as int),
                forall|i: int| 0 <= i < out@.len() ==> #[trigger] out@[i] < k,
                forall|q: int|
                    p <= q < out@.len() ==> !key_le(
                        device_key(devices@, #[trigger] out@[q] as int),
                        kk,
                    ),
            decreases p,
        {
            p = p - 1;
        }
        let ghost old_out = out@;
        out.insert(p, k);
        proof {
            assert(out@ == old_out.insert(p as int, k));
            assert forall|i: int, j: int| 0 <= i < j < out@.len() implies key_le(
                device_key(devices@, #[trigger] out@[i] as int),
                device_key(devices@, #[trigger] out@[j] as int),
            ) by {
                if j < p {
                    assert(out@[i] == old_out[i] && out@[j] == old_out[j]);
                } else if i > p {
                    assert(out@[i] == old_out[i - 1] && out@[j] == old_out[j - 1]);
                } else if j == p {
                    assert(key_le(device_key(devices@, old_out[p - 1] as int), kk));
                    if i < p - 1 {
                        assert(old_out[i] == out@[i]);
                        lemma_key_le_trans(
                            device_key(devices@, old_out[i] as int),
                            device_key(devices@, old_out[p - 1] as int),
                            kk,
                        );
                    }
                } else if i == p {
                    assert(out@[j] == old_out[j - 1]);
                    lemma_key_le_total(device_key(devices@, old_out[j - 1] as int), kk);
                } else {
                    assert(out@[i] == old_out[i] && out@[j] == old_out[j - 1]);
                }
            }
            assert forall|i: int, j: int|
                0 <= i < j < out@.len() && key_le(
                    device_key(devices@, out@[j] as int),
                    device_key(devices@, out@[i] as int),
                ) implies #[trigger] out@[i] < #[trigger] out@[j] by {
                if j < p {
                    assert(out@[i] == old_out[i] && out@[j] == old_out[j]);
                } else if i > p {
                    assert(out@[i] == old_out[i - 1] && out@[j] == old_out[j - 1]);
                } else if j == p {
                    assert(out@[i] == old_out[i]);
                } else if i == p {
                    assert(out@[j] == old_out[j - 1]);
                } else {
                    assert(out@[i] == old_out[i] && out@[j] == old_out[j - 1]);
                }
            }
            assert forall|i: int, j: int| 0 <= i < j < out@.len() implies #[trigger] out@[i]
                != #[trigger] out@[j] by {
                if j < p {
                    assert(out@[i] == old_out[i] && out@[j] == old_out[j]);
                } else if i > p {
                    assert(out@[i] == old_out[i - 1] && out@[j] == old_out[j - 1]);
                } else if j == p {
                    assert(out@[i] == old_out[i]);
                } else if i == p {
                    assert(out@[j] == old_out[j - 1]);
                } else {
                    assert(out@[i] == old_out[i] && out@[j] == old_out[j - 1]);
                }
            }
            assert forall|i: int| 0 <= i < out@.len() implies #[trigger] out@[i] < k + 1 by {
                if i < p {
                    assert(out@[i] == old_out[i]);
                } else if i > p {
                    assert(out@[i] == old_out[i - 1]);
                }
            }
        }
        k = k + 1;
    }
    out
}

/// Every batch takes its locks in the same order: two devices whose lock
/// keys differ are locked in the same relative order by any two batches
/// that hold them both.
pub proof fn lemma_batches_lock_in_one_order(
    d1: Seq<DeviceProvision>,
    o1: Seq<usize>,
    d2: Seq<DeviceProvision>,
    o2: Seq<usize>,
    i1: int,
    j1: int,
    i2: int,
    j2: int,
)
    requires
        is_lock_order(d1, o1),
        is_lock_order(d2, o2),
        0 <= i1 < j1 < o1.len(),
        0 <= i2 < o2.len(),
        0 <= j2 < o2.len(),
        device_key(d1, o1[i1] as int) != device_key(d1, o1[j1] as int),
        device_key(d2, o2[i2] as int) == device_key(d1, o1[i1] as int),
        device_key(d2, o2[j2] as int) == device_key(d1, o1[j1] as int),
    ensures
        i2 < j2,
{
    let ka = device_key(d1, o1[i1] as int);
    let kb = device_key(d1, o1[j1] as int);
    assert(key_le(ka, kb));
    if j2 < i2 {
        assert(key_le(device_key(d2, o2[j2] as int), device_key(d2, o2[i2] as int)));
        lemma_key_le_antisymmetric(ka, kb);
    }
}

} // verus!
