//! Detection and transport decisions: which device to bind, how a platform
//! model id is read, and how a feature-report response is checked. The
//! HID calls and the platform reads themselves are made by the caller.
use crate::descriptor::{find_by_model, model_lookup, Descriptor};
use crate::error::RazerError;
use crate::feature::{is_prefix, starts_with};
use crate::packet::{Packet, REPORT_SIZE};
use std::collections::HashSet;
use vstd::prelude::*;
use vstd::slice::slice_subrange;
use vstd::string::*;

verus! {

/// USB vendor id of every supported device.
pub const RAZER_VID: u16 = 0x1532;

/// Length of a normalized platform model id.
pub const MODEL_PREFIX_LEN: usize = 10;

/// Product ids found on the bus, and the platform model id.
#[derive(Clone, Debug)]
pub struct EnumerationResult {
    pub pids: Vec<u16>,
    pub model: String,
}

/// What `str::trim` returns for `s`.
pub uninterp spec fn trimmed(s: Seq<char>) -> Seq<char>;

/// `part` is a contiguous piece of `s`.
pub open spec fn is_infix(part: Seq<char>, s: Seq<char>) -> bool {
    exists|i: int, j: int| 0 <= i <= j <= s.len() && part == s.subrange(i, j)
}

/// Relies on str::trim: `s` without its leading and trailing whitespace,
/// a contiguous piece of `s` that depends on the characters of `s` alone.
#[verifier::external_body]
fn trim(s: &str) -> (r: &str)
    ensures
        r@ == trimmed(s@),
        is_infix(r@, s@),
{
    s.trim()
}

/// The first ten characters of a model id (all of it when shorter).
pub open spec fn model_prefix_of(s: Seq<char>) -> Seq<char> {
    if s.len() <= 10 {
        s
    } else {
        s.subrange(0, 10)
    }
}

/// The first ten characters of a platform model id.
pub fn model_prefix(sku: &str) -> (r: String)
    ensures
        r@ == model_prefix_of(sku@),
{
    let n = sku.unicode_len();
    let end = if n < MODEL_PREFIX_LEN {
        n
    } else {
        MODEL_PREFIX_LEN
    };
    let head = sku.substring_char(0, end);
    assert(sku@.subrange(0, n as int) =~= sku@);
    String::from_str(head)
}

/// A trimmed product SKU names a Razer model when it begins with "RZ"; the
/// model id is then its first ten characters.
pub fn model_from_sku(sku: &str) -> (r: Result<String, RazerError>)
    ensures
        is_prefix("RZ"@, sku@) ==> r is Ok && r->Ok_0@ == model_prefix_of(sku@),
        !is_prefix("RZ"@, sku@) ==> r is Err && r->Err_0 is InvalidModel
            && r->Err_0->InvalidModel_0@ == sku@,
{
    if starts_with(sku, "RZ") {
        Ok(model_prefix(sku))
    } else {
        Err(RazerError::InvalidModel(String::from_str(sku)))
    }
}

/// The model id of a Linux product SKU file's content: trimmed, it must
/// begin with "RZ", and its first ten characters are kept.
pub fn read_device_model(sku: &str) -> (r: Result<String, RazerError>)
    ensures
        is_prefix("RZ"@, trimmed(sku@)) ==> r is Ok && r->Ok_0@ == model_prefix_of(trimmed(sku@)),
        !is_prefix("RZ"@, trimmed(sku@)) ==> r is Err && r->Err_0 is InvalidModel
            && r->Err_0->InvalidModel_0@ == trimmed(sku@),
{
    model_from_sku(trim(sku))
}

/// `pids` lists, each once, the product ids of the devices of vendor
/// 0x1532 among `devices` (pairs of vendor and product id).
pub open spec fn razer_pids(devices: Seq<(u16, u16)>, pids: Seq<u16>) -> bool {
    &&& pids.no_duplicates()
    &&& forall|p: u16|
        pids.contains(p) <==> exists|i: int|
            0 <= i < devices.len() && #[trigger] devices[i] == (RAZER_VID, p)
}

/// The distinct product ids of the Razer devices among `devices`, in order
/// of first appearance; `NoDevicesFound` when there is none.
pub fn enumerate(devices: &[(u16, u16)]) -> (r: Result<Vec<u16>, RazerError>)
    ensures
        (forall|i: int| 0 <= i < devices@.len() ==> (#[trigger] devices@[i]).0 != RAZER_VID)
            ==> r == Err::<Vec<u16>, RazerError>(RazerError::NoDevicesFound),
        (exists|i: int| 0 <= i < devices@.len() && (#[trigger] devices@[i]).0 == RAZER_VID)
            ==> r is Ok && razer_pids(devices@, r->Ok_0@),
{
    broadcast use vstd::std_specs::hash::group_hash_axioms;
    let mut pids: Vec<u16> = Vec::new();
    let mut seen: HashSet<u16> = HashSet::new();
    let mut i: usize = 0;
    while i < devices.len()
        invariant
            i <= devices@.len(),
            pids@.no_duplicates(),
            forall|p: u16| seen@.contains(p) <==> pids@.contains(p),
            forall|p: u16|
                pids@.contains(p) <==> exists|k: int|
                    0 <= k < i && #[trigger] devices@[k] == (RAZER_VID, p),
        decreases devices@.len() - i,
    {
        let (vendor, product) = devices[i];
        let ghost before = pids@;
        let ghost seen_before = seen@;
        if vendor == RAZER_VID {
            let fresh = seen.insert(product);
            assert(seen@ == seen_before.insert(product));
            assert(fresh == !seen_before.contains(product));
            if fresh {
                pids.push(product);
                assert(pids@[pids@.len() - 1] == product);
            } else {
                assert(before.contains(product));
            }
        }
        proof {
            assert(vendor == RAZER_VID ==> pids@.contains(product));
            assert forall|p: u16|
                pids@.contains(p) <==> exists|k: int|
                    0 <= k < i + 1 && #[trigger] devices@[k] == (RAZER_VID, p) by {
                if pids@.contains(p) {
                    if before.contains(p) {
                        let k = choose|k: int| 0 <= k < i && #[trigger] devices@[k] == (RAZER_VID, p);
                        assert(0 <= k < i + 1 && devices@[k] == (RAZER_VID, p));
                    } else {
                        assert(devices@[i as int] == (RAZER_VID, p));
                    }
                }
                if exists|k: int| 0 <= k < i + 1 && #[trigger] devices@[k] == (RAZER_VID, p) {
                    let k = choose|k: int| 0 <= k < i + 1 && #[trigger] devices@[k] == (RAZER_VID, p);
                    if k < i {
                        assert(before.contains(p));
                        let m = choose|m: int| 0 <= m < before.len() && before[m] == p;
                        assert(pids@[m] == p);
                    }
                }
            }
        }
        i = i + 1;
    }
    if pids.len() == 0 {
        proof {
            assert forall|i: int| 0 <= i < devices@.len() implies (
            #[trigger] devices@[i]).0 != RAZER_VID by {
                if devices@[i].0 == RAZER_VID {
                    assert(!pids@.contains(devices@[i].1));
                }
            }
        }
        return Err(RazerError::NoDevicesFound);
    }
    proof {
        let p = pids@[0];
        assert(pids@.contains(p));
    }
    Ok(pids)
}

/// Pairs the product ids with the platform model id, which must name a
/// Razer laptop ("RZ09-").
pub fn enumeration_result(pids: Vec<u16>, model: String) -> (r: Result<EnumerationResult, RazerError>)
    ensures
        is_prefix("RZ09-"@, model@) ==> r == Ok::<EnumerationResult, RazerError>(
            EnumerationResult { pids, model },
        ),
        !is_prefix("RZ09-"@, model@) ==> r == Err::<EnumerationResult, RazerError>(
            RazerError::InvalidModel(model),
        ),
{
    if starts_with(model.as_str(), "RZ09-") {
        Ok(EnumerationResult { pids, model })
    } else {
        Err(RazerError::InvalidModel(model))
    }
}

/// The catalog entry for an enumeration: the first whose prefix begins the
/// model id. The product ids play no part in the choice; they are only
/// reported when no entry matches.
pub fn detect(enumeration: EnumerationResult) -> (r: Result<Descriptor, RazerError>)
    ensures
        match r {
            Ok(d) => model_lookup(enumeration.model@, Some(d)),
            Err(e) => model_lookup(enumeration.model@, None) && e == RazerError::UnsupportedModel {
                model: enumeration.model,
                pids: enumeration.pids,
            },
        },
{
    match find_by_model(enumeration.model.as_str()) {
        Some(d) => Ok(d),
        None => Err(RazerError::UnsupportedModel { model: enumeration.model, pids: enumeration.pids }),
    }
}

/// The indices of the interfaces of model `pid` among `devices` (pairs of
/// vendor and product id), in order.
pub open spec fn candidates(devices: Seq<(u16, u16)>, pid: u16) -> Seq<int>
    decreases devices.len(),
{
    if devices.len() == 0 {
        Seq::empty()
    } else if devices.last() == (RAZER_VID, pid) {
        candidates(devices.drop_last(), pid).push(devices.len() - 1)
    } else {
        candidates(devices.drop_last(), pid)
    }
}

/// The next move while binding an interface of a model.
#[derive(Debug)]
pub enum OpenStep {
    /// Open the interface at this index of the device list and send it the
    /// probe report.
    Try(usize),
    /// The index of the interface bound, or why none could be.
    Done(Result<usize, RazerError>),
}

/// Binding an interface of model `pid`: its interfaces are tried in order
/// (`outcomes` holds how each try went) and the first that opens and takes
/// the probe report is kept. When none does, the error names the model and
/// the last failure, or says that no interface was found.
pub fn open_step(
    name: &str,
    pid: u16,
    devices: &[(u16, u16)],
    outcomes: &Vec<Result<(), String>>,
) -> (r: OpenStep)
    ensures
        ({
            let c = candidates(devices@, pid);
            let n = outcomes@.len();
            let bound = n > 0 && outcomes@[n - 1] is Ok && n <= c.len();
            let next = (n == 0 || outcomes@[n - 1] is Err) && n < c.len();
            &&& bound ==> r is Done && r->Done_0 is Ok && r->Done_0->Ok_0 as int == c[n - 1]
            &&& next ==> r is Try && r->Try_0 as int == c[n as int]
            &&& !bound && !next ==> r is Done && r->Done_0 is Err
                && r->Done_0->Err_0 is DeviceOpenFailed
                && r->Done_0->Err_0->DeviceOpenFailed_name@ == name@ && (if n > 0
                && outcomes@[n - 1] is Err {
                r->Done_0->Err_0->DeviceOpenFailed_reason == outcomes@[n - 1]->Err_0
            } else {
                r->Done_0->Err_0->DeviceOpenFailed_reason@ == "no matching device found"@
            })
        }),
{
    let mut found: Vec<usize> = Vec::new();
    let mut i: usize = 0;
    while i < devices.len()
        invariant
            i <= devices@.len(),
            found@.len() == candidates(devices@.subrange(0, i as int), pid).len(),
            forall|k: int|
                0 <= k < found@.len() ==> found@[k] as int == #[trigger] candidates(
                    devices@.subrange(0, i as int),
                    pid,
                )[k],
        decreases devices@.len() - i,
    {
        assert(devices@.subrange(0, i + 1).drop_last() =~= devices@.subrange(0, i as int));
        if devices[i].0 == RAZER_VID && devices[i].1 == pid {
            found.push(i);
        }
        i = i + 1;
    }
    assert(devices@.subrange(0, devices@.len() as int) =~= devices@);
    let n = outcomes.len();
    let last_ok = n > 0 && outcomes[n - 1].is_ok();
    if last_ok && n <= found.len() {
        return OpenStep::Done(Ok(found[n - 1]));
    }
    if !last_ok && n < found.len() {
        return OpenStep::Try(found[n]);
    }
    let last_error = if n > 0 {
        match &outcomes[n - 1] {
            Err(e) => Some(e.clone()),
            Ok(()) => None,
        }
    } else {
        None
    };
    OpenStep::Done(Err(open_failure(name, last_error)))
}

/// The error when no interface of a model could be opened: the last
/// failure seen, if any.
pub fn open_failure(name: &str, last_error: Option<String>) -> (r: RazerError)
    ensures
        r is DeviceOpenFailed,
        r->DeviceOpenFailed_name@ == name@,
        last_error is Some ==> r->DeviceOpenFailed_reason == last_error->Some_0,
        last_error is None ==> r->DeviceOpenFailed_reason@ == "no matching device found"@,
{
    let reason = match last_error {
        Some(e) => e,
        None => String::from_str("no matching device found"),
    };
    RazerError::DeviceOpenFailed { name: String::from_str(name), reason }
}

/// Checks a feature report read back for `request`: all of its 91 bytes
/// must have been read, and the packet after the report id must answer the
/// request.
pub fn read_response(request: &Packet, buf: &[u8], bytes_read: usize) -> (r: Result<Packet, RazerError>)
    requires
        buf@.len() == REPORT_SIZE,
    ensures
        bytes_read != REPORT_SIZE ==> r == Err::<Packet, RazerError>(
            RazerError::InvalidDataSize { expected: REPORT_SIZE, actual: bytes_read },
        ),
        bytes_read == REPORT_SIZE && buf@[6] > 80 ==> r == Err::<Packet, RazerError>(
            RazerError::InvalidDataSize { expected: 80, actual: buf@[6] as usize },
        ),
        bytes_read == REPORT_SIZE && buf@[6] <= 80 ==> r == Packet::parse(
            buf@.subrange(1, 91),
        ).validated(*request),
{
    if bytes_read != buf.len() {
        return Err(RazerError::InvalidDataSize { expected: buf.len(), actual: bytes_read });
    }
    let body = slice_subrange(buf, 1, REPORT_SIZE);
    match Packet::from_bytes(body) {
        Err(e) => Err(e),
        Ok(response) => response.ensure_matches_report(request),
    }
}

} // verus!
