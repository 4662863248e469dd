//! The admin app's list of known glass devices (host + control-server port),
//! with the label last read from each.
use crate::text::push_str;
use vstd::prelude::*;

verus! {

/// A known device's control-server endpoint and cached name.
#[derive(Debug, Clone, PartialEq, Eq)]
pub struct StoredDevice {
    pub host: String,
    pub port: u16,
    /// Last-known friendly name (cached from the device's `/api/device`).
    pub label: Option<String>,
}

/// The model of a stored device.
pub struct DeviceModel {
    pub host: Seq<char>,
    pub port: u16,
    pub label: Option<Seq<char>>,
}

impl View for StoredDevice {
    type V = DeviceModel;

    open spec fn view(&self) -> DeviceModel {
        DeviceModel {
            host: self.host@,
            port: self.port,
            label: match self.label {
                Some(l) => Some(l@),
                None => None,
            },
        }
    }
}

/// The models of a list of devices.
pub open spec fn device_models(v: Seq<StoredDevice>) -> Seq<DeviceModel> {
    v.map_values(|d: StoredDevice| d@)
}

/// Whether `d` is the device at `host:port`.
pub open spec fn at_endpoint(d: DeviceModel, host: Seq<char>, port: u16) -> bool {
    d.host == host && d.port == port
}

/// The position of the first device at `host:port`.
pub open spec fn endpoint_pos(ds: Seq<DeviceModel>, host: Seq<char>, port: u16) -> Option<int>
    decreases ds.len(),
{
    if ds.len() == 0 {
        None
    } else if at_endpoint(ds[0], host, port) {
        Some(0)
    } else {
        match endpoint_pos(ds.drop_first(), host, port) {
            Some(i) => Some(i + 1),
            None => None,
        }
    }
}

pub proof fn lemma_endpoint_pos(ds: Seq<DeviceModel>, host: Seq<char>, port: u16)
    ensures
        match endpoint_pos(ds, host, port) {
            Some(i) => 0 <= i < ds.len() && at_endpoint(ds[i], host, port) && forall|j: int|
                0 <= j < i ==> !at_endpoint(#[trigger] ds[j], host, port),
            None => forall|j: int| 0 <= j < ds.len() ==> !at_endpoint(#[trigger] ds[j], host, port),
        },
    decreases ds.len(),
{
    if ds.len() > 0 {
        lemma_endpoint_pos(ds.drop_first(), host, port);
        if !at_endpoint(ds[0], host, port) {
            match endpoint_pos(ds.drop_first(), host, port) {
                Some(i) => {
                    assert forall|j: int| 0 <= j < i + 1 implies !at_endpoint(
                        #[trigger] ds[j],
                        host,
                        port,
                    ) by {
                        if j > 0 {
                            assert(ds[j] == ds.drop_first()[j - 1]);
                        }
                    }
                },
                None => {
                    assert forall|j: int| 0 <= j < ds.len() implies !at_endpoint(
                        #[trigger] ds[j],
                        host,
                        port,
                    ) by {
                        if j > 0 {
                            assert(ds[j] == ds.drop_first()[j - 1]);
                        }
                    }
                },
            }
        }
    }
}

pub proof fn lemma_endpoint_pos_at(ds: Seq<DeviceModel>, host: Seq<char>, port: u16, i: int)
    requires
        0 <= i < ds.len(),
        at_endpoint(ds[i], host, port),
        forall|j: int| 0 <= j < i ==> !at_endpoint(#[trigger] ds[j], host, port),
    ensures
        endpoint_pos(ds, host, port) == Some(i),
{
    lemma_endpoint_pos(ds, host, port);
    match endpoint_pos(ds, host, port) {
        Some(k) => {
            if k < i {
                assert(!at_endpoint(ds[k], host, port));
            } else if k > i {
                assert(!at_endpoint(ds[i], host, port));
            }
        },
        None => {
            assert(!at_endpoint(ds[i], host, port));
        },
    }
}

/// The list after inserting or updating the device at `host:port`: an
/// existing entry (the first at that endpoint) keeps its place and takes the
/// new label if one is given; otherwise a new entry is appended.
pub open spec fn spec_upsert(ds: Seq<DeviceModel>, host: Seq<char>, port: u16, label: Option<Seq<char>>) -> Seq<
    DeviceModel,
> {
    match endpoint_pos(ds, host, port) {
        Some(i) => if label is Some {
            ds.update(i, DeviceModel { label, ..ds[i] })
        } else {
            ds
        },
        None => ds.push(DeviceModel { host, port, label }),
    }
}

/// The list without any device at `host:port`.
pub open spec fn spec_remove(ds: Seq<DeviceModel>, host: Seq<char>, port: u16) -> Seq<DeviceModel> {
    ds.filter(|d: DeviceModel| !at_endpoint(d, host, port))
}

/// No two devices share an endpoint.
pub open spec fn unique_endpoints(ds: Seq<DeviceModel>) -> bool {
    forall|i: int, j: int|
        0 <= i < ds.len() && 0 <= j < ds.len() && i != j ==> !at_endpoint(
            #[trigger] ds[i],
            ds[j].host,
            #[trigger] ds[j].port,
        )
}

impl StoredDevice {
    /// Whether this is the device at `host:port`.
    pub fn same_endpoint(&self, host: &str, port: u16) -> (r: bool)
        ensures
            r == at_endpoint(self@, host@, port),
    {
        self.host == host.to_owned() && self.port == port
    }

    /// A copy with the same model.
    pub fn deep_clone(&self) -> (r: Self)
        ensures
            r@ == self@,
    {
        StoredDevice {
            host: self.host.clone(),
            port: self.port,
            label: match &self.label {
                Some(l) => Some(l.clone()),
                None => None,
            },
        }
    }
}

/// The store of known devices, and the file it is kept in.
#[derive(Debug)]
pub struct DeviceStore {
    path: String,
    devices: Vec<StoredDevice>,
}

impl View for DeviceStore {
    type V = Seq<DeviceModel>;

    closed spec fn view(&self) -> Seq<DeviceModel> {
        device_models(self.devices@)
    }
}

impl DeviceStore {
    /// The path of the file the store is kept in.
    pub closed spec fn spec_path(&self) -> Seq<char> {
        self.path@
    }

    /// A store kept at `path`, holding `devices` as read from it.
    pub fn new(path: String, devices: Vec<StoredDevice>) -> (r: Self)
        ensures
            r@ == device_models(devices@),
            r.spec_path() == path@,
    {
        DeviceStore { path, devices }
    }

    /// The path of the file the store is kept in.
    pub fn path(&self) -> (r: &str)
        ensures
            r@ == self.spec_path(),
    {
        self.path.as_str()
    }

    /// The known devices, in order.
    pub fn list(&self) -> (r: Vec<StoredDevice>)
        ensures
            device_models(r@) == self@,
    {
        let mut out: Vec<StoredDevice> = Vec::new();
        let mut i: usize = 0;
        while i < self.devices.len()
            invariant
                i <= self.devices@.len(),
                out@.len() == i,
                forall|j: int| 0 <= j < i ==> (#[trigger] out@[j])@ == self.devices@[j]@,
            decreases self.devices@.len() - i,
        {
            out.push(self.devices[i].deep_clone());
            i = i + 1;
        }
        assert(device_models(out@) =~= self@);
        out
    }

    /// Inserts or updates the device at `host:port` (see `spec_upsert`).
    pub fn upsert(&mut self, host: String, port: u16, label: Option<String>)
        ensures
            final(self)@ == spec_upsert(
                old(self)@,
                host@,
                port,
                match label {
                    Some(l) => Some(l@),
                    None => None,
                },
            ),
            final(self).spec_path() == old(self).spec_path(),
    {
        let ghost ds = self@;
        let ghost h = host@;
        let ghost l = match &label {
            Some(x) => Some(x@),
            None => None,
        };
        let mut i: usize = 0;
        while i < self.devices.len()
            invariant
                i <= self.devices@.len(),
                ds == device_models(self.devices@),
                h == host@,
                ds == old(self)@,
                self.spec_path() == old(self).spec_path(),
                l == match label {
                    Some(x) => Some(x@),
                    None => None,
                },
                forall|j: int| 0 <= j < i ==> !at_endpoint(#[trigger] ds[j], h, port),
            decreases self.devices@.len() - i,
        {
            if self.devices[i].same_endpoint(host.as_str(), port) {
                proof {
                    lemma_endpoint_pos_at(ds, h, port, i as int);
                }
                if label.is_some() {
                    let old_dev = self.devices[i].deep_clone();
                    let updated = StoredDevice { host: old_dev.host, port: old_dev.port, label };
                    self.devices.set(i, updated);
                    proof {
                        assert(self@ =~= ds.update(i as int, DeviceModel { label: l, ..ds[i as int] }));
                    }
                }
                return;
            }
            i = i + 1;
        }
        proof {
            lemma_endpoint_pos(ds, h, port);
            if endpoint_pos(ds, h, port) is Some {
                let k = endpoint_pos(ds, h, port)->0;
                assert(!at_endpoint(ds[k], h, port));
            }
        }
        self.devices.push(StoredDevice { host, port, label });
        assert(self@ =~= ds.push(DeviceModel { host: h, port, label: l }));
    }

    /// Removes every device at `host:port`.
    pub fn remove(&mut self, host: &str, port: u16)
        ensures
            final(self)@ == spec_remove(old(self)@, host@, port),
            final(self).spec_path() == old(self).spec_path(),
    {
        let ghost ds = self@;
        let ghost pred = |d: DeviceModel| !at_endpoint(d, host@, port);
        let mut kept: Vec<StoredDevice> = Vec::new();
        let mut i: usize = 0;
        assert(ds.take(0) =~= Seq::<DeviceModel>::empty());
        while i < self.devices.len()
            invariant
                i <= self.devices@.len(),
                ds == device_models(self.devices@),
                pred == (|d: DeviceModel| !at_endpoint(d, host@, port)),
                device_models(kept@) == ds.take(i as int).filter(pred),
            decreases self.devices@.len() - i,
        {
            let ghost before = device_models(kept@);
            if !self.devices[i].same_endpoint(host, port) {
                kept.push(self.devices[i].deep_clone());
                assert(device_models(kept@) =~= before.push(ds[i as int]));
            }
            proof {
                assert(ds.take(i + 1).drop_last() =~= ds.take(i as int));
                reveal(Seq::filter);
            }
            i = i + 1;
        }
        assert(ds.take(i as int) =~= ds);
        self.devices = kept;
    }
}

/// Removing a device whose endpoint was not known before an upsert undoes
/// that upsert.
pub proof fn law_remove_undoes_new_upsert(
    ds: Seq<DeviceModel>,
    host: Seq<char>,
    port: u16,
    label: Option<Seq<char>>,
)
    requires
        endpoint_pos(ds, host, port) is None,
    ensures
        spec_remove(spec_upsert(ds, host, port, label), host, port) == ds,
{
    lemma_endpoint_pos(ds, host, port);
    let pred = |d: DeviceModel| !at_endpoint(d, host, port);
    let pushed = ds.push(DeviceModel { host, port, label });
    reveal(Seq::filter);
    assert(pushed.drop_last() =~= ds);
    lemma_filter_keeps_all(ds, pred);
}

proof fn lemma_filter_keeps_all(ds: Seq<DeviceModel>, pred: spec_fn(DeviceModel) -> bool)
    requires
        forall|j: int| 0 <= j < ds.len() ==> pred(#[trigger] ds[j]),
    ensures
        ds.filter(pred) == ds,
    decreases ds.len(),
{
    reveal(Seq::filter);
    if ds.len() > 0 {
        assert forall|j: int| 0 <= j < ds.drop_last().len() implies pred(
            #[trigger] ds.drop_last()[j],
        ) by {
            assert(ds.drop_last()[j] == ds[j]);
        }
        lemma_filter_keeps_all(ds.drop_last(), pred);
        assert(ds.drop_last().push(ds.last()) =~= ds);
    } else {
        assert(ds =~= Seq::<DeviceModel>::empty());
    }
}

/// After a removal no device at that endpoint remains.
pub proof fn law_remove_forgets(ds: Seq<DeviceModel>, host: Seq<char>, port: u16)
    ensures
        endpoint_pos(spec_remove(ds, host, port), host, port) is None,
{
    let pred = |d: DeviceModel| !at_endpoint(d, host, port);
    let after = spec_remove(ds, host, port);
    lemma_endpoint_pos(after, host, port);
    if let Some(k) = endpoint_pos(after, host, port) {
        broadcast use vstd::seq_lib::group_filter_ensures;

        assert(after.contains(after[k]));
        assert(pred(after[k]));
    }
}

/// After an upsert the device is known at its endpoint, with the given
/// label when one was given; upserting keeps endpoints unique and is
/// idempotent.
pub proof fn law_upsert_then_list(
    ds: Seq<DeviceModel>,
    host: Seq<char>,
    port: u16,
    label: Option<Seq<char>>,
)
    requires
        unique_endpoints(ds),
    ensures
        ({
            let after = spec_upsert(ds, host, port, label);
            &&& endpoint_pos(after, host, port) is Some
            &&& label is Some ==> after[endpoint_pos(after, host, port)->0].label == label
            &&& unique_endpoints(after)
            &&& spec_upsert(after, host, port, label) == after
        }),
{
    lemma_endpoint_pos(ds, host, port);
    let after = spec_upsert(ds, host, port, label);
    match endpoint_pos(ds, host, port) {
        Some(i) => {
            assert forall|j: int| 0 <= j < i implies !at_endpoint(#[trigger] after[j], host, port) by {
                assert(after[j] == ds[j]);
            }
            lemma_endpoint_pos_at(after, host, port, i);
            assert forall|a: int, b: int|
                0 <= a < after.len() && 0 <= b < after.len() && a != b implies !at_endpoint(
                #[trigger] after[a],
                after[b].host,
                #[trigger] after[b].port,
            ) by {
                assert(after[a].host == ds[a].host && after[a].port == ds[a].port);
                assert(after[b].host == ds[b].host && after[b].port == ds[b].port);
            }
            if label is Some {
                assert(after.update(i, DeviceModel { label, ..after[i] }) =~= after);
            }
        },
        None => {
            let n = ds.len() as int;
            assert forall|j: int| 0 <= j < n implies !at_endpoint(#[trigger] after[j], host, port) by {
                assert(after[j] == ds[j]);
            }
            lemma_endpoint_pos_at(after, host, port, n);
            assert forall|a: int, b: int|
                0 <= a < after.len() && 0 <= b < after.len() && a != b implies !at_endpoint(
                #[trigger] after[a],
                after[b].host,
                #[trigger] after[b].port,
            ) by {
                if a < n && b < n {
                    assert(after[a] == ds[a] && after[b] == ds[b]);
                } else if a == n {
                    assert(after[b] == ds[b]);
                    assert(!at_endpoint(ds[b], host, port));
                } else {
                    assert(after[a] == ds[a]);
                    assert(!at_endpoint(ds[a], host, port));
                }
            }
            if label is Some {
                assert(after.update(n, DeviceModel { label, ..after[n] }) =~= after);
            }
        },
    }
}

/// What `Path::join` gives for the UTF-8 paths `dir` and `file`.
pub uninterp spec fn joined_path(dir: Seq<char>, file: Seq<char>) -> Seq<char>;

/// `std::path::Path::join` on two UTF-8 paths, read back as text (lossless,
/// since both parts are UTF-8). The contract only names the result
/// `joined_path`.
#[verifier::external_body]
fn join_path(dir: &str, file: &str) -> (r: String)
    ensures
        r@ == joined_path(dir@, file@),
{
    std::path::Path::new(dir).join(file).to_string_lossy().into_owned()
}

/// Where the store lives: `devices.json` in `dir`.
pub fn store_path(dir: &str) -> (r: String)
    ensures
        r@ == joined_path(dir@, "devices.json"@),
{
    join_path(dir, "devices.json")
}

} // verus!
