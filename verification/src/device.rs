//! Device identities, hot-plug events and the table of attached devices.
//!
//! The table records which devices are currently open, by identity. The
//! handles themselves stay with the transport: the table decides, the
//! transport opens and closes.

use vstd::prelude::*;

verus! {

/// A stable token that names one physical device across hot-plug events,
/// such as the bytes of its transport path. Two identities are the same
/// device exactly when their bytes are equal.
#[derive(Debug, PartialEq, Eq)]
pub struct DeviceIdentity {
    path: Vec<u8>,
}

impl View for DeviceIdentity {
    type V = Seq<u8>;

    closed spec fn view(&self) -> Seq<u8> {
        self.path@
    }
}

impl Clone for DeviceIdentity {
    fn clone(&self) -> (copy: Self)
        ensures
            copy@ == self@,
    {
        DeviceIdentity { path: self.path.clone() }
    }
}

impl DeviceIdentity {
    /// The identity made of `path`.
    pub fn new(path: Vec<u8>) -> (identity: Self)
        ensures
            identity@ == path@,
    {
        DeviceIdentity { path }
    }

    /// The bytes of the identity.
    pub fn as_bytes(&self) -> (bytes: &Vec<u8>)
        ensures
            bytes@ == self@,
    {
        &self.path
    }

    /// Whether `self` and `other` name the same device.
    pub fn same(&self, other: &DeviceIdentity) -> (equal: bool)
        ensures
            equal == (self@ == other@),
    {
        if self.path.len() != other.path.len() {
            return false;
        }
        let mut i: usize = 0;
        while i < self.path.len()
            invariant
                i <= self.path.len(),
                self.path.len() == other.path.len(),
                forall|j: int| 0 <= j < i ==> self.path@[j] == other.path@[j],
            decreases self.path.len() - i,
        {
            if self.path[i] != other.path[i] {
                return false;
            }
            i += 1;
        }
        assert(self.path@ =~= other.path@);
        true
    }
}

/// What the hot-plug monitor observed.
#[derive(Debug, PartialEq, Eq)]
pub enum DeviceEvent {
    /// A device was attached.
    Add(DeviceIdentity),
    /// A device was detached.
    Remove(DeviceIdentity),
}

/// A hot-plug event as a plain value.
pub enum DeviceEventView {
    Add(Seq<u8>),
    Remove(Seq<u8>),
}

impl View for DeviceEvent {
    type V = DeviceEventView;

    open spec fn view(&self) -> DeviceEventView {
        match self {
            DeviceEvent::Add(identity) => DeviceEventView::Add(identity@),
            DeviceEvent::Remove(identity) => DeviceEventView::Remove(identity@),
        }
    }
}

impl Clone for DeviceEvent {
    fn clone(&self) -> (copy: Self)
        ensures
            copy@ == self@,
    {
        match self {
            DeviceEvent::Add(identity) => DeviceEvent::Add(identity.clone()),
            DeviceEvent::Remove(identity) => DeviceEvent::Remove(identity.clone()),
        }
    }
}

impl DeviceEventView {
    /// The device the event is about.
    pub open spec fn identity(self) -> Seq<u8> {
        match self {
            DeviceEventView::Add(identity) => identity,
            DeviceEventView::Remove(identity) => identity,
        }
    }
}

impl DeviceEvent {
    /// The device the event is about.
    pub fn identity(&self) -> (identity: &DeviceIdentity)
        ensures
            identity@ == self@.identity(),
    {
        match self {
            DeviceEvent::Add(identity) => identity,
            DeviceEvent::Remove(identity) => identity,
        }
    }
}

/// The table that results from applying `event` to `table`.
///
/// An added device enters the table at the end when it could be opened,
/// unless it is there already, in which case its entry stands for the newly
/// opened handle; when it could not be opened the event changes nothing. A
/// removed device leaves the table; removing an unknown device changes
/// nothing.
pub open spec fn table_apply(table: Seq<Seq<u8>>, event: DeviceEventView, opened: bool) -> Seq<
    Seq<u8>,
> {
    match event {
        DeviceEventView::Add(identity) => if opened && !table.contains(identity) {
            table.push(identity)
        } else {
            table
        },
        DeviceEventView::Remove(identity) => if table.contains(identity) {
            table.remove(table.index_of(identity))
        } else {
            table
        },
    }
}

/// The devices currently open, each identity at most once, in the order in
/// which they were added.
#[derive(Debug)]
pub struct DeviceTable {
    devices: Vec<DeviceIdentity>,
}

impl View for DeviceTable {
    type V = Seq<Seq<u8>>;

    closed spec fn view(&self) -> Seq<Seq<u8>> {
        Seq::new(self.devices@.len(), |i: int| self.devices@[i]@)
    }
}

impl DeviceTable {
    /// The table's invariant: no identity occurs twice.
    pub open spec fn wf(&self) -> bool {
        self@.no_duplicates()
    }

    /// The empty table.
    pub fn new() -> (table: Self)
        ensures
            table.wf(),
            table@ == Seq::<Seq<u8>>::empty(),
    {
        let table = DeviceTable { devices: Vec::new() };
        assert(table@ =~= Seq::<Seq<u8>>::empty());
        table
    }

    /// A table never holds more devices than can be counted.
    pub proof fn lemma_len_fits(&self)
        ensures
            self@.len() <= usize::MAX,
    {
        assert(self@.len() == self.devices.len());
    }

    /// The number of devices in the table.
    pub fn len(&self) -> (count: usize)
        ensures
            count == self@.len(),
    {
        self.devices.len()
    }

    /// The device at `index`, counted in the table's order.
    pub fn get(&self, index: usize) -> (identity: &DeviceIdentity)
        requires
            index < self@.len(),
        ensures
            identity@ == self@[index as int],
    {
        &self.devices[index]
    }

    /// The position of `identity` in the table, if it is there.
    pub fn position(&self, identity: &DeviceIdentity) -> (found: Option<usize>)
        requires
            self.wf(),
        ensures
            self@.contains(identity@) <==> found is Some,
            found is Some ==> found->Some_0 < self@.len() && self@[found->Some_0 as int]
                == identity@ && found->Some_0 == self@.index_of(identity@),
    {
        let mut i: usize = 0;
        while i < self.devices.len()
            invariant
                i <= self.devices.len(),
                self.wf(),
                self@.len() == self.devices.len(),
                forall|j: int| 0 <= j < i ==> self@[j] != identity@,
            decreases self.devices.len() - i,
        {
            if self.devices[i].same(identity) {
                assert(self@[i as int] == identity@);
                let ghost at = self@.index_of(identity@);
                assert(0 <= at < self@.len() && self@[at] == identity@);
                return Some(i);
            }
            i += 1;
        }
        None
    }

    /// Whether `identity` is in the table.
    pub fn contains(&self, identity: &DeviceIdentity) -> (present: bool)
        requires
            self.wf(),
        ensures
            present == self@.contains(identity@),
    {
        self.position(identity).is_some()
    }

    /// Applies a hot-plug event. For an added device, `opened` says whether
    /// the transport could open it; for a removed one it is not looked at.
    pub fn apply(&mut self, event: &DeviceEvent, opened: bool)
        requires
            old(self).wf(),
        ensures
            final(self).wf(),
            final(self)@ == table_apply(old(self)@, event@, opened),
    {
        proof {
            lemma_table_apply(self@, event@, opened);
        }
        match event {
            DeviceEvent::Add(identity) => {
                if opened && !self.contains(identity) {
                    let ghost before = self@;
                    self.devices.push(identity.clone());
                    assert(self@ =~= before.push(identity@));
                }
            },
            DeviceEvent::Remove(identity) => {
                if let Some(index) = self.position(identity) {
                    let ghost before = self@;
                    self.devices.remove(index);
                    assert(self@ =~= before.remove(index as int));
                }
            },
        }
    }

    /// The devices in the table, in the table's order.
    pub fn values(&self) -> (identities: Vec<DeviceIdentity>)
        ensures
            identities@.len() == self@.len(),
            forall|i: int| 0 <= i < self@.len() ==> (#[trigger] identities@[i])@ == self@[i],
    {
        let mut identities: Vec<DeviceIdentity> = Vec::new();
        let mut i: usize = 0;
        while i < self.devices.len()
            invariant
                i <= self.devices.len(),
                self@.len() == self.devices.len(),
                identities@.len() == i,
                forall|j: int| 0 <= j < i ==> (#[trigger] identities@[j])@ == self@[j],
            decreases self.devices.len() - i,
        {
            identities.push(self.devices[i].clone());
            i += 1;
        }
        identities
    }
}

/// Applying an event keeps every identity at most once in the table, and
/// changes membership for the event's device alone: a device that was added
/// and opened is in the table, a device that was removed is not, and every
/// other device is in the table after the event exactly when it was before.
pub proof fn lemma_table_apply(table: Seq<Seq<u8>>, event: DeviceEventView, opened: bool)
    requires
        table.no_duplicates(),
    ensures
        table_apply(table, event, opened).no_duplicates(),
        event is Add && opened ==> table_apply(table, event, opened).contains(event.identity()),
        event is Remove ==> !table_apply(table, event, opened).contains(event.identity()),
        forall|other: Seq<u8>|
            other != event.identity() ==> (#[trigger] table_apply(table, event, opened).contains(
                other,
            ) <==> table.contains(other)),
{
    let after = table_apply(table, event, opened);
    match event {
        DeviceEventView::Add(identity) => {
            if opened && !table.contains(identity) {
                assert(after[table.len() as int] == identity);
                assert forall|other: Seq<u8>| other != identity implies (after.contains(other)
                    <==> table.contains(other)) by {
                    if table.contains(other) {
                        let i = choose|i: int| 0 <= i < table.len() && table[i] == other;
                        assert(after[i] == other);
                    }
                }
            }
        },
        DeviceEventView::Remove(identity) => {
            if table.contains(identity) {
                let at = table.index_of(identity);
                assert forall|other: Seq<u8>| other != identity implies (after.contains(other)
                    <==> table.contains(other)) by {
                    if table.contains(other) {
                        let i = choose|i: int| 0 <= i < table.len() && table[i] == other;
                        if i < at {
                            assert(after[i] == other);
                        } else {
                            assert(after[i - 1] == other);
                        }
                    }
                    if after.contains(other) {
                        let i = choose|i: int| 0 <= i < after.len() && after[i] == other;
                        if i < at {
                            assert(table[i] == other);
                        } else {
                            assert(table[i + 1] == other);
                        }
                    }
                }
                if after.contains(identity) {
                    let i = choose|i: int| 0 <= i < after.len() && after[i] == identity;
                    if i < at {
                        assert(table[i] == identity);
                    } else {
                        assert(table[i + 1] == identity);
                    }
                }
            }
        },
    }
}

} // verus!
