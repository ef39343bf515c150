//! The network service: its state, the address regions it maps into, and
//! the pipeline that probes and attaches network devices.

pub mod config;
pub mod manager;
pub mod network;
pub mod server;
pub mod stack;

use vstd::prelude::*;
use std::collections::{BTreeMap, BTreeSet, VecDeque};
use crate::device::{GlendaNetDevice, MacAddress, ShmView};
use crate::error::Error;
use crate::gopher::config::NetworkConfig;
use crate::gopher::network::SocketTable;
use crate::gopher::stack::{
    configured_entry, lemma_configured_address, loopback_address, plan_interface,
    planned_address, planned_interface, DeviceVariant, InterfaceContext, InterfaceState, Ipv4,
};
use crate::layout::{align_up_to_page, page_align_up, PAGE_SIZE, RING_VA, SHM_VA};

verus! {

/// Entries in the submission queue of a device's ring.
pub const DEVICE_SQ_ENTRIES: u32 = 4;

/// Entries in the completion queue of a device's ring.
pub const DEVICE_CQ_ENTRIES: u32 = 4;

/// Where a ring is mapped in the service.
#[derive(Clone, Copy, Debug, PartialEq, Eq, Structural)]
pub struct RingMapping {
    pub vaddr: usize,
    pub size: usize,
}

/// What attaching a device takes: where its ring is mapped, how many entries
/// the ring's queues have, and the pool to share with the driver.
#[derive(Clone, Copy, Debug, PartialEq, Eq, Structural)]
pub struct AttachPlan {
    pub ring: RingMapping,
    pub sq_entries: u32,
    pub cq_entries: u32,
    pub shm: ShmView,
}

/// How far the service's initialization has come.
#[derive(Clone, Copy, Debug, PartialEq, Eq, Structural)]
pub enum InitPhase {
    /// Not begun.
    Idle,
    /// The configuration file was asked for.
    AwaitConfig,
    /// The configuration file is being mapped and read.
    AwaitConfigData,
    /// The packet pool is being allocated and mapped.
    AwaitPool,
    /// The device manager is being hooked.
    AwaitHook,
    /// The service's endpoint is being registered.
    AwaitRegister,
    /// The devices that exist already are being asked for.
    AwaitDevices,
    /// Done.
    Ready,
    /// Given up.
    Failed,
}

/// The service's state.
pub struct GopherServer {
    /// Capability slot of the service's endpoint; 0 before `listen`.
    pub endpoint: usize,
    /// Capability slot for the reply capability; 0 before `listen`.
    pub reply: usize,
    /// Capability slot for received capabilities.
    pub recv: usize,
    /// Whether the event loop goes on.
    pub running: bool,
    pub phase: InitPhase,
    pub interfaces: Vec<InterfaceContext>,
    pub table: SocketTable,
    /// The rings of the sockets, by badge.
    pub uring_servers: BTreeMap<usize, RingMapping>,
    /// Where the next ring is mapped.
    pub next_ring_vaddr: usize,
    /// Where the next packet pool is mapped.
    pub next_shm_vaddr: usize,
    /// Names of devices still to probe, the oldest first.
    pub pending_devices: VecDeque<String>,
    /// Hardware ids of the devices that have an interface.
    pub probed_hardware: BTreeSet<u64>,
    /// Where the packet pool goes, from the moment it is asked for.
    pub planned_pool: Option<RingMapping>,
    /// The packet pool that all devices share.
    pub shm_frame: Option<ShmView>,
    pub config: Option<NetworkConfig>,
}

/// The names in a queue of devices, as texts.
pub open spec fn names_of(queue: Seq<String>) -> Seq<Seq<char>> {
    queue.map_values(|s: String| s@)
}

/// The queue after a name was reported: it joins at the end unless it waits
/// already.
pub open spec fn enqueue_name(queue: Seq<Seq<char>>, name: Seq<char>) -> Seq<Seq<char>> {
    if queue.contains(name) {
        queue
    } else {
        queue.push(name)
    }
}

/// The queue after names were reported, the first first.
pub open spec fn enqueue_names(queue: Seq<Seq<char>>, names: Seq<Seq<char>>) -> Seq<Seq<char>>
    decreases names.len(),
{
    if names.len() == 0 {
        queue
    } else {
        enqueue_name(enqueue_names(queue, names.drop_last()), names.last())
    }
}

/// What the probe pipeline is told.
pub enum ProbeEvent {
    /// Go on with the next name that waits.
    Continue,
    /// The device manager described the device of that name.
    Described { name: String, hw_id: u64, is_net: bool },
    /// The device of that name was attached as planned, and its driver gave
    /// its hardware address.
    Attached { name: String, hw_id: u64, mac: MacAddress },
    /// Describing or attaching the device of that name failed outside.
    Failed { name: String, error: Error },
}

/// What the probe pipeline asks for next.
pub enum ProbeAction {
    /// Ask the device manager to describe the device of that name.
    Describe { name: String },
    /// Get an endpoint to the device, set up its ring and map it, share the
    /// pool with the driver, and read the hardware address.
    Attach { name: String, hw_id: u64, plan: AttachPlan },
    /// No name waits.
    Idle,
}

/// What a step of the probe pipeline gives: what to do next, and the error
/// for which the device of the step was skipped, if it was.
pub struct ProbeStep {
    pub action: ProbeAction,
    /// Why the device that the step dealt with got no interface; to be
    /// logged. A later notification may bring its name again.
    pub skipped: Option<Error>,
}

/// Whether the queue holds the name.
pub fn queue_contains(queue: &VecDeque<String>, name: &String) -> (found: bool)
    ensures
        found == names_of(queue@).contains(name@),
{
    let mut i: usize = 0;
    while i < queue.len()
        invariant
            i <= queue.len(),
            forall|j: int| 0 <= j < i ==> names_of(queue@)[j] != name@,
        decreases queue.len() - i,
    {
        if queue[i] == *name {
            assert(names_of(queue@)[i as int] == name@);
            return true;
        }
        i = i + 1;
    }
    false
}

/// How many of the interfaces stand for the hardware of that id.
pub open spec fn count_hardware(interfaces: Seq<InterfaceContext>, hw_id: u64) -> nat
    decreases interfaces.len(),
{
    if interfaces.len() == 0 {
        0
    } else {
        count_hardware(interfaces.drop_last(), hw_id) + (if interfaces.last().hw_id() == Some(
            hw_id,
        ) {
            1nat
        } else {
            0nat
        })
    }
}

/// Interfaces of which none stands for the hardware count none for it.
pub proof fn lemma_count_absent(interfaces: Seq<InterfaceContext>, hw_id: u64)
    requires
        forall|i: int| 0 <= i < interfaces.len() ==> interfaces[i].hw_id() != Some(hw_id),
    ensures
        count_hardware(interfaces, hw_id) == 0,
    decreases interfaces.len(),
{
    if interfaces.len() > 0 {
        lemma_count_absent(interfaces.drop_last(), hw_id);
    }
}

/// Interfaces of which exactly the one at `at` stands for the hardware
/// count one for it.
pub proof fn lemma_count_single(interfaces: Seq<InterfaceContext>, hw_id: u64, at: int)
    requires
        0 <= at < interfaces.len(),
        interfaces[at].hw_id() == Some(hw_id),
        forall|i: int|
            0 <= i < interfaces.len() && i != at ==> interfaces[i].hw_id() != Some(hw_id),
    ensures
        count_hardware(interfaces, hw_id) == 1,
    decreases interfaces.len(),
{
    let front = interfaces.drop_last();
    if at == interfaces.len() - 1 {
        lemma_count_absent(front, hw_id);
    } else {
        lemma_count_single(front, hw_id, at);
    }
}

impl RingMapping {
    /// The address behind the mapping's last byte.
    pub open spec fn end(self) -> int {
        self.vaddr + self.size
    }

    /// Whether the mapping is made of whole pages inside the ring region, below
    /// `limit`.
    pub open spec fn within(self, limit: usize) -> bool {
        &&& RING_VA <= self.vaddr
        &&& self.end() <= limit
        &&& self.vaddr % PAGE_SIZE == 0
        &&& self.size % PAGE_SIZE == 0
    }

    /// Whether two mappings share no address.
    pub open spec fn disjoint(self, other: RingMapping) -> bool {
        self.end() <= other.vaddr || other.end() <= self.vaddr
    }
}

impl InitPhase {
    /// Whether this phase is the one that an accepted step leads to from
    /// `before`.
    pub open spec fn follows(self, before: InitPhase) -> bool {
        match before {
            InitPhase::Idle => self == InitPhase::AwaitConfig,
            InitPhase::AwaitConfig => self == InitPhase::AwaitConfigData || self
                == InitPhase::AwaitPool,
            InitPhase::AwaitConfigData => self == InitPhase::AwaitPool,
            InitPhase::AwaitPool => self == InitPhase::AwaitHook,
            InitPhase::AwaitHook => self == InitPhase::AwaitRegister,
            InitPhase::AwaitRegister => self == InitPhase::AwaitDevices,
            InitPhase::AwaitDevices => self == InitPhase::Ready,
            InitPhase::Ready => false,
            InitPhase::Failed => false,
        }
    }

    /// Whether the packet pool is still to be attached.
    pub open spec fn before_pool(self) -> bool {
        self == InitPhase::Idle || self == InitPhase::AwaitConfig || self
            == InitPhase::AwaitConfigData || self == InitPhase::AwaitPool
    }

    /// Whether the packet pool is attached and the loopback interface is up.
    pub open spec fn pool_attached(self) -> bool {
        self == InitPhase::AwaitHook || self == InitPhase::AwaitRegister || self
            == InitPhase::AwaitDevices || self == InitPhase::Ready
    }
}

impl GopherServer {
    /// The names of the devices that wait to be probed.
    pub open spec fn pending_names(&self) -> Seq<Seq<char>> {
        names_of(self.pending_devices@)
    }

    /// How many interfaces stand for the hardware of that id.
    pub open spec fn interfaces_of(&self, hw_id: u64) -> nat {
        count_hardware(self.interfaces@, hw_id)
    }

    /// The ring mapping that a request for `bytes` bytes gets: the whole
    /// pages that hold them, at the first unused address of the ring region,
    /// unless they would reach into the pool region.
    pub open spec fn next_ring(&self, bytes: usize) -> Option<RingMapping> {
        if self.next_ring_vaddr + page_align_up(bytes as int) <= SHM_VA {
            Some(
                RingMapping {
                    vaddr: self.next_ring_vaddr,
                    size: page_align_up(bytes as int) as usize,
                },
            )
        } else {
            None
        }
    }

    /// The pool mapping that a budget of `bytes` bytes gets: the whole pages
    /// that hold them, at the first unused address of the pool region, unless
    /// the address space ends before.
    pub open spec fn next_pool(&self, bytes: usize) -> Option<RingMapping> {
        if self.next_shm_vaddr + page_align_up(bytes as int) <= usize::MAX {
            Some(
                RingMapping {
                    vaddr: self.next_shm_vaddr,
                    size: page_align_up(bytes as int) as usize,
                },
            )
        } else {
            None
        }
    }

    /// The regions are used from their bases upward in whole pages and stay
    /// apart; every ring lies in the used part of the ring region, and no
    /// two overlap; the pool lies in the used part of the pool region.
    pub open spec fn regions_wf(&self) -> bool {
        &&& RING_VA <= self.next_ring_vaddr <= SHM_VA
        &&& self.next_ring_vaddr % PAGE_SIZE == 0
        &&& SHM_VA <= self.next_shm_vaddr
        &&& self.next_shm_vaddr % PAGE_SIZE == 0
        &&& forall|b: usize| #[trigger]
            self.uring_servers@.contains_key(b) ==> self.uring_servers@[b].within(
                self.next_ring_vaddr,
            )
        &&& forall|a: usize, b: usize|
            #![trigger self.uring_servers@[a], self.uring_servers@[b]]
            self.uring_servers@.contains_key(a) && self.uring_servers@.contains_key(b) && a != b
                ==> self.uring_servers@[a].disjoint(self.uring_servers@[b])
        &&& self.shm_frame matches Some(pool) ==> {
            &&& SHM_VA <= pool.vaddr
            &&& pool.vaddr + pool.size <= self.next_shm_vaddr
            &&& pool.vaddr % PAGE_SIZE == 0
            &&& pool.size % PAGE_SIZE == 0
        }
        &&& self.planned_pool matches Some(pool) ==> {
            &&& SHM_VA <= pool.vaddr
            &&& pool.vaddr + pool.size <= self.next_shm_vaddr
            &&& pool.vaddr % PAGE_SIZE == 0
            &&& pool.size % PAGE_SIZE == 0
        }
    }

    /// Each probed hardware id has its interface and no other interface
    /// shares it; every driver's device works over the one shared pool; no
    /// name waits twice.
    pub open spec fn devices_wf(&self) -> bool {
        &&& forall|i: int|
            0 <= i < self.interfaces@.len() ==> (
            #[trigger] self.interfaces@[i].hw_id() matches Some(h)
                ==> self.probed_hardware@.contains(h))
        &&& forall|h: u64| #[trigger]
            self.probed_hardware@.contains(h) ==> exists|i: int|
                0 <= i < self.interfaces@.len() && #[trigger] self.interfaces@[i].hw_id() == Some(h)
        &&& forall|i: int, j: int|
            0 <= i < j < self.interfaces@.len() && self.interfaces@[i].hw_id() is Some
                ==> #[trigger] self.interfaces@[i].hw_id() != #[trigger] self.interfaces@[j].hw_id()
        &&& forall|i: int|
            0 <= i < self.interfaces@.len() ==> (
            (#[trigger] self.interfaces@[i]).device matches DeviceVariant::Net(d)
                ==> d.shm == self.shm_frame)
        &&& self.pending_names().no_duplicates()
    }

    /// While the pool is asked for, its place is known; no driver's device
    /// has an interface before the pool is attached; once it is attached it
    /// stays, and the loopback interface is the first of the list.
    pub open spec fn phase_wf(&self) -> bool {
        &&& self.phase == InitPhase::AwaitPool ==> self.planned_pool is Some
        &&& forall|i: int|
            0 <= i < self.interfaces@.len() ==> ((#[trigger] self.interfaces@[i]).device is Net
                ==> self.shm_frame is Some)
        &&& forall|i: int|
            0 <= i < self.interfaces@.len() ==> ((#[trigger] self.interfaces@[i]).device is Loopback
                ==> self.interfaces@[i].is_loopback())
        &&& self.phase.before_pool() ==> self.shm_frame is None
        &&& self.phase.pool_attached() ==> {
            &&& self.shm_frame is Some
            &&& self.interfaces@.len() > 0
            &&& self.interfaces@[0].is_loopback()
        }
    }

    /// The whole invariant of the service's state.
    pub open spec fn wf(&self) -> bool {
        &&& self.table.wf()
        &&& self.regions_wf()
        &&& self.devices_wf()
        &&& self.phase_wf()
    }

    /// A service that has not begun: no endpoint, no interface, no socket,
    /// and both regions unused.
    pub fn new() -> (server: GopherServer)
        ensures
            server.wf(),
            server.endpoint == 0 && server.reply == 0 && server.recv == 0,
            !server.running,
            server.phase == InitPhase::Idle,
            server.interfaces@.len() == 0,
            server.table@ == Map::<usize, smoltcp::iface::SocketHandle>::empty(),
            server.table.next_badge() == 1,
            server.uring_servers@ == Map::<usize, RingMapping>::empty(),
            server.next_ring_vaddr == RING_VA,
            server.next_shm_vaddr == SHM_VA,
            server.pending_devices@.len() == 0,
            server.probed_hardware@ == Set::<u64>::empty(),
            server.planned_pool is None,
            server.shm_frame is None,
            server.config is None,
    {
        let server = GopherServer {
            endpoint: 0,
            reply: 0,
            recv: 0,
            running: false,
            phase: InitPhase::Idle,
            interfaces: Vec::new(),
            table: SocketTable::new(),
            uring_servers: BTreeMap::new(),
            next_ring_vaddr: RING_VA,
            next_shm_vaddr: SHM_VA,
            pending_devices: VecDeque::new(),
            probed_hardware: BTreeSet::new(),
            planned_pool: None,
            shm_frame: None,
            config: None,
        };
        assert(server.pending_names() =~= Seq::<Seq<char>>::empty());
        server
    }

    /// Adds the loopback interface, with address `127.0.0.1/8`, to the end of
    /// the interface list.
    pub fn setup_loopback(&mut self)
        requires
            old(self).wf(),
        ensures
            final(self).wf(),
            final(self).interfaces@ == old(self).interfaces@.push(final(self).interfaces@.last()),
            final(self).interfaces@.last().is_loopback(),
            *final(self) == (GopherServer { interfaces: final(self).interfaces, ..*old(self) }),
    {
        let context = InterfaceContext {
            device: DeviceVariant::Loopback,
            iface: InterfaceState {
                mac: MacAddress::zero(),
                address: loopback_address(),
                gateway: None,
            },
        };
        self.interfaces.push(context);
        proof {
            let before = old(self).interfaces@;
            let after = self.interfaces@;
            assert forall|h: u64| #[trigger] self.probed_hardware@.contains(h) implies exists|
                i: int,
            |
                0 <= i < after.len() && #[trigger] after[i].hw_id() == Some(h) by {
                let i = choose|i: int|
                    0 <= i < before.len() && #[trigger] before[i].hw_id() == Some(h);
                assert(after[i] == before[i]);
            }
        }
    }

    /// Every probed hardware id has exactly one interface, and every other id
    /// none.
    pub proof fn lemma_one_interface_per_hardware(&self, hw_id: u64)
        requires
            self.wf(),
        ensures
            self.interfaces_of(hw_id) == (if self.probed_hardware@.contains(hw_id) {
                1nat
            } else {
                0nat
            }),
    {
        let list = self.interfaces@;
        if self.probed_hardware@.contains(hw_id) {
            let at = choose|i: int|
                0 <= i < list.len() && #[trigger] list[i].hw_id() == Some(hw_id);
            assert forall|i: int| 0 <= i < list.len() && i != at implies list[i].hw_id() != Some(
                hw_id,
            ) by {
                if i < at {
                    assert(list[i].hw_id() is Some ==> list[i].hw_id() != list[at].hw_id());
                } else {
                    assert(list[at].hw_id() != list[i].hw_id());
                }
            }
            lemma_count_single(list, hw_id, at);
        } else {
            assert forall|i: int| 0 <= i < list.len() implies list[i].hw_id() != Some(hw_id) by {
                assert(list[i].hw_id() matches Some(h) ==> self.probed_hardware@.contains(h));
            }
            lemma_count_absent(list, hw_id);
        }
    }

    /// Takes the next whole pages of the ring region for a ring of `bytes`
    /// bytes. Nothing is taken where they would reach into the pool region.
    pub fn alloc_ring(&mut self, bytes: usize) -> (r: Option<RingMapping>)
        requires
            old(self).wf(),
        ensures
            final(self).wf(),
            r == old(self).next_ring(bytes),
            *final(self) == (GopherServer {
                next_ring_vaddr: match r {
                    Some(ring) => (ring.vaddr + ring.size) as usize,
                    None => old(self).next_ring_vaddr,
                },
                ..*old(self)
            }),
            r matches Some(ring) ==> ring.within(final(self).next_ring_vaddr) && forall|b: usize|
                #[trigger] old(self).uring_servers@.contains_key(b) ==> ring.disjoint(
                    old(self).uring_servers@[b],
                ),
    {
        let size = match align_up_to_page(bytes) {
            Some(size) => size,
            None => {
                return None;
            },
        };
        if size > SHM_VA - self.next_ring_vaddr {
            return None;
        }
        let ring = RingMapping { vaddr: self.next_ring_vaddr, size };
        self.next_ring_vaddr = self.next_ring_vaddr + size;
        Some(ring)
    }

    /// Takes the next whole pages of the pool region for a pool of `bytes`
    /// bytes. Nothing is taken where the address space ends before.
    pub fn alloc_pool(&mut self, bytes: usize) -> (r: Option<RingMapping>)
        requires
            old(self).wf(),
        ensures
            final(self).wf(),
            r == old(self).next_pool(bytes),
            *final(self) == (GopherServer {
                next_shm_vaddr: match r {
                    Some(pool) => (pool.vaddr + pool.size) as usize,
                    None => old(self).next_shm_vaddr,
                },
                ..*old(self)
            }),
            r matches Some(pool) ==> {
                &&& SHM_VA <= pool.vaddr
                &&& pool.vaddr % PAGE_SIZE == 0
                &&& pool.size % PAGE_SIZE == 0
                &&& pool.size >= bytes
                &&& pool.size - bytes < PAGE_SIZE
            },
    {
        let size = match align_up_to_page(bytes) {
            Some(size) => size,
            None => {
                return None;
            },
        };
        if size > usize::MAX - self.next_shm_vaddr {
            return None;
        }
        let pool = RingMapping { vaddr: self.next_shm_vaddr, size };
        self.next_shm_vaddr = self.next_shm_vaddr + size;
        Some(pool)
    }

    /// The interface that a probe of that device adds.
    pub open spec fn probed_context(
        &self,
        name: Seq<char>,
        hw_id: u64,
        mac: MacAddress,
        c: InterfaceContext,
    ) -> bool {
        &&& c.device matches DeviceVariant::Net(d)
        &&& d.name@ == name
        &&& d.hw_id == hw_id
        &&& d.mac == mac
        &&& !d.rx_pending
        &&& d.rx_id == crate::device::RX_TAG
        &&& d.shm == self.shm_frame
        &&& Ok::<InterfaceState, Error>(c.iface) == planned_interface(self.config, name, mac)
    }

    /// What a probe of that device returns.
    pub open spec fn probe_result(&self, name: Seq<char>, hw_id: u64, mac: MacAddress) -> Result<
        (),
        Error,
    > {
        if self.probed_hardware@.contains(hw_id) {
            Ok(())
        } else if self.shm_frame is None {
            Err(Error::NotInitialized)
        } else {
            match planned_interface(self.config, name, mac) {
                Ok(_) => Ok(()),
                Err(e) => Err(e),
            }
        }
    }

    /// Takes note of the network devices that the device manager reports:
    /// each name joins the end of the queue unless it waits there already.
    pub fn sync_devices(&mut self, names: &Vec<String>)
        requires
            old(self).wf(),
        ensures
            final(self).wf(),
            final(self).pending_names() == enqueue_names(
                old(self).pending_names(),
                names_of(names@),
            ),
            *final(self) == (GopherServer {
                pending_devices: final(self).pending_devices,
                ..*old(self)
            }),
    {
        let mut i: usize = 0;
        assert(names_of(names@).take(0) =~= Seq::<Seq<char>>::empty());
        while i < names.len()
            invariant
                i <= names.len(),
                self.wf(),
                self.pending_names() == enqueue_names(
                    old(self).pending_names(),
                    names_of(names@).take(i as int),
                ),
                *self == (GopherServer { pending_devices: self.pending_devices, ..*old(self) }),
            decreases names.len() - i,
        {
            let ghost before = self.pending_names();
            let ghost all = names_of(names@);
            assert(all.take(i + 1).drop_last() =~= all.take(i as int));
            assert(all.take(i + 1).last() == names@[i as int]@);
            if !queue_contains(&self.pending_devices, &names[i]) {
                let name = names[i].clone();
                self.pending_devices.push_back(name);
                assert(self.pending_names() =~= before.push(name@));
            }
            i = i + 1;
        }
        assert(names_of(names@).take(names.len() as int) =~= names_of(names@));
    }

    /// Takes note of a notification that devices have come: the names that
    /// the device manager then reports are queued.
    pub fn handle_notify_sync(&mut self, names: &Vec<String>)
        requires
            old(self).wf(),
        ensures
            final(self).wf(),
            final(self).pending_names() == enqueue_names(
                old(self).pending_names(),
                names_of(names@),
            ),
            *final(self) == (GopherServer {
                pending_devices: final(self).pending_devices,
                ..*old(self)
            }),
    {
        self.sync_devices(names)
    }

    /// Binds an attached device: it gets an interface with the addressing
    /// that the configuration gives its name, over the shared pool, and its
    /// hardware id counts as probed. Hardware that has an interface gets no
    /// second one.
    pub fn probe(&mut self, name: &str, hw_id: u64, mac: MacAddress) -> (r: Result<(), Error>)
        requires
            old(self).wf(),
        ensures
            final(self).wf(),
            r == old(self).probe_result(name@, hw_id, mac),
            r is Err || old(self).probed_hardware@.contains(hw_id) ==> *final(self) == *old(self),
            r is Ok && !old(self).probed_hardware@.contains(hw_id) ==> {
                &&& final(self).interfaces@ == old(self).interfaces@.push(
                    final(self).interfaces@.last(),
                )
                &&& old(self).probed_context(name@, hw_id, mac, final(self).interfaces@.last())
                &&& final(self).probed_hardware@ == old(self).probed_hardware@.insert(hw_id)
                &&& *final(self) == (GopherServer {
                    interfaces: final(self).interfaces,
                    probed_hardware: final(self).probed_hardware,
                    ..*old(self)
                })
            },
            r is Ok ==> final(self).interfaces_of(hw_id) == 1,
    {
        if self.probed_hardware.contains(&hw_id) {
            proof {
                self.lemma_one_interface_per_hardware(hw_id);
            }
            return Ok(());
        }
        let shm = match self.shm_frame {
            Some(shm) => shm,
            None => {
                return Err(Error::NotInitialized);
            },
        };
        let iface = match plan_interface(&self.config, name, mac) {
            Ok(iface) => iface,
            Err(e) => {
                return Err(e);
            },
        };
        let mut device = GlendaNetDevice::new(name, hw_id, mac);
        device.setup_shm(shm);
        self.interfaces.push(InterfaceContext { device: DeviceVariant::Net(device), iface });
        self.probed_hardware.insert(hw_id);
        proof {
            let before = old(self).interfaces@;
            let after = self.interfaces@;
            let last = after.len() - 1;
            assert(after[last].hw_id() == Some(hw_id));
            assert forall|i: int| 0 <= i < before.len() implies before[i].hw_id() != Some(
                hw_id,
            ) by {
                assert(before[i].hw_id() matches Some(h) ==> old(self).probed_hardware@.contains(
                    h,
                ));
            }
            assert forall|h: u64| #[trigger] self.probed_hardware@.contains(h) implies exists|
                i: int,
            |
                0 <= i < after.len() && #[trigger] after[i].hw_id() == Some(h) by {
                if h == hw_id {
                    assert(after[last].hw_id() == Some(h));
                } else {
                    let i = choose|i: int|
                        0 <= i < before.len() && #[trigger] before[i].hw_id() == Some(h);
                    assert(after[i] == before[i]);
                }
            }
            assert forall|i: int, j: int|
                0 <= i < j < after.len() && after[i].hw_id() is Some implies
                #[trigger] after[i].hw_id() != #[trigger] after[j].hw_id() by {
                if j < last {
                    assert(before[i].hw_id() != before[j].hw_id());
                } else {
                    assert(after[i] == before[i]);
                }
            }
            assert(self.phase.pool_attached() ==> after[0] == before[0]);
            self.lemma_one_interface_per_hardware(hw_id);
        }
        Ok(())
    }

    /// Whether the device that was described is to be attached: it is a
    /// network device, and its hardware has no interface yet.
    pub open spec fn wants_probe(&self, hw_id: u64, is_net: bool) -> bool {
        is_net && !self.probed_hardware@.contains(hw_id)
    }

    /// Whether `action` is what follows once a device is dealt with, in the
    /// state `after` that follows `self`: the oldest name that waits leaves
    /// the queue to be described, or nothing waits.
    pub open spec fn takes_next(&self, after: GopherServer, action: ProbeAction) -> bool {
        &&& after == (GopherServer { pending_devices: after.pending_devices, ..*self })
        &&& if self.pending_names().len() == 0 {
            action is Idle && after.pending_names() == self.pending_names()
        } else {
            &&& action matches ProbeAction::Describe { name }
            &&& name@ == self.pending_names()[0]
            &&& after.pending_names() == self.pending_names().skip(1)
        }
    }

    /// Takes the oldest name that waits out of the queue.
    pub fn next_probe(&mut self) -> (action: ProbeAction)
        requires
            old(self).wf(),
        ensures
            final(self).wf(),
            old(self).takes_next(*final(self), action),
    {
        let ghost before = self.pending_names();
        match self.pending_devices.pop_front() {
            Some(name) => {
                assert(self.pending_names() =~= before.skip(1));
                ProbeAction::Describe { name }
            },
            None => ProbeAction::Idle,
        }
    }

    /// The error for which a described device is skipped, if it is: there
    /// is no pool to share with it, or no page left for its ring.
    pub open spec fn attach_error(&self) -> Option<Error> {
        if self.shm_frame is None {
            Some(Error::NotInitialized)
        } else if self.next_ring(PAGE_SIZE) is None {
            Some(Error::InternalError)
        } else {
            None
        }
    }

    /// What a step of the probe pipeline returns and leaves behind. A device
    /// that fails, outside or here, is skipped: the step names the error and
    /// takes the next name all the same.
    pub open spec fn probe_step_post(
        &self,
        after: GopherServer,
        event: ProbeEvent,
        step: ProbeStep,
    ) -> bool {
        match event {
            ProbeEvent::Continue => step.skipped is None && self.takes_next(after, step.action),
            ProbeEvent::Failed { name, error } => step.skipped == Some(error) && self.takes_next(
                after,
                step.action,
            ),
            ProbeEvent::Described { name, hw_id, is_net } => if !self.wants_probe(hw_id, is_net) {
                step.skipped is None && self.takes_next(after, step.action)
            } else if self.attach_error() is Some {
                step.skipped == self.attach_error() && self.takes_next(after, step.action)
            } else {
                &&& step.skipped is None
                &&& step.action matches ProbeAction::Attach { name: n, hw_id: h, plan }
                &&& n == name
                &&& h == hw_id
                &&& plan == (AttachPlan {
                    ring: self.next_ring(PAGE_SIZE)->0,
                    sq_entries: DEVICE_SQ_ENTRIES,
                    cq_entries: DEVICE_CQ_ENTRIES,
                    shm: self.shm_frame->0,
                })
                &&& after == (GopherServer {
                    next_ring_vaddr: (self.next_ring_vaddr + PAGE_SIZE) as usize,
                    ..*self
                })
            },
            ProbeEvent::Attached { name, hw_id, mac } => match self.probe_result(
                name@,
                hw_id,
                mac,
            ) {
                Err(e) => step.skipped == Some(e) && self.takes_next(after, step.action),
                Ok(()) => {
                    &&& step.skipped is None
                    &&& after.interfaces_of(hw_id) == 1
                    &&& after.probed_hardware@ == self.probed_hardware@.insert(hw_id)
                    &&& !self.probed_hardware@.contains(hw_id) ==> {
                        &&& after.interfaces@ == self.interfaces@.push(after.interfaces@.last())
                        &&& self.probed_context(name@, hw_id, mac, after.interfaces@.last())
                    }
                    &&& self.probed_hardware@.contains(hw_id) ==> after.interfaces
                        == self.interfaces
                    &&& (GopherServer {
                        interfaces: after.interfaces,
                        probed_hardware: after.probed_hardware,
                        ..*self
                    }).takes_next(after, step.action)
                },
            },
        }
    }

    /// One step of the probe pipeline. Names are taken in the order in which
    /// they were queued. A described device that is a network device without
    /// an interface gets a page of the ring region and is to be attached
    /// over the shared pool; an attached device is bound by `probe`; in every
    /// other case, and whenever a device fails, the next name is taken.
    pub fn process_pending_probes(&mut self, event: ProbeEvent) -> (step: ProbeStep)
        requires
            old(self).wf(),
        ensures
            final(self).wf(),
            old(self).probe_step_post(*final(self), event, step),
    {
        match event {
            ProbeEvent::Continue => ProbeStep { action: self.next_probe(), skipped: None },
            ProbeEvent::Failed { name, error } => ProbeStep {
                action: self.next_probe(),
                skipped: Some(error),
            },
            ProbeEvent::Described { name, hw_id, is_net } => {
                if !is_net || self.probed_hardware.contains(&hw_id) {
                    return ProbeStep { action: self.next_probe(), skipped: None };
                }
                let shm = match self.shm_frame {
                    Some(shm) => shm,
                    None => {
                        return ProbeStep {
                            action: self.next_probe(),
                            skipped: Some(Error::NotInitialized),
                        };
                    },
                };
                let ring = match self.alloc_ring(PAGE_SIZE) {
                    Some(ring) => ring,
                    None => {
                        return ProbeStep {
                            action: self.next_probe(),
                            skipped: Some(Error::InternalError),
                        };
                    },
                };
                ProbeStep {
                    action: ProbeAction::Attach {
                        name,
                        hw_id,
                        plan: AttachPlan {
                            ring,
                            sq_entries: DEVICE_SQ_ENTRIES,
                            cq_entries: DEVICE_CQ_ENTRIES,
                            shm,
                        },
                    },
                    skipped: None,
                }
            },
            ProbeEvent::Attached { name, hw_id, mac } => {
                match self.probe(name.as_str(), hw_id, mac) {
                    Ok(()) => {
                        assert(self.probed_hardware@ =~= old(self).probed_hardware@.insert(hw_id));
                        ProbeStep { action: self.next_probe(), skipped: None }
                    },
                    Err(e) => ProbeStep { action: self.next_probe(), skipped: Some(e) },
                }
            },
        }
    }

    /// A device that fails is skipped and the next is probed: whatever the
    /// failure, the step that is told of it, or that meets it, hands out the
    /// oldest name that waits, and the device that failed has no interface
    /// and is not marked as probed.
    pub proof fn lemma_failed_probe_is_skipped(
        &self,
        after: GopherServer,
        event: ProbeEvent,
        step: ProbeStep,
    )
        requires
            self.probe_step_post(after, event, step),
            step.skipped is Some,
        ensures
            self.takes_next(after, step.action),
            after.interfaces == self.interfaces,
            after.probed_hardware == self.probed_hardware,
            self.pending_names().len() > 0 ==> step.action is Describe,
    {
    }

    /// Hardware that has its interface is passed over: a second name for it
    /// is described and then left, no device is attached for it, and its
    /// one interface stays the only one.
    pub proof fn lemma_probed_hardware_is_passed_over(
        &self,
        after: GopherServer,
        event: ProbeEvent,
        step: ProbeStep,
    )
        requires
            self.wf(),
            self.probe_step_post(after, event, step),
            event matches ProbeEvent::Described { hw_id, .. } && self.probed_hardware@.contains(
                hw_id,
            ),
        ensures
            !(step.action is Attach),
            step.skipped is None,
            after.interfaces == self.interfaces,
            event matches ProbeEvent::Described { hw_id, .. } && after.interfaces_of(hw_id) == 1,
    {
        match event {
            ProbeEvent::Described { hw_id, .. } => {
                self.lemma_one_interface_per_hardware(hw_id);
            },
            _ => {},
        }
    }

    /// Two names for one piece of unseen hardware give one interface. The
    /// run takes the first name, has it described, attaches and binds it,
    /// takes the second name, has it described as the same hardware, and
    /// ends: one device was attached and no more, the hardware has its one
    /// interface, and no name waits. The run is that of hardware that can be
    /// attached: the pool is there, a page is left for its ring, and its
    /// planned address can be assigned.
    pub proof fn lemma_two_names_one_interface(
        s0: GopherServer,
        s1: GopherServer,
        s2: GopherServer,
        s3: GopherServer,
        s4: GopherServer,
        t1: ProbeStep,
        t2: ProbeStep,
        t3: ProbeStep,
        t4: ProbeStep,
        first: String,
        second: String,
        hw_id: u64,
        mac: MacAddress,
    )
        requires
            s0.pending_names() == seq![first@, second@],
            !s0.probed_hardware@.contains(hw_id),
            s0.attach_error() is None,
            planned_interface(s0.config, first@, mac) is Ok,
            s0.probe_step_post(s1, ProbeEvent::Continue, t1),
            s1.probe_step_post(
                s2,
                ProbeEvent::Described { name: first, hw_id, is_net: true },
                t2,
            ),
            s2.probe_step_post(s3, ProbeEvent::Attached { name: first, hw_id, mac }, t3),
            s3.probe_step_post(
                s4,
                ProbeEvent::Described { name: second, hw_id, is_net: true },
                t4,
            ),
        ensures
            t1.action matches ProbeAction::Describe { name } && name@ == first@,
            t2.action matches ProbeAction::Attach { name, hw_id: h, .. } && name == first && h
                == hw_id,
            t3.action matches ProbeAction::Describe { name } && name@ == second@,
            t4.action is Idle,
            t1.skipped is None && t2.skipped is None && t3.skipped is None && t4.skipped is None,
            s4.interfaces@.len() == s0.interfaces@.len() + 1,
            s4.interfaces_of(hw_id) == 1,
            s4.probed_hardware@ == s0.probed_hardware@.insert(hw_id),
            s4.pending_names().len() == 0,
    {
        assert(s0.pending_names()[0] == first@);
        assert(s1.pending_names() =~= seq![second@]);
        assert(s3.pending_names().len() == 0);
    }

    /// One waiting name of unseen hardware that the configuration names ends
    /// as one new interface over the driver's device of that name, with the
    /// configured address and prefix; the name waits no more and the
    /// hardware counts as probed. The run is that of hardware that can be
    /// attached: the pool is there, a page is left for its ring, and the
    /// configured address can be assigned.
    pub proof fn lemma_named_device_gets_its_address(
        s0: GopherServer,
        s1: GopherServer,
        s2: GopherServer,
        s3: GopherServer,
        t1: ProbeStep,
        t2: ProbeStep,
        t3: ProbeStep,
        name: String,
        hw_id: u64,
        mac: MacAddress,
    )
        requires
            s0.pending_names() == seq![name@],
            !s0.probed_hardware@.contains(hw_id),
            s0.attach_error() is None,
            configured_entry(s0.config, name@) is Some,
            planned_address(s0.config, name@).assignable(),
            s0.probe_step_post(s1, ProbeEvent::Continue, t1),
            s1.probe_step_post(s2, ProbeEvent::Described { name, hw_id, is_net: true }, t2),
            s2.probe_step_post(s3, ProbeEvent::Attached { name, hw_id, mac }, t3),
        ensures
            t3.action is Idle && t3.skipped is None,
            s3.pending_names().len() == 0,
            s3.probed_hardware@.contains(hw_id),
            s3.interfaces_of(hw_id) == 1,
            s3.interfaces@ == s0.interfaces@.push(s3.interfaces@.last()),
            s3.interfaces@.last().device matches DeviceVariant::Net(d) && d.name@ == name@ && d.mac
                == mac,
            s3.interfaces@.last().iface.address.prefix_len == configured_entry(
                s0.config,
                name@,
            )->0.mask,
            Some(s3.interfaces@.last().iface.address.address) == Ipv4::of_text(
                configured_entry(s0.config, name@)->0.ipv4@,
            ),
    {
        lemma_configured_address(s0.config, name@, mac);
        assert(s0.pending_names()[0] == name@);
        assert(s1.pending_names().len() == 0);
    }

    /// Where a page is left in the ring region, a ring of up to one page
    /// gets the page at the first unused address.
    pub proof fn lemma_ring_of_one_page(&self, bytes: usize)
        requires
            self.wf(),
            0 < bytes <= PAGE_SIZE,
            self.next_ring_vaddr + PAGE_SIZE <= SHM_VA,
        ensures
            self.next_ring(bytes) == Some(
                RingMapping { vaddr: self.next_ring_vaddr, size: PAGE_SIZE },
            ),
    {
    }
}

} // verus!
