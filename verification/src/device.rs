//! The adapter between one network driver and the stack's polled device
//! contract: single-slot receive flow control and the packet regions in the
//! shared pool.

use vstd::prelude::*;
use crate::layout::PAGE_SIZE;

verus! {

/// The tag that a device's receive submissions carry, unless it is changed.
pub const RX_TAG: u64 = 0x100;

/// Length of the receive buffer: the first half of frame 0 of the pool.
pub const RX_WINDOW: usize = 2048;

/// Where the transmit region starts: frame 1 of the pool, so that no
/// transmit touches the frame that the driver receives into.
pub const TX_OFFSET: usize = 4096;

/// Length of the buffer of the service that stands in where the pool has no
/// room for a packet.
pub const TX_WINDOW: usize = 2048;

/// Largest payload of one frame.
pub const MTU: usize = 1500;

/// A hardware address, by its six octets.
#[derive(Clone, Copy, Debug, PartialEq, Eq, Structural)]
pub struct MacAddress {
    pub o0: u8,
    pub o1: u8,
    pub o2: u8,
    pub o3: u8,
    pub o4: u8,
    pub o5: u8,
}

impl MacAddress {
    /// The address of all zeros, which the loopback interface bears.
    pub open spec fn spec_zero() -> MacAddress {
        MacAddress { o0: 0, o1: 0, o2: 0, o3: 0, o4: 0, o5: 0 }
    }

    /// The octets, the first first.
    pub open spec fn spec_octets(self) -> Seq<u8> {
        seq![self.o0, self.o1, self.o2, self.o3, self.o4, self.o5]
    }

    /// The address of all zeros.
    #[verifier::when_used_as_spec(spec_zero)]
    pub fn zero() -> (mac: MacAddress)
        ensures
            mac == MacAddress::spec_zero(),
    {
        MacAddress { o0: 0, o1: 0, o2: 0, o3: 0, o4: 0, o5: 0 }
    }

    /// The address with those octets.
    pub fn from_octets(octets: [u8; 6]) -> (mac: MacAddress)
        ensures
            mac.spec_octets() == octets@,
    {
        let mac = MacAddress {
            o0: octets[0],
            o1: octets[1],
            o2: octets[2],
            o3: octets[3],
            o4: octets[4],
            o5: octets[5],
        };
        assert(mac.spec_octets() =~= octets@);
        mac
    }

    /// The octets, the first first.
    pub fn octets(self) -> (octets: [u8; 6])
        ensures
            octets@ == self.spec_octets(),
    {
        let octets = [self.o0, self.o1, self.o2, self.o3, self.o4, self.o5];
        assert(octets@ =~= self.spec_octets());
        octets
    }
}

/// The kind of link that a device offers the stack.
#[derive(Clone, Copy, Debug, PartialEq, Eq, Structural)]
pub enum Medium {
    Ethernet,
    Ip,
}

/// What a device tells the stack of itself.
#[derive(Clone, Copy, Debug, PartialEq, Eq, Structural)]
pub struct DeviceCapabilities {
    pub max_transmission_unit: usize,
    pub medium: Medium,
}

/// The packet pool as the service sees it: where it is mapped, where it
/// lies in physical memory, and how long it is.
#[derive(Clone, Copy, Debug, PartialEq, Eq, Structural)]
pub struct ShmView {
    /// Capability slot of the pool's frame.
    pub frame: usize,
    pub vaddr: usize,
    pub paddr: usize,
    pub size: usize,
}

/// A read request for the driver's submission queue.
#[derive(Clone, Copy, Debug, PartialEq, Eq, Structural)]
pub struct RxSubmission {
    /// Offset of the buffer in the pool.
    pub offset: usize,
    pub len: usize,
    pub user_data: u64,
}

/// An entry of the driver's completion queue.
#[derive(Clone, Copy, Debug, PartialEq, Eq, Structural)]
pub struct Completion {
    pub user_data: u64,
    /// The length on success, a negated error otherwise.
    pub res: i32,
}

/// A received packet: `len` bytes at the start of frame `shm_idx` of the
/// pool.
#[derive(Clone, Copy, Debug, PartialEq, Eq, Structural)]
pub struct RxToken {
    pub shm_idx: usize,
    pub len: usize,
}

/// Where a packet to transmit is written: in the pool, or in a buffer of the
/// service that is then copied through.
#[derive(Clone, Copy, Debug, PartialEq, Eq, Structural)]
pub enum TxBuffer {
    Shm { offset: usize, len: usize },
    Local { len: usize },
}

/// The right to transmit one packet on a device.
#[derive(Clone, Copy, Debug, PartialEq, Eq, Structural)]
pub struct TxToken {
    /// The pool of the device, if one is attached.
    pub shm: Option<ShmView>,
}

/// What the receive path and the driver exchange in one step.
pub enum RxEvent {
    /// The driver was offered the receive buffer where the device asked for
    /// that, and took it or not.
    Submit { accepted: bool },
    /// The head of the completion queue was looked at where the device
    /// waits for a completion.
    Peek { head: Option<Completion> },
}

/// One driver instance as the stack polls it.
pub struct GlendaNetDevice {
    pub name: String,
    /// The device manager's id of the hardware behind the driver.
    pub hw_id: u64,
    /// The hardware address, read from the driver.
    pub mac: MacAddress,
    /// Whether a receive submission is in flight.
    pub rx_pending: bool,
    /// The tag of the receive submissions.
    pub rx_id: u64,
    /// The packet pool, once it is shared with the driver.
    pub shm: Option<ShmView>,
}

impl RxToken {
    /// Whether the packet lies within a pool of `size` bytes.
    pub open spec fn fits(self, size: usize) -> bool {
        self.shm_idx * PAGE_SIZE + self.len <= size
    }

    /// The packet's bytes as offsets into a pool of `size` bytes: from the
    /// first to behind the last, or nothing where the packet does not lie
    /// within the pool.
    pub fn region(&self, size: usize) -> (r: Option<(usize, usize)>)
        ensures
            r == (if self.fits(size) {
                Some(
                    (
                        (self.shm_idx * PAGE_SIZE) as usize,
                        (self.shm_idx * PAGE_SIZE + self.len) as usize,
                    ),
                )
            } else {
                None
            }),
    {
        if self.shm_idx > size / PAGE_SIZE {
            assert(self.shm_idx * PAGE_SIZE > size) by (nonlinear_arith)
                requires
                    self.shm_idx > size / 4096,
                    PAGE_SIZE == 4096,
            ;
            return None;
        }
        assert(self.shm_idx * PAGE_SIZE <= size) by (nonlinear_arith)
            requires
                self.shm_idx <= size / 4096,
                PAGE_SIZE == 4096,
        ;
        let start: usize = self.shm_idx * PAGE_SIZE;
        if self.len > size - start {
            None
        } else {
            Some((start, start + self.len))
        }
    }
}

impl TxToken {
    /// Whether the pool has room for a packet of `len` bytes behind the frame
    /// that the driver receives into.
    pub open spec fn fits_pool(self, len: usize) -> bool {
        self.shm matches Some(shm) && TX_OFFSET + len <= shm.size
    }

    /// Where a packet of `len` bytes is written.
    pub open spec fn spec_buffer(self, len: usize) -> Option<TxBuffer> {
        if self.fits_pool(len) {
            Some(TxBuffer::Shm { offset: TX_OFFSET, len })
        } else if len <= TX_WINDOW {
            Some(TxBuffer::Local { len })
        } else {
            None
        }
    }

    /// Chooses where a packet of `len` bytes is written before it is handed
    /// to the driver: in the pool, from frame 1 on, wherever the pool has
    /// the room for it, whatever its length; else in a buffer of the
    /// service. Only a packet that fits neither has no place.
    pub fn consume(self, len: usize) -> (r: Option<TxBuffer>)
        ensures
            r == self.spec_buffer(len),
    {
        let in_pool = match self.shm {
            Some(shm) => shm.size >= TX_OFFSET && len <= shm.size - TX_OFFSET,
            None => false,
        };
        if in_pool {
            Some(TxBuffer::Shm { offset: TX_OFFSET, len })
        } else if len <= TX_WINDOW {
            Some(TxBuffer::Local { len })
        } else {
            None
        }
    }
}

impl GlendaNetDevice {
    /// Whether the device is offered a receive buffer now, and which: one
    /// submission at a time, and only into an attached pool that holds the
    /// receive window.
    pub open spec fn spec_rx_request(&self) -> Option<RxSubmission> {
        if !self.rx_pending && self.shm is Some && self.shm->0.size >= RX_WINDOW {
            Some(RxSubmission { offset: 0, len: RX_WINDOW, user_data: self.rx_id })
        } else {
            None
        }
    }

    /// Whether a completion ends the submission in flight.
    pub open spec fn completes(&self, head: Option<Completion>) -> bool {
        self.rx_pending && head is Some && head->0.user_data == self.rx_id
    }

    /// The flag after one exchange with the driver.
    pub open spec fn pending_after(&self, event: RxEvent) -> bool {
        match event {
            RxEvent::Submit { accepted } => self.rx_pending || (self.spec_rx_request() is Some
                && accepted),
            RxEvent::Peek { head } => self.rx_pending && !self.completes(head),
        }
    }

    /// The device after one exchange with the driver.
    pub open spec fn after(self, event: RxEvent) -> GlendaNetDevice {
        GlendaNetDevice { rx_pending: self.pending_after(event), ..self }
    }

    /// The device after a run of exchanges, the first of them first.
    pub open spec fn after_all(self, events: Seq<RxEvent>) -> GlendaNetDevice
        decreases events.len(),
    {
        if events.len() == 0 {
            self
        } else {
            self.after_all(events.drop_last()).after(events.last())
        }
    }

    /// How many receive submissions the driver holds after one exchange, if
    /// it held `count` before: one more where the offered buffer was taken,
    /// one less where a completion ended the submission in flight.
    pub open spec fn in_flight_after(self, count: int, event: RxEvent) -> int {
        match event {
            RxEvent::Submit { accepted } => if self.spec_rx_request() is Some && accepted {
                count + 1
            } else {
                count
            },
            RxEvent::Peek { head } => if self.completes(head) {
                count - 1
            } else {
                count
            },
        }
    }

    /// How many receive submissions the driver holds after a run of
    /// exchanges that starts with none in flight.
    pub open spec fn in_flight(self, events: Seq<RxEvent>) -> int
        decreases events.len(),
    {
        if events.len() == 0 {
            0
        } else {
            self.after_all(events.drop_last()).in_flight_after(
                self.in_flight(events.drop_last()),
                events.last(),
            )
        }
    }

    /// The packet that a completion hands over, if any.
    pub open spec fn received(&self, head: Option<Completion>) -> Option<RxToken> {
        if self.completes(head) && head->0.res > 0 {
            Some(RxToken { shm_idx: 0, len: head->0.res as usize })
        } else {
            None
        }
    }

    /// A device over a driver that was just reached: nothing in flight, no
    /// pool attached.
    pub fn new(name: &str, hw_id: u64, mac: MacAddress) -> (device: GlendaNetDevice)
        ensures
            device.name@ == name@,
            device.hw_id == hw_id,
            device.mac == mac,
            !device.rx_pending,
            device.rx_id == RX_TAG,
            device.shm is None,
    {
        GlendaNetDevice {
            name: name.to_owned(),
            hw_id,
            mac,
            rx_pending: false,
            rx_id: RX_TAG,
            shm: None,
        }
    }

    /// The device's name with the device manager.
    pub fn name(&self) -> (name: &str)
        ensures
            name@ == self.name@,
    {
        self.name.as_str()
    }

    /// The hardware address that the driver gave.
    pub fn mac_address(&self) -> (mac: MacAddress)
        ensures
            mac == self.mac,
    {
        self.mac
    }

    /// Records the pool that was shared with the driver.
    pub fn setup_shm(&mut self, shm: ShmView)
        ensures
            final(self).shm == Some(shm),
            final(self).rx_pending == old(self).rx_pending,
            final(self).rx_id == old(self).rx_id,
            final(self).name == old(self).name,
            final(self).hw_id == old(self).hw_id,
            final(self).mac == old(self).mac,
    {
        self.shm = Some(shm);
    }

    /// What the device tells the stack: Ethernet frames with a payload of up
    /// to `MTU` bytes.
    pub fn capabilities(&self) -> (caps: DeviceCapabilities)
        ensures
            caps == (DeviceCapabilities { max_transmission_unit: MTU, medium: Medium::Ethernet }),
    {
        DeviceCapabilities { max_transmission_unit: MTU, medium: Medium::Ethernet }
    }

    /// The receive buffer to offer the driver now, if any.
    pub fn rx_request(&self) -> (r: Option<RxSubmission>)
        ensures
            r == self.spec_rx_request(),
    {
        if self.rx_pending {
            return None;
        }
        match self.shm {
            Some(shm) => if shm.size >= RX_WINDOW {
                Some(RxSubmission { offset: 0, len: RX_WINDOW, user_data: self.rx_id })
            } else {
                None
            },
            None => None,
        }
    }

    /// Takes note of the driver's answer to the offer of `rx_request`. Where
    /// nothing was offered, nothing changes.
    pub fn rx_submitted(&mut self, accepted: bool)
        ensures
            *final(self) == old(self).after(RxEvent::Submit { accepted }),
    {
        if accepted && self.rx_request().is_some() {
            self.rx_pending = true;
        }
    }

    /// Takes note of the head of the completion queue. A completion with the
    /// device's tag ends the submission in flight, and hands over a packet
    /// where its result is positive.
    pub fn rx_completed(&mut self, head: Option<Completion>) -> (token: Option<RxToken>)
        ensures
            token == old(self).received(head),
            *final(self) == old(self).after(RxEvent::Peek { head }),
    {
        if !self.rx_pending {
            return None;
        }
        match head {
            Some(cqe) => {
                if cqe.user_data == self.rx_id {
                    self.rx_pending = false;
                    if cqe.res > 0 {
                        return Some(RxToken { shm_idx: 0, len: cqe.res as usize });
                    }
                }
                None
            },
            None => None,
        }
    }

    /// One poll of the receive path, given what the driver answers: the
    /// buffer is offered if none is in flight, then the completion queue is
    /// looked at. A received packet comes with the right to transmit.
    pub fn receive(&mut self, accepted: bool, head: Option<Completion>) -> (r: Option<
        (RxToken, TxToken),
    >)
        ensures
            *final(self) == old(self).after(RxEvent::Submit { accepted }).after(
                RxEvent::Peek { head },
            ),
            r == (match old(self).after(RxEvent::Submit { accepted }).received(head) {
                Some(rx) => Some((rx, TxToken { shm: old(self).shm })),
                None => None,
            }),
    {
        self.rx_submitted(accepted);
        match self.rx_completed(head) {
            Some(rx) => Some((rx, TxToken { shm: self.shm })),
            None => None,
        }
    }

    /// The right to transmit, which is always given.
    pub fn transmit(&self) -> (token: TxToken)
        ensures
            token == (TxToken { shm: self.shm }),
    {
        TxToken { shm: self.shm }
    }
}

/// Single-slot flow control: whatever the driver answers, and however often
/// the receive path runs, a device that starts with nothing in flight has at
/// most one receive submission with the driver, and has one exactly while
/// its flag is set.
pub proof fn lemma_one_rx_in_flight(device: GlendaNetDevice, events: Seq<RxEvent>)
    requires
        !device.rx_pending,
    ensures
        0 <= device.in_flight(events) <= 1,
        device.in_flight(events) == 1 <==> device.after_all(events).rx_pending,
    decreases events.len(),
{
    if events.len() > 0 {
        lemma_one_rx_in_flight(device, events.drop_last());
    }
}

/// The transmit region of a pool lies behind the receive buffer and within
/// the pool, so what the driver receives into is never written by a
/// transmit, in flight or not.
pub proof fn lemma_tx_spares_rx(device: GlendaNetDevice, len: usize)
    ensures
        (TxToken { shm: device.shm }).spec_buffer(len) matches Some(
            TxBuffer::Shm { offset, len: n },
        ) ==> {
            &&& RX_WINDOW <= offset
            &&& offset + n <= device.shm->0.size
            &&& device.spec_rx_request() matches Some(rx) ==> rx.offset + rx.len <= offset
        },
{
}

} // verus!
