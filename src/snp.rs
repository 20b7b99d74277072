//! The packet-level network protocol: its data structures and its binding.
use vstd::prelude::*;

use crate::marshal::{addr_from_wire, size_to_wire, spec_addr_from_wire, spec_size_to_wire};
use crate::status::{from_status, from_status_with_value, is_error_code, status_result, Error, Result, Status};

verus! {

/// Number of counters in a statistics table.
pub const STATS_COUNTERS: usize = 26;

/// Size in bytes of a statistics table as the firmware lays it out.
pub const STATS_TABLE_SIZE: usize = 208;

/// The largest number of multicast receive filters a mode can hold.
pub const MAX_MCAST_FILTERS: usize = 16;

/// A hardware (MAC) address, padded to the firmware's 32-byte layout.
#[derive(Clone, Copy, Debug, PartialEq, Eq)]
pub struct MacAddress(pub [u8; 32]);

/// An IPv4 or IPv6 address in the firmware's 16-byte layout (IPv4 in the
/// first four bytes).
#[derive(Clone, Copy, Debug, PartialEq, Eq)]
pub struct IpAddress(pub [u8; 16]);

/// The value a counter stands for: the all-ones pattern (-1 when read as a
/// signed 64-bit integer) means "not supported", any other pattern is the
/// count itself.
pub open spec fn counter_value(raw: u64) -> Option<u64> {
    if raw == u64::MAX {
        None
    } else {
        Some(raw)
    }
}

/// Whether bit `i` of `bits` is set.
pub open spec fn bit_set(bits: u32, i: u32) -> bool {
    bits & (1u32 << i) != 0
}

/// A bitmask of currently active interrupts.
#[derive(Debug)]
pub struct InterruptStatus(u32);

impl InterruptStatus {
    /// The raw bitmask.
    pub closed spec fn bits_view(&self) -> u32 {
        self.0
    }

    /// Creates a status with all bits unset.
    pub fn new() -> (r: Self)
        ensures
            r.bits_view() == 0,
    {
        InterruptStatus(0)
    }

    /// Wraps a bitmask reported by the firmware.
    pub fn from_bits(bits: u32) -> (r: Self)
        ensures
            r.bits_view() == bits,
    {
        InterruptStatus(bits)
    }

    /// The raw bitmask.
    pub fn bits(&self) -> (r: u32)
        ensures
            r == self.bits_view(),
    {
        self.0
    }

    /// The receive interrupt bit (bit 0).
    pub fn receive_interrupt(&self) -> (r: bool)
        ensures
            r == bit_set(self.bits_view(), 0),
    {
        assert(self.0 & (1u32 << 0u32) == self.0 & 0x01) by (bit_vector);
        self.0 & 0x01 != 0
    }

    /// The transmit interrupt bit (bit 1).
    pub fn transmit_interrupt(&self) -> (r: bool)
        ensures
            r == bit_set(self.bits_view(), 1),
    {
        assert(self.0 & (1u32 << 1u32) == self.0 & 0x02) by (bit_vector);
        self.0 & 0x02 != 0
    }

    /// The command interrupt bit (bit 2).
    pub fn command_interrupt(&self) -> (r: bool)
        ensures
            r == bit_set(self.bits_view(), 2),
    {
        assert(self.0 & (1u32 << 2u32) == self.0 & 0x04) by (bit_vector);
        self.0 & 0x04 != 0
    }

    /// The software interrupt bit (bit 3).
    pub fn software_interrupt(&self) -> (r: bool)
        ensures
            r == bit_set(self.bits_view(), 3),
    {
        assert(self.0 & (1u32 << 3u32) == self.0 & 0x08) by (bit_vector);
        self.0 & 0x08 != 0
    }
}

/// Network statistics as the firmware reports them.
///
/// A device may not support every statistic: the accessors give `None` for
/// a counter that holds the "not supported" pattern.
#[derive(Debug)]
pub struct NetworkStats {
    rx_total_frames: u64,
    rx_good_frames: u64,
    rx_undersize_frames: u64,
    rx_oversize_frames: u64,
    rx_dropped_frames: u64,
    rx_unicast_frames: u64,
    rx_broadcast_frames: u64,
    rx_multicast_frames: u64,
    rx_crc_error_frames: u64,
    rx_total_bytes: u64,
    tx_total_frames: u64,
    tx_good_frames: u64,
    tx_undersize_frames: u64,
    tx_oversize_frames: u64,
    tx_dropped_frames: u64,
    tx_unicast_frames: u64,
    tx_broadcast_frames: u64,
    tx_multicast_frames: u64,
    tx_crc_error_frames: u64,
    tx_total_bytes: u64,
    collisions: u64,
    unsupported_protocol: u64,
    rx_duplicated_frames: u64,
    rx_decrypt_error_frames: u64,
    tx_error_frames: u64,
    tx_retry_frames: u64,
}

impl NetworkStats {
    /// The counters in their firmware order.
    pub closed spec fn counters(&self) -> Seq<u64> {
        seq![self.rx_total_frames, self.rx_good_frames, self.rx_undersize_frames, self.rx_oversize_frames, self.rx_dropped_frames, self.rx_unicast_frames, self.rx_broadcast_frames, self.rx_multicast_frames, self.rx_crc_error_frames, self.rx_total_bytes, self.tx_total_frames, self.tx_good_frames, self.tx_undersize_frames, self.tx_oversize_frames, self.tx_dropped_frames, self.tx_unicast_frames, self.tx_broadcast_frames, self.tx_multicast_frames, self.tx_crc_error_frames, self.tx_total_bytes, self.collisions, self.unsupported_protocol, self.rx_duplicated_frames, self.rx_decrypt_error_frames, self.tx_error_frames, self.tx_retry_frames
        ]
    }

    /// A table with every counter zero.
    pub fn zeroed() -> (r: Self)
        ensures
            r.counters() == Seq::new(STATS_COUNTERS as nat, |i: int| 0u64),
    {
        let r = NetworkStats {
            rx_total_frames: 0,
            rx_good_frames: 0,
            rx_undersize_frames: 0,
            rx_oversize_frames: 0,
            rx_dropped_frames: 0,
            rx_unicast_frames: 0,
            rx_broadcast_frames: 0,
            rx_multicast_frames: 0,
            rx_crc_error_frames: 0,
            rx_total_bytes: 0,
            tx_total_frames: 0,
            tx_good_frames: 0,
            tx_undersize_frames: 0,
            tx_oversize_frames: 0,
            tx_dropped_frames: 0,
            tx_unicast_frames: 0,
            tx_broadcast_frames: 0,
            tx_multicast_frames: 0,
            tx_crc_error_frames: 0,
            tx_total_bytes: 0,
            collisions: 0,
            unsupported_protocol: 0,
            rx_duplicated_frames: 0,
            rx_decrypt_error_frames: 0,
            tx_error_frames: 0,
            tx_retry_frames: 0,
        };
        assert(r.counters() =~= Seq::new(STATS_COUNTERS as nat, |i: int| 0u64));
        r
    }

    /// A table holding the given counters, in firmware order.
    pub fn from_counters(c: [u64; 26]) -> (r: Self)
        ensures
            r.counters() == c@,
    {
        let r = NetworkStats {
            rx_total_frames: c[0],
            rx_good_frames: c[1],
            rx_undersize_frames: c[2],
            rx_oversize_frames: c[3],
            rx_dropped_frames: c[4],
            rx_unicast_frames: c[5],
            rx_broadcast_frames: c[6],
            rx_multicast_frames: c[7],
            rx_crc_error_frames: c[8],
            rx_total_bytes: c[9],
            tx_total_frames: c[10],
            tx_good_frames: c[11],
            tx_undersize_frames: c[12],
            tx_oversize_frames: c[13],
            tx_dropped_frames: c[14],
            tx_unicast_frames: c[15],
            tx_broadcast_frames: c[16],
            tx_multicast_frames: c[17],
            tx_crc_error_frames: c[18],
            tx_total_bytes: c[19],
            collisions: c[20],
            unsupported_protocol: c[21],
            rx_duplicated_frames: c[22],
            rx_decrypt_error_frames: c[23],
            tx_error_frames: c[24],
            tx_retry_frames: c[25],
        };
        assert(r.counters() =~= c@);
        r
    }

    /// The raw counters, in firmware order.
    pub fn to_counters(&self) -> (r: [u64; 26])
        ensures
            r@ == self.counters(),
    {
        let r = [self.rx_total_frames, self.rx_good_frames, self.rx_undersize_frames, self.rx_oversize_frames, self.rx_dropped_frames, self.rx_unicast_frames, self.rx_broadcast_frames, self.rx_multicast_frames, self.rx_crc_error_frames, self.rx_total_bytes, self.tx_total_frames, self.tx_good_frames, self.tx_undersize_frames, self.tx_oversize_frames, self.tx_dropped_frames, self.tx_unicast_frames, self.tx_broadcast_frames, self.tx_multicast_frames, self.tx_crc_error_frames, self.tx_total_bytes, self.collisions, self.unsupported_protocol, self.rx_duplicated_frames, self.rx_decrypt_error_frames, self.tx_error_frames, self.tx_retry_frames];
        assert(r@ =~= self.counters());
        r
    }

    /// Whether a raw counter holds a value rather than the "not supported"
    /// pattern.
    fn available(&self, stat: u64) -> (r: bool)
        ensures
            r == (stat != u64::MAX),
    {
        stat != u64::MAX
    }

    /// The value a raw counter stands for.
    fn to_option(&self, stat: u64) -> (r: Option<u64>)
        ensures
            r == counter_value(stat),
    {
        if self.available(stat) {
            Some(stat)
        } else {
            None
        }
    }

    /// The total number of frames received, including error frames
    /// and dropped frames.
    pub fn rx_total_frames(&self) -> (r: Option<u64>)
        ensures
            r == counter_value(self.counters()[0]),
    {
        self.to_option(self.rx_total_frames)
    }

    /// The total number of good frames received and copied
    /// into receive buffers.
    pub fn rx_good_frames(&self) -> (r: Option<u64>)
        ensures
            r == counter_value(self.counters()[1]),
    {
        self.to_option(self.rx_good_frames)
    }

    /// The number of frames below the minimum length for the
    /// communications device.
    pub fn rx_undersize_frames(&self) -> (r: Option<u64>)
        ensures
            r == counter_value(self.counters()[2]),
    {
        self.to_option(self.rx_undersize_frames)
    }

    /// The number of frames longer than the maximum length for
    /// the communications device.
    pub fn rx_oversize_frames(&self) -> (r: Option<u64>)
        ensures
            r == counter_value(self.counters()[3]),
    {
        self.to_option(self.rx_oversize_frames)
    }

    /// The number of valid frames that were dropped because
    /// the receive buffers were full.
    pub fn rx_dropped_frames(&self) -> (r: Option<u64>)
        ensures
            r == counter_value(self.counters()[4]),
    {
        self.to_option(self.rx_dropped_frames)
    }

    /// The number of valid unicast frames received and not dropped.
    pub fn rx_unicast_frames(&self) -> (r: Option<u64>)
        ensures
            r == counter_value(self.counters()[5]),
    {
        self.to_option(self.rx_unicast_frames)
    }

    /// The number of valid broadcast frames received and not dropped.
    pub fn rx_broadcast_frames(&self) -> (r: Option<u64>)
        ensures
            r == counter_value(self.counters()[6]),
    {
        self.to_option(self.rx_broadcast_frames)
    }

    /// The number of valid multicast frames received and not dropped.
    pub fn rx_multicast_frames(&self) -> (r: Option<u64>)
        ensures
            r == counter_value(self.counters()[7]),
    {
        self.to_option(self.rx_multicast_frames)
    }

    /// The number of frames with CRC or alignment errors.
    pub fn rx_crc_error_frames(&self) -> (r: Option<u64>)
        ensures
            r == counter_value(self.counters()[8]),
    {
        self.to_option(self.rx_crc_error_frames)
    }

    /// The total number of bytes received, including frames with errors
    /// and dropped frames.
    pub fn rx_total_bytes(&self) -> (r: Option<u64>)
        ensures
            r == counter_value(self.counters()[9]),
    {
        self.to_option(self.rx_total_bytes)
    }

    /// The total number of frames transmitted, including frames
    /// with errors and dropped frames.
    pub fn tx_total_frames(&self) -> (r: Option<u64>)
        ensures
            r == counter_value(self.counters()[10]),
    {
        self.to_option(self.tx_total_frames)
    }

    /// The total number of valid frames transmitted and copied
    /// into transmit buffers.
    pub fn tx_good_frames(&self) -> (r: Option<u64>)
        ensures
            r == counter_value(self.counters()[11]),
    {
        self.to_option(self.tx_good_frames)
    }

    /// The number of frames below the minimum length for
    /// the media (less than 64 for Ethernet).
    pub fn tx_undersize_frames(&self) -> (r: Option<u64>)
        ensures
            r == counter_value(self.counters()[12]),
    {
        self.to_option(self.tx_undersize_frames)
    }

    /// The number of frames longer than the maximum length for
    /// the media (1500 for Ethernet).
    pub fn tx_oversize_frames(&self) -> (r: Option<u64>)
        ensures
            r == counter_value(self.counters()[13]),
    {
        self.to_option(self.tx_oversize_frames)
    }

    /// The number of valid frames that were dropped because
    /// the transmit buffers were full.
    pub fn tx_dropped_frames(&self) -> (r: Option<u64>)
        ensures
            r == counter_value(self.counters()[14]),
    {
        self.to_option(self.tx_dropped_frames)
    }

    /// The number of valid unicast frames transmitted and not
    /// dropped.
    pub fn tx_unicast_frames(&self) -> (r: Option<u64>)
        ensures
            r == counter_value(self.counters()[15]),
    {
        self.to_option(self.tx_unicast_frames)
    }

    /// The number of valid broadcast frames transmitted and
    /// not dropped.
    pub fn tx_broadcast_frames(&self) -> (r: Option<u64>)
        ensures
            r == counter_value(self.counters()[16]),
    {
        self.to_option(self.tx_broadcast_frames)
    }

    /// The number of valid multicast frames transmitted
    /// and not dropped.
    pub fn tx_multicast_frames(&self) -> (r: Option<u64>)
        ensures
            r == counter_value(self.counters()[17]),
    {
        self.to_option(self.tx_multicast_frames)
    }

    /// The number of transmitted frames with CRC or
    /// alignment errors.
    pub fn tx_crc_error_frames(&self) -> (r: Option<u64>)
        ensures
            r == counter_value(self.counters()[18]),
    {
        self.to_option(self.tx_crc_error_frames)
    }

    /// The total number of bytes transmitted, including
    /// error frames and dropped frames.
    pub fn tx_total_bytes(&self) -> (r: Option<u64>)
        ensures
            r == counter_value(self.counters()[19]),
    {
        self.to_option(self.tx_total_bytes)
    }

    /// The number of collisions detected on this subnet.
    pub fn collisions(&self) -> (r: Option<u64>)
        ensures
            r == counter_value(self.counters()[20]),
    {
        self.to_option(self.collisions)
    }

    /// The number of frames destined for an unsupported protocol.
    pub fn unsupported_protocol(&self) -> (r: Option<u64>)
        ensures
            r == counter_value(self.counters()[21]),
    {
        self.to_option(self.unsupported_protocol)
    }

    /// The number of valid frames received that were duplicated.
    pub fn rx_duplicated_frames(&self) -> (r: Option<u64>)
        ensures
            r == counter_value(self.counters()[22]),
    {
        self.to_option(self.rx_duplicated_frames)
    }

    /// The number of encrypted frames received that failed
    /// to decrypt.
    pub fn rx_decrypt_error_frames(&self) -> (r: Option<u64>)
        ensures
            r == counter_value(self.counters()[23]),
    {
        self.to_option(self.rx_decrypt_error_frames)
    }

    /// The number of frames that failed to transmit after
    /// exceeding the retry limit.
    pub fn tx_error_frames(&self) -> (r: Option<u64>)
        ensures
            r == counter_value(self.counters()[24]),
    {
        self.to_option(self.tx_error_frames)
    }

    /// The number of frames that were transmitted successfully
    /// after more than one attempt.
    pub fn tx_retry_frames(&self) -> (r: Option<u64>)
        ensures
            r == counter_value(self.counters()[25]),
    {
        self.to_option(self.tx_retry_frames)
    }

}

/// A statistics collection that the firmware reports as failed gives an
/// error carrying the status, never the table, whatever the table holds.
pub proof fn lemma_failed_collection_gives_no_table(status: Status, table: NetworkStats)
    requires
        is_error_code(status.0),
    ensures
        status_result(status, table) == Err::<NetworkStats, Error>(Error::Firmware(status)),
{
}

/// Once a call has succeeded, the mirrored state is the one the call leads
/// to: starting leads to Started, initializing to Initialized, stopping and
/// shutting down to Stopped, and any other call keeps the state.
pub proof fn lemma_lifecycle(s: NetworkState, req: Request)
    ensures
        req is Start ==> state_after(s, req) == NetworkState::Started,
        req is Initialize ==> state_after(s, req) == NetworkState::Initialized,
        req is Stop || req is Shutdown ==> state_after(s, req) == NetworkState::Stopped,
        !(req is Start || req is Initialize || req is Stop || req is Shutdown) ==> state_after(
            s,
            req,
        ) == s,
{
}

/// Reading any counter of a table gives `None` exactly when it holds the
/// all-ones pattern, and the counter's own value otherwise, zero included.
pub proof fn lemma_counter_sentinel(raw: u64)
    ensures
        counter_value(raw) is None <==> raw == 0xffff_ffff_ffff_ffffu64,
        raw != 0xffff_ffff_ffff_ffffu64 ==> counter_value(raw) == Some(raw),
        counter_value(0) == Some(0u64),
{
}


/// The state of a network interface.
#[derive(Clone, Copy, Debug, PartialEq, Eq, Structural)]
pub enum NetworkState {
    /// The interface has been stopped.
    Stopped,
    /// The interface has been started.
    Started,
    /// The interface has been initialized.
    Initialized,
}

/// The state that a raw firmware state value stands for, if any.
pub open spec fn spec_state_from_raw(raw: u32) -> Option<NetworkState> {
    if raw == 0 {
        Some(NetworkState::Stopped)
    } else if raw == 1 {
        Some(NetworkState::Started)
    } else if raw == 2 {
        Some(NetworkState::Initialized)
    } else {
        None
    }
}

/// Decodes a raw firmware state value.
pub fn state_from_raw(raw: u32) -> (r: Option<NetworkState>)
    ensures
        r == spec_state_from_raw(raw),
{
    if raw == 0 {
        Some(NetworkState::Stopped)
    } else if raw == 1 {
        Some(NetworkState::Started)
    } else if raw == 2 {
        Some(NetworkState::Initialized)
    } else {
        None
    }
}

/// A snapshot of the network interface's mode, as the firmware reports it.
#[derive(Clone, Copy, Debug)]
pub struct NetworkMode {
    /// The current state of the interface, as a raw value.
    pub state: u32,
    /// The size of the interface's hardware address in bytes.
    pub hw_address_size: u32,
    /// The size of the interface's media header in bytes.
    pub media_header_size: u32,
    /// The maximum size of the packets the interface supports, in bytes.
    pub max_packet_size: u32,
    /// The size of the NVRAM device attached to the interface, in bytes.
    pub nv_ram_size: u32,
    /// The size that must be used for all NVRAM reads and writes.
    pub nv_ram_access_size: u32,
    /// The receive filter settings the interface supports.
    pub receive_filter_mask: u32,
    /// The current receive filter settings.
    pub receive_filter_setting: u32,
    /// The maximum number of multicast address receive filters.
    pub max_mcast_filter_count: u32,
    /// The current number of multicast address receive filters.
    pub mcast_filter_count: u32,
    /// The addresses of the current multicast receive filters.
    pub mcast_filter: [MacAddress; 16],
    /// The current hardware address of the interface.
    pub current_address: MacAddress,
    /// The hardware address for broadcast packets.
    pub broadcast_address: MacAddress,
    /// The permanent hardware address of the interface.
    pub permanent_address: MacAddress,
    /// The interface type.
    pub if_type: u8,
    /// Whether the hardware address can be changed.
    pub mac_address_changeable: bool,
    /// Whether the interface can transmit more than one packet at a time.
    pub multiple_tx_supported: bool,
    /// Whether the presence of media can be determined.
    pub media_present_supported: bool,
    /// Whether media are connected to the interface.
    pub media_present: bool,
}

impl NetworkMode {
    /// The snapshot is consistent: the active multicast filters fit in the
    /// table and within the interface's own limit.
    pub open spec fn wf(&self) -> bool {
        self.mcast_filter_count <= MAX_MCAST_FILTERS
            && self.mcast_filter_count <= self.max_mcast_filter_count
    }

    /// Whether the snapshot is consistent.
    pub fn is_consistent(&self) -> (r: bool)
        ensures
            r == self.wf(),
    {
        self.mcast_filter_count as usize <= MAX_MCAST_FILTERS
            && self.mcast_filter_count <= self.max_mcast_filter_count
    }

    /// The active multicast filters, or `None` if the count does not fit
    /// the table.
    pub fn active_mcast_filters(&self) -> (r: Option<Vec<MacAddress>>)
        ensures
            r is Some <==> self.mcast_filter_count <= MAX_MCAST_FILTERS,
            r matches Some(v) ==> v@ == self.mcast_filter@.subrange(
                0,
                self.mcast_filter_count as int,
            ),
    {
        if self.mcast_filter_count as usize > MAX_MCAST_FILTERS {
            return None;
        }
        let n = self.mcast_filter_count as usize;
        let mut v: Vec<MacAddress> = Vec::new();
        let mut i: usize = 0;
        while i < n
            invariant
                n <= MAX_MCAST_FILTERS,
                n == self.mcast_filter_count,
                i <= n,
                v@ == self.mcast_filter@.subrange(0, i as int),
            decreases n - i,
        {
            v.push(self.mcast_filter[i]);
            i = i + 1;
            assert(v@ =~= self.mcast_filter@.subrange(0, i as int));
        }
        Some(v)
    }

    /// The decoded state of the interface, if the raw value names one.
    pub fn network_state(&self) -> (r: Option<NetworkState>)
        ensures
            r == spec_state_from_raw(self.state),
    {
        state_from_raw(self.state)
    }
}

/// One call into the network protocol's function table, with its arguments
/// already marshaled.
#[derive(Clone, Debug)]
pub enum Request {
    /// Stopped to Started.
    Start,
    /// Started to Stopped.
    Stop,
    /// Allocate buffers; zero sizes mean "no extra buffer".
    Initialize { extra_rx_buffer_size: usize, extra_tx_buffer_size: usize },
    /// Reset the adapter.
    Reset { extended_verification: bool },
    /// Release the adapter for another driver.
    Shutdown,
    /// Change the receive filters; a zero count with no list leaves the
    /// multicast list out.
    ReceiveFilters {
        enable: u32,
        disable: u32,
        reset_mcast_filter: bool,
        mcast_filter_count: usize,
        mcast_filter: Option<Vec<MacAddress>>,
    },
    /// Set or reset the station address.
    StationAddress { reset: bool, new: Option<MacAddress> },
    /// Reset or collect statistics; a zero size means no table is passed.
    Statistics { reset: bool, stats_size: usize },
    /// Map a multicast IP address to a hardware address.
    McastIpToMac { ipv6: bool, ip: IpAddress },
    /// Read (`read_write` true) or write the attached NVRAM.
    NvData { read_write: bool, offset: usize, buffer_size: usize },
    /// Read the interrupt status and/or the recycled transmit buffer.
    GetStatus { interrupt_status: bool, tx_buf: bool },
    /// Queue a packet of `buffer_size` bytes, header included.
    Transmit {
        header_size: usize,
        buffer_size: usize,
        src_addr: Option<MacAddress>,
        dest_addr: Option<MacAddress>,
        protocol: Option<u16>,
    },
    /// Receive a packet into a buffer of `buffer_size` bytes; each flag asks
    /// for one optional output.
    Receive {
        buffer_size: usize,
        want_header_size: bool,
        want_src_addr: bool,
        want_dest_addr: bool,
        want_protocol: bool,
    },
}

/// The state an interface is in after `req` succeeded in state `s`.
pub open spec fn state_after(s: NetworkState, req: Request) -> NetworkState {
    match req {
        Request::Start => NetworkState::Started,
        Request::Stop => NetworkState::Stopped,
        Request::Initialize { .. } => NetworkState::Initialized,
        Request::Shutdown => NetworkState::Stopped,
        _ => s,
    }
}

/// The binding of the packet network protocol.
///
/// It prepares each firmware call as a [`Request`], turns what the firmware
/// reported into a result, and mirrors the interface's state as the
/// completed calls leave it.
#[derive(Debug)]
pub struct SimpleNetwork {
    state: NetworkState,
}

impl SimpleNetwork {
    /// The mirrored state.
    pub closed spec fn state_view(&self) -> NetworkState {
        self.state
    }

    /// A binding for an interface known to be in `state`.
    pub fn new(state: NetworkState) -> (r: Self)
        ensures
            r.state_view() == state,
    {
        SimpleNetwork { state }
    }

    /// The interface's state as the completed calls left it.
    pub fn state(&self) -> (r: NetworkState)
        ensures
            r == self.state_view(),
    {
        self.state
    }

    /// Changes the interface from "Stopped" to "Started".
    pub fn start(&self) -> (r: Request)
        ensures
            r == Request::Start,
    {
        Request::Start
    }

    /// Changes the interface from "Started" to "Stopped".
    pub fn stop(&self) -> (r: Request)
        ensures
            r == Request::Stop,
    {
        Request::Stop
    }

    /// Allocates the interface's buffers, optionally with extra room.
    pub fn initialize(&self, extra_rx_buffer_size: Option<usize>, extra_tx_buffer_size: Option<usize>) -> (r: Request)
        ensures
            r == (Request::Initialize {
                extra_rx_buffer_size: spec_size_to_wire(extra_rx_buffer_size),
                extra_tx_buffer_size: spec_size_to_wire(extra_tx_buffer_size),
            }),
    {
        Request::Initialize {
            extra_rx_buffer_size: size_to_wire(extra_rx_buffer_size),
            extra_tx_buffer_size: size_to_wire(extra_tx_buffer_size),
        }
    }

    /// Resets the adapter with the parameters of the last `initialize`.
    pub fn reset(&self, extended_verification: bool) -> (r: Request)
        ensures
            r == (Request::Reset { extended_verification }),
    {
        Request::Reset { extended_verification }
    }

    /// Leaves the adapter safe for another driver to initialize.
    pub fn shutdown(&self) -> (r: Request)
        ensures
            r == Request::Shutdown,
    {
        Request::Shutdown
    }

    /// Manages the receive filters. The count and the list must come
    /// together, agree, and fit the filter table; otherwise the arguments
    /// are rejected and no call is made.
    pub fn receive_filters(
        &self,
        enable: u32,
        disable: u32,
        reset_mcast_filter: bool,
        mcast_filter_count: Option<usize>,
        mcast_filter: Option<&[MacAddress]>,
    ) -> (r: Result<Request>)
        ensures
            r is Ok <==> match (mcast_filter_count, mcast_filter) {
                (None, None) => true,
                (Some(n), Some(l)) => n == l@.len() && n <= MAX_MCAST_FILTERS,
                _ => false,
            },
            r is Err ==> r == Err::<Request, Error>(Error::InvalidArgument),
            r is Ok ==> (r->Ok_0 matches Request::ReceiveFilters {
                enable: e,
                disable: d,
                reset_mcast_filter: z,
                mcast_filter_count: c,
                mcast_filter: f,
            } && e == enable && d == disable && z == reset_mcast_filter && c == spec_size_to_wire(
                mcast_filter_count,
            ) && (f is Some <==> mcast_filter is Some) && (f is Some ==> f->Some_0@
                == mcast_filter->Some_0@)),
    {
        match (mcast_filter_count, mcast_filter) {
            (None, None) => Ok(Request::ReceiveFilters {
                enable,
                disable,
                reset_mcast_filter,
                mcast_filter_count: 0,
                mcast_filter: None,
            }),
            (Some(n), Some(l)) => {
                if n != l.len() || n > MAX_MCAST_FILTERS {
                    return Err(Error::InvalidArgument);
                }
                Ok(Request::ReceiveFilters {
                    enable,
                    disable,
                    reset_mcast_filter,
                    mcast_filter_count: n,
                    mcast_filter: Some(copy_addresses(l)),
                })
            },
            _ => Err(Error::InvalidArgument),
        }
    }

    /// Modifies or resets the current station address.
    pub fn station_address(&self, reset: bool, new: Option<&MacAddress>) -> (r: Request)
        ensures
            r == (Request::StationAddress {
                reset,
                new: match new {
                    Some(a) => Some(*a),
                    None => None,
                },
            }),
    {
        let new = match new {
            Some(a) => Some(*a),
            None => None,
        };
        Request::StationAddress { reset, new }
    }

    /// Resets the interface's statistics; no table is passed.
    pub fn reset_statistics(&self) -> (r: Request)
        ensures
            r == (Request::Statistics { reset: true, stats_size: 0 }),
    {
        Request::Statistics { reset: true, stats_size: 0 }
    }

    /// Collects the interface's statistics into a zeroed table of the
    /// firmware's size, which is returned beside the call.
    pub fn collect_statistics(&self) -> (r: (Request, NetworkStats))
        ensures
            r.0 == (Request::Statistics { reset: false, stats_size: STATS_TABLE_SIZE }),
            r.1.counters() == Seq::new(STATS_COUNTERS as nat, |i: int| 0u64),
    {
        (Request::Statistics { reset: false, stats_size: STATS_TABLE_SIZE }, NetworkStats::zeroed())
    }

    /// The statistics, if the firmware reported success on filling `table`.
    pub fn complete_collect_statistics(&self, status: Status, table: NetworkStats) -> (r: Result<
        NetworkStats,
    >)
        ensures
            r == status_result(status, table),
    {
        from_status_with_value(status, table)
    }

    /// Converts a multicast IP address to a multicast hardware address.
    pub fn mcast_ip_to_mac(&self, ipv6: bool, ip: IpAddress) -> (r: Request)
        ensures
            r == (Request::McastIpToMac { ipv6, ip }),
    {
        Request::McastIpToMac { ipv6, ip }
    }

    /// The hardware address, if the firmware reported success on filling
    /// `mac`.
    pub fn complete_mcast_ip_to_mac(&self, status: Status, mac: MacAddress) -> (r: Result<MacAddress>)
        ensures
            r == status_result(status, mac),
    {
        from_status_with_value(status, mac)
    }

    /// Reads from the attached NVRAM into `buffer`, from `offset` on; the
    /// size passed is the buffer's own length.
    pub fn read_nv_data(&self, offset: usize, buffer: &[u8]) -> (r: Request)
        ensures
            r == (Request::NvData { read_write: true, offset, buffer_size: buffer@.len() as usize }),
    {
        Request::NvData { read_write: true, offset, buffer_size: buffer.len() }
    }

    /// Writes `buffer` to the attached NVRAM at `offset`; the size passed is
    /// the buffer's own length.
    pub fn write_nv_data(&self, offset: usize, buffer: &[u8]) -> (r: Request)
        ensures
            r == (Request::NvData { read_write: false, offset, buffer_size: buffer@.len() as usize }),
    {
        Request::NvData { read_write: false, offset, buffer_size: buffer.len() }
    }

    /// Reads the interrupt status alone.
    pub fn get_interrupt_status(&self) -> (r: Request)
        ensures
            r == (Request::GetStatus { interrupt_status: true, tx_buf: false }),
    {
        Request::GetStatus { interrupt_status: true, tx_buf: false }
    }

    /// The interrupt status, if the firmware reported success on filling
    /// `bits`.
    pub fn complete_get_interrupt_status(&self, status: Status, bits: u32) -> (r: Result<
        InterruptStatus,
    >)
        ensures
            r is Ok <==> !status.is_error(),
            r is Err ==> r == Err::<InterruptStatus, Error>(Error::Firmware(status)),
            r matches Ok(s) ==> s.bits_view() == bits,
    {
        from_status_with_value(status, InterruptStatus::from_bits(bits))
    }

    /// Reads the recycled transmit buffer alone.
    pub fn get_recycled_transmit_buffer_status(&self) -> (r: Request)
        ensures
            r == (Request::GetStatus { interrupt_status: false, tx_buf: true }),
    {
        Request::GetStatus { interrupt_status: false, tx_buf: true }
    }

    /// The address of the recycled transmit buffer, `None` for the null
    /// address, if the firmware reported success.
    pub fn complete_get_recycled_transmit_buffer_status(&self, status: Status, tx_buf: usize) -> (r:
        Result<Option<usize>>)
        ensures
            r == status_result(status, spec_addr_from_wire(tx_buf)),
    {
        from_status_with_value(status, addr_from_wire(tx_buf))
    }

    /// Queues a packet: `buffer` holds the payload after `header_size`
    /// bytes of media header, and the size passed is their sum. A sum that
    /// does not fit a `usize` is rejected before any call.
    pub fn transmit(
        &self,
        header_size: usize,
        buffer: &[u8],
        src_addr: Option<&MacAddress>,
        dest_addr: Option<&MacAddress>,
        protocol: Option<&u16>,
    ) -> (r: Result<Request>)
        ensures
            r is Ok <==> buffer@.len() + header_size <= usize::MAX,
            r is Err ==> r == Err::<Request, Error>(Error::InvalidArgument),
            r is Ok ==> r == Ok::<Request, Error>(
                Request::Transmit {
                    header_size,
                    buffer_size: (buffer@.len() + header_size) as usize,
                    src_addr: match src_addr {
                        Some(a) => Some(*a),
                        None => None,
                    },
                    dest_addr: match dest_addr {
                        Some(a) => Some(*a),
                        None => None,
                    },
                    protocol: match protocol {
                        Some(p) => Some(*p),
                        None => None,
                    },
                },
            ),
    {
        if buffer.len() > usize::MAX - header_size {
            return Err(Error::InvalidArgument);
        }
        let src_addr = match src_addr {
            Some(a) => Some(*a),
            None => None,
        };
        let dest_addr = match dest_addr {
            Some(a) => Some(*a),
            None => None,
        };
        let protocol = match protocol {
            Some(p) => Some(*p),
            None => None,
        };
        Ok(
            Request::Transmit {
                header_size,
                buffer_size: buffer.len() + header_size,
                src_addr,
                dest_addr,
                protocol,
            },
        )
    }

    /// Receives a packet into `buffer`; the size passed is the buffer's own
    /// length, and each flag asks for one optional output.
    pub fn receive(
        &self,
        buffer: &[u8],
        want_header_size: bool,
        want_src_addr: bool,
        want_dest_addr: bool,
        want_protocol: bool,
    ) -> (r: Request)
        ensures
            r == (Request::Receive {
                buffer_size: buffer@.len() as usize,
                want_header_size,
                want_src_addr,
                want_dest_addr,
                want_protocol,
            }),
    {
        Request::Receive {
            buffer_size: buffer.len(),
            want_header_size,
            want_src_addr,
            want_dest_addr,
            want_protocol,
        }
    }

    /// The number of bytes received into a buffer of `capacity` bytes. An
    /// error status gives its error and the reported length is not read; a
    /// reported length beyond the buffer is refused.
    pub fn complete_receive(&self, status: Status, capacity: usize, received: usize) -> (r: Result<usize>)
        ensures
            is_error_code(status.0) ==> r == Err::<usize, Error>(Error::Firmware(status)),
            !is_error_code(status.0) && received > capacity ==> r == Err::<usize, Error>(
                Error::BadLength,
            ),
            !is_error_code(status.0) && received <= capacity ==> r == Ok::<usize, Error>(received),
    {
        from_status(status)?;
        if received > capacity {
            Err(Error::BadLength)
        } else {
            Ok(received)
        }
    }

    /// Completes a call that reports nothing but a status, and moves the
    /// mirrored state as a successful call moves the interface.
    pub fn complete(&mut self, req: &Request, status: Status) -> (r: Result<()>)
        ensures
            r == status_result(status, ()),
            final(self).state_view() == if status_result(status, ()) is Ok {
                state_after(old(self).state_view(), *req)
            } else {
                old(self).state_view()
            },
    {
        let r = from_status(status);
        if r.is_ok() {
            self.state = match req {
                Request::Start => NetworkState::Started,
                Request::Stop => NetworkState::Stopped,
                Request::Initialize { .. } => NetworkState::Initialized,
                Request::Shutdown => NetworkState::Stopped,
                _ => self.state,
            };
        }
        r
    }
}

/// A copy of a list of addresses.
fn copy_addresses(l: &[MacAddress]) -> (r: Vec<MacAddress>)
    ensures
        r@ == l@,
{
    let mut v: Vec<MacAddress> = Vec::new();
    let mut i: usize = 0;
    while i < l.len()
        invariant
            i <= l@.len(),
            v@ == l@.subrange(0, i as int),
        decreases l@.len() - i,
    {
        v.push(l[i]);
        i = i + 1;
        assert(v@ =~= l@.subrange(0, i as int));
    }
    assert(v@ =~= l@);
    v
}

} // verus!
