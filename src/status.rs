//! The shared status register and the connection context kept beside it.
//!
//! Only the event handlers set or clear flags and copy connection details;
//! the controller only reads them. Each change is one call on an exclusively
//! borrowed value, so a reader never sees a flag without the details that
//! were written together with it.
use vstd::prelude::*;
use crate::format::repeat;
use crate::types::StatusBit;

verus! {

/// What the status register and the connection context hold.
pub ghost struct ConnectionState {
    /// The flags that are set.
    pub flags: Set<StatusBit>,
    /// SSID of the access point the device is connected to.
    pub ssid: Seq<u8>,
    /// BSSID of that access point; all zero when there is none.
    pub bssid: Seq<u8>,
    /// Gateway address of the last IP lease.
    pub gateway_ip: u32,
    /// Packets received in the last ping run.
    pub ping_packets_received: u32,
}

impl ConnectionState {
    /// The state at start-up and after every reset: no flag, no SSID, a zero
    /// BSSID, and zero counters.
    pub open spec fn cleared() -> ConnectionState {
        ConnectionState {
            flags: Set::empty(),
            ssid: Seq::empty(),
            bssid: repeat(0u8, 6),
            gateway_ip: 0,
            ping_packets_received: 0,
        }
    }
}

/// The mask of a flag in the register.
pub open spec fn bit_mask(bit: StatusBit) -> u32 {
    1u32 << (bit.spec_code() as u32)
}

proof fn lemma_status_bits(s: u32, i: u32, j: u32)
    requires
        i < 32,
        j < 32,
    ensures
        ((s | (1u32 << i)) & (1u32 << j) != 0) == (i == j || s & (1u32 << j) != 0),
        ((s & !(1u32 << i)) & (1u32 << j) != 0) == (i != j && s & (1u32 << j) != 0),
        0u32 & (1u32 << j) == 0,
{
    assert(((s | (1u32 << i)) & (1u32 << j) != 0) == (i == j || s & (1u32 << j) != 0))
        by (bit_vector)
        requires
            i < 32,
            j < 32,
    ;
    assert(((s & !(1u32 << i)) & (1u32 << j) != 0) == (i != j && s & (1u32 << j) != 0))
        by (bit_vector)
        requires
            i < 32,
            j < 32,
    ;
    assert(0u32 & (1u32 << j) == 0) by (bit_vector);
}

proof fn lemma_status_bit_range(b: StatusBit)
    ensures
        0 <= b.spec_code() <= 8,
{
}

proof fn lemma_status_bit_distinct(a: StatusBit, b: StatusBit)
    ensures
        (a.spec_code() == b.spec_code()) == (a == b),
{
}

/// The status register and the connection context, which one lock guards.
pub struct SimpleLinkGlobalsInner {
    connection_ssid_len: u8,
    connection_ssid_buf: [u8; 32],
    connection_bssid: [u8; 6],
    ping_packets_rcvd: u32,
    gateway_ip: u32,
    status: u32,
}

impl View for SimpleLinkGlobalsInner {
    type V = ConnectionState;

    closed spec fn view(&self) -> ConnectionState {
        let len: int = if self.connection_ssid_len <= 32 {
            self.connection_ssid_len as int
        } else {
            32
        };
        ConnectionState {
            flags: Set::new(|b: StatusBit| self.status & bit_mask(b) != 0),
            ssid: self.connection_ssid_buf@.subrange(0, len),
            bssid: self.connection_bssid@,
            gateway_ip: self.gateway_ip,
            ping_packets_received: self.ping_packets_rcvd,
        }
    }
}

impl SimpleLinkGlobalsInner {
    /// A cleared register.
    pub fn new() -> (r: Self)
        ensures
            r@ == ConnectionState::cleared(),
    {
        let r = SimpleLinkGlobalsInner {
            connection_ssid_len: 0,
            connection_ssid_buf: [0u8; 32],
            connection_bssid: [0u8; 6],
            ping_packets_rcvd: 0,
            gateway_ip: 0,
            status: 0,
        };
        proof {
            assert forall|b: StatusBit| !(#[trigger] r@.flags.contains(b)) by {
                lemma_status_bit_range(b);
                lemma_status_bits(0, 0, b.spec_code() as u32);
            }
            assert(r@.flags =~= Set::empty());
            assert(r@.ssid =~= Seq::empty());
            assert(r@.bssid =~= repeat(0u8, 6));
        }
        r
    }

    /// Clears every flag and all of the connection context.
    pub fn clear_all(&mut self)
        ensures
            final(self)@ == ConnectionState::cleared(),
    {
        self.clear_connection_ssid();
        self.clear_connection_bssid();
        self.ping_packets_rcvd = 0;
        self.gateway_ip = 0;
        self.status = 0;
        proof {
            assert forall|b: StatusBit| !(#[trigger] self@.flags.contains(b)) by {
                lemma_status_bit_range(b);
                lemma_status_bits(0, 0, b.spec_code() as u32);
            }
            assert(self@.flags =~= Set::empty());
        }
    }

    /// The SSID of the current connection.
    pub fn connection_ssid(&self) -> (r: Vec<u8>)
        ensures
            r@ == self@.ssid,
    {
        let len: usize = if self.connection_ssid_len <= 32 {
            self.connection_ssid_len as usize
        } else {
            32
        };
        let mut v: Vec<u8> = Vec::new();
        let mut i: usize = 0;
        while i < len
            invariant
                i <= len <= 32,
                len == (if self.connection_ssid_len <= 32 {
                    self.connection_ssid_len as int
                } else {
                    32
                }),
                v@ == self.connection_ssid_buf@.subrange(0, i as int),
            decreases len - i,
        {
            v.push(self.connection_ssid_buf[i]);
            i = i + 1;
            assert(v@ =~= self.connection_ssid_buf@.subrange(0, i as int));
        }
        v
    }

    /// The BSSID of the current connection.
    pub fn connection_bssid(&self) -> (r: [u8; 6])
        ensures
            r@ == self@.bssid,
    {
        self.connection_bssid
    }

    /// Forgets the SSID.
    pub fn clear_connection_ssid(&mut self)
        ensures
            final(self)@ == (ConnectionState { ssid: Seq::empty(), ..old(self)@ }),
    {
        self.connection_ssid_len = 0;
        self.connection_ssid_buf = [0u8; 32];
        proof {
            assert(self@.ssid =~= Seq::empty());
            assert(self@.flags =~= old(self)@.flags);
        }
    }

    /// Sets the BSSID to zero.
    pub fn clear_connection_bssid(&mut self)
        ensures
            final(self)@ == (ConnectionState { bssid: repeat(0u8, 6), ..old(self)@ }),
    {
        self.connection_bssid = [0u8; 6];
        proof {
            assert(self@.bssid =~= repeat(0u8, 6));
            assert(self@.flags =~= old(self)@.flags);
            assert(self@.ssid =~= old(self)@.ssid);
        }
    }

    /// Records the SSID (its first `ssid_len` bytes, at most 32) and the
    /// BSSID of a new connection.
    pub fn set_connection(&mut self, ssid_len: u8, ssid_name: [u8; 32], bssid: [u8; 6])
        ensures
            final(self)@ == (ConnectionState {
                ssid: ssid_name@.subrange(0, if ssid_len <= 32 { ssid_len as int } else { 32 }),
                bssid: bssid@,
                ..old(self)@
            }),
    {
        self.connection_ssid_len = ssid_len;
        self.connection_ssid_buf = ssid_name;
        self.connection_bssid = bssid;
        proof {
            assert(self@.flags =~= old(self)@.flags);
        }
    }

    /// Records the gateway address of an IP lease.
    pub fn set_gateway_ip(&mut self, ip: u32)
        ensures
            final(self)@ == (ConnectionState { gateway_ip: ip, ..old(self)@ }),
    {
        self.gateway_ip = ip;
        proof {
            assert(self@.flags =~= old(self)@.flags);
            assert(self@.ssid =~= old(self)@.ssid);
        }
    }

    /// Records the packet count of a finished ping run.
    pub fn set_ping_packets_received(&mut self, packets: u32)
        ensures
            final(self)@ == (ConnectionState { ping_packets_received: packets, ..old(self)@ }),
    {
        self.ping_packets_rcvd = packets;
        proof {
            assert(self@.flags =~= old(self)@.flags);
            assert(self@.ssid =~= old(self)@.ssid);
        }
    }

    /// The gateway address of the last IP lease.
    pub fn gateway_ip(&self) -> (r: u32)
        ensures
            r == self@.gateway_ip,
    {
        self.gateway_ip
    }

    /// The packet count of the last ping run.
    pub fn ping_packets_received(&self) -> (r: u32)
        ensures
            r == self@.ping_packets_received,
    {
        self.ping_packets_rcvd
    }

    /// Whether `status_bit` is set.
    pub fn get_status_bit(&self, status_bit: StatusBit) -> (r: bool)
        ensures
            r == self@.flags.contains(status_bit),
    {
        proof {
            lemma_status_bit_range(status_bit);
        }
        (self.status & (1u32 << (status_bit.code() as u32))) != 0
    }

    /// Sets `status_bit`, leaving the other flags and the context alone.
    pub fn set_status_bit(&mut self, status_bit: StatusBit)
        ensures
            final(self)@ == (ConnectionState {
                flags: old(self)@.flags.insert(status_bit),
                ..old(self)@
            }),
    {
        proof {
            lemma_status_bit_range(status_bit);
        }
        let ghost s = self.status;
        self.status = self.status | (1u32 << (status_bit.code() as u32));
        proof {
            assert forall|b: StatusBit| #[trigger]
                self@.flags.contains(b) == old(self)@.flags.insert(status_bit).contains(b) by {
                lemma_status_bit_range(b);
                lemma_status_bit_distinct(status_bit, b);
                lemma_status_bits(s, status_bit.spec_code() as u32, b.spec_code() as u32);
            }
            assert(self@.flags =~= old(self)@.flags.insert(status_bit));
            assert(self@.ssid =~= old(self)@.ssid);
        }
    }

    /// Clears `status_bit`, leaving the other flags and the context alone.
    pub fn clear_status_bit(&mut self, status_bit: StatusBit)
        ensures
            final(self)@ == (ConnectionState {
                flags: old(self)@.flags.remove(status_bit),
                ..old(self)@
            }),
    {
        proof {
            lemma_status_bit_range(status_bit);
        }
        let ghost s = self.status;
        self.status = self.status & !(1u32 << (status_bit.code() as u32));
        proof {
            assert forall|b: StatusBit| #[trigger]
                self@.flags.contains(b) == old(self)@.flags.remove(status_bit).contains(b) by {
                lemma_status_bit_range(b);
                lemma_status_bit_distinct(status_bit, b);
                lemma_status_bits(s, status_bit.spec_code() as u32, b.spec_code() as u32);
            }
            assert(self@.flags =~= old(self)@.flags.remove(status_bit));
            assert(self@.ssid =~= old(self)@.ssid);
        }
    }
}

} // verus!
