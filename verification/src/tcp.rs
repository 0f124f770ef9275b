//! The connection state machine: sequence-space bookkeeping, the RFC 793
//! segment-acceptance test, the transitions across the handshake and the
//! server-initiated teardown, and the construction of every outbound segment.

use crate::seqnum::{is_between_wrapped, lemma_seq_add_u32, seq_add, seq_between};
use vstd::prelude::*;
use vstd::slice::slice_subrange;
use vstd::wrapping::u32_specs;

verus! {

/// Largest IPv4 datagram the virtual interface carries.
pub const MTU: usize = 1500;

/// Payload bytes that fit in one datagram beside the two 20-byte headers.
pub const MAX_PAYLOAD: usize = MTU - 40;

/// The protocol states a connection moves through.  A `Listen`/`Closed`
/// state is implicit in the external dispatcher, which creates a connection
/// only in response to an inbound SYN.
#[derive(Clone, Copy, Debug, PartialEq, Eq, Structural)]
pub enum State {
    SynRcvd,
    Estab,
    FinWait1,
    FinWait2,
    TimeWait,
}

impl State {
    /// Whether the three-way handshake has completed in this state.
    pub open spec fn spec_is_synchronized(self) -> bool {
        !(self is SynRcvd)
    }

    /// Every state but `SynRcvd` has a synchronized sequence space.
    pub fn is_synchronized(&self) -> (r: bool)
        ensures
            r == self.spec_is_synchronized(),
    {
        match *self {
            State::SynRcvd => false,
            State::Estab | State::FinWait1 | State::FinWait2 | State::TimeWait => true,
        }
    }
}

/// Send-side sequence bookkeeping (RFC 793 §3.2).
#[derive(Clone, Copy, Debug, PartialEq, Eq, Structural)]
pub struct SendSequenceSpace {
    /// Oldest sequence number sent but not yet acknowledged.
    pub una: u32,
    /// Next sequence number to use for transmission.
    pub nxt: u32,
    /// Window most recently advertised by the peer.
    pub wnd: u16,
    /// Urgent flag (kept for completeness; never consulted).
    pub up: bool,
    /// Sequence number of the segment used for the last window update.
    pub wl1: usize,
    /// Acknowledgment number of the segment used for the last window update.
    pub wl2: usize,
    /// Initial send sequence number chosen at connection creation.
    pub iss: u32,
}

/// Receive-side sequence bookkeeping (RFC 793 §3.2).
#[derive(Clone, Copy, Debug, PartialEq, Eq, Structural)]
pub struct ReceiveSequenceSpace {
    /// Next sequence number expected from the peer.
    pub nxt: u32,
    /// Window this side advertises to the peer.
    pub wnd: u16,
    /// Urgent flag (kept for completeness; never consulted).
    pub up: bool,
    /// Initial receive sequence number, copied from the peer's SYN.
    pub irs: u32,
}

/// The constant part of the IPv4 header reused for every outbound segment of
/// one connection: addresses fixed at creation, hop limit fixed by policy.
/// The per-segment payload length is supplied at serialization time.
#[derive(Clone, Copy, Debug, PartialEq, Eq)]
pub struct Ipv4Template {
    /// Time-to-live stamped on every outbound datagram.
    pub ttl: u8,
    /// Our address (the peer's destination).
    pub src: [u8; 4],
    /// The peer's address.
    pub dst: [u8; 4],
}

/// The TCP header reused for every outbound segment of one connection.
/// Ports are fixed at creation; sequence and acknowledgment numbers are
/// stamped from the sequence spaces on each write; SYN and FIN are consumed
/// (cleared) by the write that transmits them.
#[derive(Clone, Copy, Debug, PartialEq, Eq, Structural)]
pub struct TcpTemplate {
    pub src_port: u16,
    pub dst_port: u16,
    /// Sequence number of the last stamped segment.
    pub seq: u32,
    /// Acknowledgment number of the last stamped segment.
    pub ackn: u32,
    /// Window advertised to the peer.
    pub wnd: u16,
    pub syn: bool,
    pub ack: bool,
    pub fin: bool,
    pub rst: bool,
}

/// The fields of an inbound IPv4/TCP segment that the connection logic
/// reads, as plain values.  The dispatcher decodes the wire bytes and fills
/// this in; the payload travels separately.
#[derive(Clone, Copy, Debug, PartialEq, Eq)]
pub struct SegmentHeader {
    /// Sender's address.
    pub src: [u8; 4],
    /// Receiver's (our) address.
    pub dst: [u8; 4],
    pub src_port: u16,
    pub dst_port: u16,
    /// Sequence number of the segment's first byte.
    pub seq: u32,
    /// Acknowledgment number; meaningful only when `ack` is set.
    pub ackn: u32,
    /// Window the sender advertises.
    pub wnd: u16,
    pub syn: bool,
    pub ack: bool,
    pub fin: bool,
    pub rst: bool,
}

/// A protocol-state inconsistency that the current close policy does not
/// support, surfaced as an explicit result rather than a process abort.
#[derive(Clone, Copy, Debug, PartialEq, Eq, Structural)]
pub enum TcpError {
    /// The peer sent payload bytes in a synchronized state; duplex data
    /// exchange is outside the supported scope.
    UnexpectedData,
    /// The peer sent FIN in a state other than `FinWait2`; peer-initiated
    /// and simultaneous close are outside the supported scope.
    UnexpectedFin,
}

/// The serialized form of one outbound segment: IPv4 header, then TCP header
/// with its checksum over the IPv4 pseudo-header and the payload, then the
/// payload.  The byte layout is the codec's; it is a function of the header
/// templates and the payload alone.
pub uninterp spec fn segment_bytes(ip: Ipv4Template, tcp: TcpTemplate, payload: Seq<u8>) -> Seq<u8>;

/// Relies on `etherparse`: `TcpHeader::new` (data offset 5, all flags clear),
/// `Ipv4Header::new` (header length 20, no options), `TcpHeader::calc_checksum_ipv4`
/// (defined whenever 20 + payload length fits in `u16`), and the two `write`
/// methods, which serialize exactly 20 header bytes each into the buffer.
/// The result depends on the templates and the payload alone.
#[verifier::external_body]
fn encode_segment(ip: &Ipv4Template, tcp: &TcpTemplate, payload: &[u8], ip_payload_len: u16) -> (r:
    Vec<u8>)
    requires
        payload@.len() <= MAX_PAYLOAD,
        ip_payload_len == 20 + payload@.len(),
    ensures
        r@ == segment_bytes(*ip, *tcp, payload@),
        r@.len() == 40 + payload@.len(),
{
    let mut t = etherparse::TcpHeader::new(tcp.src_port, tcp.dst_port, tcp.seq, tcp.wnd);
    t.acknowledgment_number = tcp.ackn;
    t.syn = tcp.syn;
    t.ack = tcp.ack;
    t.fin = tcp.fin;
    t.rst = tcp.rst;
    let proto = etherparse::IpTrafficClass::Tcp;
    let ih = etherparse::Ipv4Header::new(ip_payload_len, ip.ttl, proto, ip.src, ip.dst);
    t.checksum = t.calc_checksum_ipv4(&ih, payload).expect("20 + payload length fits in u16");
    let mut buf: Vec<u8> = Vec::new();
    ih.write(&mut buf).expect("all fields are in range and a Vec never fails");
    t.write(&mut buf).expect("a Vec never fails");
    buf.extend_from_slice(payload);
    buf
}

/// One side of a TCP session: the protocol state, the two sequence spaces,
/// and the header templates for outbound segments.
#[derive(Clone, Copy, Debug, PartialEq, Eq)]
pub struct Connection {
    pub state: State,
    pub send: SendSequenceSpace,
    pub recv: ReceiveSequenceSpace,
    pub ip: Ipv4Template,
    pub tcph: TcpTemplate,
}

/// What transmitting one segment does (RFC 793 §3.9 SEND, restricted to the
/// supported scope): the current send and receive positions are stamped into
/// the TCP template, the payload is truncated to what fits in one datagram,
/// the segment is serialized, and `send.nxt` advances by the payload bytes
/// written plus one for each of SYN and FIN, both of which are consumed.
pub open spec fn spec_write(c: Connection, payload: Seq<u8>) -> (Connection, Seq<u8>) {
    let stamped = TcpTemplate { seq: c.send.nxt, ackn: c.recv.nxt, ..c.tcph };
    let n = if payload.len() <= MAX_PAYLOAD {
        payload.len()
    } else {
        MAX_PAYLOAD as nat
    };
    let bytes = segment_bytes(c.ip, stamped, payload.subrange(0, n as int));
    let adv = n + (if stamped.syn {
        1nat
    } else {
        0nat
    }) + (if stamped.fin {
        1nat
    } else {
        0nat
    });
    (
        Connection {
            send: SendSequenceSpace { nxt: seq_add(c.send.nxt, adv), ..c.send },
            tcph: TcpTemplate { syn: false, fin: false, ..stamped },
            ..c
        },
        bytes,
    )
}

impl Connection {
    /// Serialize one outbound segment from the current state and advance the
    /// send sequence space, consuming the SYN and FIN flags if set.  The
    /// caller owns transmission of the returned bytes.
    pub fn write(&mut self, payload: &[u8]) -> (r: Vec<u8>)
        ensures
            ({
                let s = spec_write(*old(self), payload@);
                *final(self) == s.0 && r@ == s.1
            }),
    {
        self.tcph.seq = self.send.nxt;
        self.tcph.ackn = self.recv.nxt;
        let n: usize = if payload.len() <= MAX_PAYLOAD {
            payload.len()
        } else {
            MAX_PAYLOAD
        };
        let chunk: &[u8] = slice_subrange(payload, 0, n);
        let bytes = encode_segment(&self.ip, &self.tcph, chunk, (20 + n) as u16);
        let mut adv: u32 = n as u32;
        if self.tcph.syn {
            adv = adv + 1;
            self.tcph.syn = false;
        }
        if self.tcph.fin {
            adv = adv + 1;
            self.tcph.fin = false;
        }
        proof {
            lemma_seq_add_u32(old(self).send.nxt, adv);
        }
        self.send.nxt = self.send.nxt.wrapping_add(adv);
        bytes
    }

    /// Serialize a reset segment.  The template keeps the RST flag (nothing
    /// clears it), and the stamped numbers come from the sequence spaces as
    /// on every write.  The caller owns transmission; reset generation on
    /// protocol violations is otherwise an acknowledged gap.
    pub fn send_rst(&mut self) -> (r: Vec<u8>)
        ensures
            ({
                let s = spec_write(
                    Connection {
                        tcph: TcpTemplate { rst: true, seq: 0, ackn: 0, ..old(self).tcph },
                        ..*old(self)
                    },
                    Seq::<u8>::empty(),
                );
                *final(self) == s.0 && r@ == s.1
            }),
    {
        self.tcph.rst = true;
        self.tcph.seq = 0;
        self.tcph.ackn = 0;
        let none: Vec<u8> = Vec::new();
        let bytes = self.write(none.as_slice());
        bytes
    }
}

/// The connection a SYN segment from `seg` creates, before its SYN+ACK is
/// stamped and transmitted: initial send sequence number 0, an advertised
/// receive window of 1024 bytes, the peer's sequence number recorded as
/// `irs` and acknowledged up to `irs + 1` (the SYN occupies one number),
/// ports and addresses reversed into the outbound templates, and SYN+ACK
/// pending on the TCP template.
pub open spec fn spec_accept_conn(seg: SegmentHeader) -> Connection {
    Connection {
        state: State::SynRcvd,
        send: SendSequenceSpace {
            iss: 0,
            una: 0,
            nxt: 0,
            wnd: seg.wnd,
            up: false,
            wl1: 0,
            wl2: 0,
        },
        recv: ReceiveSequenceSpace {
            irs: seg.seq,
            nxt: u32_specs::wrapping_add(seg.seq, 1),
            wnd: 1024,
            up: false,
        },
        tcph: TcpTemplate {
            src_port: seg.dst_port,
            dst_port: seg.src_port,
            seq: 0,
            ackn: 0,
            wnd: 1024,
            syn: true,
            ack: true,
            fin: false,
            rst: false,
        },
        ip: Ipv4Template { ttl: 64, src: seg.dst, dst: seg.src },
    }
}

/// A freshly accepted connection together with the SYN+ACK segment that
/// answers the peer's SYN.  The caller owns transmission of the bytes.
#[derive(Debug)]
pub struct Accepted {
    pub conn: Connection,
    pub syn_ack: Vec<u8>,
}

impl Connection {
    /// Create a connection for an inbound segment believed to start a new
    /// session.  A segment without SYN creates nothing.  On SYN the result
    /// is the connection in state `SynRcvd` and exactly one outbound
    /// segment, a SYN+ACK whose acknowledgment number is the peer's
    /// sequence number plus one.
    pub fn accept(seg: &SegmentHeader, _data: &[u8]) -> (r: Option<Accepted>)
        ensures
            !seg.syn ==> r is None,
            seg.syn ==> (r matches Some(a) && {
                let s = spec_write(spec_accept_conn(*seg), Seq::<u8>::empty());
                &&& a.conn == s.0
                &&& a.syn_ack@ == s.1
                &&& a.conn.state is SynRcvd
                &&& a.conn.send.iss == 0
                &&& a.conn.send.una == 0
                &&& a.conn.send.nxt == 1
                &&& a.conn.recv.irs == seg.seq
                &&& a.conn.recv.nxt == u32_specs::wrapping_add(seg.seq, 1)
                &&& a.syn_ack@ == segment_bytes(
                    (Ipv4Template { ttl: 64, src: seg.dst, dst: seg.src }),
                    (TcpTemplate {
                        src_port: seg.dst_port,
                        dst_port: seg.src_port,
                        seq: 0,
                        ackn: u32_specs::wrapping_add(seg.seq, 1),
                        wnd: 1024,
                        syn: true,
                        ack: true,
                        fin: false,
                        rst: false,
                    }),
                    Seq::<u8>::empty(),
                )
            }),
    {
        if !seg.syn {
            // Only a SYN opens a connection; the dispatcher must not retry.
            return None;
        }
        let iss: u32 = 0;
        let wnd: u16 = 1024;
        let mut c = Connection {
            state: State::SynRcvd,
            send: SendSequenceSpace {
                iss,
                una: iss,
                nxt: iss,
                wnd: seg.wnd,
                up: false,
                wl1: 0,
                wl2: 0,
            },
            recv: ReceiveSequenceSpace {
                irs: seg.seq,
                nxt: seg.seq.wrapping_add(1),
                wnd,
                up: false,
            },
            tcph: TcpTemplate {
                src_port: seg.dst_port,
                dst_port: seg.src_port,
                seq: iss,
                ackn: 0,
                wnd,
                syn: true,
                ack: true,
                fin: false,
                rst: false,
            },
            ip: Ipv4Template { ttl: 64, src: seg.dst, dst: seg.src },
        };
        let none: Vec<u8> = Vec::new();
        let syn_ack = c.write(none.as_slice());
        proof {
            assert(Seq::<u8>::empty().subrange(0, 0) =~= Seq::<u8>::empty());
        }
        Some(Accepted { conn: c, syn_ack })
    }
}

/// The sequence-number length of a segment: its payload bytes, plus one
/// virtual byte for SYN and one for FIN.
pub open spec fn spec_seg_len(data_len: nat, syn: bool, fin: bool) -> nat {
    data_len + (if syn {
        1nat
    } else {
        0nat
    }) + (if fin {
        1nat
    } else {
        0nat
    })
}

/// The RFC 793 §3.3 acceptance test.  A zero-length segment is acceptable
/// with a zero window only at exactly `rcv.nxt`, and otherwise whenever its
/// sequence number falls in the open circular interval just below the
/// window.  A segment with length is never acceptable into a zero window,
/// and otherwise is acceptable when its first or its last sequence number
/// falls in that interval.
pub open spec fn spec_acceptable(rcv: ReceiveSequenceSpace, seq: u32, slen: nat) -> bool {
    let lo = u32_specs::wrapping_sub(rcv.nxt, 1);
    let wend = u32_specs::wrapping_add(rcv.nxt, rcv.wnd as u32);
    if slen == 0 {
        if rcv.wnd == 0 {
            seq == rcv.nxt
        } else {
            seq_between(lo, seq, wend)
        }
    } else {
        rcv.wnd != 0 && (seq_between(lo, seq, wend) || seq_between(
            lo,
            seq_add(seq, (slen - 1) as nat),
            wend,
        ))
    }
}

/// An acknowledgment is acceptable when it lies in the circular interval
/// `(send.una, send.nxt + 1)`: it acknowledges at least one new sequence
/// number and nothing beyond what was sent.
pub open spec fn spec_ack_valid(una: u32, ackn: u32, nxt: u32) -> bool {
    seq_between(una, ackn, u32_specs::wrapping_add(nxt, 1))
}

/// The tail of per-segment processing, after acknowledgments are applied:
/// leave `FinWait1` for `FinWait2` once both the SYN and the FIN sequence
/// numbers are acknowledged, then handle the peer's FIN, which is supported
/// only in `FinWait2`, where it is answered with a final ACK.
pub open spec fn spec_fin_step(c: Connection, fin: bool, sent: Seq<Seq<u8>>) -> (Connection, Seq<
    Seq<u8>,
>, Result<(), TcpError>) {
    let c1 = if c.state is FinWait1 && c.send.una == u32_specs::wrapping_add(c.send.iss, 2) {
        Connection { state: State::FinWait2, ..c }
    } else {
        c
    };
    if fin {
        if c1.state is FinWait2 {
            let wr = spec_write(
                Connection { tcph: TcpTemplate { fin: false, ..c1.tcph }, ..c1 },
                Seq::<u8>::empty(),
            );
            (Connection { state: State::TimeWait, ..wr.0 }, sent.push(wr.1), Ok(()))
        } else {
            (c1, sent, Err(TcpError::UnexpectedFin))
        }
    } else {
        (c1, sent, Ok(()))
    }
}

/// What processing one inbound segment does: the acceptance test, the
/// unconditional advance of `recv.nxt` past an accepted segment, the
/// handshake completion out of `SynRcvd`, the acknowledgment update in the
/// synchronized states with the immediate server-initiated FIN out of
/// `Estab`, and the close steps of `spec_fin_step`.  The returned sequence
/// holds the outbound segments in transmission order.
pub open spec fn spec_on_packet(c: Connection, seg: SegmentHeader, data_len: nat) -> (Connection, Seq<
    Seq<u8>,
>, Result<(), TcpError>) {
    let slen = spec_seg_len(data_len, seg.syn, seg.fin);
    if !spec_acceptable(c.recv, seg.seq, slen) {
        // Not acceptable: silently dropped, nothing changes.
        (c, Seq::empty(), Ok(()))
    } else {
        let c1 = Connection {
            recv: ReceiveSequenceSpace { nxt: seq_add(seg.seq, slen), ..c.recv },
            ..c
        };
        if !seg.ack {
            (c1, Seq::empty(), Ok(()))
        } else {
            let c2 = if c1.state is SynRcvd && spec_ack_valid(c1.send.una, seg.ackn, c1.send.nxt) {
                Connection { state: State::Estab, ..c1 }
            } else {
                c1
            };
            if c2.state is Estab || c2.state is FinWait1 || c2.state is FinWait2 {
                if !spec_ack_valid(c2.send.una, seg.ackn, c2.send.nxt) {
                    // Unacceptable acknowledgment: dropped without further action.
                    (c2, Seq::empty(), Ok(()))
                } else {
                    let c3 = Connection {
                        send: SendSequenceSpace { una: seg.ackn, ..c2.send },
                        ..c2
                    };
                    if data_len != 0 {
                        (c3, Seq::empty(), Err(TcpError::UnexpectedData))
                    } else if c3.state is Estab {
                        // First moment in Estab: begin the active close.
                        let wr = spec_write(
                            Connection { tcph: TcpTemplate { fin: true, ..c3.tcph }, ..c3 },
                            Seq::<u8>::empty(),
                        );
                        spec_fin_step(
                            Connection { state: State::FinWait1, ..wr.0 },
                            seg.fin,
                            seq![wr.1],
                        )
                    } else {
                        spec_fin_step(c3, seg.fin, Seq::empty())
                    }
                }
            } else {
                spec_fin_step(c2, seg.fin, Seq::empty())
            }
        }
    }
}

/// What processing one inbound segment produced: the outbound segments to
/// transmit, in order, and either success or the explicit error that the
/// unsupported situation maps to.
#[derive(Debug)]
pub struct PacketResult {
    pub replies: Vec<Vec<u8>>,
    pub status: Result<(), TcpError>,
}

impl Connection {
    /// Process one inbound segment belonging to this connection, in arrival
    /// order: exactly the transition `spec_on_packet` describes.  The caller
    /// owns transmission of the returned segments.
    #[verifier::rlimit(100)]
    pub fn on_packet(&mut self, seg: &SegmentHeader, data: &[u8]) -> (r: PacketResult)
        requires
            data@.len() + 2 <= u32::MAX,
        ensures
            ({
                let s = spec_on_packet(*old(self), *seg, data@.len());
                &&& *final(self) == s.0
                &&& r.replies@.len() == s.1.len()
                &&& forall|i: int|
                    0 <= i < s.1.len() ==> (#[trigger] r.replies@[i])@ == s.1[i]
                &&& r.status == s.2
            }),
    {
        let mut replies: Vec<Vec<u8>> = Vec::new();

        // Acceptance test (RFC 793 §3.3) over the segment's first and last
        // sequence numbers.
        let seqn = seg.seq;
        let lo = self.recv.nxt.wrapping_sub(1);
        let wend = self.recv.nxt.wrapping_add(self.recv.wnd as u32);
        let mut slen: u32 = data.len() as u32;
        if seg.fin {
            slen = slen + 1;
        }
        if seg.syn {
            slen = slen + 1;
        }
        proof {
            assert(slen as nat == spec_seg_len(data@.len(), seg.syn, seg.fin));
        }
        let acceptable: bool = if slen == 0 {
            if self.recv.wnd == 0 {
                seqn == self.recv.nxt
            } else {
                is_between_wrapped(lo, seqn, wend)
            }
        } else {
            if self.recv.wnd == 0 {
                false
            } else {
                proof {
                    lemma_seq_add_u32(seqn, (slen - 1) as u32);
                }
                is_between_wrapped(lo, seqn, wend) || is_between_wrapped(
                    lo,
                    seqn.wrapping_add(slen - 1),
                    wend,
                )
            }
        };
        if !acceptable {
            // Silently dropped; a corrective ACK is an acknowledged gap.
            return PacketResult { replies, status: Ok(()) };
        }
        proof {
            lemma_seq_add_u32(seqn, slen);
        }
        self.recv.nxt = seqn.wrapping_add(slen);

        if !seg.ack {
            return PacketResult { replies, status: Ok(()) };
        }
        let ackn = seg.ackn;

        if matches!(self.state, State::SynRcvd) {
            if is_between_wrapped(self.send.una, ackn, self.send.nxt.wrapping_add(1)) {
                // The peer acknowledged our SYN: the handshake is complete.
                self.state = State::Estab;
            }
        }

        if matches!(self.state, State::Estab | State::FinWait1 | State::FinWait2) {
            if !is_between_wrapped(self.send.una, ackn, self.send.nxt.wrapping_add(1)) {
                return PacketResult { replies, status: Ok(()) };
            }
            self.send.una = ackn;
            if data.len() > 0 {
                // Duplex data exchange is outside the supported scope.
                return PacketResult { replies, status: Err(TcpError::UnexpectedData) };
            }
            if matches!(self.state, State::Estab) {
                // Immediately begin the server-initiated close.
                self.tcph.fin = true;
                let none: Vec<u8> = Vec::new();
                let fin_seg = self.write(none.as_slice());
                replies.push(fin_seg);
                self.state = State::FinWait1;
            }
        }

        if matches!(self.state, State::FinWait1) && self.send.una == self.send.iss.wrapping_add(2) {
            // Both our SYN and our FIN are acknowledged.
            self.state = State::FinWait2;
        }

        proof {
            assert(Seq::<u8>::empty().subrange(0, 0) =~= Seq::<u8>::empty());
        }
        if seg.fin {
            if matches!(self.state, State::FinWait2) {
                // The peer's FIN: answer with a final ACK and quiesce.
                self.tcph.fin = false;
                let none: Vec<u8> = Vec::new();
                let ack_seg = self.write(none.as_slice());
                replies.push(ack_seg);
                self.state = State::TimeWait;
                PacketResult { replies, status: Ok(()) }
            } else {
                PacketResult { replies, status: Err(TcpError::UnexpectedFin) }
            }
        } else {
            PacketResult { replies, status: Ok(()) }
        }
    }
}

/// A segment that fails the acceptance test is dropped silently: processing
/// it leaves the connection exactly as it was, transmits nothing, and
/// reports success.  In particular a duplicate whose sequence numbers all
/// lie below `recv.nxt` cannot regress `recv.nxt` or retrigger a transition.
pub proof fn lemma_unacceptable_segment_ignored(c: Connection, seg: SegmentHeader, data_len: nat)
    requires
        !spec_acceptable(c.recv, seg.seq, spec_seg_len(data_len, seg.syn, seg.fin)),
    ensures
        spec_on_packet(c, seg, data_len).0 == c,
        spec_on_packet(c, seg, data_len).1 == Seq::<Seq<u8>>::empty(),
        spec_on_packet(c, seg, data_len).2 == Ok::<(), TcpError>(()),
{
}

/// An acceptable segment whose acknowledgment number is stale (already
/// acknowledged) or beyond what was sent changes nothing but the receive
/// position: `send.una` does not regress, no transition retriggers, nothing
/// is transmitted.  In `SynRcvd` and `TimeWait` this holds of segments
/// without FIN; a FIN there is the unsupported-transition error.
pub proof fn lemma_stale_ack_ignored(c: Connection, seg: SegmentHeader, data_len: nat)
    requires
        c.state is Estab || c.state is FinWait1 || c.state is FinWait2 || !seg.fin,
        spec_acceptable(c.recv, seg.seq, spec_seg_len(data_len, seg.syn, seg.fin)),
        seg.ack,
        !spec_ack_valid(c.send.una, seg.ackn, c.send.nxt),
    ensures
        spec_on_packet(c, seg, data_len).0.state == c.state,
        spec_on_packet(c, seg, data_len).0.send == c.send,
        spec_on_packet(c, seg, data_len).0.tcph == c.tcph,
        spec_on_packet(c, seg, data_len).0.recv == (ReceiveSequenceSpace {
            nxt: seq_add(seg.seq, spec_seg_len(data_len, seg.syn, seg.fin)),
            ..c.recv
        }),
        spec_on_packet(c, seg, data_len).1 == Seq::<Seq<u8>>::empty(),
        spec_on_packet(c, seg, data_len).2 == Ok::<(), TcpError>(()),
{
}

/// With a zero receive window, a zero-length segment is acceptable exactly
/// when its sequence number is `recv.nxt`, and no segment with length is
/// ever acceptable.
pub proof fn lemma_zero_window_acceptance(rcv: ReceiveSequenceSpace, seq: u32)
    requires
        rcv.wnd == 0,
    ensures
        spec_acceptable(rcv, seq, 0) <==> seq == rcv.nxt,
        forall|slen: nat| slen > 0 ==> !#[trigger] spec_acceptable(rcv, seq, slen),
{
}

/// A window-straddling segment — one whose last sequence number falls in the
/// advertised window even if its first does not — is accepted, and the
/// receive position advances past the full segment length, the virtual
/// SYN and FIN bytes included.
pub proof fn lemma_straddling_segment_accepted(c: Connection, seg: SegmentHeader, data_len: nat)
    requires
        spec_seg_len(data_len, seg.syn, seg.fin) > 0,
        c.recv.wnd != 0,
        seq_between(
            u32_specs::wrapping_sub(c.recv.nxt, 1),
            seq_add(seg.seq, (spec_seg_len(data_len, seg.syn, seg.fin) - 1) as nat),
            u32_specs::wrapping_add(c.recv.nxt, c.recv.wnd as u32),
        ),
    ensures
        spec_acceptable(c.recv, seg.seq, spec_seg_len(data_len, seg.syn, seg.fin)),
        spec_on_packet(c, seg, data_len).0.recv.nxt == seq_add(
            seg.seq,
            spec_seg_len(data_len, seg.syn, seg.fin),
        ),
{
}

} // verus!
