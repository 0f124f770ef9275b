use etherparse::{Ipv4HeaderSlice, TcpHeaderSlice};
use tcp_core::tcp::{
    Connection, Ipv4Template, ReceiveSequenceSpace, SegmentHeader, SendSequenceSpace, State,
    TcpError, TcpTemplate,
};

const PEER: [u8; 4] = [10, 0, 0, 2];
const LOCAL: [u8; 4] = [10, 0, 0, 1];

fn syn_segment(seq: u32) -> SegmentHeader {
    SegmentHeader {
        src: PEER,
        dst: LOCAL,
        src_port: 5000,
        dst_port: 80,
        seq,
        ackn: 0,
        wnd: 512,
        syn: true,
        ack: false,
        fin: false,
        rst: false,
    }
}

fn plain_segment(seq: u32, ackn: u32, ack: bool, fin: bool) -> SegmentHeader {
    SegmentHeader {
        src: PEER,
        dst: LOCAL,
        src_port: 5000,
        dst_port: 80,
        seq,
        ackn,
        wnd: 512,
        syn: false,
        ack,
        fin,
        rst: false,
    }
}

/// A hand-built connection for boundary tests, with chosen sequence spaces.
fn conn_in(state: State, una: u32, nxt: u32, rcv_nxt: u32, rcv_wnd: u16) -> Connection {
    Connection {
        state,
        send: SendSequenceSpace {
            una,
            nxt,
            wnd: 512,
            up: false,
            wl1: 0,
            wl2: 0,
            iss: 0,
        },
        recv: ReceiveSequenceSpace {
            nxt: rcv_nxt,
            wnd: rcv_wnd,
            up: false,
            irs: 0,
        },
        ip: Ipv4Template {
            ttl: 64,
            src: LOCAL,
            dst: PEER,
        },
        tcph: TcpTemplate {
            src_port: 80,
            dst_port: 5000,
            seq: 0,
            ackn: 0,
            wnd: 1024,
            syn: false,
            ack: true,
            fin: false,
            rst: false,
        },
    }
}

fn parse(bytes: &[u8]) -> (etherparse::Ipv4Header, etherparse::TcpHeader) {
    let ip = Ipv4HeaderSlice::from_slice(bytes).expect("valid IPv4 header");
    let ip_len = ip.slice().len();
    let tcp = TcpHeaderSlice::from_slice(&bytes[ip_len..]).expect("valid TCP header");
    (ip.to_header(), tcp.to_header())
}

#[test]
fn accept_without_syn_creates_nothing() {
    let seg = plain_segment(1000, 0, true, false);
    assert!(Connection::accept(&seg, &[]).is_none());

    let mut fin_only = plain_segment(1000, 0, false, true);
    fin_only.wnd = 100;
    assert!(Connection::accept(&fin_only, &[]).is_none());
}

#[test]
fn accept_syn_sends_syn_ack() {
    let a = Connection::accept(&syn_segment(1000), &[]).expect("SYN creates a connection");
    assert_eq!(a.conn.state, State::SynRcvd);
    assert_eq!(a.conn.send.iss, 0);
    assert_eq!(a.conn.send.una, 0);
    assert_eq!(a.conn.send.nxt, 1);
    assert_eq!(a.conn.recv.irs, 1000);
    assert_eq!(a.conn.recv.nxt, 1001);
    assert_eq!(a.conn.recv.wnd, 1024);
    assert_eq!(a.conn.send.wnd, 512);

    assert_eq!(a.syn_ack.len(), 40);
    let (ip, tcp) = parse(&a.syn_ack);
    assert_eq!(ip.protocol, 6);
    assert_eq!(ip.source, LOCAL);
    assert_eq!(ip.destination, PEER);
    assert!(tcp.syn);
    assert!(tcp.ack);
    assert!(!tcp.fin);
    assert!(!tcp.rst);
    assert_eq!(tcp.source_port, 80);
    assert_eq!(tcp.destination_port, 5000);
    assert_eq!(tcp.sequence_number, 0);
    assert_eq!(tcp.acknowledgment_number, 1001);
    assert_eq!(tcp.window_size, 1024);
}

#[test]
fn accept_syn_at_sequence_wrap() {
    let a = Connection::accept(&syn_segment(u32::MAX), &[]).expect("SYN creates a connection");
    assert_eq!(a.conn.recv.irs, u32::MAX);
    assert_eq!(a.conn.recv.nxt, 0);
    let (_, tcp) = parse(&a.syn_ack);
    assert_eq!(tcp.acknowledgment_number, 0);
}

#[test]
fn handshake_ack_establishes_and_fin_follows() {
    let mut c = Connection::accept(&syn_segment(1000), &[])
        .expect("SYN creates a connection")
        .conn;
    let r = c.on_packet(&plain_segment(1001, 1, true, false), &[]);
    assert_eq!(r.status, Ok(()));
    assert_eq!(c.state, State::FinWait1);
    assert_eq!(c.send.una, 1);
    assert_eq!(c.send.nxt, 2);
    assert_eq!(c.recv.nxt, 1001);
    assert_eq!(r.replies.len(), 1);
    let (_, tcp) = parse(&r.replies[0]);
    assert!(tcp.fin);
    assert!(tcp.ack);
    assert!(!tcp.syn);
    assert_eq!(tcp.sequence_number, 1);
    assert_eq!(tcp.acknowledgment_number, 1001);
}

#[test]
fn fin_with_acceptable_ack_completes_close() {
    let mut c = Connection::accept(&syn_segment(1000), &[])
        .expect("SYN creates a connection")
        .conn;
    c.on_packet(&plain_segment(1001, 1, true, false), &[]);
    assert_eq!(c.state, State::FinWait1);

    let r = c.on_packet(&plain_segment(1001, 2, true, true), &[]);
    assert_eq!(r.status, Ok(()));
    assert_eq!(c.state, State::TimeWait);
    assert_eq!(c.send.una, 2);
    assert_eq!(c.recv.nxt, 1002);
    assert_eq!(r.replies.len(), 1);
    let (_, tcp) = parse(&r.replies[0]);
    assert!(tcp.ack);
    assert!(!tcp.fin);
    assert!(!tcp.syn);
    assert_eq!(tcp.sequence_number, 2);
    assert_eq!(tcp.acknowledgment_number, 1002);
}

#[test]
fn separate_ack_reaches_fin_wait_2() {
    let mut c = Connection::accept(&syn_segment(1000), &[])
        .expect("SYN creates a connection")
        .conn;
    c.on_packet(&plain_segment(1001, 1, true, false), &[]);

    let r = c.on_packet(&plain_segment(1001, 2, true, false), &[]);
    assert_eq!(r.status, Ok(()));
    assert_eq!(c.state, State::FinWait2);
    assert_eq!(c.send.una, 2);
    assert!(r.replies.is_empty());

    // A FIN whose acknowledgment number repeats what is already acknowledged
    // carries no acceptable ack: the receive position still advances past
    // the accepted segment, but no transition happens and nothing is sent.
    let r = c.on_packet(&plain_segment(1001, 2, true, true), &[]);
    assert_eq!(r.status, Ok(()));
    assert_eq!(c.state, State::FinWait2);
    assert_eq!(c.recv.nxt, 1002);
    assert!(r.replies.is_empty());
}

#[test]
fn redelivered_segments_change_nothing() {
    let mut c = Connection::accept(&syn_segment(1000), &[])
        .expect("SYN creates a connection")
        .conn;
    c.on_packet(&plain_segment(1001, 1, true, false), &[]);
    c.on_packet(&plain_segment(1001, 2, true, false), &[]);
    assert_eq!(c.state, State::FinWait2);
    let before = c;

    // The handshake ACK again: its acknowledgment number is already covered.
    let r = c.on_packet(&plain_segment(1001, 1, true, false), &[]);
    assert_eq!(r.status, Ok(()));
    assert!(r.replies.is_empty());
    assert_eq!(c, before);

    // The original SYN again: every sequence number lies below recv.nxt.
    let r = c.on_packet(&syn_segment(1000), &[]);
    assert_eq!(r.status, Ok(()));
    assert!(r.replies.is_empty());
    assert_eq!(c, before);
}

#[test]
fn zero_window_accepts_only_exact_sequence_number() {
    let mut c = conn_in(State::Estab, 5, 10, 500, 0);
    // Any other sequence number is dropped: the acceptable ack is never seen.
    let r = c.on_packet(&plain_segment(501, 7, true, false), &[]);
    assert_eq!(r.status, Ok(()));
    assert_eq!(c.state, State::Estab);
    assert_eq!(c.send.una, 5);
    assert!(r.replies.is_empty());

    // At exactly recv.nxt the segment is processed: the ack takes effect and
    // the established connection begins its close.
    let r = c.on_packet(&plain_segment(500, 7, true, false), &[]);
    assert_eq!(r.status, Ok(()));
    assert_eq!(c.state, State::FinWait1);
    assert_eq!(c.send.una, 7);
    assert_eq!(r.replies.len(), 1);
}

#[test]
fn straddling_segment_advances_past_whole_length() {
    let mut c = conn_in(State::Estab, 5, 10, 1005, 100);
    // Ten payload bytes starting below the window, ending inside it.
    let data = [0u8; 10];
    let r = c.on_packet(&plain_segment(1000, 0, false, false), &data);
    assert_eq!(r.status, Ok(()));
    assert_eq!(c.recv.nxt, 1010);
    assert_eq!(c.state, State::Estab);
    assert!(r.replies.is_empty());

    // With FIN set the virtual byte counts toward the advance too.
    let mut c = conn_in(State::Estab, 5, 10, 1005, 100);
    let r = c.on_packet(&plain_segment(1000, 0, false, true), &data);
    assert_eq!(r.status, Ok(()));
    assert_eq!(c.recv.nxt, 1011);
    assert!(r.replies.is_empty());
}

#[test]
fn payload_in_synchronized_state_is_an_error() {
    let mut c = conn_in(State::Estab, 5, 10, 1005, 100);
    let r = c.on_packet(&plain_segment(1005, 7, true, false), &[1, 2, 3]);
    assert_eq!(r.status, Err(TcpError::UnexpectedData));
    assert_eq!(c.send.una, 7);
    assert_eq!(c.recv.nxt, 1008);
    assert!(r.replies.is_empty());
}

#[test]
fn fin_outside_fin_wait_2_is_an_error() {
    let mut c = conn_in(State::Estab, 5, 10, 1005, 100);
    let r = c.on_packet(&plain_segment(1005, 7, true, true), &[]);
    assert_eq!(r.status, Err(TcpError::UnexpectedFin));
    // The close out of Estab was already under way: its FIN was produced.
    assert_eq!(r.replies.len(), 1);
    assert_eq!(c.state, State::FinWait1);
}

#[test]
fn write_truncates_to_one_datagram() {
    let mut c = Connection::accept(&syn_segment(1000), &[])
        .expect("SYN creates a connection")
        .conn;
    let payload = vec![0xabu8; 2000];
    let bytes = c.write(&payload);
    assert_eq!(bytes.len(), 1500);
    assert_eq!(c.send.nxt, 1 + 1460);
    let (ip, tcp) = parse(&bytes);
    assert_eq!(ip.payload_len, 1480);
    assert_eq!(tcp.sequence_number, 1);
}

#[test]
fn write_carries_payload_bytes() {
    let mut c = Connection::accept(&syn_segment(1000), &[])
        .expect("SYN creates a connection")
        .conn;
    let payload = [1u8, 2, 3, 4];
    let bytes = c.write(&payload);
    assert_eq!(bytes.len(), 44);
    assert_eq!(&bytes[40..], &payload);
    assert_eq!(c.send.nxt, 5);
}

#[test]
fn send_rst_marks_the_segment() {
    let mut c = Connection::accept(&syn_segment(1000), &[])
        .expect("SYN creates a connection")
        .conn;
    let bytes = c.send_rst();
    assert_eq!(bytes.len(), 40);
    let (_, tcp) = parse(&bytes);
    assert!(tcp.rst);
    assert!(!tcp.syn);
}
