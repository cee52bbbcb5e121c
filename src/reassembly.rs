//! The wire reassembler: cuts the datagrams of a dump reply into complete
//! netlink messages, and sees where the dump ends.
use vstd::prelude::*;

use crate::bytes::{le_u16, le_u32, read_u16, read_u32};

verus! {

/// Bytes in a netlink message header (`struct nlmsghdr`).
pub const NLMSG_HDRLEN: usize = 16;

/// Netlink control message types; types below `NLMSG_MIN_TYPE` are control
/// messages, which carry no data of a dump.
pub const NLMSG_ERROR: u16 = 2;
pub const NLMSG_DONE: u16 = 3;
pub const NLMSG_MIN_TYPE: u16 = 16;

/// How the bytes read so far leave the dump.
#[derive(Clone, Copy, Debug, PartialEq, Eq)]
pub enum DumpEnd {
    /// More is to come: read another datagram.
    Open,
    /// The end-of-dump message arrived.
    Done,
    /// The kernel answered with this error code.
    Kernel(i32),
    /// A message declares a length shorter than a message header.
    Framing,
}

/// What scanning a buffer gives: the complete data messages in order, the
/// bytes kept for the next read, and how the dump stands.
pub struct Scan {
    pub msgs: Seq<Seq<u8>>,
    pub rest: Seq<u8>,
    pub end: DumpEnd,
}

/// The error code of an error message `m` (0 for an acknowledgement).
pub open spec fn error_code(m: Seq<u8>) -> i32 {
    if m.len() < NLMSG_HDRLEN + 4 {
        0
    } else {
        le_u32(m, NLMSG_HDRLEN as int) as i32
    }
}

/// Scans `b`, the bytes not yet consumed. Each message starts with its
/// length (header included) and type. A buffer too short for the next
/// message waits for more bytes; a length of zero discards the rest of the
/// buffer; the end-of-dump message and an error message end the scan, an
/// acknowledgement and other control messages are passed over.
pub open spec fn scan(b: Seq<u8>) -> Scan
    decreases b.len(),
{
    if b.len() < 4 {
        Scan { msgs: Seq::empty(), rest: b, end: DumpEnd::Open }
    } else {
        let len = le_u32(b, 0) as int;
        if len == 0 {
            Scan { msgs: Seq::empty(), rest: Seq::empty(), end: DumpEnd::Open }
        } else if len < NLMSG_HDRLEN {
            Scan { msgs: Seq::empty(), rest: Seq::empty(), end: DumpEnd::Framing }
        } else if len > b.len() {
            Scan { msgs: Seq::empty(), rest: b, end: DumpEnd::Open }
        } else {
            let m = b.subrange(0, len);
            let ty = le_u16(b, 4);
            let after = scan(b.subrange(len, b.len() as int));
            if ty == NLMSG_DONE {
                Scan { msgs: Seq::empty(), rest: Seq::empty(), end: DumpEnd::Done }
            } else if ty == NLMSG_ERROR && error_code(m) != 0 {
                Scan { msgs: Seq::empty(), rest: Seq::empty(), end: DumpEnd::Kernel(error_code(m)) }
            } else if ty < NLMSG_MIN_TYPE {
                after
            } else {
                Scan { msgs: seq![m] + after.msgs, ..after }
            }
        }
    }
}

/// The messages a batch holds, as byte sequences.
pub open spec fn batch_view(v: Seq<Vec<u8>>) -> Seq<Seq<u8>> {
    v.map_values(|m: Vec<u8>| m@)
}

/// The complete data messages that one read gave, and how the dump stands.
#[derive(Debug)]
pub struct Batch {
    pub messages: Vec<Vec<u8>>,
    pub end: DumpEnd,
}

/// Reassembles the messages of one dump reply from the datagrams read.
#[derive(Debug)]
pub struct Reassembler {
    /// The start of a message that the next datagram completes.
    pub pending: Vec<u8>,
}

fn copy_range(b: &Vec<u8>, start: usize, end: usize) -> (r: Vec<u8>)
    requires
        start <= end <= b@.len(),
    ensures
        r@ == b@.subrange(start as int, end as int),
{
    let mut r: Vec<u8> = Vec::new();
    let mut i = start;
    while i < end
        invariant
            start <= i <= end <= b@.len(),
            r@ == b@.subrange(start as int, i as int),
        decreases end - i,
    {
        r.push(b[i]);
        assert(r@ =~= b@.subrange(start as int, i + 1));
        i = i + 1;
    }
    r
}

impl Reassembler {
    /// A reassembler that has read nothing yet.
    pub fn new() -> (r: Self)
        ensures
            r.pending@ == Seq::<u8>::empty(),
    {
        Reassembler { pending: Vec::new() }
    }

    /// Takes in the datagram `data` and hands out the data messages that are
    /// now complete, in order.
    pub fn feed(&mut self, data: &[u8]) -> (r: Batch)
        ensures
            batch_view(r.messages@) == scan(old(self).pending@ + data@).msgs,
            r.end == scan(old(self).pending@ + data@).end,
            final(self).pending@ == scan(old(self).pending@ + data@).rest,
    {
        let ghost all = self.pending@ + data@;
        let mut buf: Vec<u8> = Vec::new();
        buf.append(&mut self.pending);
        buf.extend_from_slice(data);
        assert(buf@ =~= all);
        let n = buf.len();
        let mut out: Vec<Vec<u8>> = Vec::new();
        let mut off: usize = 0;
        assert(all.subrange(0, n as int) =~= all);
        loop
            invariant
                n == buf@.len(),
                buf@ == all,
                all == old(self).pending@ + data@,
                off <= n,
                scan(all).msgs == batch_view(out@) + scan(all.subrange(off as int, n as int)).msgs,
                scan(all).rest == scan(all.subrange(off as int, n as int)).rest,
                scan(all).end == scan(all.subrange(off as int, n as int)).end,
            decreases n - off,
        {
            let ghost b = all.subrange(off as int, n as int);
            assert(batch_view(out@) + Seq::<Seq<u8>>::empty() =~= batch_view(out@));
            if n - off < 4 {
                self.pending = copy_range(&buf, off, n);
                return Batch { messages: out, end: DumpEnd::Open };
            }
            let len = read_u32(buf.as_slice(), off);
            assert(len == le_u32(b, 0));
            if len == 0 {
                self.pending = Vec::new();
                return Batch { messages: out, end: DumpEnd::Open };
            }
            if (len as usize) < NLMSG_HDRLEN {
                self.pending = Vec::new();
                return Batch { messages: out, end: DumpEnd::Framing };
            }
            if (len as usize) > n - off {
                self.pending = copy_range(&buf, off, n);
                return Batch { messages: out, end: DumpEnd::Open };
            }
            let end = off + len as usize;
            let ty = read_u16(buf.as_slice(), off + 4);
            assert(ty == le_u16(b, 4));
            assert(b.subrange(len as int, b.len() as int) =~= all.subrange(end as int, n as int));
            let ghost m = b.subrange(0, len as int);
            assert(m =~= all.subrange(off as int, end as int));
            if ty == NLMSG_DONE {
                self.pending = Vec::new();
                return Batch { messages: out, end: DumpEnd::Done };
            }
            if ty == NLMSG_ERROR && (len as usize) >= NLMSG_HDRLEN + 4 {
                let raw = read_u32(buf.as_slice(), off + NLMSG_HDRLEN);
                assert(raw == le_u32(m, NLMSG_HDRLEN as int));
                let code = #[verifier::truncate] (raw as i32);
                if code != 0 {
                    self.pending = Vec::new();
                    return Batch { messages: out, end: DumpEnd::Kernel(code) };
                }
            }
            if ty >= NLMSG_MIN_TYPE {
                let msg = copy_range(&buf, off, end);
                let ghost before = out@;
                out.push(msg);
                assert(batch_view(out@) =~= batch_view(before).push(m));
                assert(seq![m] + scan(all.subrange(end as int, n as int)).msgs =~= seq![m].add(
                    scan(all.subrange(end as int, n as int)).msgs,
                ));
                assert(batch_view(before) + (seq![m] + scan(all.subrange(end as int, n as int)).msgs)
                    =~= batch_view(out@) + scan(all.subrange(end as int, n as int)).msgs);
            }
            off = end;
        }
    }
}

} // verus!
