use vstd::prelude::*;

use crate::logins::actor::{buffer_check, BufferUpkeep, BUFFER_SIZE};

verus! {

/// The little-endian number in the eight bytes of `b` from `at`.
pub open spec fn le_u64(b: Seq<u8>, at: int) -> int {
    b[at] + 0x100 * b[at + 1] + 0x1_0000 * b[at + 2] + 0x100_0000 * b[at + 3]
        + 0x1_0000_0000 * b[at + 4] + 0x100_0000_0000 * b[at + 5] + 0x1_0000_0000_0000 * b[at + 6]
        + 0x100_0000_0000_0000 * b[at + 7]
}

/// Reading packets from byte `c` of `b`: while eight bytes remain, they give
/// the length of the next packet, which must lie in 1..=BUFFER_SIZE (else
/// the walk stops with that length); a packet whose bytes are all there is
/// taken and the walk goes on after it; otherwise, or with fewer than eight
/// bytes left, the walk stops. Gives the packets, the position reached (past
/// the last length read, if one was read and its packet is incomplete) and
/// the refused length, if any.
pub open spec fn frames(b: Seq<u8>, c: int) -> (Seq<Seq<u8>>, int, Option<u64>)
    decreases b.len() - c,
{
    if c < 0 || b.len() - c < 8 {
        (seq![], c, None)
    } else {
        let l = le_u64(b, c);
        if !(1 <= l <= BUFFER_SIZE) {
            (seq![], c + 8, Some(l as u64))
        } else if l <= b.len() - (c + 8) {
            let rest = frames(b, c + 8 + l);
            (seq![b.subrange(c + 8, c + 8 + l)] + rest.0, rest.1, rest.2)
        } else {
            (seq![], c + 8, None)
        }
    }
}

/// The eight-byte little-endian length word of a packet of at most
/// `BUFFER_SIZE` bytes.
pub open spec fn length_word(l: int) -> Seq<u8> {
    seq![(l % 0x100) as u8, (l / 0x100) as u8, 0u8, 0u8, 0u8, 0u8, 0u8, 0u8]
}

/// Packets as a sender lays them out: each after its length word.
pub open spec fn encode_packets(ps: Seq<Seq<u8>>) -> Seq<u8>
    decreases ps.len(),
{
    if ps.len() == 0 {
        seq![]
    } else {
        length_word(ps[0].len() as int) + ps[0] + encode_packets(ps.drop_first())
    }
}

/// Every packet has a length the reader accepts.
pub open spec fn packets_sendable(ps: Seq<Seq<u8>>) -> bool {
    forall|i: int| 0 <= i < ps.len() ==> 1 <= (#[trigger] ps[i]).len() <= BUFFER_SIZE
}

/// Reading back what a sender laid out, after any bytes already read, gives
/// the packets sent, in order, ends at the end of the bytes and refuses
/// nothing.
pub proof fn lemma_frames_read_back(pre: Seq<u8>, ps: Seq<Seq<u8>>)
    requires
        packets_sendable(ps),
    ensures
        frames(pre + encode_packets(ps), pre.len() as int) == (ps, (pre + encode_packets(ps)).len() as int, None::<u64>),
    decreases ps.len(),
{
    let b = pre + encode_packets(ps);
    let c = pre.len() as int;
    if ps.len() == 0 {
        assert(b.len() - c == 0);
    } else {
        let p = ps[0];
        let l = p.len() as int;
        assert(1 <= p.len() <= BUFFER_SIZE);
        let w = length_word(l);
        let rest = ps.drop_first();
        assert(packets_sendable(rest)) by {
            assert forall|i: int| 0 <= i < rest.len() implies 1 <= (#[trigger] rest[i]).len() <= BUFFER_SIZE by {
                assert(rest[i] == ps[i + 1]);
            }
        }
        let pre2 = pre + w + p;
        assert(b =~= pre2 + encode_packets(rest));
        assert(forall|i: int| 0 <= i < 8 ==> b[c + i] == w[i]);
        assert(le_u64(b, c) == l) by {
            assert(b[c] == (l % 0x100) as u8);
            assert(b[c + 1] == (l / 0x100) as u8);
            assert(l % 0x100 + 0x100 * (l / 0x100) == l) by (nonlinear_arith)
                requires 0 <= l;
            assert((l / 0x100) < 0x100) by (nonlinear_arith)
                requires 0 <= l <= 1536;
        }
        assert(b.subrange(c + 8, c + 8 + l) =~= p);
        lemma_frames_read_back(pre2, rest);
        assert(pre2.len() == c + 8 + l);
        assert(seq![p] + rest =~= ps);
    }
}

/// The receive buffer of an IPC connection: its bytes and the read cursor.
pub struct IpcBuffer {
    pub bytes: Vec<u8>,
    pub cursor: usize,
}

/// What one read from an IPC connection gives: the packets to handle, in
/// order, and whether the connection must now close.
pub struct Received {
    pub packets: Vec<Vec<u8>>,
    pub closed: bool,
}

/// The buffer after a read: the packets are taken, the cursor steps back
/// eight bytes from where the walk stopped (a refused length, or a cursor
/// that cannot step back, closes the connection), and the buffer is emptied
/// or compacted as `buffer_check` says for a buffer of `capacity` bytes.
pub open spec fn spec_after_read(b: Seq<u8>, c: int, capacity: usize) -> Option<(Seq<u8>, int)> {
    let (pkts, reached, refused) = frames(b, c);
    if refused is Some || reached < 8 {
        None
    } else {
        let back = reached - 8;
        if back == b.len() {
            Some((seq![], 0))
        } else if capacity > 500000 && b.len() - back <= 100000 {
            Some((b.subrange(back, b.len() as int), 0))
        } else {
            Some((b, back))
        }
    }
}

/// The little-endian number in the eight bytes of `b` from `at`.
pub fn read_le_u64(b: &Vec<u8>, at: usize) -> (r: u64)
    requires
        at + 8 <= b@.len(),
    ensures
        r == le_u64(b@, at as int),
{
    assert(at + 8 <= b.len());
    let v: u64 = (b[at] as u64) + 0x100 * (b[at + 1] as u64) + 0x1_0000 * (b[at + 2] as u64)
        + 0x100_0000 * (b[at + 3] as u64) + 0x1_0000_0000 * (b[at + 4] as u64)
        + 0x100_0000_0000 * (b[at + 5] as u64) + 0x1_0000_0000_0000 * (b[at + 6] as u64)
        + 0x100_0000_0000_0000 * (b[at + 7] as u64);
    v
}

impl IpcBuffer {
    pub fn new() -> (r: IpcBuffer)
        ensures
            r.bytes@.len() == 0,
            r.cursor == 0,
    {
        IpcBuffer { bytes: Vec::new(), cursor: 0 }
    }

    /// Takes in `incoming` bytes read from the connection and splits off
    /// every complete packet; see `frames` and `spec_after_read`.
    pub fn receive(&mut self, incoming: &[u8], capacity: usize) -> (r: Received)
        requires
            old(self).cursor <= old(self).bytes@.len(),
            old(self).bytes@.len() + incoming@.len() <= usize::MAX,
        ensures
            r.packets@.map_values(|p: Vec<u8>| p@) == frames(old(self).bytes@ + incoming@, old(self).cursor as int).0,
            r.closed <==> spec_after_read(old(self).bytes@ + incoming@, old(self).cursor as int, capacity) is None,
            !r.closed ==> spec_after_read(old(self).bytes@ + incoming@, old(self).cursor as int, capacity)
                == Some((final(self).bytes@, final(self).cursor as int)),
    {
        let ghost b = old(self).bytes@ + incoming@;
        let ghost start = old(self).cursor as int;
        let mut k: usize = 0;
        while k < incoming.len()
            invariant
                k <= incoming@.len(),
                self.bytes@ == old(self).bytes@ + incoming@.subrange(0, k as int),
                self.cursor == old(self).cursor,
                old(self).bytes@.len() + incoming@.len() <= usize::MAX,
            decreases incoming@.len() - k,
        {
            self.bytes.push(incoming[k]);
            assert(self.bytes@ =~= old(self).bytes@ + incoming@.subrange(0, k as int + 1));
            k += 1;
        }
        assert(self.bytes@ =~= b);
        let mut packets: Vec<Vec<u8>> = Vec::new();
        let mut c: usize = self.cursor;
        let mut refused = false;
        loop
            invariant_except_break
                self.bytes@ == b,
                start <= c <= b.len(),
                !refused,
                frames(b, start).0 == packets@.map_values(|p: Vec<u8>| p@) + frames(b, c as int).0,
                frames(b, start).1 == frames(b, c as int).1,
                frames(b, start).2 == frames(b, c as int).2,
            ensures
                self.bytes@ == b,
                frames(b, start).0 == packets@.map_values(|p: Vec<u8>| p@),
                refused <==> frames(b, start).2 is Some,
                c as int == frames(b, start).1,
                c <= b.len(),
            decreases b.len() - c,
        {
            if self.bytes.len() - c < 8 {
                assert(packets@.map_values(|p: Vec<u8>| p@) + seq![] =~= packets@.map_values(|p: Vec<u8>| p@));
                break;
            }
            let length = read_le_u64(&self.bytes, c);
            if !(1 <= length && length <= BUFFER_SIZE as u64) {
                refused = true;
                assert(packets@.map_values(|p: Vec<u8>| p@) + seq![] =~= packets@.map_values(|p: Vec<u8>| p@));
                c = c + 8;
                break;
            }
            if length > (self.bytes.len() - c - 8) as u64 {
                assert(packets@.map_values(|p: Vec<u8>| p@) + seq![] =~= packets@.map_values(|p: Vec<u8>| p@));
                c = c + 8;
                break;
            }
            let from = c + 8;
            let to = from + length as usize;
            let mut packet: Vec<u8> = Vec::new();
            let mut j: usize = from;
            while j < to
                invariant
                    from <= j <= to <= b.len(),
                    self.bytes@ == b,
                    packet@ == b.subrange(from as int, j as int),
                decreases to - j,
            {
                packet.push(self.bytes[j]);
                assert(packet@ =~= b.subrange(from as int, j as int + 1));
                j += 1;
            }
            let ghost before = packets@.map_values(|p: Vec<u8>| p@);
            packets.push(packet);
            assert(packets@.map_values(|p: Vec<u8>| p@) =~= before + seq![b.subrange(from as int, to as int)]);
            assert(frames(b, c as int).0 =~= seq![b.subrange(from as int, to as int)] + frames(b, to as int).0);
            c = to;
        }
        if refused || c < 8 {
            return Received { packets, closed: true };
        }
        let back = c - 8;
        match buffer_check(back, self.bytes.len(), capacity) {
            BufferUpkeep::Clear { .. } => {
                self.bytes = Vec::new();
                self.cursor = 0;
            },
            BufferUpkeep::Compact => {
                let mut rest: Vec<u8> = Vec::new();
                let mut j: usize = back;
                while j < self.bytes.len()
                    invariant
                        back <= j <= b.len(),
                        self.bytes@ == b,
                        rest@ == b.subrange(back as int, j as int),
                    decreases b.len() - j,
                {
                    rest.push(self.bytes[j]);
                    assert(rest@ =~= b.subrange(back as int, j as int + 1));
                    j += 1;
                }
                self.bytes = rest;
                self.cursor = 0;
            },
            BufferUpkeep::Keep => {
                self.cursor = back;
            },
        }
        Received { packets, closed: false }
    }
}

} // verus!
