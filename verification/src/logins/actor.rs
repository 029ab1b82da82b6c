use vstd::prelude::*;

use crate::gametypes::error::AscendingError;
use crate::ipc::ipc_actor::le_u64;

verus! {

/// The largest packet, in bytes, a connection may announce.
pub const BUFFER_SIZE: usize = 1536;

/// Reading the length word of the next packet: with fewer than 8 unread
/// bytes there is none yet; else the word `word` is the packet's length,
/// which must lie in 1..=BUFFER_SIZE.
pub fn get_length(unread: usize, word: u64) -> (r: Result<Option<u64>, AscendingError>)
    ensures
        unread < 8 ==> r matches Ok(None),
        unread >= 8 && 1 <= word <= BUFFER_SIZE ==> (r matches Ok(Some(l)) && l == word),
        unread >= 8 && !(1 <= word <= BUFFER_SIZE) ==> (r matches Err(AscendingError::InvalidPacketSize { length, max })
            && length == word && max == BUFFER_SIZE),
{
    if unread >= 8 {
        if !(1 <= word && word <= BUFFER_SIZE as u64) {
            return Err(AscendingError::InvalidPacketSize { length: word, max: BUFFER_SIZE });
        }
        return Ok(Some(word));
    }
    Ok(None)
}

/// What to do with a connection's read buffer after its packets were read.
#[derive(Copy, Clone, Debug, PartialEq, Eq, Structural)]
pub enum BufferUpkeep {
    /// Nothing.
    Keep,
    /// Everything was read: empty it, and shrink it to 100000 bytes when
    /// `shrink`.
    Clear { shrink: bool },
    /// Move the unread bytes into a new buffer of just their size.
    Compact,
}

/// A read-out buffer is emptied, and shrunk when its capacity passed
/// 500000 bytes; a buffer with unread bytes is compacted when its capacity
/// passed 500000 and at most 100000 bytes are unread.
pub fn buffer_check(cursor: usize, length: usize, capacity: usize) -> (r: BufferUpkeep)
    requires
        cursor <= length,
    ensures
        r == (if cursor == length {
            BufferUpkeep::Clear { shrink: capacity > 500000 }
        } else if capacity > 500000 && length - cursor <= 100000 {
            BufferUpkeep::Compact
        } else {
            BufferUpkeep::Keep
        }),
{
    let unread = length - cursor;
    if cursor == length {
        BufferUpkeep::Clear { shrink: capacity > 500000 }
    } else if capacity > 500000 && unread <= 100000 {
        BufferUpkeep::Compact
    } else {
        BufferUpkeep::Keep
    }
}

/// The receive buffer of a login connection: its bytes and the read cursor.
pub struct LoginBuffer {
    pub bytes: Vec<u8>,
    pub cursor: usize,
}

/// What one read from a login connection gives.
#[derive(Debug)]
pub enum LoginRead {
    /// A whole packet; the buffer was tidied after it.
    Packet(Vec<u8>),
    /// No whole packet yet: read again.
    NeedMore,
    /// The connection must close: a refused length, or a cursor that cannot
    /// step back.
    Closed,
}

/// The outcome of reading from byte `c` of `b`: with eight bytes there, they
/// give the packet's length, which must lie in 1..=BUFFER_SIZE; a packet
/// whose bytes are all there is taken and the buffer tidied as
/// `buffer_check` says; otherwise the cursor steps back eight bytes from
/// where it stands (past the length word when one was read) to wait for
/// more.
pub open spec fn spec_login_read(b: Seq<u8>, c: int, capacity: usize) -> (Option<Option<Seq<u8>>>, Seq<u8>, int) {
    if b.len() - c >= 8 {
        let l = le_u64(b, c);
        if !(1 <= l <= BUFFER_SIZE) {
            (None, b, c + 8)
        } else if l <= b.len() - (c + 8) {
            let end = c + 8 + l;
            let packet = b.subrange(c + 8, end);
            if end == b.len() {
                (Some(Some(packet)), seq![], 0)
            } else if capacity > 500000 && b.len() - end <= 100000 {
                (Some(Some(packet)), b.subrange(end, b.len() as int), 0)
            } else {
                (Some(Some(packet)), b, end)
            }
        } else {
            (Some(None), b, c)
        }
    } else if c < 8 {
        (None, b, c)
    } else {
        (Some(None), b, c - 8)
    }
}

impl LoginBuffer {
    pub fn new() -> (r: LoginBuffer)
        ensures
            r.bytes@.len() == 0,
            r.cursor == 0,
    {
        LoginBuffer { bytes: Vec::new(), cursor: 0 }
    }

    /// Takes in `incoming` bytes read from the connection and tries to take
    /// one packet; see `spec_login_read`. The buffer is left as that says
    /// unless the connection closes.
    pub fn receive(&mut self, incoming: &[u8], capacity: usize) -> (r: LoginRead)
        requires
            old(self).cursor <= old(self).bytes@.len(),
            old(self).bytes@.len() + incoming@.len() <= usize::MAX,
        ensures
            ({
                let (outcome, bytes, cursor) = spec_login_read(old(self).bytes@ + incoming@, old(self).cursor as int, capacity);
                &&& match outcome {
                    None => r is Closed,
                    Some(None) => r is NeedMore,
                    Some(Some(p)) => r matches LoginRead::Packet(v) && v@ == p,
                }
                &&& outcome is Some ==> final(self).bytes@ == bytes && final(self).cursor == cursor
            }),
    {
        let ghost b = old(self).bytes@ + incoming@;
        let mut k: usize = 0;
        while k < incoming.len()
            invariant
                k <= incoming@.len(),
                self.bytes@ == old(self).bytes@ + incoming@.subrange(0, k as int),
                self.cursor == old(self).cursor,
                old(self).bytes@.len() + incoming@.len() <= usize::MAX,
            decreases incoming@.len() - k,
        {
            self.bytes.push(incoming[k]);
            assert(self.bytes@ =~= old(self).bytes@ + incoming@.subrange(0, k as int + 1));
            k += 1;
        }
        assert(self.bytes@ =~= b);
        let c = self.cursor;
        if self.bytes.len() - c >= 8 {
            let length = crate::ipc::ipc_actor::read_le_u64(&self.bytes, c);
            if !(1 <= length && length <= BUFFER_SIZE as u64) {
                return LoginRead::Closed;
            }
            if length <= (self.bytes.len() - c - 8) as u64 {
                let from = c + 8;
                let end = from + length as usize;
                let mut packet: Vec<u8> = Vec::new();
                let mut j: usize = from;
                while j < end
                    invariant
                        from <= j <= end <= b.len(),
                        self.bytes@ == b,
                        packet@ == b.subrange(from as int, j as int),
                    decreases end - j,
                {
                    packet.push(self.bytes[j]);
                    assert(packet@ =~= b.subrange(from as int, j as int + 1));
                    j += 1;
                }
                match buffer_check(end, self.bytes.len(), capacity) {
                    BufferUpkeep::Clear { .. } => {
                        self.bytes = Vec::new();
                        self.cursor = 0;
                    },
                    BufferUpkeep::Compact => {
                        let mut rest: Vec<u8> = Vec::new();
                        let mut j: usize = end;
                        while j < self.bytes.len()
                            invariant
                                end <= j <= b.len(),
                                self.bytes@ == b,
                                rest@ == b.subrange(end as int, j as int),
                            decreases b.len() - j,
                        {
                            rest.push(self.bytes[j]);
                            assert(rest@ =~= b.subrange(end as int, j as int + 1));
                            j += 1;
                        }
                        self.bytes = rest;
                        self.cursor = 0;
                    },
                    BufferUpkeep::Keep => {
                        self.cursor = end;
                    },
                }
                return LoginRead::Packet(packet);
            }
            return LoginRead::NeedMore;
        }
        if c < 8 {
            return LoginRead::Closed;
        }
        self.cursor = c - 8;
        LoginRead::NeedMore
    }
}

} // verus!
