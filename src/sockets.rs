//! The raw-socket proxy offered to a sandboxed module: a small table of open
//! connections addressed by integer handles, and the rules that bound reads.
//!
//! The connections themselves are of any type `S`; opening, writing and
//! reading them is done by the caller, which asks this table which
//! connection a handle names and what a read may return.

use vstd::prelude::*;

verus! {

/// Largest number of bytes one read hands back into the sandbox.
pub const MAX_READ: usize = 1024;

/// Opening is refused once the table holds more than this many connections.
pub const SOCKET_CEILING: usize = 255;

/// The handle returned when a connection cannot be opened.
pub const FAILED_HANDLE: i64 = -1;

/// The status every write reports, whether it succeeded or not.
pub const WRITE_STATUS: i64 = -1;

/// How many bytes a read of `requested` bytes asks for: zero or anything
/// above the maximum means the maximum.
pub open spec fn effective_read_len(requested: u64) -> nat {
    if requested == 0 || requested > MAX_READ as u64 {
        MAX_READ as nat
    } else {
        requested as nat
    }
}

/// What a read hands back, given the buffer it read into and the count it
/// reported: a count at or above the maximum is an overflow and yields
/// nothing; otherwise the buffer is cut to the count.
pub open spec fn read_outcome(buf: Seq<u8>, count: nat) -> Seq<u8> {
    if count >= MAX_READ {
        Seq::empty()
    } else if count <= buf.len() {
        buf.subrange(0, count as int)
    } else {
        buf
    }
}

/// Size of the buffer to read into for a request of `requested` bytes.
pub fn read_len(requested: u64) -> (n: usize)
    ensures
        n == effective_read_len(requested),
        0 < n <= MAX_READ,
{
    if requested == 0 || requested > MAX_READ as u64 {
        MAX_READ
    } else {
        requested as usize
    }
}

/// The bytes to hand back after a read into `buf` reported `count` bytes.
pub fn finish_read(buf: Vec<u8>, count: usize) -> (out: Vec<u8>)
    ensures
        out@ == read_outcome(buf@, count as nat),
        out@.len() < MAX_READ,
{
    if count >= MAX_READ {
        return Vec::new();
    }
    let mut out = buf;
    if count <= out.len() {
        out.truncate(count);
    }
    out
}

/// The open connections of one sandbox instance. A handle is the position of
/// its connection in the table; handles are never reused.
pub struct SocketTable<S> {
    socks: Vec<S>,
}

impl<S> SocketTable<S> {
    /// The connections, by handle.
    pub closed spec fn view(&self) -> Seq<S> {
        self.socks@
    }

    /// An empty table.
    pub fn new() -> (t: SocketTable<S>)
        ensures
            t.view() == Seq::<S>::empty(),
    {
        SocketTable { socks: Vec::new() }
    }

    /// Number of open connections.
    pub fn len(&self) -> (n: usize)
        ensures
            n == self.view().len(),
    {
        self.socks.len()
    }

    /// Whether another connection may be opened.
    pub fn can_open(&self) -> (b: bool)
        ensures
            b == (self.view().len() <= SOCKET_CEILING),
    {
        self.socks.len() <= SOCKET_CEILING
    }

    /// Stores a connection that was just opened and returns its handle; when
    /// the table is already full the connection is dropped and the failure
    /// handle is returned.
    pub fn register(&mut self, sock: S) -> (h: i64)
        ensures
            old(self).view().len() <= SOCKET_CEILING ==> h == old(self).view().len()
                && final(self).view() == old(self).view().push(sock),
            old(self).view().len() > SOCKET_CEILING ==> h == FAILED_HANDLE
                && final(self).view() == old(self).view(),
    {
        if self.socks.len() > SOCKET_CEILING {
            return FAILED_HANDLE;
        }
        let h = self.socks.len() as i64;
        self.socks.push(sock);
        h
    }

    /// The position of the connection a handle names, if it names one.
    pub fn slot(&self, handle: i64) -> (r: Option<usize>)
        ensures
            r == (if 0 <= handle < self.view().len() {
                Some(handle as usize)
            } else {
                None::<usize>
            }),
    {
        if handle >= 0 && (handle as u64) < self.socks.len() as u64 {
            Some(handle as usize)
        } else {
            None
        }
    }

    /// The connection at a position, to read from or write to.
    pub fn at_mut(&mut self, i: usize) -> (s: &mut S)
        requires
            i < old(self).view().len(),
        ensures
            *s == old(self).view()[i as int],
            final(self).view() == old(self).view().update(i as int, *final(s)),
    {
        &mut self.socks[i]
    }
}

/// A read asked for zero bytes or for more than the maximum reads exactly
/// the maximum, and a reported count at or above the maximum yields nothing
/// rather than a cut buffer.
pub proof fn lemma_read_clamp(requested: u64, buf: Seq<u8>, count: nat)
    ensures
        (requested == 0 || requested > MAX_READ as u64) ==> effective_read_len(requested)
            == effective_read_len(MAX_READ as u64),
        effective_read_len(requested) == MAX_READ as nat <==> (requested == 0 || requested
            >= MAX_READ as u64),
        count >= MAX_READ ==> read_outcome(buf, count) == Seq::<u8>::empty(),
        read_outcome(buf, count).len() < MAX_READ,
{
}

} // verus!
