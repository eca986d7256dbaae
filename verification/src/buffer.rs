//! The outbound buffer of a connection and the action that runs once it
//! has fully drained. The after-send hook is a small sum type rather than
//! an arbitrary closure, so the state machine stays inspectable.
use vstd::prelude::*;
use vstd::string::StrSliceExecFns;
use vstd::string::StringSliceAdditionalSpecFns;

verus! {

/// What to do right after the buffer has fully drained, exactly once.
#[derive(PartialEq, Eq, Structural, Clone, Copy, Debug)]
pub enum AfterSend {
    /// Re-arm the connection for reading: the ordinary case on a control
    /// connection between replies.
    Nothing,
    /// Arm the linked data socket for reading: an upload follows the 150.
    ArmDataRead,
    /// Arm the linked data socket for writing: a download or a listing
    /// follows the 150.
    ArmDataWrite,
    /// Close this connection: after the 221 of QUIT or the 421 of a
    /// rejected connection.
    CloseAfter,
}

/// Outbound bytes of one connection, drained from `offset`, with the action
/// to run once everything has been written.
pub struct BufferToWrite {
    /// Total data that this buffer is going to send.
    pub buffer: Vec<u8>,
    /// How many bytes of `buffer` have been written already.
    pub offset: usize,
    /// The action to run right after the last byte has been written.
    pub callback_after_sending: AfterSend,
}

impl BufferToWrite {
    /// The offset never runs past the buffer.
    pub open spec fn wf(&self) -> bool {
        self.offset <= self.buffer@.len()
    }

    /// The bytes still owed to the peer.
    pub open spec fn pending(&self) -> Seq<u8> {
        self.buffer@.skip(self.offset as int)
    }

    /// Is everything written?
    pub open spec fn spec_drained(&self) -> bool {
        self.offset == self.buffer@.len()
    }

    /// An empty buffer with nothing to run afterwards.
    pub fn default() -> (r: Self)
        ensures
            r.buffer@ == Seq::<u8>::empty(),
            r.offset == 0,
            r.callback_after_sending == AfterSend::Nothing,
            r.wf(),
    {
        Self { buffer: Vec::new(), offset: 0, callback_after_sending: AfterSend::Nothing }
    }

    /// A buffer holding exactly `vector`, nothing written yet.
    pub fn new(vector: Vec<u8>) -> (r: Self)
        ensures
            r.buffer@ == vector@,
            r.offset == 0,
            r.callback_after_sending == AfterSend::Nothing,
            r.wf(),
    {
        Self { buffer: vector, offset: 0, callback_after_sending: AfterSend::Nothing }
    }

    /// Replace the contents and start over; the pending action stays.
    pub fn reset(&mut self, vector: Vec<u8>)
        ensures
            final (self).buffer@ == vector@,
            final (self).offset == 0,
            final (self).callback_after_sending == old(self).callback_after_sending,
            final (self).wf(),
    {
        self.buffer = vector;
        self.offset = 0;
    }

    /// Replace the contents with the bytes of a string and start over.
    pub fn reset_str(&mut self, vector: &str)
        ensures
            final (self).buffer@ == vector.spec_bytes(),
            final (self).offset == 0,
            final (self).callback_after_sending == old(self).callback_after_sending,
            final (self).wf(),
    {
        self.buffer = vector.as_bytes_vec();
        self.offset = 0;
    }

    /// Replace contents and the after-send action together.
    pub fn load(&mut self, vector: Vec<u8>, after: AfterSend)
        ensures
            final (self).buffer@ == vector@,
            final (self).offset == 0,
            final (self).callback_after_sending == after,
            final (self).wf(),
    {
        self.buffer = vector;
        self.offset = 0;
        self.callback_after_sending = after;
    }

    /// The bytes still to write, for the writer to push at the socket.
    pub fn pending_slice(&self) -> (r: &[u8])
        requires
            self.wf(),
        ensures
            r@ == self.pending(),
    {
        vstd::slice::slice_subrange(self.buffer.as_slice(), self.offset, self.buffer.len())
    }

    /// Record that `n` more bytes reached the peer. Returns whether the
    /// buffer has now fully drained.
    pub fn advance(&mut self, n: usize) -> (drained: bool)
        requires
            old(self).wf(),
            n <= old(self).pending().len(),
        ensures
            final (self).buffer == old(self).buffer,
            final (self).offset == old(self).offset + n,
            final (self).callback_after_sending == old(self).callback_after_sending,
            final (self).wf(),
            drained == final (self).spec_drained(),
            final (self).pending() == old(self).pending().skip(n as int),
    {
        proof {
            assert(old(self).pending().len() == self.buffer@.len() - self.offset);
            assert(self.buffer.len() == self.buffer@.len());
        }
        self.offset = self.offset + n;
        proof {
            assert(self.buffer@.skip(self.offset as int) =~= old(self).pending().skip(n as int));
        }
        self.offset == self.buffer.len()
    }

    /// Take the after-send action, leaving `Nothing`: it runs exactly once.
    pub fn take_callback(&mut self) -> (r: AfterSend)
        ensures
            r == old(self).callback_after_sending,
            final (self).callback_after_sending == AfterSend::Nothing,
            final (self).buffer == old(self).buffer,
            final (self).offset == old(self).offset,
            old(self).wf() ==> final (self).wf(),
    {
        let r = self.callback_after_sending;
        self.callback_after_sending = AfterSend::Nothing;
        r
    }

    /// Is everything written?
    pub fn drained(&self) -> (r: bool)
        ensures
            r == self.spec_drained(),
    {
        self.offset == self.buffer.len()
    }
}

} // verus!
