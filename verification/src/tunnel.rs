//! The byte pump of one forwarded tunnel connection: what it reads from
//! each side, what it still owes the other side, when it stops reading
//! (back-pressure), when it passes on the end of the local stream, and
//! when it is done. The sockets are driven by the caller, which reports
//! each read and write here.
use vstd::prelude::*;

verus! {

/// Most bytes held for one direction before reading stops.
pub const PUMP_BUFFER_MAX: usize = 1048576;

/// Most bytes one read returns (the size of the read buffers).
pub const READ_CHUNK: usize = 16384;

/// The state of the two directions of a forwarded connection.
pub struct Pump {
    to_remote: Vec<u8>,
    to_local: Vec<u8>,
    local_eof: bool,
    remote_eof: bool,
    sent_remote_eof: bool,
    read_local: Ghost<Seq<u8>>,
    written_remote: Ghost<Seq<u8>>,
    read_remote: Ghost<Seq<u8>>,
    written_local: Ghost<Seq<u8>>,
}

impl Pump {
    /// Every byte read from the local side so far.
    pub closed spec fn received_local(&self) -> Seq<u8> {
        self.read_local@
    }

    /// Every byte written to the remote side so far.
    pub closed spec fn delivered_remote(&self) -> Seq<u8> {
        self.written_remote@
    }

    /// Every byte read from the remote side so far.
    pub closed spec fn received_remote(&self) -> Seq<u8> {
        self.read_remote@
    }

    /// Every byte written to the local side so far.
    pub closed spec fn delivered_local(&self) -> Seq<u8> {
        self.written_local@
    }

    /// The bytes waiting to go to the remote side.
    pub closed spec fn owed_remote(&self) -> Seq<u8> {
        self.to_remote@
    }

    /// The bytes waiting to go to the local side.
    pub closed spec fn owed_local(&self) -> Seq<u8> {
        self.to_local@
    }

    /// The local side reported its end.
    pub closed spec fn local_ended(&self) -> bool {
        self.local_eof
    }

    /// The remote side reported its end.
    pub closed spec fn remote_ended(&self) -> bool {
        self.remote_eof
    }

    /// The end of the local stream was passed to the remote side.
    pub closed spec fn eof_passed(&self) -> bool {
        self.sent_remote_eof
    }

    /// Each direction holds exactly what was read and not yet written, no
    /// more than a buffer's worth past the limit, and the end of the local
    /// stream is passed on only once everything before it was delivered.
    pub closed spec fn wf(&self) -> bool {
        &&& self.read_local@ == self.written_remote@ + self.to_remote@
        &&& self.read_remote@ == self.written_local@ + self.to_local@
        &&& self.to_remote@.len() < PUMP_BUFFER_MAX + READ_CHUNK
        &&& self.to_local@.len() < PUMP_BUFFER_MAX + READ_CHUNK
        &&& self.sent_remote_eof ==> self.local_eof && self.to_remote@.len() == 0
    }

    /// A pump before any byte moved.
    pub fn new() -> (p: Pump)
        ensures
            p.wf(),
            p.received_local() == Seq::<u8>::empty(),
            p.received_remote() == Seq::<u8>::empty(),
            p.delivered_remote() == Seq::<u8>::empty(),
            p.delivered_local() == Seq::<u8>::empty(),
            !p.local_ended(),
            !p.remote_ended(),
            !p.eof_passed(),
    {
        Pump {
            to_remote: Vec::new(),
            to_local: Vec::new(),
            local_eof: false,
            remote_eof: false,
            sent_remote_eof: false,
            read_local: Ghost(Seq::empty()),
            written_remote: Ghost(Seq::empty()),
            read_remote: Ghost(Seq::empty()),
            written_local: Ghost(Seq::empty()),
        }
    }

    /// Whether to read from the local side now: its end was not seen and
    /// less than `PUMP_BUFFER_MAX` bytes wait for the remote side.
    pub fn wants_local_read(&self) -> (r: bool)
        ensures
            r == (!self.local_ended() && self.owed_remote().len() < PUMP_BUFFER_MAX),
    {
        !self.local_eof && self.to_remote.len() < PUMP_BUFFER_MAX
    }

    /// Takes in a read from the local side: no bytes means its end.
    pub fn local_read(&mut self, data: &[u8])
        requires
            old(self).wf(),
            !old(self).local_ended(),
            old(self).owed_remote().len() < PUMP_BUFFER_MAX,
            data@.len() <= READ_CHUNK,
        ensures
            final(self).wf(),
            final(self).received_local() == old(self).received_local() + data@,
            final(self).owed_remote() == old(self).owed_remote() + data@,
            final(self).local_ended() == (data@.len() == 0),
            final(self).delivered_remote() == old(self).delivered_remote(),
            final(self).received_remote() == old(self).received_remote(),
            final(self).delivered_local() == old(self).delivered_local(),
            final(self).owed_local() == old(self).owed_local(),
            final(self).remote_ended() == old(self).remote_ended(),
            final(self).eof_passed() == old(self).eof_passed(),
    {
        if data.len() == 0 {
            self.local_eof = true;
            assert(data@ =~= Seq::<u8>::empty());
            assert(self.read_local@ + data@ =~= self.read_local@);
            assert(self.to_remote@ + data@ =~= self.to_remote@);
        } else {
            self.to_remote.extend_from_slice(data);
            self.read_local = Ghost(self.read_local@ + data@);
            assert(self.read_local@ =~= self.written_remote@ + self.to_remote@);
        }
    }

    /// The bytes waiting to go to the remote side, oldest first.
    pub fn pending_to_remote(&self) -> (r: &[u8])
        ensures
            r@ == self.owed_remote(),
    {
        self.to_remote.as_slice()
    }

    /// Takes in that the remote side accepted the first `n` waiting bytes.
    pub fn remote_accepted(&mut self, n: usize)
        requires
            old(self).wf(),
            n <= old(self).owed_remote().len(),
        ensures
            final(self).wf(),
            final(self).owed_remote() == old(self).owed_remote().skip(n as int),
            final(self).delivered_remote() == old(self).delivered_remote() + old(
                self,
            ).owed_remote().take(n as int),
            final(self).received_local() == old(self).received_local(),
            final(self).received_remote() == old(self).received_remote(),
            final(self).delivered_local() == old(self).delivered_local(),
            final(self).owed_local() == old(self).owed_local(),
            final(self).local_ended() == old(self).local_ended(),
            final(self).remote_ended() == old(self).remote_ended(),
            final(self).eof_passed() == old(self).eof_passed(),
    {
        let ghost before = self.to_remote@;
        let rest = self.to_remote.split_off(n);
        self.written_remote = Ghost(self.written_remote@ + before.take(n as int));
        self.to_remote = rest;
        assert(self.to_remote@ =~= before.skip(n as int));
        assert(before =~= before.take(n as int) + before.skip(n as int));
        assert(self.read_local@ =~= self.written_remote@ + self.to_remote@);
    }

    /// Whether to pass the end of the local stream on now: it was seen,
    /// everything before it was delivered, and it was not passed on yet.
    pub fn should_send_eof(&self) -> (r: bool)
        ensures
            r == (self.local_ended() && self.owed_remote().len() == 0 && !self.eof_passed()),
    {
        self.local_eof && self.to_remote.len() == 0 && !self.sent_remote_eof
    }

    /// Takes in that the end of the local stream was passed on.
    pub fn eof_sent(&mut self)
        requires
            old(self).wf(),
            old(self).local_ended(),
            old(self).owed_remote().len() == 0,
        ensures
            final(self).wf(),
            final(self).eof_passed(),
            final(self).received_local() == old(self).received_local(),
            final(self).delivered_remote() == old(self).delivered_remote(),
            final(self).owed_remote() == old(self).owed_remote(),
            final(self).received_remote() == old(self).received_remote(),
            final(self).delivered_local() == old(self).delivered_local(),
            final(self).owed_local() == old(self).owed_local(),
            final(self).local_ended() == old(self).local_ended(),
            final(self).remote_ended() == old(self).remote_ended(),
    {
        self.sent_remote_eof = true;
    }

    /// Whether to read from the remote side now: its end was not seen and
    /// less than `PUMP_BUFFER_MAX` bytes wait for the local side.
    pub fn wants_remote_read(&self) -> (r: bool)
        ensures
            r == (!self.remote_ended() && self.owed_local().len() < PUMP_BUFFER_MAX),
    {
        !self.remote_eof && self.to_local.len() < PUMP_BUFFER_MAX
    }

    /// Takes in a read from the remote side: no bytes means its end.
    pub fn remote_read(&mut self, data: &[u8])
        requires
            old(self).wf(),
            !old(self).remote_ended(),
            old(self).owed_local().len() < PUMP_BUFFER_MAX,
            data@.len() <= READ_CHUNK,
        ensures
            final(self).wf(),
            final(self).received_remote() == old(self).received_remote() + data@,
            final(self).owed_local() == old(self).owed_local() + data@,
            final(self).remote_ended() == (data@.len() == 0),
            final(self).delivered_local() == old(self).delivered_local(),
            final(self).received_local() == old(self).received_local(),
            final(self).delivered_remote() == old(self).delivered_remote(),
            final(self).owed_remote() == old(self).owed_remote(),
            final(self).local_ended() == old(self).local_ended(),
            final(self).eof_passed() == old(self).eof_passed(),
    {
        if data.len() == 0 {
            self.remote_eof = true;
            assert(data@ =~= Seq::<u8>::empty());
            assert(self.read_remote@ + data@ =~= self.read_remote@);
            assert(self.to_local@ + data@ =~= self.to_local@);
        } else {
            self.to_local.extend_from_slice(data);
            self.read_remote = Ghost(self.read_remote@ + data@);
            assert(self.read_remote@ =~= self.written_local@ + self.to_local@);
        }
    }

    /// The bytes waiting to go to the local side, oldest first.
    pub fn pending_to_local(&self) -> (r: &[u8])
        ensures
            r@ == self.owed_local(),
    {
        self.to_local.as_slice()
    }

    /// Takes in that the local side accepted the first `n` waiting bytes.
    pub fn local_accepted(&mut self, n: usize)
        requires
            old(self).wf(),
            n <= old(self).owed_local().len(),
        ensures
            final(self).wf(),
            final(self).owed_local() == old(self).owed_local().skip(n as int),
            final(self).delivered_local() == old(self).delivered_local() + old(
                self,
            ).owed_local().take(n as int),
            final(self).received_local() == old(self).received_local(),
            final(self).received_remote() == old(self).received_remote(),
            final(self).delivered_remote() == old(self).delivered_remote(),
            final(self).owed_remote() == old(self).owed_remote(),
            final(self).local_ended() == old(self).local_ended(),
            final(self).remote_ended() == old(self).remote_ended(),
            final(self).eof_passed() == old(self).eof_passed(),
    {
        let ghost before = self.to_local@;
        let rest = self.to_local.split_off(n);
        self.written_local = Ghost(self.written_local@ + before.take(n as int));
        self.to_local = rest;
        assert(self.to_local@ =~= before.skip(n as int));
        assert(before =~= before.take(n as int) + before.skip(n as int));
        assert(self.read_remote@ =~= self.written_local@ + self.to_local@);
    }

    /// Whether the connection is done: the remote side ended and
    /// everything it sent was delivered.
    pub fn finished(&self) -> (r: bool)
        ensures
            r == (self.remote_ended() && self.owed_local().len() == 0),
    {
        self.remote_eof && self.to_local.len() == 0
    }
}

/// Whatever the sockets did, each side receives exactly the bytes read
/// from the other side, in order, short of those still waiting; the
/// waiting bytes never pass a buffer's worth beyond the limit; the end of
/// the local stream reaches the remote side only after all its bytes; and
/// once the pump is finished, every byte of the remote side was delivered.
pub proof fn law_pump_delivers_in_order(p: Pump)
    requires
        p.wf(),
    ensures
        p.received_local() == p.delivered_remote() + p.owed_remote(),
        p.received_remote() == p.delivered_local() + p.owed_local(),
        p.delivered_remote().is_prefix_of(p.received_local()),
        p.delivered_local().is_prefix_of(p.received_remote()),
        p.owed_remote().len() < PUMP_BUFFER_MAX + READ_CHUNK,
        p.owed_local().len() < PUMP_BUFFER_MAX + READ_CHUNK,
        p.eof_passed() ==> p.local_ended() && p.delivered_remote() == p.received_local(),
        p.remote_ended() && p.owed_local().len() == 0 ==> p.delivered_local() == p.received_remote(),
{
    assert(p.delivered_remote().is_prefix_of(p.received_local())) by {
        assert(p.received_local().subrange(0, p.delivered_remote().len() as int) =~= p.delivered_remote());
    }
    assert(p.delivered_local().is_prefix_of(p.received_remote())) by {
        assert(p.received_remote().subrange(0, p.delivered_local().len() as int) =~= p.delivered_local());
    }
    if p.eof_passed() {
        assert(p.delivered_remote() + p.owed_remote() =~= p.delivered_remote());
    }
    if p.owed_local().len() == 0 {
        assert(p.delivered_local() + p.owed_local() =~= p.delivered_local());
    }
}

} // verus!
