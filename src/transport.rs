//! The serial transport: the busy handshake, chip select, byte shifting, and
//! the frame shapes of commands, register access and buffer access.

use vstd::prelude::*;

use crate::opcode::{OpCode, Register};
use crate::status::Status;

verus! {

/// The bus that connects the driver to the radio, implemented once per
/// platform.
pub trait Transport {
    /// Whether the radio's busy signal is asserted.
    fn is_busy(&mut self) -> bool;

    /// Asserts chip select, opening a transaction.
    fn select(&mut self);

    /// Releases chip select, closing a transaction.
    fn deselect(&mut self);

    /// Shifts one byte out and returns the byte shifted in with it.
    fn shift(&mut self, byte: u8) -> u8;
}

/// How many busy readings the handshake accepts before it gives up.
pub const BUSY_RETRIES: u32 = 100_000;

/// Byte shifted out while reading.
pub const NOP: u8 = 0xFF;

/// Failure of a radio transaction.
#[derive(Clone, Copy, Debug, PartialEq, Eq, Hash, Structural)]
pub enum SubGhzError {
    /// The busy signal did not clear within the retry budget. The radio's
    /// state is unknown: the caller must not go on using it.
    BusyTimeout,
}

/// One completed transaction: the bytes shifted out, and the bytes shifted in
/// with them.
pub struct Transfer {
    pub mosi: Seq<u8>,
    pub miso: Seq<u8>,
}

/// `after` is `before` with one more transaction, which shifted out `frame`.
pub open spec fn wrote(before: Seq<Transfer>, after: Seq<Transfer>, frame: Seq<u8>) -> bool {
    &&& after.len() == before.len() + 1
    &&& after.drop_last() == before
    &&& after.last().mosi == frame
    &&& after.last().miso.len() == frame.len()
}

/// `reads` is one wait on the busy signal: between one and `BUSY_RETRIES`
/// readings, each busy but the last; the wait ends at the first clear
/// reading, or after `BUSY_RETRIES` busy ones.
pub open spec fn one_wait(reads: Seq<bool>) -> bool {
    &&& 1 <= reads.len() <= BUSY_RETRIES
    &&& forall|i: int| 0 <= i < reads.len() - 1 ==> #[trigger] reads[i]
    &&& (reads.last() ==> reads.len() == BUSY_RETRIES)
}

/// The wait saw the busy signal clear.
pub open spec fn cleared(reads: Seq<bool>) -> bool {
    !reads.last()
}

/// The waits that the driver made between `before` and `after`.
pub open spec fn new_waits<T: Transport>(before: SubGhz<T>, after: SubGhz<T>) -> Seq<Seq<bool>> {
    after.waits().subrange(before.waits().len() as int, after.waits().len() as int)
}

/// What one transaction that sends `frame` does: it waits for the radio; if
/// that wait times out it stops with an error and the log is unchanged;
/// otherwise it sends exactly `frame` and waits again. It succeeds exactly
/// when both waits see the busy signal clear, and fails only on a timeout.
pub open spec fn outcome<T: Transport, R>(r: Result<R, SubGhzError>, before: SubGhz<T>, after: SubGhz<T>, frame: Seq<u8>) -> bool {
    let w = new_waits(before, after);
    &&& before.waits().len() <= after.waits().len()
    &&& after.waits().subrange(0, before.waits().len() as int) == before.waits()
    &&& 1 <= w.len() <= 2
    &&& forall|i: int| 0 <= i < w.len() ==> one_wait(#[trigger] w[i])
    &&& (w.len() == 1 <==> !cleared(w[0]))
    &&& (w.len() == 1 ==> after.log() == before.log())
    &&& (w.len() == 2 ==> wrote(before.log(), after.log(), frame))
    &&& (r is Ok <==> (w.len() == 2 && cleared(w[1])))
}

/// A transaction during which every busy reading is clear succeeds, and
/// sends exactly its frame.
pub proof fn lemma_clear_bus_succeeds<T: Transport, R>(
    r: Result<R, SubGhzError>,
    before: SubGhz<T>,
    after: SubGhz<T>,
    frame: Seq<u8>,
)
    requires
        outcome(r, before, after, frame),
        forall|i: int, j: int|
            0 <= i < new_waits(before, after).len() && 0 <= j < new_waits(before, after)[i].len()
                ==> !#[trigger] new_waits(before, after)[i][j],
    ensures
        r is Ok,
        wrote(before.log(), after.log(), frame),
{
    let w = new_waits(before, after);
    assert(one_wait(w[0]));
    assert(!w[0][w[0].len() - 1]);
    assert(w.len() == 2);
    assert(one_wait(w[1]));
    assert(!w[1][w[1].len() - 1]);
}

/// A transaction during which the busy signal never reads clear fails after
/// exactly `BUSY_RETRIES` readings, without sending anything.
pub proof fn lemma_stuck_bus_fails<T: Transport, R>(
    r: Result<R, SubGhzError>,
    before: SubGhz<T>,
    after: SubGhz<T>,
    frame: Seq<u8>,
)
    requires
        outcome(r, before, after, frame),
        forall|i: int, j: int|
            0 <= i < new_waits(before, after).len() && 0 <= j < new_waits(before, after)[i].len()
                ==> #[trigger] new_waits(before, after)[i][j],
    ensures
        r is Err,
        after.log() == before.log(),
        new_waits(before, after) == seq![Seq::new(BUSY_RETRIES as nat, |k: int| true)],
{
    let w = new_waits(before, after);
    assert(one_wait(w[0]));
    assert(w[0][w[0].len() - 1]);
    assert(w.len() == 1);
    assert(w[0] =~= Seq::new(BUSY_RETRIES as nat, |k: int| true));
    assert(w =~= seq![Seq::new(BUSY_RETRIES as nat, |k: int| true)]);
}

/// The bytes shifted in during the last transaction.
pub open spec fn last_miso(log: Seq<Transfer>) -> Seq<u8> {
    log.last().miso
}

/// Frame of a command that reads `n` bytes: the opcode, then `n` filler bytes.
pub open spec fn read_frame(op: u8, n: nat) -> Seq<u8> {
    seq![op] + Seq::new(n, |i: int| NOP)
}

/// Frame that writes `data` to consecutive registers from `addr`.
pub open spec fn write_register_frame(addr: u16, data: Seq<u8>) -> Seq<u8> {
    seq![0x0Du8, (addr / 0x100) as u8, (addr % 0x100) as u8] + data
}

/// Frame that reads one register.
pub open spec fn read_register_frame(addr: u16) -> Seq<u8> {
    seq![0x1Du8, (addr / 0x100) as u8, (addr % 0x100) as u8, NOP]
}

/// Frame that writes `data` to the data buffer from `offset`.
pub open spec fn write_buffer_frame(offset: u8, data: Seq<u8>) -> Seq<u8> {
    seq![0x0Eu8, offset] + data
}

/// Frame that reads the status and `n` bytes of the data buffer from `offset`.
pub open spec fn read_buffer_frame(offset: u8, n: nat) -> Seq<u8> {
    seq![0x1Eu8, offset] + Seq::new(n + 1, |i: int| NOP)
}

/// Driver of the sub-GHz radio.
///
/// The driver keeps no shadow of the radio's mode: every command is one
/// transaction, and every query reads the radio again. For the proofs it
/// records every busy reading and every byte shifted, and from them each
/// wait on the busy signal and each completed transaction.
pub struct SubGhz<T: Transport> {
    bus: T,
    log: Ghost<Seq<Transfer>>,
    waits: Ghost<Seq<Seq<bool>>>,
    readings: Ghost<Seq<bool>>,
    shifted_out: Ghost<Seq<u8>>,
    shifted_in: Ghost<Seq<u8>>,
}

impl<T: Transport> SubGhz<T> {
    /// Every transaction completed so far, oldest first.
    pub closed spec fn log(&self) -> Seq<Transfer> {
        self.log@
    }

    /// The busy readings of every wait so far, one sequence per wait.
    pub closed spec fn waits(&self) -> Seq<Seq<bool>> {
        self.waits@
    }

    /// Creates a driver over a bus that has exclusive use of the radio.
    pub fn new(bus: T) -> (r: SubGhz<T>)
        ensures
            r.log() == Seq::<Transfer>::empty(),
            r.waits() == Seq::<Seq<bool>>::empty(),
    {
        SubGhz {
            bus,
            log: Ghost(Seq::empty()),
            waits: Ghost(Seq::empty()),
            readings: Ghost(Seq::empty()),
            shifted_out: Ghost(Seq::empty()),
            shifted_in: Ghost(Seq::empty()),
        }
    }

    /// Gives the bus back.
    pub fn free(self) -> T {
        self.bus
    }

    /// Whether the radio's busy signal is asserted. This reading is no wait.
    pub fn rfbusys(&mut self) -> (r: bool)
        ensures
            final(self).log() == old(self).log(),
            final(self).waits() == old(self).waits(),
    {
        self.sample_busy()
    }

    /// Reads the busy signal, and records the reading.
    fn sample_busy(&mut self) -> (b: bool)
        ensures
            final(self).readings@ == old(self).readings@.push(b),
            final(self).log@ == old(self).log@,
            final(self).waits@ == old(self).waits@,
            final(self).shifted_out@ == old(self).shifted_out@,
            final(self).shifted_in@ == old(self).shifted_in@,
    {
        let b: bool = self.bus.is_busy();
        proof {
            self.readings@ = self.readings@.push(b);
        }
        b
    }

    /// Shifts one byte, and records both directions.
    fn shift_byte(&mut self, byte: u8) -> (r: u8)
        ensures
            final(self).shifted_out@ == old(self).shifted_out@.push(byte),
            final(self).shifted_in@ == old(self).shifted_in@.push(r),
            final(self).readings@ == old(self).readings@,
            final(self).log@ == old(self).log@,
            final(self).waits@ == old(self).waits@,
    {
        let r: u8 = self.bus.shift(byte);
        proof {
            self.shifted_out@ = self.shifted_out@.push(byte);
            self.shifted_in@ = self.shifted_in@.push(r);
        }
        r
    }

    /// Waits until the busy signal clears, reading it at most
    /// `BUSY_RETRIES` times; fails when every reading was busy.
    fn poll_not_busy(&mut self) -> (r: Result<(), SubGhzError>)
        ensures
            final(self).log() == old(self).log(),
            final(self).waits().len() == old(self).waits().len() + 1,
            final(self).waits().drop_last() == old(self).waits(),
            one_wait(final(self).waits().last()),
            r is Ok <==> cleared(final(self).waits().last()),
            final(self).shifted_out@ == old(self).shifted_out@,
            final(self).shifted_in@ == old(self).shifted_in@,
    {
        let start: Ghost<int> = Ghost(self.readings@.len() as int);
        let mut count: u32 = BUSY_RETRIES;
        loop
            invariant
                0 < count <= BUSY_RETRIES,
                start@ == old(self).readings@.len(),
                self.readings@ == old(self).readings@ + Seq::new((BUSY_RETRIES - count) as nat, |i: int| true),
                self.log@ == old(self).log@,
                self.waits@ == old(self).waits@,
                self.shifted_out@ == old(self).shifted_out@,
                self.shifted_in@ == old(self).shifted_in@,
            decreases count,
        {
            let busy: bool = self.sample_busy();
            if !busy || count == 1 {
                proof {
                    let w = self.readings@.subrange(start@, self.readings@.len() as int);
                    assert(w =~= Seq::new((BUSY_RETRIES - count) as nat, |i: int| true).push(busy));
                    self.waits@ = self.waits@.push(w);
                    assert(self.waits@.drop_last() =~= old(self).waits@);
                }
                if !busy {
                    return Ok(());
                } else {
                    return Err(SubGhzError::BusyTimeout);
                }
            }
            count = count - 1;
            proof {
                assert(self.readings@ =~= old(self).readings@ + Seq::new((BUSY_RETRIES - count) as nat, |i: int| true));
            }
        }
    }

    /// One transaction: waits for the radio, shifts `out` under chip select,
    /// and waits again, since a command may raise busy as it completes.
    /// Returns the bytes shifted in.
    fn transfer(&mut self, out: &[u8]) -> (r: Result<Vec<u8>, SubGhzError>)
        ensures
            outcome(r, *old(self), *final(self), out@),
            r matches Ok(inb) ==> inb@ == last_miso(final(self).log()),
    {
        let first = self.poll_not_busy();
        if first.is_err() {
            proof {
                let w = new_waits(*old(self), *self);
                assert(w =~= seq![self.waits().last()]);
                assert(self.waits().subrange(0, old(self).waits().len() as int) =~= old(self).waits());
                assert(one_wait(w[0]));
                assert(!cleared(w[0]));
            }
            return Err(SubGhzError::BusyTimeout);
        }
        let mid_waits: Ghost<Seq<Seq<bool>>> = Ghost(self.waits@);
        let out0: Ghost<Seq<u8>> = Ghost(self.shifted_out@);
        let in0: Ghost<Seq<u8>> = Ghost(self.shifted_in@);
        self.bus.select();
        let mut inb: Vec<u8> = Vec::new();
        let mut i: usize = 0;
        while i < out.len()
            invariant
                i <= out@.len(),
                inb@.len() == i,
                self.shifted_out@ == out0@ + out@.subrange(0, i as int),
                self.shifted_in@ == in0@ + inb@,
                self.log@ == old(self).log@,
                self.waits@ == mid_waits@,
            decreases out@.len() - i,
        {
            let b: u8 = self.shift_byte(out[i]);
            inb.push(b);
            i = i + 1;
            proof {
                assert(self.shifted_out@ =~= out0@ + out@.subrange(0, i as int));
                assert(self.shifted_in@ =~= in0@ + inb@);
            }
        }
        self.bus.deselect();
        proof {
            let mosi = self.shifted_out@.subrange(out0@.len() as int, self.shifted_out@.len() as int);
            let miso = self.shifted_in@.subrange(in0@.len() as int, self.shifted_in@.len() as int);
            assert(mosi =~= out@);
            assert(miso =~= inb@);
            self.log@ = self.log@.push(Transfer { mosi, miso });
            assert(self.log@.drop_last() =~= old(self).log());
        }
        let second = self.poll_not_busy();
        proof {
            let w = new_waits(*old(self), *self);
            assert(w =~= seq![mid_waits@.last(), self.waits().last()]);
            assert(self.waits().subrange(0, old(self).waits().len() as int) =~= old(self).waits());
            assert(one_wait(w[0]) && cleared(w[0]));
            assert(one_wait(w[1]));
            assert(wrote(old(self).log(), self.log(), out@));
        }
        if second.is_err() {
            return Err(SubGhzError::BusyTimeout);
        }
        Ok(inb)
    }

    /// Sends a command frame; what is shifted in is discarded.
    pub(crate) fn write(&mut self, frame: &[u8]) -> (r: Result<(), SubGhzError>)
        ensures
            outcome(r, *old(self), *final(self), frame@),
    {
        self.transfer(frame)?;
        Ok(())
    }

    /// Sends `opcode` and reads `n` bytes after it.
    pub(crate) fn read(&mut self, opcode: OpCode, n: usize) -> (r: Result<Vec<u8>, SubGhzError>)
        requires
            n < usize::MAX,
        ensures
            outcome(r, *old(self), *final(self), read_frame(opcode.code(), n as nat)),
            r matches Ok(data) ==> data@ == last_miso(final(self).log()).drop_first(),
    {
        let mut out: Vec<u8> = Vec::new();
        out.push(opcode.code());
        push_nops(&mut out, n);
        assert(out@ =~= read_frame(opcode.code(), n as nat));
        let inb: Vec<u8> = self.transfer(out.as_slice())?;
        let data: Vec<u8> = tail(&inb, 1);
        Ok(data)
    }

    /// Writes `data` to consecutive registers, starting at `register`.
    pub fn write_register(&mut self, register: Register, data: &[u8]) -> (r: Result<(), SubGhzError>)
        requires
            data@.len() + 3 <= usize::MAX,
        ensures
            outcome(r, *old(self), *final(self), write_register_frame(register.address(), data@)),
    {
        let addr: u16 = register.address();
        let head: [u8; 3] = [OpCode::WriteRegister.code(), (addr / 0x100) as u8, (addr % 0x100) as u8];
        let mut out: Vec<u8> = Vec::new();
        push_all(&mut out, head.as_slice());
        push_all(&mut out, data);
        assert(out@ =~= write_register_frame(addr, data@));
        self.write(out.as_slice())
    }

    /// Reads one register.
    pub fn read_register(&mut self, register: Register) -> (r: Result<u8, SubGhzError>)
        ensures
            outcome(r, *old(self), *final(self), read_register_frame(register.address())),
            r matches Ok(v) ==> v == last_miso(final(self).log())[3],
    {
        let addr: u16 = register.address();
        let out: [u8; 4] = [OpCode::ReadRegister.code(), (addr / 0x100) as u8, (addr % 0x100) as u8, NOP];
        assert(out@ =~= read_register_frame(addr));
        let inb: Vec<u8> = self.transfer(out.as_slice())?;
        Ok(inb[3])
    }

    /// Writes `data` to the data buffer, starting at `offset`.
    pub fn write_buffer(&mut self, offset: u8, data: &[u8]) -> (r: Result<(), SubGhzError>)
        requires
            data@.len() + 2 <= usize::MAX,
        ensures
            outcome(r, *old(self), *final(self), write_buffer_frame(offset, data@)),
    {
        let head: [u8; 2] = [OpCode::WriteBuffer.code(), offset];
        let mut out: Vec<u8> = Vec::new();
        push_all(&mut out, head.as_slice());
        push_all(&mut out, data);
        assert(out@ =~= write_buffer_frame(offset, data@));
        self.write(out.as_slice())
    }

    /// Reads the data buffer from `offset` into `buf`, which is left as it
    /// was unless the read succeeds. Returns the status read first.
    pub fn read_buffer(&mut self, offset: u8, buf: &mut [u8]) -> (r: Result<Status, SubGhzError>)
        requires
            old(buf)@.len() + 3 <= usize::MAX,
        ensures
            outcome(r, *old(self), *final(self), read_buffer_frame(offset, old(buf)@.len())),
            r matches Ok(s) ==> s@ == last_miso(final(self).log())[2]
                && final(buf)@ == last_miso(final(self).log()).subrange(3, 3 + old(buf)@.len() as int),
            r is Err ==> final(buf)@ == old(buf)@,
    {
        let n: usize = buf.len();
        let mut out: Vec<u8> = Vec::new();
        out.push(OpCode::ReadBuffer.code());
        out.push(offset);
        push_nops(&mut out, n + 1);
        assert(out@ =~= read_buffer_frame(offset, n as nat));
        let inb: Vec<u8> = self.transfer(out.as_slice())?;
        let status: Status = Status::from_raw(inb[2]);
        let mut i: usize = 0;
        while i < n
            invariant
                n == buf@.len(),
                n + 3 <= usize::MAX,
                inb@.len() == n + 3,
                i <= n,
                forall|k: int| 0 <= k < i ==> buf@[k] == inb@[k + 3],
            decreases n - i,
        {
            buf[i] = inb[i + 3];
            i = i + 1;
        }
        assert(buf@ =~= inb@.subrange(3, 3 + n as int));
        Ok(status)
    }
}

/// Appends `n` filler bytes.
fn push_nops(v: &mut Vec<u8>, n: usize)
    requires
        old(v)@.len() + n <= usize::MAX,
    ensures
        final(v)@ == old(v)@ + Seq::new(n as nat, |i: int| NOP),
{
    let mut i: usize = 0;
    while i < n
        invariant
            i <= n,
            v@ == old(v)@ + Seq::new(i as nat, |k: int| NOP),
        decreases n - i,
    {
        v.push(NOP);
        i = i + 1;
        assert(v@ =~= old(v)@ + Seq::new(i as nat, |k: int| NOP));
    }
}

/// Appends every byte of `data`.
fn push_all(v: &mut Vec<u8>, data: &[u8])
    requires
        old(v)@.len() + data@.len() <= usize::MAX,
    ensures
        final(v)@ == old(v)@ + data@,
{
    let mut i: usize = 0;
    while i < data.len()
        invariant
            i <= data@.len(),
            v@ == old(v)@ + data@.subrange(0, i as int),
        decreases data@.len() - i,
    {
        v.push(data[i]);
        i = i + 1;
        assert(v@ =~= old(v)@ + data@.subrange(0, i as int));
    }
    assert(data@.subrange(0, data@.len() as int) =~= data@);
}

/// The bytes of `v` from index `from` on.
fn tail(v: &Vec<u8>, from: usize) -> (r: Vec<u8>)
    requires
        from <= v@.len(),
    ensures
        r@ == v@.subrange(from as int, v@.len() as int),
{
    let mut r: Vec<u8> = Vec::new();
    let mut j: usize = from;
    while j < v.len()
        invariant
            from <= j <= v@.len(),
            r@ == v@.subrange(from as int, j as int),
        decreases v@.len() - j,
    {
        r.push(v[j]);
        j = j + 1;
        assert(r@ =~= v@.subrange(from as int, j as int));
    }
    r
}

} // verus!
