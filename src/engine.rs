//! Transfer engine: the FIFO-pipelined schedule of a blocking full-duplex exchange.
//!
//! An exchange of `len` words first primes the transmit FIFO with up to
//! `FIFO_HALF_DEPTH` words, then alternates one send with one receive, and finally
//! drains the words still in flight. `Exchange` holds the progress of one such
//! exchange and tells the caller which single-word operation comes next; the caller
//! retries that operation until the peripheral accepts it and reports it back.
use vstd::prelude::*;

use crate::config::FIFO_HALF_DEPTH;

verus! {

/// Depth of the peripheral's transmit and receive FIFOs, in words.
pub const FIFO_DEPTH: usize = 16;

/// The next single-word operation of an exchange.
#[derive(Debug, Clone, Copy, PartialEq, Eq, Structural)]
pub enum Action {
    /// Send the write word at this index.
    Send(usize),
    /// Receive one word; it belongs to the read slot at this index.
    Receive(usize),
    /// The exchange is complete.
    Done,
}

/// The operation that follows `sent` accepted sends and `received` accepted
/// receives in an exchange of `len` words.
pub open spec fn next_of(len: nat, sent: nat, received: nat) -> Action {
    if sent < len && sent - received <= FIFO_HALF_DEPTH {
        Action::Send(sent as usize)
    } else if received < sent {
        Action::Receive(received as usize)
    } else {
        Action::Done
    }
}

/// Number of sends in the rest of an exchange from the given progress.
pub open spec fn sends_left(len: nat, sent: nat, received: nat) -> nat
    decreases 2 * len - sent - received,
{
    if sent > len || received > sent {
        0
    } else {
        match next_of(len, sent, received) {
            Action::Send(_) => 1 + sends_left(len, sent + 1, received),
            Action::Receive(_) => sends_left(len, sent, received + 1),
            Action::Done => 0,
        }
    }
}

/// Number of receives in the rest of an exchange from the given progress.
pub open spec fn receives_left(len: nat, sent: nat, received: nat) -> nat
    decreases 2 * len - sent - received,
{
    if sent > len || received > sent {
        0
    } else {
        match next_of(len, sent, received) {
            Action::Send(_) => receives_left(len, sent + 1, received),
            Action::Receive(_) => 1 + receives_left(len, sent, received + 1),
            Action::Done => 0,
        }
    }
}

/// Progress of one exchange.
#[derive(Debug, Clone, Copy, PartialEq, Eq, Structural)]
pub struct Exchange {
    len: usize,
    sent: usize,
    received: usize,
}

impl Exchange {
    pub closed spec fn spec_len(&self) -> nat {
        self.len as nat
    }

    pub closed spec fn spec_sent(&self) -> nat {
        self.sent as nat
    }

    pub closed spec fn spec_received(&self) -> nat {
        self.received as nat
    }

    /// Words sent but not yet received never exceed half the FIFO plus one.
    pub open spec fn wf(&self) -> bool {
        &&& self.spec_received() <= self.spec_sent() <= self.spec_len()
        &&& self.spec_sent() - self.spec_received() <= FIFO_HALF_DEPTH + 1
    }

    /// The operation that comes next.
    pub open spec fn next(&self) -> Action {
        next_of(self.spec_len(), self.spec_sent(), self.spec_received())
    }

    /// Starts an exchange of `len` words.
    pub fn new(len: usize) -> (r: Exchange)
        ensures
            r.wf(),
            r.spec_len() == len,
            r.spec_sent() == 0,
            r.spec_received() == 0,
    {
        Exchange { len, sent: 0, received: 0 }
    }




    /// The operation that comes next. A send is always of the next unsent word;
    /// a receive always belongs to a slot whose word was already sent, so an
    /// exchange that reads into its own write buffer never overwrites a word
    /// before it has gone out.
    pub fn next_action(&self) -> (r: Action)
        requires
            self.wf(),
        ensures
            r == self.next(),
            r matches Action::Send(i) ==> i == self.spec_sent() && i < self.spec_len(),
            r matches Action::Receive(i) ==> i == self.spec_received() && i < self.spec_sent(),
            r == Action::Done <==> self.spec_received() == self.spec_len(),
    {
        if self.sent < self.len && self.sent - self.received <= FIFO_HALF_DEPTH {
            Action::Send(self.sent)
        } else if self.received < self.sent {
            Action::Receive(self.received)
        } else {
            Action::Done
        }
    }

    /// Records that the peripheral accepted the pending send.
    pub fn sent_one(&mut self)
        requires
            old(self).wf(),
            old(self).next() is Send,
        ensures
            final(self).wf(),
            final(self).spec_len() == old(self).spec_len(),
            final(self).spec_sent() == old(self).spec_sent() + 1,
            final(self).spec_received() == old(self).spec_received(),
    {
        self.sent = self.sent + 1;
    }

    /// Records that the peripheral delivered the pending receive.
    pub fn received_one(&mut self)
        requires
            old(self).wf(),
            old(self).next() is Receive,
        ensures
            final(self).wf(),
            final(self).spec_len() == old(self).spec_len(),
            final(self).spec_sent() == old(self).spec_sent(),
            final(self).spec_received() == old(self).spec_received() + 1,
    {
        self.received = self.received + 1;
    }
}

/// From any point of an exchange, exactly the words not yet sent are sent and
/// exactly the words not yet received are received before it is done.
pub proof fn lemma_balance_from(len: nat, sent: nat, received: nat)
    requires
        received <= sent <= len,
        sent - received <= FIFO_HALF_DEPTH + 1,
    ensures
        sends_left(len, sent, received) == len - sent,
        receives_left(len, sent, received) == len - received,
    decreases 2 * len - sent - received,
{
    match next_of(len, sent, received) {
        Action::Send(_) => lemma_balance_from(len, sent + 1, received),
        Action::Receive(_) => lemma_balance_from(len, sent, received + 1),
        Action::Done => {},
    }
}

/// An exchange of `len` words, whatever `len` is beside the FIFO half-depth, makes
/// exactly `len` sends and `len` receives; with no words it makes none.
pub proof fn lemma_exchange_balanced(len: nat)
    ensures
        sends_left(len, 0, 0) == len,
        receives_left(len, 0, 0) == len,
        len == 0 ==> next_of(len, 0, 0) == Action::Done,
{
    lemma_balance_from(len, 0, 0);
}

/// Software model of the peripheral's data path with loopback enabled: every word
/// the transmit side accepts is shifted out and straight back into the receive
/// FIFO. It records, in order, the words written to and read from the data
/// register, and counts both.
pub struct LoopbackFifo<W> {
    in_flight: Vec<W>,
    written: Ghost<Seq<W>>,
    read: Ghost<Seq<W>>,
    data_writes: usize,
    data_reads: usize,
}

impl<W: Copy> LoopbackFifo<W> {
    /// Words sent and not yet received, oldest first.
    pub closed spec fn spec_in_flight(&self) -> Seq<W> {
        self.in_flight@
    }

    /// Every word the transmit side has accepted, oldest first.
    pub closed spec fn spec_written(&self) -> Seq<W> {
        self.written@
    }

    /// Every word the receive side has handed back, oldest first.
    pub closed spec fn spec_read(&self) -> Seq<W> {
        self.read@
    }

    /// Loopback: what was written is what was read followed by what is still in
    /// flight; the counters are the lengths of the records.
    pub closed spec fn wf(&self) -> bool {
        &&& self.written@ == self.read@ + self.in_flight@
        &&& self.data_writes == self.written@.len()
        &&& self.data_reads == self.read@.len()
    }

    /// Accepted writes of the data register.
    pub open spec fn spec_data_writes(&self) -> nat {
        self.spec_written().len()
    }

    /// Accepted reads of the data register.
    pub open spec fn spec_data_reads(&self) -> nat {
        self.spec_read().len()
    }

    /// A model with empty FIFOs and no accesses yet.
    pub fn new() -> (r: Self)
        ensures
            r.wf(),
            r.spec_in_flight() == Seq::<W>::empty(),
            r.spec_written() == Seq::<W>::empty(),
            r.spec_read() == Seq::<W>::empty(),
    {
        LoopbackFifo {
            in_flight: Vec::new(),
            written: Ghost(Seq::empty()),
            read: Ghost(Seq::empty()),
            data_writes: 0,
            data_reads: 0,
        }
    }

    pub fn data_writes(&self) -> (r: usize)
        requires
            self.wf(),
        ensures
            r == self.spec_data_writes(),
    {
        self.data_writes
    }

    pub fn data_reads(&self) -> (r: usize)
        requires
            self.wf(),
        ensures
            r == self.spec_data_reads(),
    {
        self.data_reads
    }

    pub fn in_flight(&self) -> (r: usize)
        ensures
            r == self.spec_in_flight().len(),
    {
        self.in_flight.len()
    }

    /// Offers a word to the transmit FIFO; refused while the FIFO is full.
    pub fn try_send(&mut self, word: W) -> (accepted: bool)
        requires
            old(self).wf(),
            old(self).spec_data_writes() < usize::MAX,
        ensures
            final(self).wf(),
            accepted == (old(self).spec_in_flight().len() < FIFO_DEPTH),
            accepted ==> final(self).spec_in_flight() == old(self).spec_in_flight().push(word),
            accepted ==> final(self).spec_written() == old(self).spec_written().push(word),
            !accepted ==> final(self).spec_in_flight() == old(self).spec_in_flight(),
            !accepted ==> final(self).spec_written() == old(self).spec_written(),
            final(self).spec_read() == old(self).spec_read(),
    {
        if self.in_flight.len() < FIFO_DEPTH {
            self.in_flight.push(word);
            self.written = Ghost(self.written@.push(word));
            self.data_writes = self.data_writes + 1;
            assert(self.written@ =~= self.read@ + self.in_flight@);
            true
        } else {
            false
        }
    }

    /// Takes the oldest word from the receive FIFO; nothing while it is empty.
    pub fn try_receive(&mut self) -> (r: Option<W>)
        requires
            old(self).wf(),
            old(self).spec_data_reads() < usize::MAX,
        ensures
            final(self).wf(),
            r is None <==> old(self).spec_in_flight().len() == 0,
            r is Some ==> r->0 == old(self).spec_in_flight()[0],
            r is Some ==> final(self).spec_in_flight() == old(self).spec_in_flight().drop_first(),
            r is Some ==> final(self).spec_read() == old(self).spec_read().push(r->0),
            r is None ==> final(self).spec_in_flight() == old(self).spec_in_flight(),
            r is None ==> final(self).spec_read() == old(self).spec_read(),
            final(self).spec_written() == old(self).spec_written(),
    {
        if self.in_flight.len() == 0 {
            None
        } else {
            let ghost before = self.in_flight@;
            let w = self.in_flight.remove(0);
            self.read = Ghost(self.read@.push(w));
            self.data_reads = self.data_reads + 1;
            assert(before =~= seq![w] + self.in_flight@);
            assert(self.written@ =~= self.read@ + self.in_flight@);
            Some(w)
        }
    }
}

/// Runs an in-place exchange of `words` on the loopback model: each received word
/// overwrites the slot whose word was sent `FIFO_HALF_DEPTH` sends earlier. The
/// data register is written with the buffer's words, in order, each once; the
/// buffer comes back holding the words read, in order, which on loopback are the
/// words it held before.
pub fn transfer<W: Copy>(port: &mut LoopbackFifo<W>, words: &mut Vec<W>)
    requires
        old(port).wf(),
        old(port).spec_in_flight().len() == 0,
        old(port).spec_data_writes() + old(words)@.len() <= usize::MAX,
        old(port).spec_data_reads() + old(words)@.len() <= usize::MAX,
    ensures
        final(port).wf(),
        final(port).spec_written() == old(port).spec_written() + old(words)@,
        final(words)@ == final(port).spec_read().subrange(
            old(port).spec_read().len() as int,
            final(port).spec_read().len() as int,
        ),
        final(words)@ == old(words)@,
        final(port).spec_in_flight().len() == 0,
        final(port).spec_data_writes() == old(port).spec_data_writes() + old(words)@.len(),
        final(port).spec_data_reads() == old(port).spec_data_reads() + old(words)@.len(),
{
    let ghost start = words@;
    let ghost written0 = port.spec_written();
    let ghost read0 = port.spec_read();
    let mut ex = Exchange::new(words.len());
    loop
        invariant
            ex.wf(),
            port.wf(),
            ex.spec_len() == start.len(),
            words@ == start,
            port.spec_written() == written0 + start.subrange(0, ex.spec_sent() as int),
            port.spec_read() == read0 + start.subrange(0, ex.spec_received() as int),
            written0.len() + start.len() <= usize::MAX,
            read0.len() + start.len() <= usize::MAX,
            written0 == read0,
        ensures
            ex.spec_sent() == ex.spec_len(),
            ex.spec_received() == ex.spec_len(),
        decreases 2 * ex.spec_len() - ex.spec_sent() - ex.spec_received(),
    {
        proof {
            assert(port.spec_in_flight() =~= start.subrange(
                ex.spec_received() as int,
                ex.spec_sent() as int,
            )) by {
                lemma_in_flight(port.spec_written(), port.spec_read(), port.spec_in_flight(),
                    written0, start, ex.spec_sent() as int, ex.spec_received() as int);
            }
        }
        match ex.next_action() {
            Action::Send(i) => {
                let w = words[i];
                let accepted = port.try_send(w);
                if accepted {
                    ex.sent_one();
                    assert(port.spec_written() =~= written0 + start.subrange(0, ex.spec_sent() as int));
                }
            },
            Action::Receive(i) => {
                let r = port.try_receive();
                if let Some(w) = r {
                    words.set(i, w);
                    assert(words@ =~= start);
                    ex.received_one();
                    assert(port.spec_read() =~= read0 + start.subrange(0, ex.spec_received() as int));
                }
            },
            Action::Done => {
                break ;
            },
        }
    }
    assert(start.subrange(0, start.len() as int) =~= start);
    assert(port.spec_read().subrange(read0.len() as int, port.spec_read().len() as int) =~= start);
    assert(port.spec_in_flight().len() == 0) by {
        lemma_in_flight(port.spec_written(), port.spec_read(), port.spec_in_flight(),
            written0, start, ex.spec_sent() as int, ex.spec_received() as int);
    }
}

/// Within an exchange on the loopback model that started idle, the words in flight
/// are exactly the buffer's words sent but not yet received.
proof fn lemma_in_flight<W>(
    written: Seq<W>,
    read: Seq<W>,
    in_flight: Seq<W>,
    base: Seq<W>,
    start: Seq<W>,
    sent: int,
    received: int,
)
    requires
        0 <= received <= sent <= start.len(),
        written == read + in_flight,
        written == base + start.subrange(0, sent),
        read == base + start.subrange(0, received),
    ensures
        in_flight == start.subrange(received, sent),
{
    assert(in_flight =~= written.subrange(read.len() as int, written.len() as int));
    assert(in_flight =~= start.subrange(received, sent));
}

/// Runs a write-only exchange of `words` on the loopback model: the data register
/// is written with the buffer's words, in order, each once, and every received
/// word is discarded.
pub fn write<W: Copy>(port: &mut LoopbackFifo<W>, words: &Vec<W>)
    requires
        old(port).wf(),
        old(port).spec_in_flight().len() == 0,
        old(port).spec_data_writes() + words@.len() <= usize::MAX,
        old(port).spec_data_reads() + words@.len() <= usize::MAX,
    ensures
        final(port).wf(),
        final(port).spec_written() == old(port).spec_written() + words@,
        final(port).spec_read() == old(port).spec_read() + words@,
        final(port).spec_in_flight().len() == 0,
        final(port).spec_data_writes() == old(port).spec_data_writes() + words@.len(),
        final(port).spec_data_reads() == old(port).spec_data_reads() + words@.len(),
{
    let ghost written0 = port.spec_written();
    let ghost read0 = port.spec_read();
    let mut ex = Exchange::new(words.len());
    loop
        invariant
            ex.wf(),
            port.wf(),
            ex.spec_len() == words@.len(),
            port.spec_written() == written0 + words@.subrange(0, ex.spec_sent() as int),
            port.spec_read() == read0 + words@.subrange(0, ex.spec_received() as int),
            written0.len() + words@.len() <= usize::MAX,
            read0.len() + words@.len() <= usize::MAX,
            written0 == read0,
        ensures
            ex.spec_sent() == ex.spec_len(),
            ex.spec_received() == ex.spec_len(),
        decreases 2 * ex.spec_len() - ex.spec_sent() - ex.spec_received(),
    {
        proof {
            lemma_in_flight(port.spec_written(), port.spec_read(), port.spec_in_flight(),
                written0, words@, ex.spec_sent() as int, ex.spec_received() as int);
        }
        match ex.next_action() {
            Action::Send(i) => {
                let accepted = port.try_send(words[i]);
                if accepted {
                    ex.sent_one();
                    assert(port.spec_written() =~= written0 + words@.subrange(0, ex.spec_sent() as int));
                }
            },
            Action::Receive(_) => {
                let r = port.try_receive();
                if r.is_some() {
                    ex.received_one();
                    assert(port.spec_read() =~= read0 + words@.subrange(0, ex.spec_received() as int));
                }
            },
            Action::Done => {
                break ;
            },
        }
    }
    assert(words@.subrange(0, words@.len() as int) =~= words@);
    proof {
        lemma_in_flight(port.spec_written(), port.spec_read(), port.spec_in_flight(),
            written0, words@, ex.spec_sent() as int, ex.spec_received() as int);
    }
}

} // verus!
