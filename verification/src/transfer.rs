//! The plan by which the bytes of a body are read from the file and
//! forwarded: in bounded pieces, in ascending order, each piece starting
//! where the one before it ended.
//!
//! A [`Transfer`] decides; the caller reads and writes. After each piece the
//! caller reports what happened and is told what to do next.

use vstd::prelude::*;
use vstd::slice::slice_subrange;

verus! {

/// The chunk size of the application: 64 KiB.
pub const DEFAULT_CHUNK: u64 = 65536;

/// The time, in seconds, that a client may leave a piece untaken before the
/// transfer is given up.
pub const IDLE_SECONDS: u64 = 30;

/// The most transfers that run at one time; further ones wait their turn.
pub const MAX_TRANSFERS: usize = 64;

/// What the caller is to do next.
#[derive(Clone, Copy, Debug, PartialEq, Eq, Structural)]
pub enum Action {
    /// Read up to `length` bytes at `offset` and forward them.
    Read { offset: u64, length: u64 },
    /// Every byte has been forwarded: close the body.
    Finish,
    /// Stop reading and release the file. Nothing is reported upward.
    Abort,
}

/// What happened to the piece that was asked for.
#[derive(Clone, Copy, Debug, PartialEq, Eq, Structural)]
pub enum Event {
    /// `count` bytes were read at the offset asked for and forwarded.
    Forwarded { count: u64 },
    /// The file could not be read.
    ReadFailed,
    /// The client has closed the connection.
    ClientGone,
    /// The client has not taken the piece within the idle time.
    Stalled,
}

/// The state of one transfer.
#[derive(Debug)]
pub struct Transfer {
    next: u64,
    remaining: u64,
    chunk: u64,
    aborted: bool,
}

/// The model of [`Transfer`].
pub struct TransferModel {
    /// The offset of the next byte to read.
    pub next: u64,
    /// The number of bytes still to forward.
    pub remaining: u64,
    /// The most bytes that one read asks for.
    pub chunk: u64,
    /// The transfer was given up.
    pub aborted: bool,
}

impl TransferModel {
    /// The state can be reached from the start of a transfer.
    pub open spec fn well_formed(self) -> bool {
        &&& self.chunk >= 1
        &&& self.next + self.remaining <= u64::MAX
    }

    /// The size of the piece that is asked for next.
    pub open spec fn piece(self) -> u64 {
        if self.remaining < self.chunk {
            self.remaining
        } else {
            self.chunk
        }
    }

    /// What the caller is to do in this state.
    pub open spec fn pending(self) -> Action {
        if self.aborted {
            Action::Abort
        } else if self.remaining == 0 {
            Action::Finish
        } else {
            Action::Read { offset: self.next, length: self.piece() }
        }
    }

    /// The state after `event`. While a read is pending, forwarded bytes
    /// move the transfer on by their number; a read that brought nothing or
    /// more than was asked for, a failed read, a lost client and a stalled
    /// one end it. A transfer that has ended stays as it is.
    pub open spec fn after(self, event: Event) -> TransferModel {
        if self.aborted || self.remaining == 0 {
            self
        } else {
            match event {
                Event::Forwarded { count } => if 0 < count <= self.piece() {
                    TransferModel {
                        next: (self.next + count) as u64,
                        remaining: (self.remaining - count) as u64,
                        ..self
                    }
                } else {
                    TransferModel { aborted: true, ..self }
                },
                Event::ReadFailed => TransferModel { aborted: true, ..self },
                Event::ClientGone => TransferModel { aborted: true, ..self },
                Event::Stalled => TransferModel { aborted: true, ..self },
            }
        }
    }
}

/// The state in which a transfer of `length` bytes from offset `start`
/// begins. A chunk size of zero counts as one, and a length that would run
/// past the largest offset is cut there.
pub open spec fn begin_spec(start: u64, length: u64, chunk: u64) -> TransferModel {
    TransferModel {
        next: start,
        remaining: if length <= u64::MAX - start {
            length
        } else {
            (u64::MAX - start) as u64
        },
        chunk: if chunk == 0 {
            1
        } else {
            chunk
        },
        aborted: false,
    }
}

/// The part of `contents` that a transfer of `length` bytes from offset
/// `start` can deliver: the bytes asked for, as far as the file has them.
pub open spec fn deliverable(contents: Seq<u8>, start: u64, length: u64) -> Seq<u8> {
    let from = if start <= contents.len() {
        start as int
    } else {
        contents.len() as int
    };
    let to = if start + length <= contents.len() {
        start + length
    } else {
        contents.len() as int
    };
    contents.subrange(from, to)
}

/// The state after a run of events, taken in order.
pub open spec fn after_all(state: TransferModel, events: Seq<Event>) -> TransferModel
    decreases events.len(),
{
    if events.len() == 0 {
        state
    } else {
        after_all(state, events.drop_last()).after(events.last())
    }
}

/// The number of bytes that a run of events has moved the transfer on by:
/// the counts of the pieces that were taken, and nothing for an event that
/// ended the transfer or came after its end.
pub open spec fn forwarded(state: TransferModel, events: Seq<Event>) -> nat
    decreases events.len(),
{
    if events.len() == 0 {
        0
    } else {
        let before = after_all(state, events.drop_last());
        let taken: nat = match events.last() {
            Event::Forwarded { count } => if !before.aborted && before.remaining != 0 && 0 < count
                <= before.piece() {
                count as nat
            } else {
                0
            },
            _ => 0,
        };
        forwarded(state, events.drop_last()) + taken
    }
}

/// Whatever happens during a transfer, the pieces join up: the next read
/// starts where the bytes forwarded so far end, so that no byte is skipped
/// and none is sent twice, and what has been forwarded and what remains
/// always make up the range that was asked for.
pub proof fn lemma_pieces_join(start: u64, length: u64, chunk: u64, events: Seq<Event>)
    ensures
        ({
            let first = begin_spec(start, length, chunk);
            let now = after_all(first, events);
            &&& now.well_formed()
            &&& now.chunk == first.chunk
            &&& now.next == start + forwarded(first, events)
            &&& now.next + now.remaining == start + first.remaining
            &&& now.pending() matches Action::Read { offset, length: wanted } ==> offset == start
                + forwarded(first, events) && 1 <= wanted <= first.chunk && offset + wanted <= start
                + first.remaining
        }),
    decreases events.len(),
{
    if events.len() > 0 {
        lemma_pieces_join(start, length, chunk, events.drop_last());
    }
}

impl View for Transfer {
    type V = TransferModel;

    closed spec fn view(&self) -> TransferModel {
        TransferModel {
            next: self.next,
            remaining: self.remaining,
            chunk: self.chunk,
            aborted: self.aborted,
        }
    }
}

impl Transfer {
    #[verifier::type_invariant]
    spec fn sound(self) -> bool {
        self@.well_formed()
    }

    /// Begins a transfer of `length` bytes from offset `start`, in pieces of
    /// at most `chunk` bytes.
    pub fn begin(start: u64, length: u64, chunk: u64) -> (t: Transfer)
        ensures
            t@ == begin_spec(start, length, chunk),
            t@.well_formed(),
    {
        let remaining: u64 = if length <= u64::MAX - start {
            length
        } else {
            u64::MAX - start
        };
        let chunk: u64 = if chunk == 0 {
            1
        } else {
            chunk
        };
        Transfer { next: start, remaining, chunk, aborted: false }
    }

    /// What the caller is to do now. A read never asks for more than the
    /// chunk size, nor for nothing.
    pub fn pending(&self) -> (a: Action)
        ensures
            self@.well_formed(),
            a == self@.pending(),
            a matches Action::Read { offset, length } ==> 1 <= length <= self@.chunk && offset
                + length <= u64::MAX,
    {
        proof {
            use_type_invariant(self);
        }
        if self.aborted {
            Action::Abort
        } else if self.remaining == 0 {
            Action::Finish
        } else {
            let length: u64 = if self.remaining < self.chunk {
                self.remaining
            } else {
                self.chunk
            };
            Action::Read { offset: self.next, length }
        }
    }

    /// Takes note of what happened to the piece that was asked for, and says
    /// what to do next. The end of the range never moves: what is forwarded
    /// is taken off what remains.
    pub fn step(&mut self, event: Event) -> (a: Action)
        ensures
            final(self)@ == old(self)@.after(event),
            final(self)@.well_formed(),
            a == final(self)@.pending(),
            final(self)@.next + final(self)@.remaining <= old(self)@.next + old(self)@.remaining,
            !final(self)@.aborted ==> final(self)@.next + final(self)@.remaining == old(self)@.next
                + old(self)@.remaining,
    {
        proof {
            use_type_invariant(&*self);
        }
        if !self.aborted && self.remaining > 0 {
            let piece: u64 = if self.remaining < self.chunk {
                self.remaining
            } else {
                self.chunk
            };
            match event {
                Event::Forwarded { count } => {
                    if 0 < count && count <= piece {
                        self.remaining = self.remaining - count;
                        self.next = self.next + count;
                    } else {
                        self.aborted = true;
                    }
                },
                Event::ReadFailed => {
                    self.aborted = true;
                },
                Event::ClientGone => {
                    self.aborted = true;
                },
                Event::Stalled => {
                    self.aborted = true;
                },
            }
        }
        self.pending()
    }
}

/// Delivers `length` bytes of `contents` from offset `start` by running a
/// transfer with pieces of at most `chunk` bytes against it: the bytes that
/// come out are those of the file, in order, none missing and none twice.
/// Where the file ends early the transfer ends with it.
pub fn copy_range(contents: &[u8], start: u64, length: u64, chunk: u64) -> (out: Vec<u8>)
    ensures
        out@ == deliverable(contents@, start, length),
{
    let total: usize = contents.len();
    let mut transfer: Transfer = Transfer::begin(start, length, chunk);
    let mut out: Vec<u8> = Vec::new();
    let mut action: Action = transfer.pending();
    let ghost end: int = transfer@.next + transfer@.remaining;
    loop
        invariant_except_break
            transfer@.well_formed(),
            !transfer@.aborted,
            action == transfer@.pending(),
            transfer@.next + transfer@.remaining == end,
            start <= transfer@.next,
            start <= total ==> transfer@.next <= total && out@ == contents@.subrange(
                start as int,
                transfer@.next as int,
            ),
            start > total ==> transfer@.next == start && out@.len() == 0,
        invariant
            total == contents@.len(),
            end == begin_spec(start, length, chunk).next + begin_spec(
                start,
                length,
                chunk,
            ).remaining,
        ensures
            out@ == deliverable(contents@, start, length),
        decreases transfer@.remaining,
    {
        match action {
            Action::Read { offset, length: wanted } => {
                let available: u64 = if offset < total as u64 {
                    total as u64 - offset
                } else {
                    0
                };
                let count: u64 = if wanted < available {
                    wanted
                } else {
                    available
                };
                if count > 0 {
                    let from: usize = offset as usize;
                    let to: usize = (offset + count) as usize;
                    let piece: &[u8] = slice_subrange(contents, from, to);
                    let ghost before = out@;
                    let mut k: usize = 0;
                    while k < piece.len()
                        invariant
                            0 <= k <= piece.len(),
                            out@ == before + piece@.subrange(0, k as int),
                        decreases piece.len() - k,
                    {
                        out.push(piece[k]);
                        proof {
                            assert(piece@.subrange(0, k as int + 1) =~= piece@.subrange(
                                0,
                                k as int,
                            ).push(piece@[k as int]));
                        }
                        k = k + 1;
                    }
                    proof {
                        assert(piece@.subrange(0, piece@.len() as int) =~= piece@);
                        assert(out@ =~= contents@.subrange(start as int, offset + count));
                    }
                }
                action = transfer.step(Event::Forwarded { count });
                if count == 0 {
                    proof {
                        assert(offset >= total);
                        if start <= total {
                            assert(offset == total);
                        }
                        assert(out@ =~= deliverable(contents@, start, length));
                    }
                    break ;
                }
            },
            Action::Finish => {
                proof {
                    assert(transfer@.next == end);
                    assert(out@ =~= deliverable(contents@, start, length));
                }
                break ;
            },
            Action::Abort => {
                break ;
            },
        }
    }
    out
}

} // verus!
