//! The asynchronous-input pipeline's verified core: an ordered
//! single-producer/single-consumer byte channel and the decisions of the
//! background reader.
//!
//! The one blocking operation — the device read itself — stays outside this
//! crate; the background loop hands each read's outcome to
//! [`ByteChannel::on_read`], which appends delivered bytes, decides whether
//! the loop goes on, and closes the channel on stop, error or end of
//! stream. The consumer polls with [`ByteChannel::try_next`], which never
//! blocks. Chunks come out in exactly the order they went in, and a stop
//! request never loses bytes already read ([`lemma_stop_keeps_data`],
//! [`lemma_closed_channel_drains_in_order`]).

use std::collections::VecDeque;
use vstd::prelude::*;

verus! {

/// The mathematical value of a [`ByteChannel`]: the chunks not yet polled,
/// in arrival order, whether the producer has closed it, and whether a stop
/// was requested.
#[verifier::ext_equal]
pub struct ChannelModel {
    pub pending: Seq<Seq<u8>>,
    pub closed: bool,
    pub stop_requested: bool,
}

/// The outcome of one blocking read against the device.
#[derive(Debug)]
pub enum ReadOutcome {
    /// The read returned at least one byte.
    Data(Vec<u8>),
    /// The read reported a clean end of stream.
    EndOfStream,
    /// The read returned an error.
    Failed,
}

/// The value of a read outcome, with the bytes as a sequence.
#[verifier::ext_equal]
pub enum ReadOutcomeModel {
    Data(Seq<u8>),
    EndOfStream,
    Failed,
}

impl View for ReadOutcome {
    type V = ReadOutcomeModel;

    open spec fn view(&self) -> ReadOutcomeModel {
        match self {
            ReadOutcome::Data(bytes) => ReadOutcomeModel::Data(bytes@),
            ReadOutcome::EndOfStream => ReadOutcomeModel::EndOfStream,
            ReadOutcome::Failed => ReadOutcomeModel::Failed,
        }
    }
}

/// What one non-blocking poll returned.
#[derive(Debug)]
pub enum ChannelPoll {
    /// The next chunk, in arrival order.
    Chunk(Vec<u8>),
    /// Nothing available yet; the channel is still open.
    NotReady,
    /// The channel is closed and fully drained.
    Closed,
}

/// The value of a poll result.
#[verifier::ext_equal]
pub enum ChannelPollModel {
    Chunk(Seq<u8>),
    NotReady,
    Closed,
}

impl View for ChannelPoll {
    type V = ChannelPollModel;

    open spec fn view(&self) -> ChannelPollModel {
        match self {
            ChannelPoll::Chunk(bytes) => ChannelPollModel::Chunk(bytes@),
            ChannelPoll::NotReady => ChannelPollModel::NotReady,
            ChannelPoll::Closed => ChannelPollModel::Closed,
        }
    }
}

/// How one read outcome changes the channel: delivered bytes are appended
/// whatever else holds, and the channel closes on a stop request, an error
/// or the end of the stream.
pub open spec fn on_read_model(m: ChannelModel, r: ReadOutcomeModel) -> ChannelModel {
    match r {
        ReadOutcomeModel::Data(bytes) => ChannelModel {
            pending: m.pending.push(bytes),
            closed: m.stop_requested,
            ..m
        },
        _ => ChannelModel { closed: true, ..m },
    }
}

/// What one poll returns and leaves behind: the oldest pending chunk when
/// there is one; otherwise closure when the producer has finished, or
/// nothing yet.
pub open spec fn poll_model(m: ChannelModel) -> (ChannelModel, ChannelPollModel) {
    if m.pending.len() > 0 {
        (ChannelModel { pending: m.pending.skip(1), ..m }, ChannelPollModel::Chunk(m.pending[0]))
    } else if m.closed {
        (m, ChannelPollModel::Closed)
    } else {
        (m, ChannelPollModel::NotReady)
    }
}

/// The ordered byte channel between the background reader and the poller.
/// It is unbounded: the producer never waits on the consumer, so a stalled
/// consumer cannot wedge the background read in a way `stop` cannot unwind.
pub struct ByteChannel {
    pending: VecDeque<Vec<u8>>,
    closed: bool,
    stop_requested: bool,
}

impl View for ByteChannel {
    type V = ChannelModel;

    closed spec fn view(&self) -> ChannelModel {
        ChannelModel {
            pending: self.pending@.map(|i: int, v: Vec<u8>| v@),
            closed: self.closed,
            stop_requested: self.stop_requested,
        }
    }
}

impl ByteChannel {
    /// A fresh, open, empty channel.
    pub fn new() -> (c: ByteChannel)
        ensures
            c@ == (ChannelModel { pending: Seq::empty(), closed: false, stop_requested: false }),
    {
        let c = ByteChannel { pending: VecDeque::new(), closed: false, stop_requested: false };
        proof {
            assert(c@ =~= ChannelModel {
                pending: Seq::empty(),
                closed: false,
                stop_requested: false,
            });
        }
        c
    }

    /// Asks the background reader to terminate after its current read.
    /// Cooperative: nothing already delivered is affected.
    pub fn request_stop(&mut self)
        ensures
            final(self)@ == (ChannelModel { stop_requested: true, ..old(self)@ }),
    {
        self.stop_requested = true;
        proof {
            assert(final(self)@ =~= ChannelModel { stop_requested: true, ..old(self)@ });
        }
    }

    /// Whether a stop was requested.
    pub fn stop_was_requested(&self) -> (r: bool)
        ensures
            r == self@.stop_requested,
    {
        self.stop_requested
    }

    /// Whether the producer has closed the channel. Chunks delivered before
    /// closure remain pollable.
    pub fn is_closed(&self) -> (r: bool)
        ensures
            r == self@.closed,
    {
        self.closed
    }

    /// Takes in the outcome of one blocking read and decides whether the
    /// background loop performs another; follows [`on_read_model`]. Bytes
    /// of a successful read are appended even when the channel closes in
    /// the same step, so a graceful stop loses nothing. The loop continues
    /// exactly when the channel stays open.
    pub fn on_read(&mut self, r: ReadOutcome) -> (cont: bool)
        requires
            !old(self)@.closed,
        ensures
            final(self)@ == on_read_model(old(self)@, r@),
            cont == !final(self)@.closed,
    {
        match r {
            ReadOutcome::Data(bytes) => {
                let ghost rv = bytes@;
                self.pending.push_back(bytes);
                if self.stop_requested {
                    self.closed = true;
                }
                proof {
                    assert(final(self)@.pending =~= old(self)@.pending.push(rv));
                    assert(final(self)@ =~= on_read_model(old(self)@, ReadOutcomeModel::Data(rv)));
                }
                !self.closed
            },
            ReadOutcome::EndOfStream => {
                self.closed = true;
                proof {
                    assert(final(self)@ =~= on_read_model(old(self)@, r@));
                }
                false
            },
            ReadOutcome::Failed => {
                self.closed = true;
                proof {
                    assert(final(self)@ =~= on_read_model(old(self)@, r@));
                }
                false
            },
        }
    }

    /// Non-blocking poll; follows [`poll_model`]. Returns the oldest
    /// pending chunk if any — delivery order is arrival order — and
    /// reports closure only once every delivered chunk has been polled.
    pub fn try_next(&mut self) -> (r: ChannelPoll)
        ensures
            final(self)@ == poll_model(old(self)@).0,
            r@ == poll_model(old(self)@).1,
    {
        match self.pending.pop_front() {
            Some(bytes) => {
                proof {
                    assert(final(self)@.pending =~= old(self)@.pending.skip(1));
                    assert(final(self)@ =~= poll_model(old(self)@).0);
                }
                ChannelPoll::Chunk(bytes)
            },
            None => {
                proof {
                    assert(final(self)@ =~= old(self)@);
                }
                if self.closed {
                    ChannelPoll::Closed
                } else {
                    ChannelPoll::NotReady
                }
            },
        }
    }
}

/// After a stop request, the read already in flight still delivers: its
/// bytes are appended behind everything pending, and only then does the
/// channel close — no data is lost on a graceful shutdown.
pub proof fn lemma_stop_keeps_data(m: ChannelModel, bytes: Seq<u8>)
    requires
        m.stop_requested,
        !m.closed,
    ensures
        on_read_model(m, ReadOutcomeModel::Data(bytes)).closed,
        on_read_model(m, ReadOutcomeModel::Data(bytes)).pending =~= m.pending.push(bytes),
{
}

/// The results of `n` successive polls, oldest first, with the channel
/// state they leave behind.
pub open spec fn polls(m: ChannelModel, n: nat) -> (ChannelModel, Seq<ChannelPollModel>)
    decreases n,
{
    if n == 0 {
        (m, seq![])
    } else {
        let first = poll_model(m);
        let rest = polls(first.0, (n - 1) as nat);
        (rest.0, seq![first.1] + rest.1)
    }
}

/// Polling a closed channel yields every pending chunk, in arrival order,
/// and then — only then — reports closure.
pub proof fn lemma_closed_channel_drains_in_order(m: ChannelModel)
    requires
        m.closed,
    ensures
        polls(m, m.pending.len()).1 =~= m.pending.map(|i: int, c: Seq<u8>| ChannelPollModel::Chunk(c)),
        poll_model(polls(m, m.pending.len()).0).1 == ChannelPollModel::Closed,
    decreases m.pending.len(),
{
    if m.pending.len() == 0 {
    } else {
        let first = poll_model(m);
        lemma_closed_channel_drains_in_order(first.0);
        assert(polls(m, m.pending.len()).1 =~= seq![ChannelPollModel::Chunk(m.pending[0])]
            + first.0.pending.map(|i: int, c: Seq<u8>| ChannelPollModel::Chunk(c)));
    }
}

} // verus!
