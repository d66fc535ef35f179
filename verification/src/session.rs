//! The facade: one object composing raw-mode session, input channel and
//! decoder, so a caller polls decoded events and tears everything down in
//! the right order.

use vstd::prelude::*;

use crate::decode::{flush_events, run, DecoderState};
use crate::decoder::Decoder;
use crate::event::{views_of, InputEvent};
use crate::raw::{ModeSnapshot, RawModeGuard};
use crate::reader::{
    on_read_model, poll_model, ByteChannel, ChannelModel, ChannelPoll, ChannelPollModel,
    ReadOutcome,
};

verus! {

/// What one poll of the session returned.
#[derive(Debug)]
pub enum SessionPoll {
    /// Events decoded from the next available chunk (possibly none, when
    /// the chunk only extended a partial sequence).
    Events(Vec<InputEvent>),
    /// No input available yet.
    NotReady,
    /// The input stream is closed and drained; any partial sequence has
    /// been resolved into these final events.
    Closed(Vec<InputEvent>),
}

/// An active terminal session: the raw-mode guard, the channel fed by the
/// background reader, and the decoder. Acquisition order is raw mode first,
/// then the reader; [`TerminalSession::shutdown`] releases in reverse.
pub struct TerminalSession {
    channel: ByteChannel,
    decoder: Decoder,
    guard: RawModeGuard,
}

impl TerminalSession {
    /// The channel's value.
    pub closed spec fn channel_model(&self) -> ChannelModel {
        self.channel@
    }

    /// The decoder's state.
    pub closed spec fn decoder_state(&self) -> DecoderState {
        self.decoder@
    }

    /// The decoder's consistency condition.
    pub closed spec fn decoder_wf(&self) -> bool {
        self.decoder.wf()
    }

    /// The mode snapshot the session will restore on shutdown.
    pub closed spec fn saved_mode(&self) -> ModeSnapshot {
        self.guard.saved_mode()
    }

    /// Begins a session under an acquired raw-mode guard, with a fresh
    /// channel and decoder.
    pub fn new(guard: RawModeGuard) -> (s: TerminalSession)
        ensures
            s.saved_mode() == guard.saved_mode(),
            s.channel_model() == (ChannelModel {
                pending: Seq::empty(),
                closed: false,
                stop_requested: false,
            }),
            s.decoder_state() == DecoderState::Ground,
            s.decoder_wf(),
    {
        TerminalSession { channel: ByteChannel::new(), decoder: Decoder::new(), guard }
    }

    /// Whether the input channel has closed; once it has, no further read
    /// outcome may be delivered.
    pub fn input_closed(&self) -> (r: bool)
        ensures
            r == self.channel_model().closed,
    {
        self.channel.is_closed()
    }

    /// Takes in the outcome of one background read; follows
    /// [`on_read_model`] on the channel and leaves decoder and saved mode
    /// untouched. Returns whether the background loop should read again.
    pub fn deliver(&mut self, r: ReadOutcome) -> (cont: bool)
        requires
            !old(self).channel_model().closed,
        ensures
            final(self).channel_model() == on_read_model(old(self).channel_model(), r@),
            cont == !final(self).channel_model().closed,
            final(self).decoder_state() == old(self).decoder_state(),
            final(self).decoder_wf() == old(self).decoder_wf(),
            final(self).saved_mode() == old(self).saved_mode(),
    {
        self.channel.on_read(r)
    }

    /// Asks the background reader to terminate after its current read.
    pub fn request_stop(&mut self)
        ensures
            final(self).channel_model() == (ChannelModel {
                stop_requested: true,
                ..old(self).channel_model()
            }),
            final(self).decoder_state() == old(self).decoder_state(),
            final(self).decoder_wf() == old(self).decoder_wf(),
            final(self).saved_mode() == old(self).saved_mode(),
    {
        self.channel.request_stop()
    }

    /// Polls once, never blocking: decodes the next available chunk into
    /// events, reports that nothing is ready, or — once the channel is
    /// closed and drained — resolves any partial sequence and reports
    /// closure.
    pub fn next_events(&mut self) -> (r: SessionPoll)
        requires
            old(self).decoder_wf(),
        ensures
            final(self).decoder_wf(),
            final(self).saved_mode() == old(self).saved_mode(),
            final(self).channel_model() == poll_model(old(self).channel_model()).0,
            (match poll_model(old(self).channel_model()).1 {
                ChannelPollModel::Chunk(c) => {
                    &&& r matches SessionPoll::Events(evs) && views_of(evs@) =~= run(
                        old(self).decoder_state(),
                        c,
                    ).1
                    &&& final(self).decoder_state() == run(old(self).decoder_state(), c).0
                },
                ChannelPollModel::NotReady => {
                    &&& r matches SessionPoll::NotReady
                    &&& final(self).decoder_state() == old(self).decoder_state()
                },
                ChannelPollModel::Closed => {
                    &&& r matches SessionPoll::Closed(evs) && views_of(evs@) =~= flush_events(
                        old(self).decoder_state(),
                    )
                    &&& final(self).decoder_state() == DecoderState::Ground
                },
            }),
    {
        match self.channel.try_next() {
            ChannelPoll::Chunk(bytes) => {
                let evs = self.decoder.feed(bytes.as_slice());
                SessionPoll::Events(evs)
            },
            ChannelPoll::NotReady => SessionPoll::NotReady,
            ChannelPoll::Closed => {
                let evs = self.decoder.finish();
                SessionPoll::Closed(evs)
            },
        }
    }

    /// Tears the session down in reverse acquisition order: stops the
    /// reader, drains and discards whatever input is still buffered, and
    /// only then releases the guard, handing back the exact snapshot
    /// captured at entry for the caller to apply to the device.
    pub fn shutdown(self) -> (r: ModeSnapshot)
        ensures
            r == self.saved_mode(),
    {
        let TerminalSession { mut channel, decoder: _, guard } = self;
        channel.request_stop();
        let mut done = false;
        while !done
            invariant
                true,
            decreases channel@.pending.len() + (if done { 0int } else { 1int }),
        {
            match channel.try_next() {
                ChannelPoll::Chunk(_) => {},
                ChannelPoll::NotReady => {
                    done = true;
                },
                ChannelPoll::Closed => {
                    done = true;
                },
            }
        }
        guard.release()
    }
}

} // verus!
