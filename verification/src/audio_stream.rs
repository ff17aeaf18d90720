//! Streaming an audio-only file to the presenter: packet numbering and when playback starts.

use vstd::prelude::*;
use crate::error::StreamError;
use crate::playback::saturating_add_u64;

verus! {

/// Audio buffered before an audio-only file starts playing, in microseconds.
pub const INITIAL_BUFFER_US: u64 = 100_000;

/// What the streamer has sent so far.
#[derive(Debug, Clone, Copy)]
pub struct AudioStreamer {
    pub packet_id: u64,
    pub started: bool,
    pub buffered_us: u64,
}

/// What to do with one demuxed audio packet.
#[derive(Debug, Clone, Copy, PartialEq, Eq, Structural)]
pub enum AudioStep {
    /// The packet is empty and is not sent.
    Skip,
    /// Send the packet under `packet_id`; afterwards, when `start_playback` is set, ask the
    /// presenter to play with that much buffering.
    Send { packet_id: u64, start_playback: Option<u64> },
}

impl AudioStreamer {
    /// Playback has been requested exactly when the buffered audio reached the start threshold.
    pub open spec fn wf(self) -> bool {
        self.started == (self.buffered_us >= INITIAL_BUFFER_US)
    }

    /// Nothing sent yet.
    pub fn new() -> (streamer: Self)
        ensures
            streamer.packet_id == 0,
            streamer.buffered_us == 0,
            !streamer.started,
            streamer.wf(),
    {
        AudioStreamer { packet_id: 0, started: false, buffered_us: 0 }
    }

    /// Numbers a packet of `length` bytes lasting `duration_us` and says whether playback
    /// starts once it is sent.
    pub fn on_packet(&mut self, length: usize, duration_us: u64) -> (step: Result<AudioStep, StreamError>)
        requires
            old(self).wf(),
        ensures
            final(self).wf(),
            length == 0 ==> step == Ok::<AudioStep, StreamError>(AudioStep::Skip) && *final(self) == *old(self),
            length > 0 && old(self).packet_id == u64::MAX ==> step == Err::<AudioStep, StreamError>(
                StreamError::AudioPacketIdsExhausted,
            ) && *final(self) == *old(self),
            length > 0 && old(self).packet_id < u64::MAX ==> {
                let buffered = saturating_add_u64(old(self).buffered_us, duration_us as int);
                &&& final(self).packet_id == old(self).packet_id + 1
                &&& final(self).buffered_us == buffered
                &&& final(self).started == (old(self).started || buffered >= INITIAL_BUFFER_US)
                &&& step == Ok::<AudioStep, StreamError>(
                    AudioStep::Send {
                        packet_id: (old(self).packet_id + 1) as u64,
                        start_playback: if !old(self).started && buffered >= INITIAL_BUFFER_US {
                            Some(INITIAL_BUFFER_US)
                        } else {
                            None
                        },
                    },
                )
            },
    {
        if length == 0 {
            return Ok(AudioStep::Skip);
        }
        if self.packet_id == u64::MAX {
            return Err(StreamError::AudioPacketIdsExhausted);
        }
        self.packet_id = self.packet_id + 1;
        self.buffered_us = self.buffered_us.saturating_add(duration_us);
        let start_playback = if !self.started && self.buffered_us >= INITIAL_BUFFER_US {
            self.started = true;
            Some(INITIAL_BUFFER_US)
        } else {
            None
        };
        Ok(AudioStep::Send { packet_id: self.packet_id, start_playback })
    }

    /// At the end of the file: a file that sent nothing is an error; otherwise playback must
    /// still be requested, with whatever is buffered, if it has not been.
    pub fn finish(&self) -> (start: Result<Option<u64>, StreamError>)
        ensures
            self.packet_id == 0 ==> start == Err::<Option<u64>, StreamError>(StreamError::NoAudioPackets),
            self.packet_id > 0 ==> start == Ok::<Option<u64>, StreamError>(
                if self.started { None } else { Some(self.buffered_us) },
            ),
    {
        if self.packet_id == 0 {
            return Err(StreamError::NoAudioPackets);
        }
        if self.started {
            Ok(None)
        } else {
            Ok(Some(self.buffered_us))
        }
    }
}

} // verus!
