//! Video playback scheduling: the decisions that turn a demuxed stream of video and linked
//! audio access units into presenter submissions, keyframe recovery and playback start.
//!
//! The media channels are independent, so each stream's decode order is kept rather than the
//! container's cross-stream order. Video that arrives ahead of the audio already sent is held
//! back until audio covers it, so that audio can reach the presenter and start its clock.

use vstd::prelude::*;
use std::collections::VecDeque;
use crate::error::StreamError;
use crate::stream_info::EncodedPacket;
use crate::timing::NO_TIMESTAMP;

verus! {

/// Buffer requested when video playback starts or resumes, in microseconds.
pub const INITIAL_BUFFER_US: u64 = 33_000;

/// Linked audio buffered before playback starts, in microseconds.
pub const AUDIO_PREBUFFER_US: u64 = 100_000;

/// What Vivi tracks while it submits one video.
#[derive(Debug, Clone, Copy)]
pub struct PlaybackState {
    pub packet_id: u64,
    pub encoded_bytes: u64,
    pub playback_started: bool,
    pub audio_started: bool,
    pub first_pts_us: Option<i64>,
    pub last_pts_us: Option<i64>,
    pub epoch: u32,
    pub awaiting_keyframe: bool,
    pub audio_buffered_us: u64,
    pub audio_horizon_us: Option<i64>,
    pub audio_packet_id: u64,
}

/// `a + b` saturating at `u64::MAX`.
pub open spec fn saturating_add_u64(a: u64, b: int) -> u64 {
    if a + b > u64::MAX { u64::MAX } else { (a + b) as u64 }
}

/// `a + b` for `b >= 0`, saturating at `i64::MAX`.
pub open spec fn saturating_add_i64(a: i64, b: int) -> i64 {
    if a + b > i64::MAX { i64::MAX } else { (a + b) as i64 }
}

/// The end time of the linked audio sent so far after one more packet with timestamp `pts_us`
/// and length `duration_us`: a timestamped packet extends the horizon to at least its end; an
/// untimed packet extends a known horizon by its length.
pub open spec fn spec_next_horizon(horizon: Option<i64>, pts_us: i64, duration_us: u64) -> Option<i64> {
    let length = if duration_us > i64::MAX { i64::MAX as int } else { duration_us as int };
    if pts_us != NO_TIMESTAMP {
        let end = saturating_add_i64(pts_us, length);
        match horizon {
            Some(last) => Some(if last >= end { last } else { end }),
            None => Some(end),
        }
    } else {
        match horizon {
            Some(last) => Some(saturating_add_i64(last, length)),
            None => None,
        }
    }
}

/// The timestamp by which a video packet is ordered against audio: its presentation time, or
/// its decode time when it has none.
pub open spec fn video_timestamp(packet: EncodedPacket) -> i64 {
    if packet.pts_us != NO_TIMESTAMP { packet.pts_us } else { packet.dts_us }
}

/// A video packet may be submitted once audio reaching at least its time has been sent; an
/// untimed packet is always covered.
pub open spec fn spec_audio_covers_video(packet: EncodedPacket, audio_horizon_us: Option<i64>) -> bool {
    let timestamp = video_timestamp(packet);
    timestamp == NO_TIMESTAMP || (audio_horizon_us matches Some(horizon) && timestamp <= horizon)
}

/// The linked-audio horizon never moves backwards, and once known it stays known.
pub proof fn law_audio_horizon_never_recedes(horizon: Option<i64>, pts_us: i64, duration_us: u64)
    ensures
        horizon matches Some(last) ==> (spec_next_horizon(horizon, pts_us, duration_us) matches Some(next) && next >= last),
        pts_us != NO_TIMESTAMP ==> spec_next_horizon(horizon, pts_us, duration_us) is Some,
{
}

/// Coverage only grows with the horizon: a packet covered by some sent audio stays covered
/// as more audio is sent.
pub proof fn law_coverage_grows_with_horizon(packet: EncodedPacket, earlier: i64, later: i64)
    requires
        earlier <= later,
        spec_audio_covers_video(packet, Some(earlier)),
    ensures
        spec_audio_covers_video(packet, Some(later)),
{
}

/// Whether audio sent up to `audio_horizon_us` covers `packet`.
pub fn audio_covers_video(packet: &EncodedPacket, audio_horizon_us: Option<i64>) -> (covered: bool)
    ensures
        covered == spec_audio_covers_video(*packet, audio_horizon_us),
{
    let timestamp = if packet.pts_us != NO_TIMESTAMP { packet.pts_us } else { packet.dts_us };
    timestamp == NO_TIMESTAMP || match audio_horizon_us {
        Some(horizon) => timestamp <= horizon,
        None => false,
    }
}

/// What to do with a video packet once pending keyframe requests are applied.
#[derive(Debug, Clone, Copy, PartialEq, Eq, Structural)]
pub enum KeyframeGate {
    /// Drop the packet: the presenter waits for a keyframe and this is not one.
    Drop,
    /// Flush the source to this epoch, then submit the packet: it is the awaited keyframe.
    Flush(u32),
    /// Submit the packet.
    Proceed,
}

/// The epoch playback moves to when the presenter asks for a keyframe from epoch `minimum`
/// on: one past the current epoch (saturating), or the requested one if that is later.
pub open spec fn spec_requested_epoch(current: u32, minimum: u32) -> u32 {
    let next = if current == u32::MAX { u32::MAX } else { (current + 1) as u32 };
    if next >= minimum { next } else { minimum }
}

/// A keyframe request always moves playback to an epoch at least as late as requested and,
/// unless the epoch space is exhausted, strictly later than the current one, so packets of the
/// new epoch are never mistaken for old ones.
pub proof fn law_keyframe_request_advances_epoch(current: u32, minimum: u32)
    ensures
        spec_requested_epoch(current, minimum) >= minimum,
        spec_requested_epoch(current, minimum) >= current,
        current < u32::MAX ==> spec_requested_epoch(current, minimum) > current,
{
}

/// The identity under which a video packet is sent.
#[derive(Debug, Clone, Copy, PartialEq, Eq, Structural)]
pub struct PacketHeader {
    pub epoch: u32,
    pub packet_id: u64,
}

impl PlaybackState {
    /// The state before the first packet: nothing sent, epoch 1.
    pub open spec fn initial() -> PlaybackState {
        PlaybackState {
            packet_id: 0,
            encoded_bytes: 0,
            playback_started: false,
            audio_started: false,
            first_pts_us: None,
            last_pts_us: None,
            epoch: 1,
            awaiting_keyframe: false,
            audio_buffered_us: 0,
            audio_horizon_us: None,
            audio_packet_id: 0,
        }
    }

    /// The state before the first packet.
    pub fn new() -> (state: Self)
        ensures
            state == Self::initial(),
    {
        PlaybackState {
            packet_id: 0,
            encoded_bytes: 0,
            playback_started: false,
            audio_started: false,
            first_pts_us: None,
            last_pts_us: None,
            epoch: 1,
            awaiting_keyframe: false,
            audio_buffered_us: 0,
            audio_horizon_us: None,
            audio_packet_id: 0,
        }
    }

    /// Numbers a linked audio packet of `length` bytes; an empty packet is not sent.
    pub fn number_linked_audio(&mut self, length: usize) -> (packet_id: Result<Option<u64>, StreamError>)
        ensures
            length == 0 ==> packet_id == Ok::<Option<u64>, StreamError>(None) && *final(self) == *old(self),
            length > 0 && old(self).audio_packet_id == u64::MAX ==> packet_id == Err::<Option<u64>, StreamError>(
                StreamError::AudioPacketIdsExhausted,
            ) && *final(self) == *old(self),
            length > 0 && old(self).audio_packet_id < u64::MAX ==> {
                &&& packet_id == Ok::<Option<u64>, StreamError>(Some((old(self).audio_packet_id + 1) as u64))
                &&& *final(self) == (PlaybackState {
                    audio_packet_id: (old(self).audio_packet_id + 1) as u64,
                    ..*old(self)
                })
            },
    {
        if length == 0 {
            return Ok(None);
        }
        if self.audio_packet_id == u64::MAX {
            return Err(StreamError::AudioPacketIdsExhausted);
        }
        self.audio_packet_id = self.audio_packet_id + 1;
        Ok(Some(self.audio_packet_id))
    }

    /// Records a linked audio packet that reached the presenter.
    pub fn observe_audio_packet(&mut self, pts_us: i64, duration_us: u64)
        ensures
            *final(self) == (PlaybackState {
                audio_buffered_us: saturating_add_u64(old(self).audio_buffered_us, duration_us as int),
                audio_horizon_us: spec_next_horizon(old(self).audio_horizon_us, pts_us, duration_us),
                ..*old(self)
            }),
    {
        self.audio_buffered_us = self.audio_buffered_us.saturating_add(duration_us);
        let length: i64 = if duration_us > i64::MAX as u64 { i64::MAX } else { duration_us as i64 };
        if pts_us != NO_TIMESTAMP {
            let end = if pts_us > i64::MAX - length { i64::MAX } else { pts_us + length };
            self.audio_horizon_us = match self.audio_horizon_us {
                Some(last) => Some(if last >= end { last } else { end }),
                None => Some(end),
            };
        } else {
            self.audio_horizon_us = match self.audio_horizon_us {
                Some(last) => Some(if last > i64::MAX - length { i64::MAX } else { last + length }),
                None => None,
            };
        }
    }

    /// Applies a keyframe request from the presenter (`minimum_epoch`, if one arrived) and
    /// decides what happens to a packet whose keyframe flag is `key`. A request moves playback
    /// to a new epoch, one past the current one and at least the requested one, and makes Vivi
    /// wait for a keyframe; the keyframe that ends the wait flushes the source and restarts
    /// playback buffering.
    pub fn gate_packet(&mut self, minimum_epoch: Option<u32>, key: bool) -> (gate: KeyframeGate)
        ensures
            ({
                let epoch = match minimum_epoch {
                    Some(minimum) => spec_requested_epoch(old(self).epoch, minimum),
                    None => old(self).epoch,
                };
                let awaiting = minimum_epoch is Some || old(self).awaiting_keyframe;
                if awaiting && !key {
                    &&& gate == KeyframeGate::Drop
                    &&& *final(self) == (PlaybackState { epoch, awaiting_keyframe: true, ..*old(self) })
                } else if awaiting {
                    &&& gate == KeyframeGate::Flush(epoch)
                    &&& *final(self) == (PlaybackState {
                        epoch,
                        awaiting_keyframe: false,
                        playback_started: false,
                        audio_buffered_us: 0,
                        audio_horizon_us: None,
                        ..*old(self)
                    })
                } else {
                    &&& gate == KeyframeGate::Proceed
                    &&& *final(self) == *old(self)
                }
            }),
    {
        if let Some(minimum) = minimum_epoch {
            let next = self.epoch.saturating_add(1);
            self.epoch = if next >= minimum { next } else { minimum };
            self.awaiting_keyframe = true;
        }
        if self.awaiting_keyframe && !key {
            return KeyframeGate::Drop;
        }
        if self.awaiting_keyframe {
            self.awaiting_keyframe = false;
            self.playback_started = false;
            self.audio_buffered_us = 0;
            self.audio_horizon_us = None;
            return KeyframeGate::Flush(self.epoch);
        }
        KeyframeGate::Proceed
    }

    /// Assigns the next packet identifier to a non-empty packet of `length` bytes with
    /// presentation time `pts_us`, and records its size and time; an empty packet is not sent.
    pub fn record_packet(&mut self, length: usize, pts_us: i64) -> (header: Result<Option<PacketHeader>, StreamError>)
        ensures
            length == 0 ==> header == Ok::<Option<PacketHeader>, StreamError>(None) && *final(self) == *old(self),
            length > 0 && old(self).packet_id == u64::MAX ==> header == Err::<Option<PacketHeader>, StreamError>(
                StreamError::VideoPacketIdsExhausted,
            ) && *final(self) == *old(self),
            length > 0 && old(self).packet_id < u64::MAX ==> {
                &&& header == Ok::<Option<PacketHeader>, StreamError>(
                    Some(PacketHeader { epoch: old(self).epoch, packet_id: (old(self).packet_id + 1) as u64 }),
                )
                &&& *final(self) == (PlaybackState {
                    packet_id: (old(self).packet_id + 1) as u64,
                    encoded_bytes: saturating_add_u64(old(self).encoded_bytes, length as int),
                    first_pts_us: if pts_us != NO_TIMESTAMP && old(self).first_pts_us is None {
                        Some(pts_us)
                    } else {
                        old(self).first_pts_us
                    },
                    last_pts_us: if pts_us == NO_TIMESTAMP {
                        old(self).last_pts_us
                    } else {
                        match old(self).last_pts_us {
                            Some(last) => Some(if last >= pts_us { last } else { pts_us }),
                            None => Some(pts_us),
                        }
                    },
                    ..*old(self)
                })
            },
    {
        if length == 0 {
            return Ok(None);
        }
        if self.packet_id == u64::MAX {
            return Err(StreamError::VideoPacketIdsExhausted);
        }
        self.packet_id = self.packet_id + 1;
        self.encoded_bytes = self.encoded_bytes.saturating_add(length as u64);
        if pts_us != NO_TIMESTAMP {
            if self.first_pts_us.is_none() {
                self.first_pts_us = Some(pts_us);
            }
            self.last_pts_us = match self.last_pts_us {
                Some(last) => Some(if last >= pts_us { last } else { pts_us }),
                None => Some(pts_us),
            };
        }
        Ok(Some(PacketHeader { epoch: self.epoch, packet_id: self.packet_id }))
    }

    /// Records that the presenter was told to play, and says whether local audio should be
    /// started with it: when there is local audio that has not started yet.
    pub fn mark_playback_started(&mut self, has_local_audio: bool) -> (start_local_audio: bool)
        ensures
            *final(self) == (PlaybackState { playback_started: true, ..*old(self) }),
            start_local_audio == (has_local_audio && !old(self).audio_started),
    {
        self.playback_started = true;
        has_local_audio && !self.audio_started
    }

    /// Whether playback starts right after a packet was sent, and with what buffering: when
    /// the packet may start it and playback has not started yet.
    pub fn start_after_submit(&self, start_after_packet: bool) -> (start: Option<u64>)
        ensures
            start == if !self.playback_started && start_after_packet { Some(INITIAL_BUFFER_US) } else { None },
    {
        if !self.playback_started && start_after_packet {
            Some(INITIAL_BUFFER_US)
        } else {
            None
        }
    }

    /// Records that local audio output started.
    pub fn mark_audio_started(&mut self)
        ensures
            *final(self) == (PlaybackState { audio_started: true, ..*old(self) }),
    {
        self.audio_started = true;
    }
}

/// Where the scheduler is in its work after the latest event.
#[derive(Debug, Clone, Copy, PartialEq, Eq, Structural)]
pub enum SchedulePhase {
    /// Nothing to do until the next demuxed packet.
    Idle,
    /// A packet was demuxed: check whether linked-audio playback can start, then drain.
    PreRoll,
    /// Handing out the held packets that may go now.
    Drain,
    /// The file ended: start playback first if nothing was sent but video is held.
    EndStart,
    /// The file ended: hand out every held packet, then start playback if it has not started.
    EndDrain,
    /// All work for the file is done.
    Finished,
}

/// What Vivi does next for the video being played.
#[derive(Debug)]
pub enum VideoAction {
    /// Nothing until the next demuxed packet.
    Wait,
    /// Ask the presenter to play with this much buffering.
    StartPlayback(u64),
    /// Submit this packet; if `start_after_packet`, playback is started after it when it has
    /// not started yet.
    Submit { packet: EncodedPacket, start_after_packet: bool },
    /// The file is finished.
    Done,
}

/// The video packets held back while linked audio catches up, in decode order, the playback
/// state they are submitted under, and where the scheduler is in its work.
pub struct VideoScheduler {
    pub state: PlaybackState,
    pub pending: VecDeque<EncodedPacket>,
    pub linked_audio: bool,
    pub phase: SchedulePhase,
}

/// Every packet of `packets` is a non-keyframe.
pub open spec fn all_non_key(packets: Seq<EncodedPacket>) -> bool {
    forall|i: int| 0 <= i < packets.len() ==> !(#[trigger] packets[i]).key
}

/// `packets` without the non-keyframes before its first keyframe.
pub open spec fn skip_non_keys(packets: Seq<EncodedPacket>) -> Seq<EncodedPacket>
    decreases packets.len(),
{
    if packets.len() > 0 && !packets[0].key {
        skip_non_keys(packets.drop_first())
    } else {
        packets
    }
}

/// One step of draining held packets: with linked audio, the next packet goes once playback
/// has started and audio covers it, and is not allowed to start playback; without it, every
/// held packet goes and may start playback.
pub open spec fn spec_drain(state: PlaybackState, pending: Seq<EncodedPacket>, linked: bool) -> (Seq<EncodedPacket>, SchedulePhase, Result<VideoAction, StreamError>) {
    if linked {
        if state.playback_started && pending.len() > 0 && spec_audio_covers_video(pending[0], state.audio_horizon_us) {
            (pending.drop_first(), SchedulePhase::Drain, Ok(VideoAction::Submit { packet: pending[0], start_after_packet: false }))
        } else {
            (pending, SchedulePhase::Idle, Ok(VideoAction::Wait))
        }
    } else if pending.len() > 0 {
        (pending.drop_first(), SchedulePhase::Drain, Ok(VideoAction::Submit { packet: pending[0], start_after_packet: true }))
    } else {
        (pending, SchedulePhase::Idle, Ok(VideoAction::Wait))
    }
}

/// One step of the end of the file: every held packet goes, then a file that sent nothing
/// fails, and playback is started with whatever audio is buffered if it has not started.
pub open spec fn spec_end_drain(state: PlaybackState, pending: Seq<EncodedPacket>) -> (Seq<EncodedPacket>, SchedulePhase, Result<VideoAction, StreamError>) {
    if pending.len() > 0 {
        (pending.drop_first(), SchedulePhase::EndDrain, Ok(VideoAction::Submit { packet: pending[0], start_after_packet: true }))
    } else if state.packet_id == 0 {
        (pending, SchedulePhase::Finished, Err(StreamError::NoVideoPackets))
    } else if !state.playback_started {
        (pending, SchedulePhase::Finished, Ok(VideoAction::StartPlayback(state.audio_buffered_us)))
    } else {
        (pending, SchedulePhase::Finished, Ok(VideoAction::Done))
    }
}

/// The scheduler's next step from playback state `state`, held packets `pending`, linked audio
/// `linked` and phase `phase`: the held packets and phase afterwards, and the action.
pub open spec fn spec_next_action(state: PlaybackState, pending: Seq<EncodedPacket>, linked: bool, phase: SchedulePhase) -> (Seq<EncodedPacket>, SchedulePhase, Result<VideoAction, StreamError>) {
    match phase {
        SchedulePhase::Idle => (pending, SchedulePhase::Idle, Ok(VideoAction::Wait)),
        SchedulePhase::Finished => (pending, SchedulePhase::Finished, Ok(VideoAction::Done)),
        SchedulePhase::PreRoll => if linked && !state.playback_started {
            let kept = skip_non_keys(pending);
            if kept.len() > 0 && state.audio_buffered_us >= AUDIO_PREBUFFER_US {
                (kept, SchedulePhase::Drain, Ok(VideoAction::StartPlayback(AUDIO_PREBUFFER_US)))
            } else {
                spec_drain(state, kept, linked)
            }
        } else {
            spec_drain(state, pending, linked)
        },
        SchedulePhase::Drain => spec_drain(state, pending, linked),
        SchedulePhase::EndStart => if state.packet_id == 0 && pending.len() > 0 && !state.playback_started {
            (pending, SchedulePhase::EndDrain, Ok(VideoAction::StartPlayback(state.audio_buffered_us)))
        } else {
            spec_end_drain(state, pending)
        },
        SchedulePhase::EndDrain => spec_end_drain(state, pending),
    }
}

/// The audio pre-roll bounds playback start: with linked audio, while the file is being read,
/// playback is first requested only once the full pre-roll is buffered, and a video packet
/// goes out only after playback has started, only when audio covers it, and never starts
/// playback itself.
pub proof fn law_linked_playback_waits_for_preroll(state: PlaybackState, pending: Seq<EncodedPacket>, phase: SchedulePhase)
    requires
        phase == SchedulePhase::PreRoll || phase == SchedulePhase::Drain,
    ensures
        match spec_next_action(state, pending, true, phase).2 {
            Ok(VideoAction::StartPlayback(buffer_us)) => buffer_us == AUDIO_PREBUFFER_US && state.audio_buffered_us
                >= AUDIO_PREBUFFER_US && !state.playback_started,
            Ok(VideoAction::Submit { packet, start_after_packet }) => !start_after_packet && state.playback_started
                && spec_audio_covers_video(packet, state.audio_horizon_us),
            Ok(VideoAction::Done) => false,
            _ => true,
        },
{
}

impl VideoScheduler {
    /// A scheduler for a video whose audio is linked to the presenter (`linked_audio`) or not.
    pub fn new(linked_audio: bool) -> (scheduler: Self)
        ensures
            scheduler.state == PlaybackState::initial(),
            scheduler.pending@ == Seq::<EncodedPacket>::empty(),
            scheduler.linked_audio == linked_audio,
            scheduler.phase == SchedulePhase::Idle,
    {
        VideoScheduler { state: PlaybackState::new(), pending: VecDeque::new(), linked_audio, phase: SchedulePhase::Idle }
    }

    /// Linked audio failed; from now on video is submitted without waiting for it.
    pub fn drop_linked_audio(&mut self)
        ensures
            final(self).state == old(self).state,
            final(self).pending@ == old(self).pending@,
            final(self).phase == old(self).phase,
            !final(self).linked_audio,
    {
        self.linked_audio = false;
    }

    /// Takes a demuxed video packet: it is held, in decode order, until the scheduler hands it
    /// out.
    pub fn accept_video(&mut self, packet: EncodedPacket)
        ensures
            final(self).state == old(self).state,
            final(self).linked_audio == old(self).linked_audio,
            final(self).phase == old(self).phase,
            final(self).pending@ == old(self).pending@.push(packet),
    {
        self.pending.push_back(packet);
    }

    /// A demuxed packet has been handled: the next steps check the pre-roll and drain.
    pub fn begin_round(&mut self)
        ensures
            final(self).state == old(self).state,
            final(self).pending@ == old(self).pending@,
            final(self).linked_audio == old(self).linked_audio,
            final(self).phase == SchedulePhase::PreRoll,
    {
        self.phase = SchedulePhase::PreRoll;
    }

    /// The file has ended: the next steps finish it.
    pub fn finish_file(&mut self)
        ensures
            final(self).state == old(self).state,
            final(self).pending@ == old(self).pending@,
            final(self).linked_audio == old(self).linked_audio,
            final(self).phase == SchedulePhase::EndStart,
    {
        self.phase = SchedulePhase::EndStart;
    }

    /// Before playback has started, discards held-back packets up to the first keyframe, since
    /// decoding can only begin at one, and says whether playback should now start: when a
    /// keyframe is next and enough linked audio is buffered.
    pub fn prepare_start(&mut self) -> (start: bool)
        ensures
            final(self).state == old(self).state,
            final(self).linked_audio == old(self).linked_audio,
            final(self).phase == old(self).phase,
            old(self).state.playback_started ==> !start && final(self).pending@ == old(self).pending@,
            !old(self).state.playback_started ==> {
                &&& final(self).pending@ == skip_non_keys(old(self).pending@)
                &&& exists|dropped: int|
                    0 <= dropped <= old(self).pending@.len() && final(self).pending@ == old(self).pending@.subrange(
                        dropped,
                        old(self).pending@.len() as int,
                    ) && all_non_key(old(self).pending@.subrange(0, dropped))
                &&& final(self).pending@.len() == 0 || final(self).pending@[0].key
                &&& start == (final(self).pending@.len() > 0 && old(self).state.audio_buffered_us >= AUDIO_PREBUFFER_US)
            },
    {
        if self.state.playback_started {
            return false;
        }
        let ghost held = self.pending@;
        let ghost mut dropped: int = 0;
        while self.pending.len() > 0 && !self.pending[0].key
            invariant
                self.state == old(self).state,
                self.linked_audio == old(self).linked_audio,
                self.phase == old(self).phase,
                held == old(self).pending@,
                0 <= dropped <= held.len(),
                self.pending@ == held.subrange(dropped, held.len() as int),
                all_non_key(held.subrange(0, dropped)),
                skip_non_keys(held) == skip_non_keys(self.pending@),
            decreases self.pending@.len(),
        {
            proof {
                assert(held[dropped] == self.pending@[0]);
                assert forall|i: int| 0 <= i < dropped + 1 implies !(#[trigger] held.subrange(0, dropped + 1)[i]).key by {
                    if i < dropped {
                        assert(held.subrange(0, dropped + 1)[i] == held.subrange(0, dropped)[i]);
                    }
                }
                dropped = dropped + 1;
            }
            let ghost before = self.pending@;
            self.pending.pop_front();
            assert(self.pending@ == before.drop_first());
            assert(self.pending@ == held.subrange(dropped, held.len() as int));
        }
        assert(skip_non_keys(self.pending@) == self.pending@);
        assert(0 <= dropped <= held.len() && self.pending@ == held.subrange(dropped, held.len() as int)
            && all_non_key(held.subrange(0, dropped)));
        self.pending.len() > 0 && self.state.audio_buffered_us >= AUDIO_PREBUFFER_US
    }

    /// Once playback has started, hands back the next held-back packet if linked audio
    /// already covers it.
    pub fn next_covered_video(&mut self) -> (packet: Option<EncodedPacket>)
        ensures
            final(self).state == old(self).state,
            final(self).linked_audio == old(self).linked_audio,
            final(self).phase == old(self).phase,
            if old(self).state.playback_started && old(self).pending@.len() > 0 && spec_audio_covers_video(
                old(self).pending@[0],
                old(self).state.audio_horizon_us,
            ) {
                packet == Some(old(self).pending@[0]) && final(self).pending@ == old(self).pending@.drop_first()
            } else {
                packet is None && final(self).pending@ == old(self).pending@
            },
    {
        if self.state.playback_started && self.pending.len() > 0 && audio_covers_video(
            &self.pending[0],
            self.state.audio_horizon_us,
        ) {
            self.pending.pop_front()
        } else {
            None
        }
    }

    /// Hands back the next held-back packet, whether or not audio covers it.
    pub fn next_pending_video(&mut self) -> (packet: Option<EncodedPacket>)
        ensures
            final(self).state == old(self).state,
            final(self).linked_audio == old(self).linked_audio,
            final(self).phase == old(self).phase,
            old(self).pending@.len() > 0 ==> packet == Some(old(self).pending@[0]) && final(self).pending@
                == old(self).pending@.drop_first(),
            old(self).pending@.len() == 0 ==> packet is None && final(self).pending@ == old(self).pending@,
    {
        self.pending.pop_front()
    }

    /// At the end of the file, before the held-back packets are drained: playback must start
    /// first, with whatever audio is buffered, if nothing has been sent yet but video is held.
    pub fn start_before_drain(&self) -> (start: Option<u64>)
        ensures
            start == if self.state.packet_id == 0 && self.pending@.len() > 0 && !self.state.playback_started {
                Some(self.state.audio_buffered_us)
            } else {
                None
            },
    {
        if self.state.packet_id == 0 && self.pending.len() > 0 && !self.state.playback_started {
            Some(self.state.audio_buffered_us)
        } else {
            None
        }
    }

    /// After the held-back packets are drained: a video that sent nothing is an error;
    /// otherwise playback must still start, with whatever audio is buffered, if it has not.
    pub fn start_after_drain(&self) -> (start: Result<Option<u64>, StreamError>)
        ensures
            self.state.packet_id == 0 ==> start == Err::<Option<u64>, StreamError>(StreamError::NoVideoPackets),
            self.state.packet_id > 0 ==> start == Ok::<Option<u64>, StreamError>(
                if self.state.playback_started { None } else { Some(self.state.audio_buffered_us) },
            ),
    {
        if self.state.packet_id == 0 {
            return Err(StreamError::NoVideoPackets);
        }
        if self.state.playback_started {
            Ok(None)
        } else {
            Ok(Some(self.state.audio_buffered_us))
        }
    }

    /// One step of draining held packets during the file.
    fn drain_step(&mut self) -> (action: Result<VideoAction, StreamError>)
        ensures
            final(self).state == old(self).state,
            final(self).linked_audio == old(self).linked_audio,
            (final(self).pending@, final(self).phase, action) == spec_drain(
                old(self).state,
                old(self).pending@,
                old(self).linked_audio,
            ),
    {
        let next = if self.linked_audio { self.next_covered_video() } else { self.next_pending_video() };
        match next {
            Some(packet) => {
                self.phase = SchedulePhase::Drain;
                Ok(VideoAction::Submit { packet, start_after_packet: !self.linked_audio })
            },
            None => {
                self.phase = SchedulePhase::Idle;
                Ok(VideoAction::Wait)
            },
        }
    }

    /// One step of finishing the file.
    fn end_drain_step(&mut self) -> (action: Result<VideoAction, StreamError>)
        ensures
            final(self).state == old(self).state,
            final(self).linked_audio == old(self).linked_audio,
            (final(self).pending@, final(self).phase, action) == spec_end_drain(old(self).state, old(self).pending@),
    {
        match self.next_pending_video() {
            Some(packet) => {
                self.phase = SchedulePhase::EndDrain;
                Ok(VideoAction::Submit { packet, start_after_packet: true })
            },
            None => {
                self.phase = SchedulePhase::Finished;
                match self.start_after_drain() {
                    Err(error) => Err(error),
                    Ok(Some(buffer_us)) => Ok(VideoAction::StartPlayback(buffer_us)),
                    Ok(None) => Ok(VideoAction::Done),
                }
            },
        }
    }

    /// Decides what Vivi does next: after each demuxed packet (`begin_round`), until it says
    /// to wait; after the end of the file (`finish_file`), until it says the file is done.
    pub fn next_action(&mut self) -> (action: Result<VideoAction, StreamError>)
        ensures
            final(self).state == old(self).state,
            final(self).linked_audio == old(self).linked_audio,
            (final(self).pending@, final(self).phase, action) == spec_next_action(
                old(self).state,
                old(self).pending@,
                old(self).linked_audio,
                old(self).phase,
            ),
    {
        match self.phase {
            SchedulePhase::Idle => Ok(VideoAction::Wait),
            SchedulePhase::Finished => Ok(VideoAction::Done),
            SchedulePhase::PreRoll => {
                if self.linked_audio && self.prepare_start() {
                    self.phase = SchedulePhase::Drain;
                    return Ok(VideoAction::StartPlayback(AUDIO_PREBUFFER_US));
                }
                self.drain_step()
            },
            SchedulePhase::Drain => self.drain_step(),
            SchedulePhase::EndStart => match self.start_before_drain() {
                Some(buffer_us) => {
                    self.phase = SchedulePhase::EndDrain;
                    Ok(VideoAction::StartPlayback(buffer_us))
                },
                None => self.end_drain_step(),
            },
            SchedulePhase::EndDrain => self.end_drain_step(),
        }
    }
}

/// The length of the presented timeline, from the first to the last presentation time, in
/// microseconds (zero when it runs backwards).
pub open spec fn spec_playback_timeline_us(first_pts_us: i64, last_pts_us: i64) -> u64 {
    let length = if last_pts_us - first_pts_us < i64::MIN {
        i64::MIN as int
    } else if last_pts_us - first_pts_us > i64::MAX {
        i64::MAX as int
    } else {
        last_pts_us - first_pts_us
    };
    if length < 0 { 0 } else { length as u64 }
}

/// The length of the presented timeline in microseconds.
pub fn playback_timeline_us(first_pts_us: i64, last_pts_us: i64) -> (length: u64)
    ensures
        length == spec_playback_timeline_us(first_pts_us, last_pts_us),
{
    let difference = last_pts_us as i128 - first_pts_us as i128;
    let clamped: i64 = if difference < i64::MIN as i128 {
        i64::MIN
    } else if difference > i64::MAX as i128 {
        i64::MAX
    } else {
        difference as i64
    };
    if clamped < 0 { 0 } else { clamped as u64 }
}

} // verus!
