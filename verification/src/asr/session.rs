//! The streaming phase of a recognition session, shared by all providers.
//!
//! Once speech has started, a session connects, waits for the recognizer to
//! accept the task, streams audio in fixed-size chunks, collects the final
//! sentences the recognizer reports, and on stop flushes the remaining audio
//! and waits for the last results.  The network and the clocks are driven by
//! the caller; this module decides, event by event, what the session does.
use vstd::prelude::*;
use super::{classify_spec, OutcomeView, SessionOutcome};
use crate::text::{extend_bytes, owned, push_str, take_front, views};

verus! {

/// A message from the task that reads the recognizer's replies.
pub enum ReaderEvent {
    /// The recognizer accepted the task (task-started, session.updated).
    Ready,
    /// A final sentence.
    Final(String),
    /// The recognizer or the connection failed; the raw detail.
    Error(String),
    /// The recognizer sent its last response.
    Done,
    /// The reader stopped without a last response.
    Closed,
}

/// What happens during streaming.
pub enum StreamEvent {
    /// The user stopped recording.
    Stop,
    Reader(ReaderEvent),
    /// Captured audio (16 kHz, 16-bit mono PCM).
    Audio(Vec<u8>),
    /// The audio source closed.
    AudioClosed,
}

/// How a provider reacts to two situations that differ between providers.
#[derive(Debug, Clone, Copy)]
pub struct StreamPolicy {
    /// The recognizer's last response ends streaming.  (Two-pass streaming
    /// reports a last response mid-session and keeps going.)
    pub stop_on_done: bool,
    /// A failed audio send fails the session, rather than only dropping the
    /// rest of that frame's chunks.
    pub send_failure_fatal: bool,
}

/// Where a session stands while waiting for the recognizer to accept it.
#[derive(Debug, Clone, Copy, PartialEq, Eq)]
pub enum StartProgress {
    Waiting,
    Ready,
    Failed,
}

/// A streaming session.
pub struct StreamSession {
    /// Final sentences, in arrival order.
    pub finals: Vec<String>,
    /// Audio received and not yet sent.
    pub buffer: Vec<u8>,
    pub chunk_size: usize,
    pub policy: StreamPolicy,
    /// The recognizer reported its last response.
    pub done_received: bool,
    /// The raw detail of the failure that ended the session.
    pub error: Option<String>,
    /// The audio received: the look-back audio, then every captured frame,
    /// in arrival order.
    pub received: Ghost<Seq<u8>>,
    /// The audio taken off the buffer, in order: handed out to be sent, or
    /// dropped when framing failed.
    pub consumed: Ghost<Seq<u8>>,
}

pub open spec fn opt_seq(e: Option<String>) -> Option<Seq<char>> {
    match e {
        Some(s) => Some(s@),
        None => None,
    }
}

/// The detail recorded when the reader ends before the recognizer accepted
/// the task.
pub open spec fn ended_before_seq(ready_name: Seq<char>) -> Seq<char> {
    "reader ended before "@ + ready_name
}

/// The detail recorded when waiting for acceptance timed out.
pub open spec fn start_timeout_seq(ready_name: Seq<char>) -> Seq<char> {
    "等待 "@ + ready_name + " 超时"@
}

impl StreamSession {
    /// No audio is lost, duplicated or reordered: the audio taken off the
    /// buffer, followed by the audio still buffered, is exactly the audio
    /// received.  Every operation keeps this.
    pub open spec fn audio_conserved(&self) -> bool {
        self.consumed@ + self.buffer@ == self.received@
    }

    /// A session whose look-back audio is `pre_buffer`.
    pub fn new(pre_buffer: Vec<u8>, chunk_size: usize, policy: StreamPolicy) -> (s: Self)
        requires
            chunk_size > 0,
        ensures
            s.finals@.len() == 0,
            s.buffer@ == pre_buffer@,
            s.chunk_size == chunk_size,
            s.policy == policy,
            !s.done_received,
            s.error is None,
            s.received@ == pre_buffer@,
            s.consumed@.len() == 0,
            s.audio_conserved(),
    {
        let s = StreamSession {
            finals: Vec::new(),
            buffer: pre_buffer,
            chunk_size,
            policy,
            done_received: false,
            error: None,
            received: Ghost(pre_buffer@),
            consumed: Ghost(Seq::empty()),
        };
        assert(s.consumed@ + s.buffer@ =~= s.received@);
        s
    }

    /// Records a failure with its raw detail.
    pub fn fail(&mut self, detail: String)
        ensures
            opt_seq(final(self).error) == Some(detail@),
            final(self).received == old(self).received,
            final(self).consumed == old(self).consumed,
            final(self).finals@ == old(self).finals@,
            final(self).buffer@ == old(self).buffer@,
            final(self).chunk_size == old(self).chunk_size,
            final(self).policy == old(self).policy,
            final(self).done_received == old(self).done_received,
    {
        self.error = Some(detail);
    }

    /// The next full chunk of buffered audio to send, taken off the buffer.
    /// Audio leaves the buffer in the order it arrived.
    pub fn next_chunk(&mut self) -> (c: Option<Vec<u8>>)
        ensures
            old(self).audio_conserved() ==> final(self).audio_conserved(),
            final(self).received == old(self).received,
            final(self).finals@ == old(self).finals@,
            final(self).chunk_size == old(self).chunk_size,
            final(self).policy == old(self).policy,
            final(self).done_received == old(self).done_received,
            final(self).error == old(self).error,
            match c {
                Some(chunk) => {
                    &&& old(self).buffer@.len() >= old(self).chunk_size
                    &&& chunk@.len() == old(self).chunk_size
                    &&& old(self).buffer@ == chunk@ + final(self).buffer@
                    &&& final(self).consumed@ == old(self).consumed@ + chunk@
                },
                None => {
                    &&& old(self).buffer@.len() < old(self).chunk_size
                    &&& final(self).buffer@ == old(self).buffer@
                    &&& final(self).consumed == old(self).consumed
                },
            },
    {
        if self.buffer.len() >= self.chunk_size {
            let n = self.chunk_size;
            let chunk = take_front(&mut self.buffer, n);
            self.consumed = Ghost(self.consumed@ + chunk@);
            assert(old(self).audio_conserved() ==> self.consumed@ + self.buffer@ =~= self.received@);
            Some(chunk)
        } else {
            None
        }
    }

    /// Takes one event while the recognizer has not yet accepted the task.
    /// `ready_name` names the acceptance message in failure details.
    pub fn on_start_event(&mut self, ev: ReaderEvent, ready_name: &str) -> (p: StartProgress)
        ensures
            final(self).buffer@ == old(self).buffer@,
            final(self).received == old(self).received,
            final(self).consumed == old(self).consumed,
            final(self).chunk_size == old(self).chunk_size,
            final(self).policy == old(self).policy,
            final(self).done_received == old(self).done_received,
            match ev {
                ReaderEvent::Ready => p == StartProgress::Ready && final(self).error == old(self).error
                    && final(self).finals@ == old(self).finals@,
                ReaderEvent::Final(t) => p == StartProgress::Waiting && final(self).error == old(self).error
                    && final(self).finals@ == old(self).finals@.push(t),
                ReaderEvent::Error(d) => p == StartProgress::Failed && opt_seq(final(self).error) == Some(d@)
                    && final(self).finals@ == old(self).finals@,
                ReaderEvent::Done => p == StartProgress::Failed
                    && opt_seq(final(self).error) == Some(ended_before_seq(ready_name@))
                    && final(self).finals@ == old(self).finals@,
                ReaderEvent::Closed => p == StartProgress::Failed
                    && opt_seq(final(self).error) == Some("reader channel closed"@)
                    && final(self).finals@ == old(self).finals@,
            },
    {
        match ev {
            ReaderEvent::Ready => StartProgress::Ready,
            ReaderEvent::Final(t) => {
                self.finals.push(t);
                StartProgress::Waiting
            },
            ReaderEvent::Error(d) => {
                self.error = Some(d);
                StartProgress::Failed
            },
            ReaderEvent::Done => {
                let mut d = owned("reader ended before ");
                push_str(&mut d, ready_name);
                self.error = Some(d);
                StartProgress::Failed
            },
            ReaderEvent::Closed => {
                self.error = Some(owned("reader channel closed"));
                StartProgress::Failed
            },
        }
    }

    /// The recognizer did not accept the task in time.
    pub fn start_timed_out(&mut self, ready_name: &str)
        ensures
            opt_seq(final(self).error) == Some(start_timeout_seq(ready_name@)),
            final(self).received == old(self).received,
            final(self).consumed == old(self).consumed,
            final(self).finals@ == old(self).finals@,
            final(self).buffer@ == old(self).buffer@,
            final(self).chunk_size == old(self).chunk_size,
            final(self).policy == old(self).policy,
            final(self).done_received == old(self).done_received,
    {
        let mut d = owned("等待 ");
        push_str(&mut d, ready_name);
        push_str(&mut d, " 超时");
        self.error = Some(d);
    }

    /// Takes one event while streaming; `false` ends streaming.
    ///
    /// Audio is appended to the buffer (the caller then sends every full
    /// chunk), final sentences are collected, and a failure is recorded.
    pub fn on_event(&mut self, ev: StreamEvent) -> (keep_going: bool)
        ensures
            old(self).audio_conserved() ==> final(self).audio_conserved(),
            final(self).consumed == old(self).consumed,
            final(self).chunk_size == old(self).chunk_size,
            final(self).policy == old(self).policy,
            match ev {
                StreamEvent::Stop => !keep_going && *final(self) == *old(self),
                StreamEvent::AudioClosed => !keep_going && *final(self) == *old(self),
                StreamEvent::Audio(pcm) => keep_going
                    && final(self).buffer@ == old(self).buffer@ + pcm@
                    && final(self).received@ == old(self).received@ + pcm@
                    && final(self).finals@ == old(self).finals@
                    && final(self).error == old(self).error
                    && final(self).done_received == old(self).done_received,
                StreamEvent::Reader(r) => final(self).buffer@ == old(self).buffer@
                    && final(self).received == old(self).received && match r {
                    ReaderEvent::Ready => keep_going && *final(self) == *old(self),
                    ReaderEvent::Final(t) => keep_going && final(self).finals@ == old(self).finals@.push(t)
                        && final(self).error == old(self).error
                        && final(self).done_received == old(self).done_received,
                    ReaderEvent::Error(d) => !keep_going && opt_seq(final(self).error) == Some(d@)
                        && final(self).finals@ == old(self).finals@
                        && final(self).done_received == old(self).done_received,
                    ReaderEvent::Done => keep_going == !old(self).policy.stop_on_done
                        && final(self).done_received
                        && final(self).finals@ == old(self).finals@
                        && final(self).error == old(self).error,
                    ReaderEvent::Closed => !keep_going && *final(self) == *old(self),
                },
            },
    {
        match ev {
            StreamEvent::Stop => false,
            StreamEvent::AudioClosed => false,
            StreamEvent::Audio(pcm) => {
                extend_bytes(&mut self.buffer, pcm.as_slice());
                self.received = Ghost(self.received@ + pcm@);
                assert(old(self).audio_conserved() ==> self.consumed@ + self.buffer@ =~= self.received@);
                true
            },
            StreamEvent::Reader(r) => match r {
                ReaderEvent::Ready => true,
                ReaderEvent::Final(t) => {
                    self.finals.push(t);
                    true
                },
                ReaderEvent::Error(d) => {
                    self.error = Some(d);
                    false
                },
                ReaderEvent::Done => {
                    self.done_received = true;
                    !self.policy.stop_on_done
                },
                ReaderEvent::Closed => false,
            },
        }
    }

    /// Sending a chunk failed; `false` ends streaming.  Either way no more
    /// chunks are sent for the current frame.
    pub fn audio_send_failed(&mut self) -> (keep_going: bool)
        ensures
            keep_going == !old(self).policy.send_failure_fatal,
            final(self).received == old(self).received,
            final(self).consumed == old(self).consumed,
            opt_seq(final(self).error) == if old(self).policy.send_failure_fatal {
                Some("音频发送失败"@)
            } else {
                opt_seq(old(self).error)
            },
            final(self).finals@ == old(self).finals@,
            final(self).buffer@ == old(self).buffer@,
            final(self).chunk_size == old(self).chunk_size,
            final(self).policy == old(self).policy,
            final(self).done_received == old(self).done_received,
    {
        if self.policy.send_failure_fatal {
            self.error = Some(owned("音频发送失败"));
            false
        } else {
            true
        }
    }

    /// Sending a chunk of the look-back audio failed with `e`; `false` ends
    /// the session.  Where the provider treats send failures as fatal the
    /// session fails with that error; otherwise the chunk is skipped.
    pub fn pre_buffer_send_failed(&mut self, e: &str) -> (keep_going: bool)
        ensures
            keep_going == !old(self).policy.send_failure_fatal,
            opt_seq(final(self).error) == if old(self).policy.send_failure_fatal {
                Some("发送预缓冲音频失败: "@ + e@)
            } else {
                opt_seq(old(self).error)
            },
            final(self).received == old(self).received,
            final(self).consumed == old(self).consumed,
            final(self).finals@ == old(self).finals@,
            final(self).buffer@ == old(self).buffer@,
            final(self).chunk_size == old(self).chunk_size,
            final(self).policy == old(self).policy,
            final(self).done_received == old(self).done_received,
    {
        if self.policy.send_failure_fatal {
            let mut d = owned("发送预缓冲音频失败: ");
            push_str(&mut d, e);
            self.error = Some(d);
            false
        } else {
            true
        }
    }

    /// Framing an audio chunk failed: the session fails and the buffered
    /// audio is dropped.
    pub fn pack_failed(&mut self, e: &str)
        ensures
            opt_seq(final(self).error) == Some("音频打包失败: "@ + e@),
            final(self).buffer@.len() == 0,
            final(self).received == old(self).received,
            final(self).consumed@ == old(self).consumed@ + old(self).buffer@,
            old(self).audio_conserved() ==> final(self).audio_conserved(),
            final(self).finals@ == old(self).finals@,
            final(self).chunk_size == old(self).chunk_size,
            final(self).policy == old(self).policy,
            final(self).done_received == old(self).done_received,
    {
        let mut d = owned("音频打包失败: ");
        push_str(&mut d, e);
        self.error = Some(d);
        self.consumed = Ghost(self.consumed@ + self.buffer@);
        self.buffer = Vec::new();
        assert(old(self).audio_conserved() ==> self.consumed@ + self.buffer@ =~= self.received@);
    }

    /// After streaming ends: whether to flush the rest of the audio, send
    /// the end-of-stream message and wait for the last results.  Not after
    /// a failure, nor once the recognizer has given its last response.
    pub fn needs_finish(&self) -> (b: bool)
        ensures
            b == (self.error is None && !self.done_received),
    {
        self.error.is_none() && !self.done_received
    }

    /// Takes the audio left in the buffer (less than a chunk after
    /// streaming), leaving the buffer empty.
    pub fn take_remaining(&mut self) -> (rest: Vec<u8>)
        ensures
            rest@ == old(self).buffer@,
            final(self).buffer@.len() == 0,
            final(self).received == old(self).received,
            final(self).consumed@ == old(self).consumed@ + rest@,
            old(self).audio_conserved() ==> final(self).audio_conserved(),
            final(self).finals@ == old(self).finals@,
            final(self).chunk_size == old(self).chunk_size,
            final(self).policy == old(self).policy,
            final(self).done_received == old(self).done_received,
            final(self).error == old(self).error,
    {
        let mut rest: Vec<u8> = Vec::new();
        core::mem::swap(&mut rest, &mut self.buffer);
        self.consumed = Ghost(self.consumed@ + rest@);
        assert(old(self).audio_conserved() ==> self.consumed@ + self.buffer@ =~= self.received@);
        rest
    }

    /// Takes one reader event while waiting for the last results; `false`
    /// ends the wait.  A timeout ends it too, with no failure.
    pub fn on_final_wait_event(&mut self, ev: ReaderEvent) -> (keep_waiting: bool)
        ensures
            final(self).buffer@ == old(self).buffer@,
            final(self).received == old(self).received,
            final(self).consumed == old(self).consumed,
            final(self).chunk_size == old(self).chunk_size,
            final(self).policy == old(self).policy,
            final(self).done_received == old(self).done_received,
            match ev {
                ReaderEvent::Final(t) => keep_waiting && final(self).finals@ == old(self).finals@.push(t)
                    && final(self).error == old(self).error,
                ReaderEvent::Error(d) => !keep_waiting && opt_seq(final(self).error) == Some(d@)
                    && final(self).finals@ == old(self).finals@,
                ReaderEvent::Ready => keep_waiting && final(self).finals@ == old(self).finals@
                    && final(self).error == old(self).error,
                _ => !keep_waiting && final(self).finals@ == old(self).finals@
                    && final(self).error == old(self).error,
            },
    {
        match ev {
            ReaderEvent::Final(t) => {
                self.finals.push(t);
                true
            },
            ReaderEvent::Error(d) => {
                self.error = Some(d);
                false
            },
            ReaderEvent::Ready => true,
            _ => false,
        }
    }

    /// The session outcome: the collected finals and, after a failure, its
    /// classified reason and raw detail.
    pub fn finish(self, had_speech: bool, aborted: bool, duration_ms: u64) -> (o: SessionOutcome)
        ensures
            o@.finals == views(self.finals@),
            o@.error == match opt_seq(self.error) {
                Some(d) => Some((classify_spec(d), d)),
                None => None,
            },
            o.had_speech == had_speech,
            o.aborted == aborted,
            o.duration_ms == duration_ms,
    {
        let mut o = SessionOutcome::new();
        o.finals = self.finals;
        o.had_speech = had_speech;
        o.aborted = aborted;
        o.duration_ms = duration_ms;
        match self.error {
            Some(d) => o.fail(d),
            None => {},
        }
        o
    }
}

/// The outcome of a session that ended before speech started.
pub fn ended_before_speech(had_speech: bool, aborted: bool, duration_ms: u64) -> (o: SessionOutcome)
    ensures
        o@ == (OutcomeView {
            finals: Seq::empty(),
            error: None,
            aborted,
            had_speech,
            duration_ms,
        }),
{
    let mut o = SessionOutcome::new();
    o.had_speech = had_speech;
    o.aborted = aborted;
    o.duration_ms = duration_ms;
    assert(o@.finals =~= Seq::empty());
    o
}

} // verus!
