//! The decisions of a recognition session, of the task that reads the
//! service's messages, and of a connectivity probe. The caller performs the
//! socket work and hands each outcome back.

use vstd::prelude::*;

use crate::asr::{
    build_error, classify_socket_error, gummy_error, parse_server_message, server_message_spec,
    socket_error_kind, AsrSegmentUpdate, GummyErrorInfo, GummyErrorView, ParsedServerEvent,
    ResolvedGummyTarget, SegmentUpdateView, ServerEventView, BINARY_AUDIO_FRAME_BYTES,
};
use crate::text::owned;

verus! {

/// The concatenation of frames, first to last.
pub open spec fn flatten(frames: Seq<Seq<u8>>) -> Seq<u8>
    decreases frames.len(),
{
    if frames.len() == 0 {
        Seq::empty()
    } else {
        flatten(frames.drop_last()) + frames.last()
    }
}

/// The views of a list of frames.
pub open spec fn frames_view(frames: Seq<Vec<u8>>) -> Seq<Seq<u8>> {
    frames.map_values(|f: Vec<u8>| f@)
}

/// Whether every frame has the size of one binary audio frame.
pub open spec fn full_frames(frames: Seq<Seq<u8>>) -> bool {
    forall|i: int| 0 <= i < frames.len() ==> (#[trigger] frames[i]).len() == BINARY_AUDIO_FRAME_BYTES
}

/// Whether adding `chunk` to the held-back audio `before` may send `frames`
/// and hold back `after`: nothing lost, repeated or reordered, every frame
/// full, and less than a frame held back.
pub open spec fn framed(before: Seq<u8>, chunk: Seq<u8>, frames: Seq<Seq<u8>>, after: Seq<u8>) -> bool {
    &&& flatten(frames) + after == before + chunk
    &&& full_frames(frames)
    &&& after.len() < BINARY_AUDIO_FRAME_BYTES
}

/// The audio of the frames of several pushes, first to last.
pub open spec fn sent_audio(pushes: Seq<Seq<Seq<u8>>>) -> Seq<u8>
    decreases pushes.len(),
{
    if pushes.len() == 0 {
        Seq::empty()
    } else {
        sent_audio(pushes.drop_last()) + flatten(pushes.last())
    }
}

/// Cuts captured audio into frames of a fixed size, holding back what does
/// not yet fill a frame.
pub struct AudioFramer {
    pending: Vec<u8>,
}

impl AudioFramer {
    /// The audio held back, not yet sent.
    pub closed spec fn pending(&self) -> Seq<u8> {
        self.pending@
    }

    /// A framer with nothing held back.
    pub fn new() -> (r: AudioFramer)
        ensures
            r.pending() == Seq::<u8>::empty(),
    {
        AudioFramer { pending: Vec::new() }
    }

    /// The number of bytes held back.
    pub fn pending_len(&self) -> (r: usize)
        ensures
            r == self.pending().len(),
    {
        self.pending.len()
    }

    /// Adds a chunk of audio and gives every full frame that can now be sent,
    /// in order; less than one frame stays held back. No byte is lost,
    /// repeated or reordered.
    pub fn push_chunk(&mut self, chunk: &[u8]) -> (frames: Vec<Vec<u8>>)
        ensures
            framed(old(self).pending(), chunk@, frames_view(frames@), final(self).pending()),
    {
        let ghost p0 = self.pending@;
        let ghost before = self.pending@ + chunk@;
        let mut all: Vec<u8> = Vec::new();
        std::mem::swap(&mut all, &mut self.pending);
        let mut k: usize = 0;
        let cn = chunk.len();
        while k < cn
            invariant
                cn == chunk@.len(),
                0 <= k <= cn,
                all@ == before.subrange(0, (before.len() - cn + k) as int),
                before == p0 + chunk@,
                before.len() == p0.len() + cn,
            decreases cn - k,
        {
            all.push(chunk[k]);
            assert(before.subrange(0, (before.len() - cn + k + 1) as int) =~= before.subrange(
                0,
                (before.len() - cn + k) as int,
            ).push(chunk@[k as int]));
            k = k + 1;
        }
        assert(all@ =~= before);
        let n = all.len();
        let mut frames: Vec<Vec<u8>> = Vec::new();
        let mut start: usize = 0;
        assert(frames_view(frames@) =~= Seq::<Seq<u8>>::empty());
        while n - start >= BINARY_AUDIO_FRAME_BYTES
            invariant
                n == all@.len(),
                all@ == before,
                0 <= start <= n,
                flatten(frames_view(frames@)) == before.subrange(0, start as int),
                full_frames(frames_view(frames@)),
            decreases n - start,
        {
            let end = start + BINARY_AUDIO_FRAME_BYTES;
            let frame = vstd::slice::slice_to_vec(&all.as_slice()[start..end]);
            let ghost fv = frames_view(frames@);
            frames.push(frame);
            assert(frames_view(frames@) =~= fv.push(frame@));
            assert(flatten(fv.push(frame@)).len() >= 0);
            assert(fv.push(frame@).drop_last() =~= fv);
            assert(before.subrange(0, end as int) =~= before.subrange(0, start as int) + frame@);
            start = end;
        }
        let rest = vstd::slice::slice_to_vec(&all.as_slice()[start..n]);
        assert(before.subrange(0, start as int) + rest@ =~= before);
        self.pending = rest;
        frames
    }

    /// Gives the audio held back, if any, as a last (short) frame; nothing is
    /// held back afterwards.
    pub fn take_remaining(&mut self) -> (r: Option<Vec<u8>>)
        ensures
            match r {
                Some(f) => f@ == old(self).pending() && f@.len() > 0,
                None => old(self).pending().len() == 0,
            },
            final(self).pending() == Seq::<u8>::empty(),
    {
        if self.pending.len() == 0 {
            return None;
        }
        let mut rest: Vec<u8> = Vec::new();
        std::mem::swap(&mut rest, &mut self.pending);
        Some(rest)
    }
}

/// What the reading task reports to the session.
#[derive(Debug)]
pub enum ControlEvent {
    TaskStarted,
    TaskFinished,
    TaskFailed(GummyErrorInfo),
}

/// What a session is told: a report of the reading task (nothing when the
/// reading task has ended), a chunk of captured audio (nothing when capture
/// has ended), or the state of the stop signal (nothing when its sender is gone).
#[derive(Debug)]
pub enum SessionInput {
    Control(Option<ControlEvent>),
    Audio(Option<Vec<u8>>),
    Stop(Option<bool>),
}

/// What a session asks its caller to do: send `frames` in order, then the
/// `finish-task` message when `send_finish`, and end with `finish` when it is set.
#[derive(Debug)]
pub struct SessionStep {
    pub frames: Vec<Vec<u8>>,
    pub send_finish: bool,
    pub finish: Option<Result<(), GummyErrorInfo>>,
}

/// The audio side of a running recognition session.
pub struct AsrSession {
    pub framer: AudioFramer,
    pub finish_sent: bool,
}

/// The view of an optional session outcome.
pub open spec fn finish_view(f: Option<Result<(), GummyErrorInfo>>) -> Option<Result<(), GummyErrorView>> {
    match f {
        Some(Ok(())) => Some(Ok(())),
        Some(Err(e)) => Some(Err(e@)),
        None => None,
    }
}

/// The error of a session whose reading task ended before the task finished.
pub open spec fn interrupted_error(url: Seq<char>, model: Seq<char>) -> GummyErrorView {
    gummy_error("connection_closed"@, "Gummy WebSocket 在任务完成前中断。"@, url, model, None)
}

/// Whether handling `input` took the session `old` to `new` and asked for
/// `r`, as `AsrSession::step` says: a finished task ends the session well, a
/// failed task or a lost reading task ends it with an error, audio is cut
/// into frames, and the end of capture or a stop request sends what is held
/// back and then `finish-task`; once `finish-task` was sent, audio and stop
/// inputs change nothing.
pub open spec fn stepped(old: AsrSession, input: SessionInput, url: Seq<char>, model: Seq<char>, new: AsrSession, r: SessionStep) -> bool {
    match input {
        SessionInput::Control(Some(ControlEvent::TaskStarted)) => r.frames@.len() == 0 && !r.send_finish
            && r.finish is None && new == old,
        SessionInput::Control(Some(ControlEvent::TaskFinished)) => r.frames@.len() == 0 && !r.send_finish
            && finish_view(r.finish) == Some(Ok::<(), GummyErrorView>(())) && new == old,
        SessionInput::Control(Some(ControlEvent::TaskFailed(e))) => r.frames@.len() == 0 && !r.send_finish
            && finish_view(r.finish) == Some(Err::<(), GummyErrorView>(e@)) && new == old,
        SessionInput::Control(None) => r.frames@.len() == 0 && !r.send_finish
            && finish_view(r.finish) == Some(Err::<(), GummyErrorView>(interrupted_error(url, model)))
            && new == old,
        SessionInput::Audio(Some(chunk)) => if old.finish_sent {
            r.frames@.len() == 0 && !r.send_finish && r.finish is None && new == old
        } else {
            &&& framed(old.framer.pending(), chunk@, frames_view(r.frames@), new.framer.pending())
            &&& !r.send_finish && r.finish is None && !new.finish_sent
        },
        SessionInput::Stop(Some(false)) => r.frames@.len() == 0 && !r.send_finish && r.finish is None
            && new == old,
        _ => if old.finish_sent {
            r.frames@.len() == 0 && !r.send_finish && r.finish is None && new == old
        } else {
            &&& (old.framer.pending().len() == 0 ==> r.frames@.len() == 0)
            &&& (old.framer.pending().len() > 0 ==> r.frames@.len() == 1 && r.frames@[0]@ == old.framer.pending())
            &&& r.send_finish && r.finish is None
            &&& new.finish_sent
            &&& new.framer.pending() == Seq::<u8>::empty()
        },
    }
}

impl AsrSession {
    /// A session that has sent no audio yet.
    pub fn new() -> (r: AsrSession)
        ensures
            r.framer.pending() == Seq::<u8>::empty(),
            !r.finish_sent,
    {
        AsrSession { framer: AudioFramer::new(), finish_sent: false }
    }

    fn flush(&mut self) -> (r: SessionStep)
        ensures
            final(self).finish_sent,
            final(self).framer.pending() == Seq::<u8>::empty(),
            r.send_finish,
            r.finish is None,
            old(self).framer.pending().len() == 0 ==> r.frames@.len() == 0,
            old(self).framer.pending().len() > 0 ==> r.frames@.len() == 1 && r.frames@[0]@ == old(self).framer.pending(),
    {
        let mut frames: Vec<Vec<u8>> = Vec::new();
        match self.framer.take_remaining() {
            Some(f) => frames.push(f),
            None => {},
        }
        self.finish_sent = true;
        SessionStep { frames, send_finish: true, finish: None }
    }

    /// Decides what to do on `input`: a finished task ends the session well,
    /// a failed task or a lost reading task ends it with an error, audio is
    /// cut into frames, and the end of capture or a stop request sends what is
    /// held back and then `finish-task`. Once `finish-task` was sent, audio
    /// and stop inputs change nothing.
    pub fn step(&mut self, input: SessionInput, target: &ResolvedGummyTarget, model: &str) -> (r: SessionStep)
        ensures
            stepped(*old(self), input, target.resolved_url@, model@, *final(self), r),
    {
        let nothing = SessionStep { frames: Vec::new(), send_finish: false, finish: None };
        match input {
            SessionInput::Control(Some(ControlEvent::TaskStarted)) => nothing,
            SessionInput::Control(Some(ControlEvent::TaskFinished)) => SessionStep {
                frames: Vec::new(),
                send_finish: false,
                finish: Some(Ok(())),
            },
            SessionInput::Control(Some(ControlEvent::TaskFailed(e))) => SessionStep {
                frames: Vec::new(),
                send_finish: false,
                finish: Some(Err(e)),
            },
            SessionInput::Control(None) => {
                let e = build_error("connection_closed", owned("Gummy WebSocket 在任务完成前中断。"), target, model, None);
                SessionStep { frames: Vec::new(), send_finish: false, finish: Some(Err(e)) }
            },
            SessionInput::Audio(Some(chunk)) => {
                if self.finish_sent {
                    return nothing;
                }
                let frames = self.framer.push_chunk(chunk.as_slice());
                SessionStep { frames, send_finish: false, finish: None }
            },
            SessionInput::Stop(Some(false)) => nothing,
            _ => {
                if self.finish_sent {
                    return nothing;
                }
                let ghost p = self.framer.pending();
                let r = self.flush();
                proof {
                    if p.len() == 0 {
                        assert(frames_view(r.frames@) =~= Seq::<Seq<u8>>::empty());
                        assert(flatten(frames_view(r.frames@)) =~= p);
                    } else {
                        assert(frames_view(r.frames@) =~= seq![p]);
                        assert(seq![p].drop_last() =~= Seq::<Seq<u8>>::empty());
                        assert(flatten(Seq::<Seq<u8>>::empty()) =~= Seq::<u8>::empty());
                        assert(seq![p].last() == p);
                        assert(flatten(seq![p]) =~= p);
                    }
                }
                r
            },
        }
    }
}

/// The view of a report of the reading task.
pub enum ControlView {
    TaskStarted,
    TaskFinished,
    TaskFailed(GummyErrorView),
}

/// The view of an optional report.
pub open spec fn control_view(c: Option<ControlEvent>) -> Option<ControlView> {
    match c {
        Some(ControlEvent::TaskStarted) => Some(ControlView::TaskStarted),
        Some(ControlEvent::TaskFinished) => Some(ControlView::TaskFinished),
        Some(ControlEvent::TaskFailed(e)) => Some(ControlView::TaskFailed(e@)),
        None => None,
    }
}

/// A message read from the socket: text, a close frame, another frame
/// (ping, pong, binary, raw), or a read error with the text of its error chain.
#[derive(Debug)]
pub enum SocketMessage {
    Text(String),
    Close,
    Other,
    Error(String),
}

/// What the reading task does with a message: report to the session,
/// forward a sentence, and whether to stop reading.
#[derive(Debug)]
pub struct ReaderAction {
    pub control: Option<ControlEvent>,
    pub result: Option<AsrSegmentUpdate>,
    pub stop: bool,
}

/// The error for a socket read error whose chain reads `chain`.
pub open spec fn socket_error_view(chain: Seq<char>, url: Seq<char>, model: Seq<char>) -> GummyErrorView {
    gummy_error(socket_error_kind(chain), "Gummy WebSocket 连接失败: "@ + chain, url, model, None)
}

/// The view of an optional sentence.
pub open spec fn update_view(u: Option<AsrSegmentUpdate>) -> Option<SegmentUpdateView> {
    match u {
        Some(x) => Some(x@),
        None => None,
    }
}

/// The report, the sentence and the stop flag that the reading task derives
/// from a message.
pub open spec fn reader_spec(msg: SocketMessage, url: Seq<char>, model: Seq<char>) -> (Option<ControlView>, Option<SegmentUpdateView>, bool) {
    match msg {
        SocketMessage::Text(t) => match server_message_spec(t@) {
            Ok(ServerEventView::Ignore) => (None, None, false),
            Ok(ServerEventView::TaskStarted) => (Some(ControlView::TaskStarted), None, false),
            Ok(ServerEventView::TaskFinished) => (Some(ControlView::TaskFinished), None, true),
            Ok(ServerEventView::TaskFailed { error_code, error_message }) => (
                Some(ControlView::TaskFailed(gummy_error("task_failed"@, error_message, url, model, error_code))),
                None,
                true,
            ),
            Ok(ServerEventView::ResultGenerated(u)) => (None, Some(u), false),
            Err(m) => (Some(ControlView::TaskFailed(gummy_error("protocol_parse"@, m, url, model, None))), None, true),
        },
        SocketMessage::Close => (
            Some(ControlView::TaskFailed(gummy_error("connection_closed"@, "Gummy WebSocket 在任务结束前被关闭。"@, url, model, None))),
            None,
            true,
        ),
        SocketMessage::Other => (None, None, false),
        SocketMessage::Error(chain) => (Some(ControlView::TaskFailed(socket_error_view(chain@, url, model))), None, true),
    }
}

/// What the reading task of a session does with one message of the socket.
pub fn reader_on_message(msg: SocketMessage, target: &ResolvedGummyTarget, model: &str) -> (r: ReaderAction)
    ensures
        (control_view(r.control), update_view(r.result), r.stop) == reader_spec(msg, target.resolved_url@, model@),
{
    match msg {
        SocketMessage::Text(t) => match parse_server_message(t.as_str()) {
            Ok(ParsedServerEvent::Ignore) => ReaderAction { control: None, result: None, stop: false },
            Ok(ParsedServerEvent::TaskStarted) => ReaderAction { control: Some(ControlEvent::TaskStarted), result: None, stop: false },
            Ok(ParsedServerEvent::TaskFinished) => ReaderAction { control: Some(ControlEvent::TaskFinished), result: None, stop: true },
            Ok(ParsedServerEvent::TaskFailed { error_code, error_message }) => {
                let e = build_error("task_failed", error_message, target, model, error_code);
                ReaderAction { control: Some(ControlEvent::TaskFailed(e)), result: None, stop: true }
            },
            Ok(ParsedServerEvent::ResultGenerated(u)) => ReaderAction { control: None, result: Some(u), stop: false },
            Err(m) => {
                let e = build_error("protocol_parse", m, target, model, None);
                ReaderAction { control: Some(ControlEvent::TaskFailed(e)), result: None, stop: true }
            },
        },
        SocketMessage::Close => {
            let e = build_error("connection_closed", owned("Gummy WebSocket 在任务结束前被关闭。"), target, model, None);
            ReaderAction { control: Some(ControlEvent::TaskFailed(e)), result: None, stop: true }
        },
        SocketMessage::Other => ReaderAction { control: None, result: None, stop: false },
        SocketMessage::Error(chain) => {
            let e = classify_socket_error(chain.as_str(), target, model);
            ReaderAction { control: Some(ControlEvent::TaskFailed(e)), result: None, stop: true }
        },
    }
}

/// The view of a wait outcome.
pub open spec fn outcome_view(r: Result<(), GummyErrorInfo>) -> Result<(), GummyErrorView> {
    match r {
        Ok(()) => Ok(()),
        Err(e) => Err(e@),
    }
}

/// The view of an optional wait outcome.
pub open spec fn decision_view(r: Option<Result<(), GummyErrorInfo>>) -> Option<Result<(), GummyErrorView>> {
    match r {
        Some(x) => Some(outcome_view(x)),
        None => None,
    }
}

/// The outcome of waiting for `task-started` when `event` comes first.
pub open spec fn while_starting_spec(event: Option<ControlView>, url: Seq<char>, model: Seq<char>) -> Result<(), GummyErrorView> {
    match event {
        Some(ControlView::TaskStarted) => Ok(()),
        Some(ControlView::TaskFailed(e)) => Err(e),
        Some(ControlView::TaskFinished) => Err(gummy_error("protocol_parse"@, "Gummy 在 task-started 之前就结束了任务。"@, url, model, None)),
        None => Err(gummy_error("connection_closed"@, "等待 Gummy task-started 时连接中断。"@, url, model, None)),
    }
}

/// Decides the wait for `task-started` on the first report of the reading task.
pub fn on_control_while_starting(event: Option<ControlEvent>, target: &ResolvedGummyTarget, model: &str) -> (r: Result<(), GummyErrorInfo>)
    ensures
        outcome_view(r) == while_starting_spec(control_view(event), target.resolved_url@, model@),
{
    match event {
        Some(ControlEvent::TaskStarted) => Ok(()),
        Some(ControlEvent::TaskFailed(e)) => Err(e),
        Some(ControlEvent::TaskFinished) => Err(build_error("protocol_parse", owned("Gummy 在 task-started 之前就结束了任务。"), target, model, None)),
        None => Err(build_error("connection_closed", owned("等待 Gummy task-started 时连接中断。"), target, model, None)),
    }
}

/// The outcome of waiting for `task-finished` when `event` comes; nothing
/// when the wait goes on.
pub open spec fn while_finishing_spec(event: Option<ControlView>, url: Seq<char>, model: Seq<char>) -> Option<Result<(), GummyErrorView>> {
    match event {
        Some(ControlView::TaskFinished) => Some(Ok(())),
        Some(ControlView::TaskFailed(e)) => Some(Err(e)),
        Some(ControlView::TaskStarted) => None,
        None => Some(Err(gummy_error("connection_closed"@, "等待 Gummy task-finished 时连接中断。"@, url, model, None))),
    }
}

/// Decides the wait for `task-finished` on a report of the reading task.
pub fn on_control_while_finishing(event: Option<ControlEvent>, target: &ResolvedGummyTarget, model: &str) -> (r: Option<Result<(), GummyErrorInfo>>)
    ensures
        decision_view(r) == while_finishing_spec(control_view(event), target.resolved_url@, model@),
{
    match event {
        Some(ControlEvent::TaskFinished) => Some(Ok(())),
        Some(ControlEvent::TaskFailed(e)) => Some(Err(e)),
        Some(ControlEvent::TaskStarted) => None,
        None => Some(Err(build_error("connection_closed", owned("等待 Gummy task-finished 时连接中断。"), target, model, None))),
    }
}

/// Which event a wait or a probe is waiting for.
#[derive(Clone, Copy, Debug, PartialEq, Eq, Structural)]
pub enum WaitPhase {
    AwaitStarted,
    AwaitFinished,
}

/// The error of a wait that timed out.
pub open spec fn timeout_spec(phase: WaitPhase, url: Seq<char>, model: Seq<char>) -> GummyErrorView {
    match phase {
        WaitPhase::AwaitStarted => gummy_error("network_timeout"@, "等待 Gummy task-started 超时。"@, url, model, None),
        WaitPhase::AwaitFinished => gummy_error("network_timeout"@, "等待 Gummy task-finished 超时。"@, url, model, None),
    }
}

/// The error of a wait for `phase` that timed out.
pub fn wait_timeout_error(phase: WaitPhase, target: &ResolvedGummyTarget, model: &str) -> (r: GummyErrorInfo)
    ensures
        r@ == timeout_spec(phase, target.resolved_url@, model@),
{
    match phase {
        WaitPhase::AwaitStarted => build_error("network_timeout", owned("等待 Gummy task-started 超时。"), target, model, None),
        WaitPhase::AwaitFinished => build_error("network_timeout", owned("等待 Gummy task-finished 超时。"), target, model, None),
    }
}

/// The error of a probe whose socket ended (or, waiting for
/// `task-finished`, was closed) before the awaited event.
pub open spec fn probe_end_spec(phase: WaitPhase, url: Seq<char>, model: Seq<char>) -> GummyErrorView {
    match phase {
        WaitPhase::AwaitStarted => gummy_error("connection_closed"@, "Gummy WebSocket 在检测期间提前断开。"@, url, model, None),
        WaitPhase::AwaitFinished => gummy_error("connection_closed"@, "Gummy 连接检测未收到 task-finished。"@, url, model, None),
    }
}

/// The error of a probe whose socket ended before the awaited event.
pub fn probe_stream_ended(phase: WaitPhase, target: &ResolvedGummyTarget, model: &str) -> (r: GummyErrorInfo)
    ensures
        r@ == probe_end_spec(phase, target.resolved_url@, model@),
{
    match phase {
        WaitPhase::AwaitStarted => build_error("connection_closed", owned("Gummy WebSocket 在检测期间提前断开。"), target, model, None),
        WaitPhase::AwaitFinished => build_error("connection_closed", owned("Gummy 连接检测未收到 task-finished。"), target, model, None),
    }
}

/// What a probe decides on one message; nothing when it reads on.
pub open spec fn probe_spec(phase: WaitPhase, msg: SocketMessage, url: Seq<char>, model: Seq<char>) -> Option<Result<(), GummyErrorView>> {
    match msg {
        SocketMessage::Text(t) => match server_message_spec(t@) {
            Ok(ServerEventView::TaskStarted) => if phase == WaitPhase::AwaitStarted {
                Some(Ok(()))
            } else {
                None
            },
            Ok(ServerEventView::TaskFinished) => if phase == WaitPhase::AwaitFinished {
                Some(Ok(()))
            } else {
                None
            },
            Ok(ServerEventView::TaskFailed { error_code, error_message }) => Some(
                Err(gummy_error("task_failed"@, error_message, url, model, error_code)),
            ),
            Ok(_) => None,
            Err(m) => Some(Err(gummy_error("protocol_parse"@, m, url, model, None))),
        },
        SocketMessage::Close => match phase {
            WaitPhase::AwaitStarted => Some(Err(gummy_error("connection_closed"@, "Gummy WebSocket 在检测期间被关闭。"@, url, model, None))),
            WaitPhase::AwaitFinished => Some(Err(probe_end_spec(phase, url, model))),
        },
        SocketMessage::Other => None,
        SocketMessage::Error(chain) => Some(Err(socket_error_view(chain@, url, model))),
    }
}

/// Decides a connectivity probe on one message of the socket.
pub fn probe_on_message(phase: WaitPhase, msg: SocketMessage, target: &ResolvedGummyTarget, model: &str) -> (r: Option<Result<(), GummyErrorInfo>>)
    ensures
        decision_view(r) == probe_spec(phase, msg, target.resolved_url@, model@),
{
    match msg {
        SocketMessage::Text(t) => match parse_server_message(t.as_str()) {
            Ok(ParsedServerEvent::TaskStarted) => if phase == WaitPhase::AwaitStarted {
                Some(Ok(()))
            } else {
                None
            },
            Ok(ParsedServerEvent::TaskFinished) => if phase == WaitPhase::AwaitFinished {
                Some(Ok(()))
            } else {
                None
            },
            Ok(ParsedServerEvent::TaskFailed { error_code, error_message }) => Some(
                Err(build_error("task_failed", error_message, target, model, error_code)),
            ),
            Ok(_) => None,
            Err(m) => Some(Err(build_error("protocol_parse", m, target, model, None))),
        },
        SocketMessage::Close => match phase {
            WaitPhase::AwaitStarted => Some(Err(build_error("connection_closed", owned("Gummy WebSocket 在检测期间被关闭。"), target, model, None))),
            WaitPhase::AwaitFinished => Some(Err(probe_stream_ended(phase, target, model))),
        },
        SocketMessage::Other => None,
        SocketMessage::Error(chain) => Some(Err(classify_socket_error(chain.as_str(), target, model))),
    }
}

/// One frame of silence, which a probe sends between `run-task` and `finish-task`.
pub fn silence_frame() -> (r: Vec<u8>)
    ensures
        r@.len() == BINARY_AUDIO_FRAME_BYTES,
        forall|i: int| 0 <= i < r@.len() ==> #[trigger] r@[i] == 0,
{
    let mut r: Vec<u8> = Vec::new();
    let mut i: usize = 0;
    while i < BINARY_AUDIO_FRAME_BYTES
        invariant
            0 <= i <= BINARY_AUDIO_FRAME_BYTES,
            r@.len() == i,
            forall|k: int| 0 <= k < r@.len() ==> #[trigger] r@[k] == 0,
        decreases BINARY_AUDIO_FRAME_BYTES - i,
    {
        r.push(0);
        i = i + 1;
    }
    r
}

/// `finish-task` is sent at most once in a session: after a step that sent
/// it, no input makes the session send audio or `finish-task` again, and
/// the session stays finished.
pub proof fn law_finish_sent_once(
    s0: AsrSession,
    i0: SessionInput,
    s1: AsrSession,
    r0: SessionStep,
    i1: SessionInput,
    s2: AsrSession,
    r1: SessionStep,
    url: Seq<char>,
    model: Seq<char>,
)
    requires
        stepped(s0, i0, url, model, s1, r0),
        r0.send_finish,
        stepped(s1, i1, url, model, s2, r1),
    ensures
        !r1.send_finish,
        r1.frames@.len() == 0,
        s2.finish_sent,
{
}

/// Over any run of pushes into a framer, the audio of all frames sent,
/// followed by what is still held back, is what was held back at the start
/// followed by every chunk in order: framing loses, repeats and reorders no
/// byte. (`take_remaining` then sends what is held back as the last frame.)
pub proof fn law_framing_keeps_the_stream(pending: Seq<Seq<u8>>, chunks: Seq<Seq<u8>>, pushes: Seq<Seq<Seq<u8>>>)
    requires
        pending.len() == chunks.len() + 1,
        pushes.len() == chunks.len(),
        forall|i: int| 0 <= i < chunks.len() ==> framed(pending[i], #[trigger] chunks[i], pushes[i], pending[i + 1]),
    ensures
        sent_audio(pushes) + pending.last() == pending[0] + flatten(chunks),
    decreases chunks.len(),
{
    let n = chunks.len() as int;
    if n == 0 {
        assert(pending[0] + flatten(chunks) =~= pending[0]);
        assert(sent_audio(pushes) + pending.last() =~= pending.last());
    } else {
        let p = pending.drop_last();
        let c = chunks.drop_last();
        let f = pushes.drop_last();
        assert forall|i: int| 0 <= i < c.len() implies framed(p[i], #[trigger] c[i], f[i], p[i + 1]) by {
            assert(chunks[i] == c[i]);
        }
        law_framing_keeps_the_stream(p, c, f);
        assert(framed(pending[n - 1], chunks[n - 1], pushes[n - 1], pending[n]));
        assert(sent_audio(pushes) == sent_audio(f) + flatten(pushes.last()));
        assert(flatten(chunks) == flatten(c) + chunks.last());
        assert(sent_audio(pushes) + pending.last() =~= sent_audio(f) + (flatten(pushes[n - 1]) + pending[n]));
        assert(pending[0] + flatten(chunks) =~= (pending[0] + flatten(c)) + chunks[n - 1]);
        assert(sent_audio(f) + pending[n - 1] == p[0] + flatten(c));
        assert(sent_audio(f) + (pending[n - 1] + chunks[n - 1]) =~= (sent_audio(f) + pending[n - 1]) + chunks[n - 1]);
    }
}

} // verus!
