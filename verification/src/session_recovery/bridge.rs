//! Terminals of the window that run in the daemon.

use crate::keyed::KeyedList;
use crate::session_recovery::ipc::{
    RequestModel, ResponseModel, SupervisorRequest, SupervisorResponse,
};
use crate::session_recovery::scrollback::{
    joined, kept, last_bytes, law_replay_is_the_end_of_the_output, SCROLLBACK_CAP,
};
use crate::text::{concat2, same_text};
use vstd::prelude::*;

verus! {

/// Whether terminals run in the daemon, by the value of
/// `TERMUL_DAEMON_TERMINALS` in the environment.
pub fn daemon_terminals_enabled(value: Option<&str>) -> (r: bool)
    ensures
        r == (match value {
            Some(text) => text@ == "1"@,
            None => false,
        }),
{
    match value {
        Some(text) => same_text(text, "1"),
        None => false,
    }
}

/// The daemon's session of a terminal.
#[derive(Debug, Clone)]
struct BridgedTerminal {
    session_id: String,
    pid: u32,
}

/// The terminals that run in the daemon, by their id in the window.
#[derive(Debug, Clone)]
pub struct DaemonTerminalBridge {
    terminals: KeyedList<BridgedTerminal>,
}

/// The daemon's session of a terminal as a mathematical value.
pub struct BridgedModel {
    pub session_id: Seq<char>,
    pub pid: u32,
}

impl View for DaemonTerminalBridge {
    type V = Map<Seq<char>, BridgedModel>;

    closed spec fn view(&self) -> Map<Seq<char>, BridgedModel> {
        self.terminals@.map_values(
            |terminal: BridgedTerminal|
                BridgedModel { session_id: terminal.session_id@, pid: terminal.pid },
        )
    }
}

/// The text of a request for a terminal that does not run in the daemon.
pub open spec fn not_bridged(terminal_id: Seq<char>) -> Seq<char> {
    "no bridged terminal "@ + terminal_id
}

impl DaemonTerminalBridge {
    /// Whether each terminal is known once.
    pub closed spec fn well_formed(self) -> bool {
        self.terminals.well_formed()
    }

    /// No terminals.
    pub fn new() -> (r: Self)
        ensures
            r.well_formed(),
            r@ == Map::<Seq<char>, BridgedModel>::empty(),
    {
        let r = DaemonTerminalBridge { terminals: KeyedList::new() };
        assert(r@ =~= Map::<Seq<char>, BridgedModel>::empty());
        r
    }

    /// Takes a terminal in once the daemon has started its session and the
    /// client has asked to be shown it: `outcome` is the session's id and
    /// process id, or why it did not come so far. Gives the process id.
    pub fn spawn(&mut self, terminal_id: String, outcome: Result<(String, u32), String>) -> (r:
        Result<u32, String>)
        requires
            old(self).well_formed(),
        ensures
            final(self).well_formed(),
            match outcome {
                Ok(named) => final(self)@ == old(self)@.insert(
                    terminal_id@,
                    BridgedModel { session_id: named.0@, pid: named.1 },
                ) && r == Ok::<u32, String>(named.1),
                Err(reason) => final(self)@ == old(self)@ && r == Err::<u32, String>(reason),
            },
    {
        match outcome {
            Ok((session_id, pid)) => {
                let terminal = BridgedTerminal { session_id, pid };
                let ghost added = BridgedModel { session_id: session_id@, pid };
                let ghost id = terminal_id@;
                self.terminals.insert(terminal_id, terminal);
                assert(self@ =~= old(self)@.insert(id, added));
                Ok(pid)
            },
            Err(reason) => Err(reason),
        }
    }

    /// The daemon's session of `terminal_id`.
    fn session_of(&self, terminal_id: &str) -> (r: Result<String, String>)
        requires
            self.well_formed(),
        ensures
            match r {
                Ok(session_id) => self@.dom().contains(terminal_id@) && session_id@
                    == self@[terminal_id@].session_id,
                Err(text) => !self@.dom().contains(terminal_id@) && text@ == not_bridged(
                    terminal_id@,
                ),
            },
    {
        match self.terminals.get(terminal_id) {
            Some(terminal) => Ok(terminal.session_id.clone()),
            None => Err(concat2("no bridged terminal ", terminal_id)),
        }
    }

    /// The request that writes `data` to `terminal_id`.
    pub fn write(&self, terminal_id: &str, data: Vec<u8>) -> (r: Result<SupervisorRequest, String>)
        requires
            self.well_formed(),
        ensures
            if self@.dom().contains(terminal_id@) {
                r matches Ok(request) && request.deep_view() == (RequestModel::Write {
                    session_id: self@[terminal_id@].session_id,
                    data: data@,
                })
            } else {
                r matches Err(text) && text@ == not_bridged(terminal_id@)
            },
    {
        match self.session_of(terminal_id) {
            Ok(session_id) => Ok(SupervisorRequest::Write { session_id, data }),
            Err(text) => Err(text),
        }
    }

    /// The request that gives `terminal_id` another size.
    pub fn resize(&self, terminal_id: &str, cols: u16, rows: u16) -> (r: Result<
        SupervisorRequest,
        String,
    >)
        requires
            self.well_formed(),
        ensures
            if self@.dom().contains(terminal_id@) {
                r matches Ok(request) && request.deep_view() == (RequestModel::Resize {
                    session_id: self@[terminal_id@].session_id,
                    cols,
                    rows,
                })
            } else {
                r matches Err(text) && text@ == not_bridged(terminal_id@)
            },
    {
        match self.session_of(terminal_id) {
            Ok(session_id) => Ok(SupervisorRequest::Resize { session_id, cols, rows }),
            Err(text) => Err(text),
        }
    }

    /// Forgets `terminal_id`; the request that kills its session, where it had
    /// one.
    pub fn kill(&mut self, terminal_id: &str) -> (r: Option<SupervisorRequest>)
        requires
            old(self).well_formed(),
        ensures
            final(self).well_formed(),
            final(self)@ == old(self)@.remove(terminal_id@),
            if old(self)@.dom().contains(terminal_id@) {
                r matches Some(request) && request.deep_view() == (RequestModel::Kill {
                    session_id: old(self)@[terminal_id@].session_id,
                })
            } else {
                r is None
            },
    {
        let gone = self.terminals.remove(terminal_id);
        assert(self@ =~= old(self)@.remove(terminal_id@));
        match gone {
            Some(terminal) => Some(SupervisorRequest::Kill { session_id: terminal.session_id }),
            None => None,
        }
    }

    /// Whether `terminal_id` runs in the daemon.
    pub fn has(&self, terminal_id: &str) -> (r: bool)
        ensures
            r == self@.dom().contains(terminal_id@),
    {
        self.terminals.has(terminal_id)
    }

    /// The process id of `terminal_id`.
    pub fn pid(&self, terminal_id: &str) -> (r: Option<u32>)
        requires
            self.well_formed(),
        ensures
            r == (if self@.dom().contains(terminal_id@) {
                Some(self@[terminal_id@].pid)
            } else {
                None::<u32>
            }),
    {
        match self.terminals.get(terminal_id) {
            Some(terminal) => Some(terminal.pid),
            None => None,
        }
    }
}

/// The request to be shown a session.
pub fn attach_request(session_id: &str) -> (r: SupervisorRequest)
    ensures
        r.deep_view() == (RequestModel::Attach { session_id: session_id@ }),
{
    SupervisorRequest::Attach { session_id: session_id.to_string() }
}

/// What becomes of a frame that the daemon sent to a terminal.
#[derive(Debug, Clone)]
pub enum PumpStep {
    /// Show these bytes.
    Show(Vec<u8>),
    /// Nothing.
    Skip,
    /// No more frames are read.
    Stop,
}

/// What becomes of a frame, as a mathematical value.
pub enum PumpModel {
    Show(Seq<u8>),
    Skip,
    Stop,
}

impl DeepView for PumpStep {
    type V = PumpModel;

    open spec fn deep_view(&self) -> PumpModel {
        match *self {
            PumpStep::Show(bytes) => PumpModel::Show(bytes@),
            PumpStep::Skip => PumpModel::Skip,
            PumpStep::Stop => PumpModel::Stop,
        }
    }
}

/// What becomes of a frame for the terminal of `session`: its replay and its
/// output are shown, unless they are empty; its exit ends the stream; frames
/// that are not about it are skipped.
pub open spec fn pumped(session: Seq<char>, frame: ResponseModel) -> PumpModel {
    match frame {
        ResponseModel::Scrollback { session_id, data } => if session_id == session && data.len()
            > 0 {
            PumpModel::Show(data)
        } else {
            PumpModel::Skip
        },
        ResponseModel::Output { session_id, data } => if session_id == session && data.len() > 0 {
            PumpModel::Show(data)
        } else {
            PumpModel::Skip
        },
        ResponseModel::Exited { session_id, .. } => if session_id == session {
            PumpModel::Stop
        } else {
            PumpModel::Skip
        },
        _ => PumpModel::Skip,
    }
}

/// What becomes of what was received for the terminal of `session_id`: a frame,
/// or why there is none, which ends the stream.
pub fn pump(session_id: &str, received: Result<SupervisorResponse, String>) -> (r: PumpStep)
    ensures
        match received {
            Ok(frame) => r.deep_view() == pumped(session_id@, frame.deep_view()),
            Err(_) => r is Stop,
        },
{
    match received {
        Ok(SupervisorResponse::Scrollback { session_id: of, data }) => {
            if same_text(&of, session_id) && data.len() > 0 {
                PumpStep::Show(data)
            } else {
                PumpStep::Skip
            }
        },
        Ok(SupervisorResponse::Output { session_id: of, data }) => {
            if same_text(&of, session_id) && data.len() > 0 {
                PumpStep::Show(data)
            } else {
                PumpStep::Skip
            }
        },
        Ok(SupervisorResponse::Exited { session_id: of, .. }) => {
            if same_text(&of, session_id) {
                PumpStep::Stop
            } else {
                PumpStep::Skip
            }
        },
        Ok(_) => PumpStep::Skip,
        Err(_) => PumpStep::Stop,
    }
}

// ==================== Laws ====================

/// The bytes that the terminal of `session` shows of `frames`, in order.
pub open spec fn shown(session: Seq<char>, frames: Seq<ResponseModel>) -> Seq<u8>
    decreases frames.len(),
{
    if frames.len() == 0 {
        Seq::empty()
    } else {
        match pumped(session, frames[0]) {
            PumpModel::Show(bytes) => bytes + shown(session, frames.drop_first()),
            PumpModel::Skip => shown(session, frames.drop_first()),
            PumpModel::Stop => Seq::empty(),
        }
    }
}

/// Whether a frame is about `session`.
pub open spec fn is_about(session: Seq<char>, frame: ResponseModel) -> bool {
    match frame {
        ResponseModel::Scrollback { session_id, .. } => session_id == session,
        ResponseModel::Output { session_id, .. } => session_id == session,
        ResponseModel::Exited { session_id, .. } => session_id == session,
        _ => false,
    }
}

/// A terminal shows nothing of another session: a frame that is not about its
/// own may come anywhere and changes nothing.
pub proof fn law_terminal_shows_its_own_session_only(
    session: Seq<char>,
    before: Seq<ResponseModel>,
    other: ResponseModel,
    after: Seq<ResponseModel>,
)
    requires
        !is_about(session, other),
    ensures
        shown(session, before + seq![other] + after) == shown(session, before + after),
    decreases before.len(),
{
    let with = before + seq![other] + after;
    if before.len() == 0 {
        assert(with.drop_first() =~= before + after);
    } else {
        let rest = before.drop_first();
        law_terminal_shows_its_own_session_only(session, rest, other, after);
        assert(with.drop_first() =~= rest + seq![other] + after);
        assert((before + after).drop_first() =~= rest + after);
        assert(with[0] == before[0]);
        assert((before + after)[0] == before[0]);
    }
}

/// The output frames of `session` for the pieces `chunks`.
pub open spec fn output_frames(session: Seq<char>, chunks: Seq<Seq<u8>>) -> Seq<ResponseModel> {
    chunks.map_values(|data: Seq<u8>| ResponseModel::Output { session_id: session, data })
}

/// The frames of `session` for the pieces `chunks` show all of their bytes, in
/// order.
pub proof fn law_output_is_shown_whole(session: Seq<char>, chunks: Seq<Seq<u8>>)
    ensures
        shown(session, output_frames(session, chunks)) == joined(chunks),
    decreases chunks.len(),
{
    if chunks.len() > 0 {
        let front = chunks.drop_last();
        law_output_is_shown_whole(session, front);
        let last = output_frames(session, chunks).last();
        assert(output_frames(session, chunks) =~= output_frames(session, front).push(last));
        lemma_one_more_frame(session, output_frames(session, front), last);
    }
}

/// A frame after others that do not end the stream adds what it shows.
proof fn lemma_one_more_frame(
    session: Seq<char>,
    frames: Seq<ResponseModel>,
    last: ResponseModel,
)
    requires
        forall|i: int| 0 <= i < frames.len() ==> !(pumped(session, #[trigger] frames[i]) is Stop),
        last matches ResponseModel::Output { session_id, .. } && session_id == session,
    ensures
        shown(session, frames.push(last)) == shown(session, frames) + last->Output_data,
    decreases frames.len(),
{
    let all = frames.push(last);
    if frames.len() == 0 {
        assert(all[0] == last);
        assert(all.drop_first() =~= Seq::<ResponseModel>::empty());
        assert(shown(session, all.drop_first()) =~= Seq::<u8>::empty());
        assert(shown(session, all) =~= shown(session, frames) + last->Output_data);
    } else {
        let rest = frames.drop_first();
        assert forall|i: int| 0 <= i < rest.len() implies !(pumped(
            session,
            #[trigger] rest[i],
        ) is Stop) by {
            assert(rest[i] == frames[i + 1]);
        }
        lemma_one_more_frame(session, rest, last);
        assert(all.drop_first() =~= rest.push(last));
        assert(all[0] == frames[0]);
        assert(!(pumped(session, frames[0]) is Stop));
        assert(shown(session, all) =~= shown(session, frames) + last->Output_data);
    }
}

/// A client that attaches is shown the end of what the session has shown
/// before, and then all that it shows from there on: `before` are the pieces
/// of output up to the replay, `after` those that came since.
pub proof fn law_attaching_shows_replay_and_output(
    session: Seq<char>,
    before: Seq<Seq<u8>>,
    after: Seq<Seq<u8>>,
)
    ensures
        ({
            let replay = ResponseModel::Scrollback { session_id: session, data: kept(before) };
            shown(session, seq![replay] + output_frames(session, after)) == last_bytes(
                joined(before),
                SCROLLBACK_CAP as int,
            ) + joined(after)
        }),
{
    let replay = ResponseModel::Scrollback { session_id: session, data: kept(before) };
    let live = output_frames(session, after);
    law_replay_is_the_end_of_the_output(before);
    law_output_is_shown_whole(session, after);
    assert((seq![replay] + live).drop_first() =~= live);
    assert(shown(session, seq![replay] + live) =~= kept(before) + joined(after));
}

/// What is known of one terminal does not change what is known of another, and
/// a terminal that was killed is forgotten.
pub proof fn law_terminals_are_independent(
    bridge: Map<Seq<char>, BridgedModel>,
    terminal: Seq<char>,
    other: Seq<char>,
    session: BridgedModel,
)
    requires
        terminal != other,
    ensures
        bridge.insert(terminal, session).dom().contains(terminal),
        bridge.insert(terminal, session)[terminal] == session,
        bridge.insert(terminal, session).dom().contains(other) == bridge.dom().contains(other),
        bridge.dom().contains(other) ==> bridge.insert(terminal, session)[other] == bridge[other],
        !bridge.remove(terminal).dom().contains(terminal),
        bridge.remove(terminal).dom().contains(other) == bridge.dom().contains(other),
        bridge.dom().contains(other) ==> bridge.remove(terminal)[other] == bridge[other],
{
}

/// A terminal shows just the bytes, all of them, that a replay or output of its
/// own session brings, and stops just at the exit of its own session.
pub proof fn law_frame_is_shown_whole_or_not_at_all(session: Seq<char>, frame: ResponseModel)
    ensures
        ({
            let own = match frame {
                ResponseModel::Scrollback { session_id, data } => Some((session_id, data)),
                ResponseModel::Output { session_id, data } => Some((session_id, data)),
                _ => None::<(Seq<char>, Seq<u8>)>,
            };
            let brings = own is Some && (own->0).0 == session && (own->0).1.len() > 0;
            &&& brings ==> pumped(session, frame) == PumpModel::Show((own->0).1)
            &&& !brings ==> !(pumped(session, frame) is Show)
        }),
        pumped(session, frame) is Stop <==> (frame matches ResponseModel::Exited {
            session_id,
            ..
        } && session_id == session),
{
}

/// What becomes of a frame, as a value, is the same, with the bytes to show.
pub proof fn law_pump_model_has_every_byte(step: PumpStep)
    ensures
        step matches PumpStep::Show(bytes) ==> step.deep_view() == PumpModel::Show(bytes@),
        step is Skip <==> step.deep_view() is Skip,
        step is Stop <==> step.deep_view() is Stop,
{
}

/// The text for a terminal that does not run in the daemon names that terminal.
pub proof fn law_unknown_terminal_is_named(terminal_id: Seq<char>)
    ensures
        not_bridged(terminal_id) == "no bridged terminal "@ + terminal_id,
{
}

impl DaemonTerminalBridge {
    /// The bridge as a value has every terminal, with the session and the process
    /// that it was taken in with.
    proof fn law_bridge_model_has_every_terminal(self, terminal: Seq<char>)
        ensures
            self@.dom().contains(terminal) <==> self.terminals@.dom().contains(terminal),
            self@.dom().contains(terminal) ==> self@[terminal].session_id
                == self.terminals@[terminal].session_id@ && self@[terminal].pid
                == self.terminals@[terminal].pid,
    {
    }
}

} // verus!
