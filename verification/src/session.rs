//! The session: the state machine that serves one connection.
//!
//! A session starts in `Reading`. A frame takes it to `Dispatching`, the end
//! of the stream to `Closed`. Dispatching decodes the frame and serves the
//! command on the store, which takes the session to `Responding` with the
//! answer, or to `Closed` where the frame is no command that is served.
//! Once the answer is written the session is back in `Reading`. A failure
//! of the transport while it reads or writes closes the session.
//!
//! The caller does the work of each state (it reads, it writes) and reports
//! the result with the method that belongs to the state. A method called in
//! another state leaves the session as it is.

use crate::command::{decode, decoded, decoding_view, Command, CommandView, DecodeError};
use crate::frame::{FrameView, PlainFrame};
use crate::history::{
    answer, contents_after, lemma_transcript_length, replay, served, transcript,
};
use crate::store::{Contents, Store};
use vstd::prelude::*;

verus! {

/// The abstract value of a cause.
pub enum CauseView {
    EndOfStream,
    Transport { message: Seq<char> },
    Malformed { message: Seq<char> },
    Unsupported { description: Seq<char> },
}

/// Why a session is closed. The end of the stream is the regular end; the
/// others are fatal to the session, and to no other session.
#[derive(Debug, PartialEq, Eq)]
pub enum Cause {
    /// The peer closed the stream.
    EndOfStream,
    /// The transport failed to read or to write.
    Transport { message: String },
    /// A frame was no command; `message` is the decoder's.
    Malformed { message: String },
    /// A frame was a command that is not served.
    Unsupported { description: String },
}

impl View for Cause {
    type V = CauseView;

    open spec fn view(&self) -> CauseView {
        match self {
            Cause::EndOfStream => CauseView::EndOfStream,
            Cause::Transport { message } => CauseView::Transport { message: message@ },
            Cause::Malformed { message } => CauseView::Malformed { message: message@ },
            Cause::Unsupported { description } => CauseView::Unsupported {
                description: description@,
            },
        }
    }
}

/// The abstract value of a session.
pub enum SessionView {
    Reading,
    Dispatching { frame: FrameView },
    Responding { response: FrameView },
    Closed { cause: CauseView },
}

/// The state of one connection.
#[derive(Debug, PartialEq, Eq)]
pub enum Session {
    /// Waiting for the next frame of the peer.
    Reading,
    /// A frame was read and is to be served.
    Dispatching { frame: PlainFrame },
    /// A command was served and its answer is to be written.
    Responding { response: PlainFrame },
    /// The session is over.
    Closed { cause: Cause },
}

impl View for Session {
    type V = SessionView;

    open spec fn view(&self) -> SessionView {
        match self {
            Session::Reading => SessionView::Reading,
            Session::Dispatching { frame } => SessionView::Dispatching { frame: frame@ },
            Session::Responding { response } => SessionView::Responding { response: response@ },
            Session::Closed { cause } => SessionView::Closed { cause: cause@ },
        }
    }
}

/// The state that follows `Dispatching` once the frame was decoded as
/// `decoding`, on a store that holds `contents`: the answer is to be
/// written where the command is served, and the session is closed where the
/// command is not served or the frame was no command.
pub open spec fn after_decoding(
    contents: Contents,
    decoding: Result<CommandView, Seq<char>>,
) -> SessionView {
    match decoding {
        Ok(command) => match answer(contents, command) {
            Some(response) => SessionView::Responding { response },
            None => SessionView::Closed {
                cause: CauseView::Unsupported { description: command->description },
            },
        },
        Err(message) => SessionView::Closed { cause: CauseView::Malformed { message } },
    }
}

/// The contents of the store once a frame that was decoded as `decoding`
/// was dispatched.
pub open spec fn contents_after_decoding(
    contents: Contents,
    decoding: Result<CommandView, Seq<char>>,
) -> Contents {
    match decoding {
        Ok(command) => contents_after(contents, command),
        Err(_) => contents,
    }
}

/// Serves what the decoder made of a frame: a set overwrites the key and is
/// answered with `OK`, a get is answered with the value or with null, and
/// anything else closes the session and leaves the store as it is.
pub fn execute(store: &mut Store, decoding: Result<Command, DecodeError>) -> (next: Session)
    ensures
        next@ == after_decoding(old(store)@, decoding_view(decoding)),
        final(store)@ == contents_after_decoding(old(store)@, decoding_view(decoding)),
{
    match decoding {
        Ok(Command::SetKey { key, value }) => {
            store.set(key, value);
            Session::Responding { response: PlainFrame::Simple("OK".to_owned()) }
        },
        Ok(Command::Get { key }) => {
            match store.get(key.as_str()) {
                Some(value) => Session::Responding { response: PlainFrame::Bulk(value) },
                None => Session::Responding { response: PlainFrame::Null },
            }
        },
        Ok(Command::Unsupported { description }) => Session::Closed {
            cause: Cause::Unsupported { description },
        },
        Err(error) => Session::Closed { cause: Cause::Malformed { message: error.message } },
    }
}

impl Session {
    /// The state in which a session starts.
    pub fn start() -> (session: Session)
        ensures
            session@ == SessionView::Reading,
    {
        Session::Reading
    }

    /// The state after the transport reported `input` to a session in
    /// `state`: only a reading session takes input.
    pub open spec fn after_input(state: SessionView, input: Option<FrameView>) -> SessionView {
        match state {
            SessionView::Reading => match input {
                Some(frame) => SessionView::Dispatching { frame },
                None => SessionView::Closed { cause: CauseView::EndOfStream },
            },
            _ => state,
        }
    }

    /// The state after a session in `state` was dispatched on a store that
    /// holds `contents`: only a dispatching session moves.
    pub open spec fn after_dispatch(state: SessionView, contents: Contents) -> SessionView {
        match state {
            SessionView::Dispatching { frame } => after_decoding(contents, decoded(frame)),
            _ => state,
        }
    }

    /// The contents of the store after a session in `state` was dispatched
    /// on it.
    pub open spec fn contents_after_dispatch(state: SessionView, contents: Contents) -> Contents {
        match state {
            SessionView::Dispatching { frame } => contents_after_decoding(contents, decoded(frame)),
            _ => contents,
        }
    }

    /// The state after the transport failed with `message`: a session that
    /// reads or writes is closed.
    pub open spec fn after_failure(state: SessionView, message: Seq<char>) -> SessionView {
        match state {
            SessionView::Reading | SessionView::Responding { .. } => SessionView::Closed {
                cause: CauseView::Transport { message },
            },
            _ => state,
        }
    }

    /// The state after the answer was written: only a responding session
    /// goes back to reading.
    pub open spec fn after_response(state: SessionView) -> SessionView {
        match state {
            SessionView::Responding { .. } => SessionView::Reading,
            _ => state,
        }
    }

    /// Reports what the transport read: a frame, or `None` at the end of
    /// the stream.
    pub fn received(self, input: Option<PlainFrame>) -> (next: Session)
        ensures
            next@ == Session::after_input(
                self@,
                match input {
                    Some(frame) => Some(frame@),
                    None => None,
                },
            ),
    {
        match self {
            Session::Reading => match input {
                Some(frame) => Session::Dispatching { frame },
                None => Session::Closed { cause: Cause::EndOfStream },
            },
            other => other,
        }
    }

    /// Decodes the frame of a dispatching session and serves the command on
    /// `store`.
    pub fn dispatch(self, store: &mut Store) -> (next: Session)
        ensures
            next@ == Session::after_dispatch(self@, old(store)@),
            final(store)@ == Session::contents_after_dispatch(self@, old(store)@),
    {
        match self {
            Session::Dispatching { frame } => execute(store, decode(&frame)),
            other => other,
        }
    }

    /// Reports that the answer was written.
    pub fn responded(self) -> (next: Session)
        ensures
            next@ == Session::after_response(self@),
    {
        match self {
            Session::Responding { .. } => Session::Reading,
            other => other,
        }
    }

    /// Reports that the transport failed to read or to write.
    pub fn failed(self, message: String) -> (next: Session)
        ensures
            next@ == Session::after_failure(self@, message@),
    {
        match self {
            Session::Reading => Session::Closed { cause: Cause::Transport { message } },
            Session::Responding { .. } => Session::Closed { cause: Cause::Transport { message } },
            other => other,
        }
    }
}

/// Where a session and its store have come to.
pub struct Progress {
    /// The state of the session.
    pub state: SessionView,
    /// The contents of the store.
    pub contents: Contents,
    /// The answers written so far, in their order.
    pub written: Seq<FrameView>,
}

/// One round of a session: `frame` is read, dispatched on the store and,
/// where an answer is due, the answer is written.
pub open spec fn round(before: Progress, frame: FrameView) -> Progress {
    let dispatching = Session::after_input(before.state, Some(frame));
    let dispatched = Session::after_dispatch(dispatching, before.contents);
    Progress {
        state: Session::after_response(dispatched),
        contents: Session::contents_after_dispatch(dispatching, before.contents),
        written: match dispatched {
            SessionView::Responding { response } => before.written.push(response),
            _ => before.written,
        },
    }
}

/// The rounds of a session that starts on a store with `contents` and reads
/// `frames`, one round for each frame.
pub open spec fn rounds(contents: Contents, frames: Seq<FrameView>) -> Progress
    decreases frames.len(),
{
    if frames.len() == 0 {
        Progress { state: SessionView::Reading, contents, written: Seq::empty() }
    } else {
        round(rounds(contents, frames.drop_last()), frames.last())
    }
}

/// Whether each frame of `frames` decodes to the command of `commands` at
/// the same place, and each of these commands is served.
pub open spec fn decode_to(frames: Seq<FrameView>, commands: Seq<CommandView>) -> bool {
    &&& frames.len() == commands.len()
    &&& forall|i: int|
        0 <= i < frames.len() ==> decoded(#[trigger] frames[i]) == Ok::<CommandView, Seq<char>>(
            commands[i],
        ) && served(commands[i])
}

/// Requests and answers pair up strictly: a session that reads frames which
/// decode to served commands answers each frame before it reads the next,
/// the answers are those of the history of the commands, in the order of
/// the frames, and the store ends with the contents that replaying the
/// history gives.
pub proof fn lemma_rounds_follow_the_history(
    contents: Contents,
    frames: Seq<FrameView>,
    commands: Seq<CommandView>,
)
    requires
        decode_to(frames, commands),
    ensures
        rounds(contents, frames).state == SessionView::Reading,
        rounds(contents, frames).contents == replay(contents, commands),
        rounds(contents, frames).written.len() == frames.len(),
        forall|i: int|
            0 <= i < frames.len() ==> Some(#[trigger] rounds(contents, frames).written[i])
                == transcript(contents, commands)[i].answer,
    decreases frames.len(),
{
    if frames.len() > 0 {
        let earlier = frames.drop_last();
        let earlier_commands = commands.drop_last();
        assert(decode_to(earlier, earlier_commands)) by {
            assert forall|i: int| 0 <= i < earlier.len() implies decoded(#[trigger] earlier[i])
                == Ok::<CommandView, Seq<char>>(earlier_commands[i]) && served(
                earlier_commands[i],
            ) by {
                assert(earlier[i] == frames[i]);
            }
        }
        lemma_rounds_follow_the_history(contents, earlier, earlier_commands);
        lemma_transcript_length(contents, earlier_commands);
        lemma_transcript_length(contents, commands);
        let last = frames.len() - 1;
        assert(decoded(frames[last]) == Ok::<CommandView, Seq<char>>(commands[last]));
        assert forall|i: int| 0 <= i < frames.len() implies Some(
            #[trigger] rounds(contents, frames).written[i],
        ) == transcript(contents, commands)[i].answer by {
            if i < last {
                assert(rounds(contents, frames).written[i] == rounds(contents, earlier).written[i]);
                assert(transcript(contents, commands)[i] == transcript(
                    contents,
                    earlier_commands,
                )[i]);
            }
        }
    }
}

/// A closed session stays closed: nothing that is reported to it moves it,
/// a dispatch of it leaves the store as it is, and a round writes nothing.
pub proof fn lemma_closed_is_final(
    state: SessionView,
    contents: Contents,
    input: Option<FrameView>,
    message: Seq<char>,
)
    requires
        state is Closed,
    ensures
        Session::after_input(state, input) == state,
        Session::after_dispatch(state, contents) == state,
        Session::contents_after_dispatch(state, contents) == contents,
        Session::after_response(state) == state,
        Session::after_failure(state, message) == state,
        input matches Some(frame) ==> round(
            Progress { state, contents, written: Seq::empty() },
            frame,
        ) == (Progress { state, contents, written: Seq::empty() }),
{
}

} // verus!
