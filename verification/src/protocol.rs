//! The protocol loop of a session, one event at a time.
//!
//! The loop waits for whichever comes first: bytes from the write queue or a
//! message from the remote channel. Waiting is the caller's part. This module
//! decides what each event means: what to ask of the channel, whom to notify,
//! and whether the loop goes on.

use vstd::prelude::*;
use crate::channel::{ChannelMsg, ChannelMsgView, Command, CommandView};
use crate::error::{Error, ErrorView};
use crate::shell::{InfoView, Shell, ShellInfo, ShellView};
use crate::terminal::TerminalState;

verus! {

/// What the loop has learnt so far about the end of the remote shell.
#[derive(Debug, Clone, Copy, PartialEq, Eq)]
pub struct LoopState {
    /// The exit status, once the remote side has reported it.
    pub exit_status: Option<u32>,
    /// Whether the remote side has announced the end of its data.
    pub eof_seen: bool,
}

/// What the loop woke up on.
#[derive(Debug, PartialEq, Eq)]
pub enum LoopEvent {
    /// The write queue yielded bytes to forward, or nothing once it is closed.
    Outbound(Option<Vec<u8>>),
    /// The channel yielded a message, or nothing once it is gone.
    Inbound(Option<ChannelMsg>),
    /// The transport could not carry out a command, for the reason given.
    TransportFailed(String),
}

/// The mathematical value of a [`LoopEvent`].
pub enum LoopEventView {
    Outbound(Option<Seq<u8>>),
    Inbound(Option<ChannelMsgView>),
    TransportFailed(Seq<char>),
}

impl View for LoopEvent {
    type V = LoopEventView;

    open spec fn view(&self) -> LoopEventView {
        match self {
            LoopEvent::Outbound(Some(bytes)) => LoopEventView::Outbound(Some(bytes@)),
            LoopEvent::Outbound(None) => LoopEventView::Outbound(None),
            LoopEvent::Inbound(Some(msg)) => LoopEventView::Inbound(Some(msg@)),
            LoopEvent::Inbound(None) => LoopEventView::Inbound(None),
            LoopEvent::TransportFailed(reason) => LoopEventView::TransportFailed(reason@),
        }
    }
}

/// A stream of output of the remote shell that a session reports.
#[derive(Debug, Clone, Copy, PartialEq, Eq, Structural)]
pub enum Stream {
    /// The primary stream.
    Primary,
    /// The extended stream 1, which carries diagnostics.
    Extended,
}

impl Stream {
    /// The number under which the sink hears of the stream.
    pub open spec fn number(self) -> u32 {
        match self {
            Stream::Primary => 0,
            Stream::Extended => 1,
        }
    }

    /// The number under which the sink hears of the stream: 0 for the
    /// primary stream, 1 for the extended one.
    pub fn fd(self) -> (fd: u32)
        ensures
            fd == self.number(),
    {
        match self {
            Stream::Primary => 0,
            Stream::Extended => 1,
        }
    }
}

/// Something that the notification sink is to be told.
#[derive(Debug, PartialEq, Eq)]
pub enum Notice {
    /// Raw output arrived on a stream.
    Rx(Stream, Vec<u8>),
    /// What the session tells about itself has changed.
    Info(ShellInfo),
}

/// The mathematical value of a [`Notice`].
pub enum NoticeView {
    Rx(Stream, Seq<u8>),
    Info(InfoView),
}

impl DeepView for Notice {
    type V = NoticeView;

    open spec fn deep_view(&self) -> NoticeView {
        match self {
            Notice::Rx(stream, bytes) => NoticeView::Rx(*stream, bytes@),
            Notice::Info(info) => NoticeView::Info(info@),
        }
    }
}

/// Whether the loop goes on after an event.
#[derive(Debug, PartialEq, Eq)]
pub enum Flow {
    /// The loop waits for the next event.
    Continue,
    /// The session is over: the loop ends with success.
    Finished,
    /// The loop ends with this error.
    Failed(Error),
}

/// The mathematical value of a [`Flow`].
pub enum FlowView {
    Continue,
    Finished,
    Failed(ErrorView),
}

impl View for Flow {
    type V = FlowView;

    open spec fn view(&self) -> FlowView {
        match self {
            Flow::Continue => FlowView::Continue,
            Flow::Finished => FlowView::Finished,
            Flow::Failed(e) => FlowView::Failed(e@),
        }
    }
}

/// What the loop does about one event.
#[derive(Debug, PartialEq, Eq)]
pub struct Reaction {
    /// What to ask of the channel, if anything.
    pub command: Option<Command>,
    /// What to tell the notification sink, in this order.
    pub notices: Vec<Notice>,
    /// Whether the loop goes on.
    pub flow: Flow,
}

/// The mathematical value of a [`Reaction`].
pub struct ReactionView {
    pub command: Option<CommandView>,
    pub notices: Seq<NoticeView>,
    pub flow: FlowView,
}

impl View for Reaction {
    type V = ReactionView;

    open spec fn view(&self) -> ReactionView {
        ReactionView {
            command: match self.command {
                Some(command) => Some(command@),
                None => None,
            },
            notices: self.notices.deep_view(),
            flow: self.flow@,
        }
    }
}

impl ReactionView {
    /// Nothing to do: the loop goes on.
    pub open spec fn idle() -> ReactionView {
        ReactionView { command: None, notices: Seq::empty(), flow: FlowView::Continue }
    }

    /// The session is over.
    pub open spec fn finished() -> ReactionView {
        ReactionView { command: None, notices: Seq::empty(), flow: FlowView::Finished }
    }

    /// The loop ends with `error`.
    pub open spec fn failed(error: ErrorView) -> ReactionView {
        ReactionView { command: None, notices: Seq::empty(), flow: FlowView::Failed(error) }
    }

    /// The sink is told `notices`, and the loop goes on.
    pub open spec fn notify(notices: Seq<NoticeView>) -> ReactionView {
        ReactionView { command: None, notices, flow: FlowView::Continue }
    }
}

/// What the loop owes when the end of the remote shell may have been reached:
/// if `over`, the write queue is torn down and the loop ends with success;
/// otherwise nothing happens.
pub open spec fn ends_when(
    over: bool,
    pre: ShellView,
    post: ShellView,
    reaction: ReactionView,
) -> bool {
    if over {
        post == pre.torn_down() && reaction == ReactionView::finished()
    } else {
        post == pre && reaction == ReactionView::idle()
    }
}

/// What the loop owes for a message `msg` from an open channel.
pub open spec fn message_spec(
    pre: ShellView,
    state: LoopState,
    msg: ChannelMsgView,
    post: ShellView,
    next: LoopState,
    reaction: ReactionView,
) -> bool {
    match msg {
        ChannelMsgView::Data { data } => {
            &&& next == state
            &&& pre.receives(data, post)
            &&& reaction == ReactionView::notify(
                if post.terminal@.title() != pre.terminal@.title() {
                    seq![
                        NoticeView::Rx(Stream::Primary, data),
                        NoticeView::Info(post.info()),
                    ]
                } else {
                    seq![NoticeView::Rx(Stream::Primary, data)]
                },
            )
        },
        ChannelMsgView::ExtendedData { data, ext } => {
            &&& next == state
            &&& if ext == 1 {
                pre.receives(data, post) && reaction == ReactionView::notify(
                    seq![NoticeView::Rx(Stream::Extended, data)],
                )
            } else {
                post == pre && reaction == ReactionView::idle()
            }
        },
        ChannelMsgView::ExitStatus { exit_status } => {
            &&& next == (LoopState { exit_status: Some(exit_status), ..state })
            &&& ends_when(state.eof_seen, pre, post, reaction)
        },
        ChannelMsgView::Eof => {
            &&& next == (LoopState { eof_seen: true, ..state })
            &&& ends_when(state.exit_status is Some, pre, post, reaction)
        },
        ChannelMsgView::Close | ChannelMsgView::Other => {
            &&& next == state
            &&& post == pre
            &&& reaction == ReactionView::idle()
        },
    }
}

/// What the loop owes for `event`: how the session `pre` and the loop state
/// `state` become `post` and `next`, and which `reaction` is handed out.
pub open spec fn step_spec(
    pre: ShellView,
    state: LoopState,
    event: LoopEventView,
    post: ShellView,
    next: LoopState,
    reaction: ReactionView,
) -> bool {
    match event {
        LoopEventView::Outbound(Some(bytes)) => {
            &&& next == state
            &&& if pre.connected {
                post == pre && reaction == (ReactionView {
                    command: Some(CommandView::Data(bytes)),
                    ..ReactionView::idle()
                })
            } else {
                post == pre.torn_down() && reaction == ReactionView::failed(
                    ErrorView::Disconnected,
                )
            }
        },
        LoopEventView::Outbound(None) => {
            &&& next == state
            &&& post == pre.closed().torn_down()
            &&& reaction == (ReactionView {
                command: if pre.connected {
                    Some(CommandView::Close)
                } else {
                    None
                },
                ..ReactionView::finished()
            })
        },
        LoopEventView::Inbound(received) => {
            if pre.connected && received is Some {
                message_spec(pre, state, received->0, post, next, reaction)
            } else {
                &&& next == state
                &&& post == pre.torn_down()
                &&& reaction == ReactionView::failed(ErrorView::Disconnected)
            }
        },
        LoopEventView::TransportFailed(reason) => {
            &&& next == state
            &&& post == pre.torn_down()
            &&& reaction == ReactionView::failed(ErrorView::Transport(reason))
        },
    }
}

/// The loop ends with success on a message from an open channel exactly when
/// that message is the exit status or the end of data and, with it, both have
/// been seen.
pub proof fn lemma_ends_once_both_seen(
    pre: ShellView,
    state: LoopState,
    msg: ChannelMsgView,
    post: ShellView,
    next: LoopState,
    reaction: ReactionView,
)
    requires
        pre.connected,
        step_spec(pre, state, LoopEventView::Inbound(Some(msg)), post, next, reaction),
    ensures
        reaction.flow == FlowView::Finished <==> (msg is ExitStatus || msg is Eof)
            && next.exit_status is Some && next.eof_seen,
        reaction.flow == FlowView::Finished || reaction.flow == FlowView::Continue,
{
}

/// The exit status followed by the end of data ends a fresh loop, at the
/// second message and not before.
pub proof fn lemma_exit_status_then_eof(
    pre: ShellView,
    exit_status: u32,
    mid: ShellView,
    state: LoopState,
    first: ReactionView,
    post: ShellView,
    next: LoopState,
    second: ReactionView,
)
    requires
        pre.connected,
        step_spec(
            pre,
            LoopState::initial(),
            LoopEventView::Inbound(Some(ChannelMsgView::ExitStatus { exit_status })),
            mid,
            state,
            first,
        ),
        step_spec(
            mid,
            state,
            LoopEventView::Inbound(Some(ChannelMsgView::Eof)),
            post,
            next,
            second,
        ),
    ensures
        first == ReactionView::idle(),
        second == ReactionView::finished(),
        next == (LoopState { exit_status: Some(exit_status), eof_seen: true }),
{
}

/// The end of data followed by the exit status ends a fresh loop, at the
/// second message and not before.
pub proof fn lemma_eof_then_exit_status(
    pre: ShellView,
    exit_status: u32,
    mid: ShellView,
    state: LoopState,
    first: ReactionView,
    post: ShellView,
    next: LoopState,
    second: ReactionView,
)
    requires
        pre.connected,
        step_spec(
            pre,
            LoopState::initial(),
            LoopEventView::Inbound(Some(ChannelMsgView::Eof)),
            mid,
            state,
            first,
        ),
        step_spec(
            mid,
            state,
            LoopEventView::Inbound(Some(ChannelMsgView::ExitStatus { exit_status })),
            post,
            next,
            second,
        ),
    ensures
        first == ReactionView::idle(),
        second == ReactionView::finished(),
        next == (LoopState { exit_status: Some(exit_status), eof_seen: true }),
{
}

/// Output on an extended stream other than stream 1 is ignored: the terminal
/// is not fed, the sink is told nothing, and the loop goes on.
pub proof fn lemma_other_streams_ignored(
    pre: ShellView,
    state: LoopState,
    data: Seq<u8>,
    ext: u32,
    post: ShellView,
    next: LoopState,
    reaction: ReactionView,
)
    requires
        pre.connected,
        ext != 1,
        step_spec(
            pre,
            state,
            LoopEventView::Inbound(Some(ChannelMsgView::ExtendedData { data, ext })),
            post,
            next,
            reaction,
        ),
    ensures
        post == pre,
        next == state,
        reaction == ReactionView::idle(),
{
}

/// Whenever the loop ends, with success or with an error, the write queue is
/// torn down, so that every later write is refused; and a queue that is torn
/// down stays so.
pub proof fn lemma_queue_torn_down_at_end(
    pre: ShellView,
    state: LoopState,
    event: LoopEventView,
    post: ShellView,
    next: LoopState,
    reaction: ReactionView,
)
    requires
        step_spec(pre, state, event, post, next, reaction),
    ensures
        reaction.flow != FlowView::Continue ==> !post.accepts_writes(),
        !pre.accepts_writes() ==> !post.accepts_writes(),
        reaction.flow == FlowView::Continue ==> post.outbound == pre.outbound,
{
}

/// A turn of the loop never reopens a channel, and it closes the channel only
/// when the write queue is closed. What it closes it orders to be closed.
pub proof fn lemma_channel_closed_once(
    pre: ShellView,
    state: LoopState,
    event: LoopEventView,
    post: ShellView,
    next: LoopState,
    reaction: ReactionView,
)
    requires
        step_spec(pre, state, event, post, next, reaction),
    ensures
        post.connected ==> pre.connected,
        pre.connected && !post.connected <==> reaction.command == Some(CommandView::Close),
        reaction.command == Some(CommandView::Close) ==> event == LoopEventView::Outbound(None),
{
}

/// Whether `event` is output of the remote side on the primary stream or on
/// stream 1, and `after` is the terminal `before` fed with that output.
pub open spec fn fed_by(event: LoopEventView, before: TerminalState, after: TerminalState) -> bool {
    match event {
        LoopEventView::Inbound(Some(ChannelMsgView::Data { data })) => after == before.feed(data),
        LoopEventView::Inbound(Some(ChannelMsgView::ExtendedData { data, ext })) => ext == 1
            && after == before.feed(data),
        _ => false,
    }
}

/// A turn of the loop changes the terminal only by feeding it bytes that the
/// remote side sent on the primary stream or on stream 1, and only in a
/// session with a pseudo-terminal. Bytes from the write queue never reach it.
pub proof fn lemma_terminal_fed_by_remote_only(
    pre: ShellView,
    state: LoopState,
    event: LoopEventView,
    post: ShellView,
    next: LoopState,
    reaction: ReactionView,
)
    requires
        step_spec(pre, state, event, post, next, reaction),
    ensures
        post.terminal != pre.terminal ==> pre.has_pty && pre.connected && fed_by(
            event,
            pre.terminal@,
            post.terminal@,
        ),
        post.token == pre.token,
        post.has_pty == pre.has_pty,
        post.default_title == pre.default_title,
        post.created_at == pre.created_at,
{
}

impl LoopState {
    /// The state in which the loop starts: nothing is known yet.
    pub open spec fn initial() -> LoopState {
        LoopState { exit_status: None, eof_seen: false }
    }

    /// The state in which the loop starts: nothing is known yet.
    pub fn new() -> (state: LoopState)
        ensures
            state == LoopState::initial(),
    {
        LoopState { exit_status: None, eof_seen: false }
    }
}

/// The sink that a caller provides to hear of raw output and of changes to
/// what a session tells about itself. Its methods are called from within the
/// protocol loop and must not block.
pub trait ShellCallback {
    /// Raw output arrived on stream `fd`: `0` is the primary stream, `1` the
    /// extended one. No other stream is ever reported.
    fn rx(&self, fd: u32, data: &[u8])
        requires
            fd == 0 || fd == 1,
    ;

    /// What the session tells about itself has changed to `info`.
    fn info(&self, info: ShellInfo);
}

/// Tells the sink `cb` each of `notices`, in their order.
pub fn notify<CB: ShellCallback>(cb: &CB, notices: Vec<Notice>) {
    for notice in notices {
        match notice {
            Notice::Rx(stream, data) => cb.rx(stream.fd(), data.as_slice()),
            Notice::Info(info) => cb.info(info),
        }
    }
}

impl Reaction {
    /// A reaction with a command or none, nothing to tell the sink, and the
    /// given flow.
    fn silent(command: Option<Command>, flow: Flow) -> (reaction: Reaction)
        ensures
            reaction.command == command,
            reaction.flow == flow,
            reaction@.notices == Seq::<NoticeView>::empty(),
    {
        let notices: Vec<Notice> = Vec::new();
        assert(notices.deep_view() =~= Seq::empty());
        Reaction { command, notices, flow }
    }

    fn idle() -> (reaction: Reaction)
        ensures
            reaction@ == ReactionView::idle(),
    {
        Reaction::silent(None, Flow::Continue)
    }

    fn notify(notices: Vec<Notice>) -> (reaction: Reaction)
        ensures
            reaction@ == ReactionView::notify(notices.deep_view()),
    {
        Reaction { command: None, notices, flow: Flow::Continue }
    }
}

impl Shell {
    /// Ends the loop with `error`: the write queue is torn down.
    fn fail(&mut self, error: Error) -> (reaction: Reaction)
        ensures
            final(self)@ == old(self)@.torn_down(),
            reaction@ == ReactionView::failed(error@),
    {
        self.stop();
        Reaction::silent(None, Flow::Failed(error))
    }

    /// Ends the loop with success if `over`, and lets it go on otherwise.
    fn end_when(&mut self, over: bool) -> (reaction: Reaction)
        ensures
            ends_when(over, old(self)@, final(self)@, reaction@),
    {
        if over {
            self.stop();
            Reaction::silent(None, Flow::Finished)
        } else {
            Reaction::idle()
        }
    }

    /// Reacts to a message from the open channel.
    fn receive(&mut self, state: &mut LoopState, msg: ChannelMsg) -> (reaction: Reaction)
        ensures
            message_spec(
                old(self)@,
                *old(state),
                msg@,
                final(self)@,
                *final(state),
                reaction@,
            ),
    {
        match msg {
            ChannelMsg::Data { data } => {
                let changed = self.process(data.as_slice());
                let mut notices = Vec::new();
                notices.push(Notice::Rx(Stream::Primary, data));
                if changed {
                    notices.push(Notice::Info(self.info()));
                    assert(notices.deep_view() =~= seq![
                        NoticeView::Rx(Stream::Primary, data@),
                        NoticeView::Info(self@.info()),
                    ]);
                } else {
                    assert(notices.deep_view() =~= seq![
                        NoticeView::Rx(Stream::Primary, data@),
                    ]);
                }
                Reaction::notify(notices)
            },
            ChannelMsg::ExtendedData { data, ext } => {
                if ext == 1 {
                    self.process(data.as_slice());
                    let mut notices = Vec::new();
                    notices.push(Notice::Rx(Stream::Extended, data));
                    assert(notices.deep_view() =~= seq![
                        NoticeView::Rx(Stream::Extended, data@),
                    ]);
                    Reaction::notify(notices)
                } else {
                    Reaction::idle()
                }
            },
            ChannelMsg::ExitStatus { exit_status } => {
                state.exit_status = Some(exit_status);
                self.end_when(state.eof_seen)
            },
            ChannelMsg::Eof => {
                state.eof_seen = true;
                self.end_when(state.exit_status.is_some())
            },
            ChannelMsg::Close => Reaction::idle(),
            ChannelMsg::Other => Reaction::idle(),
        }
    }

    /// One turn of the protocol loop: reacts to `event`.
    ///
    /// Bytes from the write queue are forwarded to the channel. A closed
    /// queue closes the channel and ends the loop. Output from the remote
    /// side feeds the terminal and is reported to the sink. The loop ends
    /// with success once both the exit status and the end of data were seen,
    /// in either order, and with an error when the channel is gone or the
    /// transport has failed. Whenever the loop ends, the write queue is torn
    /// down.
    pub fn step(&mut self, state: &mut LoopState, event: LoopEvent) -> (reaction: Reaction)
        ensures
            step_spec(old(self)@, *old(state), event@, final(self)@, *final(state), reaction@),
    {
        match event {
            LoopEvent::Outbound(Some(bytes)) => match self.send(bytes) {
                Ok(command) => Reaction::silent(Some(command), Flow::Continue),
                Err(e) => self.fail(e),
            },
            LoopEvent::Outbound(None) => {
                let command = self.close();
                self.stop();
                Reaction::silent(command, Flow::Finished)
            },
            LoopEvent::Inbound(received) => match self.wait(received) {
                Ok(msg) => self.receive(state, msg),
                Err(e) => self.fail(e),
            },
            LoopEvent::TransportFailed(reason) => self.fail(Error::Transport(reason)),
        }
    }
}

} // verus!
