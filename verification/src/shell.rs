//! The session actor: one remote channel, one write queue, one terminal.
//!
//! The actor holds what a session knows locally. Work that only the transport
//! can do is handed back to the caller as a [`Command`]; the caller carries it
//! out on the channel handle that it keeps.

use vstd::prelude::*;
use vstd::slice::slice_to_vec;
use crate::channel::{ChannelMsg, Command, CommandView};
use crate::error::Error;
use crate::queue::{open_queue, queue_send, Outbound, QueueState};
use crate::terminal::{blank_rows, fits, trimmed, ShellBuffer, Terminal, TerminalState};
use crate::token::{ShellToken, TokenView};

verus! {

/// What a session tells about itself.
#[derive(Debug, PartialEq, Eq)]
pub struct ShellInfo {
    /// The identity of the session.
    pub token: ShellToken,
    /// The window title, or the default title while the terminal has none.
    pub title: String,
    /// Whether the remote shell runs on a pseudo-terminal.
    pub has_pty: bool,
    /// When the session was created.
    pub created_at: u64,
}

/// The mathematical value of a [`ShellInfo`].
pub struct InfoView {
    pub token: TokenView,
    pub title: Seq<char>,
    pub has_pty: bool,
    pub created_at: u64,
}

impl View for ShellInfo {
    type V = InfoView;

    open spec fn view(&self) -> InfoView {
        InfoView {
            token: self.token@,
            title: self.title@,
            has_pty: self.has_pty,
            created_at: self.created_at,
        }
    }
}

/// A session actor.
pub struct Shell {
    token: ShellToken,
    has_pty: bool,
    def_title: String,
    created_at: u64,
    connected: bool,
    outbound: Outbound,
    terminal: Terminal,
}

/// The state of a session actor.
pub struct ShellView {
    /// The identity of the session.
    pub token: TokenView,
    /// Whether the remote shell runs on a pseudo-terminal.
    pub has_pty: bool,
    /// The title to show while the terminal has none.
    pub default_title: Seq<char>,
    /// When the session was created.
    pub created_at: u64,
    /// Whether the channel is still held, that is, not yet closed.
    pub connected: bool,
    /// Where the write queue stands.
    pub outbound: QueueState,
    /// The terminal emulator.
    pub terminal: Terminal,
}

impl ShellView {
    /// The title that the session shows: the terminal's, or the default one
    /// while the terminal's is empty.
    pub open spec fn title(self) -> Seq<char> {
        if self.terminal@.title().len() == 0 {
            self.default_title
        } else {
            self.terminal@.title()
        }
    }

    /// What the session tells about itself.
    pub open spec fn info(self) -> InfoView {
        InfoView {
            token: self.token,
            title: self.title(),
            has_pty: self.has_pty,
            created_at: self.created_at,
        }
    }

    /// Whether the write queue takes writes: the protocol loop runs.
    pub open spec fn accepts_writes(self) -> bool {
        self.outbound == QueueState::Open
    }

    /// The session once its channel is closed.
    pub open spec fn closed(self) -> ShellView {
        ShellView { connected: false, ..self }
    }

    /// The session once its protocol loop has started.
    pub open spec fn started(self) -> ShellView {
        ShellView { outbound: QueueState::Open, ..self }
    }

    /// The session once its protocol loop has ended.
    pub open spec fn torn_down(self) -> ShellView {
        ShellView { outbound: QueueState::TornDown, ..self }
    }

    /// Whether `after` is this session once its terminal has `rows` rows and
    /// `cols` columns.
    pub open spec fn resized(self, rows: u16, cols: u16, after: ShellView) -> bool {
        &&& after == (ShellView { terminal: after.terminal, ..self })
        &&& self.terminal.resized(rows, cols, after.terminal)
    }

    /// Whether `after` is this session once bytes `data` have arrived from the
    /// remote side: a session with a pseudo-terminal has fed them to its
    /// terminal, another one is unchanged.
    pub open spec fn receives(self, data: Seq<u8>, after: ShellView) -> bool {
        if self.has_pty {
            &&& after == (ShellView { terminal: after.terminal, ..self })
            &&& after.terminal@ == self.terminal@.feed(data)
        } else {
            after == self
        }
    }
}

/// Closing is idempotent: a session that was closed has no channel, and
/// closing it again changes nothing.
pub proof fn lemma_close_idempotent(shell: ShellView)
    ensures
        !shell.closed().connected,
        shell.closed().closed() == shell.closed(),
{
}

impl View for Shell {
    type V = ShellView;

    closed spec fn view(&self) -> ShellView {
        ShellView {
            token: self.token@,
            has_pty: self.has_pty,
            default_title: self.def_title@,
            created_at: self.created_at,
            connected: self.connected,
            outbound: self.outbound@,
            terminal: self.terminal,
        }
    }
}

impl Shell {
    /// A session on a channel that was just opened, with a blank terminal of
    /// `rows` by `cols` cells and no write queue yet.
    pub fn new(
        token: ShellToken,
        has_pty: bool,
        def_title: String,
        created_at: u64,
        rows: u16,
        cols: u16,
    ) -> (shell: Shell)
        requires
            fits(rows, cols),
        ensures
            shell@.token == token@,
            shell@.has_pty == has_pty,
            shell@.default_title == def_title@,
            shell@.created_at == created_at,
            shell@.connected,
            shell@.outbound == QueueState::Idle,
            shell@.terminal@ == (TerminalState { fed: Seq::empty(), rows, cols }),
            shell@.title() == def_title@,
            forall|width: u16| #[trigger] shell@.terminal.grid(width) == blank_rows(rows as nat),
            shell@.terminal.cursor() == (0u16, 0u16),
    {
        Shell {
            token,
            has_pty,
            def_title,
            created_at,
            connected: true,
            outbound: Outbound::Idle,
            terminal: Terminal::new(rows, cols),
        }
    }

    /// Starts the protocol loop's write queue and hands out its receiving
    /// half. This happens at most once in the life of a session: if the loop
    /// was started before, nothing changes and nothing is handed out.
    pub fn start(&mut self) -> (receiver: Option<tokio::sync::mpsc::UnboundedReceiver<Vec<u8>>>)
        ensures
            receiver is Some <==> old(self)@.outbound == QueueState::Idle,
            final(self)@ == if receiver is Some {
                old(self)@.started()
            } else {
                old(self)@
            },
    {
        match self.outbound {
            Outbound::Idle => {
                let (sender, receiver) = open_queue();
                self.outbound = Outbound::Open(sender);
                Some(receiver)
            },
            _ => None,
        }
    }

    /// Ends the write queue for good: from now on every write is refused.
    pub fn stop(&mut self)
        ensures
            final(self)@ == old(self)@.torn_down(),
    {
        self.outbound = Outbound::TornDown;
    }

    /// What a write returns once the queue has answered: success if the queue
    /// took the bytes, `Disconnected` if it is gone.
    pub fn delivery(accepted: bool) -> (r: Result<(), Error>)
        ensures
            r == if accepted {
                Ok::<(), Error>(())
            } else {
                Err::<(), Error>(Error::Disconnected)
            },
    {
        if accepted {
            Ok(())
        } else {
            Err(Error::Disconnected)
        }
    }

    /// Puts `data` on the write queue for the protocol loop to forward. Fails
    /// with `Disconnected` if the loop has not started or has ended; while the
    /// loop runs, the queue decides, and it refuses only when it is gone.
    pub fn write(&self, data: &[u8]) -> (r: Result<(), Error>)
        ensures
            !self@.accepts_writes() ==> r is Err,
            r is Err ==> r == Err::<(), Error>(Error::Disconnected),
    {
        match &self.outbound {
            Outbound::Open(sender) => Shell::delivery(queue_send(sender, slice_to_vec(data))),
            _ => Err(Error::Disconnected),
        }
    }

    /// Resizes the terminal to `cols` by `rows` cells and asks for the remote
    /// side to be told. Fails with `Disconnected`, and changes nothing, if the
    /// channel is closed.
    pub fn resize(&mut self, cols: u16, rows: u16) -> (r: Result<Command, Error>)
        requires
            fits(rows, cols),
        ensures
            match r {
                Ok(command) => {
                    &&& old(self)@.connected
                    &&& command@ == CommandView::window_change(cols, rows)
                    &&& old(self)@.resized(rows, cols, final(self)@)
                },
                Err(e) => {
                    &&& !old(self)@.connected
                    &&& e == Error::Disconnected
                    &&& final(self)@ == old(self)@
                },
            },
    {
        if !self.connected {
            return Err(Error::Disconnected);
        }
        self.terminal.resize(rows, cols);
        Ok(
            Command::WindowChange {
                col_width: cols as u32,
                row_height: rows as u32,
                pix_width: 0,
                pix_height: 0,
            },
        )
    }

    /// Renders the terminal over `cols` columns, without the empty rows at
    /// the end. This reads local state only and never fails, whether the
    /// channel is open or not.
    pub fn screen(&self, cols: u16, rows: u16) -> (r: Result<ShellBuffer, Error>)
        ensures
            r matches Ok(buffer) && {
                &&& buffer.rows.deep_view() == trimmed(self@.terminal.grid(cols))
                &&& buffer.rows.len() == trimmed(self@.terminal.grid(cols)).len()
                &&& buffer.rows.len() <= self@.terminal@.rows
                &&& buffer.cursor == self@.terminal.cursor()
            },
    {
        Ok(self.terminal.snapshot(cols))
    }

    /// Lets go of the channel. The first call hands back the order to close
    /// it; every later call finds no channel and does nothing.
    pub fn close(&mut self) -> (command: Option<Command>)
        ensures
            final(self)@ == old(self)@.closed(),
            command == if old(self)@.connected {
                Some(Command::Close)
            } else {
                None::<Command>
            },
    {
        if self.connected {
            self.connected = false;
            Some(Command::Close)
        } else {
            None
        }
    }

    /// Tells whether the session can be used: its loop was started, or its
    /// channel is still open.
    pub fn activate(&self, cols: u16, rows: u16) -> (r: Result<(), Error>)
        ensures
            r == if self@.outbound != QueueState::Idle || self@.connected {
                Ok::<(), Error>(())
            } else {
                Err::<(), Error>(Error::Disconnected)
            },
    {
        match self.outbound {
            Outbound::Idle => {
                if self.connected {
                    Ok(())
                } else {
                    Err(Error::Disconnected)
                }
            },
            _ => Ok(()),
        }
    }

    /// Judges what the channel yielded: a message counts only while the
    /// channel is open, and a channel that yields nothing is gone.
    pub fn wait(&self, received: Option<ChannelMsg>) -> (r: Result<ChannelMsg, Error>)
        ensures
            r == if self@.connected && received is Some {
                Ok::<ChannelMsg, Error>(received->0)
            } else {
                Err::<ChannelMsg, Error>(Error::Disconnected)
            },
    {
        if !self.connected {
            return Err(Error::Disconnected);
        }
        match received {
            Some(msg) => Ok(msg),
            None => Err(Error::Disconnected),
        }
    }

    /// Turns bytes taken from the write queue into the order to send them,
    /// unless the channel is closed.
    pub fn send(&self, data: Vec<u8>) -> (r: Result<Command, Error>)
        ensures
            r == if self@.connected {
                Ok::<Command, Error>(Command::Data(data))
            } else {
                Err::<Command, Error>(Error::Disconnected)
            },
    {
        if self.connected {
            Ok(Command::Data(data))
        } else {
            Err(Error::Disconnected)
        }
    }

    /// What the session tells about itself at this moment.
    pub fn info(&self) -> (info: ShellInfo)
        ensures
            info@ == self@.info(),
    {
        ShellInfo {
            token: self.token.clone(),
            title: self.title(),
            has_pty: self.has_pty,
            created_at: self.created_at,
        }
    }

    /// Feeds bytes from the remote side to the terminal of a session that has
    /// a pseudo-terminal, and tells whether that changed the terminal's title.
    pub fn process(&mut self, data: &[u8]) -> (changed: bool)
        ensures
            old(self)@.receives(data@, final(self)@),
            changed == (final(self)@.terminal@.title() != old(self)@.terminal@.title()),
    {
        if !self.has_pty {
            return false;
        }
        let before = self.terminal.title();
        self.terminal.feed(data);
        let after = self.terminal.title();
        before != after
    }

    /// The title to show: the terminal's, or the default one while the
    /// terminal's is empty.
    pub fn title(&self) -> (title: String)
        ensures
            title@ == self@.title(),
    {
        let title = self.terminal.title();
        if title.as_str().is_empty() {
            return self.def_title.clone();
        }
        title
    }
}

} // verus!
