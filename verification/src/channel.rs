//! What crosses the boundary between a session and its remote channel.
//!
//! The channel itself belongs to the transport. A session sees the messages
//! that arrive on it as [`ChannelMsg`] values and asks for work on it with
//! [`Command`] values.

use vstd::prelude::*;

verus! {

/// A message that arrived on the remote channel.
#[derive(Debug, PartialEq, Eq)]
pub enum ChannelMsg {
    /// Output of the remote shell on its primary stream.
    Data { data: Vec<u8> },
    /// Output on the extended stream numbered `ext`; stream 1 carries
    /// diagnostics.
    ExtendedData { data: Vec<u8>, ext: u32 },
    /// The remote shell has exited with this status.
    ExitStatus { exit_status: u32 },
    /// The remote side will send no more data.
    Eof,
    /// The remote side has closed the channel.
    Close,
    /// Any message that a session has no use for.
    Other,
}

/// The mathematical value of a [`ChannelMsg`].
pub enum ChannelMsgView {
    Data { data: Seq<u8> },
    ExtendedData { data: Seq<u8>, ext: u32 },
    ExitStatus { exit_status: u32 },
    Eof,
    Close,
    Other,
}

impl View for ChannelMsg {
    type V = ChannelMsgView;

    open spec fn view(&self) -> ChannelMsgView {
        match self {
            ChannelMsg::Data { data } => ChannelMsgView::Data { data: data@ },
            ChannelMsg::ExtendedData { data, ext } => ChannelMsgView::ExtendedData {
                data: data@,
                ext: *ext,
            },
            ChannelMsg::ExitStatus { exit_status } => ChannelMsgView::ExitStatus {
                exit_status: *exit_status,
            },
            ChannelMsg::Eof => ChannelMsgView::Eof,
            ChannelMsg::Close => ChannelMsgView::Close,
            ChannelMsg::Other => ChannelMsgView::Other,
        }
    }
}

/// Work that a session asks its caller to do on the remote channel.
#[derive(Debug, PartialEq, Eq)]
pub enum Command {
    /// Send these bytes to the remote shell.
    Data(Vec<u8>),
    /// Tell the remote side the size of the terminal, in cells and in pixels.
    WindowChange { col_width: u32, row_height: u32, pix_width: u32, pix_height: u32 },
    /// Close the channel and let go of its handle.
    Close,
}

/// The mathematical value of a [`Command`].
pub enum CommandView {
    Data(Seq<u8>),
    WindowChange { col_width: u32, row_height: u32, pix_width: u32, pix_height: u32 },
    Close,
}

impl View for Command {
    type V = CommandView;

    open spec fn view(&self) -> CommandView {
        match self {
            Command::Data(bytes) => CommandView::Data(bytes@),
            Command::WindowChange { col_width, row_height, pix_width, pix_height } => {
                CommandView::WindowChange {
                    col_width: *col_width,
                    row_height: *row_height,
                    pix_width: *pix_width,
                    pix_height: *pix_height,
                }
            },
            Command::Close => CommandView::Close,
        }
    }
}

impl CommandView {
    /// The window-change request for a terminal of `cols` by `rows` cells. A
    /// session keeps no size in pixels.
    pub open spec fn window_change(cols: u16, rows: u16) -> CommandView {
        CommandView::WindowChange {
            col_width: cols as u32,
            row_height: rows as u32,
            pix_width: 0,
            pix_height: 0,
        }
    }
}

} // verus!
