//! The records the server keeps, one per socket: a control connection, a
//! passive-mode listener, a data connection, or a control connection that
//! arrived over the concurrency cap and is closed once its refusal drains.
use vstd::prelude::*;

use crate::buffer::BufferToWrite;
use crate::command::views;
use crate::paths::path_wf;

verus! {

/// What a data connection is doing.
pub enum TransferMode {
    /// Connected, but no transfer verb has picked a direction yet.
    AwaitingCommand,
    /// The server is receiving a file; the embedding program appends what
    /// it reads. At EOF the success reply goes onto the control
    /// connection and this record is dropped, so a record still here when
    /// the socket dies marks an aborted upload, which draws a 451.
    Upload,
    /// The server is sending a file; the embedding program streams it.
    Download,
    /// The server is sending a short synthetic payload (a directory
    /// listing) held right here.
    Buffer(BufferToWrite),
}

/// One pending filesystem operation, paths resolved and jailed already.
pub enum FsOp {
    Mkd { path: Vec<Vec<u8>> },
    Rmd { path: Vec<Vec<u8>> },
    Dele { path: Vec<Vec<u8>> },
    /// CWD: make sure the directory exists before the working directory
    /// moves there.
    CwdCheck { path: Vec<Vec<u8>> },
    Rename { from: Vec<Vec<u8>>, to: Vec<Vec<u8>> },
}

impl FsOp {
    pub open spec fn wf(&self) -> bool {
        match self {
            FsOp::Mkd { path } => path_wf(views(path@)) && path@.len() > 0,
            FsOp::Rmd { path } => path_wf(views(path@)),
            FsOp::Dele { path } => path_wf(views(path@)),
            FsOp::CwdCheck { path } => path_wf(views(path@)),
            FsOp::Rename { from, to } => path_wf(views(from@)) && path_wf(views(to@)),
        }
    }
}

/// What a control connection is waiting for. Every command owes the client
/// exactly one terminal reply; everything but `Idle` records such a debt
/// that a later event pays.
pub enum CtlState {
    /// Nothing owed: the last command was answered with its terminal reply.
    Idle,
    /// A filesystem operation is out with the embedding program; its
    /// outcome produces the terminal reply.
    AwaitFs { op: FsOp },
    /// A file is being opened for a transfer; success produces the 150,
    /// failure the terminal 550.
    AwaitFile { write: bool },
    /// A directory listing is being produced.
    AwaitList,
    /// The 150 went out and the data channel is running; its completion
    /// produces the terminal 226 (or 451 on a torn-down upload).
    Transfer,
}

/// The per-control-connection state.
pub struct ControlConn {
    /// Outbound reply buffer; between replies it is drained.
    pub out: BufferToWrite,
    /// Set by USER.
    pub user_id: Option<Vec<u8>>,
    /// Set by a successful PASS.
    pub loged: bool,
    /// The source recorded by RNFR, consumed by RNTO.
    pub rename_from: Option<Vec<Vec<u8>>>,
    /// The live data resource (listener or data socket), at most one.
    pub linked: Option<u64>,
    /// The reply debt of the command in flight.
    pub state: CtlState,
    /// A transfer mode chosen before the passive client connected; the
    /// accepted data connection inherits it.
    pub pending_mode: Option<TransferMode>,
}

impl ControlConn {
    pub open spec fn wf(&self) -> bool {
        &&& self.out.wf()
        &&& (self.loged ==> self.user_id is Some)
        &&& (self.rename_from matches Some(p) ==> path_wf(views(p@)))
        &&& (self.state matches CtlState::AwaitFs { op } ==> op.wf())
        &&& (self.pending_mode matches Some(TransferMode::Buffer(b)) ==> b.wf())
    }

    /// A fresh control connection with the greeting queued.
    pub fn new(out: BufferToWrite) -> (r: Self)
        requires
            out.wf(),
        ensures
            r.out == out,
            r.user_id is None,
            !r.loged,
            r.rename_from is None,
            r.linked is None,
            r.state is Idle,
            r.pending_mode is None,
            r.wf(),
    {
        ControlConn {
            out,
            user_id: None,
            loged: false,
            rename_from: None,
            linked: None,
            state: CtlState::Idle,
            pending_mode: None,
        }
    }
}

/// One record per socket.
pub enum Conn {
    Control(ControlConn),
    /// A passive-mode listener, linked to its control connection.
    DataListener { control: u64 },
    /// A data connection, linked to its control connection.
    Data { control: u64, active: bool, mode: TransferMode },
    /// A connection over the cap: its 421 drains and it closes.
    Rejected { out: BufferToWrite },
}

impl Conn {
    pub open spec fn is_control(&self) -> bool {
        self is Control
    }

    pub open spec fn wf(&self) -> bool {
        match self {
            Conn::Control(c) => c.wf(),
            Conn::DataListener { .. } => true,
            Conn::Data { mode, .. } => mode matches TransferMode::Buffer(b) ==> b.wf(),
            Conn::Rejected { out } => out.wf(),
        }
    }
}

} // verus!
