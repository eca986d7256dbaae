//! The server core: the connection registry, the per-command dispatch, and
//! the write-drain handling, as one event-driven state machine. The
//! embedding program owns the sockets and the disk; it feeds readiness and
//! outcomes in and carries the returned actions out.
use vstd::prelude::*;
use vstd::string::StrSliceExecFns;
use vstd::string::StringSliceAdditionalSpecFns;

use crate::buffer::{AfterSend, BufferToWrite};
use crate::command::{parse_command, spec_parse, views, Command, CommandModel, ParseError};
use crate::paths::{
    basename, lemma_resolve_stays_in_root, path_wf, physical_path, pwd_bytes, pwd_display, resolve,
    segs_prefixed, spec_resolve,
};
use crate::records::{Conn, ControlConn, CtlState, FsOp, TransferMode};
use crate::registry::ConnTable;
use crate::response::{create_response, create_response_bytes, mkd_reply, pasv_reply,
    response_bytes, Response};
use crate::users::{spec_cwd, spec_find, UserStore};

verus! {

/// What the embedding program must do after a command line was dispatched.
/// A `Replied` line has its reply queued: arm the control connection for
/// writing. The other actions carry I/O the library cannot do; each says
/// which completion call hands the outcome back.
pub enum LineAction {
    /// The terminal (or, for PASV, the 227) reply is queued.
    Replied,
    /// Reply 200 is queued. Dial the client's data address for active mode
    /// and call `active_connected` under a fresh id; on failure just drop
    /// the socket. `close_first`: a superseded data resource to close.
    DialData { h1: u8, h2: u8, h3: u8, h4: u8, port: u16, close_first: Option<u64> },
    /// Reply 227 is queued. Bind a listener on 127.0.0.1 at this port; its
    /// record already stands under `id`.
    BindListener { id: u64, port: u16, close_first: Option<u64> },
    /// Reply 230 is queued, and a fresh account appeared: create its
    /// directory on disk.
    CreateUserDir { path: Vec<u8> },
    /// Create this directory, then call `fs_done`.
    MakeDir { path: Vec<u8> },
    /// Remove this directory tree, then call `fs_done`.
    RemoveDirAll { path: Vec<u8> },
    /// Delete this file, then call `fs_done`.
    DeleteFile { path: Vec<u8> },
    /// Check that this directory exists, then call `fs_done`.
    CheckDir { path: Vec<u8> },
    /// Rename `from` to `to`, then call `fs_done`.
    RenamePath { from: Vec<u8>, to: Vec<u8> },
    /// Open this file for reading, then call `file_done`.
    OpenFileRead { path: Vec<u8> },
    /// Create or truncate this file for writing, then call `file_done`.
    OpenFileWrite { path: Vec<u8> },
    /// Produce the listing of this directory, then call `list_done`.
    ReadDir { path: Vec<u8> },
}

/// What the embedding program must do after `on_writable`.
pub enum WriterAction {
    /// Arm this connection for reading again.
    RearmRead,
    /// Not everything was written: arm for writing again.
    RearmWrite,
    /// Shut the socket down; the record is gone already.
    Close,
    /// The reply drained and a transfer starts: arm the linked data
    /// resource (id given) for reading (`write == false`, an upload) or
    /// writing (`write == true`, a download or listing).
    ArmData { id: u64, write: bool },
    /// A data connection finished its buffered payload: close its socket
    /// and arm the control connection (id given) for writing, where the
    /// completion reply is waiting.
    Finished { control: u64 },
    /// Nothing to do.
    NoOp,
}

/// The server core.
pub struct FTPServer {
    pub connections: ConnTable,
    pub current_id: u64,
    pub max_connections: usize,
    pub current_connections: usize,
    pub users: UserStore,
    pub next_passive_port: u16,
    /// The directory all user trees live under.
    pub root: Vec<u8>,
}

impl FTPServer {
    /// The registry is sound, the user store is sound, and the control
    /// count honors the concurrency cap: there are never more than
    /// `max_connections` control records.
    pub open spec fn wf(&self) -> bool {
        &&& self.connections.wf()
        &&& self.users.wf()
        &&& self.current_connections == self.connections.controls()
        &&& self.connections.controls() <= self.max_connections
        &&& (forall|k: u64| #[trigger] self.connections.get_spec(k) is Some ==> k <= self.current_id)
    }

    /// A server with the default cap of 50 control connections.
    pub fn new() -> (r: Self)
        ensures
            r.wf(),
            r.max_connections == 50,
            r.current_connections == 0,
            r.connections.entries@.len() == 0,
            r.users.users@.len() == 0,
            r.current_id == 0,
            r.next_passive_port == 50000,
            r.root@ == "./root".spec_bytes(),
    {
        Self::with_connection_capacity(50)
    }

    /// A server that admits at most `max_connections` control connections;
    /// in every other respect it starts as `new` does.
    pub fn with_connection_capacity(max_connections: usize) -> (r: Self)
        ensures
            r.wf(),
            r.max_connections == max_connections,
            r.current_connections == 0,
            r.connections.entries@.len() == 0,
            r.users.users@.len() == 0,
            r.current_id == 0,
            r.next_passive_port == 50000,
            r.root@ == "./root".spec_bytes(),
    {
        FTPServer {
            connections: ConnTable::new(),
            current_id: 0,
            max_connections,
            current_connections: 0,
            users: UserStore::new(),
            next_passive_port: 50000,
            root: "./root".as_bytes_vec(),
        }
    }

    /// The next fresh connection id.
    pub fn next_id(&mut self) -> (r: u64)
        requires
            old(self).current_id < u64::MAX,
        ensures
            r == old(self).current_id + 1,
            final (self).current_id == r,
            final (self).connections == old(self).connections,
            final (self).current_connections == old(self).current_connections,
            final (self).max_connections == old(self).max_connections,
            final (self).users == old(self).users,
            final (self).next_passive_port == old(self).next_passive_port,
            final (self).root == old(self).root,
            old(self).wf() ==> final (self).wf(),
    {
        self.current_id = self.current_id + 1;
        self.current_id
    }

    /// The record under this id, for the model.
    pub open spec fn conn_spec(&self, id: u64) -> Option<Conn> {
        self.connections.get_spec(id)
    }

    /// The control record under this id, for the model.
    pub open spec fn ctl_spec(&self, id: u64) -> Option<ControlConn> {
        match self.conn_spec(id) {
            Some(Conn::Control(c)) => Some(c),
            _ => None,
        }
    }

    /// A control record whose buffer holds exactly this reply, from the
    /// start, with this after-send action.
    pub open spec fn queued(c: ControlConn, code: nat, text: Seq<u8>, after: AfterSend) -> bool {
        &&& c.out.buffer@ == response_bytes(code, text)
        &&& c.out.offset == 0
        &&& c.out.callback_after_sending == after
    }

    /// Session fields a plain reply leaves alone.
    pub open spec fn same_session(c: ControlConn, c2: ControlConn) -> bool {
        &&& c2.user_id == c.user_id
        &&& c2.loged == c.loged
        &&& c2.linked == c.linked
        &&& c2.pending_mode == c.pending_mode
    }

    /// The command was settled on the spot: exactly one terminal reply is
    /// queued, the connection is idle again, and any pending rename source
    /// is discarded.
    pub open spec fn simple_reply(c: ControlConn, c2: ControlConn, code: nat, text: Seq<u8>) -> bool {
        &&& Self::queued(c2, code, text, AfterSend::Nothing)
        &&& Self::same_session(c, c2)
        &&& c2.state is Idle
        &&& c2.rename_from is None
    }

    /// No reply yet: an operation went out to the embedding program, whose
    /// outcome will pay the debt; the outbound buffer is untouched.
    pub open spec fn op_pending(c: ControlConn, c2: ControlConn) -> bool {
        &&& c2.out == c.out
        &&& Self::same_session(c, c2)
        &&& c2.rename_from is None
    }

    /// The physical location of a user's resolved path: the server root,
    /// the user's directory, then the plain segments.
    pub open spec fn phys_of(root: Seq<u8>, uid: Seq<u8>, q: Seq<Seq<u8>>) -> Seq<u8> {
        root + seq![47u8] + uid + segs_prefixed(q)
    }

    /// Render the physical location of a resolved path.
    fn user_phys(&self, uid: &[u8], p: &Vec<Vec<u8>>) -> (r: Vec<u8>)
        ensures
            r@ == Self::phys_of(self.root@, uid@, views(p@)),
    {
        let mut base = vstd::slice::slice_to_vec(self.root.as_slice());
        base.push(47);
        let mut u = vstd::slice::slice_to_vec(uid);
        base.append(&mut u);
        let r = physical_path(base.as_slice(), p);
        proof {
            assert(r@ =~= Self::phys_of(self.root@, uid@, views(p@)));
        }
        r
    }

    /// Admit a new connection under a fresh id. Under the cap, a control
    /// record is created with the greeting queued; over the cap, a record
    /// that sends 421 and closes. Either way the caller arms the socket for
    /// writing. Returns whether the connection was admitted.
    pub fn new_connection(&mut self, id: u64) -> (admitted: bool)
        requires
            old(self).wf(),
            old(self).conn_spec(id) is None,
            id <= old(self).current_id,
        ensures
            final (self).wf(),
            admitted == (old(self).current_connections < old(self).max_connections),
            admitted ==> {
                &&& final (self).ctl_spec(id) matches Some(c)
                &&& Self::queued(
                    final (self).ctl_spec(id)->Some_0,
                    220,
                    "Service ready for new user.".spec_bytes(),
                    AfterSend::Nothing,
                )
                &&& final (self).ctl_spec(id)->Some_0.state is Idle
                &&& !final (self).ctl_spec(id)->Some_0.loged
                &&& final (self).ctl_spec(id)->Some_0.user_id is None
                &&& final (self).ctl_spec(id)->Some_0.linked is None
                &&& final (self).ctl_spec(id)->Some_0.rename_from is None
                &&& final (self).ctl_spec(id)->Some_0.pending_mode is None
                &&& final (self).current_connections == old(self).current_connections + 1
            },
            !admitted ==> {
                &&& final (self).conn_spec(id) matches Some(c) && c matches Conn::Rejected {
                    out,
                } && out.buffer@ == response_bytes(
                    421,
                    "Service not available, closing control connection.".spec_bytes(),
                ) && out.offset == 0 && out.callback_after_sending == AfterSend::CloseAfter
                &&& final (self).current_connections == old(self).current_connections
            },
            forall|k: u64| k != id ==> final (self).conn_spec(k) == old(self).conn_spec(k),
            final (self).users == old(self).users,
    {
        if self.current_connections < self.max_connections {
            let greeting = create_response(Response::service_ready(), "Service ready for new user.");
            let ctl = ControlConn::new(BufferToWrite::new(greeting));
            self.connections.put(id, Conn::Control(ctl));
            self.current_connections = self.current_connections + 1;
            true
        } else {
            let mut out = BufferToWrite::new(
                create_response(
                    Response::service_not_available(),
                    "Service not available, closing control connection.",
                ),
            );
            out.callback_after_sending = AfterSend::CloseAfter;
            self.connections.put(id, Conn::Rejected { out });
            false
        }
    }
    /// Nothing but the control record changed.
    pub open spec fn only_ctl_changed(s0: Self, s1: Self, id: u64) -> bool {
        &&& (forall|k: u64| k != id ==> s1.conn_spec(k) == s0.conn_spec(k))
        &&& s1.users == s0.users
        &&& s1.current_id == s0.current_id
        &&& s1.next_passive_port == s0.next_passive_port
    }

    /// The command was answered on the spot with one terminal reply and
    /// nothing else moved.
    pub open spec fn post_reply_only(
        s0: Self,
        s1: Self,
        id: u64,
        code: nat,
        text: Seq<u8>,
        r: LineAction,
    ) -> bool {
        &&& s1.ctl_spec(id) matches Some(c2) && Self::simple_reply(
            s0.ctl_spec(id)->Some_0,
            c2,
            code,
            text,
        )
        &&& Self::only_ctl_changed(s0, s1, id)
        &&& r is Replied
    }

    /// USER: the name is recorded, authentication drops until the PASS
    /// that follows, and 331 asks for the password.
    pub open spec fn post_user(s0: Self, s1: Self, id: u64, name: Seq<u8>, r: LineAction) -> bool {
        let c = s0.ctl_spec(id)->Some_0;
        &&& s1.ctl_spec(id) matches Some(c2) && {
            &&& Self::queued(
                c2,
                331,
                "User name okay, need password.".spec_bytes(),
                AfterSend::Nothing,
            )
            &&& c2.user_id matches Some(un) && un@ == name
            &&& !c2.loged
            &&& c2.linked == c.linked
            &&& c2.pending_mode == c.pending_mode
            &&& c2.state is Idle
            &&& c2.rename_from is None
        }
        &&& Self::only_ctl_changed(s0, s1, id)
        &&& r is Replied
    }

    /// PASS: without a prior USER it draws 530. A known account logs in
    /// exactly when the password matches; an unknown one is provisioned
    /// with this password and logs in, and its directory is requested.
    pub open spec fn post_pass(s0: Self, s1: Self, id: u64, pw: Seq<u8>, r: LineAction) -> bool {
        let c = s0.ctl_spec(id)->Some_0;
        let u = s0.users.users@;
        match c.user_id {
            None => Self::post_reply_only(s0, s1, id, 530, "Not logged in.".spec_bytes(), r),
            Some(un) => {
                &&& s1.ctl_spec(id) matches Some(c2) && {
                    &&& c2.user_id == c.user_id
                    &&& c2.linked == c.linked
                    &&& c2.pending_mode == c.pending_mode
                    &&& c2.state is Idle
                    &&& c2.rename_from is None
                    &&& (match spec_find(u, un@) {
                        Some(i) => {
                            if u[i].password@ == pw {
                                &&& Self::queued(
                                    c2,
                                    230,
                                    "User logged in, proceed.".spec_bytes(),
                                    AfterSend::Nothing,
                                )
                                &&& c2.loged
                                &&& r is Replied
                            } else {
                                &&& Self::queued(
                                    c2,
                                    530,
                                    "Not logged in.".spec_bytes(),
                                    AfterSend::Nothing,
                                )
                                &&& !c2.loged
                                &&& r is Replied
                            }
                        },
                        None => {
                            &&& Self::queued(
                                c2,
                                230,
                                "User logged in, proceed.".spec_bytes(),
                                AfterSend::Nothing,
                            )
                            &&& c2.loged
                            &&& (r matches LineAction::CreateUserDir { path } && path@ == s0.root@
                                + seq![47u8] + un@)
                        },
                    })
                }
                &&& (match spec_find(u, un@) {
                    Some(i) => s1.users == s0.users,
                    None => {
                        &&& s1.users.users@.len() == u.len() + 1
                        &&& s1.users.users@.drop_last() == u
                        &&& s1.users.users@.last().name@ == un@
                        &&& s1.users.users@.last().password@ == pw
                        &&& views(s1.users.users@.last().cwd@) == Seq::<Seq<u8>>::empty()
                    },
                })
                &&& (forall|k: u64| k != id ==> s1.conn_spec(k) == s0.conn_spec(k))
                &&& s1.current_id == s0.current_id
                &&& s1.next_passive_port == s0.next_passive_port
            },
        }
    }

    /// QUIT: 221 goes out and, once drained, the connection closes.
    pub open spec fn post_quit(s0: Self, s1: Self, id: u64, r: LineAction) -> bool {
        let c = s0.ctl_spec(id)->Some_0;
        &&& s1.ctl_spec(id) matches Some(c2) && {
            &&& Self::queued(
                c2,
                221,
                "Service closing control connection.".spec_bytes(),
                AfterSend::CloseAfter,
            )
            &&& Self::same_session(c, c2)
            &&& c2.state is Idle
            &&& c2.rename_from is None
        }
        &&& Self::only_ctl_changed(s0, s1, id)
        &&& r is Replied
    }

    /// PWD: the virtual working directory, slash-prefixed, behind 257.
    pub open spec fn post_pwd(s0: Self, s1: Self, id: u64, r: LineAction) -> bool {
        let c = s0.ctl_spec(id)->Some_0;
        if !c.loged {
            Self::post_reply_only(s0, s1, id, 530, "Not logged in.".spec_bytes(), r)
        } else {
            Self::post_reply_only(
                s0,
                s1,
                id,
                257,
                pwd_bytes(spec_cwd(s0.users.users@, c.user_id->Some_0@)),
                r,
            )
        }
    }

    /// PORT: the client's data address is taken, any previous data
    /// resource is dropped, and the caller dials out.
    pub open spec fn post_port(
        s0: Self,
        s1: Self,
        id: u64,
        h1: u8,
        h2: u8,
        h3: u8,
        h4: u8,
        p1: u8,
        p2: u8,
        r: LineAction,
    ) -> bool {
        let c = s0.ctl_spec(id)->Some_0;
        if !c.loged {
            Self::post_reply_only(s0, s1, id, 530, "Not logged in.".spec_bytes(), r)
        } else {
            &&& s1.ctl_spec(id) matches Some(c2) && {
                &&& Self::queued(c2, 200, "Command okay.".spec_bytes(), AfterSend::Nothing)
                &&& c2.user_id == c.user_id
                &&& c2.loged == c.loged
                &&& c2.state is Idle
                &&& c2.rename_from is None
                &&& c2.linked is None
                &&& c2.pending_mode is None
            }
            &&& (r matches LineAction::DialData { h1: a1, h2: a2, h3: a3, h4: a4, port, close_first }
                && a1 == h1 && a2 == h2 && a3 == h3 && a4 == h4 && port == p1 as int * 256
                + p2 as int && close_first == c.linked)
            &&& (forall|k: u64|
                k != id && Some(k) != c.linked ==> s1.conn_spec(k) == s0.conn_spec(k))
            &&& s1.users == s0.users
            &&& s1.current_id == s0.current_id
            &&& s1.next_passive_port == s0.next_passive_port
        }
    }

    /// PASV: a listener record appears under a fresh id, any previous data
    /// resource is dropped, and 227 advertises the chosen port.
    pub open spec fn post_pasv(s0: Self, s1: Self, id: u64, r: LineAction) -> bool {
        let c = s0.ctl_spec(id)->Some_0;
        if !c.loged {
            Self::post_reply_only(s0, s1, id, 530, "Not logged in.".spec_bytes(), r)
        } else {
            let lid = (s0.current_id + 1) as u64;
            let port = s0.next_passive_port;
            &&& s1.ctl_spec(id) matches Some(c2) && {
                &&& Self::queued(
                    c2,
                    227,
                    crate::response::pasv_text((port / 256) as u8, (port % 256) as u8),
                    AfterSend::Nothing,
                )
                &&& c2.user_id == c.user_id
                &&& c2.loged == c.loged
                &&& c2.state is Idle
                &&& c2.rename_from is None
                &&& c2.linked == Some(lid)
                &&& c2.pending_mode is None
            }
            &&& s1.conn_spec(lid) == Some(Conn::DataListener { control: id })
            &&& s1.current_id == lid
            &&& (r matches LineAction::BindListener { id: rid, port: rport, close_first } && rid
                == lid && rport == port && close_first == c.linked)
            &&& (forall|k: u64|
                k != id && k != lid && Some(k) != c.linked ==> s1.conn_spec(k) == s0.conn_spec(k))
            &&& s1.users == s0.users
            &&& s1.next_passive_port == (if port == 65535 {
                50000 as u16
            } else {
                (port + 1) as u16
            })
        }
    }

    /// An operation went out to the embedding program: no reply yet, the
    /// debt is recorded in the connection's state.
    pub open spec fn post_op_started(s0: Self, s1: Self, id: u64) -> bool {
        &&& s1.ctl_spec(id) matches Some(c2) && Self::op_pending(s0.ctl_spec(id)->Some_0, c2)
        &&& Self::only_ctl_changed(s0, s1, id)
    }

    /// LIST: with no data channel prepared it draws 425; otherwise the
    /// target directory (the argument, or the working directory) is
    /// resolved and its listing requested.
    pub open spec fn post_list(
        s0: Self,
        s1: Self,
        id: u64,
        opt: Option<Seq<u8>>,
        r: LineAction,
    ) -> bool {
        let c = s0.ctl_spec(id)->Some_0;
        let uid = c.user_id->Some_0@;
        let cwd = spec_cwd(s0.users.users@, uid);
        if !c.loged {
            Self::post_reply_only(s0, s1, id, 530, "Not logged in.".spec_bytes(), r)
        } else if c.linked is None {
            Self::post_reply_only(s0, s1, id, 425, "Can't open data connection.".spec_bytes(), r)
        } else {
            let target = match opt {
                None => Some(cwd),
                Some(a) => spec_resolve(cwd, a),
            };
            match target {
                None => Self::post_reply_only(
                    s0,
                    s1,
                    id,
                    550,
                    "Requested action not taken.".spec_bytes(),
                    r,
                ),
                Some(q) => {
                    &&& Self::post_op_started(s0, s1, id)
                    &&& s1.ctl_spec(id)->Some_0.state is AwaitList
                    &&& (r matches LineAction::ReadDir { path } && path@ == Self::phys_of(
                        s0.root@,
                        uid,
                        q,
                    ))
                },
            }
        }
    }

    /// RETR and STOR: with no data channel prepared they draw 425;
    /// otherwise the file is opened for the transfer and the 150 (or 550)
    /// follows its outcome.
    pub open spec fn post_transfer(
        s0: Self,
        s1: Self,
        id: u64,
        p: Seq<u8>,
        write: bool,
        r: LineAction,
    ) -> bool {
        let c = s0.ctl_spec(id)->Some_0;
        let uid = c.user_id->Some_0@;
        let cwd = spec_cwd(s0.users.users@, uid);
        if !c.loged {
            Self::post_reply_only(s0, s1, id, 530, "Not logged in.".spec_bytes(), r)
        } else if c.linked is None {
            Self::post_reply_only(s0, s1, id, 425, "Can't open data connection.".spec_bytes(), r)
        } else {
            match spec_resolve(cwd, p) {
                None => Self::post_reply_only(
                    s0,
                    s1,
                    id,
                    550,
                    "Requested action not taken.".spec_bytes(),
                    r,
                ),
                Some(q) => {
                    &&& Self::post_op_started(s0, s1, id)
                    &&& s1.ctl_spec(id)->Some_0.state == (CtlState::AwaitFile { write })
                    &&& (if write {
                        r matches LineAction::OpenFileWrite { path } && path@ == Self::phys_of(
                            s0.root@,
                            uid,
                            q,
                        )
                    } else {
                        r matches LineAction::OpenFileRead { path } && path@ == Self::phys_of(
                            s0.root@,
                            uid,
                            q,
                        )
                    })
                },
            }
        }
    }

    /// MKD, RMD and DELE: the argument must resolve inside the root and
    /// not name the root itself; the operation goes out and its outcome
    /// produces the terminal reply.
    pub open spec fn post_fs_path(
        s0: Self,
        s1: Self,
        id: u64,
        p: Seq<u8>,
        kind: int,
        r: LineAction,
    ) -> bool {
        let c = s0.ctl_spec(id)->Some_0;
        let uid = c.user_id->Some_0@;
        let cwd = spec_cwd(s0.users.users@, uid);
        if !c.loged {
            Self::post_reply_only(s0, s1, id, 530, "Not logged in.".spec_bytes(), r)
        } else {
            match spec_resolve(cwd, p) {
                None => Self::post_reply_only(
                    s0,
                    s1,
                    id,
                    550,
                    "Requested action not taken.".spec_bytes(),
                    r,
                ),
                Some(q) => {
                    if q.len() == 0 {
                        Self::post_reply_only(
                            s0,
                            s1,
                            id,
                            550,
                            "Requested action not taken.".spec_bytes(),
                            r,
                        )
                    } else {
                        &&& Self::post_op_started(s0, s1, id)
                        &&& s1.ctl_spec(id)->Some_0.state matches CtlState::AwaitFs { op } && (
                        match op {
                            FsOp::Mkd { path } => kind == 0 && views(path@) == q,
                            FsOp::Rmd { path } => kind == 1 && views(path@) == q,
                            FsOp::Dele { path } => kind == 2 && views(path@) == q,
                            _ => false,
                        })
                        &&& (match r {
                            LineAction::MakeDir { path } => kind == 0 && path@ == Self::phys_of(
                                s0.root@,
                                uid,
                                q,
                            ),
                            LineAction::RemoveDirAll { path } => kind == 1 && path@
                                == Self::phys_of(s0.root@, uid, q),
                            LineAction::DeleteFile { path } => kind == 2 && path@ == Self::phys_of(
                                s0.root@,
                                uid,
                                q,
                            ),
                            _ => false,
                        })
                    }
                },
            }
        }
    }

    /// CWD: the target must resolve inside the root; it is checked on disk
    /// before the working directory moves.
    pub open spec fn post_cwd(s0: Self, s1: Self, id: u64, p: Seq<u8>, r: LineAction) -> bool {
        let c = s0.ctl_spec(id)->Some_0;
        let uid = c.user_id->Some_0@;
        let cwd = spec_cwd(s0.users.users@, uid);
        if !c.loged {
            Self::post_reply_only(s0, s1, id, 530, "Not logged in.".spec_bytes(), r)
        } else {
            match spec_resolve(cwd, p) {
                None => Self::post_reply_only(
                    s0,
                    s1,
                    id,
                    550,
                    "Requested action not taken.".spec_bytes(),
                    r,
                ),
                Some(q) => {
                    &&& Self::post_op_started(s0, s1, id)
                    &&& s1.ctl_spec(id)->Some_0.state matches CtlState::AwaitFs { op }
                        && op matches FsOp::CwdCheck { path } && views(path@) == q
                    &&& (r matches LineAction::CheckDir { path } && path@ == Self::phys_of(
                        s0.root@,
                        uid,
                        q,
                    ))
                },
            }
        }
    }

    /// RNFR: the source is recorded for the RNTO that must follow.
    pub open spec fn post_rnfr(s0: Self, s1: Self, id: u64, p: Seq<u8>, r: LineAction) -> bool {
        let c = s0.ctl_spec(id)->Some_0;
        let cwd = spec_cwd(s0.users.users@, c.user_id->Some_0@);
        if !c.loged {
            Self::post_reply_only(s0, s1, id, 530, "Not logged in.".spec_bytes(), r)
        } else {
            match spec_resolve(cwd, p) {
                None => Self::post_reply_only(
                    s0,
                    s1,
                    id,
                    550,
                    "Requested action not taken.".spec_bytes(),
                    r,
                ),
                Some(q) => {
                    &&& s1.ctl_spec(id) matches Some(c2) && {
                        &&& Self::queued(
                            c2,
                            350,
                            "Requested file action pending further information.".spec_bytes(),
                            AfterSend::Nothing,
                        )
                        &&& Self::same_session(c, c2)
                        &&& c2.state is Idle
                        &&& c2.rename_from matches Some(rf) && views(rf@) == q
                    }
                    &&& Self::only_ctl_changed(s0, s1, id)
                    &&& r is Replied
                },
            }
        }
    }

    /// RNTO: consumes the recorded source; without one, or with a target
    /// that does not resolve or names the root, it draws 550. The rename
    /// goes out atomically and its outcome produces the terminal reply.
    pub open spec fn post_rnto(s0: Self, s1: Self, id: u64, p: Seq<u8>, r: LineAction) -> bool {
        let c = s0.ctl_spec(id)->Some_0;
        let uid = c.user_id->Some_0@;
        let cwd = spec_cwd(s0.users.users@, uid);
        if !c.loged {
            Self::post_reply_only(s0, s1, id, 530, "Not logged in.".spec_bytes(), r)
        } else {
            match c.rename_from {
                None => Self::post_reply_only(
                    s0,
                    s1,
                    id,
                    550,
                    "Requested action not taken.".spec_bytes(),
                    r,
                ),
                Some(rf) => {
                    match spec_resolve(cwd, p) {
                        None => Self::post_reply_only(
                            s0,
                            s1,
                            id,
                            550,
                            "Requested action not taken.".spec_bytes(),
                            r,
                        ),
                        Some(q) => {
                            if q.len() == 0 {
                                Self::post_reply_only(
                                    s0,
                                    s1,
                                    id,
                                    550,
                                    "Requested action not taken.".spec_bytes(),
                                    r,
                                )
                            } else {
                                &&& Self::post_op_started(s0, s1, id)
                                &&& s1.ctl_spec(id)->Some_0.state matches CtlState::AwaitFs { op }
                                    && op matches FsOp::Rename { from, to } && views(from@) == views(
                                    rf@,
                                ) && views(to@) == q
                                &&& (r matches LineAction::RenamePath { from, to } && from@
                                    == Self::phys_of(s0.root@, uid, views(rf@)) && to@
                                    == Self::phys_of(s0.root@, uid, q))
                            }
                        },
                    }
                },
            }
        }
    }

    /// Queue one terminal reply on the control record and settle the
    /// command.
    fn queue_simple(&mut self, id: u64, code: u16, text: &str) -> (r: LineAction)
        requires
            old(self).wf(),
            old(self).ctl_spec(id) is Some,
        ensures
            final (self).wf(),
            final (self).ctl_spec(id) is Some,
            final (self).max_connections == old(self).max_connections,
            final (self).current_connections == old(self).current_connections,
            final (self).root == old(self).root,
            Self::post_reply_only(*old(self), *final (self), id, code as nat, text.spec_bytes(), r),
    {
        let taken = self.connections.take(id);
        let mut ctl = match taken {
            Some(Conn::Control(c)) => c,
            _ => vstd::pervasive::unreached(),
        };
        ctl.rename_from = None;
        ctl.out.load(create_response(Response(code), text), AfterSend::Nothing);
        ctl.state = CtlState::Idle;
        self.connections.put(id, Conn::Control(ctl));
        LineAction::Replied
    }

    /// The requirement every command helper places on its caller: a well
    /// formed server and an idle control record with a drained buffer.
    pub open spec fn ctl_ready(&self, id: u64) -> bool {
        &&& self.wf()
        &&& self.ctl_spec(id) matches Some(c) && c.state is Idle && c.out.spec_drained()
    }

    fn cmd_user(&mut self, id: u64, name: Vec<u8>) -> (r: LineAction)
        requires
            old(self).ctl_ready(id),
        ensures
            final (self).wf(),
            final (self).ctl_spec(id) is Some,
            final (self).max_connections == old(self).max_connections,
            final (self).current_connections == old(self).current_connections,
            final (self).root == old(self).root,
            Self::post_user(*old(self), *final (self), id, name@, r),
    {
        let taken = self.connections.take(id);
        let mut ctl = match taken {
            Some(Conn::Control(c)) => c,
            _ => vstd::pervasive::unreached(),
        };
        ctl.rename_from = None;
        ctl.user_id = Some(name);
        ctl.loged = false;
        ctl.out.load(
            create_response(Response::username_okay(), "User name okay, need password."),
            AfterSend::Nothing,
        );
        self.connections.put(id, Conn::Control(ctl));
        LineAction::Replied
    }

    fn cmd_pass(&mut self, id: u64, pw: Vec<u8>) -> (r: LineAction)
        requires
            old(self).ctl_ready(id),
        ensures
            final (self).wf(),
            final (self).ctl_spec(id) is Some,
            final (self).max_connections == old(self).max_connections,
            final (self).current_connections == old(self).current_connections,
            final (self).root == old(self).root,
            Self::post_pass(*old(self), *final (self), id, pw@, r),
    {
        let taken = self.connections.take(id);
        let mut ctl = match taken {
            Some(Conn::Control(c)) => c,
            _ => vstd::pervasive::unreached(),
        };
        ctl.rename_from = None;
        let uidv: Option<Vec<u8>> = match &ctl.user_id {
            Some(u) => Some(vstd::slice::slice_to_vec(u.as_slice())),
            None => None,
        };
        match uidv {
            None => {
                ctl.out.load(
                    create_response(Response::not_logged_in(), "Not logged in."),
                    AfterSend::Nothing,
                );
                self.connections.put(id, Conn::Control(ctl));
                LineAction::Replied
            },
            Some(un) => {
                let (ok, fresh) = self.users.login(un.as_slice(), pw.as_slice());
                if ok {
                    ctl.loged = true;
                    ctl.out.load(
                        create_response(Response::logged_in(), "User logged in, proceed."),
                        AfterSend::Nothing,
                    );
                } else {
                    ctl.loged = false;
                    ctl.out.load(
                        create_response(Response::not_logged_in(), "Not logged in."),
                        AfterSend::Nothing,
                    );
                }
                self.connections.put(id, Conn::Control(ctl));
                if fresh {
                    let mut path = vstd::slice::slice_to_vec(self.root.as_slice());
                    path.push(47);
                    let mut uu = un;
                    path.append(&mut uu);
                    proof {
                        assert(path@ =~= old(self).root@ + seq![47u8] + old(self).ctl_spec(
                            id,
                        )->Some_0.user_id->Some_0@);
                    }
                    LineAction::CreateUserDir { path }
                } else {
                    LineAction::Replied
                }
            },
        }
    }

    fn cmd_quit(&mut self, id: u64) -> (r: LineAction)
        requires
            old(self).ctl_ready(id),
        ensures
            final (self).wf(),
            final (self).ctl_spec(id) is Some,
            final (self).max_connections == old(self).max_connections,
            final (self).current_connections == old(self).current_connections,
            final (self).root == old(self).root,
            Self::post_quit(*old(self), *final (self), id, r),
    {
        let taken = self.connections.take(id);
        let mut ctl = match taken {
            Some(Conn::Control(c)) => c,
            _ => vstd::pervasive::unreached(),
        };
        ctl.rename_from = None;
        ctl.out.load(
            create_response(Response::closing_control(), "Service closing control connection."),
            AfterSend::CloseAfter,
        );
        self.connections.put(id, Conn::Control(ctl));
        LineAction::Replied
    }

    /// Whether this control connection has authenticated.
    fn is_loged(&self, id: u64) -> (r: bool)
        requires
            self.wf(),
            self.ctl_spec(id) is Some,
        ensures
            r == self.ctl_spec(id)->Some_0.loged,
    {
        match self.connections.get(id) {
            Some(Conn::Control(c)) => c.loged,
            _ => vstd::pervasive::unreached(),
        }
    }

    /// The authenticated user's name, copied out.
    fn user_of(&self, id: u64) -> (r: Vec<u8>)
        requires
            self.wf(),
            self.ctl_spec(id) is Some,
            self.ctl_spec(id)->Some_0.loged,
        ensures
            r@ == self.ctl_spec(id)->Some_0.user_id->Some_0@,
    {
        match self.connections.get(id) {
            Some(Conn::Control(c)) => match &c.user_id {
                Some(u) => vstd::slice::slice_to_vec(u.as_slice()),
                None => vstd::pervasive::unreached(),
            },
            _ => vstd::pervasive::unreached(),
        }
    }

    /// The authenticated user's working directory, copied out.
    fn cwd_of(&self, uid: &[u8]) -> (r: Vec<Vec<u8>>)
        requires
            self.wf(),
        ensures
            views(r@) == spec_cwd(self.users.users@, uid@),
            path_wf(views(r@)),
    {
        let r: Vec<Vec<u8>> = match self.users.get_cwd(uid) {
            Some(c) => c,
            None => Vec::new(),
        };
        proof {
            if spec_find(self.users.users@, uid@) is None {
                assert(views(r@) =~~= spec_cwd(self.users.users@, uid@));
            }
            self.users.lemma_spec_cwd_wf(uid@);
        }
        r
    }

    fn cmd_pwd(&mut self, id: u64) -> (r: LineAction)
        requires
            old(self).ctl_ready(id),
        ensures
            final (self).wf(),
            final (self).ctl_spec(id) is Some,
            final (self).max_connections == old(self).max_connections,
            final (self).current_connections == old(self).current_connections,
            final (self).root == old(self).root,
            Self::post_pwd(*old(self), *final (self), id, r),
    {
        if !self.is_loged(id) {
            return self.queue_simple(id, 530, "Not logged in.");
        }
        let uidv = self.user_of(id);
        let cwd = self.cwd_of(uidv.as_slice());
        let text = pwd_display(&cwd);
        let taken = self.connections.take(id);
        let mut ctl = match taken {
            Some(Conn::Control(c)) => c,
            _ => vstd::pervasive::unreached(),
        };
        ctl.rename_from = None;
        ctl.out.load(create_response_bytes(257, text.as_slice()), AfterSend::Nothing);
        self.connections.put(id, Conn::Control(ctl));
        LineAction::Replied
    }

    fn cmd_port(&mut self, id: u64, h1: u8, h2: u8, h3: u8, h4: u8, p1: u8, p2: u8) -> (r:
        LineAction)
        requires
            old(self).ctl_ready(id),
        ensures
            final (self).wf(),
            final (self).ctl_spec(id) is Some,
            final (self).max_connections == old(self).max_connections,
            final (self).current_connections == old(self).current_connections,
            final (self).root == old(self).root,
            Self::post_port(*old(self), *final (self), id, h1, h2, h3, h4, p1, p2, r),
    {
        if !self.is_loged(id) {
            return self.queue_simple(id, 530, "Not logged in.");
        }
        let taken = self.connections.take(id);
        let mut ctl = match taken {
            Some(Conn::Control(c)) => c,
            _ => vstd::pervasive::unreached(),
        };
        let close_first = ctl.linked;
        self.connections.drop_non_control(close_first);
        ctl.rename_from = None;
        ctl.linked = None;
        ctl.pending_mode = None;
        ctl.out.load(create_response(Response::command_okay(), "Command okay."), AfterSend::Nothing);
        self.connections.put(id, Conn::Control(ctl));
        LineAction::DialData { h1, h2, h3, h4, port: (p1 as u16) * 256 + (p2 as u16), close_first }
    }

    fn cmd_pasv(&mut self, id: u64) -> (r: LineAction)
        requires
            old(self).ctl_ready(id),
            old(self).current_id < u64::MAX,
        ensures
            final (self).wf(),
            final (self).ctl_spec(id) is Some,
            final (self).max_connections == old(self).max_connections,
            final (self).current_connections == old(self).current_connections,
            final (self).root == old(self).root,
            Self::post_pasv(*old(self), *final (self), id, r),
    {
        if !self.is_loged(id) {
            return self.queue_simple(id, 530, "Not logged in.");
        }
        let taken = self.connections.take(id);
        let mut ctl = match taken {
            Some(Conn::Control(c)) => c,
            _ => vstd::pervasive::unreached(),
        };
        let close_first = ctl.linked;
        self.connections.drop_non_control(close_first);
        let lid = self.next_id();
        proof {
            assert(old(self).connections.get_spec(lid) is None) by {
                if old(self).connections.get_spec(lid) is Some {
                    assert(lid <= old(self).current_id);
                }
            }
        }
        let port = self.next_passive_port;
        self.next_passive_port = if port == 65535 {
            50000
        } else {
            port + 1
        };
        self.connections.put(lid, Conn::DataListener { control: id });
        ctl.rename_from = None;
        ctl.linked = Some(lid);
        ctl.pending_mode = None;
        ctl.out.load(pasv_reply(port), AfterSend::Nothing);
        self.connections.put(id, Conn::Control(ctl));
        LineAction::BindListener { id: lid, port, close_first }
    }

    fn cmd_list(&mut self, id: u64, opt: Option<Vec<u8>>) -> (r: LineAction)
        requires
            old(self).ctl_ready(id),
        ensures
            final (self).wf(),
            final (self).ctl_spec(id) is Some,
            final (self).max_connections == old(self).max_connections,
            final (self).current_connections == old(self).current_connections,
            final (self).root == old(self).root,
            Self::post_list(
                *old(self),
                *final (self),
                id,
                match opt {
                    Some(a) => Some(a@),
                    None => None,
                },
                r,
            ),
    {
        if !self.is_loged(id) {
            return self.queue_simple(id, 530, "Not logged in.");
        }
        let linked = match self.connections.get(id) {
            Some(Conn::Control(c)) => c.linked,
            _ => vstd::pervasive::unreached(),
        };
        if linked.is_none() {
            return self.queue_simple(id, 425, "Can't open data connection.");
        }
        let uidv = self.user_of(id);
        let cwd = self.cwd_of(uidv.as_slice());
        let target: Option<Vec<Vec<u8>>> = match &opt {
            None => Some(cwd),
            Some(a) => resolve(&cwd, a.as_slice()),
        };
        match target {
            None => self.queue_simple(id, 550, "Requested action not taken."),
            Some(q) => {
                let path = self.user_phys(uidv.as_slice(), &q);
                let taken = self.connections.take(id);
                let mut ctl = match taken {
                    Some(Conn::Control(c)) => c,
                    _ => vstd::pervasive::unreached(),
                };
                ctl.rename_from = None;
                ctl.state = CtlState::AwaitList;
                self.connections.put(id, Conn::Control(ctl));
                LineAction::ReadDir { path }
            },
        }
    }

    fn cmd_transfer(&mut self, id: u64, p: Vec<u8>, write: bool) -> (r: LineAction)
        requires
            old(self).ctl_ready(id),
        ensures
            final (self).wf(),
            final (self).ctl_spec(id) is Some,
            final (self).max_connections == old(self).max_connections,
            final (self).current_connections == old(self).current_connections,
            final (self).root == old(self).root,
            Self::post_transfer(*old(self), *final (self), id, p@, write, r),
    {
        if !self.is_loged(id) {
            return self.queue_simple(id, 530, "Not logged in.");
        }
        let linked = match self.connections.get(id) {
            Some(Conn::Control(c)) => c.linked,
            _ => vstd::pervasive::unreached(),
        };
        if linked.is_none() {
            return self.queue_simple(id, 425, "Can't open data connection.");
        }
        let uidv = self.user_of(id);
        let cwd = self.cwd_of(uidv.as_slice());
        match resolve(&cwd, p.as_slice()) {
            None => self.queue_simple(id, 550, "Requested action not taken."),
            Some(q) => {
                let path = self.user_phys(uidv.as_slice(), &q);
                let taken = self.connections.take(id);
                let mut ctl = match taken {
                    Some(Conn::Control(c)) => c,
                    _ => vstd::pervasive::unreached(),
                };
                ctl.rename_from = None;
                ctl.state = CtlState::AwaitFile { write };
                self.connections.put(id, Conn::Control(ctl));
                if write {
                    LineAction::OpenFileWrite { path }
                } else {
                    LineAction::OpenFileRead { path }
                }
            },
        }
    }

    fn cmd_fs_path(&mut self, id: u64, p: Vec<u8>, kind: u8) -> (r: LineAction)
        requires
            old(self).ctl_ready(id),
            kind == 0 || kind == 1 || kind == 2,
        ensures
            final (self).wf(),
            final (self).ctl_spec(id) is Some,
            final (self).max_connections == old(self).max_connections,
            final (self).current_connections == old(self).current_connections,
            final (self).root == old(self).root,
            Self::post_fs_path(*old(self), *final (self), id, p@, kind as int, r),
    {
        if !self.is_loged(id) {
            return self.queue_simple(id, 530, "Not logged in.");
        }
        let uidv = self.user_of(id);
        let cwd = self.cwd_of(uidv.as_slice());
        let ghost gcwd = views(cwd@);
        match resolve(&cwd, p.as_slice()) {
            None => self.queue_simple(id, 550, "Requested action not taken."),
            Some(q) => {
                if q.len() == 0 {
                    self.queue_simple(id, 550, "Requested action not taken.")
                } else {
                    proof {
                        lemma_resolve_stays_in_root(gcwd, p@);
                    }
                    let path = self.user_phys(uidv.as_slice(), &q);
                    let taken = self.connections.take(id);
                    let mut ctl = match taken {
                        Some(Conn::Control(c)) => c,
                        _ => vstd::pervasive::unreached(),
                    };
                    ctl.rename_from = None;
                    if kind == 0 {
                        ctl.state = CtlState::AwaitFs { op: FsOp::Mkd { path: q } };
                        self.connections.put(id, Conn::Control(ctl));
                        LineAction::MakeDir { path }
                    } else if kind == 1 {
                        ctl.state = CtlState::AwaitFs { op: FsOp::Rmd { path: q } };
                        self.connections.put(id, Conn::Control(ctl));
                        LineAction::RemoveDirAll { path }
                    } else {
                        ctl.state = CtlState::AwaitFs { op: FsOp::Dele { path: q } };
                        self.connections.put(id, Conn::Control(ctl));
                        LineAction::DeleteFile { path }
                    }
                }
            },
        }
    }

    fn cmd_cwd(&mut self, id: u64, p: Vec<u8>) -> (r: LineAction)
        requires
            old(self).ctl_ready(id),
        ensures
            final (self).wf(),
            final (self).ctl_spec(id) is Some,
            final (self).max_connections == old(self).max_connections,
            final (self).current_connections == old(self).current_connections,
            final (self).root == old(self).root,
            Self::post_cwd(*old(self), *final (self), id, p@, r),
    {
        if !self.is_loged(id) {
            return self.queue_simple(id, 530, "Not logged in.");
        }
        let uidv = self.user_of(id);
        let cwd = self.cwd_of(uidv.as_slice());
        let ghost gcwd = views(cwd@);
        match resolve(&cwd, p.as_slice()) {
            None => self.queue_simple(id, 550, "Requested action not taken."),
            Some(q) => {
                proof {
                    lemma_resolve_stays_in_root(gcwd, p@);
                }
                let path = self.user_phys(uidv.as_slice(), &q);
                let taken = self.connections.take(id);
                let mut ctl = match taken {
                    Some(Conn::Control(c)) => c,
                    _ => vstd::pervasive::unreached(),
                };
                ctl.rename_from = None;
                ctl.state = CtlState::AwaitFs { op: FsOp::CwdCheck { path: q } };
                self.connections.put(id, Conn::Control(ctl));
                LineAction::CheckDir { path }
            },
        }
    }

    fn cmd_rnfr(&mut self, id: u64, p: Vec<u8>) -> (r: LineAction)
        requires
            old(self).ctl_ready(id),
        ensures
            final (self).wf(),
            final (self).ctl_spec(id) is Some,
            final (self).max_connections == old(self).max_connections,
            final (self).current_connections == old(self).current_connections,
            final (self).root == old(self).root,
            Self::post_rnfr(*old(self), *final (self), id, p@, r),
    {
        if !self.is_loged(id) {
            return self.queue_simple(id, 530, "Not logged in.");
        }
        let uidv = self.user_of(id);
        let cwd = self.cwd_of(uidv.as_slice());
        let ghost gcwd = views(cwd@);
        match resolve(&cwd, p.as_slice()) {
            None => self.queue_simple(id, 550, "Requested action not taken."),
            Some(q) => {
                proof {
                    lemma_resolve_stays_in_root(gcwd, p@);
                }
                let taken = self.connections.take(id);
                let mut ctl = match taken {
                    Some(Conn::Control(c)) => c,
                    _ => vstd::pervasive::unreached(),
                };
                ctl.rename_from = Some(q);
                ctl.out.load(
                    create_response(
                        Response::pending_further_information(),
                        "Requested file action pending further information.",
                    ),
                    AfterSend::Nothing,
                );
                self.connections.put(id, Conn::Control(ctl));
                LineAction::Replied
            },
        }
    }

    fn cmd_rnto(&mut self, id: u64, p: Vec<u8>) -> (r: LineAction)
        requires
            old(self).ctl_ready(id),
        ensures
            final (self).wf(),
            final (self).ctl_spec(id) is Some,
            final (self).max_connections == old(self).max_connections,
            final (self).current_connections == old(self).current_connections,
            final (self).root == old(self).root,
            Self::post_rnto(*old(self), *final (self), id, p@, r),
    {
        if !self.is_loged(id) {
            return self.queue_simple(id, 530, "Not logged in.");
        }
        let uidv = self.user_of(id);
        let cwd = self.cwd_of(uidv.as_slice());
        let ghost gcwd = views(cwd@);
        let taken = self.connections.take(id);
        let mut ctl = match taken {
            Some(Conn::Control(c)) => c,
            _ => vstd::pervasive::unreached(),
        };
        let mut prev_rename: Option<Vec<Vec<u8>>> = None;
        core::mem::swap(&mut prev_rename, &mut ctl.rename_from);
        match prev_rename {
            None => {
                ctl.out.load(
                    create_response(Response::file_unavailable(), "Requested action not taken."),
                    AfterSend::Nothing,
                );
                self.connections.put(id, Conn::Control(ctl));
                LineAction::Replied
            },
            Some(rf) => {
                match resolve(&cwd, p.as_slice()) {
                    None => {
                        ctl.out.load(
                            create_response(
                                Response::file_unavailable(),
                                "Requested action not taken.",
                            ),
                            AfterSend::Nothing,
                        );
                        self.connections.put(id, Conn::Control(ctl));
                        LineAction::Replied
                    },
                    Some(q) => {
                        if q.len() == 0 {
                            ctl.out.load(
                                create_response(
                                    Response::file_unavailable(),
                                    "Requested action not taken.",
                                ),
                                AfterSend::Nothing,
                            );
                            self.connections.put(id, Conn::Control(ctl));
                            LineAction::Replied
                        } else {
                            proof {
                                lemma_resolve_stays_in_root(gcwd, p@);
                            }
                            let from = self.user_phys(uidv.as_slice(), &rf);
                            let to = self.user_phys(uidv.as_slice(), &q);
                            ctl.state = CtlState::AwaitFs { op: FsOp::Rename { from: rf, to: q } };
                            self.connections.put(id, Conn::Control(ctl));
                            LineAction::RenamePath { from, to }
                        }
                    },
                }
            },
        }
    }

    /// The whole meaning of one dispatched line, by command.
    pub open spec fn line_dispatched(
        s0: Self,
        s1: Self,
        id: u64,
        line: Seq<u8>,
        r: LineAction,
    ) -> bool {
        match spec_parse(line) {
            Err(ParseError::UnknownCommand) => Self::post_reply_only(
                s0,
                s1,
                id,
                500,
                "Syntax error, command unrecognized.".spec_bytes(),
                r,
            ),
            Err(ParseError::InvalidArguments) => Self::post_reply_only(
                s0,
                s1,
                id,
                501,
                "Syntax error in parameters or arguments.".spec_bytes(),
                r,
            ),
            Err(ParseError::NotImplemented) => Self::post_reply_only(
                s0,
                s1,
                id,
                502,
                "Command not implemented.".spec_bytes(),
                r,
            ),
            Ok(CommandModel::User(name)) => Self::post_user(
                s0,
                s1,
                id,
                name,
                r,
            ),
            Ok(CommandModel::Pass(pw)) => Self::post_pass(s0, s1, id, pw, r),
            Ok(CommandModel::Quit) => Self::post_quit(s0, s1, id, r),
            Ok(CommandModel::Noop) => Self::post_reply_only(
                s0,
                s1,
                id,
                200,
                "Command okay.".spec_bytes(),
                r,
            ),
            Ok(CommandModel::Pwd) => Self::post_pwd(s0, s1, id, r),
            Ok(CommandModel::Port(h1, h2, h3, h4, p1, p2)) => Self::post_port(
                s0,
                s1,
                id,
                h1,
                h2,
                h3,
                h4,
                p1,
                p2,
                r,
            ),
            Ok(CommandModel::Pasv) => Self::post_pasv(s0, s1, id, r),
            Ok(CommandModel::List(opt)) => Self::post_list(
                s0,
                s1,
                id,
                opt,
                r,
            ),
            Ok(CommandModel::Retr(p)) => Self::post_transfer(
                s0,
                s1,
                id,
                p,
                false,
                r,
            ),
            Ok(CommandModel::Stor(p)) => Self::post_transfer(
                s0,
                s1,
                id,
                p,
                true,
                r,
            ),
            Ok(CommandModel::Mkd(p)) => Self::post_fs_path(
                s0,
                s1,
                id,
                p,
                0,
                r,
            ),
            Ok(CommandModel::Rmd(p)) => Self::post_fs_path(
                s0,
                s1,
                id,
                p,
                1,
                r,
            ),
            Ok(CommandModel::Dele(p)) => Self::post_fs_path(
                s0,
                s1,
                id,
                p,
                2,
                r,
            ),
            Ok(CommandModel::Cwd(p)) => Self::post_cwd(s0, s1, id, p, r),
            Ok(CommandModel::Rnfr(p)) => Self::post_rnfr(s0, s1, id, p, r),
            Ok(CommandModel::Rnto(p)) => Self::post_rnto(s0, s1, id, p, r),
            }
    }

    /// The concurrency cap holds in every reachable state: a sound server
    /// never carries more than `max_connections` control records.
    /// `new_connection` admits one exactly when the count is still under
    /// the cap, and every operation keeps `wf`, so the bound is invariant.
    pub proof fn lemma_connection_cap(s: Self)
        requires
            s.wf(),
        ensures
            s.connections.controls() <= s.max_connections,
            s.current_connections == s.connections.controls(),
    {
    }

    /// A reply code that settles a command: anything outside the
    /// provisional 1xx range.
    pub open spec fn terminal_code(code: nat) -> bool {
        200 <= code < 600
    }

    /// Exactly one settled reply sits in the outbound buffer, none of it
    /// written yet.
    pub open spec fn one_terminal_queued(c: ControlConn) -> bool {
        exists|code: nat, text: Seq<u8>|
            c.out.buffer@ == #[trigger] response_bytes(code, text) && Self::terminal_code(code)
                && c.out.offset == 0
    }

    proof fn witness_terminal(c2: ControlConn, code: nat, text: Seq<u8>)
        requires
            c2.out.buffer@ == response_bytes(code, text),
            200 <= code < 600,
            c2.out.offset == 0,
        ensures
            Self::one_terminal_queued(c2),
    {
    }

    /// Every command draws exactly one settled reply, and replies leave in
    /// request order. A dispatched line either queues its one settled
    /// reply at once and returns the connection to idle, or queues nothing
    /// and records the debt in the connection state, where exactly one of
    /// the completion calls pays it (see `lemma_completion_pays_debt`).
    /// Since a control connection has a single outbound buffer, drained
    /// between replies, and commands are dispatched one line at a time,
    /// the settled replies appear on the wire in the order of the lines.
    /// A QUIT additionally carries the close action on its reply, so the
    /// connection shuts as soon as the 221 has drained.
    pub proof fn lemma_one_terminal_reply_per_line(
        s0: Self,
        s1: Self,
        id: u64,
        line: Seq<u8>,
        r: LineAction,
    )
        requires
            s0.ctl_spec(id) matches Some(c) && c.state is Idle && c.out.spec_drained(),
            Self::line_dispatched(s0, s1, id, line, r),
        ensures
            s1.ctl_spec(id) is Some,
            ({
                let c = s0.ctl_spec(id)->Some_0;
                let c2 = s1.ctl_spec(id)->Some_0;
                ||| (Self::one_terminal_queued(c2) && c2.state is Idle)
                ||| (c2.out == c.out && (c2.state is AwaitFs || c2.state is AwaitFile
                    || c2.state is AwaitList))
            }),
            spec_parse(line) == Ok::<CommandModel, ParseError>(CommandModel::Quit) ==> s1.ctl_spec(
                id,
            )->Some_0.out.callback_after_sending == AfterSend::CloseAfter,
    {
        let c = s0.ctl_spec(id)->Some_0;
        let c2 = s1.ctl_spec(id)->Some_0;
        let u = s0.users.users@;
        let uid = c.user_id->Some_0@;
        let cwd = spec_cwd(u, uid);
        match spec_parse(line) {
            Err(ParseError::UnknownCommand) => {
                Self::witness_terminal(c2, 500, "Syntax error, command unrecognized.".spec_bytes());
            },
            Err(ParseError::InvalidArguments) => {
                Self::witness_terminal(
                    c2,
                    501,
                    "Syntax error in parameters or arguments.".spec_bytes(),
                );
            },
            Err(ParseError::NotImplemented) => {
                Self::witness_terminal(c2, 502, "Command not implemented.".spec_bytes());
            },
            Ok(CommandModel::User(name)) => {
                Self::witness_terminal(c2, 331, "User name okay, need password.".spec_bytes());
            },
            Ok(CommandModel::Pass(pw)) => {
                match c.user_id {
                    None => {
                        Self::witness_terminal(c2, 530, "Not logged in.".spec_bytes());
                    },
                    Some(un) => {
                        match spec_find(u, un@) {
                            Some(i) => {
                                if u[i].password@ == pw {
                                    Self::witness_terminal(
                                        c2,
                                        230,
                                        "User logged in, proceed.".spec_bytes(),
                                    );
                                } else {
                                    Self::witness_terminal(c2, 530, "Not logged in.".spec_bytes());
                                }
                            },
                            None => {
                                Self::witness_terminal(
                                    c2,
                                    230,
                                    "User logged in, proceed.".spec_bytes(),
                                );
                            },
                        }
                    },
                }
            },
            Ok(CommandModel::Quit) => {
                Self::witness_terminal(
                    c2,
                    221,
                    "Service closing control connection.".spec_bytes(),
                );
            },
            Ok(CommandModel::Noop) => {
                Self::witness_terminal(c2, 200, "Command okay.".spec_bytes());
            },
            Ok(CommandModel::Pwd) => {
                if !c.loged {
                    Self::witness_terminal(c2, 530, "Not logged in.".spec_bytes());
                } else {
                    Self::witness_terminal(c2, 257, pwd_bytes(cwd));
                }
            },
            Ok(CommandModel::Port(h1, h2, h3, h4, p1, p2)) => {
                if !c.loged {
                    Self::witness_terminal(c2, 530, "Not logged in.".spec_bytes());
                } else {
                    Self::witness_terminal(c2, 200, "Command okay.".spec_bytes());
                }
            },
            Ok(CommandModel::Pasv) => {
                if !c.loged {
                    Self::witness_terminal(c2, 530, "Not logged in.".spec_bytes());
                } else {
                    let port = s0.next_passive_port;
                    Self::witness_terminal(
                        c2,
                        227,
                        crate::response::pasv_text((port / 256) as u8, (port % 256) as u8),
                    );
                }
            },
            Ok(CommandModel::List(opt)) => {
                if !c.loged {
                    Self::witness_terminal(c2, 530, "Not logged in.".spec_bytes());
                } else if c.linked is None {
                    Self::witness_terminal(c2, 425, "Can't open data connection.".spec_bytes());
                } else {
                    let target = match opt {
                        None => Some(cwd),
                        Some(a) => spec_resolve(cwd, a),
                    };
                    if target is None {
                        Self::witness_terminal(
                            c2,
                            550,
                            "Requested action not taken.".spec_bytes(),
                        );
                    }
                }
            },
            Ok(CommandModel::Retr(p)) => {
                if !c.loged {
                    Self::witness_terminal(c2, 530, "Not logged in.".spec_bytes());
                } else if c.linked is None {
                    Self::witness_terminal(c2, 425, "Can't open data connection.".spec_bytes());
                } else if spec_resolve(cwd, p) is None {
                    Self::witness_terminal(c2, 550, "Requested action not taken.".spec_bytes());
                }
            },
            Ok(CommandModel::Stor(p)) => {
                if !c.loged {
                    Self::witness_terminal(c2, 530, "Not logged in.".spec_bytes());
                } else if c.linked is None {
                    Self::witness_terminal(c2, 425, "Can't open data connection.".spec_bytes());
                } else if spec_resolve(cwd, p) is None {
                    Self::witness_terminal(c2, 550, "Requested action not taken.".spec_bytes());
                }
            },
            Ok(CommandModel::Mkd(p)) => {
                if !c.loged {
                    Self::witness_terminal(c2, 530, "Not logged in.".spec_bytes());
                } else {
                    match spec_resolve(cwd, p) {
                        None => {
                            Self::witness_terminal(
                                c2,
                                550,
                                "Requested action not taken.".spec_bytes(),
                            );
                        },
                        Some(q) => {
                            if q.len() == 0 {
                                Self::witness_terminal(
                                    c2,
                                    550,
                                    "Requested action not taken.".spec_bytes(),
                                );
                            }
                        },
                    }
                }
            },
            Ok(CommandModel::Rmd(p)) => {
                if !c.loged {
                    Self::witness_terminal(c2, 530, "Not logged in.".spec_bytes());
                } else {
                    match spec_resolve(cwd, p) {
                        None => {
                            Self::witness_terminal(
                                c2,
                                550,
                                "Requested action not taken.".spec_bytes(),
                            );
                        },
                        Some(q) => {
                            if q.len() == 0 {
                                Self::witness_terminal(
                                    c2,
                                    550,
                                    "Requested action not taken.".spec_bytes(),
                                );
                            }
                        },
                    }
                }
            },
            Ok(CommandModel::Dele(p)) => {
                if !c.loged {
                    Self::witness_terminal(c2, 530, "Not logged in.".spec_bytes());
                } else {
                    match spec_resolve(cwd, p) {
                        None => {
                            Self::witness_terminal(
                                c2,
                                550,
                                "Requested action not taken.".spec_bytes(),
                            );
                        },
                        Some(q) => {
                            if q.len() == 0 {
                                Self::witness_terminal(
                                    c2,
                                    550,
                                    "Requested action not taken.".spec_bytes(),
                                );
                            }
                        },
                    }
                }
            },
            Ok(CommandModel::Cwd(p)) => {
                if !c.loged {
                    Self::witness_terminal(c2, 530, "Not logged in.".spec_bytes());
                } else if spec_resolve(cwd, p) is None {
                    Self::witness_terminal(c2, 550, "Requested action not taken.".spec_bytes());
                }
            },
            Ok(CommandModel::Rnfr(p)) => {
                if !c.loged {
                    Self::witness_terminal(c2, 530, "Not logged in.".spec_bytes());
                } else {
                    match spec_resolve(cwd, p) {
                        None => {
                            Self::witness_terminal(
                                c2,
                                550,
                                "Requested action not taken.".spec_bytes(),
                            );
                        },
                        Some(q) => {
                            Self::witness_terminal(
                                c2,
                                350,
                                "Requested file action pending further information.".spec_bytes(),
                            );
                        },
                    }
                }
            },
            Ok(CommandModel::Rnto(p)) => {
                if !c.loged {
                    Self::witness_terminal(c2, 530, "Not logged in.".spec_bytes());
                } else {
                    match c.rename_from {
                        None => {
                            Self::witness_terminal(
                                c2,
                                550,
                                "Requested action not taken.".spec_bytes(),
                            );
                        },
                        Some(rf) => {
                            match spec_resolve(cwd, p) {
                                None => {
                                    Self::witness_terminal(
                                        c2,
                                        550,
                                        "Requested action not taken.".spec_bytes(),
                                    );
                                },
                                Some(q) => {
                                    if q.len() == 0 {
                                        Self::witness_terminal(
                                            c2,
                                            550,
                                            "Requested action not taken.".spec_bytes(),
                                        );
                                    }
                                },
                            }
                        },
                    }
                }
            },
        }
    }

    /// The completion calls pay the recorded debt with exactly one settled
    /// reply: a filesystem outcome settles its command at once; a file
    /// open or listing settles it on failure, and on success queues the
    /// provisional 150, whose transfer completion (`data_finished`, or the
    /// 451 of a torn-down transfer) queues the one settled reply.
    pub proof fn lemma_completion_pays_debt(s0: Self, s1: Self, id: u64, r: LineAction)
        requires
            s0.ctl_spec(id) is Some,
            ({
                ||| (s0.ctl_spec(id)->Some_0.state is AwaitFs && (Self::post_fs_done(
                    s0,
                    s1,
                    id,
                    true,
                    r,
                ) || Self::post_fs_done(s0, s1, id, false, r)))
                ||| (s0.ctl_spec(id)->Some_0.state is AwaitFile && (Self::post_file_done(
                    s0,
                    s1,
                    id,
                    true,
                    r,
                ) || Self::post_file_done(s0, s1, id, false, r)))
            }),
        ensures
            s1.ctl_spec(id) is Some,
            ({
                let c2 = s1.ctl_spec(id)->Some_0;
                ||| (Self::one_terminal_queued(c2) && c2.state is Idle)
                ||| (c2.out.buffer@ == response_bytes(
                    150,
                    "File status okay; about to open data connection.".spec_bytes(),
                ) && c2.state is Transfer)
                ||| (c2.out.buffer@ == response_bytes(
                    150,
                    "File download starts!".spec_bytes(),
                ) && c2.state is Transfer)
            }),
    {
        let c = s0.ctl_spec(id)->Some_0;
        let c2 = s1.ctl_spec(id)->Some_0;
        if c.state is AwaitFs {
            let op = c.state->AwaitFs_op;
            if Self::post_fs_done(s0, s1, id, true, r) {
                match op {
                    FsOp::Mkd { path } => {
                        Self::witness_terminal(
                            c2,
                            257,
                            crate::response::mkd_text(views(path@).last()),
                        );
                    },
                    _ => {
                        Self::witness_terminal(
                            c2,
                            250,
                            "Requested file action okay, completed.".spec_bytes(),
                        );
                    },
                }
            } else {
                Self::witness_terminal(c2, 550, "Requested action not taken.".spec_bytes());
            }
        } else {
            if Self::post_file_done(s0, s1, id, true, r) {
            } else {
                Self::witness_terminal(c2, 550, "Requested action not taken.".spec_bytes());
            }
        }
    }

    /// May a command line be dispatched on this connection right now? True
    /// exactly for an idle control record whose outbound buffer has
    /// drained: the reply of the previous command is out and no operation
    /// is in flight.
    pub fn ready_for_line(&self, id: u64) -> (r: bool)
        requires
            self.wf(),
        ensures
            r == (self.ctl_spec(id) matches Some(c) && c.state is Idle && c.out.spec_drained()),
    {
        match self.connections.get(id) {
            Some(Conn::Control(c)) => {
                let idle = match c.state {
                    CtlState::Idle => true,
                    _ => false,
                };
                idle && c.out.drained()
            },
            _ => false,
        }
    }

    /// Dispatch one CRLF-stripped command line on a control connection.
    /// Every line is owed exactly one terminal reply: most commands queue
    /// it here; filesystem and transfer commands record the debt in the
    /// connection's state and hand the I/O to the embedding program, whose
    /// completion call queues it. QUIT queues its 221 with the close
    /// action, so the socket shuts right after the reply drains.
    pub fn handle_line(&mut self, id: u64, line: &[u8]) -> (r: LineAction)
        requires
            old(self).ctl_ready(id),
            old(self).current_id < u64::MAX,
        ensures
            final (self).wf(),
            final (self).ctl_spec(id) is Some,
            final (self).max_connections == old(self).max_connections,
            final (self).current_connections == old(self).current_connections,
            final (self).root == old(self).root,
            Self::line_dispatched(*old(self), *final (self), id, line@, r),
    {
        match parse_command(line) {
            Err(ParseError::UnknownCommand) => self.queue_simple(
                id,
                500,
                "Syntax error, command unrecognized.",
            ),
            Err(ParseError::InvalidArguments) => self.queue_simple(
                id,
                501,
                "Syntax error in parameters or arguments.",
            ),
            Err(ParseError::NotImplemented) => self.queue_simple(id, 502, "Command not implemented."),
            Ok(Command::User(name)) => self.cmd_user(id, name),
            Ok(Command::Pass(pw)) => self.cmd_pass(id, pw),
            Ok(Command::Quit) => self.cmd_quit(id),
            Ok(Command::Noop) => self.queue_simple(id, 200, "Command okay."),
            Ok(Command::Pwd) => self.cmd_pwd(id),
            Ok(Command::Port(h1, h2, h3, h4, p1, p2)) => self.cmd_port(id, h1, h2, h3, h4, p1, p2),
            Ok(Command::Pasv) => self.cmd_pasv(id),
            Ok(Command::List(opt)) => self.cmd_list(id, opt),
            Ok(Command::Retr(p)) => self.cmd_transfer(id, p, false),
            Ok(Command::Stor(p)) => self.cmd_transfer(id, p, true),
            Ok(Command::Mkd(p)) => self.cmd_fs_path(id, p, 0),
            Ok(Command::Rmd(p)) => self.cmd_fs_path(id, p, 1),
            Ok(Command::Dele(p)) => self.cmd_fs_path(id, p, 2),
            Ok(Command::Cwd(p)) => self.cmd_cwd(id, p),
            Ok(Command::Rnfr(p)) => self.cmd_rnfr(id, p),
            Ok(Command::Rnto(p)) => self.cmd_rnto(id, p),
        }
    }

    /// The outcome of a pending filesystem operation: success settles MKD
    /// with 257 naming the new directory, CWD with 250 after moving the
    /// working directory, and RMD, DELE and RNTO with 250; failure settles
    /// any of them with 550. Exactly one terminal reply is queued either
    /// way.
    pub open spec fn post_fs_done(s0: Self, s1: Self, id: u64, ok: bool, r: LineAction) -> bool {
        let c = s0.ctl_spec(id)->Some_0;
        let op = c.state->AwaitFs_op;
        let uid = c.user_id->Some_0@;
        &&& s1.ctl_spec(id) matches Some(c2) && {
            &&& c2.user_id == c.user_id
            &&& c2.loged == c.loged
            &&& c2.linked == c.linked
            &&& c2.pending_mode == c.pending_mode
            &&& c2.state is Idle
            &&& c2.rename_from is None
            &&& (if !ok {
                Self::queued(c2, 550, "Requested action not taken.".spec_bytes(), AfterSend::Nothing)
            } else {
                match op {
                    FsOp::Mkd { path } => Self::queued(
                        c2,
                        257,
                        crate::response::mkd_text(views(path@).last()),
                        AfterSend::Nothing,
                    ),
                    _ => Self::queued(
                        c2,
                        250,
                        "Requested file action okay, completed.".spec_bytes(),
                        AfterSend::Nothing,
                    ),
                }
            })
        }
        &&& (forall|k: u64| k != id ==> s1.conn_spec(k) == s0.conn_spec(k))
        &&& (if ok && op is CwdCheck && c.user_id is Some {
            match spec_find(s0.users.users@, uid) {
                Some(i) => {
                    &&& s1.users.users@.len() == s0.users.users@.len()
                    &&& (forall|j: int|
                        0 <= j < s0.users.users@.len() && j != i ==> s1.users.users@[j]
                            == s0.users.users@[j])
                    &&& s1.users.users@[i].name@ == s0.users.users@[i].name@
                    &&& s1.users.users@[i].password@ == s0.users.users@[i].password@
                    &&& views(s1.users.users@[i].cwd@) == views(op->CwdCheck_path@)
                },
                None => s1.users == s0.users,
            }
        } else {
            s1.users == s0.users
        })
        &&& s1.current_id == s0.current_id
        &&& s1.next_passive_port == s0.next_passive_port
        &&& r is Replied
    }

    /// Settle a pending filesystem operation with its outcome.
    pub fn fs_done(&mut self, id: u64, ok: bool) -> (r: LineAction)
        requires
            old(self).wf(),
            old(self).ctl_spec(id) matches Some(c) && c.state is AwaitFs,
        ensures
            final (self).wf(),
            final (self).ctl_spec(id) is Some,
            final (self).max_connections == old(self).max_connections,
            final (self).current_connections == old(self).current_connections,
            final (self).root == old(self).root,
            Self::post_fs_done(*old(self), *final (self), id, ok, r),
    {
        let taken = self.connections.take(id);
        let mut ctl = match taken {
            Some(Conn::Control(c)) => c,
            _ => vstd::pervasive::unreached(),
        };
        let mut state = CtlState::Idle;
        core::mem::swap(&mut state, &mut ctl.state);
        let op = match state {
            CtlState::AwaitFs { op } => op,
            _ => vstd::pervasive::unreached(),
        };
        ctl.rename_from = None;
        if !ok {
            ctl.out.load(
                create_response(Response::file_unavailable(), "Requested action not taken."),
                AfterSend::Nothing,
            );
            self.connections.put(id, Conn::Control(ctl));
            return LineAction::Replied;
        }
        match op {
            FsOp::Mkd { path } => {
                let name = basename(&path);
                ctl.out.load(mkd_reply(name.as_slice()), AfterSend::Nothing);
            },
            FsOp::CwdCheck { path } => {
                let uidv: Option<Vec<u8>> = match &ctl.user_id {
                    Some(u) => Some(vstd::slice::slice_to_vec(u.as_slice())),
                    None => None,
                };
                match uidv {
                    Some(un) => {
                        self.users.set_cwd(un.as_slice(), path);
                    },
                    None => {},
                }
                ctl.out.load(
                    create_response(
                        Response::file_action_okay(),
                        "Requested file action okay, completed.",
                    ),
                    AfterSend::Nothing,
                );
            },
            _ => {
                ctl.out.load(
                    create_response(
                        Response::file_action_okay(),
                        "Requested file action okay, completed.",
                    ),
                    AfterSend::Nothing,
                );
            },
        }
        self.connections.put(id, Conn::Control(ctl));
        LineAction::Replied
    }

    /// Set the transfer mode of the control connection's data resource: on
    /// the data record itself when one is connected, or aside for the
    /// passive accept to inherit when the resource is still a listener.
    fn set_data_mode(&mut self, ctl: &mut ControlConn, mode: TransferMode)
        requires
            old(self).connections.wf(),
            mode matches TransferMode::Buffer(b) ==> b.wf(),
        ensures
            final (self).connections.wf(),
            final (self).connections.controls() == old(self).connections.controls(),
            final (self).users == old(self).users,
            final (self).current_id == old(self).current_id,
            final (self).next_passive_port == old(self).next_passive_port,
            final (self).root == old(self).root,
            final (self).max_connections == old(self).max_connections,
            final (self).current_connections == old(self).current_connections,
            final (ctl).out == old(ctl).out,
            final (ctl).user_id == old(ctl).user_id,
            final (ctl).loged == old(ctl).loged,
            final (ctl).rename_from == old(ctl).rename_from,
            final (ctl).state == old(ctl).state,
            final (ctl).linked == old(ctl).linked,
            forall|k: u64|
                old(ctl).linked != Some(k) ==> final (self).connections.get_spec(k) == old(
                    self,
                ).connections.get_spec(k),
            match old(ctl).linked {
                Some(d) => (match old(self).connections.get_spec(d) {
                    Some(Conn::Data { control, active, mode: _ }) => {
                        &&& final (self).connections.get_spec(d) == Some(
                            Conn::Data { control, active, mode },
                        )
                        &&& final (ctl).pending_mode is None
                    },
                    Some(_) => final (self).connections.get_spec(d) == old(
                        self,
                    ).connections.get_spec(d) && final (ctl).pending_mode == Some(mode),
                    None => final (self).connections.get_spec(d) is None
                        && final (ctl).pending_mode == Some(mode),
                }),
                None => final (ctl).pending_mode == Some(mode),
            },
    {
        match ctl.linked {
            Some(d) => {
                match self.connections.take(d) {
                    Some(Conn::Data { control, active, mode: _ }) => {
                        self.connections.put(d, Conn::Data { control, active, mode });
                        ctl.pending_mode = None;
                    },
                    Some(Conn::DataListener { control }) => {
                        self.connections.put(d, Conn::DataListener { control });
                        ctl.pending_mode = Some(mode);
                    },
                    Some(other) => {
                        self.connections.put(d, other);
                        ctl.pending_mode = Some(mode);
                    },
                    None => {
                        ctl.pending_mode = Some(mode);
                    },
                }
            },
            None => {
                ctl.pending_mode = Some(mode);
            },
        }
    }

    /// The outcome of opening the transfer file: success queues the 150
    /// whose drain arms the data channel (reading for an upload, writing
    /// for a download) and puts the data resource in the right mode;
    /// failure queues the terminal 550.
    pub open spec fn post_file_done(s0: Self, s1: Self, id: u64, ok: bool, r: LineAction) -> bool {
        let c = s0.ctl_spec(id)->Some_0;
        let write = c.state->AwaitFile_write;
        &&& s1.ctl_spec(id) matches Some(c2) && {
            &&& c2.user_id == c.user_id
            &&& c2.loged == c.loged
            &&& c2.linked == c.linked
            &&& c2.rename_from is None
            &&& (if !ok {
                &&& Self::queued(
                    c2,
                    550,
                    "Requested action not taken.".spec_bytes(),
                    AfterSend::Nothing,
                )
                &&& c2.state is Idle
            } else {
                &&& c2.state is Transfer
                &&& (if write {
                    Self::queued(
                        c2,
                        150,
                        "File status okay; about to open data connection.".spec_bytes(),
                        AfterSend::ArmDataRead,
                    )
                } else {
                    Self::queued(
                        c2,
                        150,
                        "File download starts!".spec_bytes(),
                        AfterSend::ArmDataWrite,
                    )
                })
                &&& (match c.linked {
                    Some(d) => (match s0.conn_spec(d) {
                        Some(Conn::Data { control, active, mode: _ }) => s1.conn_spec(d) == Some(
                            Conn::Data {
                                control,
                                active,
                                mode: if write {
                                    TransferMode::Upload
                                } else {
                                    TransferMode::Download
                                },
                            },
                        ) && c2.pending_mode is None,
                        _ => (c2.pending_mode matches Some(m) && m == (if write {
                            TransferMode::Upload
                        } else {
                            TransferMode::Download
                        })),
                    }),
                    None => true,
                })
            })
        }
        &&& (forall|k: u64|
            k != id && Some(k) != c.linked ==> s1.conn_spec(k) == s0.conn_spec(k))
        &&& (!ok ==> forall|k: u64| k != id ==> s1.conn_spec(k) == s0.conn_spec(k))
        &&& s1.users == s0.users
        &&& s1.current_id == s0.current_id
        &&& s1.next_passive_port == s0.next_passive_port
        &&& r is Replied
    }

    /// Settle a pending file open with its outcome.
    pub fn file_done(&mut self, id: u64, ok: bool) -> (r: LineAction)
        requires
            old(self).wf(),
            old(self).ctl_spec(id) matches Some(c) && c.state is AwaitFile,
        ensures
            final (self).wf(),
            final (self).ctl_spec(id) is Some,
            final (self).max_connections == old(self).max_connections,
            final (self).current_connections == old(self).current_connections,
            final (self).root == old(self).root,
            Self::post_file_done(*old(self), *final (self), id, ok, r),
    {
        let taken = self.connections.take(id);
        let mut ctl = match taken {
            Some(Conn::Control(c)) => c,
            _ => vstd::pervasive::unreached(),
        };
        let write = match ctl.state {
            CtlState::AwaitFile { write } => write,
            _ => vstd::pervasive::unreached(),
        };
        ctl.rename_from = None;
        if !ok {
            ctl.state = CtlState::Idle;
            ctl.out.load(
                create_response(Response::file_unavailable(), "Requested action not taken."),
                AfterSend::Nothing,
            );
            self.connections.put(id, Conn::Control(ctl));
            return LineAction::Replied;
        }
        ctl.state = CtlState::Transfer;
        if write {
            self.set_data_mode(&mut ctl, TransferMode::Upload);
            ctl.out.load(
                create_response(
                    Response::file_status_okay(),
                    "File status okay; about to open data connection.",
                ),
                AfterSend::ArmDataRead,
            );
        } else {
            self.set_data_mode(&mut ctl, TransferMode::Download);
            ctl.out.load(
                create_response(Response::file_status_okay(), "File download starts!"),
                AfterSend::ArmDataWrite,
            );
        }
        self.connections.put(id, Conn::Control(ctl));
        LineAction::Replied
    }

    /// The outcome of producing a directory listing: the bytes become the
    /// payload of the data channel behind a 150; failure draws the
    /// terminal 550.
    pub open spec fn post_list_done(
        s0: Self,
        s1: Self,
        id: u64,
        listing: Option<Seq<u8>>,
        r: LineAction,
    ) -> bool {
        let c = s0.ctl_spec(id)->Some_0;
        &&& s1.ctl_spec(id) matches Some(c2) && {
            &&& c2.user_id == c.user_id
            &&& c2.loged == c.loged
            &&& c2.linked == c.linked
            &&& c2.rename_from is None
            &&& (match listing {
                None => Self::queued(
                    c2,
                    550,
                    "Requested action not taken.".spec_bytes(),
                    AfterSend::Nothing,
                ) && c2.state is Idle,
                Some(bytes) => {
                    &&& Self::queued(
                        c2,
                        150,
                        "File status okay; about to open data connection.".spec_bytes(),
                        AfterSend::ArmDataWrite,
                    )
                    &&& c2.state is Transfer
                    &&& (match c.linked {
                        Some(d) => (match s0.conn_spec(d) {
                            Some(Conn::Data { control, active, mode: _ }) => ({
                                &&& s1.conn_spec(d) matches Some(Conn::Data {
                                    control: c3,
                                    active: a3,
                                    mode: m3,
                                })
                                &&& c3 == control
                                &&& a3 == active
                                &&& m3 matches TransferMode::Buffer(b) && b.buffer@ == bytes
                                    && b.offset == 0
                                &&& c2.pending_mode is None
                            }),
                            _ => (c2.pending_mode matches Some(m) && m matches TransferMode::Buffer(
                                b,
                            ) && b.buffer@ == bytes && b.offset == 0),
                        }),
                        None => true,
                    })
                },
            })
        }
        &&& (forall|k: u64|
            k != id && Some(k) != c.linked ==> s1.conn_spec(k) == s0.conn_spec(k))
        &&& (listing is None ==> forall|k: u64|
            k != id ==> s1.conn_spec(k) == s0.conn_spec(k))
        &&& s1.users == s0.users
        &&& s1.current_id == s0.current_id
        &&& s1.next_passive_port == s0.next_passive_port
        &&& r is Replied
    }

    /// Settle a pending directory listing with its outcome.
    pub fn list_done(&mut self, id: u64, listing: Option<Vec<u8>>) -> (r: LineAction)
        requires
            old(self).wf(),
            old(self).ctl_spec(id) matches Some(c) && c.state is AwaitList,
        ensures
            final (self).wf(),
            final (self).ctl_spec(id) is Some,
            final (self).max_connections == old(self).max_connections,
            final (self).current_connections == old(self).current_connections,
            final (self).root == old(self).root,
            Self::post_list_done(
                *old(self),
                *final (self),
                id,
                match listing {
                    Some(b) => Some(b@),
                    None => None,
                },
                r,
            ),
    {
        let taken = self.connections.take(id);
        let mut ctl = match taken {
            Some(Conn::Control(c)) => c,
            _ => vstd::pervasive::unreached(),
        };
        ctl.rename_from = None;
        match listing {
            None => {
                ctl.state = CtlState::Idle;
                ctl.out.load(
                    create_response(Response::file_unavailable(), "Requested action not taken."),
                    AfterSend::Nothing,
                );
                self.connections.put(id, Conn::Control(ctl));
                LineAction::Replied
            },
            Some(bytes) => {
                ctl.state = CtlState::Transfer;
                self.set_data_mode(&mut ctl, TransferMode::Buffer(BufferToWrite::new(bytes)));
                ctl.out.load(
                    create_response(
                        Response::file_status_okay(),
                        "File status okay; about to open data connection.",
                    ),
                    AfterSend::ArmDataWrite,
                );
                self.connections.put(id, Conn::Control(ctl));
                LineAction::Replied
            },
        }
    }

    /// An active-mode data connection was dialed and is connected:
    /// register it under a fresh id and link it to its control connection.
    pub fn active_connected(&mut self, ctl_id: u64, data_id: u64)
        requires
            old(self).wf(),
            old(self).ctl_spec(ctl_id) is Some,
            old(self).conn_spec(data_id) is None,
            data_id <= old(self).current_id,
        ensures
            final (self).wf(),
            final (self).conn_spec(data_id) == Some(
                Conn::Data { control: ctl_id, active: true, mode: TransferMode::AwaitingCommand },
            ),
            final (self).ctl_spec(ctl_id) matches Some(c2) && {
                let c = old(self).ctl_spec(ctl_id)->Some_0;
                &&& c2.linked == Some(data_id)
                &&& c2.out == c.out
                &&& c2.user_id == c.user_id
                &&& c2.loged == c.loged
                &&& c2.rename_from == c.rename_from
                &&& c2.state == c.state
                &&& c2.pending_mode == c.pending_mode
            },
            forall|k: u64|
                k != ctl_id && k != data_id ==> final (self).conn_spec(k) == old(self).conn_spec(k),
            final (self).users == old(self).users,
            final (self).current_id == old(self).current_id,
            final (self).current_connections == old(self).current_connections,
            final (self).max_connections == old(self).max_connections,
            final (self).next_passive_port == old(self).next_passive_port,
            final (self).root == old(self).root,
    {
        let taken = self.connections.take(ctl_id);
        let mut ctl = match taken {
            Some(Conn::Control(c)) => c,
            _ => vstd::pervasive::unreached(),
        };
        self.connections.put(
            data_id,
            Conn::Data { control: ctl_id, active: true, mode: TransferMode::AwaitingCommand },
        );
        ctl.linked = Some(data_id);
        self.connections.put(ctl_id, Conn::Control(ctl));
    }

    /// A client connected to the passive listener: the listener record is
    /// consumed and a data connection takes its place under a fresh id,
    /// inheriting a transfer mode chosen before the client arrived, if
    /// any. Returns false when the owning control connection is gone, in
    /// which case the fresh socket should simply be closed.
    pub fn passive_accepted(&mut self, listener_id: u64, data_id: u64) -> (accepted: bool)
        requires
            old(self).wf(),
            old(self).conn_spec(listener_id) is Some,
            old(self).conn_spec(listener_id) matches Some(Conn::DataListener { .. }),
            old(self).conn_spec(data_id) is None,
            data_id <= old(self).current_id,
        ensures
            final (self).wf(),
            final (self).conn_spec(listener_id) is None,
            ({
                let control = old(self).conn_spec(listener_id)->Some_0->DataListener_control;
                &&& accepted == (old(self).ctl_spec(control) is Some)
                &&& (forall|k: u64|
                    k != listener_id && k != data_id && k != control ==> final (self).conn_spec(k)
                        == old(self).conn_spec(k))
                &&& (if accepted {
                    let c = old(self).ctl_spec(control)->Some_0;
                    &&& final (self).conn_spec(data_id) matches Some(Conn::Data {
                        control: c3,
                        active: a3,
                        mode: m3,
                    })
                    &&& c3 == control
                    &&& a3 == false
                    &&& m3 == (match c.pending_mode {
                        Some(m) => m,
                        None => TransferMode::AwaitingCommand,
                    })
                    &&& final (self).ctl_spec(control) matches Some(c2) && {
                        &&& c2.linked == Some(data_id)
                        &&& c2.pending_mode is None
                        &&& c2.out == c.out
                        &&& c2.user_id == c.user_id
                        &&& c2.loged == c.loged
                        &&& c2.rename_from == c.rename_from
                        &&& c2.state == c.state
                    }
                } else {
                    data_id != listener_id ==> final (self).conn_spec(data_id) == old(
                        self,
                    ).conn_spec(data_id)
                })
            }),
            final (self).users == old(self).users,
            final (self).current_id == old(self).current_id,
            final (self).current_connections == old(self).current_connections,
            final (self).max_connections == old(self).max_connections,
            final (self).next_passive_port == old(self).next_passive_port,
            final (self).root == old(self).root,
    {
        let taken = self.connections.take(listener_id);
        let control = match taken {
            Some(Conn::DataListener { control }) => control,
            _ => vstd::pervasive::unreached(),
        };
        let ctl_taken = self.connections.take(control);
        match ctl_taken {
            Some(Conn::Control(mut ctl)) => {
                let mut pending: Option<TransferMode> = None;
                core::mem::swap(&mut pending, &mut ctl.pending_mode);
                let mode = match pending {
                    Some(m) => m,
                    None => TransferMode::AwaitingCommand,
                };
                self.connections.put(data_id, Conn::Data { control, active: false, mode });
                ctl.linked = Some(data_id);
                self.connections.put(control, Conn::Control(ctl));
                true
            },
            Some(other) => {
                self.connections.put(control, other);
                false
            },
            None => false,
        }
    }

    /// A data connection finished its transfer cleanly (EOF on the upload,
    /// or the whole file written out): the completion reply goes onto the
    /// control connection and the data record is dropped. Returns the
    /// control connection to arm for writing.
    pub fn data_finished(&mut self, id: u64) -> (r: Option<u64>)
        requires
            old(self).wf(),
            old(self).conn_spec(id) matches Some(Conn::Data { .. }),
        ensures
            final (self).wf(),
            final (self).conn_spec(id) is None,
            ({
                let control = old(self).conn_spec(id)->Some_0->Data_control;
                let mode = old(self).conn_spec(id)->Some_0->Data_mode;
                &&& (forall|k: u64|
                    k != id && k != control ==> final (self).conn_spec(k) == old(self).conn_spec(k))
                &&& (match old(self).ctl_spec(control) {
                    Some(c) => {
                        &&& r == Some(control)
                        &&& final (self).ctl_spec(control) matches Some(c2) && {
                            &&& Self::queued(
                                c2,
                                226,
                                if mode is Download {
                                    "Closing data connection. Requested file action successful. (file transfer)".spec_bytes()
                                } else {
                                    "Closing data connection. Requested file action successful (for example, file transfer or file abort).".spec_bytes()
                                },
                                AfterSend::Nothing,
                            )
                            &&& c2.state is Idle
                            &&& c2.linked is None
                            &&& c2.user_id == c.user_id
                            &&& c2.loged == c.loged
                        }
                    },
                    None => r is None,
                })
            }),
            final (self).users == old(self).users,
            final (self).current_id == old(self).current_id,
            final (self).current_connections == old(self).current_connections,
            final (self).max_connections == old(self).max_connections,
            final (self).next_passive_port == old(self).next_passive_port,
            final (self).root == old(self).root,
    {
        let taken = self.connections.take(id);
        let (control, mode) = match taken {
            Some(Conn::Data { control, mode, .. }) => (control, mode),
            _ => vstd::pervasive::unreached(),
        };
        let ctl_taken = self.connections.take(control);
        match ctl_taken {
            Some(Conn::Control(mut ctl)) => {
                let text = match mode {
                    TransferMode::Download => create_response(
                        Response::closing_data_connection(),
                        "Closing data connection. Requested file action successful. (file transfer)",
                    ),
                    _ => create_response(
                        Response::closing_data_connection(),
                        "Closing data connection. Requested file action successful (for example, file transfer or file abort).",
                    ),
                };
                ctl.out.load(text, AfterSend::Nothing);
                ctl.state = CtlState::Idle;
                ctl.linked = None;
                self.connections.put(control, Conn::Control(ctl));
                Some(control)
            },
            Some(other) => {
                self.connections.put(control, other);
                None
            },
            None => None,
        }
    }

    /// Close a connection and clean up after it. Idempotent: a second call
    /// on the same id finds nothing and does nothing. Closing a control
    /// connection hands back its data resource, which should be closed
    /// too, and resets the user's working directory. Closing a data
    /// connection whose transfer was still in flight synthesizes the 451
    /// on its control connection, which is returned to be armed for
    /// writing, so that no command is left without its terminal reply.
    pub fn close_connection(&mut self, id: u64) -> (r: (Option<u64>, Option<u64>))
        requires
            old(self).wf(),
        ensures
            final (self).wf(),
            final (self).conn_spec(id) is None,
            final (self).current_id == old(self).current_id,
            final (self).max_connections == old(self).max_connections,
            final (self).next_passive_port == old(self).next_passive_port,
            final (self).root == old(self).root,
            (match old(self).conn_spec(id) {
                None => r == (None::<u64>, None::<u64>) && *final (self) == *old(self),
                Some(Conn::Rejected { .. }) => {
                    &&& r == (None::<u64>, None::<u64>)
                    &&& (forall|k: u64|
                        k != id ==> final (self).conn_spec(k) == old(self).conn_spec(k))
                    &&& final (self).users == old(self).users
                    &&& final (self).current_connections == old(self).current_connections
                },
                Some(Conn::DataListener { control }) => {
                    &&& r == (None::<u64>, None::<u64>)
                    &&& (forall|k: u64|
                        k != id && k != control ==> final (self).conn_spec(k) == old(
                            self,
                        ).conn_spec(k))
                    &&& (match old(self).ctl_spec(control) {
                        Some(c) => final (self).ctl_spec(control) matches Some(c2) && {
                            &&& (if c.linked == Some(id) {
                                c2.linked is None
                            } else {
                                c2.linked == c.linked
                            })
                            &&& c2.out == c.out
                            &&& c2.user_id == c.user_id
                            &&& c2.loged == c.loged
                            &&& c2.state == c.state
                        },
                        None => true,
                    })
                    &&& final (self).users == old(self).users
                    &&& final (self).current_connections == old(self).current_connections
                },
                Some(Conn::Data { control, .. }) => {
                    &&& r.0 is None
                    &&& (forall|k: u64|
                        k != id && k != control ==> final (self).conn_spec(k) == old(
                            self,
                        ).conn_spec(k))
                    &&& (match old(self).ctl_spec(control) {
                        Some(c) => final (self).ctl_spec(control) matches Some(c2) && {
                            &&& (if c.linked == Some(id) {
                                c2.linked is None
                            } else {
                                c2.linked == c.linked
                            })
                            &&& c2.user_id == c.user_id
                            &&& c2.loged == c.loged
                            &&& (if c.state is Transfer {
                                &&& Self::queued(
                                    c2,
                                    451,
                                    "Requested action aborted. Local error in processing.".spec_bytes(),
                                    AfterSend::Nothing,
                                )
                                &&& c2.state is Idle
                                &&& r.1 == Some(control)
                            } else {
                                &&& c2.state == c.state
                                &&& c2.out == c.out
                                &&& r.1 is None
                            })
                        },
                        None => r.1 is None,
                    })
                    &&& final (self).users == old(self).users
                    &&& final (self).current_connections == old(self).current_connections
                },
                Some(Conn::Control(c)) => {
                    &&& r == (c.linked, None::<u64>)
                    &&& (forall|k: u64|
                        k != id ==> final (self).conn_spec(k) == old(self).conn_spec(k))
                    &&& final (self).current_connections == old(self).current_connections - 1
                    &&& (match c.user_id {
                        Some(un) => (match spec_find(old(self).users.users@, un@) {
                            Some(i) => {
                                &&& final (self).users.users@.len() == old(
                                    self,
                                ).users.users@.len()
                                &&& views(final (self).users.users@[i].cwd@)
                                    == Seq::<Seq<u8>>::empty()
                                &&& (forall|j: int|
                                    0 <= j < old(self).users.users@.len() && j != i
                                        ==> final (self).users.users@[j] == old(
                                        self,
                                    ).users.users@[j])
                            },
                            None => final (self).users == old(self).users,
                        }),
                        None => final (self).users == old(self).users,
                    })
                },
            }),
    {
        let taken = self.connections.take(id);
        match taken {
            None => (None, None),
            Some(Conn::Rejected { out: _ }) => (None, None),
            Some(Conn::DataListener { control }) => {
                self.unlink_control(control, id);
                (None, None)
            },
            Some(Conn::Data { control, active: _, mode: _ }) => {
                let notify = self.abort_transfer(control, id);
                (None, notify)
            },
            Some(Conn::Control(ctl)) => {
                self.current_connections = self.current_connections - 1;
                match &ctl.user_id {
                    Some(u) => {
                        let un = vstd::slice::slice_to_vec(u.as_slice());
                        let fresh: Vec<Vec<u8>> = Vec::new();
                        proof {
                            assert(views(fresh@) =~~= Seq::<Seq<u8>>::empty());
                        }
                        self.users.set_cwd(un.as_slice(), fresh);
                    },
                    None => {},
                }
                (ctl.linked, None)
            },
        }
    }

    /// Clear the control connection's link to a dead data resource.
    fn unlink_control(&mut self, control: u64, dead: u64)
        requires
            old(self).connections.wf(),
        ensures
            final (self).connections.wf(),
            final (self).connections.controls() == old(self).connections.controls(),
            forall|k: u64|
                k != control ==> final (self).connections.get_spec(k) == old(
                    self,
                ).connections.get_spec(k),
            match old(self).connections.get_spec(control) {
                Some(Conn::Control(c)) => final (self).connections.get_spec(control) matches Some(
                    Conn::Control(c2),
                ) && {
                    &&& (if c.linked == Some(dead) {
                        c2.linked is None
                    } else {
                        c2.linked == c.linked
                    })
                    &&& c2.out == c.out
                    &&& c2.user_id == c.user_id
                    &&& c2.loged == c.loged
                    &&& c2.state == c.state
                    &&& c2.rename_from == c.rename_from
                },
                _ => final (self).connections.get_spec(control) == old(
                    self,
                ).connections.get_spec(control),
            },
            final (self).users == old(self).users,
            final (self).current_id == old(self).current_id,
            final (self).current_connections == old(self).current_connections,
            final (self).max_connections == old(self).max_connections,
            final (self).next_passive_port == old(self).next_passive_port,
            final (self).root == old(self).root,
    {
        match self.connections.take(control) {
            Some(Conn::Control(mut ctl)) => {
                let is_dead = match ctl.linked {
                    Some(l) => l == dead,
                    None => false,
                };
                if is_dead {
                    ctl.linked = None;
                }
                self.connections.put(control, Conn::Control(ctl));
            },
            Some(other) => {
                self.connections.put(control, other);
            },
            None => {},
        }
    }

    /// A data connection died: clear the link and, if its transfer was
    /// still in flight, synthesize the 451 on the control connection.
    fn abort_transfer(&mut self, control: u64, dead: u64) -> (r: Option<u64>)
        requires
            old(self).connections.wf(),
        ensures
            final (self).connections.wf(),
            final (self).connections.controls() == old(self).connections.controls(),
            forall|k: u64|
                k != control ==> final (self).connections.get_spec(k) == old(
                    self,
                ).connections.get_spec(k),
            match old(self).connections.get_spec(control) {
                Some(Conn::Control(c)) => final (self).connections.get_spec(control) matches Some(
                    Conn::Control(c2),
                ) && {
                    &&& (if c.linked == Some(dead) {
                        c2.linked is None
                    } else {
                        c2.linked == c.linked
                    })
                    &&& c2.user_id == c.user_id
                    &&& c2.loged == c.loged
                    &&& (if c.state is Transfer {
                        &&& Self::queued(
                            c2,
                            451,
                            "Requested action aborted. Local error in processing.".spec_bytes(),
                            AfterSend::Nothing,
                        )
                        &&& c2.state is Idle
                        &&& r == Some(control)
                    } else {
                        &&& c2.state == c.state
                        &&& c2.out == c.out
                        &&& r is None
                    })
                },
                _ => final (self).connections.get_spec(control) == old(
                    self,
                ).connections.get_spec(control) && r is None,
            },
            final (self).users == old(self).users,
            final (self).current_id == old(self).current_id,
            final (self).current_connections == old(self).current_connections,
            final (self).max_connections == old(self).max_connections,
            final (self).next_passive_port == old(self).next_passive_port,
            final (self).root == old(self).root,
    {
        match self.connections.take(control) {
            Some(Conn::Control(mut ctl)) => {
                let is_dead = match ctl.linked {
                    Some(l) => l == dead,
                    None => false,
                };
                if is_dead {
                    ctl.linked = None;
                }
                let r = match ctl.state {
                    CtlState::Transfer => {
                        ctl.state = CtlState::Idle;
                        ctl.out.load(
                            create_response(
                                Response::local_error(),
                                "Requested action aborted. Local error in processing.",
                            ),
                            AfterSend::Nothing,
                        );
                        Some(control)
                    },
                    _ => None,
                };
                self.connections.put(control, Conn::Control(ctl));
                r
            },
            Some(other) => {
                self.connections.put(control, other);
                None
            },
            None => None,
        }
    }

    /// A copy of the bytes this connection still owes its peer.
    pub fn pending_of(&self, id: u64) -> (r: Vec<u8>)
        requires
            self.wf(),
        ensures
            r@ == (match self.conn_spec(id) {
                Some(Conn::Control(c)) => c.out.pending(),
                Some(Conn::Rejected { out }) => out.pending(),
                Some(Conn::Data { mode: TransferMode::Buffer(b), .. }) => b.pending(),
                _ => Seq::<u8>::empty(),
            }),
    {
        match self.connections.get(id) {
            Some(Conn::Control(c)) => vstd::slice::slice_to_vec(c.out.pending_slice()),
            Some(Conn::Rejected { out }) => vstd::slice::slice_to_vec(out.pending_slice()),
            Some(Conn::Data { mode: TransferMode::Buffer(b), .. }) => vstd::slice::slice_to_vec(
                b.pending_slice(),
            ),
            _ => Vec::new(),
        }
    }

    /// Record that `n` bytes of the pending buffer of this connection
    /// reached the peer, and say what to do next. On a full drain of a
    /// control or rejected record the after-send action runs exactly once:
    /// nothing (re-arm reading), arming the linked data resource, or
    /// closing (so the socket sees its FIN right after the 221 or 421
    /// drains). On a full drain of a buffered data payload the transfer is
    /// complete: the 226 goes onto the control connection and the data
    /// record is dropped.
    pub fn on_writable(&mut self, id: u64, n: usize) -> (r: WriterAction)
        requires
            old(self).wf(),
            match old(self).conn_spec(id) {
                Some(Conn::Control(c)) => n <= c.out.pending().len(),
                Some(Conn::Rejected { out }) => n <= out.pending().len(),
                Some(Conn::Data { mode: TransferMode::Buffer(b), .. }) => n <= b.pending().len(),
                _ => true,
            },
        ensures
            final (self).wf(),
            final (self).users == old(self).users,
            final (self).current_connections == old(self).current_connections,
            final (self).current_id == old(self).current_id,
            final (self).next_passive_port == old(self).next_passive_port,
            final (self).max_connections == old(self).max_connections,
            final (self).root == old(self).root,
            match old(self).conn_spec(id) {
                Some(Conn::Control(c)) => {
                    &&& final (self).ctl_spec(id) matches Some(c2)
                    &&& c2.user_id == c.user_id
                    &&& c2.loged == c.loged
                    &&& c2.linked == c.linked
                    &&& c2.state == c.state
                    &&& c2.rename_from == c.rename_from
                    &&& c2.pending_mode == c.pending_mode
                    &&& c2.out.buffer == c.out.buffer
                    &&& c2.out.offset == c.out.offset + n
                    &&& (if c.out.offset + n < c.out.buffer@.len() {
                        r is RearmWrite && c2.out.callback_after_sending
                            == c.out.callback_after_sending
                    } else {
                        &&& c2.out.callback_after_sending == AfterSend::Nothing
                        &&& (match c.out.callback_after_sending {
                            AfterSend::Nothing => r is RearmRead,
                            AfterSend::CloseAfter => r is Close,
                            AfterSend::ArmDataRead => (match c.linked {
                                Some(d) => r == WriterAction::ArmData { id: d, write: false },
                                None => r is RearmRead,
                            }),
                            AfterSend::ArmDataWrite => (match c.linked {
                                Some(d) => r == WriterAction::ArmData { id: d, write: true },
                                None => r is RearmRead,
                            }),
                        })
                    })
                    &&& forall|k: u64|
                        k != id ==> final (self).conn_spec(k) == old(self).conn_spec(k)
                },
                Some(Conn::Rejected { out }) => {
                    &&& (if out.offset + n < out.buffer@.len() {
                        r is RearmWrite
                    } else {
                        match out.callback_after_sending {
                            AfterSend::CloseAfter => r is Close,
                            _ => r is RearmRead,
                        }
                    })
                    &&& forall|k: u64|
                        k != id ==> final (self).conn_spec(k) == old(self).conn_spec(k)
                },
                Some(Conn::Data { control, active, mode: TransferMode::Buffer(b) }) => {
                    if b.offset + n < b.buffer@.len() {
                        &&& r is RearmWrite
                        &&& (final (self).conn_spec(id) matches Some(Conn::Data {
                            control: c3,
                            active: a3,
                            mode: TransferMode::Buffer(b2),
                        }) && c3 == control && a3 == active && b2.buffer == b.buffer && b2.offset
                            == b.offset + n && b2.callback_after_sending
                            == b.callback_after_sending)
                        &&& (forall|k: u64|
                            k != id ==> final (self).conn_spec(k) == old(self).conn_spec(k))
                    } else {
                        &&& final (self).conn_spec(id) is None
                        &&& (match old(self).ctl_spec(control) {
                            Some(c) => {
                                &&& r == WriterAction::Finished { control }
                                &&& final (self).ctl_spec(control) matches Some(c2)
                                &&& Self::queued(
                                    c2,
                                    226,
                                    "Closing data connection. Requested file action successful (for example, file transfer or file abort).".spec_bytes(),
                                    AfterSend::Nothing,
                                )
                                &&& c2.state is Idle
                                &&& c2.linked is None
                            },
                            None => r is Close,
                        })
                        &&& (forall|k: u64|
                            k != id && k != control ==> final (self).conn_spec(k) == old(
                                self,
                            ).conn_spec(k))
                    }
                },
                Some(Conn::Data { .. }) => r is NoOp && (forall|k: u64|
                    final (self).conn_spec(k) == old(self).conn_spec(k)),
                Some(Conn::DataListener { .. }) => r is NoOp && (forall|k: u64|
                    final (self).conn_spec(k) == old(self).conn_spec(k)),
                None => r is NoOp && *final (self) == *old(self),
            },
    {
        let c = self.connections.take(id);
        match c {
            Some(Conn::Control(mut ctl)) => {
                let drained = ctl.out.advance(n);
                let action = if drained {
                    let cb = ctl.out.take_callback();
                    match cb {
                        AfterSend::Nothing => WriterAction::RearmRead,
                        AfterSend::CloseAfter => WriterAction::Close,
                        AfterSend::ArmDataRead => {
                            match ctl.linked {
                                Some(d) => WriterAction::ArmData { id: d, write: false },
                                None => WriterAction::RearmRead,
                            }
                        },
                        AfterSend::ArmDataWrite => {
                            match ctl.linked {
                                Some(d) => WriterAction::ArmData { id: d, write: true },
                                None => WriterAction::RearmRead,
                            }
                        },
                    }
                } else {
                    WriterAction::RearmWrite
                };
                self.connections.put(id, Conn::Control(ctl));
                action
            },
            Some(Conn::Rejected { mut out }) => {
                let drained = out.advance(n);
                let action = if drained {
                    match out.take_callback() {
                        AfterSend::CloseAfter => WriterAction::Close,
                        _ => WriterAction::RearmRead,
                    }
                } else {
                    WriterAction::RearmWrite
                };
                self.connections.put(id, Conn::Rejected { out });
                action
            },
            Some(Conn::Data { control, active, mode: TransferMode::Buffer(mut b) }) => {
                let drained = b.advance(n);
                if drained {
                    // The listing (or other synthetic payload) is fully
                    // sent: pay the 226 debt on the control connection.
                    match self.connections.take(control) {
                        Some(Conn::Control(mut ctl)) => {
                            ctl.out.load(
                                create_response(
                                    Response::closing_data_connection(),
                                    "Closing data connection. Requested file action successful (for example, file transfer or file abort).",
                                ),
                                AfterSend::Nothing,
                            );
                            ctl.state = CtlState::Idle;
                            ctl.linked = None;
                            self.connections.put(control, Conn::Control(ctl));
                            WriterAction::Finished { control }
                        },
                        Some(other) => {
                            self.connections.put(control, other);
                            WriterAction::Close
                        },
                        None => WriterAction::Close,
                    }
                } else {
                    self.connections.put(id, Conn::Data { control, active, mode: TransferMode::Buffer(b) });
                    WriterAction::RearmWrite
                }
            },
            Some(other) => {
                self.connections.put(id, other);
                WriterAction::NoOp
            },
            None => WriterAction::NoOp,
        }
    }
}

} // verus!
