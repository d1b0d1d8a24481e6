//! The transfer engine: an FTP session as a state machine.
//!
//! A `Connection` holds the host, the data-connection mode, and the phase
//! of the one outstanding operation. Starting an operation and feeding an
//! event each return an [`Action`]: the next piece of socket work the
//! caller is to perform before reporting back what happened. The engine
//! itself never touches a socket, so every decision it takes is verified
//! against the transition model [`step_sp`].

use vstd::prelude::*;
use vstd::slice::slice_to_vec;
use crate::reply::{
    parse_reply_sp, parse_server_response, Error, ErrorV, ReplyV, ServerResponse,
};
use crate::passive::{is_passive_code, passive_target_sp, resolve_passive, starts_passive};
use crate::transfer::{
    command_line, command_line_sp, listing_sp, mode_code, mode_code_sp, parse_listing,
    parse_size, size_sp, TransferMode,
};

verus! {

/// How data connections are negotiated: passively (PASV) or actively
/// (PORT). The active variant is recognized but deliberately without an
/// implementation: every attempt to use it for a data connection fails
/// deterministically rather than degrading to passive behaviour.
#[derive(Clone, Copy, PartialEq, Eq, Structural)]
pub enum ConnectionType {
    Passive,
    Active,
}

/// What a finished operation yields: the parsed reply for commands
/// without a payload, or the payload paired with the final status reply
/// read after the transfer completed.
pub enum Outcome {
    /// The classified reply of a one-shot command, or the final status of
    /// an upload.
    Reply(ServerResponse),
    /// The entries of a directory listing, with the final status.
    Names(Vec<String>, ServerResponse),
    /// The bytes of a downloaded file, with the final status.
    Bytes(Vec<u8>, ServerResponse),
    /// A remote file's size in bytes.
    Size(u64),
    /// A data connection was established and handed to the caller.
    Established,
}

/// Mathematical model of an outcome.
pub enum OutcomeV {
    Reply(ReplyV),
    Names(Seq<Seq<char>>, ReplyV),
    Bytes(Seq<u8>, ReplyV),
    Size(u64),
    Established,
}

impl View for Outcome {
    type V = OutcomeV;

    open spec fn view(&self) -> OutcomeV {
        match self {
            Outcome::Reply(r) => OutcomeV::Reply(r@),
            Outcome::Names(ns, r) => OutcomeV::Names(ns.deep_view(), r@),
            Outcome::Bytes(bs, r) => OutcomeV::Bytes(bs@, r@),
            Outcome::Size(n) => OutcomeV::Size(*n),
            Outcome::Established => OutcomeV::Established,
        }
    }
}

/// A payload held while the final status line is awaited.
pub enum Pending {
    /// Listing entries already parsed from the drained text.
    Names(Vec<String>),
    /// Bytes already drained from the data socket.
    Bytes(Vec<u8>),
    /// No payload: the final reply itself is the result.
    Reply,
}

/// Mathematical model of a held payload.
pub enum PendingV {
    Names(Seq<Seq<char>>),
    Bytes(Seq<u8>),
    Reply,
}

impl View for Pending {
    type V = PendingV;

    open spec fn view(&self) -> PendingV {
        match self {
            Pending::Names(ns) => PendingV::Names(ns.deep_view()),
            Pending::Bytes(bs) => PendingV::Bytes(bs@),
            Pending::Reply => PendingV::Reply,
        }
    }
}

/// The next piece of outside work the engine asks its caller to perform.
pub enum Action {
    /// Read one reply line from the control socket.
    ReadReply,
    /// Write this line to the control socket, then read one reply line.
    Exchange(String),
    /// Open the data connection to this address and port.
    OpenData(String, u16),
    /// Read the data socket to end of stream as bytes.
    ReadData,
    /// Read the data socket to end of stream as text.
    ReadText,
    /// Write these bytes to the data socket and close its write side.
    WriteData(Vec<u8>),
    /// The operation is complete.
    Done(Outcome),
    /// The operation failed.
    Fail(Error),
}

/// Mathematical model of an action.
pub enum ActionV {
    ReadReply,
    Exchange(Seq<char>),
    OpenData(Seq<char>, u16),
    ReadData,
    ReadText,
    WriteData(Seq<u8>),
    Done(OutcomeV),
    Fail(ErrorV),
}

impl View for Action {
    type V = ActionV;

    open spec fn view(&self) -> ActionV {
        match self {
            Action::ReadReply => ActionV::ReadReply,
            Action::Exchange(line) => ActionV::Exchange(line@),
            Action::OpenData(addr, port) => ActionV::OpenData(addr@, *port),
            Action::ReadData => ActionV::ReadData,
            Action::ReadText => ActionV::ReadText,
            Action::WriteData(bs) => ActionV::WriteData(bs@),
            Action::Done(o) => ActionV::Done(o@),
            Action::Fail(e) => ActionV::Fail(e@),
        }
    }
}

/// What the caller reports back after performing an action.
pub enum Event {
    /// One line read off the control socket.
    Line(String),
    /// The data connection is open.
    Opened,
    /// The bytes drained from the data socket.
    Data(Vec<u8>),
    /// The text drained from the data socket.
    Text(String),
    /// The payload was written and the data socket's write side closed.
    Written,
    /// The transport failed; the message describes the error.
    Transport(String),
}

/// Mathematical model of an event.
pub enum EventV {
    Line(Seq<char>),
    Opened,
    Data(Seq<u8>),
    Text(Seq<char>),
    Written,
    Transport(Seq<char>),
}

impl View for Event {
    type V = EventV;

    open spec fn view(&self) -> EventV {
        match self {
            Event::Line(l) => EventV::Line(l@),
            Event::Opened => EventV::Opened,
            Event::Data(bs) => EventV::Data(bs@),
            Event::Text(t) => EventV::Text(t@),
            Event::Written => EventV::Written,
            Event::Transport(m) => EventV::Transport(m@),
        }
    }
}

/// The transfer a data connection is being established for.
pub enum DataJob {
    /// Hand the open data connection to the caller and stop.
    Establish,
    /// A directory listing.
    List,
    /// A file download.
    Download { filename: String },
    /// A file upload.
    Upload { filename: String, data: Vec<u8> },
}

/// Mathematical model of a data-connection job.
pub enum JobV {
    Establish,
    List,
    Download(Seq<char>),
    Upload(Seq<char>, Seq<u8>),
}

impl View for DataJob {
    type V = JobV;

    open spec fn view(&self) -> JobV {
        match self {
            DataJob::Establish => JobV::Establish,
            DataJob::List => JobV::List,
            DataJob::Download { filename } => JobV::Download(filename@),
            DataJob::Upload { filename, data } => JobV::Upload(filename@, data@),
        }
    }
}

/// Where the engine stands inside the one outstanding operation. The
/// control channel never pipelines: a new operation may start only from
/// `Idle`, and each phase awaits exactly one kind of event.
pub enum Phase {
    /// No operation outstanding.
    Idle,
    /// Awaiting the server's unsolicited greeting, read before USER.
    Greeting { username: String, password: String },
    /// Awaiting the reply to USER.
    UserSent { password: String },
    /// Awaiting the reply to PASS.
    PassSent,
    /// Awaiting the reply to a one-shot command.
    SimpleSent,
    /// Awaiting the reply to SIZE.
    SizeSent,
    /// Awaiting the reply to PASV.
    PasvSent { job: DataJob },
    /// Awaiting the data connection to open.
    Opening { job: DataJob },
    /// Awaiting the reply to the transfer command.
    TransferSent { job: DataJob },
    /// Awaiting the bytes drained from the data socket.
    DrainingBytes,
    /// Awaiting the text drained from the data socket.
    DrainingText,
    /// Awaiting completion of the payload write.
    Writing,
    /// Awaiting the final status line, carrying any payload already in
    /// hand.
    FinalReply { pending: Pending },
}

/// Mathematical model of a phase.
pub enum PhaseV {
    Idle,
    Greeting { username: Seq<char>, password: Seq<char> },
    UserSent { password: Seq<char> },
    PassSent,
    SimpleSent,
    SizeSent,
    PasvSent { job: JobV },
    Opening { job: JobV },
    TransferSent { job: JobV },
    DrainingBytes,
    DrainingText,
    Writing,
    FinalReply { pending: PendingV },
}

impl View for Phase {
    type V = PhaseV;

    open spec fn view(&self) -> PhaseV {
        match self {
            Phase::Idle => PhaseV::Idle,
            Phase::Greeting { username, password } => PhaseV::Greeting {
                username: username@,
                password: password@,
            },
            Phase::UserSent { password } => PhaseV::UserSent { password: password@ },
            Phase::PassSent => PhaseV::PassSent,
            Phase::SimpleSent => PhaseV::SimpleSent,
            Phase::SizeSent => PhaseV::SizeSent,
            Phase::PasvSent { job } => PhaseV::PasvSent { job: job@ },
            Phase::Opening { job } => PhaseV::Opening { job: job@ },
            Phase::TransferSent { job } => PhaseV::TransferSent { job: job@ },
            Phase::DrainingBytes => PhaseV::DrainingBytes,
            Phase::DrainingText => PhaseV::DrainingText,
            Phase::Writing => PhaseV::Writing,
            Phase::FinalReply { pending } => PhaseV::FinalReply { pending: pending@ },
        }
    }
}

/// An FTP session's command state. The sockets live with the caller; the
/// engine only decides, and every mutation goes through [`Connection::step`]
/// or one of the operation starters.
pub struct Connection {
    host: String,
    mode: ConnectionType,
    phase: Phase,
}

/// Mathematical model of a connection.
pub struct ConnectionV {
    pub host: Seq<char>,
    pub mode: ConnectionType,
    pub phase: PhaseV,
}

impl View for Connection {
    type V = ConnectionV;

    closed spec fn view(&self) -> ConnectionV {
        ConnectionV { host: self.host@, mode: self.mode, phase: self.phase@ }
    }
}

/// The kind of event a phase awaits.
#[derive(Clone, Copy, PartialEq, Eq, Structural)]
pub enum Awaiting {
    Nothing,
    Line,
    Opened,
    Data,
    Text,
    Written,
}

/// The kind of event each phase awaits.
pub open spec fn awaits(p: PhaseV) -> Awaiting {
    match p {
        PhaseV::Idle => Awaiting::Nothing,
        PhaseV::Greeting { .. } => Awaiting::Line,
        PhaseV::UserSent { .. } => Awaiting::Line,
        PhaseV::PassSent => Awaiting::Line,
        PhaseV::SimpleSent => Awaiting::Line,
        PhaseV::SizeSent => Awaiting::Line,
        PhaseV::PasvSent { .. } => Awaiting::Line,
        PhaseV::Opening { .. } => Awaiting::Opened,
        PhaseV::TransferSent { .. } => Awaiting::Line,
        PhaseV::DrainingBytes => Awaiting::Data,
        PhaseV::DrainingText => Awaiting::Text,
        PhaseV::Writing => Awaiting::Written,
        PhaseV::FinalReply { .. } => Awaiting::Line,
    }
}

/// Whether `ev` is an event the phase awaits; a transport failure can
/// arrive during any outstanding operation.
pub open spec fn awaits_event(p: PhaseV, ev: EventV) -> bool {
    match ev {
        EventV::Line(_) => awaits(p) == Awaiting::Line,
        EventV::Opened => awaits(p) == Awaiting::Opened,
        EventV::Data(_) => awaits(p) == Awaiting::Data,
        EventV::Text(_) => awaits(p) == Awaiting::Text,
        EventV::Written => awaits(p) == Awaiting::Written,
        EventV::Transport(_) => awaits(p) != Awaiting::Nothing,
    }
}

/// The connection with another phase.
pub open spec fn with_phase(c: ConnectionV, p: PhaseV) -> ConnectionV {
    ConnectionV { phase: p, ..c }
}

/// A failed operation: back to idle, reporting the error.
pub open spec fn fail_step(c: ConnectionV, e: ErrorV) -> (ConnectionV, ActionV) {
    (with_phase(c, PhaseV::Idle), ActionV::Fail(e))
}

/// A finished operation: back to idle, reporting the outcome.
pub open spec fn done_step(c: ConnectionV, o: OutcomeV) -> (ConnectionV, ActionV) {
    (with_phase(c, PhaseV::Idle), ActionV::Done(o))
}

/// Model of starting a login: the unsolicited greeting is read first,
/// with no command issued, so that USER's reply is not misattributed.
pub open spec fn login_start_sp(c: ConnectionV, username: Seq<char>, password: Seq<char>) -> (
    ConnectionV,
    ActionV,
) {
    (with_phase(c, PhaseV::Greeting { username, password }), ActionV::ReadReply)
}

/// Model of starting a one-shot command: its line is written and exactly
/// one reply awaited.
pub open spec fn command_start_sp(c: ConnectionV, cmd: Seq<char>, args: Seq<Seq<char>>) -> (
    ConnectionV,
    ActionV,
) {
    (with_phase(c, PhaseV::SimpleSent), ActionV::Exchange(command_line_sp(cmd, args)))
}

/// Model of starting a SIZE query.
pub open spec fn size_start_sp(c: ConnectionV, filename: Seq<char>) -> (ConnectionV, ActionV) {
    (
        with_phase(c, PhaseV::SizeSent),
        ActionV::Exchange(command_line_sp("SIZE"@, seq![filename])),
    )
}

/// Model of starting a data-connection operation: in passive mode PASV
/// is issued; in active mode the operation fails deterministically, the
/// active variant being recognized but unimplemented.
pub open spec fn start_data_sp(c: ConnectionV, job: JobV) -> (ConnectionV, ActionV) {
    match c.mode {
        ConnectionType::Passive => (
            with_phase(c, PhaseV::PasvSent { job }),
            ActionV::Exchange(command_line_sp("PASV"@, Seq::empty())),
        ),
        ConnectionType::Active => (c, ActionV::Fail(ErrorV::InvalidData)),
    }
}

/// The transfer command opening each job's data phase.
pub open spec fn job_command_sp(job: JobV) -> Seq<char> {
    match job {
        JobV::Establish => Seq::empty(),
        JobV::List => command_line_sp("NLST"@, Seq::empty()),
        JobV::Download(filename) => command_line_sp("RETR"@, seq![filename]),
        JobV::Upload(filename, _) => command_line_sp("STOR"@, seq![filename]),
    }
}

/// Model of one reply line arriving.
pub open spec fn line_step_sp(c: ConnectionV, l: Seq<char>) -> (ConnectionV, ActionV) {
    match parse_reply_sp(l) {
        Err(e) => fail_step(c, e),
        Ok(r) => match c.phase {
            PhaseV::Greeting { username, password } => (
                with_phase(c, PhaseV::UserSent { password }),
                ActionV::Exchange(command_line_sp("USER"@, seq![username])),
            ),
            PhaseV::UserSent { password } => (
                with_phase(c, PhaseV::PassSent),
                ActionV::Exchange(command_line_sp("PASS"@, seq![password])),
            ),
            PhaseV::PassSent => done_step(c, OutcomeV::Reply(r)),
            PhaseV::SimpleSent => done_step(c, OutcomeV::Reply(r)),
            PhaseV::SizeSent => match size_sp(r.text) {
                Ok(n) => done_step(c, OutcomeV::Size(n)),
                Err(e) => fail_step(c, e),
            },
            PhaseV::PasvSent { job } => if is_passive_code(r.code) {
                match passive_target_sp(r.text) {
                    Ok(t) => (
                        with_phase(c, PhaseV::Opening { job }),
                        ActionV::OpenData(t.0, t.1),
                    ),
                    Err(e) => fail_step(c, e),
                }
            } else {
                fail_step(c, ErrorV::NegativeReturnCode(r))
            },
            PhaseV::TransferSent { job } => match job {
                JobV::Establish => done_step(c, OutcomeV::Established),
                JobV::List => (with_phase(c, PhaseV::DrainingText), ActionV::ReadText),
                JobV::Download(_) => (with_phase(c, PhaseV::DrainingBytes), ActionV::ReadData),
                JobV::Upload(_, data) => (
                    with_phase(c, PhaseV::Writing),
                    ActionV::WriteData(data),
                ),
            },
            PhaseV::FinalReply { pending } => match pending {
                PendingV::Names(ns) => done_step(c, OutcomeV::Names(ns, r)),
                PendingV::Bytes(bs) => done_step(c, OutcomeV::Bytes(bs, r)),
                PendingV::Reply => done_step(c, OutcomeV::Reply(r)),
            },
            _ => fail_step(c, ErrorV::InvalidData),
        },
    }
}

/// Model of the data connection having opened: an establish-only job
/// finishes here; a transfer job issues its command.
pub open spec fn opened_step_sp(c: ConnectionV, job: JobV) -> (ConnectionV, ActionV) {
    match job {
        JobV::Establish => done_step(c, OutcomeV::Established),
        _ => (
            with_phase(c, PhaseV::TransferSent { job }),
            ActionV::Exchange(job_command_sp(job)),
        ),
    }
}

/// One transition of the engine: the successor state and the requested
/// action when `ev` arrives at `c`. For an event the phase does not
/// await — which [`Connection::step`] rules out — the operation merely
/// fails.
pub open spec fn step_sp(c: ConnectionV, ev: EventV) -> (ConnectionV, ActionV) {
    match ev {
        EventV::Transport(m) => fail_step(c, ErrorV::IOError(m)),
        EventV::Line(l) => if awaits(c.phase) == Awaiting::Line {
            line_step_sp(c, l)
        } else {
            fail_step(c, ErrorV::InvalidData)
        },
        EventV::Opened => match c.phase {
            PhaseV::Opening { job } => opened_step_sp(c, job),
            _ => fail_step(c, ErrorV::InvalidData),
        },
        EventV::Data(b) => match c.phase {
            PhaseV::DrainingBytes => (
                with_phase(c, PhaseV::FinalReply { pending: PendingV::Bytes(b) }),
                ActionV::ReadReply,
            ),
            _ => fail_step(c, ErrorV::InvalidData),
        },
        EventV::Text(t) => match c.phase {
            PhaseV::DrainingText => (
                with_phase(
                    c,
                    PhaseV::FinalReply { pending: PendingV::Names(listing_sp(t)) },
                ),
                ActionV::ReadReply,
            ),
            _ => fail_step(c, ErrorV::InvalidData),
        },
        EventV::Written => match c.phase {
            PhaseV::Writing => (
                with_phase(c, PhaseV::FinalReply { pending: PendingV::Reply }),
                ActionV::ReadReply,
            ),
            _ => fail_step(c, ErrorV::InvalidData),
        },
    }
}

impl Connection {
    /// A fresh session state for the given host. The control socket is
    /// the caller's to open; no command may be issued before it is.
    pub fn new(hostname: &str, connection_type: ConnectionType) -> (c: Connection)
        ensures
            c@.host == hostname@,
            c@.mode == connection_type,
            c@.phase is Idle,
    {
        Connection { host: hostname.to_owned(), mode: connection_type, phase: Phase::Idle }
    }

    /// The host this session was created for.
    pub fn hostname(&self) -> (r: &str)
        ensures
            r@ == self@.host,
    {
        self.host.as_str()
    }

    /// The data-connection mode fixed at construction.
    pub fn connection_mode(&self) -> (r: ConnectionType)
        ensures
            r == self@.mode,
    {
        self.mode
    }

    /// The kind of event the engine is awaiting; `Nothing` means a new
    /// operation may start.
    pub fn awaiting(&self) -> (r: Awaiting)
        ensures
            r == awaits(self@.phase),
    {
        match &self.phase {
            Phase::Idle => Awaiting::Nothing,
            Phase::Greeting { .. } => Awaiting::Line,
            Phase::UserSent { .. } => Awaiting::Line,
            Phase::PassSent => Awaiting::Line,
            Phase::SimpleSent => Awaiting::Line,
            Phase::SizeSent => Awaiting::Line,
            Phase::PasvSent { .. } => Awaiting::Line,
            Phase::Opening { .. } => Awaiting::Opened,
            Phase::TransferSent { .. } => Awaiting::Line,
            Phase::DrainingBytes => Awaiting::Data,
            Phase::DrainingText => Awaiting::Text,
            Phase::Writing => Awaiting::Written,
            Phase::FinalReply { .. } => Awaiting::Line,
        }
    }

    /// Starts the login sequence: first drain the unsolicited greeting,
    /// then USER, then PASS, whose classified reply is the outcome.
    pub fn login(&mut self, username: &str, password: &str) -> (a: Action)
        requires
            old(self)@.phase is Idle,
        ensures
            (final(self)@, a@) == login_start_sp(old(self)@, username@, password@),
    {
        self.phase = Phase::Greeting {
            username: username.to_owned(),
            password: password.to_owned(),
        };
        Action::ReadReply
    }

    /// Starts a one-shot command: writes its single line and awaits one
    /// classified reply.
    pub fn issue_command(&mut self, command: &str, arguments: &Vec<String>) -> (a: Action)
        requires
            old(self)@.phase is Idle,
        ensures
            (final(self)@, a@) == command_start_sp(old(self)@, command@, arguments.deep_view()),
    {
        let line = command_line(command, arguments);
        self.phase = Phase::SimpleSent;
        Action::Exchange(line)
    }

    /// Starts QUIT; the caller closes the sockets afterwards regardless
    /// of the reply.
    pub fn close(&mut self) -> (a: Action)
        requires
            old(self)@.phase is Idle,
        ensures
            (final(self)@, a@) == command_start_sp(old(self)@, "QUIT"@, Seq::empty()),
    {
        let args: Vec<String> = Vec::new();
        let a = self.issue_command("QUIT", &args);
        proof {
            assert(args.deep_view() =~~= Seq::<Seq<char>>::empty());
        }
        a
    }

    /// Starts DELE for the given remote file.
    pub fn delete(&mut self, filename: &str) -> (a: Action)
        requires
            old(self)@.phase is Idle,
        ensures
            (final(self)@, a@) == command_start_sp(old(self)@, "DELE"@, seq![filename@]),
    {
        self.one_arg_command("DELE", filename)
    }

    /// Starts MKD for the given remote directory.
    pub fn make_directory(&mut self, pathname: &str) -> (a: Action)
        requires
            old(self)@.phase is Idle,
        ensures
            (final(self)@, a@) == command_start_sp(old(self)@, "MKD"@, seq![pathname@]),
    {
        self.one_arg_command("MKD", pathname)
    }

    /// Starts CWD to the given remote directory.
    pub fn change_directory(&mut self, pathname: &str) -> (a: Action)
        requires
            old(self)@.phase is Idle,
        ensures
            (final(self)@, a@) == command_start_sp(old(self)@, "CWD"@, seq![pathname@]),
    {
        self.one_arg_command("CWD", pathname)
    }

    /// Starts RMD for the given remote directory.
    pub fn remove_directory(&mut self, pathname: &str) -> (a: Action)
        requires
            old(self)@.phase is Idle,
        ensures
            (final(self)@, a@) == command_start_sp(old(self)@, "RMD"@, seq![pathname@]),
    {
        self.one_arg_command("RMD", pathname)
    }

    /// Starts CDUP.
    pub fn go_to_parent(&mut self) -> (a: Action)
        requires
            old(self)@.phase is Idle,
        ensures
            (final(self)@, a@) == command_start_sp(old(self)@, "CDUP"@, Seq::empty()),
    {
        let args: Vec<String> = Vec::new();
        let a = self.issue_command("CDUP", &args);
        proof {
            assert(args.deep_view() =~~= Seq::<Seq<char>>::empty());
        }
        a
    }

    /// Starts TYPE with the mode's code letter.
    pub fn set_transfer_mode(&mut self, mode: TransferMode) -> (a: Action)
        requires
            old(self)@.phase is Idle,
        ensures
            (final(self)@, a@) == command_start_sp(old(self)@, "TYPE"@, seq![mode_code_sp(mode)]),
    {
        self.one_arg_command("TYPE", mode_code(mode))
    }

    /// Starts SIZE; a positive reply's text is read as the byte count.
    pub fn get_remote_size(&mut self, filename: &str) -> (a: Action)
        requires
            old(self)@.phase is Idle,
        ensures
            (final(self)@, a@) == size_start_sp(old(self)@, filename@),
    {
        let mut args: Vec<String> = Vec::new();
        args.push(filename.to_owned());
        let line = command_line("SIZE", &args);
        self.phase = Phase::SizeSent;
        proof {
            assert(args.deep_view() =~~= seq![filename@]);
        }
        Action::Exchange(line)
    }

    /// Starts establishing a data connection that is handed to the
    /// caller once open.
    pub fn establish_data_connection(&mut self) -> (a: Action)
        requires
            old(self)@.phase is Idle,
        ensures
            (final(self)@, a@) == start_data_sp(old(self)@, JobV::Establish),
    {
        self.start_data(DataJob::Establish)
    }

    /// Starts a directory listing: a data connection, NLST, the drained
    /// text split into entries, and the final status.
    pub fn get_directory_listing(&mut self) -> (a: Action)
        requires
            old(self)@.phase is Idle,
        ensures
            (final(self)@, a@) == start_data_sp(old(self)@, JobV::List),
    {
        self.start_data(DataJob::List)
    }

    /// Starts a download: a data connection, RETR, the drained bytes,
    /// and the final status.
    pub fn receive_file(&mut self, filename: &str) -> (a: Action)
        requires
            old(self)@.phase is Idle,
        ensures
            (final(self)@, a@) == start_data_sp(old(self)@, JobV::Download(filename@)),
    {
        self.start_data(DataJob::Download { filename: filename.to_owned() })
    }

    /// Starts an upload: a data connection, STOR, the payload written to
    /// the data socket, and the final status as the outcome.
    pub fn upload_file(&mut self, data: &[u8], filename: &str) -> (a: Action)
        requires
            old(self)@.phase is Idle,
        ensures
            (final(self)@, a@) == start_data_sp(old(self)@, JobV::Upload(filename@, data@)),
    {
        self.start_data(
            DataJob::Upload { filename: filename.to_owned(), data: slice_to_vec(data) },
        )
    }

    /// Starts a one-shot command with a single argument.
    fn one_arg_command(&mut self, command: &str, argument: &str) -> (a: Action)
        requires
            old(self)@.phase is Idle,
        ensures
            (final(self)@, a@) == command_start_sp(old(self)@, command@, seq![argument@]),
    {
        let mut args: Vec<String> = Vec::new();
        args.push(argument.to_owned());
        let a = self.issue_command(command, &args);
        proof {
            assert(args.deep_view() =~~= seq![argument@]);
        }
        a
    }

    /// Starts whichever operation needs a data connection.
    fn start_data(&mut self, job: DataJob) -> (a: Action)
        requires
            old(self)@.phase is Idle,
        ensures
            (final(self)@, a@) == start_data_sp(old(self)@, job@),
    {
        match self.mode {
            ConnectionType::Passive => {
                let args: Vec<String> = Vec::new();
                let line = command_line("PASV", &args);
                self.phase = Phase::PasvSent { job };
                proof {
                    assert(args.deep_view() =~~= Seq::<Seq<char>>::empty());
                }
                Action::Exchange(line)
            },
            ConnectionType::Active => Action::Fail(Error::InvalidData),
        }
    }

    /// Feeds back the event for the last requested action and returns
    /// the next one. Requires an outstanding operation awaiting exactly
    /// this kind of event: the control channel never interleaves
    /// operations.
    pub fn step(&mut self, event: Event) -> (a: Action)
        requires
            awaits_event(old(self)@.phase, event@),
        ensures
            (final(self)@, a@) == step_sp(old(self)@, event@),
            final(self)@.host == old(self)@.host,
            final(self)@.mode == old(self)@.mode,
    {
        let mut phase = Phase::Idle;
        core::mem::swap(&mut phase, &mut self.phase);
        match event {
            Event::Transport(m) => Action::Fail(Error::IOError { message: m }),
            Event::Line(l) => self.on_line(phase, l),
            Event::Opened => match phase {
                Phase::Opening { job } => self.on_opened(job),
                _ => Action::Fail(Error::InvalidData),
            },
            Event::Data(b) => {
                self.phase = Phase::FinalReply { pending: Pending::Bytes(b) };
                Action::ReadReply
            },
            Event::Text(t) => {
                let names = parse_listing(t.as_str());
                self.phase = Phase::FinalReply { pending: Pending::Names(names) };
                Action::ReadReply
            },
            Event::Written => {
                self.phase = Phase::FinalReply { pending: Pending::Reply };
                Action::ReadReply
            },
        }
    }

    /// Handles one classified reply line for the phase that awaited it.
    fn on_line(&mut self, phase: Phase, line: String) -> (a: Action)
        requires
            old(self)@.phase is Idle,
            awaits(phase@) == Awaiting::Line,
        ensures
            (final(self)@, a@) == line_step_sp(
                with_phase(old(self)@, phase@),
                line@,
            ),
    {
        let ghost pv = phase@;
        let reply = match parse_server_response(line.as_str()) {
            Ok(r) => r,
            Err(e) => {
                return Action::Fail(e);
            },
        };
        match phase {
            Phase::Greeting { username, password } => {
                let mut args: Vec<String> = Vec::new();
                args.push(username);
                let user_line = command_line("USER", &args);
                self.phase = Phase::UserSent { password };
                proof {
                    assert(args.deep_view() =~~= seq![pv->Greeting_username]);
                }
                Action::Exchange(user_line)
            },
            Phase::UserSent { password } => {
                let mut args: Vec<String> = Vec::new();
                args.push(password);
                let pass_line = command_line("PASS", &args);
                self.phase = Phase::PassSent;
                proof {
                    assert(args.deep_view() =~~= seq![pv->UserSent_password]);
                }
                Action::Exchange(pass_line)
            },
            Phase::PassSent => Action::Done(Outcome::Reply(reply)),
            Phase::SimpleSent => Action::Done(Outcome::Reply(reply)),
            Phase::SizeSent => match parse_size(reply.1.as_str()) {
                Ok(n) => Action::Done(Outcome::Size(n)),
                Err(e) => Action::Fail(e),
            },
            Phase::PasvSent { job } => {
                if starts_passive(reply.0.as_str()) {
                    match resolve_passive(reply.1.as_str()) {
                        Ok(t) => {
                            self.phase = Phase::Opening { job };
                            Action::OpenData(t.0, t.1)
                        },
                        Err(e) => Action::Fail(e),
                    }
                } else {
                    Action::Fail(Error::NegativeReturnCode { response: reply })
                }
            },
            Phase::TransferSent { job } => match job {
                DataJob::Establish => Action::Done(Outcome::Established),
                DataJob::List => {
                    self.phase = Phase::DrainingText;
                    Action::ReadText
                },
                DataJob::Download { .. } => {
                    self.phase = Phase::DrainingBytes;
                    Action::ReadData
                },
                DataJob::Upload { data, .. } => {
                    self.phase = Phase::Writing;
                    Action::WriteData(data)
                },
            },
            Phase::FinalReply { pending } => match pending {
                Pending::Names(ns) => Action::Done(Outcome::Names(ns, reply)),
                Pending::Bytes(bs) => Action::Done(Outcome::Bytes(bs, reply)),
                Pending::Reply => Action::Done(Outcome::Reply(reply)),
            },
            _ => Action::Fail(Error::InvalidData),
        }
    }

    /// Handles the data connection having opened.
    fn on_opened(&mut self, job: DataJob) -> (a: Action)
        requires
            old(self)@.phase is Idle,
        ensures
            (final(self)@, a@) == opened_step_sp(
                with_phase(old(self)@, PhaseV::Opening { job: job@ }),
                job@,
            ),
    {
        match job {
            DataJob::Establish => Action::Done(Outcome::Established),
            DataJob::List => {
                let args: Vec<String> = Vec::new();
                let line = command_line("NLST", &args);
                self.phase = Phase::TransferSent { job: DataJob::List };
                proof {
                    assert(args.deep_view() =~~= Seq::<Seq<char>>::empty());
                }
                Action::Exchange(line)
            },
            DataJob::Download { filename } => {
                let mut args: Vec<String> = Vec::new();
                args.push(filename.clone());
                let line = command_line("RETR", &args);
                proof {
                    assert(args.deep_view() =~~= seq![filename@]);
                }
                self.phase = Phase::TransferSent { job: DataJob::Download { filename } };
                Action::Exchange(line)
            },
            DataJob::Upload { filename, data } => {
                let mut args: Vec<String> = Vec::new();
                args.push(filename.clone());
                let line = command_line("STOR", &args);
                proof {
                    assert(args.deep_view() =~~= seq![filename@]);
                }
                self.phase = Phase::TransferSent { job: DataJob::Upload { filename, data } };
                Action::Exchange(line)
            },
        }
    }
}

} // verus!
