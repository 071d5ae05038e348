use vstd::prelude::*;

use crate::auth::{auth_outcome, decode_auth, perform_password_auth, AuthError, UserConfig};
use crate::consts::{
    AUTH_FAILURE, AUTH_VERSION, CMD_CONNECT, METHOD_NO_ACCEPTABLE, METHOD_NO_AUTH, METHOD_PASSWORD,
    SOCKS_VERSION,
};
use crate::protocol::{
    decode_greeting, decode_request, encode_method_selection, encode_reply, method_frame,
    reply_frame, select_method, select_method_spec, Proxy, ProtocolError, ReplyCode,
    SocksRequest, SocksRequestView,
};

verus! {

/// Where a session stands in the handshake.
#[derive(Clone, Copy, Debug, PartialEq, Eq, Structural)]
pub enum Phase {
    /// Waiting for the client greeting.
    Greeting,
    /// Username/password was selected; waiting for the auth request.
    Auth,
    /// Waiting for the connection request.
    Request,
    /// The target is being connected to.
    Connecting,
    /// Bytes are being relayed between client and target.
    Relaying,
    /// The session is over; nothing more is read or written.
    Closed,
}

/// How the attempt to connect to the target ended.
#[derive(Clone, Copy, Debug, PartialEq, Eq, Structural)]
pub enum ConnectOutcome {
    Connected,
    /// The configured connect timeout elapsed.
    TimedOut,
    /// The target refused the connection.
    Refused,
    /// Permission or policy denied the connection.
    NotAllowed,
    /// Any other failure to connect.
    Failed,
}

/// Why a session ended before relaying.
#[derive(Clone, Copy, Debug, PartialEq, Eq, Structural)]
pub enum SessionError {
    Protocol(ProtocolError),
    /// The client offered no acceptable method.
    NoAcceptableMethod,
    Auth(AuthError),
    /// The request's command is not CONNECT.
    CommandNotSupported,
    /// The target could not be connected to.
    Connect(ConnectOutcome),
}

/// What the caller does after a step.
#[derive(Debug)]
pub enum Next {
    /// Read more bytes and call again with them appended.
    NeedMore,
    /// Call again with the remaining bytes.
    Proceed,
    /// Connect to the request's target and report the outcome.
    Connect(SocksRequest),
    /// Relay bytes between client and target until either side closes.
    Relay,
    /// Close the connection.
    Close(SessionError),
}

/// The mathematical value of a [`Next`].
pub enum NextView {
    NeedMore,
    Proceed,
    Connect(SocksRequestView),
    Relay,
    Close(SessionError),
}

impl View for Next {
    type V = NextView;

    open spec fn view(&self) -> NextView {
        match self {
            Next::NeedMore => NextView::NeedMore,
            Next::Proceed => NextView::Proceed,
            Next::Connect(r) => NextView::Connect(r@),
            Next::Relay => NextView::Relay,
            Next::Close(e) => NextView::Close(*e),
        }
    }
}

/// One step of a session: how many input bytes it took, the frame to write
/// (empty when none), and what comes next.
#[derive(Debug)]
pub struct Step {
    pub consumed: usize,
    pub reply: Vec<u8>,
    pub next: Next,
}

/// The mathematical value of a [`Step`].
pub struct StepView {
    pub consumed: nat,
    pub reply: Seq<u8>,
    pub next: NextView,
}

impl View for Step {
    type V = StepView;

    open spec fn view(&self) -> StepView {
        StepView { consumed: self.consumed as nat, reply: self.reply@, next: self.next@ }
    }
}

/// A step that reads and writes nothing.
pub open spec fn quiet(next: NextView) -> StepView {
    StepView { consumed: 0, reply: Seq::empty(), next }
}

/// A frame that is not complete yet: wait for more bytes, or, at the end of
/// the stream, close with `e`.
pub open spec fn wait_or_close(phase: Phase, at_eof: bool, e: SessionError) -> (Phase, StepView) {
    if at_eof {
        (Phase::Closed, quiet(NextView::Close(e)))
    } else {
        (phase, quiet(NextView::NeedMore))
    }
}

/// The greeting stage on the bytes `b`.
pub open spec fn greeting_step(has_credentials: bool, b: Seq<u8>, at_eof: bool) -> (
    Phase,
    StepView,
) {
    match decode_greeting(b) {
        Err(ProtocolError::Truncated) => wait_or_close(
            Phase::Greeting,
            at_eof,
            SessionError::Protocol(ProtocolError::Truncated),
        ),
        Err(e) => (Phase::Closed, quiet(NextView::Close(SessionError::Protocol(e)))),
        Ok((methods, n)) => {
            let m = select_method_spec(has_credentials, methods);
            let reply = method_frame(m);
            if m == METHOD_NO_ACCEPTABLE {
                (
                    Phase::Closed,
                    StepView {
                        consumed: n,
                        reply,
                        next: NextView::Close(SessionError::NoAcceptableMethod),
                    },
                )
            } else if m == METHOD_PASSWORD {
                (Phase::Auth, StepView { consumed: n, reply, next: NextView::Proceed })
            } else {
                (Phase::Request, StepView { consumed: n, reply, next: NextView::Proceed })
            }
        },
    }
}

/// The sub-negotiation stage on the bytes `b`, against `name` and `pass`.
pub open spec fn auth_step(name: Seq<u8>, pass: Seq<u8>, b: Seq<u8>, at_eof: bool) -> (
    Phase,
    StepView,
) {
    let (n, reply, result) = auth_outcome(b, name, pass);
    match result {
        Ok(()) => (Phase::Request, StepView { consumed: n, reply, next: NextView::Proceed }),
        Err(AuthError::Truncated) => wait_or_close(
            Phase::Auth,
            at_eof,
            SessionError::Auth(AuthError::Truncated),
        ),
        Err(e) => (
            Phase::Closed,
            StepView { consumed: n, reply, next: NextView::Close(SessionError::Auth(e)) },
        ),
    }
}

/// The request stage on the bytes `b`.
pub open spec fn request_step(b: Seq<u8>, at_eof: bool) -> (Phase, StepView) {
    match decode_request(b) {
        Err(ProtocolError::Truncated) => wait_or_close(
            Phase::Request,
            at_eof,
            SessionError::Protocol(ProtocolError::Truncated),
        ),
        Err(ProtocolError::UnknownAddressType) => (
            Phase::Closed,
            StepView {
                consumed: 0,
                reply: reply_frame(ReplyCode::AddressTypeNotSupported),
                next: NextView::Close(SessionError::Protocol(ProtocolError::UnknownAddressType)),
            },
        ),
        Err(e) => (Phase::Closed, quiet(NextView::Close(SessionError::Protocol(e)))),
        Ok((r, n)) => if r.cmd != CMD_CONNECT {
            (
                Phase::Closed,
                StepView {
                    consumed: n,
                    reply: reply_frame(ReplyCode::CommandNotSupported),
                    next: NextView::Close(SessionError::CommandNotSupported),
                },
            )
        } else {
            (Phase::Connecting, StepView { consumed: n, reply: Seq::empty(), next: NextView::Connect(r) })
        },
    }
}

/// The reply code that reports a connect outcome.
pub open spec fn connect_reply_code(outcome: ConnectOutcome) -> ReplyCode {
    match outcome {
        ConnectOutcome::Connected => ReplyCode::Success,
        ConnectOutcome::TimedOut => ReplyCode::TtlExpired,
        ConnectOutcome::Refused => ReplyCode::ConnectionRefused,
        ConnectOutcome::NotAllowed => ReplyCode::ConnectionNotAllowed,
        ConnectOutcome::Failed => ReplyCode::HostUnreachable,
    }
}

/// The connecting stage once its outcome is known.
pub open spec fn connect_step(outcome: ConnectOutcome) -> (Phase, StepView) {
    let reply = reply_frame(connect_reply_code(outcome));
    if outcome == ConnectOutcome::Connected {
        (Phase::Relaying, StepView { consumed: 0, reply, next: NextView::Relay })
    } else {
        (
            Phase::Closed,
            StepView { consumed: 0, reply, next: NextView::Close(SessionError::Connect(outcome)) },
        )
    }
}

/// One connection's handshake, driven by the bytes the client sends and the
/// outcome of connecting to the target. It does no I/O itself: each step says
/// what to write and what to do next.
pub struct Session {
    phase: Phase,
    user: Option<UserConfig>,
}

/// The username and password bytes of a configured user.
pub open spec fn credentials_of(user: Option<UserConfig>) -> Option<(Seq<u8>, Seq<u8>)> {
    match user {
        Some(u) => Some((u.name_bytes(), u.pass_bytes())),
        None => None,
    }
}

/// The mathematical value of a [`Session`]: its phase and, when authentication
/// is configured, the username and password bytes.
pub struct SessionView {
    pub phase: Phase,
    pub credentials: Option<(Seq<u8>, Seq<u8>)>,
}

impl View for Session {
    type V = SessionView;

    closed spec fn view(&self) -> SessionView {
        SessionView { phase: self.phase, credentials: credentials_of(self.user) }
    }
}

impl SessionView {
    /// The session waits for client bytes.
    pub open spec fn reads_input(self) -> bool {
        self.phase == Phase::Greeting || (self.phase == Phase::Auth && self.credentials is Some)
            || self.phase == Phase::Request
    }

    /// The next phase and step when the bytes `b` have arrived, `at_eof`
    /// telling whether the client has closed its side.
    pub open spec fn input_step(self, b: Seq<u8>, at_eof: bool) -> (Phase, StepView)
        recommends
            self.reads_input(),
    {
        match self.phase {
            Phase::Greeting => greeting_step(self.credentials is Some, b, at_eof),
            Phase::Auth => auth_step(
                self.credentials->Some_0.0,
                self.credentials->Some_0.1,
                b,
                at_eof,
            ),
            _ => request_step(b, at_eof),
        }
    }
}

impl Session {
    /// A session that has read nothing yet, with authentication required
    /// exactly when `user` is given.
    pub fn new(user: Option<UserConfig>) -> (r: Session)
        ensures
            r@.phase == Phase::Greeting,
            r@.credentials == credentials_of(user),
    {
        Session { phase: Phase::Greeting, user }
    }

    /// The current phase.
    pub fn phase(&self) -> (r: Phase)
        ensures
            r == self@.phase,
    {
        self.phase
    }

    /// Whether the session waits for client bytes, so that
    /// [`Session::on_input`] may be called.
    pub fn reads_input(&self) -> (r: bool)
        ensures
            r == self@.reads_input(),
    {
        match self.phase {
            Phase::Greeting => true,
            Phase::Auth => self.user.is_some(),
            Phase::Request => true,
            _ => false,
        }
    }

    /// Handles the client bytes `input` that have arrived and not been
    /// consumed yet; `at_eof` says that no more will come.
    pub fn on_input(&mut self, input: &[u8], at_eof: bool) -> (r: Step)
        requires
            old(self)@.reads_input(),
        ensures
            (final(self)@.phase, r@) == old(self)@.input_step(input@, at_eof),
            final(self)@.credentials == old(self)@.credentials,
            r.consumed <= input@.len(),
    {
        match self.phase {
            Phase::Greeting => self.on_greeting(input, at_eof),
            Phase::Auth => self.on_auth(input, at_eof),
            _ => self.on_request(input, at_eof),
        }
    }

    fn close(&mut self, e: SessionError) -> (r: Step)
        ensures
            final(self).phase == Phase::Closed,
            final(self).user == old(self).user,
            r@ == quiet(NextView::Close(e)),
    {
        self.phase = Phase::Closed;
        Step { consumed: 0, reply: Vec::new(), next: Next::Close(e) }
    }

    fn wait_or_close(&mut self, at_eof: bool, e: SessionError) -> (r: Step)
        ensures
            (final(self).phase, r@) == wait_or_close(old(self).phase, at_eof, e),
            final(self).user == old(self).user,
    {
        if at_eof {
            self.close(e)
        } else {
            Step { consumed: 0, reply: Vec::new(), next: Next::NeedMore }
        }
    }

    fn on_greeting(&mut self, input: &[u8], at_eof: bool) -> (r: Step)
        requires
            old(self).phase == Phase::Greeting,
        ensures
            (final(self).phase, r@) == greeting_step(old(self).user is Some, input@, at_eof),
            final(self).user == old(self).user,
            r.consumed <= input@.len(),
    {
        match Proxy::read_from(input) {
            Err(ProtocolError::Truncated) => self.wait_or_close(
                at_eof,
                SessionError::Protocol(ProtocolError::Truncated),
            ),
            Err(e) => self.close(SessionError::Protocol(e)),
            Ok((greeting, n)) => {
                let m = select_method(self.user.is_some(), &greeting.methods);
                let reply = encode_method_selection(m);
                if m == METHOD_NO_ACCEPTABLE {
                    self.phase = Phase::Closed;
                    Step { consumed: n, reply, next: Next::Close(SessionError::NoAcceptableMethod) }
                } else {
                    if m == METHOD_PASSWORD {
                        self.phase = Phase::Auth;
                    } else {
                        self.phase = Phase::Request;
                    }
                    Step { consumed: n, reply, next: Next::Proceed }
                }
            },
        }
    }

    fn on_auth(&mut self, input: &[u8], at_eof: bool) -> (r: Step)
        requires
            old(self).phase == Phase::Auth,
            old(self).user is Some,
        ensures
            (final(self)@.phase, r@) == old(self)@.input_step(input@, at_eof),
            final(self).user == old(self).user,
            r.consumed <= input@.len(),
    {
        let outcome = perform_password_auth(input, self.user.as_ref().unwrap());
        match outcome.result {
            Ok(()) => {
                self.phase = Phase::Request;
                Step { consumed: outcome.consumed, reply: outcome.reply, next: Next::Proceed }
            },
            Err(AuthError::Truncated) => self.wait_or_close(
                at_eof,
                SessionError::Auth(AuthError::Truncated),
            ),
            Err(e) => {
                self.phase = Phase::Closed;
                Step {
                    consumed: outcome.consumed,
                    reply: outcome.reply,
                    next: Next::Close(SessionError::Auth(e)),
                }
            },
        }
    }

    fn on_request(&mut self, input: &[u8], at_eof: bool) -> (r: Step)
        requires
            old(self).phase == Phase::Request,
        ensures
            (final(self).phase, r@) == request_step(input@, at_eof),
            final(self).user == old(self).user,
            r.consumed <= input@.len(),
    {
        match SocksRequest::read_from(input) {
            Err(ProtocolError::Truncated) => self.wait_or_close(
                at_eof,
                SessionError::Protocol(ProtocolError::Truncated),
            ),
            Err(ProtocolError::UnknownAddressType) => {
                self.phase = Phase::Closed;
                Step {
                    consumed: 0,
                    reply: encode_reply(ReplyCode::AddressTypeNotSupported),
                    next: Next::Close(SessionError::Protocol(ProtocolError::UnknownAddressType)),
                }
            },
            Err(e) => self.close(SessionError::Protocol(e)),
            Ok((request, n)) => {
                if request.cmd != CMD_CONNECT {
                    self.phase = Phase::Closed;
                    Step {
                        consumed: n,
                        reply: encode_reply(ReplyCode::CommandNotSupported),
                        next: Next::Close(SessionError::CommandNotSupported),
                    }
                } else {
                    self.phase = Phase::Connecting;
                    Step { consumed: n, reply: Vec::new(), next: Next::Connect(request) }
                }
            },
        }
    }

    /// Reports how connecting to the target ended: the connect reply to
    /// write, and whether to relay or close.
    pub fn on_connect(&mut self, outcome: ConnectOutcome) -> (r: Step)
        requires
            old(self)@.phase == Phase::Connecting,
        ensures
            (final(self)@.phase, r@) == connect_step(outcome),
            final(self)@.credentials == old(self)@.credentials,
    {
        let code = match outcome {
            ConnectOutcome::Connected => ReplyCode::Success,
            ConnectOutcome::TimedOut => ReplyCode::TtlExpired,
            ConnectOutcome::Refused => ReplyCode::ConnectionRefused,
            ConnectOutcome::NotAllowed => ReplyCode::ConnectionNotAllowed,
            ConnectOutcome::Failed => ReplyCode::HostUnreachable,
        };
        let reply = encode_reply(code);
        match outcome {
            ConnectOutcome::Connected => {
                self.phase = Phase::Relaying;
                Step { consumed: 0, reply, next: Next::Relay }
            },
            _ => {
                self.phase = Phase::Closed;
                Step { consumed: 0, reply, next: Next::Close(SessionError::Connect(outcome)) }
            },
        }
    }

    /// Marks the end of relaying: both sides are closed.
    pub fn on_relay_end(&mut self)
        requires
            old(self)@.phase == Phase::Relaying,
        ensures
            final(self)@.phase == Phase::Closed,
            final(self)@.credentials == old(self)@.credentials,
    {
        self.phase = Phase::Closed;
    }
}

/// With no credentials configured, a complete greeting that offers "no
/// authentication" is answered by one method-selection frame that picks it,
/// and the session goes on to the request: no auth frame is ever read.
pub proof fn lemma_no_auth_selected(s: SessionView, b: Seq<u8>, at_eof: bool)
    requires
        s.phase == Phase::Greeting,
        s.credentials is None,
        decode_greeting(b) matches Ok((offered, _)) && offered.contains(METHOD_NO_AUTH),
    ensures
        s.input_step(b, at_eof).0 == Phase::Request,
        s.input_step(b, at_eof).1.reply == seq![SOCKS_VERSION, METHOD_NO_AUTH],
        s.input_step(b, at_eof).1.next == NextView::Proceed,
{
}

/// With credentials configured, a complete greeting that does not offer
/// username/password is answered by the selection frame `05 FF`, and the
/// session closes having consumed the greeting alone: it reads nothing more.
pub proof fn lemma_password_required(s: SessionView, b: Seq<u8>, at_eof: bool)
    requires
        s.phase == Phase::Greeting,
        s.credentials is Some,
        decode_greeting(b) matches Ok((offered, _)) && !offered.contains(METHOD_PASSWORD),
    ensures
        s.input_step(b, at_eof).0 == Phase::Closed,
        s.input_step(b, at_eof).1.reply == seq![SOCKS_VERSION, METHOD_NO_ACCEPTABLE],
        s.input_step(b, at_eof).1.next == NextView::Close(SessionError::NoAcceptableMethod),
        s.input_step(b, at_eof).1.consumed == decode_greeting(b)->Ok_0.1,
        !(SessionView { phase: s.input_step(b, at_eof).0, ..s }).reads_input(),
{
}

/// A complete auth request whose username or password differs from the
/// configured ones is answered by exactly one two-byte failure frame, after
/// which the session is closed and reads nothing more.
pub proof fn lemma_failed_auth_single_frame(s: SessionView, b: Seq<u8>, at_eof: bool)
    requires
        s.phase == Phase::Auth,
        s.credentials matches Some((name, pass)) && (decode_auth(b) matches Ok((u, p, _)) && (u
            != name || p != pass)),
    ensures
        s.input_step(b, at_eof).0 == Phase::Closed,
        s.input_step(b, at_eof).1.reply == seq![AUTH_VERSION, AUTH_FAILURE],
        s.input_step(b, at_eof).1.next == NextView::Close(SessionError::Auth(AuthError::BadCredentials)),
        !(SessionView { phase: s.input_step(b, at_eof).0, ..s }).reads_input(),
{
}

/// A step that closes the session leaves it closed, so that nothing more is
/// read; a step that waits for more bytes consumes and writes nothing and
/// keeps the phase; no step consumes more bytes than it was given.
pub proof fn lemma_close_is_final(s: SessionView, b: Seq<u8>, at_eof: bool)
    requires
        s.reads_input(),
    ensures
        s.input_step(b, at_eof).1.next is Close ==> s.input_step(b, at_eof).0 == Phase::Closed,
        s.input_step(b, at_eof).1.next is NeedMore ==> s.input_step(b, at_eof).0 == s.phase
            && s.input_step(b, at_eof).1.consumed == 0 && s.input_step(b, at_eof).1.reply.len()
            == 0,
        s.input_step(b, at_eof).1.consumed <= b.len(),
{
}

} // verus!
