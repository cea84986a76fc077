//! Errors and conversation messages of the PAM authentication backend, and
//! the conversation object that forwards prompts over channels.

use vstd::prelude::*;
use vstd::string::StringExecFns;

verus! {

/// A Linux-PAM return value, by name.
#[derive(Clone, Copy, Debug, PartialEq, Eq, Structural)]
pub enum ReturnCode {
    Success,
    OpenErr,
    SymbolErr,
    ServiceErr,
    SystemErr,
    BufErr,
    PermDenied,
    AuthErr,
    CredInsufficient,
    AuthinfoUnavail,
    UserUnknown,
    Maxtries,
    NewAuthtokReqd,
    AcctExpired,
    SessionErr,
    CredUnavail,
    CredExpired,
    CredErr,
    NoModuleData,
    ConvErr,
    AuthtokErr,
    AuthtokRecoveryErr,
    AuthtokLockBusy,
    AuthtokDisableAging,
    TryAgain,
    Ignore,
    Abort,
    AuthtokExpired,
    ModuleUnknown,
    BadItem,
    ConvAgain,
    Incomplete,
}

/// The name Linux-PAM gives a return value.
pub open spec fn code_name(rc: ReturnCode) -> Seq<char> {
    match rc {
        ReturnCode::Success => "SUCCESS"@,
        ReturnCode::OpenErr => "OPEN_ERR"@,
        ReturnCode::SymbolErr => "SYMBOL_ERR"@,
        ReturnCode::ServiceErr => "SERVICE_ERR"@,
        ReturnCode::SystemErr => "SYSTEM_ERR"@,
        ReturnCode::BufErr => "BUF_ERR"@,
        ReturnCode::PermDenied => "PERM_DENIED"@,
        ReturnCode::AuthErr => "AUTH_ERR"@,
        ReturnCode::CredInsufficient => "CRED_INSUFFICIENT"@,
        ReturnCode::AuthinfoUnavail => "AUTHINFO_UNAVAIL"@,
        ReturnCode::UserUnknown => "USER_UNKNOWN"@,
        ReturnCode::Maxtries => "MAXTRIES"@,
        ReturnCode::NewAuthtokReqd => "NEW_AUTHTOK_REQD"@,
        ReturnCode::AcctExpired => "ACCT_EXPIRED"@,
        ReturnCode::SessionErr => "SESSION_ERR"@,
        ReturnCode::CredUnavail => "CRED_UNAVAIL"@,
        ReturnCode::CredExpired => "CRED_EXPIRED"@,
        ReturnCode::CredErr => "CRED_ERR"@,
        ReturnCode::NoModuleData => "NO_MODULE_DATA"@,
        ReturnCode::ConvErr => "CONV_ERR"@,
        ReturnCode::AuthtokErr => "AUTHTOK_ERR"@,
        ReturnCode::AuthtokRecoveryErr => "AUTHTOK_RECOVERY_ERR"@,
        ReturnCode::AuthtokLockBusy => "AUTHTOK_LOCK_BUSY"@,
        ReturnCode::AuthtokDisableAging => "AUTHTOK_DISABLE_AGING"@,
        ReturnCode::TryAgain => "TRY_AGAIN"@,
        ReturnCode::Ignore => "IGNORE"@,
        ReturnCode::Abort => "ABORT"@,
        ReturnCode::AuthtokExpired => "AUTHTOK_EXPIRED"@,
        ReturnCode::ModuleUnknown => "MODULE_UNKNOWN"@,
        ReturnCode::BadItem => "BAD_ITEM"@,
        ReturnCode::ConvAgain => "CONV_AGAIN"@,
        ReturnCode::Incomplete => "INCOMPLETE"@,
    }
}

impl ReturnCode {
    /// The name Linux-PAM gives this return value.
    pub fn name(&self) -> (r: &'static str)
        ensures
            r@ == code_name(*self),
    {
        match self {
            ReturnCode::Success => "SUCCESS",
            ReturnCode::OpenErr => "OPEN_ERR",
            ReturnCode::SymbolErr => "SYMBOL_ERR",
            ReturnCode::ServiceErr => "SERVICE_ERR",
            ReturnCode::SystemErr => "SYSTEM_ERR",
            ReturnCode::BufErr => "BUF_ERR",
            ReturnCode::PermDenied => "PERM_DENIED",
            ReturnCode::AuthErr => "AUTH_ERR",
            ReturnCode::CredInsufficient => "CRED_INSUFFICIENT",
            ReturnCode::AuthinfoUnavail => "AUTHINFO_UNAVAIL",
            ReturnCode::UserUnknown => "USER_UNKNOWN",
            ReturnCode::Maxtries => "MAXTRIES",
            ReturnCode::NewAuthtokReqd => "NEW_AUTHTOK_REQD",
            ReturnCode::AcctExpired => "ACCT_EXPIRED",
            ReturnCode::SessionErr => "SESSION_ERR",
            ReturnCode::CredUnavail => "CRED_UNAVAIL",
            ReturnCode::CredExpired => "CRED_EXPIRED",
            ReturnCode::CredErr => "CRED_ERR",
            ReturnCode::NoModuleData => "NO_MODULE_DATA",
            ReturnCode::ConvErr => "CONV_ERR",
            ReturnCode::AuthtokErr => "AUTHTOK_ERR",
            ReturnCode::AuthtokRecoveryErr => "AUTHTOK_RECOVERY_ERR",
            ReturnCode::AuthtokLockBusy => "AUTHTOK_LOCK_BUSY",
            ReturnCode::AuthtokDisableAging => "AUTHTOK_DISABLE_AGING",
            ReturnCode::TryAgain => "TRY_AGAIN",
            ReturnCode::Ignore => "IGNORE",
            ReturnCode::Abort => "ABORT",
            ReturnCode::AuthtokExpired => "AUTHTOK_EXPIRED",
            ReturnCode::ModuleUnknown => "MODULE_UNKNOWN",
            ReturnCode::BadItem => "BAD_ITEM",
            ReturnCode::ConvAgain => "CONV_AGAIN",
            ReturnCode::Incomplete => "INCOMPLETE",
        }
    }
}

/// How a failed PAM call is to be handled.
#[derive(Clone, Copy, Debug, PartialEq, Eq, Structural)]
pub enum ErrorKind {
    /// The conversation was aborted.
    Abort,
    /// The credentials were refused.
    Auth,
    /// Anything else.
    Other,
}

/// The kind of error a return value stands for.
pub open spec fn kind_of(rc: ReturnCode) -> ErrorKind {
    match rc {
        ReturnCode::Abort => ErrorKind::Abort,
        ReturnCode::AuthErr | ReturnCode::Maxtries | ReturnCode::CredExpired | ReturnCode::AcctExpired
        | ReturnCode::CredInsufficient | ReturnCode::UserUnknown | ReturnCode::PermDenied
        | ReturnCode::ServiceErr => ErrorKind::Auth,
        _ => ErrorKind::Other,
    }
}

/// A failed PAM call, with its description.
#[derive(Clone, Debug, PartialEq, Eq)]
pub enum PamError {
    Error(String),
    AuthError(String),
    AbortError(String),
}

impl PamError {
    /// The kind of this error.
    pub open spec fn kind(self) -> ErrorKind {
        match self {
            PamError::Error(_) => ErrorKind::Other,
            PamError::AuthError(_) => ErrorKind::Auth,
            PamError::AbortError(_) => ErrorKind::Abort,
        }
    }

    /// The description this error carries.
    pub open spec fn text(self) -> Seq<char> {
        match self {
            PamError::Error(s) => s@,
            PamError::AuthError(s) => s@,
            PamError::AbortError(s) => s@,
        }
    }

    /// The message shown for this error: an aborted conversation is marked as such.
    pub open spec fn shown(self) -> Seq<char> {
        match self {
            PamError::AbortError(s) => "abort error: "@ + s@,
            _ => self.text(),
        }
    }

    /// The error for return value `rc` of the call described by `prefix`,
    /// described as `"<prefix>: <name of rc>"`.
    pub fn from_rc(prefix: &str, rc: ReturnCode) -> (e: PamError)
        ensures
            e.kind() == kind_of(rc),
            e.text() == prefix@ + ": "@ + code_name(rc),
    {
        let mut text = prefix.to_owned();
        text.append(": ");
        text.append(rc.name());
        match rc {
            ReturnCode::Abort => PamError::AbortError(text),
            ReturnCode::AuthErr | ReturnCode::Maxtries | ReturnCode::CredExpired | ReturnCode::AcctExpired
            | ReturnCode::CredInsufficient | ReturnCode::UserUnknown | ReturnCode::PermDenied
            | ReturnCode::ServiceErr => PamError::AuthError(text),
            _ => PamError::Error(text),
        }
    }

    /// The kind of this error.
    pub fn error_kind(&self) -> (r: ErrorKind)
        ensures
            r == self.kind(),
    {
        match self {
            PamError::Error(_) => ErrorKind::Other,
            PamError::AuthError(_) => ErrorKind::Auth,
            PamError::AbortError(_) => ErrorKind::Abort,
        }
    }

    /// The message shown for this error.
    pub fn message(&self) -> (r: String)
        ensures
            r@ == self.shown(),
    {
        match self {
            PamError::Error(s) => s.clone(),
            PamError::AuthError(s) => s.clone(),
            PamError::AbortError(s) => {
                let mut r = "abort error: ".to_owned();
                r.append(s.as_str());
                r
            },
        }
    }
}

/// A message of the authentication backend for the user. `Echo` and `Blind`
/// ask for an answer (shown as typed, or hidden); `Info` and `Error` only inform.
#[derive(Clone, Debug, PartialEq, Eq)]
pub enum PamRequest {
    Echo(String),
    Blind(String),
    Info(String),
    Error(String),
}

/// The four kinds of conversation message.
#[derive(Clone, Copy, Debug, PartialEq, Eq, Structural)]
pub enum Style {
    Echo,
    Blind,
    Info,
    Error,
}

impl PamRequest {
    /// The kind of this message.
    pub open spec fn style(self) -> Style {
        match self {
            PamRequest::Echo(_) => Style::Echo,
            PamRequest::Blind(_) => Style::Blind,
            PamRequest::Info(_) => Style::Info,
            PamRequest::Error(_) => Style::Error,
        }
    }

    /// The message of kind `style` with text `msg`.
    pub fn make(style: Style, msg: &str) -> (r: PamRequest)
        ensures
            r.style() == style,
            r.content() == msg@,
    {
        let text = msg.to_owned();
        match style {
            Style::Echo => PamRequest::Echo(text),
            Style::Blind => PamRequest::Blind(text),
            Style::Info => PamRequest::Info(text),
            Style::Error => PamRequest::Error(text),
        }
    }

    /// Whether the backend waits for an answer to this message.
    pub open spec fn needs_answer(self) -> bool {
        self is Echo || self is Blind
    }

    /// The text of the message.
    pub open spec fn content(self) -> Seq<char> {
        match self {
            PamRequest::Echo(s) => s@,
            PamRequest::Blind(s) => s@,
            PamRequest::Info(s) => s@,
            PamRequest::Error(s) => s@,
        }
    }

    /// Whether the backend waits for an answer to this message.
    pub fn expects_answer(&self) -> (r: bool)
        ensures
            r == self.needs_answer(),
    {
        match self {
            PamRequest::Echo(_) | PamRequest::Blind(_) => true,
            PamRequest::Info(_) | PamRequest::Error(_) => false,
        }
    }

    /// The text of the message.
    pub fn text(&self) -> (r: String)
        ensures
            r@ == self.content(),
    {
        match self {
            PamRequest::Echo(s) => s.clone(),
            PamRequest::Blind(s) => s.clone(),
            PamRequest::Info(s) => s.clone(),
            PamRequest::Error(s) => s.clone(),
        }
    }
}

#[verifier::external_type_specification]
#[verifier::external_body]
#[verifier::reject_recursive_types(T)]
pub struct ExSender<T>(flume::Sender<T>);

#[verifier::external_type_specification]
#[verifier::external_body]
#[verifier::reject_recursive_types(T)]
pub struct ExReceiver<T>(flume::Receiver<T>);

/// Relies on flume::Sender::send: it queues the message, and fails only when
/// no receiver is left. Whether one is left is up to other threads.
#[verifier::external_body]
fn send_request(tx: &flume::Sender<PamRequest>, req: PamRequest) -> (sent: bool) {
    tx.send(req).is_ok()
}

/// Relies on flume::Receiver::recv: it blocks for the next message, and fails
/// once every sender is gone and nothing is queued. What arrives is up to
/// other threads.
#[verifier::external_body]
fn recv_answer(rx: &flume::Receiver<String>) -> (r: Result<String, ()>) {
    rx.recv().map_err(|_| ())
}

/// The conversation of one authentication session: every message of the
/// backend goes out on `tx`, and the answers to prompts come back on `rx`.
///
/// Once a message cannot be delivered or an answer cannot come any more (the
/// UI cancels by dropping the sending end of `rx`), the conversation is
/// closed: every later call fails at once and sends nothing.
pub struct ChannelConv {
    rx: flume::Receiver<String>,
    tx: flume::Sender<PamRequest>,
    closed: bool,
    /// Every message handed to `tx`, by kind and text, in order.
    sent: Ghost<Seq<(Style, Seq<char>)>>,
}

impl ChannelConv {
    /// The channel the answers come from.
    pub closed spec fn answers(&self) -> flume::Receiver<String> {
        self.rx
    }

    /// The channel the messages go to.
    pub closed spec fn requests(&self) -> flume::Sender<PamRequest> {
        self.tx
    }

    /// Whether the conversation has been aborted.
    pub closed spec fn is_closed(&self) -> bool {
        self.closed
    }

    /// Every message handed to the message channel so far, by kind and text.
    pub closed spec fn sent(&self) -> Seq<(Style, Seq<char>)> {
        self.sent@
    }

    /// A conversation that reads answers from `rx` and sends messages on `tx`.
    pub fn new(rx: flume::Receiver<String>, tx: flume::Sender<PamRequest>) -> (r: Self)
        ensures
            r.answers() == rx,
            r.requests() == tx,
            !r.is_closed(),
            r.sent() == Seq::<(Style, Seq<char>)>::empty(),
    {
        ChannelConv { rx, tx, closed: false, sent: Ghost(Seq::empty()) }
    }

    /// Hands the message of kind `style` with text `msg` to the message
    /// channel, unless the conversation is closed; closes it when the message
    /// cannot be delivered.
    fn deliver(&mut self, style: Style, msg: &str) -> (delivered: bool)
        ensures
            final(self).answers() == old(self).answers(),
            final(self).requests() == old(self).requests(),
            old(self).is_closed() ==> !delivered && final(self).sent() == old(self).sent(),
            !old(self).is_closed() ==> final(self).sent() == old(self).sent().push((style, msg@)),
            delivered <==> !final(self).is_closed(),
            old(self).is_closed() ==> final(self).is_closed(),
    {
        if self.closed {
            return false;
        }
        let req = PamRequest::make(style, msg);
        self.sent = Ghost(self.sent@.push((style, msg@)));
        if !send_request(&self.tx, req) {
            self.closed = true;
        }
        !self.closed
    }

    /// Sends a prompt of kind `style` and waits for its answer.
    fn ask(&mut self, style: Style, msg: &str) -> (r: Result<String, ()>)
        ensures
            final(self).answers() == old(self).answers(),
            final(self).requests() == old(self).requests(),
            old(self).is_closed() ==> r is Err && final(self).sent() == old(self).sent(),
            !old(self).is_closed() ==> final(self).sent() == old(self).sent().push((style, msg@)),
            r is Ok <==> !final(self).is_closed(),
            old(self).is_closed() ==> final(self).is_closed(),
    {
        if !self.deliver(style, msg) {
            return Err(());
        }
        match recv_answer(&self.rx) {
            Ok(answer) => Ok(answer),
            Err(()) => {
                self.closed = true;
                Err(())
            },
        }
    }

    /// Asks for an answer shown as it is typed: an `Echo` of `msg` is sent,
    /// then the next answer is returned. Fails, sending nothing, once the
    /// conversation is closed; fails and closes it when the message cannot be
    /// delivered or no answer can come.
    pub fn prompt_echo(&mut self, msg: &str) -> (r: Result<String, ()>)
        ensures
            final(self).answers() == old(self).answers(),
            final(self).requests() == old(self).requests(),
            old(self).is_closed() ==> r is Err && final(self).sent() == old(self).sent(),
            !old(self).is_closed() ==> final(self).sent() == old(self).sent().push((Style::Echo, msg@)),
            r is Ok <==> !final(self).is_closed(),
            old(self).is_closed() ==> final(self).is_closed(),
    {
        self.ask(Style::Echo, msg)
    }

    /// Asks for an answer kept hidden, such as a password: a `Blind` of `msg`
    /// is sent, then the next answer is returned. Fails as `prompt_echo` does.
    pub fn prompt_blind(&mut self, msg: &str) -> (r: Result<String, ()>)
        ensures
            final(self).answers() == old(self).answers(),
            final(self).requests() == old(self).requests(),
            old(self).is_closed() ==> r is Err && final(self).sent() == old(self).sent(),
            !old(self).is_closed() ==> final(self).sent() == old(self).sent().push((Style::Blind, msg@)),
            r is Ok <==> !final(self).is_closed(),
            old(self).is_closed() ==> final(self).is_closed(),
    {
        self.ask(Style::Blind, msg)
    }

    /// Passes on an informational message: an `Info` of `msg` is sent and
    /// nothing is read. Fails, sending nothing, once the conversation is
    /// closed; fails and closes it when the message cannot be delivered.
    pub fn info(&mut self, msg: &str) -> (r: Result<(), ()>)
        ensures
            final(self).answers() == old(self).answers(),
            final(self).requests() == old(self).requests(),
            old(self).is_closed() ==> r is Err && final(self).sent() == old(self).sent(),
            !old(self).is_closed() ==> final(self).sent() == old(self).sent().push((Style::Info, msg@)),
            r is Ok <==> !final(self).is_closed(),
            old(self).is_closed() ==> final(self).is_closed(),
    {
        if self.deliver(Style::Info, msg) {
            Ok(())
        } else {
            Err(())
        }
    }

    /// Passes on an error message: an `Error` of `msg` is sent and nothing is
    /// read. Fails as `info` does.
    pub fn error(&mut self, msg: &str) -> (r: Result<(), ()>)
        ensures
            final(self).answers() == old(self).answers(),
            final(self).requests() == old(self).requests(),
            old(self).is_closed() ==> r is Err && final(self).sent() == old(self).sent(),
            !old(self).is_closed() ==> final(self).sent() == old(self).sent().push((Style::Error, msg@)),
            r is Ok <==> !final(self).is_closed(),
            old(self).is_closed() ==> final(self).is_closed(),
    {
        if self.deliver(Style::Error, msg) {
            Ok(())
        } else {
            Err(())
        }
    }
}

} // verus!
