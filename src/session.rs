//! The protocol session with the worker: identifier allocation, the one-time
//! handshake, and the correlation of responses with the pending request.
//!
//! A `Session` does no I/O. Each of its steps returns an `Action`: a frame to
//! write, a line to read, or the outcome of the call. Whoever owns the pipes
//! performs the action and reports what happened through the next step.
use vstd::prelude::*;
use vstd::string::StringExecFns;
use crate::error::McpError;
use crate::json::{
    copy_value, error_text, is_json_text, parse_json, single_line, trim_end, trim_end_spec,
};
use crate::wire::{
    call_method, call_params, classify, framed, is_tool_call_params, method_name, notification_line,
    notification_text, request_line, request_text, Call, Inbound, Method, INITIALIZED_NOTIFICATION,
    INITIALIZE_PARAMS, LIST_TOOLS_PARAMS,
};

verus! {

/// Where a session stands in the exchange of one call.
#[derive(Debug)]
pub enum Phase {
    /// No call is in progress.
    Idle,
    /// The handshake request with this identifier is being written; the call
    /// waits behind it.
    SendingInitialize { id: u64, call: Call },
    /// Waiting for the response to the handshake request.
    AwaitingInitialize { id: u64, call: Call },
    /// The acknowledgement notification is being written.
    SendingInitialized { call: Call },
    /// The request with this identifier is being written.
    SendingRequest { id: u64 },
    /// Waiting for the response that carries this identifier.
    AwaitingResponse { id: u64 },
}

/// What the owner of the pipes is to do next.
#[derive(Debug)]
pub enum Action {
    /// Write this frame to the worker's input and flush it.
    Write(String),
    /// Read one line from the worker's output.
    Read,
    /// The call is over, with this outcome.
    Done(Result<serde_json::Value, McpError>),
}

/// The state of the connection with the worker, apart from the process and
/// its pipes: the next identifier, whether the handshake is done, and the
/// call in progress. A handshake that the worker rejected is kept, with the
/// worker's error, and fails every later call.
pub struct Session {
    next_id: u64,
    initialized: bool,
    phase: Phase,
    rejection: Option<serde_json::Value>,
    issued: Ghost<Seq<u64>>,
}

/// The frame of the handshake request with identifier `id`.
pub open spec fn initialize_frame(id: nat) -> Seq<char> {
    framed(request_text(id, method_name(Method::Initialize), INITIALIZE_PARAMS@))
}

/// The frame of the notification that acknowledges the handshake.
pub open spec fn initialized_frame() -> Seq<char> {
    framed(notification_text(INITIALIZED_NOTIFICATION@, "{}"@))
}

/// `line` is the frame of a request for `call` with identifier `id`: the
/// call's method, and parameters that are one line of JSON text: for a tool
/// listing exactly the cursor-less parameters, for a tool call the tool's
/// name and arguments.
pub open spec fn is_call_frame(line: Seq<char>, id: nat, call: &Call) -> bool {
    exists|p: Seq<char>|
        #![trigger request_text(id, method_name(call_method(call)), p)]
        single_line(p) && (call is ListTools ==> p == LIST_TOOLS_PARAMS@) && (call matches Call::CallTool {
            name,
            ..
        } ==> is_tool_call_params(p, name@)) && line == framed(
            request_text(id, method_name(call_method(call)), p),
        )
}

impl Session {
    pub closed spec fn id_counter(&self) -> nat {
        self.next_id as nat
    }

    pub closed spec fn handshake_done(&self) -> bool {
        self.initialized
    }

    pub closed spec fn state(&self) -> Phase {
        self.phase
    }

    /// The worker's error object, once it has rejected the handshake.
    pub closed spec fn rejected(&self) -> Option<serde_json::Value> {
        self.rejection
    }

    /// The identifiers handed out so far, in order.
    pub closed spec fn issued_ids(&self) -> Seq<u64> {
        self.issued@
    }

    /// The identifier a response must carry to end the wait, in the phases
    /// that wait for one.
    pub open spec fn target(&self) -> u64 {
        match self.state() {
            Phase::AwaitingInitialize { id, .. } => id,
            Phase::AwaitingResponse { id } => id,
            _ => 0,
        }
    }

    pub open spec fn is_writing_spec(&self) -> bool {
        self.state() is SendingInitialize || self.state() is SendingInitialized
            || self.state() is SendingRequest
    }

    pub open spec fn is_reading_spec(&self) -> bool {
        self.state() is AwaitingInitialize || self.state() is AwaitingResponse
    }

    pub closed spec fn wf(&self) -> bool {
        &&& self.next_id >= 1
        &&& self.issued@.len() == self.next_id - 1
        &&& forall|i: int| 0 <= i < self.issued@.len() ==> self.issued@[i] == i + 1
        &&& self.rejection is Some ==> !self.initialized && self.phase is Idle
        &&& match self.phase {
            Phase::Idle => true,
            Phase::SendingInitialize { id, .. } | Phase::AwaitingInitialize { id, .. } => {
                !self.initialized && id + 1 == self.next_id && self.next_id < u64::MAX
            },
            Phase::SendingInitialized { .. } => !self.initialized && self.next_id < u64::MAX,
            Phase::SendingRequest { id } | Phase::AwaitingResponse { id } => {
                self.initialized && id + 1 == self.next_id
            },
        }
    }

    /// A session with no identifier used and no handshake done.
    pub fn new() -> (r: Session)
        ensures
            r.wf(),
            r.id_counter() == 1,
            !r.handshake_done(),
            r.state() is Idle,
            r.rejected() is None,
            r.issued_ids() == Seq::<u64>::empty(),
    {
        Session {
            next_id: 1,
            initialized: false,
            phase: Phase::Idle,
            rejection: None,
            issued: Ghost(Seq::empty()),
        }
    }

    /// The identifier the next request will carry.
    pub fn next_id(&self) -> (r: u64)
        ensures
            r == self.id_counter(),
    {
        self.next_id
    }

    /// Whether the handshake has completed.
    pub fn is_initialized(&self) -> (r: bool)
        ensures
            r == self.handshake_done(),
    {
        self.initialized
    }

    /// Whether the worker has rejected the handshake.
    pub fn handshake_rejected(&self) -> (r: bool)
        ensures
            r == self.rejected() is Some,
    {
        self.rejection.is_some()
    }

    /// Whether no call is in progress.
    pub fn is_idle(&self) -> (r: bool)
        ensures
            r == self.state() is Idle,
    {
        match self.phase {
            Phase::Idle => true,
            _ => false,
        }
    }

    /// Whether the session waits for a frame to be written.
    pub fn is_writing(&self) -> (r: bool)
        ensures
            r == self.is_writing_spec(),
    {
        match self.phase {
            Phase::SendingInitialize { .. } | Phase::SendingInitialized { .. }
            | Phase::SendingRequest { .. } => true,
            _ => false,
        }
    }

    /// Whether the session waits for a line to be read.
    pub fn is_reading(&self) -> (r: bool)
        ensures
            r == self.is_reading_spec(),
    {
        match self.phase {
            Phase::AwaitingInitialize { .. } | Phase::AwaitingResponse { .. } => true,
            _ => false,
        }
    }

    /// Whether identifiers remain for one more call, handshake included.
    pub fn can_start(&self) -> (r: bool)
        ensures
            r == (self.id_counter() < u64::MAX - 1),
    {
        self.next_id < u64::MAX - 1
    }

    fn allocate_id(&mut self) -> (id: u64)
        requires
            old(self).wf(),
            old(self).next_id < u64::MAX,
        ensures
            id == old(self).next_id,
            final(self).next_id == id + 1,
            final(self).issued@ == old(self).issued@.push(id),
            final(self).initialized == old(self).initialized,
            final(self).phase == old(self).phase,
            final(self).rejection == old(self).rejection,
    {
        let id = self.next_id;
        self.next_id = id + 1;
        self.issued = Ghost(self.issued@.push(id));
        id
    }

    /// Allocates the next identifier and frames the request for `call`.
    fn send_call(&mut self, call: Call) -> (r: Action)
        requires
            old(self).wf(),
            old(self).initialized,
            old(self).phase is Idle,
            old(self).rejection is None,
            old(self).next_id < u64::MAX,
        ensures
            final(self).wf(),
            final(self).initialized,
            sends_call(*old(self), *final(self), call, r),
    {
        let id = self.allocate_id();
        let method = call.method();
        let p = call_params(&call);
        let line = request_line(id, method, p.as_str());
        self.phase = Phase::SendingRequest { id };
        assert(is_call_frame(line@, id as nat, &call)) by {
            assert(request_text(id as nat, method_name(call_method(&call)), p@) == request_text(
                id as nat,
                method_name(call_method(&call)),
                p@,
            ));
        }
        Action::Write(line)
    }

    /// Begins a call. On the first call of the session the handshake
    /// request goes first and the call waits behind it; once the handshake is
    /// done the call's own request goes at once. Either way the frame written
    /// carries the next identifier, which is then used up. Once the worker
    /// has rejected the handshake, every call fails at once with that
    /// rejection and nothing is written.
    pub fn start(&mut self, call: Call) -> (r: Action)
        requires
            old(self).wf(),
            old(self).state() is Idle,
            old(self).id_counter() < u64::MAX - 1,
        ensures
            final(self).wf(),
            old(self).rejected() matches Some(e) ==> *final(self) == *old(self) && r == Action::Done(
                Err(McpError::Initialize(e)),
            ),
            old(self).rejected() is None && !old(self).handshake_done() ==> {
                &&& final(self).state() == (Phase::SendingInitialize { id: old(self).id_counter() as u64, call })
                &&& r matches Action::Write(l) && l@ == initialize_frame(old(self).id_counter())
                &&& final(self).id_counter() == old(self).id_counter() + 1
                &&& final(self).issued_ids() == old(self).issued_ids().push(old(self).id_counter() as u64)
                &&& !final(self).handshake_done()
                &&& final(self).rejected() is None
            },
            old(self).handshake_done() ==> final(self).handshake_done() && sends_call(
                *old(self),
                *final(self),
                call,
                r,
            ),
    {
        if let Some(e) = &self.rejection {
            return Action::Done(Err(McpError::Initialize(copy_value(e))));
        }
        if self.initialized {
            self.send_call(call)
        } else {
            let id = self.allocate_id();
            let line = request_line(id, Method::Initialize, INITIALIZE_PARAMS);
            self.phase = Phase::SendingInitialize { id, call };
            Action::Write(line)
        }
    }

    /// The frame asked for has been written. After the handshake request,
    /// wait for its response; after the acknowledgement, the handshake is
    /// done and the call's own request is framed; after a request, wait for
    /// its response.
    pub fn on_written(&mut self) -> (r: Action)
        requires
            old(self).wf(),
            old(self).is_writing_spec(),
        ensures
            final(self).wf(),
            final(self).rejected() == old(self).rejected(),
            old(self).state() matches Phase::SendingInitialize { id, call } ==> {
                &&& final(self).state() == (Phase::AwaitingInitialize { id, call })
                &&& r is Read
                &&& final(self).id_counter() == old(self).id_counter()
                &&& final(self).issued_ids() == old(self).issued_ids()
                &&& final(self).handshake_done() == old(self).handshake_done()
            },
            old(self).state() matches Phase::SendingRequest { id } ==> {
                &&& final(self).state() == (Phase::AwaitingResponse { id })
                &&& r is Read
                &&& final(self).id_counter() == old(self).id_counter()
                &&& final(self).issued_ids() == old(self).issued_ids()
                &&& final(self).handshake_done() == old(self).handshake_done()
            },
            old(self).state() matches Phase::SendingInitialized { call } ==> {
                &&& final(self).handshake_done()
                &&& sends_call(*old(self), *final(self), call, r)
            },
    {
        let mut phase = Phase::Idle;
        std::mem::swap(&mut phase, &mut self.phase);
        assert(self.rejection is None);
        match phase {
            Phase::SendingInitialize { id, call } => {
                self.phase = Phase::AwaitingInitialize { id, call };
                Action::Read
            },
            Phase::SendingRequest { id } => {
                self.phase = Phase::AwaitingResponse { id };
                Action::Read
            },
            Phase::SendingInitialized { call } => {
                self.initialized = true;
                self.send_call(call)
            },
            other => {
                self.phase = other;
                Action::Read
            },
        }
    }

    /// Writing a frame failed: the call fails with the write error. No
    /// identifier is used and the handshake state is kept.
    pub fn on_write_failed(&mut self, reason: String) -> (r: Action)
        requires
            old(self).wf(),
            old(self).is_writing_spec(),
        ensures
            final(self).wf(),
            ends_call(*old(self), *final(self)),
            r == Action::Done(Err(McpError::Write(reason))),
    {
        self.phase = Phase::Idle;
        Action::Done(Err(McpError::Write(reason)))
    }

    /// Reading a line failed: the call fails with the read error.
    pub fn on_read_failed(&mut self, reason: String) -> (r: Action)
        requires
            old(self).wf(),
            old(self).is_reading_spec(),
        ensures
            final(self).wf(),
            ends_call(*old(self), *final(self)),
            r == Action::Done(Err(McpError::Read(reason))),
    {
        self.phase = Phase::Idle;
        Action::Done(Err(McpError::Read(reason)))
    }

    /// A read returned `n_bytes` bytes holding `text`. Zero bytes means the
    /// worker closed its output: the call fails and nothing is parsed. Else
    /// the line without its trailing whitespace must be JSON, or the call
    /// fails with that line and the parser's diagnostic; the members that
    /// `classify` reads of a JSON message are decided on as `on_message`
    /// decides.
    pub fn on_read(&mut self, n_bytes: usize, text: &str) -> (r: Action)
        requires
            old(self).wf(),
            old(self).is_reading_spec(),
        ensures
            final(self).wf(),
            n_bytes == 0 ==> ends_call(*old(self), *final(self)) && r == Action::Done(
                Err(McpError::ConnectionClosed),
            ),
            n_bytes != 0 && !is_json_text(trim_end_spec(text@)) ==> {
                &&& ends_call(*old(self), *final(self))
                &&& r matches Action::Done(Err(McpError::Protocol { line, .. }))
                &&& line@ == trim_end_spec(text@)
            },
            n_bytes != 0 && is_json_text(trim_end_spec(text@)) ==> exists|m: Inbound|
                answers(*old(self), *final(self), m, r),
    {
        if n_bytes == 0 {
            self.phase = Phase::Idle;
            return Action::Done(Err(McpError::ConnectionClosed));
        }
        let line = trim_end(text);
        match parse_json(line) {
            Err(e) => {
                self.phase = Phase::Idle;
                Action::Done(
                    Err(McpError::Protocol { line: String::from_str(line), diagnostic: error_text(&e) }),
                )
            },
            Ok(v) => {
                let m = classify(&v);
                let ghost m0 = m;
                let r = self.on_message(m);
                assert(answers(*old(self), *self, m0, r));
                r
            },
        }
    }

    /// Decides on one inbound message while a response is awaited. A message
    /// whose identifier is absent or differs from the awaited one is passed
    /// over and the wait goes on. The awaited handshake response ends the
    /// call with its error, or leads to the acknowledgement; the awaited
    /// response to a request ends the call with its error, its result, or the
    /// lack of both.
    pub fn on_message(&mut self, msg: Inbound) -> (r: Action)
        requires
            old(self).wf(),
            old(self).is_reading_spec(),
        ensures
            final(self).wf(),
            answers(*old(self), *final(self), msg, r),
    {
        let target = match &self.phase {
            Phase::AwaitingInitialize { id, .. } => *id,
            Phase::AwaitingResponse { id } => *id,
            _ => 0,
        };
        let matched = match msg.id {
            Some(i) => i == target,
            None => false,
        };
        if !matched {
            return Action::Read;
        }
        let mut phase = Phase::Idle;
        std::mem::swap(&mut phase, &mut self.phase);
        match phase {
            Phase::AwaitingInitialize { id, call } => match msg.error {
                Some(e) => {
                    self.rejection = Some(copy_value(&e));
                    Action::Done(Err(McpError::Initialize(e)))
                },
                None => {
                    self.phase = Phase::SendingInitialized { call };
                    Action::Write(notification_line(INITIALIZED_NOTIFICATION, "{}"))
                },
            },
            Phase::AwaitingResponse { id } => match msg.error {
                Some(e) => Action::Done(Err(McpError::Remote(e))),
                None => match msg.result {
                    Some(v) => Action::Done(Ok(v)),
                    None => Action::Done(Err(McpError::MissingResult)),
                },
            },
            other => {
                self.phase = other;
                Action::Read
            },
        }
    }
}

/// Identifiers are handed out 1, 2, 3, ... in that order: in a session in
/// any reachable state, the identifiers used so far are distinct, strictly
/// increasing, start at 1, and the next one follows the last.
pub proof fn lemma_ids_increase_from_one(s: &Session)
    requires
        s.wf(),
    ensures
        s.issued_ids().len() + 1 == s.id_counter(),
        forall|i: int| 0 <= i < s.issued_ids().len() ==> s.issued_ids()[i] == i + 1,
        forall|i: int, j: int|
            0 <= i < j < s.issued_ids().len() ==> s.issued_ids()[i] < s.issued_ids()[j],
        forall|i: int| 0 <= i < s.issued_ids().len() ==> s.issued_ids()[i] < s.id_counter(),
{
}

/// Across any run of calls, the identifiers used after a point continue the
/// ones used before it without a gap or a repeat: each step only appends the
/// identifier of the frame it writes, so a later state's log extends an
/// earlier one, and the new identifiers are the earlier counter and the ones
/// after it, in order.
pub proof fn lemma_ids_continue(before: &Session, after: &Session)
    requires
        before.wf(),
        after.wf(),
        before.issued_ids().is_prefix_of(after.issued_ids()),
    ensures
        after.id_counter() >= before.id_counter(),
        forall|i: int|
            before.issued_ids().len() <= i < after.issued_ids().len() ==> after.issued_ids()[i]
                == before.id_counter() + (i - before.issued_ids().len()),
        forall|i: int, j: int|
            0 <= i < before.issued_ids().len() <= j < after.issued_ids().len()
                ==> before.issued_ids()[i] < after.issued_ids()[j],
{
}

/// The handshake happens once in a session: while it is under way the
/// session is not initialized, and once initialized no handshake phase comes
/// back, so every later call starts with its own request.
pub proof fn lemma_handshake_once(s: &Session)
    requires
        s.wf(),
    ensures
        s.handshake_done() ==> !(s.state() is SendingInitialize) && !(s.state() is AwaitingInitialize)
            && !(s.state() is SendingInitialized),
        (s.state() is SendingInitialize || s.state() is AwaitingInitialize
            || s.state() is SendingInitialized) ==> !s.handshake_done(),
{
}

/// The call ends: the session is idle again, with its identifiers and its
/// handshake state as they were.
pub open spec fn ends_call(old: Session, new: Session) -> bool {
    &&& new.state() is Idle
    &&& new.id_counter() == old.id_counter()
    &&& new.issued_ids() == old.issued_ids()
    &&& new.handshake_done() == old.handshake_done()
    &&& new.rejected() == old.rejected()
}

/// Sending `call` once the handshake is done: the next identifier is used
/// up and the call's request is framed with it.
pub open spec fn sends_call(old: Session, new: Session, call: Call, r: Action) -> bool {
    &&& new.id_counter() == old.id_counter() + 1
    &&& new.issued_ids() == old.issued_ids().push(old.id_counter() as u64)
    &&& new.rejected() is None
    &&& new.state() == (Phase::SendingRequest { id: old.id_counter() as u64 })
    &&& r matches Action::Write(l) && is_call_frame(l@, old.id_counter(), &call)
}

/// How a session waiting for a response answers the inbound message `m`.
pub open spec fn answers(old: Session, new: Session, m: Inbound, r: Action) -> bool {
    &&& new.id_counter() == old.id_counter()
    &&& new.issued_ids() == old.issued_ids()
    &&& new.handshake_done() == old.handshake_done()
    &&& if m.id != Some(old.target()) {
        r is Read && new == old
    } else {
        match old.state() {
            Phase::AwaitingInitialize { call, .. } => match m.error {
                Some(e) => new.state() is Idle && new.rejected() == Some(e) && r == Action::Done(
                    Err(McpError::Initialize(e)),
                ),
                None => new.state() == (Phase::SendingInitialized { call }) && new.rejected()
                    is None && (r matches Action::Write(l) && l@ == initialized_frame()),
            },
            _ => new.state() is Idle && new.rejected() is None && match m.error {
                Some(e) => r == Action::Done(Err(McpError::Remote(e))),
                None => match m.result {
                    Some(v) => r == Action::Done(Ok(v)),
                    None => r == Action::Done(Err(McpError::MissingResult)),
                },
            },
        }
    }
}

} // verus!
