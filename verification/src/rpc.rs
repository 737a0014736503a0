//! Bookkeeping of the JSON-RPC exchange with the Playwright runtime: request
//! ids, whether a runtime process is up, and the judgement of each reply.
use vstd::prelude::*;
use crate::chars::push_char;
use crate::json::{bool_in, get_bool_in, get_member_text, json_document, json_get_member, json_member, json_parse, member_text};
use crate::text::{trim, trim_text};

verus! {

/// A decimal digit.
pub open spec fn digit_char(d: int) -> char {
    (48 + d) as char
}

/// The decimal text of a number, without leading zeros.
pub open spec fn decimal(n: nat) -> Seq<char>
    decreases n,
{
    if n < 10 {
        seq![digit_char(n as int)]
    } else {
        decimal(n / 10).push(digit_char((n % 10) as int))
    }
}

proof fn lemma_decimal_len(n: nat)
    ensures
        decimal(n).len() >= 1,
        n < 10 <==> decimal(n).len() == 1,
    decreases n,
{
    if n >= 10 {
        lemma_decimal_len(n / 10);
    }
}

proof fn lemma_digit_char(d: int)
    requires
        0 <= d < 10,
    ensures
        digit_char(d) as int == 48 + d,
{
}

/// Distinct numbers have distinct decimal texts, so a reply that carries
/// the text of one request id cannot be taken for the reply to another.
pub proof fn lemma_decimal_injective(a: nat, b: nat)
    requires
        decimal(a) == decimal(b),
    ensures
        a == b,
    decreases a,
{
    lemma_decimal_len(a);
    lemma_decimal_len(b);
    if a >= 10 && b >= 10 {
        assert(decimal(a).last() == decimal(b).last());
        assert(decimal(a).drop_last() =~= decimal(a / 10));
        assert(decimal(b).drop_last() =~= decimal(b / 10));
        lemma_decimal_injective(a / 10, b / 10);
        lemma_digit_char((a % 10) as int);
        lemma_digit_char((b % 10) as int);
        assert(decimal(a).last() == digit_char((a % 10) as int));
        assert(decimal(b).last() == digit_char((b % 10) as int));
        assert(a == 10 * (a / 10) + a % 10) by (nonlinear_arith);
        assert(b == 10 * (b / 10) + b % 10) by (nonlinear_arith);
    } else if a < 10 && b < 10 {
        assert(digit_char(a as int) == decimal(a)[0]);
        assert(digit_char(b as int) == decimal(b)[0]);
        lemma_digit_char(a as int);
        lemma_digit_char(b as int);
    }
}

/// The number that a text of decimal digits reads as, most significant
/// digit first.
pub open spec fn decimal_value(s: Seq<char>) -> int
    decreases s.len(),
{
    if s.len() == 0 {
        0
    } else {
        10 * decimal_value(s.drop_last()) + (s.last() as int - 48)
    }
}

/// The decimal text of a number reads back as that number, holds only the
/// digits `0` to `9`, and starts with `0` only when it is `0` itself.
pub proof fn lemma_decimal_reads_back(n: nat)
    ensures
        decimal_value(decimal(n)) == n,
        forall|k: int| 0 <= k < decimal(n).len() ==> '0' <= #[trigger] decimal(n)[k] <= '9',
        decimal(n)[0] == '0' ==> n == 0,
    decreases n,
{
    lemma_decimal_len(n);
    if n >= 10 {
        lemma_decimal_reads_back(n / 10);
        lemma_digit_char((n % 10) as int);
        let d = decimal(n);
        assert(d.drop_last() =~= decimal(n / 10));
        assert(d.last() == digit_char((n % 10) as int));
        assert(d.last() as int - 48 == n % 10);
        assert(decimal_value(d) == 10 * decimal_value(decimal(n / 10)) + n % 10);
        assert(n == 10 * (n / 10) + n % 10) by (nonlinear_arith);
        assert forall|k: int| 0 <= k < d.len() implies '0' <= #[trigger] d[k] <= '9' by {
            if k < d.len() - 1 {
                assert(d[k] == decimal(n / 10)[k]);
            }
        }
        assert(d[0] == decimal(n / 10)[0]);
        assert(n / 10 > 0);
    } else {
        lemma_digit_char(n as int);
        assert(decimal(n).drop_last() =~= Seq::<char>::empty());
        assert(decimal(n).last() == digit_char(n as int));
        assert(decimal_value(decimal(n)) == 10 * decimal_value(Seq::<char>::empty()) + (decimal(
            n,
        ).last() as int - 48));
    }
}

fn push_decimal(s: &mut String, n: u64)
    ensures
        final(s)@ == old(s)@ + decimal(n as nat),
    decreases n,
{
    if n >= 10 {
        push_decimal(s, n / 10);
    }
    let d = (n % 10) as u8;
    push_char(s, (48 + d) as char);
    assert(final(s)@ =~= old(s)@ + decimal(n as nat));
}

/// The decimal text of a request id, as it stands in the request.
pub fn request_id_text(id: u64) -> (text: String)
    ensures
        text@ == decimal(id as nat),
{
    let mut text = String::new();
    push_decimal(&mut text, id);
    assert(text@ =~= decimal(id as nat));
    text
}

/// The counter after one more id: one up, wrapping to zero after the
/// largest value.
pub open spec fn next_counter(n: u64) -> u64 {
    if n == u64::MAX {
        0
    } else {
        (n + 1) as u64
    }
}

/// The fields of a reply of the runtime that its judgement reads.
pub struct RpcReply {
    /// `id`, when it is a string.
    pub id: Option<String>,
    /// `error`, when present; inside, its `message` when that is a string.
    pub error: Option<Option<String>>,
    /// `result`, when present.
    pub result: Option<serde_json::Value>,
}

/// The text of an optional owned string.
pub open spec fn text_of(value: Option<String>) -> Option<Seq<char>> {
    match value {
        Some(v) => Some(v@),
        None => None,
    }
}

/// `reply` holds what the judgement reads of the document `v`: the text of
/// member `id`, whether member `error` is there and the text of its
/// `message`, and member `result`.
pub open spec fn reply_read(v: serde_json::Value, reply: RpcReply) -> bool {
    &&& text_of(reply.id) == member_text(v, "id"@)
    &&& reply.result == json_member(v, "result"@)
    &&& match json_member(v, "error"@) {
        Some(e) => reply.error is Some && text_of(reply.error->0) == member_text(e, "message"@),
        None => reply.error is None,
    }
}

/// Reads a reply line of the runtime: the line, trimmed, must be a JSON
/// document; `None` when it is not. Otherwise the reply holds the text of
/// member `id`, the presence of member `error` with the text of its
/// `message`, and member `result`.
pub fn reply_from_line(line: &str) -> (r: Option<RpcReply>)
    ensures
        match json_document(trim(line@)) {
            None => r is None,
            Some(v) => r is Some && reply_read(v, r->0),
        },
{
    let trimmed = trim_text(line);
    match json_parse(trimmed.as_str()) {
        None => None,
        Some(v) => {
            let id = get_member_text(&v, "id");
            let error = match json_get_member(&v, "error") {
                Some(e) => Some(get_member_text(&e, "message")),
                None => None,
            };
            let result = json_get_member(&v, "result");
            let reply = RpcReply { id, error, result };
            assert(text_of(reply.id) == member_text(v, "id"@));
            Some(reply)
        },
    }
}

/// Why a call of the runtime failed after a reply came.
pub enum RpcError {
    /// The reply carries another id than the request.
    IdMismatch,
    /// The runtime reported an error, with this message.
    Remote(String),
    /// The reply has neither an error nor a result.
    MissingResult,
}

/// The message of a reported error that lacks one.
pub open spec fn default_error_message() -> Seq<char> {
    "Playwright runtime 调用失败"@
}

/// The message of a reported error.
pub open spec fn remote_message(message: Option<String>) -> Seq<char> {
    match message {
        Some(m) => m@,
        None => default_error_message(),
    }
}

/// The reply answers the request with this id.
pub open spec fn id_matches(expected: u64, reply: RpcReply) -> bool {
    match reply.id {
        Some(text) => text@ == decimal(expected as nat),
        None => false,
    }
}

/// The judgement of a reply, case by case: a wrong id first, then a
/// reported error, then the result.
pub open spec fn reply_judged(expected: u64, reply: RpcReply, r: Result<serde_json::Value, RpcError>) -> bool {
    match r {
        Ok(v) => id_matches(expected, reply) && reply.error is None && reply.result == Some(v),
        Err(RpcError::IdMismatch) => !id_matches(expected, reply),
        Err(RpcError::Remote(m)) => id_matches(expected, reply) && reply.error is Some && m@
            == remote_message(reply.error->0),
        Err(RpcError::MissingResult) => id_matches(expected, reply) && reply.error is None
            && reply.result is None,
    }
}

/// The message of an error.
pub open spec fn rpc_error_message(e: RpcError) -> Seq<char> {
    match e {
        RpcError::IdMismatch => "Playwright runtime 响应 ID 不匹配"@,
        RpcError::Remote(m) => m@,
        RpcError::MissingResult => "Playwright runtime 响应缺少 result"@,
    }
}

impl RpcError {
    /// The message shown for the error.
    pub fn message(&self) -> (text: String)
        ensures
            text@ == rpc_error_message(*self),
    {
        match self {
            RpcError::IdMismatch => "Playwright runtime 响应 ID 不匹配".to_owned(),
            RpcError::Remote(m) => m.clone(),
            RpcError::MissingResult => "Playwright runtime 响应缺少 result".to_owned(),
        }
    }
}

/// What a shutdown found and did.
#[derive(PartialEq, Eq, Structural, Clone, Copy, Debug)]
pub struct ShutdownReport {
    /// A runtime process was up.
    pub was_running: bool,
    /// Whether it exited by itself after the shutdown request; `None` when
    /// none was up.
    pub graceful: Option<bool>,
}

/// The first step of a shutdown.
pub enum ShutdownStep {
    /// No runtime process is up: nothing to do.
    Idle(ShutdownReport),
    /// Send the shutdown request with this id, then wait for the process.
    Send(u64),
}

/// What the laws of the exchange see of a session: whether a runtime
/// process is up, and the id of the next request.
#[derive(PartialEq, Eq, Structural, Clone, Copy, Debug)]
pub struct SessionState {
    /// A runtime process is up.
    pub running: bool,
    /// The id that the next request gets.
    pub next_id: u64,
}

/// The operations on a session, in the order a caller makes them.
#[derive(PartialEq, Eq, Structural, Clone, Copy, Debug)]
pub enum SessionEvent {
    /// A call asks for the id of its request.
    BeginCall,
    /// A runtime process was started.
    Started,
    /// The exchange with the process failed.
    TransportFailed,
    /// A reply came; whether it carries the id of its request.
    Replied(bool),
    /// A shutdown asks for the id of its request.
    BeginShutdown,
    /// The shutdown ended.
    FinishShutdown,
}

/// The state after one operation.
pub open spec fn session_step(s: SessionState, e: SessionEvent) -> SessionState {
    match e {
        SessionEvent::BeginCall | SessionEvent::BeginShutdown => if s.running {
            SessionState { running: true, next_id: next_counter(s.next_id) }
        } else {
            s
        },
        SessionEvent::Started => SessionState { running: true, next_id: s.next_id },
        SessionEvent::TransportFailed | SessionEvent::FinishShutdown => SessionState {
            running: false,
            next_id: s.next_id,
        },
        SessionEvent::Replied(matches) => SessionState {
            running: s.running && matches,
            next_id: s.next_id,
        },
    }
}

/// The id of the request that an operation sends: a call or a shutdown
/// sends one only while a process is up.
pub open spec fn sent_id(s: SessionState, e: SessionEvent) -> Option<u64> {
    match e {
        SessionEvent::BeginCall | SessionEvent::BeginShutdown => if s.running {
            Some(s.next_id)
        } else {
            None
        },
        _ => None,
    }
}

/// The state after a sequence of operations.
pub open spec fn run_session(s: SessionState, es: Seq<SessionEvent>) -> SessionState
    decreases es.len(),
{
    if es.len() == 0 {
        s
    } else {
        session_step(run_session(s, es.drop_last()), es.last())
    }
}

/// The ids of the requests sent along a sequence of operations, in the
/// order they are sent.
pub open spec fn ids_sent(s: SessionState, es: Seq<SessionEvent>) -> Seq<u64>
    decreases es.len(),
{
    if es.len() == 0 {
        Seq::empty()
    } else {
        let before = ids_sent(s, es.drop_last());
        match sent_id(run_session(s, es.drop_last()), es.last()) {
            Some(id) => before.push(id),
            None => before,
        }
    }
}

/// The number of distinct values of a request id.
pub open spec fn id_space() -> int {
    0x1_0000_0000_0000_0000
}

/// The state of a new session.
pub open spec fn fresh_session() -> SessionState {
    SessionState { running: false, next_id: 1 }
}

/// An operation that gives up the process.
pub open spec fn drops_process(e: SessionEvent) -> bool {
    match e {
        SessionEvent::TransportFailed | SessionEvent::FinishShutdown => true,
        SessionEvent::Replied(matches) => !matches,
        _ => false,
    }
}

proof fn lemma_ids_sent_counted(s: SessionState, es: Seq<SessionEvent>)
    ensures
        run_session(s, es).next_id == (s.next_id + ids_sent(s, es).len()) % id_space(),
        forall|k: int|
            0 <= k < ids_sent(s, es).len() ==> #[trigger] ids_sent(s, es)[k] == (s.next_id + k)
                % id_space(),
    decreases es.len(),
{
    if es.len() > 0 {
        let prev = es.drop_last();
        lemma_ids_sent_counted(s, prev);
        let t = run_session(s, prev);
        let n = ids_sent(s, prev).len();
        match sent_id(t, es.last()) {
            Some(id) => {
                assert(id == t.next_id);
                assert(next_counter(t.next_id) == (t.next_id + 1) % id_space());
                assert((t.next_id + 1) % id_space() == (s.next_id + n + 1) % id_space()) by {
                    vstd::arithmetic::div_mod::lemma_add_mod_noop(
                        s.next_id + n,
                        1,
                        id_space(),
                    );
                    vstd::arithmetic::div_mod::lemma_small_mod(1, id_space() as nat);
                    vstd::arithmetic::div_mod::lemma_mod_twice(s.next_id + n, id_space());
                }
                assert(ids_sent(s, es) == ids_sent(s, prev).push(id));
            },
            None => {
                assert(ids_sent(s, es) == ids_sent(s, prev));
            },
        }
    }
}

/// Every request that a session sends carries the next value of its
/// counter: the ids along any sequence of operations are consecutive,
/// counting on from the session's next id (modulo the id space).
pub proof fn lemma_ids_consecutive(s: SessionState, es: Seq<SessionEvent>, k: int)
    requires
        0 <= k < ids_sent(s, es).len(),
    ensures
        ids_sent(s, es)[k] == (s.next_id + k) % id_space(),
{
    lemma_ids_sent_counted(s, es);
}

/// No two requests of a session carry the same id, as long as fewer
/// requests are sent than there are ids.
pub proof fn lemma_ids_distinct(s: SessionState, es: Seq<SessionEvent>, j: int, k: int)
    requires
        0 <= j < k < ids_sent(s, es).len(),
        ids_sent(s, es).len() <= id_space(),
    ensures
        ids_sent(s, es)[j] != ids_sent(s, es)[k],
{
    lemma_ids_sent_counted(s, es);
    let a = s.next_id + j;
    let b = s.next_id + k;
    if a % id_space() == b % id_space() {
        vstd::arithmetic::div_mod::lemma_fundamental_div_mod(a, id_space());
        vstd::arithmetic::div_mod::lemma_fundamental_div_mod(b, id_space());
        assert(id_space() * (b / id_space() - a / id_space()) == b - a) by (nonlinear_arith)
            requires
                a == id_space() * (a / id_space()) + a % id_space(),
                b == id_space() * (b / id_space()) + b % id_space(),
                a % id_space() == b % id_space(),
        ;
        assert(false) by (nonlinear_arith)
            requires
                id_space() * (b / id_space() - a / id_space()) == b - a,
                0 < b - a < id_space(),
                id_space() > 0,
        ;
    }
}

/// A new session numbers its requests 1, 2, 3, ... in the order they are
/// sent.
pub proof fn lemma_fresh_session_ids(es: Seq<SessionEvent>, k: int)
    requires
        0 <= k < ids_sent(fresh_session(), es).len(),
        k + 1 < id_space(),
    ensures
        ids_sent(fresh_session(), es)[k] == k + 1,
{
    lemma_ids_sent_counted(fresh_session(), es);
    vstd::arithmetic::div_mod::lemma_small_mod((k + 1) as nat, id_space() as nat);
}

/// Without a process, a call sends nothing and leaves the session as it
/// was, so a call whose start fails is retried with the same id; once the
/// process is started, the call sends the id it would have sent.
pub proof fn lemma_start_before_send(s: SessionState)
    requires
        !s.running,
    ensures
        sent_id(s, SessionEvent::BeginCall) is None,
        session_step(s, SessionEvent::BeginCall) == s,
        sent_id(session_step(s, SessionEvent::Started), SessionEvent::BeginCall) == Some(
            s.next_id,
        ),
{
}

/// While nothing gives up the process, a session with a process keeps it,
/// and every call sends its request on it: no new runtime is started.
pub proof fn lemma_process_reused(s: SessionState, es: Seq<SessionEvent>)
    requires
        s.running,
        forall|k: int| 0 <= k < es.len() ==> !drops_process(#[trigger] es[k]),
    ensures
        run_session(s, es).running,
        forall|k: int|
            0 <= k < es.len() && es[k] == SessionEvent::BeginCall ==> (sent_id(
                #[trigger] run_session(s, es.take(k)),
                es[k],
            ) is Some),
    decreases es.len(),
{
    if es.len() > 0 {
        let prev = es.drop_last();
        lemma_process_reused(s, prev);
        assert forall|k: int|
            0 <= k < es.len() && es[k] == SessionEvent::BeginCall implies (sent_id(
            #[trigger] run_session(s, es.take(k)),
            es[k],
        ) is Some) by {
            if k < prev.len() {
                assert(es.take(k) == prev.take(k));
                assert(prev[k] == es[k]);
            } else {
                assert(es.take(k) == prev);
            }
        }
    }
}

/// A failed exchange, a reply with another id and the end of a shutdown
/// give up the process, so the next call sends nothing until a new process
/// is started; a starting process, a reply with the right id and a failed
/// start keep what the session had; no operation but sending a request
/// moves the counter.
pub proof fn lemma_session_transitions(s: SessionState)
    ensures
        !session_step(s, SessionEvent::TransportFailed).running,
        !session_step(s, SessionEvent::Replied(false)).running,
        !session_step(s, SessionEvent::FinishShutdown).running,
        sent_id(session_step(s, SessionEvent::TransportFailed), SessionEvent::BeginCall) is None,
        session_step(s, SessionEvent::Started).running,
        session_step(s, SessionEvent::Replied(true)).running == s.running,
        session_step(s, SessionEvent::TransportFailed).next_id == s.next_id,
        session_step(s, SessionEvent::Replied(true)).next_id == s.next_id,
        session_step(s, SessionEvent::Replied(false)).next_id == s.next_id,
        session_step(s, SessionEvent::Started).next_id == s.next_id,
        session_step(s, SessionEvent::FinishShutdown).next_id == s.next_id,
        s.running ==> sent_id(s, SessionEvent::BeginCall) == Some(s.next_id)
            && session_step(s, SessionEvent::BeginCall).next_id == (s.next_id + 1)
            % id_space(),
        s.running ==> sent_id(s, SessionEvent::BeginShutdown) == Some(s.next_id),
{
}

/// A call's result comes from the reply to its own request: a reply that is
/// accepted carries the id of that request, and so the id of no other one.
pub proof fn lemma_result_from_own_reply(
    expected: u64,
    other: u64,
    reply: RpcReply,
    r: Result<serde_json::Value, RpcError>,
)
    requires
        reply_judged(expected, reply, r),
        r is Ok,
        other != expected,
    ensures
        id_matches(expected, reply),
        !id_matches(other, reply),
{
    if id_matches(other, reply) {
        lemma_decimal_injective(expected as nat, other as nat);
    }
}

/// The state of the connection to the runtime: whether a runtime process is
/// up, and the id of the next request.
pub struct RpcSession {
    running: bool,
    next_id: u64,
}

impl RpcSession {
    /// What the laws see of the session.
    pub closed spec fn state(self) -> SessionState {
        SessionState { running: self.running, next_id: self.next_id }
    }

    /// A runtime process is up.
    pub open spec fn has_process(self) -> bool {
        self.state().running
    }

    /// The id that the next request gets.
    pub open spec fn counter(self) -> u64 {
        self.state().next_id
    }

    /// No process yet; the first request gets id 1.
    pub fn new() -> (s: RpcSession)
        ensures
            s.state() == fresh_session(),
    {
        RpcSession { running: false, next_id: 1 }
    }

    /// Whether a runtime process must be started before a call.
    pub fn needs_start(&self) -> (b: bool)
        ensures
            b == !self.has_process(),
    {
        !self.running
    }

    /// Records that a runtime process was started.
    pub fn mark_started(&mut self)
        ensures
            final(self).state() == session_step(old(self).state(), SessionEvent::Started),
    {
        self.running = true;
    }

    fn issue_id(&mut self) -> (id: u64)
        ensures
            id == old(self).counter(),
            final(self).counter() == next_counter(old(self).counter()),
            final(self).has_process() == old(self).has_process(),
    {
        let id = self.next_id;
        self.next_id = if self.next_id == u64::MAX {
            0
        } else {
            self.next_id + 1
        };
        id
    }

    /// Starts a call: without a process it gives no id and changes nothing,
    /// and the process must be started first; otherwise the request takes the
    /// next id.
    pub fn begin_call(&mut self) -> (id: Option<u64>)
        ensures
            final(self).state() == session_step(old(self).state(), SessionEvent::BeginCall),
            id == sent_id(old(self).state(), SessionEvent::BeginCall),
    {
        if !self.running {
            return None;
        }
        Some(self.issue_id())
    }

    /// Records that the exchange with the process failed (writing, reading
    /// or decoding): the process is given up, and the next call starts a new
    /// one.
    pub fn transport_failed(&mut self)
        ensures
            final(self).state() == session_step(old(self).state(), SessionEvent::TransportFailed),
    {
        self.running = false;
    }

    /// Judges the reply to the request with id `expected`. A reply with
    /// another id gives up the process, as a failed exchange does; a
    /// reported error gives its message, or a default one; otherwise the
    /// result is returned, and its absence is an error.
    pub fn finish_call(&mut self, expected: u64, reply: RpcReply) -> (r: Result<serde_json::Value, RpcError>)
        ensures
            reply_judged(expected, reply, r),
            final(self).state() == session_step(
                old(self).state(),
                SessionEvent::Replied(id_matches(expected, reply)),
            ),
    {
        let expected_text = request_id_text(expected);
        let matches = match &reply.id {
            Some(text) => *text == expected_text,
            None => false,
        };
        if !matches {
            self.running = false;
            return Err(RpcError::IdMismatch);
        }
        match reply.error {
            Some(message) => {
                let text = match message {
                    Some(m) => m,
                    None => "Playwright runtime 调用失败".to_owned(),
                };
                Err(RpcError::Remote(text))
            },
            None => match reply.result {
                Some(v) => Ok(v),
                None => Err(RpcError::MissingResult),
            },
        }
    }

    /// Starts a shutdown: with no process up there is nothing to do;
    /// otherwise the shutdown request takes the next id.
    pub fn begin_shutdown(&mut self) -> (step: ShutdownStep)
        ensures
            final(self).state() == session_step(old(self).state(), SessionEvent::BeginShutdown),
            match step {
                ShutdownStep::Idle(report) => sent_id(
                    old(self).state(),
                    SessionEvent::BeginShutdown,
                ) is None && report == ShutdownReport { was_running: false, graceful: None },
                ShutdownStep::Send(id) => sent_id(old(self).state(), SessionEvent::BeginShutdown)
                    == Some(id),
            },
    {
        if !self.running {
            return ShutdownStep::Idle(ShutdownReport { was_running: false, graceful: None });
        }
        ShutdownStep::Send(self.issue_id())
    }

    /// Ends a shutdown once the process exited by itself (`exited`) or had
    /// to be killed: no process is up any more.
    pub fn finish_shutdown(&mut self, exited: bool) -> (report: ShutdownReport)
        ensures
            final(self).state() == session_step(old(self).state(), SessionEvent::FinishShutdown),
            report == (ShutdownReport { was_running: true, graceful: Some(exited) }),
    {
        self.running = false;
        ShutdownReport { was_running: true, graceful: Some(exited) }
    }
}

/// The boolean of member `key` of a document.
pub open spec fn json_bool_member(v: serde_json::Value, key: Seq<char>) -> Option<bool> {
    bool_in(json_member(v, key))
}

/// The reply of the daemon to a forwarded runtime call: `ok` must be
/// `true`, else the call failed with the reply's `error` text, or a default
/// one; then the `result` is returned, and its absence is an error.
pub fn daemon_call_result(ok: Option<bool>, error: Option<String>, result: Option<serde_json::Value>) -> (r: Result<serde_json::Value, RpcError>)
    ensures
        match r {
            Ok(v) => ok == Some(true) && result == Some(v),
            Err(RpcError::Remote(m)) => ok != Some(true) && m@ == remote_message(error),
            Err(RpcError::MissingResult) => ok == Some(true) && result is None,
            Err(RpcError::IdMismatch) => false,
        },
{
    let accepted = match ok {
        Some(b) => b,
        None => false,
    };
    if !accepted {
        let text = match error {
            Some(m) => m,
            None => "Playwright runtime 调用失败".to_owned(),
        };
        return Err(RpcError::Remote(text));
    }
    match result {
        Some(v) => Ok(v),
        None => Err(RpcError::MissingResult),
    }
}

/// The judgement of the daemon's reply to a forwarded runtime call, read
/// out of the reply document: its `ok` flag, its `error` text and its
/// `result`.
pub fn daemon_reply(response: &serde_json::Value) -> (r: Result<serde_json::Value, RpcError>)
    ensures
        match r {
            Ok(v) => json_bool_member(*response, "ok"@) == Some(true) && json_member(
                *response,
                "result"@,
            ) == Some(v),
            Err(RpcError::Remote(m)) => json_bool_member(*response, "ok"@) != Some(true) && m@
                == match member_text(*response, "error"@) {
                Some(t) => t,
                None => default_error_message(),
            },
            Err(RpcError::MissingResult) => json_bool_member(*response, "ok"@) == Some(true)
                && json_member(*response, "result"@) is None,
            Err(RpcError::IdMismatch) => false,
        },
{
    let ok = get_bool_in(&json_get_member(response, "ok"));
    let error = get_member_text(response, "error");
    let result = json_get_member(response, "result");
    daemon_call_result(ok, error, result)
}

/// The text of the reply's id is the decimal text of the request's id.
pub open spec fn carries_id(expected: u64, reply: RpcReply) -> bool {
    match reply.id {
        Some(t) => t@ == decimal(expected as nat),
        None => false,
    }
}

/// How a reply is judged, in this order: a reply without the request's id
/// is refused as a mismatch whatever else it holds; a reply with the id and
/// an error fails with the error's message, or the default one; a reply
/// with the id and no error gives its result, and fails when it has none.
pub proof fn lemma_reply_judgement(expected: u64, reply: RpcReply, r: Result<serde_json::Value, RpcError>)
    requires
        reply_judged(expected, reply, r),
    ensures
        (r matches Err(RpcError::IdMismatch)) == !carries_id(expected, reply),
        carries_id(expected, reply) && reply.error is Some ==> (match r {
            Err(RpcError::Remote(m)) => m@ == match reply.error->0 {
                Some(text) => text@,
                None => "Playwright runtime 调用失败"@,
            },
            _ => false,
        }),
        carries_id(expected, reply) && reply.error is None ==> (match reply.result {
            Some(v) => r == Ok::<serde_json::Value, RpcError>(v),
            None => r matches Err(RpcError::MissingResult),
        }),
{
}

} // verus!
