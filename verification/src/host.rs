//! The host: what is asked of it, what it answers, and the envelope its
//! answers come in.
//!
//! Nothing here reaches the host. A computation that needs it is given the
//! answers received so far, writes down each request it makes, and stops at
//! the first one without an answer. Whoever drives it performs that last
//! request, adds the answer and runs the computation again.

use std::collections::VecDeque;

use vstd::prelude::*;
use vstd::string::*;

use crate::json::{self, Json, JsonView};
use crate::records::{Orchestrator, OrchestratorView};

verus! {

/// The functions that the host offers.
#[derive(Debug, Clone, Copy, PartialEq, Eq, Structural)]
pub enum HostFn {
    InterruptSession,
    TerminateAgent,
    ClearSession,
    SendMessage,
    ListSessions,
    CallerScope,
    AskUser,
    GetAnswer,
    StorePut,
    StoreGet,
    StoreList,
    StoreDelete,
    ListFolders,
    ListModels,
    CreateSession,
    OrchestrateSend,
    OrchestrateSessionState,
    OrchestrateCreateSession,
    OrchestrateSetPrompt,
}

/// What is asked of the outside.
#[derive(Debug, Clone)]
pub enum Request {
    /// Call a host function.
    Call(HostFn, Json),
    /// Read a stored document as an orchestrator record.
    Decode(Json),
    /// The next number of approval tokens in this process.
    NextToken,
    /// The next number of orchestrator ids in this process.
    NextId,
    /// Take the engine lease, without waiting for it.
    AcquireLease,
    /// Give the engine lease back.
    ReleaseLease,
    /// Give up: the computation cannot go on.
    Abort(String),
}

/// What a [`Request`] holds.
#[verifier::ext_equal]
pub enum RequestView {
    Call(HostFn, JsonView),
    Decode(JsonView),
    NextToken,
    NextId,
    AcquireLease,
    ReleaseLease,
    Abort(Seq<char>),
}

impl View for Request {
    type V = RequestView;

    open spec fn view(&self) -> RequestView {
        match self {
            Request::Call(f, input) => RequestView::Call(*f, input@),
            Request::Decode(doc) => RequestView::Decode(doc@),
            Request::NextToken => RequestView::NextToken,
            Request::NextId => RequestView::NextId,
            Request::AcquireLease => RequestView::AcquireLease,
            Request::ReleaseLease => RequestView::ReleaseLease,
            Request::Abort(why) => RequestView::Abort(why@),
        }
    }
}

impl DeepView for Request {
    type V = RequestView;

    open spec fn deep_view(&self) -> RequestView {
        self@
    }
}

/// An answer from the outside.
#[derive(Debug, Clone)]
pub enum Reply {
    /// What a host function returned.
    Returned(Json),
    /// The message with which a host function refused.
    Refused(String),
    /// The record that a document is, if it is one.
    Record(Option<Orchestrator>),
    /// The next number of a sequence.
    Count(u64),
    /// Whether the lease was taken.
    Lease(bool),
    /// The lease was given back.
    Released,
}

/// What a [`Reply`] holds.
#[verifier::ext_equal]
pub enum ReplyView {
    Host(Result<JsonView, Seq<char>>),
    Record(Option<OrchestratorView>),
    Count(u64),
    Lease(bool),
    Released,
}

/// What a result holds, where there is one yet.
pub open spec fn outcome<T: DeepView>(r: Option<Result<T, String>>) -> Option<
    Result<T::V, Seq<char>>,
> {
    match r {
        Some(r) => Some(json::result_view(r)),
        None => None,
    }
}

impl View for Reply {
    type V = ReplyView;

    open spec fn view(&self) -> ReplyView {
        match self {
            Reply::Returned(v) => ReplyView::Host(Ok(v@)),
            Reply::Refused(e) => ReplyView::Host(Err(e@)),
            Reply::Record(o) => ReplyView::Record(o.deep_view()),
            Reply::Count(n) => ReplyView::Count(*n),
            Reply::Lease(taken) => ReplyView::Lease(*taken),
            Reply::Released => ReplyView::Released,
        }
    }
}

impl DeepView for Reply {
    type V = ReplyView;

    open spec fn deep_view(&self) -> ReplyView {
        self@
    }
}

/// The answers that are left, and the requests made so far.
#[verifier::ext_equal]
pub struct Script {
    pub left: Seq<ReplyView>,
    pub asked: Seq<RequestView>,
}

impl Script {
    /// Makes a request: the next answer, if there is one.
    pub open spec fn ask(self, q: RequestView) -> (Script, Option<ReplyView>) {
        let asked = self.asked.push(q);
        if self.left.len() == 0 {
            (Script { asked, ..self }, None)
        } else {
            (Script { asked, left: self.left.skip(1) }, Some(self.left[0]))
        }
    }

    /// Calls a host function.
    pub open spec fn call(self, f: HostFn, input: JsonView) -> (
        Script,
        Option<Result<JsonView, Seq<char>>>,
    ) {
        let (s, r) = self.ask(RequestView::Call(f, input));
        (
            s,
            match r {
                Some(ReplyView::Host(r)) => Some(r),
                _ => None,
            },
        )
    }

    /// Reads a stored document as a record.
    pub open spec fn decode(self, doc: JsonView) -> (Script, Option<Option<OrchestratorView>>) {
        let (s, r) = self.ask(RequestView::Decode(doc));
        (
            s,
            match r {
                Some(ReplyView::Record(o)) => Some(o),
                _ => None,
            },
        )
    }

    /// Asks for the next number of a sequence.
    pub open spec fn count(self, q: RequestView) -> (Script, Option<u64>) {
        let (s, r) = self.ask(q);
        (
            s,
            match r {
                Some(ReplyView::Count(n)) => Some(n),
                _ => None,
            },
        )
    }

    /// Takes the lease.
    pub open spec fn acquire(self) -> (Script, Option<bool>) {
        let (s, r) = self.ask(RequestView::AcquireLease);
        (
            s,
            match r {
                Some(ReplyView::Lease(taken)) => Some(taken),
                _ => None,
            },
        )
    }

    /// Gives the lease back.
    pub open spec fn release(self) -> (Script, Option<()>) {
        let (s, r) = self.ask(RequestView::ReleaseLease);
        (
            s,
            match r {
                Some(ReplyView::Released) => Some(()),
                _ => None,
            },
        )
    }

    /// Gives up.
    pub open spec fn abort(self, why: Seq<char>) -> Script {
        Script { asked: self.asked.push(RequestView::Abort(why)), ..self }
    }
}

/// The answers that are left, and the requests made so far.
#[derive(Debug)]
pub struct Host {
    left: VecDeque<Reply>,
    asked: Vec<Request>,
}

impl View for Host {
    type V = Script;

    closed spec fn view(&self) -> Script {
        Script { left: self.left.deep_view(), asked: self.asked.deep_view() }
    }
}

impl Host {
    /// A host with the answers received so far, oldest first.
    pub fn new(replies: Vec<Reply>) -> (r: Host)
        ensures
            r@ == (Script { left: replies.deep_view(), asked: Seq::empty() }),
    {
        let mut left: VecDeque<Reply> = VecDeque::new();
        let ghost all = replies@;
        for reply in it: replies
            invariant
                it.seq() == all,
                left@ == all.take(it.index() as int),
        {
            left.push_back(reply);
        }
        let r = Host { left, asked: Vec::new() };
        assert(r.left.deep_view() =~= replies.deep_view());
        r
    }

    /// The requests made so far.
    pub fn asked(&self) -> (r: &Vec<Request>)
        ensures
            r.deep_view() == self@.asked,
    {
        &self.asked
    }

    /// The last request.
    pub fn pending(&self) -> (r: Option<&Request>)
        ensures
            r.deep_view() == (if self@.asked.len() == 0 {
                None
            } else {
                Some(self@.asked.last())
            }),
    {
        if self.asked.len() == 0 {
            None
        } else {
            Some(&self.asked[self.asked.len() - 1])
        }
    }

    /// Makes a request: the next answer, if there is one.
    fn ask(&mut self, q: Request) -> (r: Option<Reply>)
        ensures
            final(self)@ == old(self)@.ask(q@).0,
            r.deep_view() == old(self)@.ask(q@).1,
    {
        let ghost before = *self;
        self.asked.push(q);
        assert(self.asked.deep_view() =~= before.asked.deep_view().push(q@));
        let r = self.left.pop_front();
        assert(before.left@.len() > 0 ==> self.left.deep_view() =~= before.left.deep_view().skip(
            1,
        ));
        r
    }

    /// Calls a host function; nothing where its answer is not there yet.
    pub fn call(&mut self, f: HostFn, input: Json) -> (r: Option<Result<Json, String>>)
        ensures
            final(self)@ == old(self)@.call(f, input@).0,
            outcome(r) == old(self)@.call(f, input@).1,
    {
        match self.ask(Request::Call(f, input)) {
            Some(Reply::Returned(v)) => Some(Ok(v)),
            Some(Reply::Refused(e)) => Some(Err(e)),
            _ => None,
        }
    }

    /// Reads a stored document as a record.
    pub fn decode(&mut self, doc: Json) -> (r: Option<Option<Orchestrator>>)
        ensures
            final(self)@ == old(self)@.decode(doc@).0,
            r.deep_view() == old(self)@.decode(doc@).1,
    {
        match self.ask(Request::Decode(doc)) {
            Some(Reply::Record(o)) => Some(o),
            _ => None,
        }
    }

    /// The next number of approval tokens.
    pub fn next_token(&mut self) -> (r: Option<u64>)
        ensures
            final(self)@ == old(self)@.count(RequestView::NextToken).0,
            r == old(self)@.count(RequestView::NextToken).1,
    {
        match self.ask(Request::NextToken) {
            Some(Reply::Count(n)) => Some(n),
            _ => None,
        }
    }

    /// The next number of orchestrator ids.
    pub fn next_id(&mut self) -> (r: Option<u64>)
        ensures
            final(self)@ == old(self)@.count(RequestView::NextId).0,
            r == old(self)@.count(RequestView::NextId).1,
    {
        match self.ask(Request::NextId) {
            Some(Reply::Count(n)) => Some(n),
            _ => None,
        }
    }

    /// Takes the lease, without waiting for it.
    pub fn acquire(&mut self) -> (r: Option<bool>)
        ensures
            final(self)@ == old(self)@.acquire().0,
            r == old(self)@.acquire().1,
    {
        match self.ask(Request::AcquireLease) {
            Some(Reply::Lease(taken)) => Some(taken),
            _ => None,
        }
    }

    /// Gives the lease back.
    pub fn release(&mut self) -> (r: Option<()>)
        ensures
            final(self)@ == old(self)@.release().0,
            r == old(self)@.release().1,
    {
        match self.ask(Request::ReleaseLease) {
            Some(Reply::Released) => Some(()),
            _ => None,
        }
    }

    /// Gives up.
    pub fn abort(&mut self, why: &str)
        ensures
            final(self)@ == old(self)@.abort(why@),
    {
        let ghost before = self.asked.deep_view();
        self.asked.push(Request::Abort(why.to_owned()));
        assert(self.asked.deep_view() =~= before.push(RequestView::Abort(why@)));
    }
}

/// What an answer of the host stands for: a field `error` that is a text is a
/// refusal with that message.
pub open spec fn opened(v: JsonView) -> Result<JsonView, Seq<char>> {
    match v.text_at("error"@) {
        Some(message) => Err(message),
        None => Ok(v),
    }
}

/// Turns an answer of the host into a result: a field `error` that is a text
/// is a refusal with that message.
pub fn open_envelope(v: Json) -> (r: Result<Json, String>)
    ensures
        json::result_view(r) == opened(v@),
{
    if let Some(message) = v.text_at("error") {
        return Err(message.to_owned());
    }
    Ok(v)
}

/// The result that the text of an answer stands for.
pub open spec fn opened_text(out: Seq<char>) -> Result<JsonView, Seq<char>> {
    match json::json_parse(out) {
        Ok(v) => opened(v),
        Err(e) => Err("host returned invalid json: "@ + e),
    }
}

/// Reads the text of an answer of the host; a text that is no JSON document is
/// a refusal too.
pub fn parse_envelope(out: &str) -> (r: Result<Json, String>)
    ensures
        json::result_view(r) == opened_text(out@),
{
    match json::parse_json(out) {
        Ok(v) => open_envelope(v),
        Err(e) => Err("host returned invalid json: ".to_owned().concat(e.as_str())),
    }
}

} // verus!
