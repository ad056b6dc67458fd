//! The tool-calling protocol of one episode: from a new user turn to the
//! model's final text turn.
//!
//! An episode is a state machine. Its owner sends the turns to the model,
//! hands each reply to [`Episode::on_reply`], runs the tool that the returned
//! [`Step`] asks for and hands its result to [`Episode::on_tool_result`],
//! until a step is [`Step::Done`].
use vstd::prelude::*;
use crate::chat::{all_nonempty, ChatContent, Part, PartView, Role, Turn, turns_view};
use crate::dispatcher::{dispatch, dispatch_spec, ToolRequest, ToolRequestView, NULL_RESULT, SEARCH_LOCATION};

verus! {

/// The number of tool calls that an episode allows before it gives up.
pub const MAX_TOOL_ROUNDS: usize = 8;

/// What can end an exchange with the model without a final answer.
#[derive(Clone, Debug)]
pub enum ChatError {
    /// The model's endpoint answered with a status other than success;
    /// `body` is what it sent.
    Transport { status: u16, body: String },
    /// The model's reply has no part.
    EmptyReply,
    /// The first part of the model's reply is neither text nor a function call.
    MalformedReply,
    /// The model asked for more tool calls than the episode allows.
    RoundLimitExceeded,
}

/// The ways in which the protocol itself rejects a reply.
pub ghost enum Failure {
    EmptyReply,
    MalformedReply,
    RoundLimitExceeded,
}

/// `e` is the error that stands for `f`.
pub open spec fn error_is(e: ChatError, f: Failure) -> bool {
    match f {
        Failure::EmptyReply => e is EmptyReply,
        Failure::MalformedReply => e is MalformedReply,
        Failure::RoundLimitExceeded => e is RoundLimitExceeded,
    }
}

/// What the owner of an episode does next.
#[derive(Debug)]
pub enum Step {
    /// The episode is over; this is the model's final turn.
    Done(ChatContent),
    /// Run this tool and hand its result to [`Episode::on_tool_result`].
    RunTool(ToolRequest),
    /// Send the conversation to the model again.
    AskAgain,
}

/// The mathematical form of a [`Step`].
pub ghost enum StepView {
    Done(Turn),
    RunTool(ToolRequestView),
    AskAgain,
}

impl View for Step {
    type V = StepView;

    open spec fn view(&self) -> StepView {
        match self {
            Step::Done(c) => StepView::Done(c@),
            Step::RunTool(t) => StepView::RunTool(t@),
            Step::AskAgain => StepView::AskAgain,
        }
    }
}

/// One episode: the turns sent to the model so far, where this episode's own
/// turns begin, the tool rounds taken and allowed, and the tool call, if
/// any, whose result is awaited.
pub struct Episode {
    contents: Vec<ChatContent>,
    start: usize,
    rounds: usize,
    max_rounds: usize,
    pending: Option<String>,
}

/// The mathematical form of an [`Episode`].
pub ghost struct EpisodeView {
    pub contents: Seq<Turn>,
    pub start: nat,
    pub rounds: nat,
    pub max_rounds: nat,
    pub pending: Option<Seq<char>>,
}

impl View for Episode {
    type V = EpisodeView;

    closed spec fn view(&self) -> EpisodeView {
        EpisodeView {
            contents: turns_view(self.contents@),
            start: self.start as nat,
            rounds: self.rounds as nat,
            max_rounds: self.max_rounds as nat,
            pending: match self.pending {
                Some(n) => Some(n@),
                None => None,
            },
        }
    }
}

/// The turn that carries the result of the tool `name` back to the model.
pub open spec fn response_turn(name: Seq<char>, result: Seq<char>) -> Turn {
    Turn { role: Role::MODEL, parts: seq![PartView::FunctionResponse { name, result }] }
}

/// What a reply of the model does to an episode awaiting it, and the step
/// that follows; or why the reply is refused, the episode then unchanged.
pub open spec fn after_reply(s: EpisodeView, reply: Turn) -> Result<(EpisodeView, StepView), Failure> {
    if reply.parts.len() == 0 {
        Err(Failure::EmptyReply)
    } else {
        match reply.parts[0] {
            PartView::Text(_) => Ok((EpisodeView { contents: s.contents.push(reply), ..s }, StepView::Done(reply))),
            PartView::FunctionCall { name, args } => {
                if s.rounds >= s.max_rounds {
                    Err(Failure::RoundLimitExceeded)
                } else {
                    let called = EpisodeView { contents: s.contents.push(reply), rounds: s.rounds + 1, ..s };
                    match dispatch_spec(name, args) {
                        Some(req) => Ok((EpisodeView { pending: Some(name), ..called }, StepView::RunTool(req))),
                        None => Ok(
                            (
                                EpisodeView {
                                    contents: called.contents.push(response_turn(name, NULL_RESULT@)),
                                    ..called
                                },
                                StepView::AskAgain,
                            ),
                        ),
                    }
                }
            },
            _ => Err(Failure::MalformedReply),
        }
    }
}

/// What the result of the awaited tool call does to an episode.
pub open spec fn after_tool_result(s: EpisodeView, result: Seq<char>) -> EpisodeView {
    EpisodeView {
        contents: s.contents.push(response_turn(s.pending.unwrap(), result)),
        pending: None,
        ..s
    }
}

impl Episode {
    /// Well-formed: the episode's own turns begin within the contents, and
    /// every turn has a part.
    pub closed spec fn wf(&self) -> bool {
        &&& self.start <= self.contents.len()
        &&& all_nonempty(self@.contents)
    }

    /// Starts an episode on the conversation so far, the new user turn
    /// included, allowing at most `max_rounds` tool calls.
    pub fn start(history: Vec<ChatContent>, max_rounds: usize) -> (r: Episode)
        requires
            all_nonempty(turns_view(history@)),
        ensures
            r.wf(),
            r@ == (EpisodeView {
                contents: turns_view(history@),
                start: history.len() as nat,
                rounds: 0,
                max_rounds: max_rounds as nat,
                pending: None,
            }),
    {
        let start = history.len();
        Episode { contents: history, start, rounds: 0, max_rounds, pending: None }
    }

    /// The turns to send to the model.
    pub fn contents(&self) -> (r: &Vec<ChatContent>)
        ensures
            turns_view(r@) == self@.contents,
    {
        &self.contents
    }

    /// Whether the result of a tool call is awaited.
    pub fn awaiting_tool(&self) -> (r: bool)
        ensures
            r == self@.pending.is_some(),
    {
        self.pending.is_some()
    }

    /// The turns that this episode added to the conversation it started on.
    pub fn new_turns(&self) -> (r: Vec<ChatContent>)
        requires
            self.wf(),
        ensures
            turns_view(r@) == self@.contents.skip(self@.start as int),
            all_nonempty(turns_view(r@)),
    {
        let mut r: Vec<ChatContent> = Vec::new();
        let mut i: usize = self.start;
        while i < self.contents.len()
            invariant
                self.start <= i <= self.contents.len(),
                r@.len() == i - self.start,
                forall|j: int| 0 <= j < r@.len() ==> (#[trigger] r@[j])@ == self.contents@[self.start + j]@,
            decreases self.contents.len() - i,
        {
            r.push(self.contents[i].copy());
            i = i + 1;
        }
        assert(turns_view(r@) =~= self@.contents.skip(self@.start as int));
        r
    }

    /// Takes the model's reply: a text reply ends the episode; a function
    /// call is recorded and either asks for a tool run or, for an unknown
    /// tool, is answered at once with a `null` result.
    pub fn on_reply(&mut self, reply: ChatContent) -> (r: Result<Step, ChatError>)
        requires
            old(self).wf(),
            old(self)@.pending is None,
        ensures
            final(self).wf(),
            match after_reply(old(self)@, reply@) {
                Ok((s, step)) => r is Ok && r->Ok_0@ == step && final(self)@ == s,
                Err(f) => r is Err && error_is(r->Err_0, f) && final(self)@ == old(self)@,
            },
    {
        if reply.parts.len() == 0 {
            return Err(ChatError::EmptyReply);
        }
        let ghost s = self@;
        match &reply.parts[0] {
            Part::Text(_) => {
                let done = reply.copy();
                self.contents.push(reply);
                proof {
                    assert(turns_view(self.contents@) =~= s.contents.push(done@));
                }
                Ok(Step::Done(done))
            },
            Part::FunctionCall { name, args } => {
                if self.rounds >= self.max_rounds {
                    return Err(ChatError::RoundLimitExceeded);
                }
                let name = name.clone();
                let request = dispatch(&name, args);
                let ghost reply_view = reply@;
                self.contents.push(reply);
                self.rounds = self.rounds + 1;
                proof {
                    assert(turns_view(self.contents@) =~= s.contents.push(reply_view));
                }
                match request {
                    Some(req) => {
                        self.pending = Some(name);
                        Ok(Step::RunTool(req))
                    },
                    None => {
                        let ghost before = turns_view(self.contents@);
                        let response = ChatContent {
                            role: Role::MODEL,
                            parts: vec![Part::FunctionResponse { name, result: String::from_str(NULL_RESULT) }],
                        };
                        self.contents.push(response);
                        proof {
                            assert(response@.parts =~= response_turn(name@, NULL_RESULT@).parts);
                            assert(turns_view(self.contents@) =~= before.push(response@));
                        }
                        Ok(Step::AskAgain)
                    },
                }
            },
            _ => Err(ChatError::MalformedReply),
        }
    }

    /// Takes the result of the awaited tool call, as JSON text.
    pub fn on_tool_result(&mut self, result: String)
        requires
            old(self).wf(),
            old(self)@.pending is Some,
        ensures
            final(self).wf(),
            final(self)@ == after_tool_result(old(self)@, result@),
    {
        let ghost s = self@;
        let name = match self.pending.take() {
            Some(n) => n,
            None => String::new(),
        };
        let response = ChatContent {
            role: Role::MODEL,
            parts: vec![Part::FunctionResponse { name, result }],
        };
        self.contents.push(response);
        proof {
            assert(response@.parts =~= response_turn(s.pending.unwrap(), result@).parts);
            assert(turns_view(self.contents@) =~= s.contents.push(response@));
        }
    }
}

/// An event that the owner of an episode hands to it.
pub ghost enum Event {
    /// A reply of the model.
    Reply(Turn),
    /// The result of the awaited tool call.
    ToolResult(Seq<char>),
}

/// The episode after the events in order. A reply that comes while a tool
/// result is awaited, a result that comes while none is, and a refused reply
/// leave the episode as it was.
pub open spec fn run(s: EpisodeView, events: Seq<Event>) -> EpisodeView
    decreases events.len(),
{
    if events.len() == 0 {
        s
    } else {
        let next = match events[0] {
            Event::Reply(reply) => if s.pending is None {
                match after_reply(s, reply) {
                    Ok((n, _)) => n,
                    Err(_) => s,
                }
            } else {
                s
            },
            Event::ToolResult(result) => if s.pending is Some {
                after_tool_result(s, result)
            } else {
                s
            },
        };
        run(next, events.drop_first())
    }
}

/// A reply whose first part is text ends the episode: it is appended as the
/// one new turn and returned, and no tool is run.
pub proof fn lemma_text_reply_ends_episode(s: EpisodeView, reply: Turn)
    requires
        reply.parts.len() > 0,
        reply.parts[0] is Text,
    ensures
        after_reply(s, reply) == Ok::<(EpisodeView, StepView), Failure>(
            (EpisodeView { contents: s.contents.push(reply), ..s }, StepView::Done(reply)),
        ),
        s.contents.push(reply).len() == s.contents.len() + 1,
{
}

/// A reply whose first part calls a known tool, followed by that tool's
/// result, appends exactly two turns: the call, then a response turn that
/// names the called tool and carries the result.
pub proof fn lemma_tool_round(s: EpisodeView, reply: Turn, result: Seq<char>)
    requires
        s.rounds < s.max_rounds,
        reply.parts.len() > 0,
        reply.parts[0] is FunctionCall,
        dispatch_spec(reply.parts[0]->FunctionCall_name, reply.parts[0]->FunctionCall_args) is Some,
    ensures
        ({
            let name = reply.parts[0]->FunctionCall_name;
            let args = reply.parts[0]->FunctionCall_args;
            &&& after_reply(s, reply) is Ok
            &&& after_reply(s, reply)->Ok_0.1 == StepView::RunTool(dispatch_spec(name, args).unwrap())
            &&& after_tool_result(after_reply(s, reply)->Ok_0.0, result).contents
                == s.contents + seq![reply, response_turn(name, result)]
            &&& response_turn(name, result).parts[0]->FunctionResponse_name == name
        }),
{
    let name = reply.parts[0]->FunctionCall_name;
    let after = after_tool_result(after_reply(s, reply)->Ok_0.0, result).contents;
    assert(after =~= s.contents + seq![reply, response_turn(name, result)]);
}

/// A call of a tool that is not known is no failure: the call and a
/// response turn with a `null` result are appended, nothing is run, and the
/// model is asked again.
pub proof fn lemma_unknown_tool_answers_null(s: EpisodeView, reply: Turn)
    requires
        s.pending is None,
        s.rounds < s.max_rounds,
        reply.parts.len() > 0,
        reply.parts[0] is FunctionCall,
        reply.parts[0]->FunctionCall_name != SEARCH_LOCATION@,
    ensures
        ({
            let name = reply.parts[0]->FunctionCall_name;
            &&& dispatch_spec(name, reply.parts[0]->FunctionCall_args) is None
            &&& after_reply(s, reply) is Ok
            &&& after_reply(s, reply)->Ok_0.1 == StepView::AskAgain
            &&& after_reply(s, reply)->Ok_0.0.pending is None
            &&& after_reply(s, reply)->Ok_0.0.contents
                == s.contents + seq![reply, response_turn(name, NULL_RESULT@)]
        }),
{
    let name = reply.parts[0]->FunctionCall_name;
    assert(after_reply(s, reply)->Ok_0.0.contents =~= s.contents + seq![reply, response_turn(name, NULL_RESULT@)]);
}

/// Whatever events come, the turns of an episode only grow: the turns it
/// had stay, in their places, unchanged.
pub proof fn lemma_history_grows(s: EpisodeView, events: Seq<Event>)
    ensures
        s.contents.len() <= run(s, events).contents.len(),
        run(s, events).contents.take(s.contents.len() as int) == s.contents,
    decreases events.len(),
{
    if events.len() > 0 {
        let next = match events[0] {
            Event::Reply(reply) => if s.pending is None {
                match after_reply(s, reply) {
                    Ok((n, _)) => n,
                    Err(_) => s,
                }
            } else {
                s
            },
            Event::ToolResult(result) => if s.pending is Some {
                after_tool_result(s, result)
            } else {
                s
            },
        };
        assert(next.contents.take(s.contents.len() as int) =~= s.contents);
        lemma_history_grows(next, events.drop_first());
        assert(run(s, events) == run(next, events.drop_first()));
        assert(run(s, events).contents.take(s.contents.len() as int) =~= run(
            next,
            events.drop_first(),
        ).contents.take(next.contents.len() as int).take(s.contents.len() as int));
    } else {
        assert(s.contents.take(s.contents.len() as int) =~= s.contents);
    }
}

/// The events of tool rounds: for each call, the reply that makes it, then
/// the tool's result.
pub open spec fn round_events(calls: Seq<Turn>, results: Seq<Seq<char>>) -> Seq<Event>
    decreases calls.len(),
{
    if calls.len() == 0 || results.len() == 0 {
        Seq::empty()
    } else {
        seq![Event::Reply(calls[0]), Event::ToolResult(results[0])] + round_events(
            calls.drop_first(),
            results.drop_first(),
        )
    }
}

/// Running two runs of events one after the other is running them joined.
pub proof fn lemma_run_append(s: EpisodeView, first: Seq<Event>, second: Seq<Event>)
    ensures
        run(s, first + second) == run(run(s, first), second),
    decreases first.len(),
{
    if first.len() > 0 {
        assert((first + second)[0] == first[0]);
        assert((first + second).drop_first() =~= first.drop_first() + second);
        let next = match first[0] {
            Event::Reply(reply) => if s.pending is None {
                match after_reply(s, reply) {
                    Ok((n, _)) => n,
                    Err(_) => s,
                }
            } else {
                s
            },
            Event::ToolResult(result) => if s.pending is Some {
                after_tool_result(s, result)
            } else {
                s
            },
        };
        lemma_run_append(next, first.drop_first(), second);
    } else {
        assert(first + second =~= second);
    }
}

/// Each round in which the model calls a known tool and gets its result
/// adds exactly two turns, the call and the tool's response, after all that
/// was there: after k rounds the turns sent to the model are the old ones
/// followed by 2k new ones, and the episode awaits the model again.
pub proof fn lemma_rounds_add_two_turns_each(s: EpisodeView, calls: Seq<Turn>, results: Seq<Seq<char>>)
    requires
        s.pending is None,
        calls.len() == results.len(),
        s.rounds + calls.len() <= s.max_rounds,
        forall|i: int|
            0 <= i < calls.len() ==> {
                &&& (#[trigger] calls[i]).parts.len() > 0
                &&& calls[i].parts[0] is FunctionCall
                &&& dispatch_spec(calls[i].parts[0]->FunctionCall_name, calls[i].parts[0]->FunctionCall_args) is Some
            },
    ensures
        run(s, round_events(calls, results)).contents.len() == s.contents.len() + 2 * calls.len(),
        run(s, round_events(calls, results)).contents.take(s.contents.len() as int) == s.contents,
        forall|i: int|
            0 <= i < calls.len() ==> {
                &&& run(s, round_events(calls, results)).contents[s.contents.len() + 2 * i] == calls[i]
                &&& run(s, round_events(calls, results)).contents[s.contents.len() + 2 * i + 1]
                    == response_turn(calls[i].parts[0]->FunctionCall_name, #[trigger] results[i])
            },
        run(s, round_events(calls, results)).pending is None,
        run(s, round_events(calls, results)).rounds == s.rounds + calls.len(),
    decreases calls.len(),
{
    if calls.len() > 0 {
        let reply = calls[0];
        let name = reply.parts[0]->FunctionCall_name;
        lemma_tool_round(s, reply, results[0]);
        let mid = after_tool_result(after_reply(s, reply)->Ok_0.0, results[0]);
        let head = seq![Event::Reply(calls[0]), Event::ToolResult(results[0])];
        let rest = round_events(calls.drop_first(), results.drop_first());
        assert(round_events(calls, results) == head + rest);
        assert(run(s, head) == mid) by {
            let n = after_reply(s, reply)->Ok_0.0;
            let tail = head.drop_first();
            assert(head[0] == Event::Reply(reply));
            assert(n.pending == Some(name));
            assert(run(s, head) == run(n, tail));
            assert(tail[0] == Event::ToolResult(results[0]));
            assert(tail.drop_first() =~= Seq::<Event>::empty());
            assert(run(n, tail) == run(after_tool_result(n, results[0]), tail.drop_first()));
        }
        lemma_run_append(s, head, rest);
        assert forall|i: int| 0 <= i < calls.drop_first().len() implies {
            &&& (#[trigger] calls.drop_first()[i]).parts.len() > 0
            &&& calls.drop_first()[i].parts[0] is FunctionCall
            &&& dispatch_spec(calls.drop_first()[i].parts[0]->FunctionCall_name, calls.drop_first()[i].parts[0]->FunctionCall_args) is Some
        } by {
            assert(calls.drop_first()[i] == calls[i + 1]);
        }
        lemma_rounds_add_two_turns_each(mid, calls.drop_first(), results.drop_first());
        let end = run(s, round_events(calls, results));
        assert(end == run(mid, rest));
        assert(mid.contents == s.contents + seq![reply, response_turn(name, results[0])]);
        assert(end.contents.take(s.contents.len() as int) =~= s.contents) by {
            assert(end.contents.take(mid.contents.len() as int) == mid.contents);
            assert(end.contents.take(s.contents.len() as int) =~= mid.contents.take(s.contents.len() as int));
        }
        assert forall|i: int| 0 <= i < calls.len() implies {
            &&& end.contents[s.contents.len() + 2 * i] == calls[i]
            &&& end.contents[s.contents.len() + 2 * i + 1]
                == response_turn(calls[i].parts[0]->FunctionCall_name, #[trigger] results[i])
        } by {
            if i == 0 {
                assert(end.contents[s.contents.len() as int] == end.contents.take(mid.contents.len() as int)[s.contents.len() as int]);
                assert(end.contents[s.contents.len() as int + 1] == end.contents.take(mid.contents.len() as int)[s.contents.len() as int + 1]);
            } else {
                let j = i - 1;
                assert(calls.drop_first()[j] == calls[i]);
                assert(results.drop_first()[j] == results[i]);
                assert(mid.contents.len() + 2 * j == s.contents.len() + 2 * i);
            }
        }
    } else {
        assert(round_events(calls, results) =~= Seq::<Event>::empty());
        assert(s.contents.take(s.contents.len() as int) =~= s.contents);
    }
}

} // verus!
