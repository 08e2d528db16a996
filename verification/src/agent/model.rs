//! The agent as a state machine over mathematical values.
//!
//! `step` maps a state and an event to the next state and the action that
//! the driver has to take. The executable agent in `agent_loop` is proved to
//! compute exactly this function; what holds of every run is proved here,
//! over the model alone.

use crate::agent::agent_loop::{
    completion_signalled, finish_honored, lemma_pruned_bounds, outcome_text,
    pruned, truncated, MessageView, Role,
    ABANDON_THRESHOLD, AGENT_SYSTEM_PROMPT, ANCHOR_COUNT, CONTINUE_PROMPT, FINISH_DEFERRED,
    INITIAL_DIRECTIVE, READ_NUDGE, REDIRECT_THRESHOLD, REPORT_REMINDER, STRONG_REDIRECT,
};
use crate::agent::tools::{
    execution_of, failure_view, issues_after, missing_parameter_view, report_refusal,
    success_view, tool_kind_of, CallView,
    ExecutionView, ReportedIssueView, ToolKind, ToolRequestView, ToolResultView,
};
use crate::text::{join_with, lemma_noted_distinct, lowercase, noted};
use vstd::prelude::*;

verus! {

/// Why a run has ended.
#[derive(Debug, Clone, Copy, PartialEq, Eq, Structural)]
pub enum StopReason {
    /// The model asked to finish and the request was honoured.
    Finished,
    /// The model said in plain text that it is done, with issues on record.
    Completed,
    /// The model went too many turns in a row without calling a tool.
    Abandoned,
    /// The iteration budget is used up.
    BudgetExhausted,
}

/// What the agent is waiting for.
#[derive(Debug, Clone, Copy, PartialEq, Eq, Structural)]
pub enum Phase {
    /// The next answer of the model.
    AwaitingReply,
    /// The result of the tool request that was handed out last.
    AwaitingOutcome,
    /// Nothing: the run is over.
    Done(StopReason),
}

/// An answer of the model: free text and, possibly, a batch of tool calls.
#[verifier::ext_equal]
pub struct ResponseView {
    pub content: Seq<char>,
    pub tool_calls: Option<Seq<CallView>>,
}

/// What the driver reports back to the agent.
#[verifier::ext_equal]
pub enum EventView {
    Reply(ResponseView),
    Outcome(ToolResultView),
}

/// What the driver has to do next.
#[verifier::ext_equal]
pub enum ActionView {
    /// Send the conversation to the model and report its answer.
    CallBackend,
    /// Carry the request out and report its result.
    RunTool(ToolRequestView),
    /// Stop; the issues on record are the result.
    Stop(StopReason),
}

/// The state of a session.
#[verifier::ext_equal]
pub struct AgentState {
    /// The greatest number of answers that are asked of the model.
    pub max_iterations: nat,
    /// The greatest number of messages that are kept after the anchors.
    pub max_context: nat,
    /// The conversation, oldest message first.
    pub messages: Seq<MessageView>,
    /// The issues on record, oldest first.
    pub issues: Seq<ReportedIssueView>,
    /// The files that were read with success, each once, in order of
    /// first reading.
    pub files_read: Seq<Seq<char>>,
    /// The files that an issue was reported on, each once.
    pub files_reported: Seq<Seq<char>>,
    /// The number of answers received.
    pub iteration: nat,
    /// The number of answers in a row that carried no tool call.
    pub silent_turns: nat,
    pub phase: Phase,
    /// Where the answer stands whose batch of calls is being executed.
    pub batch_message: int,
    /// The index in the batch of the next call to execute.
    pub cursor: int,
    /// Where the outcome of the batch's last successful `read_file` stands.
    pub last_read: Option<int>,
    /// Whether the batch held a `report_issue` call so far.
    pub batch_reported: bool,
}

/// The message that opens every conversation.
pub open spec fn system_anchor() -> MessageView {
    MessageView { role: Role::System, content: AGENT_SYSTEM_PROMPT@, tool_calls: None }
}

/// The directive that follows the system message.
pub open spec fn user_anchor() -> MessageView {
    MessageView { role: Role::User, content: INITIAL_DIRECTIVE@, tool_calls: None }
}

/// A message that carries a tool outcome.
pub open spec fn tool_message(content: Seq<char>) -> MessageView {
    MessageView { role: Role::Tool, content, tool_calls: None }
}

/// A corrective message in the user's name.
pub open spec fn user_message(content: Seq<char>) -> MessageView {
    MessageView { role: Role::User, content, tool_calls: None }
}

/// The files that were read and not reported on, in order of reading.
pub open spec fn unreported(files_read: Seq<Seq<char>>, files_reported: Seq<Seq<char>>) -> Seq<
    Seq<char>,
>
    decreases files_read.len(),
{
    if files_read.len() == 0 {
        Seq::<Seq<char>>::empty()
    } else {
        let before = unreported(files_read.drop_last(), files_reported);
        if files_reported.contains(files_read.last()) {
            before
        } else {
            before.push(files_read.last())
        }
    }
}

/// The outcome that answers a finish request which is not honoured: it
/// lists the files that were read and not reported on.
pub open spec fn deferral_text(files_read: Seq<Seq<char>>, files_reported: Seq<Seq<char>>) -> Seq<
    char,
> {
    FINISH_DEFERRED@ + join_with(unreported(files_read, files_reported), ", "@)
}

/// The corrective prompt after a turn without tool calls, by priority: a
/// strong redirect from the third such turn in a row, else a reminder to
/// report while nothing is on record, else a plain request to go on.
pub open spec fn corrective_text(silent_turns: nat, issues: nat) -> Seq<char> {
    if silent_turns >= REDIRECT_THRESHOLD {
        STRONG_REDIRECT@
    } else if issues == 0 {
        REPORT_REMINDER@
    } else {
        CONTINUE_PROMPT@
    }
}

/// The state in which a session starts.
pub open spec fn initial_state(max_iterations: nat, max_context: nat) -> AgentState {
    AgentState {
        max_iterations,
        max_context,
        messages: seq![system_anchor(), user_anchor()],
        issues: Seq::empty(),
        files_read: Seq::empty(),
        files_reported: Seq::empty(),
        iteration: 0,
        silent_turns: 0,
        phase: if max_iterations == 0 {
            Phase::Done(StopReason::BudgetExhausted)
        } else {
            Phase::AwaitingReply
        },
        batch_message: 0,
        cursor: 0,
        last_read: None,
        batch_reported: false,
    }
}

/// The calls of the batch that is being executed.
pub open spec fn batch_calls(s: AgentState) -> Seq<CallView> {
    match s.messages[s.batch_message].tool_calls {
        Some(calls) => calls,
        None => Seq::empty(),
    }
}

/// Whether an answer carries at least one tool call.
pub open spec fn has_calls(reply: ResponseView) -> bool {
    reply.tool_calls matches Some(calls) && calls.len() > 0
}

/// The state once an answer is taken in: it is appended to the
/// conversation, counts as one iteration, and its batch starts at the first
/// call.
pub open spec fn after_reply(s: AgentState, reply: ResponseView) -> AgentState {
    AgentState {
        messages: s.messages.push(
            MessageView {
                role: Role::Assistant,
                content: reply.content,
                tool_calls: reply.tool_calls,
            },
        ),
        iteration: s.iteration + 1,
        silent_turns: if has_calls(reply) {
            0
        } else {
            s.silent_turns
        },
        batch_message: s.messages.len() as int,
        cursor: 0,
        last_read: None,
        batch_reported: false,
        ..s
    }
}

/// Ends an iteration: the run stops when the budget is used up, else the
/// next answer is asked for.
pub open spec fn settle(s: AgentState) -> (AgentState, ActionView) {
    if s.iteration >= s.max_iterations {
        (
            AgentState { phase: Phase::Done(StopReason::BudgetExhausted), ..s },
            ActionView::Stop(StopReason::BudgetExhausted),
        )
    } else {
        (AgentState { phase: Phase::AwaitingReply, ..s }, ActionView::CallBackend)
    }
}

/// A turn without tool calls; `signalled` says whether its text signals
/// completion. The turn counts against the abandonment threshold. A
/// completion signal ends the run if an issue is on record. Otherwise one
/// corrective prompt is appended; at the threshold the run is abandoned,
/// below it the conversation is pruned and the run goes on.
pub open spec fn text_turn(s: AgentState, signalled: bool) -> (AgentState, ActionView) {
    let turns = s.silent_turns + 1;
    if signalled && s.issues.len() > 0 {
        (
            AgentState { silent_turns: turns, phase: Phase::Done(StopReason::Completed), ..s },
            ActionView::Stop(StopReason::Completed),
        )
    } else {
        let prompted = s.messages.push(user_message(corrective_text(turns, s.issues.len())));
        if turns >= ABANDON_THRESHOLD {
            (
                AgentState {
                    silent_turns: turns,
                    messages: prompted,
                    phase: Phase::Done(StopReason::Abandoned),
                    ..s
                },
                ActionView::Stop(StopReason::Abandoned),
            )
        } else {
            settle(
                AgentState {
                    silent_turns: turns,
                    messages: pruned(prompted, ANCHOR_COUNT as nat, s.max_context),
                    ..s
                },
            )
        }
    }
}

/// The state after a call that the process answers itself: its outcome
/// joins the conversation. A `report_issue` call that is not refused also
/// records its issue and notes the file as reported on; a refused one
/// records and notes nothing. Either way the batch then counts as one that
/// held a `report_issue` call.
pub open spec fn after_local(s: AgentState, call: CallView, result: ToolResultView) -> AgentState {
    let report = tool_kind_of(call.name) == ToolKind::ReportIssue;
    let recorded = report && report_refusal(call.texts(), call.counts()) is None;
    AgentState {
        messages: s.messages.push(tool_message(truncated(outcome_text(result)))),
        issues: issues_after(s.issues, call),
        files_reported: if recorded {
            noted(s.files_reported, call.texts()["file_path"@])
        } else {
            s.files_reported
        },
        batch_reported: s.batch_reported || report,
        cursor: s.cursor + 1,
        ..s
    }
}

/// The state after a finish request that is not honoured: the corrective
/// outcome joins the conversation and the batch goes on.
pub open spec fn after_deferral(s: AgentState) -> AgentState {
    AgentState {
        messages: s.messages.push(tool_message(deferral_text(s.files_read, s.files_reported))),
        cursor: s.cursor + 1,
        ..s
    }
}

/// The state after the driver has carried a request out: the outcome joins
/// the conversation, and a successful `read_file` notes its path as read.
pub open spec fn after_outcome(s: AgentState, call: CallView, outcome: ToolResultView) -> AgentState {
    let read = tool_kind_of(call.name) == ToolKind::ReadFile && outcome.success;
    AgentState {
        messages: s.messages.push(tool_message(truncated(outcome_text(outcome)))),
        files_read: if read {
            noted(s.files_read, call.texts()["path"@])
        } else {
            s.files_read
        },
        last_read: if read {
            Some(s.messages.len() as int)
        } else {
            s.last_read
        },
        cursor: s.cursor + 1,
        ..s
    }
}

/// The conversation at the end of a batch, before pruning: where the batch
/// read a file and reported nothing, the outcome of its last read gets the
/// reminder to report appended.
pub open spec fn nudged(s: AgentState) -> Seq<MessageView> {
    match s.last_read {
        Some(at) => if !s.batch_reported && 0 <= at < s.messages.len() {
            s.messages.update(
                at,
                MessageView { content: s.messages[at].content + READ_NUDGE@, ..s.messages[at] },
            )
        } else {
            s.messages
        },
        None => s.messages,
    }
}

/// The state at the end of a batch: the reminder is placed, then the
/// conversation is pruned.
pub open spec fn close_batch(s: AgentState) -> AgentState {
    AgentState { messages: pruned(nudged(s), ANCHOR_COUNT as nat, s.max_context), ..s }
}

/// Executes the calls of a batch from the cursor on, in order, until one
/// needs the driver, a finish request is honoured, or the batch is through.
pub open spec fn run_batch(s: AgentState, calls: Seq<CallView>) -> (AgentState, ActionView)
    decreases calls.len() - s.cursor,
{
    if s.cursor < 0 || s.cursor >= calls.len() {
        settle(close_batch(s))
    } else {
        let call = calls[s.cursor];
        if tool_kind_of(call.name) == ToolKind::Finish {
            if finish_honored(s.files_read, s.files_reported, s.issues.len()) {
                (
                    AgentState { phase: Phase::Done(StopReason::Finished), ..s },
                    ActionView::Stop(StopReason::Finished),
                )
            } else {
                run_batch(after_deferral(s), calls)
            }
        } else {
            match execution_of(call) {
                ExecutionView::Pending(request) => (
                    AgentState { phase: Phase::AwaitingOutcome, ..s },
                    ActionView::RunTool(request),
                ),
                ExecutionView::Completed(result) => run_batch(after_local(s, call, result), calls),
            }
        }
    }
}

/// The action that a state is waiting on.
pub open spec fn pending_action(s: AgentState) -> ActionView {
    match s.phase {
        Phase::AwaitingReply => ActionView::CallBackend,
        Phase::AwaitingOutcome => match execution_of(batch_calls(s)[s.cursor]) {
            ExecutionView::Pending(request) => ActionView::RunTool(request),
            ExecutionView::Completed(_) => ActionView::CallBackend,
        },
        Phase::Done(reason) => ActionView::Stop(reason),
    }
}

/// Whether the event is the one that the state is waiting for.
pub open spec fn expected(s: AgentState, event: EventView) -> bool {
    match (s.phase, event) {
        (Phase::AwaitingReply, EventView::Reply(_)) => true,
        (Phase::AwaitingOutcome, EventView::Outcome(_)) => true,
        _ => false,
    }
}

/// The transition function. An event that the state is not waiting for
/// changes nothing and has the pending action handed out again.
pub open spec fn step(s: AgentState, event: EventView) -> (AgentState, ActionView) {
    match (s.phase, event) {
        (Phase::AwaitingReply, EventView::Reply(reply)) => {
            let t = after_reply(s, reply);
            if has_calls(reply) {
                run_batch(t, reply.tool_calls->0)
            } else {
                text_turn(t, completion_signalled(lowercase(reply.content)))
            }
        },
        (Phase::AwaitingOutcome, EventView::Outcome(outcome)) => {
            let calls = batch_calls(s);
            run_batch(after_outcome(s, calls[s.cursor], outcome), calls)
        },
        _ => (s, pending_action(s)),
    }
}

/// What holds of a state whatever its phase.
pub open spec fn core_wf(s: AgentState) -> bool {
    &&& s.messages.len() >= ANCHOR_COUNT
    &&& s.messages[0] == system_anchor()
    &&& s.messages[1] == user_anchor()
    &&& s.iteration <= s.max_iterations
    &&& s.silent_turns <= ABANDON_THRESHOLD
    &&& s.files_read.no_duplicates()
    &&& s.files_reported.no_duplicates()
    &&& forall|i: int|
        0 <= i < s.messages.len() && (#[trigger] s.messages[i]).tool_calls is Some
            ==> s.messages[i].role == Role::Assistant
}

/// What holds of a state while the batch `calls` is being executed.
pub open spec fn batch_wf(s: AgentState, calls: Seq<CallView>) -> bool {
    &&& core_wf(s)
    &&& ANCHOR_COUNT <= s.batch_message < s.messages.len()
    &&& s.messages[s.batch_message].tool_calls == Some(calls)
    &&& 0 <= s.cursor <= calls.len()
    &&& s.silent_turns == 0
    &&& s.iteration >= 1
    &&& s.last_read matches Some(at) ==> s.batch_message < at < s.messages.len()
}

/// The states that a session can be in.
pub open spec fn wf(s: AgentState) -> bool {
    &&& core_wf(s)
    &&& s.phase is AwaitingReply ==> {
        &&& s.iteration < s.max_iterations
        &&& s.silent_turns < ABANDON_THRESHOLD
        &&& s.messages.len() <= s.max_context + ANCHOR_COUNT
    }
    &&& s.phase is AwaitingOutcome ==> {
        &&& batch_wf(s, batch_calls(s))
        &&& s.cursor < batch_calls(s).len()
        &&& execution_of(batch_calls(s)[s.cursor]) is Pending
    }
}

/// The number of calls of the current batch that are not executed yet,
/// while the agent waits for a tool result; zero otherwise.
pub open spec fn calls_left(s: AgentState) -> int {
    if s.phase is AwaitingOutcome {
        batch_calls(s).len() - s.cursor
    } else {
        0
    }
}

/// Pruning and the reminder keep a conversation well formed.
pub proof fn lemma_close_batch_wf(s: AgentState, calls: Seq<CallView>)
    requires
        batch_wf(s, calls),
    ensures
        core_wf(close_batch(s)),
        close_batch(s).messages.len() <= s.max_context + ANCHOR_COUNT,
{
    let with_nudge = nudged(s);
    assert(with_nudge.len() == s.messages.len());
    assert(with_nudge[0] == s.messages[0]);
    assert(with_nudge[1] == s.messages[1]);
    assert forall|i: int|
        0 <= i < with_nudge.len() && (#[trigger] with_nudge[i]).tool_calls is Some implies with_nudge[i].role
        == Role::Assistant by {
        assert(with_nudge[i].tool_calls == s.messages[i].tool_calls);
        assert(with_nudge[i].role == s.messages[i].role);
    }
    lemma_pruned_keeps_form(with_nudge, s.max_context);
}

/// Pruning keeps the anchors and takes messages from the conversation only.
pub proof fn lemma_pruned_keeps_form(messages: Seq<MessageView>, max_context: nat)
    requires
        messages.len() >= ANCHOR_COUNT,
        forall|i: int|
            0 <= i < messages.len() && (#[trigger] messages[i]).tool_calls is Some
                ==> messages[i].role == Role::Assistant,
    ensures
        pruned(messages, ANCHOR_COUNT as nat, max_context).len() >= ANCHOR_COUNT,
        pruned(messages, ANCHOR_COUNT as nat, max_context).len() <= max_context + ANCHOR_COUNT,
        pruned(messages, ANCHOR_COUNT as nat, max_context)[0] == messages[0],
        pruned(messages, ANCHOR_COUNT as nat, max_context)[1] == messages[1],
        forall|i: int|
            0 <= i < pruned(messages, ANCHOR_COUNT as nat, max_context).len() && (#[trigger] pruned(
                messages,
                ANCHOR_COUNT as nat,
                max_context,
            )[i]).tool_calls is Some ==> pruned(messages, ANCHOR_COUNT as nat, max_context)[i].role
                == Role::Assistant,
{
    let out = pruned(messages, ANCHOR_COUNT as nat, max_context);
    lemma_pruned_bounds(messages, ANCHOR_COUNT as nat, max_context);
    assert(out.take(2)[0] == out[0]);
    assert(out.take(2)[1] == out[1]);
    assert(messages.take(2)[0] == messages[0]);
    assert(messages.take(2)[1] == messages[1]);
    assert forall|i: int| 0 <= i < out.len() && (#[trigger] out[i]).tool_calls is Some implies out[i].role
        == Role::Assistant by {
        assert(messages.contains(out[i]));
        let k = choose|k: int| 0 <= k < messages.len() && messages[k] == out[i];
        assert(messages[k].tool_calls is Some);
    }
}

/// Settling a well-formed state that is within the context limit gives a
/// state of the session.
pub proof fn lemma_settle_wf(s: AgentState)
    requires
        core_wf(s),
        s.silent_turns < ABANDON_THRESHOLD,
        s.messages.len() <= s.max_context + ANCHOR_COUNT,
    ensures
        wf(settle(s).0),
        !(settle(s).0.phase is AwaitingOutcome),
        settle(s).0.iteration == s.iteration,
        settle(s).0.silent_turns == s.silent_turns,
        settle(s).0.messages == s.messages,
{
}

/// Running a batch leads to a state of the session. It neither counts as an
/// answer nor as a turn without tool calls, and where it stops for a tool
/// result, the same batch is still being executed, further on.
pub proof fn lemma_run_batch(s: AgentState, calls: Seq<CallView>)
    requires
        batch_wf(s, calls),
    ensures
        wf(run_batch(s, calls).0),
        run_batch(s, calls).0.iteration == s.iteration,
        run_batch(s, calls).0.silent_turns == 0,
        run_batch(s, calls).0.max_iterations == s.max_iterations,
        run_batch(s, calls).0.max_context == s.max_context,
        run_batch(s, calls).0.phase is AwaitingOutcome ==> {
            &&& batch_calls(run_batch(s, calls).0) == calls
            &&& s.cursor <= run_batch(s, calls).0.cursor < calls.len()
        },
        run_batch(s, calls).1 == pending_action(run_batch(s, calls).0),
    decreases calls.len() - s.cursor,
{
    if s.cursor >= calls.len() {
        lemma_close_batch_wf(s, calls);
        lemma_settle_wf(close_batch(s));
    } else {
        let call = calls[s.cursor];
        if tool_kind_of(call.name) == ToolKind::Finish {
            if finish_honored(s.files_read, s.files_reported, s.issues.len()) {
            } else {
                let t = after_deferral(s);
                assert(t.messages[s.batch_message] == s.messages[s.batch_message]);
                assert(batch_wf(t, calls));
                lemma_run_batch(t, calls);
            }
        } else {
            match execution_of(call) {
                ExecutionView::Pending(request) => {
                    let t = AgentState { phase: Phase::AwaitingOutcome, ..s };
                    assert(batch_calls(t) == calls);
                },
                ExecutionView::Completed(result) => {
                    let t = after_local(s, call, result);
                    assert(t.messages[s.batch_message] == s.messages[s.batch_message]);
                    lemma_noted_distinct(s.files_reported, call.texts()["file_path"@]);
                    assert(batch_wf(t, calls));
                    lemma_run_batch(t, calls);
                },
            }
        }
    }
}

/// Every step leads from a state of the session to a state of the session.
/// So the two anchors head the conversation in every state, and whenever
/// the next answer is asked for, the conversation holds at most
/// `max_context` messages after the anchors, fewer answers were received
/// than the budget allows, and fewer than `ABANDON_THRESHOLD` turns in a row
/// were without tool calls.
pub proof fn lemma_step_wf(s: AgentState, event: EventView)
    requires
        wf(s),
    ensures
        wf(step(s, event).0),
        step(s, event).0.messages[0] == system_anchor(),
        step(s, event).0.messages[1] == user_anchor(),
        step(s, event).0.max_iterations == s.max_iterations,
        step(s, event).0.max_context == s.max_context,
        step(s, event).1 == pending_action(step(s, event).0),
        expected(s, event) && event is Reply ==> step(s, event).0.iteration == s.iteration + 1,
        expected(s, event) && event is Outcome ==> {
            &&& step(s, event).0.iteration == s.iteration
            &&& calls_left(step(s, event).0) < calls_left(s)
        },
{
    match (s.phase, event) {
        (Phase::AwaitingReply, EventView::Reply(reply)) => {
            let t = after_reply(s, reply);
            assert(core_wf(t));
            if has_calls(reply) {
                assert(batch_wf(t, reply.tool_calls->0));
                lemma_run_batch(t, reply.tool_calls->0);
            } else {
                lemma_text_turn(t, completion_signalled(lowercase(reply.content)));
            }
        },
        (Phase::AwaitingOutcome, EventView::Outcome(outcome)) => {
            let calls = batch_calls(s);
            let call = calls[s.cursor];
            let t = after_outcome(s, call, outcome);
            assert(t.messages[s.batch_message] == s.messages[s.batch_message]);
            if tool_kind_of(call.name) == ToolKind::ReadFile && outcome.success {
                lemma_noted_distinct(s.files_read, call.texts()["path"@]);
            }
            assert(batch_wf(t, calls));
            lemma_run_batch(t, calls);
        },
        _ => {},
    }
}

/// A turn without tool calls leads to a state of the session, and counts
/// one more such turn.
pub proof fn lemma_text_turn(s: AgentState, signalled: bool)
    requires
        core_wf(s),
        s.silent_turns < ABANDON_THRESHOLD,
    ensures
        wf(text_turn(s, signalled).0),
        text_turn(s, signalled).0.silent_turns == s.silent_turns + 1,
        text_turn(s, signalled).0.iteration == s.iteration,
        text_turn(s, signalled).0.max_iterations == s.max_iterations,
        text_turn(s, signalled).0.max_context == s.max_context,
        !(text_turn(s, signalled).0.phase is AwaitingOutcome),
        text_turn(s, signalled).0.silent_turns >= ABANDON_THRESHOLD ==> text_turn(
            s,
            signalled,
        ).0.phase is Done,
        text_turn(s, signalled).1 == pending_action(text_turn(s, signalled).0),
{
    let turns = s.silent_turns + 1;
    if signalled && s.issues.len() > 0 {
    } else {
        let prompted = s.messages.push(user_message(corrective_text(turns, s.issues.len())));
        assert(prompted[0] == s.messages[0]);
        assert(prompted[1] == s.messages[1]);
        if turns >= ABANDON_THRESHOLD {
        } else {
            lemma_pruned_keeps_form(prompted, s.max_context);
            let t = AgentState {
                silent_turns: turns,
                messages: pruned(prompted, ANCHOR_COUNT as nat, s.max_context),
                ..s
            };
            lemma_settle_wf(t);
        }
    }
}

/// A finish request is not honoured while files were read, none was
/// reported on and no issue is on record: the corrective outcome joins the
/// conversation, the run stays in progress, and the batch goes on with the
/// next call. Where the request was the last call of its batch, the turn
/// does not end the run as finished.
pub proof fn lemma_finish_deferred(s: AgentState, calls: Seq<CallView>)
    requires
        batch_wf(s, calls),
        s.cursor < calls.len(),
        tool_kind_of(calls[s.cursor].name) == ToolKind::Finish,
        s.files_read.len() > 0,
        s.files_reported.len() == 0,
        s.issues.len() == 0,
    ensures
        run_batch(s, calls) == run_batch(after_deferral(s), calls),
        after_deferral(s).phase == s.phase,
        after_deferral(s).issues == s.issues,
        after_deferral(s).messages == s.messages.push(
            tool_message(deferral_text(s.files_read, s.files_reported)),
        ),
        s.cursor + 1 == calls.len() ==> run_batch(s, calls).1 != ActionView::Stop(
            StopReason::Finished,
        ),
{
    let t = after_deferral(s);
    if s.cursor + 1 == calls.len() {
        assert(run_batch(t, calls) == settle(close_batch(t)));
    }
}

/// A finish request is honoured as soon as a file is reported on or an
/// issue is on record, whatever else was read.
pub proof fn lemma_finish_honored(s: AgentState, calls: Seq<CallView>)
    requires
        batch_wf(s, calls),
        s.cursor < calls.len(),
        tool_kind_of(calls[s.cursor].name) == ToolKind::Finish,
        s.files_reported.len() > 0 || s.issues.len() > 0 || s.files_read.len() == 0,
    ensures
        run_batch(s, calls).1 == ActionView::Stop(StopReason::Finished),
        run_batch(s, calls).0 == (AgentState { phase: Phase::Done(StopReason::Finished), ..s }),
{
}

/// An answer that carries at least one tool call resets the count of turns
/// without tool calls to zero.
pub proof fn lemma_calls_reset_silence(s: AgentState, reply: ResponseView)
    requires
        wf(s),
        s.phase is AwaitingReply,
        has_calls(reply),
    ensures
        step(s, EventView::Reply(reply)).0.silent_turns == 0,
{
    let t = after_reply(s, reply);
    assert(batch_wf(t, reply.tool_calls->0));
    lemma_run_batch(t, reply.tool_calls->0);
}

/// An answer without tool calls counts one more turn of silence, and the
/// run is over once `ABANDON_THRESHOLD` such turns have come in a row.
pub proof fn lemma_silence_counts(s: AgentState, reply: ResponseView)
    requires
        wf(s),
        s.phase is AwaitingReply,
        !has_calls(reply),
    ensures
        step(s, EventView::Reply(reply)).0.silent_turns == s.silent_turns + 1,
        step(s, EventView::Reply(reply)).0.silent_turns >= ABANDON_THRESHOLD ==> step(
            s,
            EventView::Reply(reply),
        ).0.phase is Done,
{
    lemma_text_turn(after_reply(s, reply), completion_signalled(lowercase(reply.content)));
}

/// Every expected event brings the run closer to its end: an answer uses
/// up one of the `max_iterations` answers, and a tool result leaves fewer
/// calls of the batch to execute. As both counts are bounded, no run goes
/// on for ever; it takes at most `max_iterations` answers.
pub proof fn lemma_step_progress(s: AgentState, event: EventView)
    requires
        wf(s),
        expected(s, event),
    ensures
        step(s, event).0.iteration <= s.max_iterations,
        event is Reply ==> step(s, event).0.iteration == s.iteration + 1,
        event is Outcome ==> {
            &&& step(s, event).0.iteration == s.iteration
            &&& calls_left(step(s, event).0) < calls_left(s)
        },
        step(s, event).0.phase is AwaitingReply ==> step(s, event).0.iteration
            < s.max_iterations,
{
    lemma_step_wf(s, event);
}

/// A `report_issue` call that lacks a required member fails with a message
/// that names the member. Nothing is recorded and no file is noted as
/// reported on, so such a call does not open the way for a finish request;
/// the batch goes on with the next call.
pub proof fn lemma_report_refused(s: AgentState, calls: Seq<CallView>, name: Seq<char>)
    requires
        batch_wf(s, calls),
        s.cursor < calls.len(),
        tool_kind_of(calls[s.cursor].name) == ToolKind::ReportIssue,
        report_refusal(calls[s.cursor].texts(), calls[s.cursor].counts()) == Some(name),
    ensures
        execution_of(calls[s.cursor]) == ExecutionView::Completed(missing_parameter_view(name)),
        run_batch(s, calls) == run_batch(
            after_local(s, calls[s.cursor], missing_parameter_view(name)),
            calls,
        ),
        after_local(s, calls[s.cursor], missing_parameter_view(name)).issues == s.issues,
        after_local(s, calls[s.cursor], missing_parameter_view(name)).files_reported
            == s.files_reported,
        after_local(s, calls[s.cursor], missing_parameter_view(name)).files_read == s.files_read,
        after_local(s, calls[s.cursor], missing_parameter_view(name)).messages == s.messages.push(
            tool_message(truncated("Error: "@ + ("Missing required parameter: "@ + name))),
        ),
        after_local(s, calls[s.cursor], missing_parameter_view(name)).cursor == s.cursor + 1,
{
}

/// A `report_issue` call with all its required members is answered `ok`,
/// puts exactly one issue on record, the one that its arguments describe,
/// and notes its file as reported on.
pub proof fn lemma_report_recorded(s: AgentState, calls: Seq<CallView>)
    requires
        batch_wf(s, calls),
        s.cursor < calls.len(),
        tool_kind_of(calls[s.cursor].name) == ToolKind::ReportIssue,
        report_refusal(calls[s.cursor].texts(), calls[s.cursor].counts()) is None,
    ensures
        execution_of(calls[s.cursor]) == ExecutionView::Completed(success_view("ok"@)),
        after_local(s, calls[s.cursor], success_view("ok"@)).issues.len() == s.issues.len() + 1,
        after_local(s, calls[s.cursor], success_view("ok"@)).issues.last().file_path
            == calls[s.cursor].texts()["file_path"@],
        after_local(s, calls[s.cursor], success_view("ok"@)).files_reported.contains(
            calls[s.cursor].texts()["file_path"@],
        ),
{
    lemma_noted_distinct(s.files_reported, calls[s.cursor].texts()["file_path"@]);
}

/// A call of a tool that the registry does not know fails with a message
/// that names the tool, records nothing, and lets the batch go on with the
/// next call.
pub proof fn lemma_unknown_tool(s: AgentState, calls: Seq<CallView>)
    requires
        batch_wf(s, calls),
        s.cursor < calls.len(),
        tool_kind_of(calls[s.cursor].name) == ToolKind::Unknown,
    ensures
        execution_of(calls[s.cursor]) == ExecutionView::Completed(
            failure_view("Unknown tool: "@ + calls[s.cursor].name),
        ),
        run_batch(s, calls) == run_batch(
            after_local(s, calls[s.cursor], failure_view("Unknown tool: "@ + calls[s.cursor].name)),
            calls,
        ),
        after_local(
            s,
            calls[s.cursor],
            failure_view("Unknown tool: "@ + calls[s.cursor].name),
        ) == (AgentState {
            messages: s.messages.push(
                tool_message(truncated("Error: "@ + ("Unknown tool: "@ + calls[s.cursor].name))),
            ),
            cursor: s.cursor + 1,
            ..s
        }),
{
}


/// The state that a session is in after a sequence of events.
pub open spec fn run(s: AgentState, events: Seq<EventView>) -> AgentState
    decreases events.len(),
{
    if events.len() == 0 {
        s
    } else {
        step(run(s, events.drop_last()), events.last()).0
    }
}

/// A run that is over stays over: no event changes its state, and the
/// action is to stop for the same reason.
pub proof fn lemma_done_is_final(s: AgentState, event: EventView)
    requires
        s.phase is Done,
    ensures
        step(s, event).0 == s,
        step(s, event).1 == ActionView::Stop(s.phase->0),
{
}

/// Whatever the driver reports, in whatever order and however often, a
/// session stays in the states of a session. The two anchors always head
/// the conversation; never more than `max_iterations` answers are taken;
/// a run that still waits for an answer has had fewer than
/// `ABANDON_THRESHOLD` turns in a row without tool calls, and its
/// conversation holds at most `max_context` messages after the anchors.
pub proof fn lemma_run_wf(max_iterations: nat, max_context: nat, events: Seq<EventView>)
    ensures
        wf(run(initial_state(max_iterations, max_context), events)),
        run(initial_state(max_iterations, max_context), events).messages[0] == system_anchor(),
        run(initial_state(max_iterations, max_context), events).messages[1] == user_anchor(),
        run(initial_state(max_iterations, max_context), events).max_iterations == max_iterations,
        run(initial_state(max_iterations, max_context), events).max_context == max_context,
        run(initial_state(max_iterations, max_context), events).iteration <= max_iterations,
        run(initial_state(max_iterations, max_context), events).phase is AwaitingReply ==> {
            let s = run(initial_state(max_iterations, max_context), events);
            &&& s.iteration < max_iterations
            &&& s.silent_turns < ABANDON_THRESHOLD
            &&& s.messages.len() <= max_context + ANCHOR_COUNT
        },
    decreases events.len(),
{
    if events.len() > 0 {
        lemma_run_wf(max_iterations, max_context, events.drop_last());
        lemma_step_wf(
            run(initial_state(max_iterations, max_context), events.drop_last()),
            events.last(),
        );
    }
}

} // verus!
