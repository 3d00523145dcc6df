//! The relay orchestrator: the event-loop state machine.
//!
//! One iteration receives an event, classifies it, and either stops (on a
//! close frame), goes on, or asks for a completion and sends the rendered
//! reply back to the originating channel. The transport calls themselves live
//! outside this crate; here stand the decisions, and a scripted runner that
//! executes the whole loop over sequences of events and completion outcomes
//! supplied as values.

use vstd::prelude::*;
use crate::classify::ClassifiedRequest;
use crate::classify::classify;
use crate::classify::command_prompt;
use crate::classify::is_command;
use crate::error::AppError;
use crate::openai::GPTResponse;
use crate::openai::code_block;
use crate::openai::first_choice_reply;

verus! {

/// One event produced by the gateway session and consumed once by the
/// orchestrator.
#[derive(Debug, Clone, PartialEq, Eq)]
pub enum InboundEvent {
    /// A chat message arrived in a channel.
    MessageCreate { channel_id: u64, author: String, text: String },
    /// Any event kind the orchestrator does not act on.
    Other,
    /// The transport reported an explicit close frame; terminal.
    ConnectionClosed { code: Option<u16>, reason: String },
    /// A transient receive error; the connection stays open and the loop goes
    /// on.
    TransientError { detail: String },
}

/// What one completion call came back with: a decoded response, or a hard
/// failure of the call itself.
#[derive(Debug, Clone, PartialEq, Eq)]
pub enum CompletionOutcome {
    Reply { response: GPTResponse },
    Failed { error: AppError },
}

/// The decision taken for one received event.
#[derive(Debug, Clone, PartialEq, Eq)]
pub enum IterationPlan {
    /// A close frame arrived: leave the loop; no further receive.
    Stop,
    /// Nothing to do for this event: receive the next one.
    Continue,
    /// The message named the command: ask the completion client for `prompt`
    /// and answer into `channel_id`.
    RequestCompletion { channel_id: u64, prompt: String },
}

/// The decision for one event, at the specification level.
pub ghost enum SpecPlan {
    Stop,
    Continue,
    Request { channel_id: u64, prompt: Seq<char> },
}

/// The decision the orchestrator takes for `event`: stop on a close frame,
/// request a completion for a command message, and go on for everything else
/// (non-command messages, transient errors, other event kinds).
pub open spec fn plan_for(event: InboundEvent, prefix: Seq<char>) -> SpecPlan {
    match event {
        InboundEvent::MessageCreate { channel_id, author: _, text } => {
            if is_command(text@, prefix) {
                SpecPlan::Request { channel_id, prompt: command_prompt(text@, prefix) }
            } else {
                SpecPlan::Continue
            }
        },
        InboundEvent::ConnectionClosed { .. } => SpecPlan::Stop,
        InboundEvent::Other => SpecPlan::Continue,
        InboundEvent::TransientError { .. } => SpecPlan::Continue,
    }
}

/// Decide one iteration: exactly the decision `plan_for` describes.
pub fn plan_iteration(event: &InboundEvent, prefix: &str) -> (p: IterationPlan)
    ensures
        p is Stop <==> plan_for(*event, prefix@) is Stop,
        p is Continue <==> plan_for(*event, prefix@) is Continue,
        p matches IterationPlan::RequestCompletion { channel_id, prompt } ==> (plan_for(
            *event,
            prefix@,
        ) matches SpecPlan::Request { channel_id: sc, prompt: sp } && channel_id == sc && prompt@
            == sp),
{
    match event {
        InboundEvent::MessageCreate { channel_id, author: _, text } => {
            match classify(text.as_str(), prefix) {
                ClassifiedRequest::Complete { prompt } => IterationPlan::RequestCompletion {
                    channel_id: *channel_id,
                    prompt,
                },
                ClassifiedRequest::Ignore => IterationPlan::Continue,
            }
        },
        InboundEvent::ConnectionClosed { .. } => IterationPlan::Stop,
        InboundEvent::Other => IterationPlan::Continue,
        InboundEvent::TransientError { .. } => IterationPlan::Continue,
    }
}

/// One completion request the loop issued: which channel it will answer, and
/// the classified prompt it forwarded.
#[derive(Debug, Clone, PartialEq, Eq)]
pub struct CompletionRequest {
    pub channel_id: u64,
    pub prompt: String,
}

/// One reply the loop sent (or tried to send): where it went, what it held,
/// and whether the transport accepted it. Delivery is fire-and-forget: the
/// outcome is recorded, never acted on.
#[derive(Debug, Clone, PartialEq, Eq)]
pub struct ReplyRecord {
    pub channel_id: u64,
    pub body: String,
    pub delivered: bool,
}

/// What a whole run of the loop did: the replies in order, how many events
/// were received, and how the loop ended.
#[derive(Debug, Clone, PartialEq, Eq)]
pub struct RelayOutcome {
    /// The completion requests issued, in order: at most one per received
    /// event.
    pub requests: Vec<CompletionRequest>,
    pub replies: Vec<ReplyRecord>,
    /// How many events were taken from the gateway before the loop ended.
    pub events_seen: usize,
    /// The loop ended on a close frame.
    pub closed: bool,
    /// The loop ended because a completion call failed hard.
    pub aborted: bool,
}

/// Specification-level image of one issued completion request.
#[verifier::ext_equal]
pub ghost struct RequestTrace {
    pub channel_id: u64,
    pub prompt: Seq<char>,
}

/// Specification-level image of one sent reply.
#[verifier::ext_equal]
pub ghost struct ReplyTrace {
    pub channel_id: u64,
    pub body: Seq<char>,
    pub delivered: bool,
}

/// Specification-level image of a whole run.
#[verifier::ext_equal]
pub ghost struct RelayTrace {
    pub requests: Seq<RequestTrace>,
    pub replies: Seq<ReplyTrace>,
    pub events_seen: nat,
    pub closed: bool,
    pub aborted: bool,
}

impl View for CompletionRequest {
    type V = RequestTrace;

    open spec fn view(&self) -> RequestTrace {
        RequestTrace { channel_id: self.channel_id, prompt: self.prompt@ }
    }
}

impl View for ReplyRecord {
    type V = ReplyTrace;

    open spec fn view(&self) -> ReplyTrace {
        ReplyTrace { channel_id: self.channel_id, body: self.body@, delivered: self.delivered }
    }
}

impl View for RelayOutcome {
    type V = RelayTrace;

    open spec fn view(&self) -> RelayTrace {
        RelayTrace {
            requests: self.requests@.map_values(|r: CompletionRequest| r@),
            replies: self.replies@.map_values(|r: ReplyRecord| r@),
            events_seen: self.events_seen as nat,
            closed: self.closed,
            aborted: self.aborted,
        }
    }
}

/// `t`, with one more received event in front of it.
pub open spec fn one_more_event(t: RelayTrace) -> RelayTrace {
    RelayTrace {
        requests: t.requests,
        replies: t.replies,
        events_seen: t.events_seen + 1,
        closed: t.closed,
        aborted: t.aborted,
    }
}

/// What the loop does on a script: events arrive in order; each command
/// message consumes the next completion outcome; each attempted send consumes
/// the next send result (deliveries succeed once that script runs out). A
/// close frame stops the loop; a hard completion failure aborts it; an empty
/// choices sequence skips the reply and goes on; running out of outcomes when
/// one is needed also aborts. Send results are consumed but never change the
/// course of the loop.
pub open spec fn spec_run(
    events: Seq<InboundEvent>,
    outcomes: Seq<CompletionOutcome>,
    sends: Seq<bool>,
    prefix: Seq<char>,
) -> RelayTrace
    decreases events.len(),
{
    if events.len() == 0 {
        RelayTrace {
            requests: Seq::empty(),
            replies: Seq::empty(),
            events_seen: 0,
            closed: false,
            aborted: false,
        }
    } else {
        match plan_for(events[0], prefix) {
            SpecPlan::Stop => RelayTrace {
                requests: Seq::empty(),
                replies: Seq::empty(),
                events_seen: 1,
                closed: true,
                aborted: false,
            },
            SpecPlan::Continue => one_more_event(
                spec_run(events.drop_first(), outcomes, sends, prefix),
            ),
            SpecPlan::Request { channel_id, prompt } => {
                let req = RequestTrace { channel_id, prompt };
                if outcomes.len() == 0 {
                    RelayTrace {
                        requests: seq![req],
                        replies: Seq::empty(),
                        events_seen: 1,
                        closed: false,
                        aborted: true,
                    }
                } else {
                    match outcomes[0] {
                        CompletionOutcome::Failed { error: _ } => RelayTrace {
                            requests: seq![req],
                            replies: Seq::empty(),
                            events_seen: 1,
                            closed: false,
                            aborted: true,
                        },
                        CompletionOutcome::Reply { response } => {
                            if response.choices@.len() == 0 {
                                let sub = spec_run(
                                    events.drop_first(),
                                    outcomes.drop_first(),
                                    sends,
                                    prefix,
                                );
                                RelayTrace {
                                    requests: seq![req] + sub.requests,
                                    replies: sub.replies,
                                    events_seen: sub.events_seen + 1,
                                    closed: sub.closed,
                                    aborted: sub.aborted,
                                }
                            } else {
                                let rec = ReplyTrace {
                                    channel_id,
                                    body: code_block(response.choices@[0].text@),
                                    delivered: if sends.len() > 0 {
                                        sends[0]
                                    } else {
                                        true
                                    },
                                };
                                let sub = spec_run(
                                    events.drop_first(),
                                    outcomes.drop_first(),
                                    if sends.len() > 0 {
                                        sends.drop_first()
                                    } else {
                                        sends
                                    },
                                    prefix,
                                );
                                RelayTrace {
                                    requests: seq![req] + sub.requests,
                                    replies: seq![rec] + sub.replies,
                                    events_seen: sub.events_seen + 1,
                                    closed: sub.closed,
                                    aborted: sub.aborted,
                                }
                            }
                        },
                    }
                }
            },
        }
    }
}

/// Run the loop from position `i` of the event script, `j` of the outcome
/// script and `k` of the send script.
fn run_from(
    events: &Vec<InboundEvent>,
    outcomes: &Vec<CompletionOutcome>,
    sends: &Vec<bool>,
    prefix: &str,
    i: usize,
    j: usize,
    k: usize,
) -> (r: RelayOutcome)
    requires
        i <= events@.len(),
        j <= outcomes@.len(),
        k <= sends@.len(),
    ensures
        r@ == spec_run(events@.skip(i as int), outcomes@.skip(j as int), sends@.skip(k as int), prefix@),
        r.events_seen <= events@.len() - i,
    decreases events@.len() - i,
{
    let ghost ev = events@.skip(i as int);
    let ghost oc = outcomes@.skip(j as int);
    let ghost sd = sends@.skip(k as int);
    if i == events.len() {
        let r = RelayOutcome {
            requests: Vec::new(),
            replies: Vec::new(),
            events_seen: 0,
            closed: false,
            aborted: false,
        };
        proof {
            assert(ev =~= Seq::<InboundEvent>::empty());
            assert(r@ =~= spec_run(ev, oc, sd, prefix@));
        }
        return r;
    }
    proof {
        assert(ev[0] == events@[i as int]);
        assert(ev.drop_first() =~= events@.skip(i as int + 1));
        if j < outcomes@.len() {
            assert(oc.drop_first() =~= outcomes@.skip(j as int + 1));
            assert(oc[0] == outcomes@[j as int]);
        }
        if k < sends@.len() {
            assert(sd.drop_first() =~= sends@.skip(k as int + 1));
            assert(sd[0] == sends@[k as int]);
        }
    }
    let event = &events[i];
    match plan_iteration(event, prefix) {
        IterationPlan::Stop => {
            let r = RelayOutcome {
                requests: Vec::new(),
                replies: Vec::new(),
                events_seen: 1,
                closed: true,
                aborted: false,
            };
            proof {
                assert(r@ =~= spec_run(ev, oc, sd, prefix@));
            }
            r
        },
        IterationPlan::Continue => {
            let mut sub = run_from(events, outcomes, sends, prefix, i + 1, j, k);
            sub.events_seen = sub.events_seen + 1;
            proof {
                assert(sub@ =~= spec_run(ev, oc, sd, prefix@));
            }
            sub
        },
        IterationPlan::RequestCompletion { channel_id, prompt } => {
            let req = CompletionRequest { channel_id, prompt };
            if j == outcomes.len() {
                let r = RelayOutcome {
                    requests: vec![req],
                    replies: Vec::new(),
                    events_seen: 1,
                    closed: false,
                    aborted: true,
                };
                proof {
                    assert(r.requests@.map_values(|r: CompletionRequest| r@) =~= seq![req@]);
                    assert(r@ =~= spec_run(ev, oc, sd, prefix@));
                }
                return r;
            }
            let outcome = &outcomes[j];
            match outcome {
                CompletionOutcome::Failed { error: _ } => {
                    let r = RelayOutcome {
                        requests: vec![req],
                        replies: Vec::new(),
                        events_seen: 1,
                        closed: false,
                        aborted: true,
                    };
                    proof {
                        assert(r.requests@.map_values(|r: CompletionRequest| r@) =~= seq![req@]);
                        assert(r@ =~= spec_run(ev, oc, sd, prefix@));
                    }
                    r
                },
                CompletionOutcome::Reply { response } => {
                    match first_choice_reply(response) {
                        Err(_) => {
                            let mut sub = run_from(events, outcomes, sends, prefix, i + 1, j + 1, k);
                            let ghost sub_requests = sub.requests@;
                            sub.requests.insert(0, req);
                            sub.events_seen = sub.events_seen + 1;
                            proof {
                                assert(sub.requests@.map_values(|r: CompletionRequest| r@)
                                    =~= seq![req@]
                                    + sub_requests.map_values(|r: CompletionRequest| r@));
                                assert(sub@ =~= spec_run(ev, oc, sd, prefix@));
                            }
                            sub
                        },
                        Ok(body) => {
                            let delivered: bool;
                            let k_next: usize;
                            if k < sends.len() {
                                delivered = sends[k];
                                k_next = k + 1;
                            } else {
                                delivered = true;
                                k_next = k;
                            }
                            let mut sub = run_from(
                                events,
                                outcomes,
                                sends,
                                prefix,
                                i + 1,
                                j + 1,
                                k_next,
                            );
                            let ghost sub_requests = sub.requests@;
                            let ghost sub_replies = sub.replies@;
                            let rec = ReplyRecord { channel_id, body, delivered };
                            sub.requests.insert(0, req);
                            sub.replies.insert(0, rec);
                            sub.events_seen = sub.events_seen + 1;
                            proof {
                                assert(sub.requests@.map_values(|r: CompletionRequest| r@)
                                    =~= seq![req@]
                                    + sub_requests.map_values(|r: CompletionRequest| r@));
                                assert(sub.replies@.map_values(|r: ReplyRecord| r@) =~= seq![rec@]
                                    + sub_replies.map_values(|r: ReplyRecord| r@));
                                if k >= sends.len() {
                                    assert(sd =~= sends@.skip(k_next as int));
                                }
                                assert(sub@ =~= spec_run(ev, oc, sd, prefix@));
                            }
                            sub
                        },
                    }
                },
            }
        },
    }
}

/// Execute the whole loop over scripted inputs: `events` in order, one
/// completion `outcome` per command message, one send result per attempted
/// reply. The result is exactly the trace `spec_run` describes — which takes
/// the send results only to record them, so a failed delivery never keeps the
/// loop from going on to the next event.
pub fn run_scripted(
    events: &Vec<InboundEvent>,
    outcomes: &Vec<CompletionOutcome>,
    sends: &Vec<bool>,
    prefix: &str,
) -> (r: RelayOutcome)
    ensures
        r@ == spec_run(events@, outcomes@, sends@, prefix@),
{
    let r = run_from(events, outcomes, sends, prefix, 0, 0, 0);
    proof {
        assert(events@.skip(0) =~= events@);
        assert(outcomes@.skip(0) =~= outcomes@);
        assert(sends@.skip(0) =~= sends@);
    }
    r
}

/// A completion response with an empty choices sequence never crashes or ends
/// the loop: that iteration sends no reply and aborts nothing, and the run
/// goes on with the next event exactly as it would have from there.
pub proof fn lemma_empty_choices_continues(
    events: Seq<InboundEvent>,
    outcomes: Seq<CompletionOutcome>,
    sends: Seq<bool>,
    prefix: Seq<char>,
)
    requires
        events.len() > 0,
        plan_for(events[0], prefix) is Request,
        outcomes.len() > 0,
        outcomes[0] matches CompletionOutcome::Reply { response } && response.choices@.len() == 0,
    ensures
        ({
            let t = spec_run(events, outcomes, sends, prefix);
            let sub = spec_run(events.drop_first(), outcomes.drop_first(), sends, prefix);
            &&& t.replies == sub.replies
            &&& t.events_seen == sub.events_seen + 1
            &&& t.closed == sub.closed
            &&& t.aborted == sub.aborted
        }),
{
}

/// Reply delivery is fire-and-forget: two runs over the same events, outcomes
/// and prefix receive the same events, end the same way, and send the same
/// replies to the same channels, whatever the send results are. Only the
/// recorded delivery outcomes may differ.
pub proof fn lemma_send_results_never_stall_the_loop(
    events: Seq<InboundEvent>,
    outcomes: Seq<CompletionOutcome>,
    sends1: Seq<bool>,
    sends2: Seq<bool>,
    prefix: Seq<char>,
)
    ensures
        ({
            let t1 = spec_run(events, outcomes, sends1, prefix);
            let t2 = spec_run(events, outcomes, sends2, prefix);
            &&& t1.requests == t2.requests
            &&& t1.events_seen == t2.events_seen
            &&& t1.closed == t2.closed
            &&& t1.aborted == t2.aborted
            &&& t1.replies.len() == t2.replies.len()
            &&& forall|n: int|
                0 <= n < t1.replies.len() ==> t1.replies[n].channel_id == t2.replies[n].channel_id
                    && t1.replies[n].body == t2.replies[n].body
        }),
    decreases events.len(),
{
    if events.len() > 0 {
        match plan_for(events[0], prefix) {
            SpecPlan::Stop => {},
            SpecPlan::Continue => {
                lemma_send_results_never_stall_the_loop(
                    events.drop_first(),
                    outcomes,
                    sends1,
                    sends2,
                    prefix,
                );
            },
            SpecPlan::Request { channel_id: _, prompt: _ } => {
                if outcomes.len() > 0 {
                    match outcomes[0] {
                        CompletionOutcome::Failed { error: _ } => {},
                        CompletionOutcome::Reply { response } => {
                            if response.choices@.len() == 0 {
                                lemma_send_results_never_stall_the_loop(
                                    events.drop_first(),
                                    outcomes.drop_first(),
                                    sends1,
                                    sends2,
                                    prefix,
                                );
                            } else {
                                let rest1 = if sends1.len() > 0 {
                                    sends1.drop_first()
                                } else {
                                    sends1
                                };
                                let rest2 = if sends2.len() > 0 {
                                    sends2.drop_first()
                                } else {
                                    sends2
                                };
                                lemma_send_results_never_stall_the_loop(
                                    events.drop_first(),
                                    outcomes.drop_first(),
                                    rest1,
                                    rest2,
                                    prefix,
                                );
                            }
                        },
                    }
                }
            },
        }
    }
}

/// The orchestrator never pipelines: a run issues at most one completion
/// request per received event, and never receives more events than the
/// session produced.
pub proof fn lemma_at_most_one_request_per_event(
    events: Seq<InboundEvent>,
    outcomes: Seq<CompletionOutcome>,
    sends: Seq<bool>,
    prefix: Seq<char>,
)
    ensures
        spec_run(events, outcomes, sends, prefix).requests.len() <= spec_run(
            events,
            outcomes,
            sends,
            prefix,
        ).events_seen,
        spec_run(events, outcomes, sends, prefix).events_seen <= events.len(),
    decreases events.len(),
{
    if events.len() > 0 {
        match plan_for(events[0], prefix) {
            SpecPlan::Stop => {},
            SpecPlan::Continue => {
                lemma_at_most_one_request_per_event(events.drop_first(), outcomes, sends, prefix);
            },
            SpecPlan::Request { channel_id: _, prompt: _ } => {
                if outcomes.len() > 0 {
                    match outcomes[0] {
                        CompletionOutcome::Failed { error: _ } => {},
                        CompletionOutcome::Reply { response } => {
                            if response.choices@.len() == 0 {
                                lemma_at_most_one_request_per_event(
                                    events.drop_first(),
                                    outcomes.drop_first(),
                                    sends,
                                    prefix,
                                );
                            } else {
                                lemma_at_most_one_request_per_event(
                                    events.drop_first(),
                                    outcomes.drop_first(),
                                    if sends.len() > 0 {
                                        sends.drop_first()
                                    } else {
                                        sends
                                    },
                                    prefix,
                                );
                            }
                        },
                    }
                }
            },
        }
    }
}

} // verus!
