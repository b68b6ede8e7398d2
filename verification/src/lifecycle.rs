//! The life of a span after it is made: the order in which the callbacks of
//! one request are called, and what the span holds at each stage.
//!
//! A request is `Created`. Its response's headers make it
//! `ResponseReceived`; chunks of the body follow, and the end of the stream
//! makes it `Terminal`. A failure makes it `Terminal` at once, wherever it
//! stood. Once `Terminal`, nothing is recorded any more.

use crate::span::marks_error;
use crate::span::GrpcFailure;
use crate::span::HttpFailure;
use crate::span::Protocol;
use crate::span::SpanRecordView;
use crate::text::decimal;
use vstd::prelude::*;

verus! {

/// A call of one of the callbacks.
pub enum HookCall {
    /// The request has arrived.
    Request,
    /// The response's headers are there, with this status code.
    Response(u16),
    /// The body has produced a chunk.
    BodyChunk,
    /// The stream has ended.
    EndOfStream,
    /// The response or the end of its stream was classified as a failure of
    /// an HTTP server.
    Failure(HttpFailure),
    /// The response or the end of its stream was classified as a failure of
    /// a gRPC server.
    GrpcFailure(GrpcFailure),
}

/// Where a request stands.
pub enum Stage {
    Created,
    ResponseReceived,
    Terminal,
}

impl HookCall {
    /// Whether the call writes `otel.status_code`.
    pub open spec fn writes_status(self) -> bool {
        match self {
            HookCall::Response(_) => true,
            HookCall::Failure(failure) => marks_error(failure),
            _ => false,
        }
    }

    /// Whether the call is a failure that marks the span as an error.
    pub open spec fn is_error(self) -> bool {
        self matches HookCall::Failure(failure) && marks_error(failure)
    }
}

/// The stage after `call`, where `call` may come at `stage`. The response
/// comes once, before any chunk and before the end of the stream; a failure
/// comes once; after a failure or the end of the stream only calls that
/// record nothing may follow.
pub open spec fn next_stage(stage: Stage, call: HookCall) -> Option<Stage> {
    match stage {
        Stage::Created => match call {
            HookCall::Request => Some(Stage::Created),
            HookCall::Response(_) => Some(Stage::ResponseReceived),
            HookCall::Failure(_) => Some(Stage::Terminal),
            HookCall::GrpcFailure(_) => Some(Stage::Terminal),
            _ => None,
        },
        Stage::ResponseReceived => match call {
            HookCall::BodyChunk => Some(Stage::ResponseReceived),
            HookCall::EndOfStream => Some(Stage::Terminal),
            HookCall::Failure(_) => Some(Stage::Terminal),
            HookCall::GrpcFailure(_) => Some(Stage::Terminal),
            _ => None,
        },
        Stage::Terminal => match call {
            HookCall::BodyChunk => Some(Stage::Terminal),
            HookCall::EndOfStream => Some(Stage::Terminal),
            _ => None,
        },
    }
}

/// The stage after the calls `calls`, the first of them at a request just
/// created; none where they do not come in the order of a request's life.
pub open spec fn stage_after(calls: Seq<HookCall>) -> Option<Stage>
    decreases calls.len(),
{
    if calls.len() == 0 {
        Some(Stage::Created)
    } else {
        match stage_after(calls.drop_last()) {
            Some(stage) => next_stage(stage, calls.last()),
            None => None,
        }
    }
}

/// How many of the calls write `otel.status_code`.
pub open spec fn status_writes(calls: Seq<HookCall>) -> nat
    decreases calls.len(),
{
    if calls.len() == 0 {
        0
    } else {
        status_writes(calls.drop_last()) + if calls.last().writes_status() {
            1nat
        } else {
            0nat
        }
    }
}

impl SpanRecordView {
    /// The record after one call.
    pub open spec fn after(self, call: HookCall) -> SpanRecordView {
        match call {
            HookCall::Request => self,
            HookCall::Response(status) => self.with_response(status),
            HookCall::BodyChunk => self,
            HookCall::EndOfStream => self,
            HookCall::Failure(failure) => self.with_http_failure(failure),
            HookCall::GrpcFailure(failure) => self.with_grpc_failure(failure),
        }
    }

    /// The record after the calls `calls`, in their order.
    pub open spec fn after_all(self, calls: Seq<HookCall>) -> SpanRecordView
        decreases calls.len(),
    {
        if calls.len() == 0 {
            self
        } else {
            self.after_all(calls.drop_last()).after(calls.last())
        }
    }
}

/// What holds of a span at each stage of its request's life.
pub open spec fn stage_holds(span: SpanRecordView, calls: Seq<HookCall>, stage: Stage) -> bool {
    let now = span.after_all(calls);
    match stage {
        Stage::Created => {
            &&& status_writes(calls) == 0
            &&& now == span
            &&& forall|i: int| 0 <= i < calls.len() ==> !(#[trigger] calls[i]).writes_status()
        },
        Stage::ResponseReceived => {
            &&& status_writes(calls) == 1
            &&& now.otel_status_code == Some("OK"@)
            &&& exists|i: int|
                0 <= i < calls.len() && #[trigger] calls[i] is Response && now.http_status_code
                    == Some(decimal(calls[i]->Response_0 as nat))
            &&& forall|i: int| 0 <= i < calls.len() ==> !(#[trigger] calls[i]).is_error()
        },
        Stage::Terminal => {
            &&& status_writes(calls) <= 2
            &&& (exists|i: int| 0 <= i < calls.len() && (#[trigger] calls[i]).is_error())
                ==> now.otel_status_code == Some("ERROR"@)
            &&& (forall|i: int| 0 <= i < calls.len() ==> !(#[trigger] calls[i]).is_error()) ==> (
            if exists|i: int| 0 <= i < calls.len() && #[trigger] calls[i] is Response {
                now.otel_status_code == Some("OK"@)
            } else {
                now.otel_status_code == span.otel_status_code
            })
        },
    }
}

/// Through the life of a request its span holds what its stage says: nothing
/// new while the request is `Created`; the response's status code and `OK`
/// once `ResponseReceived`; and at the end `ERROR` where a failure marked an
/// error, else `OK` where there was a response. `otel.status_code` is written
/// twice at most.
pub proof fn lemma_stage_holds(span: SpanRecordView, calls: Seq<HookCall>)
    requires
        stage_after(calls) is Some,
    ensures
        stage_holds(span, calls, stage_after(calls)->0),
    decreases calls.len(),
{
    if calls.len() > 0 {
        let before = calls.drop_last();
        let call = calls.last();
        lemma_stage_holds(span, before);
        let stage = stage_after(before)->0;
        let then = span.after_all(before);
        let now = span.after_all(calls);
        let last = calls.len() - 1;
        assert(now == then.after(call));
        assert(calls[last] == call);
        assert forall|i: int| 0 <= i < before.len() implies before[i] == #[trigger] calls[i] by {}
        match stage {
            Stage::Created => {
                assert forall|i: int| 0 <= i < before.len() implies !(
                #[trigger] calls[i]).is_error() && !(calls[i] is Response) by {
                    assert(!before[i].writes_status());
                }
                if call.is_error() {
                    assert(calls[last].is_error());
                }
            },
            Stage::ResponseReceived => {
                let i = choose|i: int|
                    0 <= i < before.len() && #[trigger] before[i] is Response
                        && then.http_status_code == Some(decimal(before[i]->Response_0 as nat));
                assert(calls[i] is Response);
                assert forall|j: int| 0 <= j < before.len() implies !(
                #[trigger] calls[j]).is_error() by {
                    assert(!before[j].is_error());
                }
                if call.is_error() {
                    assert(calls[last].is_error());
                }
            },
            Stage::Terminal => {
                assert(now == then);
                if exists|i: int| 0 <= i < before.len() && (#[trigger] before[i]).is_error() {
                    let i = choose|i: int|
                        0 <= i < before.len() && (#[trigger] before[i]).is_error();
                    assert(calls[i].is_error());
                } else {
                    assert forall|j: int| 0 <= j < calls.len() implies !(
                    #[trigger] calls[j]).is_error() by {
                        if j < before.len() {
                            assert(!before[j].is_error());
                        }
                    }
                    if exists|i: int| 0 <= i < before.len() && #[trigger] before[i] is Response {
                        let i = choose|i: int|
                            0 <= i < before.len() && #[trigger] before[i] is Response;
                        assert(calls[i] is Response);
                    } else {
                        assert forall|j: int| 0 <= j < calls.len() implies !(#[trigger] calls[j]
                            is Response) by {
                            if j < before.len() {
                                assert(!(before[j] is Response));
                            }
                        }
                    }
                }
            },
        }
    }
}

/// In the life of one request `otel.status_code` is written twice at most:
/// `OK` by the response, and `ERROR` by a failure.
pub proof fn lemma_status_written_at_most_twice(calls: Seq<HookCall>)
    requires
        stage_after(calls) is Some,
    ensures
        status_writes(calls) <= 2,
{
    lemma_stage_holds(SpanRecordView::empty(Protocol::Http), calls);
}

/// A failure that marks an error wins: whatever else was recorded in the
/// life of the request, `otel.status_code` ends as `ERROR`.
pub proof fn lemma_error_is_final(span: SpanRecordView, calls: Seq<HookCall>, i: int)
    requires
        stage_after(calls) is Some,
        0 <= i < calls.len(),
        calls[i].is_error(),
    ensures
        stage_after(calls) == Some(Stage::Terminal),
        span.after_all(calls).otel_status_code == Some("ERROR"@),
{
    lemma_stage_holds(span, calls);
}

/// Without a failure that marks an error, a response leaves
/// `otel.status_code` at `OK` to the end.
pub proof fn lemma_ok_without_error(span: SpanRecordView, calls: Seq<HookCall>, i: int)
    requires
        stage_after(calls) is Some,
        0 <= i < calls.len(),
        calls[i] is Response,
        forall|j: int| 0 <= j < calls.len() ==> !(#[trigger] calls[j]).is_error(),
    ensures
        span.after_all(calls).otel_status_code == Some("OK"@),
{
    lemma_stage_holds(span, calls);
    assert(calls[i].writes_status());
}

} // verus!
