//! The client side of one call.
//!
//! A call is one request envelope sent to one task, answered by the kernel
//! with the server's response envelope or with the news that the server was
//! restarted since the handle was resolved. The kernel does the sending; the
//! functions here say what is sent, and what follows from each answer.

use vstd::prelude::*;
use crate::task::TaskHandle;
use crate::wire::{decode_response, response_of, success_envelope, CallError};

verus! {

/// A request on its way to a server.
#[derive(Debug, PartialEq, Eq)]
pub struct Call {
    /// The task that the request goes to.
    pub target: TaskHandle,
    /// The request envelope.
    pub envelope: Vec<u8>,
    /// The length of the result that a success carries.
    pub payload_len: usize,
    /// Whether the request is sent again when the server was restarted.
    /// Set for operations that leave the same state behind however often
    /// they are carried out.
    pub retry: bool,
}

/// What the kernel hands back for a request that was sent.
#[derive(Debug, PartialEq, Eq)]
pub enum Answer {
    /// The response envelope of the server.
    Reply(Vec<u8>),
    /// The server was restarted and now runs in this generation. The request
    /// did not reach it.
    PeerRestarted(u8),
}

/// What follows from an answer.
#[derive(Debug, PartialEq, Eq)]
pub enum Progress {
    /// The request has to be sent again, as this call.
    Resend(Call),
    /// The call is over: with the result of the operation, or with an error.
    Done(Result<Vec<u8>, CallError>),
}

/// A [`Call`] as a value of specifications.
pub struct CallModel {
    pub target: TaskHandle,
    pub envelope: Seq<u8>,
    pub payload_len: int,
    pub retry: bool,
}

/// An [`Answer`] as a value of specifications.
pub enum AnswerModel {
    Reply(Seq<u8>),
    PeerRestarted(u8),
}

/// A [`Progress`] as a value of specifications.
pub enum ProgressModel {
    Resend(CallModel),
    Done(Result<Seq<u8>, CallError>),
}

impl View for Call {
    type V = CallModel;

    open spec fn view(&self) -> CallModel {
        CallModel {
            target: self.target,
            envelope: self.envelope@,
            payload_len: self.payload_len as int,
            retry: self.retry,
        }
    }
}

impl View for Answer {
    type V = AnswerModel;

    open spec fn view(&self) -> AnswerModel {
        match self {
            Answer::Reply(bytes) => AnswerModel::Reply(bytes@),
            Answer::PeerRestarted(generation) => AnswerModel::PeerRestarted(*generation),
        }
    }
}

impl View for Progress {
    type V = ProgressModel;

    open spec fn view(&self) -> ProgressModel {
        match self {
            Progress::Resend(call) => ProgressModel::Resend(call@),
            Progress::Done(Ok(payload)) => ProgressModel::Done(Ok(payload@)),
            Progress::Done(Err(error)) => ProgressModel::Done(Err(*error)),
        }
    }
}

/// The same call, addressed to the generation that the kernel reported.
pub open spec fn redirected(call: CallModel, generation: u8) -> CallModel {
    CallModel { target: TaskHandle { index: call.target.index, generation }, ..call }
}

/// What follows from one answer to a call.
///
/// A reply ends the call with what the response envelope says. A restart of
/// the server sends a call that may be repeated to the new generation, and
/// ends any other call with [`CallError::PeerRestarted`].
pub open spec fn resolved(call: CallModel, answer: AnswerModel) -> ProgressModel {
    match answer {
        AnswerModel::Reply(bytes) => ProgressModel::Done(response_of(bytes, call.payload_len)),
        AnswerModel::PeerRestarted(generation) => if call.retry {
            ProgressModel::Resend(redirected(call, generation))
        } else {
            ProgressModel::Done(Err(CallError::PeerRestarted))
        },
    }
}

/// How a call ends when the kernel gives `answers` one after the other, each
/// to the request that the answer before it made necessary. `None` if the
/// answers run out before the call is over.
pub open spec fn concluded(call: CallModel, answers: Seq<AnswerModel>) -> Option<
    Result<Seq<u8>, CallError>,
>
    decreases answers.len(),
{
    if answers.len() == 0 {
        None
    } else {
        match resolved(call, answers[0]) {
            ProgressModel::Done(outcome) => Some(outcome),
            ProgressModel::Resend(next) => concluded(next, answers.drop_first()),
        }
    }
}

impl Call {
    /// Says what follows from the kernel's answer to this call.
    pub fn resolve(self, answer: Answer) -> (progress: Progress)
        ensures
            progress@ == resolved(self@, answer@),
    {
        match answer {
            Answer::Reply(bytes) => Progress::Done(
                decode_response(bytes.as_slice(), self.payload_len),
            ),
            Answer::PeerRestarted(generation) => {
                if self.retry {
                    Progress::Resend(
                        Call {
                            target: self.target.with_generation(generation),
                            envelope: self.envelope,
                            payload_len: self.payload_len,
                            retry: self.retry,
                        },
                    )
                } else {
                    Progress::Done(Err(CallError::PeerRestarted))
                }
            },
        }
    }
}

/// A call that may be repeated never ends with
/// [`CallError::PeerRestarted`]: when the server was restarted, the same
/// envelope goes to its new generation.
pub proof fn lemma_retry_follows_restart(call: CallModel, generation: u8)
    requires
        call.retry,
    ensures
        resolved(call, AnswerModel::PeerRestarted(generation)) == ProgressModel::Resend(
            redirected(call, generation),
        ),
        redirected(call, generation).target.index == call.target.index,
        redirected(call, generation).target.generation == generation,
        redirected(call, generation).envelope == call.envelope,
        redirected(call, generation).retry,
{
}

/// A call that may be repeated, whose server is restarted any number of
/// times before it answers with a success, ends with the result of that
/// success.
pub proof fn lemma_restarts_then_success(
    call: CallModel,
    generations: Seq<u8>,
    payload: Seq<u8>,
)
    requires
        call.retry,
        payload.len() == call.payload_len,
    ensures
        concluded(
            call,
            generations.map_values(|g: u8| AnswerModel::PeerRestarted(g)).push(
                AnswerModel::Reply(success_envelope(payload)),
            ),
        ) == Some(Ok::<Seq<u8>, CallError>(payload)),
    decreases generations.len(),
{
    let restarts = generations.map_values(|g: u8| AnswerModel::PeerRestarted(g));
    let answers = restarts.push(AnswerModel::Reply(success_envelope(payload)));
    if generations.len() == 0 {
        assert(success_envelope(payload).drop_first() =~= payload);
    } else {
        let rest = generations.drop_first();
        let rest_answers = rest.map_values(|g: u8| AnswerModel::PeerRestarted(g)).push(
            AnswerModel::Reply(success_envelope(payload)),
        );
        assert(answers.drop_first() =~= rest_answers);
        lemma_restarts_then_success(redirected(call, generations[0]), rest, payload);
    }
}

} // verus!
