//! The answer that goes to the client, made of what the pipeline answered.

use hickory_proto::op::Message;
use vstd::prelude::*;

verus! {

/// The code of an answer that says that the server failed.
pub const SERV_FAIL: u16 = 2;

/// What of a request goes into the head of its answer.
#[derive(Clone, Copy, Debug, PartialEq, Eq, Structural)]
pub struct RequestHead {
    pub id: u16,
    pub op_code: u8,
    pub recursion_desired: bool,
    pub checking_disabled: bool,
}

/// The head of an answer.
#[derive(Clone, Copy, Debug, PartialEq, Eq, Structural)]
pub struct ResponseHead {
    pub id: u16,
    pub op_code: u8,
    pub authoritative: bool,
    pub truncated: bool,
    pub recursion_desired: bool,
    pub recursion_available: bool,
    pub authentic_data: bool,
    pub checking_disabled: bool,
    pub response_code: u16,
}

/// The head of an answer to a request that says nothing but a code: the ID, the operation
/// and the flags that are echoed are those of the request.
pub open spec fn echoed_head(request: RequestHead, response_code: u16) -> ResponseHead {
    ResponseHead {
        id: request.id,
        op_code: request.op_code,
        authoritative: false,
        truncated: false,
        recursion_desired: request.recursion_desired,
        recursion_available: false,
        authentic_data: false,
        checking_disabled: request.checking_disabled,
        response_code,
    }
}

/// The head of the answer, given the head of what the pipeline answered; `None` where
/// that could not be read.
pub open spec fn answer_head(request: RequestHead, answered: Option<ResponseHead>) -> ResponseHead {
    match answered {
        None => echoed_head(request, SERV_FAIL),
        Some(a) => ResponseHead {
            authoritative: a.authoritative,
            recursion_available: a.recursion_available,
            authentic_data: a.authentic_data,
            checking_disabled: a.checking_disabled,
            ..echoed_head(request, a.response_code)
        },
    }
}

/// The head of the answer: who asked what comes from the request, what is known about it
/// from the pipeline. An answer of the pipeline that cannot be read is a failure of the
/// server.
pub fn build_response(request: &RequestHead, answered: Option<ResponseHead>) -> (r: ResponseHead)
    ensures
        r == answer_head(*request, answered),
{
    match answered {
        None => ResponseHead {
            id: request.id,
            op_code: request.op_code,
            authoritative: false,
            truncated: false,
            recursion_desired: request.recursion_desired,
            recursion_available: false,
            authentic_data: false,
            checking_disabled: request.checking_disabled,
            response_code: SERV_FAIL,
        },
        Some(a) => ResponseHead {
            id: request.id,
            op_code: request.op_code,
            authoritative: a.authoritative,
            truncated: false,
            recursion_desired: request.recursion_desired,
            recursion_available: a.recursion_available,
            authentic_data: a.authentic_data,
            checking_disabled: a.checking_disabled,
            response_code: a.response_code,
        },
    }
}

// ---- messages ----

/// The message of hickory.
#[verifier::external_type_specification]
#[verifier::external_body]
pub struct ExMessage(Message);

/// What `hickory_proto::op::Message::from_vec` reads from the bytes of an answer: the head
/// of the message, and the message itself with its records.
pub uninterp spec fn read_answer(response: Seq<u8>) -> Option<(ResponseHead, Message)>;

/// `hickory_proto::op::Message::from_vec`: the message that bytes hold, with its head, or
/// nothing where they hold none. The wire format is not stated.
#[verifier::external_body]
fn read_response(response: &[u8]) -> (r: Option<(ResponseHead, Message)>)
    ensures
        r == read_answer(response@),
{
    let m = Message::from_vec(response).ok()?;
    let head = ResponseHead {
        id: m.id,
        op_code: m.op_code.into(),
        authoritative: m.authoritative,
        truncated: m.truncation,
        recursion_desired: m.recursion_desired,
        recursion_available: m.recursion_available,
        authentic_data: m.authentic_data,
        checking_disabled: m.checking_disabled,
        response_code: m.response_code.into(),
    };
    Some((head, m))
}

/// The head of what the pipeline answered, where it could be read.
pub open spec fn read_head(response: Seq<u8>) -> Option<ResponseHead> {
    match read_answer(response) {
        Some((head, _)) => Some(head),
        None => None,
    }
}

/// The answer to a request, made of the bytes that the pipeline answered: its head, and the
/// message whose records it hands on. Where the bytes hold no message there are no records
/// to hand on.
pub fn build_response_of_bytes(request: &RequestHead, response: &[u8]) -> (r: (
    ResponseHead,
    Option<Message>,
))
    ensures
        r.0 == answer_head(*request, read_head(response@)),
        r.1 == match read_answer(response@) {
            Some((_, message)) => Some(message),
            None => None,
        },
{
    match read_response(response) {
        Some((head, message)) => (build_response(request, Some(head)), Some(message)),
        None => (build_response(request, None), None),
    }
}

/// The records of a message, section by section; `R` is their type.
#[derive(Debug)]
pub struct Sections<R> {
    pub answers: Vec<R>,
    pub authorities: Vec<R>,
    pub additionals: Vec<R>,
}

/// An answer as it is sent.
#[derive(Debug)]
pub struct Outgoing<R> {
    pub head: ResponseHead,
    pub answers: Vec<R>,
    pub authorities: Vec<R>,
    /// A start of authority of its own, which no answer has: it is among the authorities.
    pub soa: Vec<R>,
    pub additionals: Vec<R>,
}

/// Whether an answer has a head and the records of the message that the pipeline answered.
pub open spec fn sends<R>(
    head: ResponseHead,
    sections: Option<Sections<R>>,
    r: Outgoing<R>,
) -> bool {
    &&& r.head == head
    &&& r.soa@.len() == 0
    &&& match sections {
        Some(s) => r.answers == s.answers && r.authorities == s.authorities && r.additionals
            == s.additionals,
        None => r.answers@.len() == 0 && r.authorities@.len() == 0 && r.additionals@.len() == 0,
    }
}

/// The answer with a head and the records of the message that the pipeline answered; no
/// records where there is no such message.
pub fn outgoing<R>(head: ResponseHead, sections: Option<Sections<R>>) -> (r: Outgoing<R>)
    ensures
        sends(head, sections, r),
        r.head == head,
        r.soa@.len() == 0,
        match sections {
            Some(s) => r.answers == s.answers && r.authorities == s.authorities && r.additionals
                == s.additionals,
            None => r.answers@.len() == 0 && r.authorities@.len() == 0 && r.additionals@.len() == 0,
        },
{
    match sections {
        Some(s) => Outgoing {
            head,
            answers: s.answers,
            authorities: s.authorities,
            soa: Vec::new(),
            additionals: s.additionals,
        },
        None => Outgoing {
            head,
            answers: Vec::new(),
            authorities: Vec::new(),
            soa: Vec::new(),
            additionals: Vec::new(),
        },
    }
}

/// The head that is noted where an answer could not be sent.
pub open spec fn failed_head(request: RequestHead) -> ResponseHead {
    ResponseHead {
        recursion_desired: false,
        checking_disabled: false,
        ..echoed_head(request, SERV_FAIL)
    }
}

/// The head that is noted where an answer could not be sent.
pub fn serve_failed_info(request: &RequestHead) -> (r: ResponseHead)
    ensures
        r == failed_head(*request),
        r == (ResponseHead {
            recursion_desired: false,
            checking_disabled: false,
            ..echoed_head(*request, SERV_FAIL)
        }),
{
    ResponseHead {
        id: request.id,
        op_code: request.op_code,
        authoritative: false,
        truncated: false,
        recursion_desired: false,
        recursion_available: false,
        authentic_data: false,
        checking_disabled: false,
        response_code: SERV_FAIL,
    }
}

/// What the pipeline made of a request.
#[derive(Debug)]
pub enum PipelineOutcome {
    Answered(Vec<u8>),
    NoAnswer,
    Failed(String),
}

/// The bytes of the answer: those of the pipeline, or else those that say that the server
/// failed.
pub open spec fn sent_bytes(outcome: PipelineOutcome, serv_fail: Vec<u8>) -> Vec<u8> {
    match outcome {
        PipelineOutcome::Answered(b) => b,
        _ => serv_fail,
    }
}

/// The bytes of the answer.
pub fn response_bytes(outcome: PipelineOutcome, serv_fail: Vec<u8>) -> (r: Vec<u8>)
    ensures
        r == sent_bytes(outcome, serv_fail),
        r == match outcome {
            PipelineOutcome::Answered(b) => b,
            _ => serv_fail,
        },
{
    match outcome {
        PipelineOutcome::Answered(b) => b,
        _ => serv_fail,
    }
}

/// Whatever the pipeline answers, the client gets an answer to its own request: the ID
/// and the operation are those of the request.
pub proof fn law_answers_belong_to_their_request(request: RequestHead, answered: Option<ResponseHead>)
    ensures
        answer_head(request, answered).id == request.id,
        answer_head(request, answered).op_code == request.op_code,
        answer_head(request, answered).recursion_desired == request.recursion_desired,
        answered is None ==> answer_head(request, answered).response_code == SERV_FAIL,
{
}

/// What is known about an answer comes from the pipeline: the client gets the flags and the
/// code of the answer that could be read, and an answer counts as validated only where the
/// pipeline's does. Nothing but the request decides over the rest.
pub proof fn law_answers_say_what_the_pipeline_says(request: RequestHead, answered: ResponseHead)
    ensures
        ({
            let r = answer_head(request, Some(answered));
            &&& r.authoritative == answered.authoritative
            &&& r.recursion_available == answered.recursion_available
            &&& r.authentic_data == answered.authentic_data
            &&& r.checking_disabled == answered.checking_disabled
            &&& r.response_code == answered.response_code
            &&& !r.truncated
        }),
{
}

/// An answer that cannot be read claims nothing: it is a failure of the server, with what
/// the client sent echoed.
pub proof fn law_unreadable_answers_claim_nothing(request: RequestHead)
    ensures
        ({
            let r = answer_head(request, None);
            &&& r.response_code == 2
            &&& !r.authoritative
            &&& !r.truncated
            &&& !r.recursion_available
            &&& !r.authentic_data
            &&& r.checking_disabled == request.checking_disabled
            &&& r.recursion_desired == request.recursion_desired
            &&& r.id == request.id
            &&& r.op_code == request.op_code
        }),
{
}

/// An answer that could not be sent is noted under the request, as a failure of the server
/// without any flag.
pub proof fn law_unsent_answers_are_failures(request: RequestHead)
    ensures
        ({
            let r = failed_head(request);
            &&& r.id == request.id
            &&& r.op_code == request.op_code
            &&& r.response_code == 2
            &&& !r.authoritative && !r.truncated && !r.recursion_desired
            &&& !r.recursion_available && !r.authentic_data && !r.checking_disabled
        }),
{
}

/// What the pipeline answered goes to the client unchanged; only where it did not answer is
/// it told that the server failed.
pub proof fn law_answers_pass_unchanged(outcome: PipelineOutcome, serv_fail: Vec<u8>)
    ensures
        outcome matches PipelineOutcome::Answered(b) ==> sent_bytes(outcome, serv_fail) == b,
        !(outcome is Answered) ==> sent_bytes(outcome, serv_fail) == serv_fail,
{
}

/// All records of the message go to the client, each in its section.
pub proof fn law_records_stay_in_their_section<R>(
    head: ResponseHead,
    sections: Option<Sections<R>>,
    r: Outgoing<R>,
)
    requires
        sends(head, sections, r),
    ensures
        r.head == head,
        sections matches Some(s) ==> r.answers@ == s.answers@ && r.authorities@ == s.authorities@
            && r.additionals@ == s.additionals@,
        sections is None ==> r.answers@ + r.authorities@ + r.additionals@ == Seq::<R>::empty(),
        r.soa@.len() == 0,
{
    assert(sections is None ==> r.answers@ + r.authorities@ + r.additionals@ =~= Seq::<R>::empty());
}

/// The head of an answer that can be read is the one that stands in it.
pub proof fn law_heads_are_read(response: Seq<u8>)
    ensures
        read_answer(response) matches Some(a) ==> read_head(response) == Some(a.0),
        read_answer(response) is None ==> read_head(response) is None,
{
}

} // verus!
