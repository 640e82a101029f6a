//! DNS messages, as far as decisions depend on them.

use crate::net::IpAddr;
use crate::upstream::error::{UpstreamResolveError, UpstreamResolveErrorView};
use hickory_proto::op::Message;
use hickory_proto::rr::RData;
use vstd::prelude::*;

verus! {

/// The code of records with IPv4 addresses.
pub const TYPE_A: u16 = 1;

/// The code of records with IPv6 addresses.
pub const TYPE_AAAA: u16 = 28;

/// A question of a message.
#[derive(Debug)]
pub struct Question {
    /// The name in its ASCII form, with the dot at its end.
    pub name: String,
    pub class: u16,
    pub record_type: u16,
}

/// A question of a message, with its text.
pub struct QuestionView {
    pub name: Seq<char>,
    pub class: u16,
    pub record_type: u16,
}

impl View for Question {
    type V = QuestionView;

    open spec fn view(&self) -> QuestionView {
        QuestionView { name: self.name@, class: self.class, record_type: self.record_type }
    }
}

impl Question {
    /// A question for the records of a name.
    pub fn new(name: String, class: u16, record_type: u16) -> (r: Question)
        ensures
            r == (Question { name, class, record_type }),
    {
        Question { name, class, record_type }
    }

    /// The same question once more.
    pub fn copy(&self) -> (r: Question)
        ensures
            r@ == self@,
    {
        Question { name: self.name.clone(), class: self.class, record_type: self.record_type }
    }
}

/// The extensions that a message speaks of.
#[derive(Clone, Copy, Debug, PartialEq, Eq, Structural)]
pub struct Edns {
    /// Whether validation is asked for.
    pub dnssec_ok: bool,
    /// The size that the sender takes.
    pub max_payload: u16,
}

impl Edns {
    /// The extensions with a flag and a size.
    pub fn new(dnssec_ok: bool, max_payload: u16) -> (r: Edns)
        ensures
            r == (Edns { dnssec_ok, max_payload }),
    {
        Edns { dnssec_ok, max_payload }
    }
}

/// What decisions depend on in a message.
#[derive(Debug)]
pub struct MessageHead {
    pub id: u16,
    /// Whether the message was cut off.
    pub truncated: bool,
    pub questions: Vec<Question>,
    /// For each answer its address, where it has one.
    pub addresses: Vec<Option<IpAddr>>,
    pub edns: Option<Edns>,
}

impl MessageHead {
    /// A message with these parts.
    pub fn new(
        id: u16,
        truncated: bool,
        questions: Vec<Question>,
        addresses: Vec<Option<IpAddr>>,
        edns: Option<Edns>,
    ) -> (r: MessageHead)
        ensures
            r == (MessageHead { id, truncated, questions, addresses, edns }),
    {
        MessageHead { id, truncated, questions, addresses, edns }
    }
}

/// What decisions depend on in a message, with its texts.
#[verifier::ext_equal]
pub struct MessageHeadView {
    pub id: u16,
    pub truncated: bool,
    pub questions: Seq<QuestionView>,
    pub addresses: Seq<Option<IpAddr>>,
    pub edns: Option<Edns>,
}

/// Questions with their texts.
pub open spec fn questions_view(v: Seq<Question>) -> Seq<QuestionView> {
    Seq::new(v.len(), |i: int| v[i]@)
}

impl View for MessageHead {
    type V = MessageHeadView;

    open spec fn view(&self) -> MessageHeadView {
        MessageHeadView {
            id: self.id,
            truncated: self.truncated,
            questions: questions_view(self.questions@),
            addresses: self.addresses@,
            edns: self.edns,
        }
    }
}

/// A result of reading a message, with its texts.
pub open spec fn head_result(r: Result<MessageHead, String>) -> Result<MessageHeadView, Seq<char>> {
    match r {
        Ok(h) => Ok(h@),
        Err(m) => Err(m@),
    }
}

/// What `hickory_proto::op::Message::from_vec` reads from bytes; the error is its debug text.
pub uninterp spec fn message_head(bytes: Seq<u8>) -> Result<MessageHeadView, Seq<char>>;

/// `hickory_proto::op::Message::from_vec`: the message that bytes hold, or the debug text of
/// the error. The wire format is not stated.
#[verifier::external_body]
pub(crate) fn read_message(bytes: &[u8]) -> (r: Result<MessageHead, String>)
    ensures
        head_result(r) == message_head(bytes@),
{
    let m = Message::from_vec(bytes).map_err(|e| format!("{e:?}"))?;
    Ok(MessageHead::new(
        m.id,
        m.truncation,
        m.queries.iter().map(|q| Question::new(
            q.name().to_ascii(), q.query_class().into(), q.query_type().into(),
        )).collect(),
        m.answers.iter().map(|a| match &a.data {
            RData::A(x) => Some(IpAddr::V4(x.0.into())),
            RData::AAAA(x) => Some(IpAddr::V6(x.0.into())),
            _ => None,
        }).collect(),
        m.edns.map(|e| Edns::new(e.flags().dnssec_ok, e.max_payload())),
    ))
}

/// The question of a query, given what was read from its bytes.
pub open spec fn first_question(head: Result<MessageHeadView, Seq<char>>) -> Result<
    QuestionView,
    UpstreamResolveErrorView,
> {
    match head {
        Err(m) => Err(UpstreamResolveErrorView::Protocol(m)),
        Ok(h) => if h.questions.len() == 0 {
            Err(UpstreamResolveErrorView::Protocol("query contains no questions"@))
        } else {
            Ok(h.questions[0])
        },
    }
}

/// A result of looking for a question, with its texts.
pub open spec fn question_result(r: Result<Question, UpstreamResolveError>) -> Result<
    QuestionView,
    UpstreamResolveErrorView,
> {
    match r {
        Ok(q) => Ok(q@),
        Err(e) => Err(e@),
    }
}

/// The question of a query, given what was read from its bytes.
pub fn question_of(head: Result<MessageHead, String>) -> (r: Result<Question, UpstreamResolveError>)
    ensures
        question_result(r) == first_question(head_result(head)),
{
    match head {
        Err(m) => Err(UpstreamResolveError::Protocol(m)),
        Ok(h) => {
            assert(questions_view(h.questions@).len() == h.questions@.len());
            if h.questions.len() == 0 {
                return Err(
                    UpstreamResolveError::Protocol("query contains no questions".to_owned()),
                );
            }
            Ok(h.questions[0].copy())
        },
    }
}

/// The first question of a query.
pub fn extract_question(query: &[u8]) -> (r: Result<Question, UpstreamResolveError>)
    ensures
        question_result(r) == first_question(message_head(query@)),
{
    question_of(read_message(query))
}

/// What is asked is the first question of a query; a query without one asks nothing, and
/// neither does what cannot be read.
pub proof fn law_first_question_is_asked(head: Result<MessageHeadView, Seq<char>>)
    ensures
        match (head, first_question(head)) {
            (Ok(h), Ok(q)) => h.questions.len() > 0 && q == h.questions[0],
            (Ok(h), Err(_)) => h.questions.len() == 0,
            (Err(m), Err(e)) => e == UpstreamResolveErrorView::Protocol(m),
            _ => false,
        },
{
}

} // verus!
