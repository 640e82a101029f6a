//! Why a query could not be resolved.

use vstd::prelude::*;

verus! {

/// Why a query could not be resolved.
#[derive(Debug)]
pub enum UpstreamResolveError {
    /// A message or an address is not as it should be.
    Protocol(String),
    /// No answer came in time.
    Timeout,
    /// A socket failed.
    Io(String),
    /// No server answered.
    AllFailed,
}

/// An `UpstreamResolveError` with its text.
pub enum UpstreamResolveErrorView {
    Protocol(Seq<char>),
    Timeout,
    Io(Seq<char>),
    AllFailed,
}

impl View for UpstreamResolveError {
    type V = UpstreamResolveErrorView;

    open spec fn view(&self) -> UpstreamResolveErrorView {
        match self {
            UpstreamResolveError::Protocol(m) => UpstreamResolveErrorView::Protocol(m@),
            UpstreamResolveError::Timeout => UpstreamResolveErrorView::Timeout,
            UpstreamResolveError::Io(m) => UpstreamResolveErrorView::Io(m@),
            UpstreamResolveError::AllFailed => UpstreamResolveErrorView::AllFailed,
        }
    }
}

impl UpstreamResolveErrorView {
    /// The text that a user sees.
    pub open spec fn text(self) -> Seq<char> {
        match self {
            UpstreamResolveErrorView::Protocol(m) => m,
            UpstreamResolveErrorView::Timeout => "upstream resolver timed out"@,
            UpstreamResolveErrorView::Io(m) => m,
            UpstreamResolveErrorView::AllFailed => "all upstream resolvers failed"@,
        }
    }
}

impl UpstreamResolveError {
    /// The text that a user sees.
    pub fn message(&self) -> (r: String)
        ensures
            r@ == self@.text(),
    {
        match self {
            UpstreamResolveError::Protocol(m) => m.clone(),
            UpstreamResolveError::Timeout => "upstream resolver timed out".to_owned(),
            UpstreamResolveError::Io(m) => m.clone(),
            UpstreamResolveError::AllFailed => "all upstream resolvers failed".to_owned(),
        }
    }
}

/// What went wrong is told in the words in which it came, and a timeout is told from the
/// failure of all servers.
pub proof fn law_errors_are_told_as_they_came(m: Seq<char>)
    ensures
        UpstreamResolveErrorView::Protocol(m).text() == m,
        UpstreamResolveErrorView::Io(m).text() == m,
        UpstreamResolveErrorView::Timeout.text() != UpstreamResolveErrorView::AllFailed.text(),
{
    reveal_strlit("upstream resolver timed out");
    reveal_strlit("all upstream resolvers failed");
    assert("upstream resolver timed out"@.len() == 27);
    assert("all upstream resolvers failed"@.len() == 29);
}

/// The view of an error keeps its kind and its words.
pub proof fn law_errors_keep_their_kind(m: String)
    ensures
        UpstreamResolveError::Protocol(m)@ == UpstreamResolveErrorView::Protocol(m@),
        UpstreamResolveError::Io(m)@ == UpstreamResolveErrorView::Io(m@),
        UpstreamResolveError::Timeout@ is Timeout,
        UpstreamResolveError::AllFailed@ is AllFailed,
{
}

} // verus!
