//! What can go wrong with a certificate.

use crate::text::{decimal, number};
use vstd::prelude::*;

verus! {

/// Errors from DNS provider operations.
#[derive(Debug)]
pub enum DnsProviderError {
    /// The request did not get through.
    Http(String),
    /// The provider refused the request.
    Api { status: u16, message: String },
    /// No zone of the provider holds the domain.
    ZoneNotFound(String),
    /// The configuration cannot be used.
    Config(String),
}

/// A `DnsProviderError` with its texts.
pub enum DnsProviderErrorView {
    Http(Seq<char>),
    Api { status: u16, message: Seq<char> },
    ZoneNotFound(Seq<char>),
    Config(Seq<char>),
}

impl View for DnsProviderError {
    type V = DnsProviderErrorView;

    open spec fn view(&self) -> DnsProviderErrorView {
        match self {
            DnsProviderError::Http(m) => DnsProviderErrorView::Http(m@),
            DnsProviderError::Api { status, message } => DnsProviderErrorView::Api {
                status: *status,
                message: message@,
            },
            DnsProviderError::ZoneNotFound(d) => DnsProviderErrorView::ZoneNotFound(d@),
            DnsProviderError::Config(m) => DnsProviderErrorView::Config(m@),
        }
    }
}

impl DnsProviderErrorView {
    /// The text that a user sees.
    pub open spec fn text(self) -> Seq<char> {
        match self {
            DnsProviderErrorView::Http(m) => "HTTP request failed: "@ + m,
            DnsProviderErrorView::Api { status, message } => "API error ("@ + decimal(status as nat)
                + "): "@ + message,
            DnsProviderErrorView::ZoneNotFound(d) => "zone not found for domain: "@ + d,
            DnsProviderErrorView::Config(m) => "invalid configuration: "@ + m,
        }
    }
}

impl DnsProviderError {
    /// The text that a user sees.
    pub fn message(&self) -> (r: String)
        ensures
            r@ == self@.text(),
    {
        match self {
            DnsProviderError::Http(m) => {
                let mut out = "HTTP request failed: ".to_owned();
                out.push_str(m.as_str());
                out
            },
            DnsProviderError::Api { status, message } => {
                let mut out = "API error (".to_owned();
                out.push_str(number(*status as u64).as_str());
                out.push_str("): ");
                out.push_str(message.as_str());
                out
            },
            DnsProviderError::ZoneNotFound(d) => {
                let mut out = "zone not found for domain: ".to_owned();
                out.push_str(d.as_str());
                out
            },
            DnsProviderError::Config(m) => {
                let mut out = "invalid configuration: ".to_owned();
                out.push_str(m.as_str());
                out
            },
        }
    }
}

/// Errors from the ACME certificate management system.
#[derive(Debug)]
pub enum AcmeError {
    /// The authority did not do as asked.
    Protocol(String),
    /// The DNS provider failed.
    DnsProvider(DnsProviderError),
    /// A file could not be read or written.
    Io(String),
    /// A certificate or a key cannot be used.
    Key(String),
    /// The certificate has expired and no other was obtained.
    Expired,
    /// The configuration cannot be used.
    Config(String),
}

/// An `AcmeError` with its texts.
pub enum AcmeErrorView {
    Protocol(Seq<char>),
    DnsProvider(DnsProviderErrorView),
    Io(Seq<char>),
    Key(Seq<char>),
    Expired,
    Config(Seq<char>),
}

impl View for AcmeError {
    type V = AcmeErrorView;

    open spec fn view(&self) -> AcmeErrorView {
        match self {
            AcmeError::Protocol(m) => AcmeErrorView::Protocol(m@),
            AcmeError::DnsProvider(e) => AcmeErrorView::DnsProvider(e@),
            AcmeError::Io(m) => AcmeErrorView::Io(m@),
            AcmeError::Key(m) => AcmeErrorView::Key(m@),
            AcmeError::Expired => AcmeErrorView::Expired,
            AcmeError::Config(m) => AcmeErrorView::Config(m@),
        }
    }
}

impl AcmeErrorView {
    /// The text that a user sees.
    pub open spec fn text(self) -> Seq<char> {
        match self {
            AcmeErrorView::Protocol(m) => "ACME protocol error: "@ + m,
            AcmeErrorView::DnsProvider(e) => "DNS provider error: "@ + e.text(),
            AcmeErrorView::Io(m) => "certificate I/O error: "@ + m,
            AcmeErrorView::Key(m) => "TLS key error: "@ + m,
            AcmeErrorView::Expired => "certificate expired and renewal failed"@,
            AcmeErrorView::Config(m) => "invalid configuration: "@ + m,
        }
    }
}

impl AcmeError {
    /// The text that a user sees.
    pub fn message(&self) -> (r: String)
        ensures
            r@ == self@.text(),
    {
        match self {
            AcmeError::Protocol(m) => {
                let mut out = "ACME protocol error: ".to_owned();
                out.push_str(m.as_str());
                out
            },
            AcmeError::DnsProvider(e) => {
                let mut out = "DNS provider error: ".to_owned();
                out.push_str(e.message().as_str());
                out
            },
            AcmeError::Io(m) => {
                let mut out = "certificate I/O error: ".to_owned();
                out.push_str(m.as_str());
                out
            },
            AcmeError::Key(m) => {
                let mut out = "TLS key error: ".to_owned();
                out.push_str(m.as_str());
                out
            },
            AcmeError::Expired => "certificate expired and renewal failed".to_owned(),
            AcmeError::Config(m) => {
                let mut out = "invalid configuration: ".to_owned();
                out.push_str(m.as_str());
                out
            },
        }
    }
}

/// The text of an error ends with the words in which it came, and that of a provider's answer
/// names its status.
pub proof fn law_texts_end_with_the_cause(m: Seq<char>, status: u16, e: DnsProviderErrorView)
    ensures
        m.is_suffix_of(DnsProviderErrorView::Http(m).text()),
        m.is_suffix_of(DnsProviderErrorView::ZoneNotFound(m).text()),
        m.is_suffix_of(DnsProviderErrorView::Config(m).text()),
        (decimal(status as nat) + "): "@ + m).is_suffix_of(
            (DnsProviderErrorView::Api { status, message: m }).text(),
        ),
        m.is_suffix_of(AcmeErrorView::Protocol(m).text()),
        m.is_suffix_of(AcmeErrorView::Io(m).text()),
        m.is_suffix_of(AcmeErrorView::Key(m).text()),
        m.is_suffix_of(AcmeErrorView::Config(m).text()),
        e.text().is_suffix_of(AcmeErrorView::DnsProvider(e).text()),
{
    lemma_last_part("HTTP request failed: "@, m);
    lemma_last_part("zone not found for domain: "@, m);
    lemma_last_part("invalid configuration: "@, m);
    let d = decimal(status as nat) + "): "@ + m;
    lemma_last_part("API error ("@, d);
    assert("API error ("@ + d =~= "API error ("@ + decimal(status as nat) + "): "@ + m);
    lemma_last_part("ACME protocol error: "@, m);
    lemma_last_part("certificate I/O error: "@, m);
    lemma_last_part("TLS key error: "@, m);
    lemma_last_part("DNS provider error: "@, e.text());
}

proof fn lemma_last_part(a: Seq<char>, b: Seq<char>)
    ensures
        b.is_suffix_of(a + b),
{
    let t = a + b;
    assert(t.subrange(t.len() - b.len(), t.len() as int) =~= b);
}

/// The view of an error keeps its kind and its words.
pub proof fn law_errors_keep_their_kind(m: String, status: u16, e: DnsProviderError)
    ensures
        AcmeError::Protocol(m)@ == AcmeErrorView::Protocol(m@),
        AcmeError::Io(m)@ == AcmeErrorView::Io(m@),
        AcmeError::Key(m)@ == AcmeErrorView::Key(m@),
        AcmeError::Config(m)@ == AcmeErrorView::Config(m@),
        AcmeError::Expired@ is Expired,
        AcmeError::DnsProvider(e)@ == AcmeErrorView::DnsProvider(e@),
        DnsProviderError::Http(m)@ == DnsProviderErrorView::Http(m@),
        DnsProviderError::ZoneNotFound(m)@ == DnsProviderErrorView::ZoneNotFound(m@),
        DnsProviderError::Config(m)@ == DnsProviderErrorView::Config(m@),
{
}

} // verus!
