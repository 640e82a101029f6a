//! The certificate that new connections are given.

use crate::pem::KeyMaterial;
use vstd::prelude::*;

verus! {

/// Holds the certificate and key for TLS handshakes, which a renewal replaces at runtime.
#[derive(Debug)]
pub struct SharedCertResolver {
    certified_key: KeyMaterial,
}

impl View for SharedCertResolver {
    type V = KeyMaterial;

    closed spec fn view(&self) -> KeyMaterial {
        self.certified_key
    }
}

/// What is presented after some certificates came, one after the other, behind the first.
pub open spec fn presented(first: KeyMaterial, renewed: Seq<KeyMaterial>) -> KeyMaterial
    decreases renewed.len(),
{
    if renewed.len() == 0 {
        first
    } else {
        replaced(presented(first, renewed.drop_last()), renewed.last())
    }
}

/// What is presented once a certificate comes for another.
pub open spec fn replaced(before: KeyMaterial, certified_key: KeyMaterial) -> KeyMaterial {
    certified_key
}

/// However many certificates come, the newest one is presented.
pub proof fn law_newest_certificate_is_presented(first: KeyMaterial, renewed: Seq<KeyMaterial>)
    ensures
        renewed.len() == 0 ==> presented(first, renewed) == first,
        renewed.len() > 0 ==> presented(first, renewed) == renewed[renewed.len() - 1],
{
}

impl SharedCertResolver {
    /// Creates a new resolver with the given initial certificate and key.
    pub fn new(certified_key: KeyMaterial) -> (r: SharedCertResolver)
        ensures
            r@ == certified_key,
    {
        SharedCertResolver { certified_key }
    }

    /// Replaces the current certificate with a new one.
    pub fn update(&mut self, certified_key: KeyMaterial)
        ensures
            final(self)@ == replaced(old(self)@, certified_key),
            final(self)@ == certified_key,
    {
        self.certified_key = certified_key;
    }

    /// The certificate and key in use.
    pub fn current(&self) -> (r: &KeyMaterial)
        ensures
            *r == self@,
    {
        &self.certified_key
    }

    /// What a handshake is given: the certificate and key in use, whoever the client is.
    pub fn resolve(&self) -> (r: Option<&KeyMaterial>)
        ensures
            r matches Some(k) && *k == self@,
    {
        Some(&self.certified_key)
    }
}

} // verus!
