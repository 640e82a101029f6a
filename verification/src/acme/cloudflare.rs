//! TXT records at Cloudflare, for the DNS-01 challenge.

use crate::acme::error::{AcmeError, AcmeErrorView, DnsProviderError, DnsProviderErrorView};
use crate::text::{
    chars_of, find, find_from, is_white_space, join, joined, law_parts_join_to_the_text,
    law_text_is_parted_at_the_separator, law_white_space_at_the_ends_goes, lemma_find, lemma_find_is, lemma_split_not_empty,
    opt_text, same, split, split_on, text_of, texts, trim, trimmed,
};
use vstd::prelude::*;

verus! {

// ---- the API token ----

/// The name of the environment variable that a value of the form `${NAME}` refers
/// to; white space around it does not count.
pub open spec fn referenced_variable(value: Seq<char>) -> Option<Seq<char>> {
    let t = trimmed(value);
    if t.len() >= 3 && t[0] == '$' && t[1] == '{' && t.last() == '}' {
        Some(t.subrange(2, t.len() - 1))
    } else {
        None
    }
}

/// The name of the environment variable that a value refers to.
pub fn env_reference(value: &str) -> (r: Option<String>)
    ensures
        opt_text(r) == referenced_variable(value@),
{
    let v = chars_of(trim(value).as_str());
    let n: usize = v.len();
    if n >= 3 && v[0] == '$' && v[1] == '{' && v[n - 1] == '}' {
        Some(text_of(&v, 2, n - 1))
    } else {
        None
    }
}

/// What a value stands for, given what the environment holds for the variable that
/// it refers to: that content, nothing where the variable is not set, and the value
/// itself where it refers to no variable.
pub open spec fn expanded(value: Seq<char>, found: Option<Seq<char>>) -> Seq<char> {
    match (referenced_variable(value), found) {
        (Some(_), Some(content)) => content,
        (Some(_), None) => seq![],
        (None, _) => value,
    }
}

/// Expands `${ENV_VAR}` syntax in a value; `found` is what the environment holds for
/// the variable that `env_reference` names.
pub fn expand_env_var(value: &str, found: Option<String>) -> (r: String)
    ensures
        r@ == expanded(value@, opt_text(found)),
{
    match env_reference(value) {
        Some(_) => match found {
            Some(content) => content,
            None => String::new(),
        },
        None => value.to_owned(),
    }
}

/// Cloudflare DNS provider for ACME DNS-01 challenges.
#[derive(Debug)]
pub struct CloudflareDnsProvider {
    pub api_token: String,
    pub zone_id: Option<String>,
}

impl CloudflareDnsProvider {
    /// Creates a new Cloudflare DNS provider. The token supports `${ENV_VAR}` syntax;
    /// `found` is what the environment holds for that variable. Without a zone ID the
    /// zone is found from the domain.
    pub fn new(api_token: String, zone_id: Option<String>, found: Option<String>) -> (r: Result<
        CloudflareDnsProvider,
        DnsProviderError,
    >)
        ensures
            ({
                let token = expanded(api_token@, opt_text(found));
                match r {
                    Ok(p) => token.len() > 0 && p.api_token@ == token && p.zone_id == zone_id,
                    Err(e) => token.len() == 0 && e@ == DnsProviderErrorView::Config(
                        "api_token is empty (check environment variable)"@,
                    ),
                }
            }),
    {
        let token = expand_env_var(api_token.as_str(), found);
        if token.as_str().is_empty() {
            return Err(
                DnsProviderError::Config(
                    "api_token is empty (check environment variable)".to_owned(),
                ),
            );
        }
        Ok(CloudflareDnsProvider { api_token: token, zone_id })
    }

    /// The search for the zone of a domain: with a configured zone it is over before it
    /// begins, and else it goes to the provider.
    pub fn resolve_zone_id(&self, domain: &str) -> (r: ZoneSearch)
        ensures
            r.well_formed(),
            r.domain() == domain@,
            r.asked() == 0,
            r.found() == match self.zone_id {
                Some(id) => Some(Ok::<Seq<char>, DnsProviderErrorView>(id@)),
                None => None,
            },
            self.zone_id is Some ==> r.is_over(),
    {
        match &self.zone_id {
            Some(id) => ZoneSearch::settled(domain, id.clone()),
            None => ZoneSearch::new(domain),
        }
    }

    /// The value of the `Authorization` header of every request.
    pub fn authorization(&self) -> (r: String)
        ensures
            r@ == "Bearer "@ + self.api_token@,
    {
        let mut out = "Bearer ".to_owned();
        out.push_str(self.api_token.as_str());
        out
    }
}

// ---- zones ----

/// The names that may be the zone of a domain: the domain itself and the names above
/// it, from the longest to the shortest, without the last label alone.
pub open spec fn zone_candidates(domain: Seq<char>) -> Seq<Seq<char>> {
    let labels = split(domain, '.');
    Seq::new((labels.len() - 1) as nat, |i: int| joined(labels.skip(i), seq!['.']))
}

/// The text at which the provider says which zone has a name.
pub open spec fn zone_url(name: Seq<char>) -> Seq<char> {
    "https://api.cloudflare.com/client/v4/zones?name="@ + name + "&status=active"@
}

/// The names that may be the zone of a domain.
pub fn candidates(domain: &str) -> (r: Vec<String>)
    ensures
        texts(r@) == zone_candidates(domain@),
{
    let labels = split_on(domain, '.');
    let mut out: Vec<String> = Vec::new();
    proof {
        lemma_split_not_empty(domain@, '.');
        reveal_strlit(".");
        assert("."@ =~= seq!['.']);
        assert(labels@.len() == texts(labels@).len());
    }
    let n: usize = labels.len() - 1;
    let mut i: usize = 0;
    while i < n
        invariant
            i <= n == labels@.len() - 1,
            texts(labels@) == split(domain@, '.'),
            "."@ == seq!['.'],
            out@.len() == i,
            forall|k: int| 0 <= k < i ==> out@[k]@ == joined(texts(labels@).skip(k), seq!['.']),
        decreases n - i,
    {
        let mut rest: Vec<String> = Vec::new();
        let mut k: usize = i;
        while k < labels.len()
            invariant
                i <= k <= labels@.len(),
                texts(rest@) == texts(labels@).subrange(i as int, k as int),
            decreases labels@.len() - k,
        {
            let ghost before = texts(rest@);
            rest.push(labels[k].clone());
            assert(texts(rest@) =~= before.push(labels@[k as int]@));
            assert(texts(labels@).subrange(i as int, k + 1) =~= before.push(labels@[k as int]@));
            k += 1;
        }
        assert(texts(labels@).subrange(i as int, k as int) =~= texts(labels@).skip(i as int));
        out.push(join(&rest, "."));
        i += 1;
    }
    assert(texts(out@) =~= zone_candidates(domain@));
    out
}

/// What the provider answers to the question which zone has a name.
#[derive(Debug)]
pub struct ZoneList {
    pub status: u16,
    pub success: bool,
    /// The messages of the errors.
    pub errors: Vec<String>,
    /// The IDs of the zones.
    pub zone_ids: Vec<String>,
}

/// The search for the zone of a domain: the names still to be asked for, and what
/// came out.
#[derive(Debug)]
pub struct ZoneSearch {
    domain: String,
    candidates: Vec<String>,
    asked: usize,
    found: Option<Result<String, DnsProviderError>>,
}

/// The outcome of a search, with its texts.
pub open spec fn zone_result(r: Result<String, DnsProviderError>) -> Result<
    Seq<char>,
    DnsProviderErrorView,
> {
    match r {
        Ok(id) => Ok(id@),
        Err(e) => Err(e@),
    }
}

/// What an answer settles: an error where the provider refused, the first zone
/// where there is one, and nothing where there is none.
pub open spec fn settled_by(answer: Result<ZoneList, String>) -> Option<
    Result<Seq<char>, DnsProviderErrorView>,
> {
    match answer {
        Err(m) => Some(Err(DnsProviderErrorView::Http(m@))),
        Ok(list) => if !list.success {
            Some(
                Err(
                    DnsProviderErrorView::Api {
                        status: list.status,
                        message: joined(texts(list.errors@), "; "@),
                    },
                ),
            )
        } else if list.zone_ids@.len() > 0 {
            Some(Ok(list.zone_ids@[0]@))
        } else {
            None
        },
    }
}

impl ZoneSearch {
    /// The domain whose zone is searched.
    pub closed spec fn domain(self) -> Seq<char> {
        self.domain@
    }

    /// How many names have been asked for.
    pub closed spec fn asked(self) -> nat {
        self.asked as nat
    }

    /// What was found.
    pub closed spec fn found(self) -> Option<Result<Seq<char>, DnsProviderErrorView>> {
        match self.found {
            Some(r) => Some(zone_result(r)),
            None => None,
        }
    }

    /// The names are those of the domain, and no more has been asked than they are.
    pub closed spec fn well_formed(self) -> bool {
        &&& texts(self.candidates@) == zone_candidates(self.domain@)
        &&& self.asked <= self.candidates@.len()
    }

    /// Whether the search has come to an end.
    pub open spec fn is_over(self) -> bool {
        self.found() is Some || self.asked() >= zone_candidates(self.domain()).len()
    }

    /// Starts the search for the zone of `domain`.
    pub fn new(domain: &str) -> (r: ZoneSearch)
        ensures
            r.well_formed(),
            r.domain() == domain@,
            r.asked() == 0,
            r.found() is None,
    {
        ZoneSearch { domain: domain.to_owned(), candidates: candidates(domain), asked: 0, found: None }
    }

    /// A search that is over before it begins, since the zone of `domain` is known.
    pub fn settled(domain: &str, zone_id: String) -> (r: ZoneSearch)
        ensures
            r.well_formed(),
            r.domain() == domain@,
            r.asked() == 0,
            r.found() == Some(Ok::<Seq<char>, DnsProviderErrorView>(zone_id@)),
    {
        ZoneSearch {
            domain: domain.to_owned(),
            candidates: candidates(domain),
            asked: 0,
            found: Some(Ok(zone_id)),
        }
    }

    /// The URL at which to ask next; nothing where the search is over. The names are
    /// asked for one after the other until an answer settles the matter.
    pub fn next_url(&self) -> (r: Option<String>)
        requires
            self.well_formed(),
        ensures
            opt_text(r) == if self.is_over() {
                None
            } else {
                Some(zone_url(zone_candidates(self.domain())[self.asked() as int]))
            },
    {
        assert(texts(self.candidates@).len() == self.candidates@.len());
        if self.found.is_some() || self.asked >= self.candidates.len() {
            return None;
        }
        let mut url = "https://api.cloudflare.com/client/v4/zones?name=".to_owned();
        url.push_str(self.candidates[self.asked].as_str());
        url.push_str("&status=active");
        assert(self.candidates@[self.asked as int]@ == texts(self.candidates@)[self.asked as int]);
        Some(url)
    }

    /// What came out of a search that is over; a domain none of whose names is a zone
    /// is reported.
    pub fn into_result(self) -> (r: Result<String, DnsProviderError>)
        requires
            self.well_formed(),
            self.is_over(),
        ensures
            zone_result(r) == match self.found() {
                Some(f) => f,
                None => Err::<Seq<char>, DnsProviderErrorView>(
                    DnsProviderErrorView::ZoneNotFound(self.domain()),
                ),
            },
    {
        match self.found {
            Some(r) => r,
            None => Err(DnsProviderError::ZoneNotFound(self.domain)),
        }
    }

    /// Takes the answer to the question for the current name; `Err` is the text of a
    /// request that did not get through. An answer after the end changes nothing.
    pub fn answer(&mut self, answer: Result<ZoneList, String>)
        requires
            old(self).well_formed(),
        ensures
            final(self).well_formed(),
            final(self).domain() == old(self).domain(),
            old(self).is_over() ==> *final(self) == *old(self),
            !old(self).is_over() ==> final(self).asked() == old(self).asked() + 1
                && final(self).found() == settled_by(answer),
    {
        assert(texts(self.candidates@).len() == self.candidates@.len());
        if self.found.is_some() || self.asked >= self.candidates.len() {
            return;
        }
        self.asked = self.asked + 1;
        match answer {
            Err(m) => {
                self.found = Some(Err(DnsProviderError::Http(m)));
            },
            Ok(list) => {
                if !list.success {
                    self.found = Some(
                        Err(
                            DnsProviderError::Api {
                                status: list.status,
                                message: join(&list.errors, "; "),
                            },
                        ),
                    );
                } else if list.zone_ids.len() > 0 {
                    self.found = Some(Ok(list.zone_ids[0].clone()));
                }
            },
        }
    }
}

// ---- records ----

/// The text at which records of a zone are made.
pub open spec fn records_url(zone_id: Seq<char>) -> Seq<char> {
    "https://api.cloudflare.com/client/v4/zones/"@ + zone_id + "/dns_records"@
}

/// The name of the record with which the authority checks a domain.
pub open spec fn challenge_name(domain: Seq<char>) -> Seq<char> {
    "_acme-challenge."@ + domain
}

/// The identifier under which a record is kept: the zone and the record in it.
pub open spec fn record_key(zone_id: Seq<char>, record_id: Seq<char>) -> Seq<char> {
    zone_id + "/"@ + record_id
}

/// A request to make a TXT record.
#[derive(Debug)]
pub struct RecordRequest {
    pub url: String,
    pub record_type: &'static str,
    pub name: String,
    pub content: String,
    pub ttl: u32,
}

/// The request that makes the TXT record for a challenge.
pub fn record_request(zone_id: &str, domain: &str, value: &str) -> (r: RecordRequest)
    ensures
        r.url@ == records_url(zone_id@),
        r.record_type@ == "TXT"@,
        r.name@ == challenge_name(domain@),
        r.content@ == value@,
        r.ttl == 120,
{
    let mut url = "https://api.cloudflare.com/client/v4/zones/".to_owned();
    url.push_str(zone_id);
    url.push_str("/dns_records");
    let mut name = "_acme-challenge.".to_owned();
    name.push_str(domain);
    RecordRequest { url, record_type: "TXT", name, content: value.to_owned(), ttl: 120 }
}

/// What the provider answers to a request to make a record.
#[derive(Debug)]
pub struct RecordReply {
    pub status: u16,
    pub success: bool,
    /// The messages of the errors.
    pub errors: Vec<String>,
    pub record_id: Option<String>,
}

/// The identifier of the record that was made, or why it was not.
pub open spec fn made_record(zone_id: Seq<char>, reply: RecordReply) -> Result<
    Seq<char>,
    DnsProviderErrorView,
> {
    if !reply.success {
        Err(
            DnsProviderErrorView::Api {
                status: reply.status,
                message: joined(texts(reply.errors@), "; "@),
            },
        )
    } else {
        match reply.record_id {
            None => Err(
                DnsProviderErrorView::Api {
                    status: reply.status,
                    message: "no record ID in response"@,
                },
            ),
            Some(id) => Ok(record_key(zone_id, id@)),
        }
    }
}

/// The identifier of the record that was made, which `deletion_url` takes.
pub fn record_created(zone_id: &str, reply: RecordReply) -> (r: Result<String, DnsProviderError>)
    ensures
        zone_result(r) == made_record(zone_id@, reply),
{
    if !reply.success {
        return Err(
            DnsProviderError::Api { status: reply.status, message: join(&reply.errors, "; ") },
        );
    }
    match reply.record_id {
        None => Err(
            DnsProviderError::Api {
                status: reply.status,
                message: "no record ID in response".to_owned(),
            },
        ),
        Some(id) => {
            let mut key = zone_id.to_owned();
            key.push_str("/");
            key.push_str(id.as_str());
            Ok(key)
        },
    }
}

/// The text at which a record is deleted.
pub open spec fn record_url(zone_id: Seq<char>, record_id: Seq<char>) -> Seq<char> {
    "https://api.cloudflare.com/client/v4/zones/"@ + zone_id + "/dns_records/"@ + record_id
}

/// Where the record with an identifier is deleted: the identifier is parted at its
/// first slash, and one without a slash is an error.
pub open spec fn deletion(key: Seq<char>) -> Result<Seq<char>, DnsProviderErrorView> {
    let i = find(key, '/');
    if i < key.len() {
        Ok(record_url(key.take(i), key.skip(i + 1)))
    } else {
        Err(DnsProviderErrorView::Config("invalid record_id format"@))
    }
}

/// Where the record with an identifier is deleted.
pub fn deletion_url(key: &str) -> (r: Result<String, DnsProviderError>)
    ensures
        zone_result(r) == deletion(key@),
{
    let v = chars_of(key);
    let i: usize = find_from(&v, 0, '/');
    proof {
        assert(v@.skip(0) =~= v@);
        lemma_find(v@, '/');
    }
    if i >= v.len() {
        return Err(DnsProviderError::Config("invalid record_id format".to_owned()));
    }
    let zone = text_of(&v, 0, i);
    let record = text_of(&v, i + 1, v.len());
    assert(zone@ =~= key@.take(i as int));
    assert(record@ =~= key@.skip(i + 1));
    let mut url = "https://api.cloudflare.com/client/v4/zones/".to_owned();
    url.push_str(zone.as_str());
    url.push_str("/dns_records/");
    url.push_str(record.as_str());
    Ok(url)
}

/// What the answer to a deletion says: an error for every status that is no success.
pub fn record_deleted(status: u16, errors: &Vec<String>) -> (r: Result<(), DnsProviderError>)
    ensures
        match r {
            Ok(()) => 200 <= status < 300,
            Err(e) => !(200 <= status < 300) && e@ == (DnsProviderErrorView::Api {
                status,
                message: joined(texts(errors@), "; "@),
            }),
        },
{
    if status >= 200 && status < 300 {
        Ok(())
    } else {
        Err(DnsProviderError::Api { status, message: join(errors, "; ") })
    }
}

/// A record that was made is deleted in the zone in which it was made, wherever the
/// zone's ID holds no slash.
pub proof fn law_created_record_is_deleted(zone_id: Seq<char>, record_id: Seq<char>)
    requires
        !zone_id.contains('/'),
    ensures
        deletion(record_key(zone_id, record_id)) == Ok::<Seq<char>, DnsProviderErrorView>(
            record_url(zone_id, record_id),
        ),
{
    reveal_strlit("/");
    let key = record_key(zone_id, record_id);
    assert forall|j: int| 0 <= j < zone_id.len() implies key[j] != '/' by {
        assert(zone_id.contains(zone_id[j]));
    }
    lemma_find_is(key, '/', zone_id.len() as int);
    assert(key.take(zone_id.len() as int) =~= zone_id);
    assert(key.skip(zone_id.len() as int + 1) =~= record_id);
}

// ---- the choice of a provider ----

/// Creates the provider that the configuration names; `found` is what the
/// environment holds for the variable that the token refers to.
pub fn dns_provider(
    provider_type: &str,
    api_token: String,
    zone_id: Option<String>,
    found: Option<String>,
) -> (r: Result<CloudflareDnsProvider, AcmeError>)
    ensures
        ({
            let token = expanded(api_token@, opt_text(found));
            match r {
                Ok(p) => provider_type@ == "cloudflare"@ && token.len() > 0 && p.api_token@ == token
                    && p.zone_id == zone_id,
                Err(e) => if provider_type@ == "cloudflare"@ {
                    token.len() == 0 && e@ == AcmeErrorView::DnsProvider(
                        DnsProviderErrorView::Config(
                            "api_token is empty (check environment variable)"@,
                        ),
                    )
                } else {
                    e@ == AcmeErrorView::Config(
                        "unsupported DNS provider type: '"@ + provider_type@
                            + "' (supported: cloudflare)"@,
                    )
                },
            }
        }),
{
    if !same(provider_type, "cloudflare") {
        let mut m = "unsupported DNS provider type: '".to_owned();
        m.push_str(provider_type);
        m.push_str("' (supported: cloudflare)");
        return Err(AcmeError::Config(m));
    }
    match CloudflareDnsProvider::new(api_token, zone_id, found) {
        Ok(p) => Ok(p),
        Err(e) => Err(AcmeError::DnsProvider(e)),
    }
}

/// A value of the form `${NAME}` refers to the variable with that name, whatever white space
/// stands around it.
pub proof fn law_references_name_a_variable(name: Seq<char>)
    ensures
        referenced_variable(seq!['$', '{'] + name + seq!['}']) == Some(name),
        referenced_variable(seq![' '] + (seq!['$', '{'] + name + seq!['}'])) == Some(name),
{
    let t = seq!['$', '{'] + name + seq!['}'];
    law_white_space_at_the_ends_goes(t, ' ');
    assert(t.subrange(2, t.len() - 1) =~= name);
}

/// A value that refers to no variable stands for itself, whatever the environment holds; one
/// that does stands for what the environment holds, and for nothing where that is nothing.
pub proof fn law_values_stand_for_themselves(value: Seq<char>, found: Option<Seq<char>>)
    ensures
        referenced_variable(value) is None ==> expanded(value, found) == value,
        referenced_variable(value) is Some ==> expanded(value, found) == match found {
            Some(content) => content,
            None => Seq::<char>::empty(),
        },
        value.len() > 0 && value[0] != '$' && !is_white_space(value[0]) && !is_white_space(
            value.last(),
        ) ==> referenced_variable(value) is None,
{
    law_white_space_at_the_ends_goes(value, ' ');
}

/// The zone of a domain is looked for under the domain itself first, then under what follows
/// its first label, and so on; the last label alone is no zone.
pub proof fn law_zones_are_looked_for_upwards(label: Seq<char>, rest: Seq<char>)
    requires
        !label.contains('.'),
    ensures
        zone_candidates(label).len() == 0,
        zone_candidates(label + seq!['.'] + rest) == seq![label + seq!['.'] + rest]
            + zone_candidates(rest),
{
    let domain = label + seq!['.'] + rest;
    law_text_is_parted_at_the_separator(label, '.', rest);
    law_parts_join_to_the_text(domain, '.');
    lemma_split_not_empty(rest, '.');
    let labels = split(domain, '.');
    let behind = split(rest, '.');
    assert(labels.skip(0) =~= labels);
    assert forall|i: int| 0 < i < labels.len() implies #[trigger] labels.skip(i) == behind.skip(
        i - 1,
    ) by {
        assert(labels.skip(i) =~= behind.skip(i - 1));
    }
    assert(zone_candidates(domain) =~= seq![domain] + zone_candidates(rest));
}

/// An answer settles the search exactly where the provider refused, the request did not get
/// through, or there is a zone, of which the first counts.
pub proof fn law_first_zone_settles_the_search(answer: Result<ZoneList, String>)
    ensures
        match answer {
            Err(m) => settled_by(answer) == Some(
                Err::<Seq<char>, DnsProviderErrorView>(DnsProviderErrorView::Http(m@)),
            ),
            Ok(list) => {
                &&& list.success && list.zone_ids@.len() > 0 ==> settled_by(answer) == Some(
                    Ok::<Seq<char>, DnsProviderErrorView>(list.zone_ids@[0]@),
                )
                &&& list.success && list.zone_ids@.len() == 0 ==> settled_by(answer) is None
                &&& !list.success ==> (settled_by(answer) matches Some(
                    Err(DnsProviderErrorView::Api { status, .. }),
                ) && status == list.status)
            },
        },
{
}

/// A record counts as made exactly where the provider says so and gives it an ID; it is then
/// known by its zone and that ID.
pub proof fn law_made_records_have_an_id(zone_id: Seq<char>, reply: RecordReply)
    ensures
        match made_record(zone_id, reply) {
            Ok(key) => reply.success && (reply.record_id matches Some(id) && key == zone_id + "/"@
                + id@),
            Err(DnsProviderErrorView::Api { status, .. }) => status == reply.status && !(
            reply.success && reply.record_id is Some),
            Err(_) => false,
        },
{
}

} // verus!
