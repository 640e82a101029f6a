//! The records of the database.

use crate::text::same;
use vstd::prelude::*;

verus! {

/// A filter list.
#[derive(Debug)]
pub struct FilterListRecord {
    pub id: String,
    pub name: String,
    pub kind: String,
    pub url: String,
    pub interval_seconds: i64,
    pub enabled: bool,
    pub list_type: String,
}

/// How upstream servers are chosen.
#[derive(Debug)]
pub struct ResolverConfigRecord {
    pub strategy: String,
    pub bootstrap_resolvers: String,
}

/// An upstream server.
#[derive(Debug)]
pub struct UpstreamServerRecord {
    pub id: String,
    pub enabled: bool,
    pub protocol: String,
    pub address: String,
    pub auth_token: Option<String>,
    pub auth_username: Option<String>,
    pub auth_password: Option<String>,
    pub max_hops: Option<i32>,
    pub nameserver_ip_family: Option<String>,
    pub root_hints_path: Option<String>,
    pub root_key_path: Option<String>,
    pub dnssec: bool,
    pub sort_order: i32,
    pub bind_address: Option<String>,
    pub fwmark: Option<u32>,
}

/// How queries are filtered.
#[derive(Debug)]
pub struct FilteringConfigRecord {
    pub sinkhole_ipv4: String,
    pub sinkhole_ipv6: String,
    pub any_query_policy: String,
}

/// A document of the filter cache.
#[derive(Debug)]
pub struct FilterCacheDocumentRecord {
    pub key: String,
    pub value: String,
}

/// A zone with its servers.
#[derive(Debug)]
pub struct ZoneRecord {
    pub id: String,
    pub zone: String,
    pub enabled: bool,
    pub bypass_filter: bool,
    pub fallback_to_default_resolvers: bool,
    pub strategy: Option<String>,
    pub servers: Vec<ZoneServerRecord>,
}

/// A server of a zone.
#[derive(Debug)]
pub struct ZoneServerRecord {
    pub id: String,
    pub zone_id: String,
    pub enabled: bool,
    pub protocol: String,
    pub address: String,
    pub auth_token: Option<String>,
    pub auth_username: Option<String>,
    pub auth_password: Option<String>,
    pub check_interval: Option<String>,
    pub max_hops: Option<i32>,
    pub nameserver_ip_family: Option<String>,
    pub root_hints_path: Option<String>,
    pub root_key_path: Option<String>,
    pub dnssec: bool,
    pub sort_order: i32,
}

/// A place where zones are discovered.
#[derive(Debug)]
pub struct ZoneDiscoveryRecord {
    pub id: String,
    pub enabled: bool,
    pub address: String,
    pub check_interval: Option<String>,
    pub allowed_types: Vec<String>,
    pub bypass_filter: bool,
    pub fallback_to_default_resolvers: bool,
    pub auth_token: Option<String>,
    pub auth_username: Option<String>,
    pub auth_password: Option<String>,
}

/// A type of zones that may be discovered at a place.
#[derive(Debug)]
pub struct AllowedType {
    pub zone_discovery_id: String,
    pub allowed_type: String,
}

/// The place of the first of `ids` that is `id`; the number of them where there is none.
pub open spec fn owner(ids: Seq<Seq<char>>, id: Seq<char>) -> int
    decreases ids.len(),
{
    if ids.len() == 0 || ids[0] == id {
        0
    } else {
        1 + owner(ids.skip(1), id)
    }
}

proof fn lemma_owner(ids: Seq<Seq<char>>, id: Seq<char>, n: int)
    requires
        0 <= n <= ids.len(),
        forall|j: int| 0 <= j < n ==> ids[j] != id,
        n < ids.len() ==> ids[n] == id,
    ensures
        owner(ids, id) == n,
    decreases ids.len(),
{
    if n > 0 {
        assert forall|j: int| 0 <= j < n - 1 implies ids.skip(1)[j] != id by {
            assert(ids.skip(1)[j] == ids[j + 1]);
        }
        lemma_owner(ids.skip(1), id, n - 1);
    }
}

/// The IDs of the zones.
pub open spec fn zone_ids(zones: Seq<ZoneRecord>) -> Seq<Seq<char>> {
    Seq::new(zones.len(), |i: int| zones[i].id@)
}

/// The servers whose zone is the one at `place`, in their order.
pub open spec fn servers_of(
    servers: Seq<ZoneServerRecord>,
    ids: Seq<Seq<char>>,
    place: int,
) -> Seq<ZoneServerRecord>
    decreases servers.len(),
{
    if servers.len() == 0 {
        seq![]
    } else {
        let before = servers_of(servers.drop_last(), ids, place);
        if owner(ids, servers.last().zone_id@) == place {
            before.push(servers.last())
        } else {
            before
        }
    }
}

/// Whether a zone is another one, with other servers.
pub open spec fn same_zone(a: ZoneRecord, b: ZoneRecord) -> bool {
    &&& a.id == b.id
    &&& a.zone == b.zone
    &&& a.enabled == b.enabled
    &&& a.bypass_filter == b.bypass_filter
    &&& a.fallback_to_default_resolvers == b.fallback_to_default_resolvers
    &&& a.strategy == b.strategy
}

fn find_zone(zones: &Vec<ZoneRecord>, id: &String) -> (r: usize)
    ensures
        r == owner(zone_ids(zones@), id@),
        r <= zones@.len(),
{
    let mut i: usize = 0;
    while i < zones.len()
        invariant
            i <= zones@.len(),
            forall|j: int| 0 <= j < i ==> zone_ids(zones@)[j] != id@,
        decreases zones@.len() - i,
    {
        if same(zones[i].id.as_str(), id.as_str()) {
            proof {
                lemma_owner(zone_ids(zones@), id@, i as int);
            }
            return i;
        }
        i += 1;
    }
    proof {
        lemma_owner(zone_ids(zones@), id@, i as int);
    }
    i
}

/// Whether the zones have got their servers.
pub open spec fn have_servers(
    zones: Seq<ZoneRecord>,
    servers: Seq<ZoneServerRecord>,
    r: Seq<ZoneRecord>,
) -> bool {
    r.len() == zones.len() && forall|i: int|
        0 <= i < r.len() ==> same_zone(#[trigger] r[i], zones[i]) && r[i].servers@
            == zones[i].servers@ + servers_of(servers, zone_ids(zones), i)
}

/// Gives each zone the servers that belong to it, behind those that it has. A server
/// belongs to the first zone with its zone ID; one without such a zone is left out.
pub fn attach_servers(zones: Vec<ZoneRecord>, servers: Vec<ZoneServerRecord>) -> (r: Vec<ZoneRecord>)
    ensures
        have_servers(zones@, servers@, r@),
        r@.len() == zones@.len(),
        forall|i: int|
            0 <= i < r@.len() ==> same_zone(#[trigger] r@[i], zones@[i]) && r@[i].servers@
                == zones@[i].servers@ + servers_of(servers@, zone_ids(zones@), i),
{
    let ghost given = zones@;
    let ghost all = servers@;
    let ghost ids = zone_ids(given);
    let mut zones = zones;
    let mut rest = servers;
    let ghost mut done: int = 0;
    assert(all.take(0) =~= seq![]);
    while rest.len() > 0
        invariant
            0 <= done <= all.len(),
            rest@ == all.skip(done),
            zones@.len() == given.len(),
            ids == zone_ids(given),
            zone_ids(zones@) == ids,
            forall|i: int|
                0 <= i < zones@.len() ==> same_zone(#[trigger] zones@[i], given[i])
                    && zones@[i].servers@ == given[i].servers@ + servers_of(
                    all.take(done),
                    ids,
                    i,
                ),
        decreases rest@.len(),
    {
        let server = rest.remove(0);
        let ghost before = zones@;
        proof {
            assert(server == all[done]);
            assert(rest@ =~= all.skip(done + 1));
            assert(all.take(done + 1).drop_last() =~= all.take(done));
            assert(all.take(done + 1).last() == server);
        }
        let place: usize = find_zone(&zones, &server.zone_id);
        if place < zones.len() {
            let zone = &mut zones[place];
            zone.servers.push(server);
        }
        proof {
            assert forall|i: int| 0 <= i < zones@.len() implies same_zone(
                #[trigger] zones@[i],
                given[i],
            ) && zones@[i].servers@ == given[i].servers@ + servers_of(all.take(done + 1), ids, i) by {
                assert(same_zone(before[i], given[i]));
                if i == place {
                    assert(zones@[i].servers@ =~= given[i].servers@ + servers_of(
                        all.take(done + 1),
                        ids,
                        i,
                    ));
                } else {
                    assert(zones@[i] == before[i]);
                }
            }
            assert(zone_ids(zones@) =~= ids);
            done = done + 1;
        }
    }
    assert(all.take(done) =~= all);
    zones
}

/// The IDs of the places of discovery.
pub open spec fn discovery_ids(records: Seq<ZoneDiscoveryRecord>) -> Seq<Seq<char>> {
    Seq::new(records.len(), |i: int| records[i].id@)
}

/// The types that may be discovered at the place number `place`, in their order.
pub open spec fn types_of(types: Seq<AllowedType>, ids: Seq<Seq<char>>, place: int) -> Seq<String>
    decreases types.len(),
{
    if types.len() == 0 {
        seq![]
    } else {
        let before = types_of(types.drop_last(), ids, place);
        if owner(ids, types.last().zone_discovery_id@) == place {
            before.push(types.last().allowed_type)
        } else {
            before
        }
    }
}

/// Whether a place of discovery is another one, with other types.
pub open spec fn same_discovery(a: ZoneDiscoveryRecord, b: ZoneDiscoveryRecord) -> bool {
    &&& a.id == b.id
    &&& a.enabled == b.enabled
    &&& a.address == b.address
    &&& a.check_interval == b.check_interval
    &&& a.bypass_filter == b.bypass_filter
    &&& a.fallback_to_default_resolvers == b.fallback_to_default_resolvers
    &&& a.auth_token == b.auth_token
    &&& a.auth_username == b.auth_username
    &&& a.auth_password == b.auth_password
}

fn find_discovery(records: &Vec<ZoneDiscoveryRecord>, id: &String) -> (r: usize)
    ensures
        r == owner(discovery_ids(records@), id@),
        r <= records@.len(),
{
    let mut i: usize = 0;
    while i < records.len()
        invariant
            i <= records@.len(),
            forall|j: int| 0 <= j < i ==> discovery_ids(records@)[j] != id@,
        decreases records@.len() - i,
    {
        if same(records[i].id.as_str(), id.as_str()) {
            proof {
                lemma_owner(discovery_ids(records@), id@, i as int);
            }
            return i;
        }
        i += 1;
    }
    proof {
        lemma_owner(discovery_ids(records@), id@, i as int);
    }
    i
}

/// Whether the places of discovery have got their types.
pub open spec fn have_types(
    records: Seq<ZoneDiscoveryRecord>,
    types: Seq<AllowedType>,
    r: Seq<ZoneDiscoveryRecord>,
) -> bool {
    r.len() == records.len() && forall|i: int|
        0 <= i < r.len() ==> same_discovery(#[trigger] r[i], records[i]) && r[i].allowed_types@
            == records[i].allowed_types@ + types_of(types, discovery_ids(records), i)
}

/// Gives each place of discovery the types that belong to it, behind those that it has.
/// A type belongs to the first place with its ID; one without such a place is left out.
pub fn attach_allowed_types(records: Vec<ZoneDiscoveryRecord>, types: Vec<AllowedType>) -> (r: Vec<
    ZoneDiscoveryRecord,
>)
    ensures
        have_types(records@, types@, r@),
        r@.len() == records@.len(),
        forall|i: int|
            0 <= i < r@.len() ==> same_discovery(#[trigger] r@[i], records@[i])
                && r@[i].allowed_types@ == records@[i].allowed_types@ + types_of(
                types@,
                discovery_ids(records@),
                i,
            ),
{
    let ghost given = records@;
    let ghost all = types@;
    let ghost ids = discovery_ids(given);
    let mut records = records;
    let mut rest = types;
    let ghost mut done: int = 0;
    assert(all.take(0) =~= seq![]);
    while rest.len() > 0
        invariant
            0 <= done <= all.len(),
            rest@ == all.skip(done),
            records@.len() == given.len(),
            ids == discovery_ids(given),
            discovery_ids(records@) == ids,
            forall|i: int|
                0 <= i < records@.len() ==> same_discovery(#[trigger] records@[i], given[i])
                    && records@[i].allowed_types@ == given[i].allowed_types@ + types_of(
                    all.take(done),
                    ids,
                    i,
                ),
        decreases rest@.len(),
    {
        let row = rest.remove(0);
        let ghost before = records@;
        proof {
            assert(row == all[done]);
            assert(rest@ =~= all.skip(done + 1));
            assert(all.take(done + 1).drop_last() =~= all.take(done));
            assert(all.take(done + 1).last() == row);
        }
        let place: usize = find_discovery(&records, &row.zone_discovery_id);
        if place < records.len() {
            let record = &mut records[place];
            record.allowed_types.push(row.allowed_type);
        }
        proof {
            assert forall|i: int| 0 <= i < records@.len() implies same_discovery(
                #[trigger] records@[i],
                given[i],
            ) && records@[i].allowed_types@ == given[i].allowed_types@ + types_of(
                all.take(done + 1),
                ids,
                i,
            ) by {
                assert(same_discovery(before[i], given[i]));
                if i == place {
                    assert(records@[i].allowed_types@ =~= given[i].allowed_types@ + types_of(
                        all.take(done + 1),
                        ids,
                        i,
                    ));
                } else {
                    assert(records@[i] == before[i]);
                }
            }
            assert(discovery_ids(records@) =~= ids);
            done = done + 1;
        }
    }
    assert(all.take(done) =~= all);
    records
}

/// A server is attached to a zone exactly where that zone is the first with its ID.
pub proof fn law_servers_go_to_their_zone(
    servers: Seq<ZoneServerRecord>,
    ids: Seq<Seq<char>>,
    place: int,
    s: ZoneServerRecord,
)
    ensures
        servers_of(servers, ids, place).contains(s) <==> servers.contains(s) && owner(
            ids,
            s.zone_id@,
        ) == place,
    decreases servers.len(),
{
    if servers.len() > 0 {
        let init = servers.drop_last();
        let before = servers_of(init, ids, place);
        let all = servers_of(servers, ids, place);
        law_servers_go_to_their_zone(init, ids, place, s);
        if all.contains(s) {
            let k = choose|k: int| 0 <= k < all.len() && all[k] == s;
            if k < before.len() {
                assert(before[k] == s);
                let j = choose|j: int| 0 <= j < init.len() && init[j] == s;
                assert(servers[j] == s);
            } else {
                assert(servers[servers.len() - 1] == s);
            }
        }
        if servers.contains(s) && owner(ids, s.zone_id@) == place {
            let j = choose|j: int| 0 <= j < servers.len() && servers[j] == s;
            if j < init.len() {
                assert(init[j] == s);
                let k = choose|k: int| 0 <= k < before.len() && before[k] == s;
                assert(all[k] == s);
            } else {
                assert(all[before.len() as int] == s);
            }
        }
    }
}

/// An ID belongs to the first that has it.
pub proof fn law_first_with_the_id_owns(ids: Seq<Seq<char>>, id: Seq<char>)
    ensures
        0 <= owner(ids, id) <= ids.len(),
        owner(ids, id) < ids.len() ==> ids[owner(ids, id)] == id,
        forall|j: int| 0 <= j < owner(ids, id) ==> ids[j] != id,
        owner(ids, id) == ids.len() ==> !ids.contains(id),
    decreases ids.len(),
{
    if ids.len() > 0 && ids[0] != id {
        let rest = ids.skip(1);
        law_first_with_the_id_owns(rest, id);
        assert forall|j: int| 0 <= j < owner(ids, id) implies ids[j] != id by {
            if j > 0 {
                assert(rest[j - 1] == ids[j]);
            }
        }
        if owner(ids, id) < ids.len() {
            assert(rest[owner(rest, id)] == ids[owner(ids, id)]);
        }
    }
}

/// Zones keep what they were and the servers that they had, in front of all others; a server
/// of theirs is among those of the first zone with its ID, and of no other zone.
pub proof fn law_zones_get_their_servers(
    zones: Seq<ZoneRecord>,
    servers: Seq<ZoneServerRecord>,
    r: Seq<ZoneRecord>,
    i: int,
    k: int,
)
    requires
        have_servers(zones, servers, r),
        0 <= i < zones.len(),
        0 <= k < servers.len(),
    ensures
        r.len() == zones.len(),
        r[i].id@ == zones[i].id@ && r[i].zone@ == zones[i].zone@,
        r[i].enabled == zones[i].enabled && r[i].bypass_filter == zones[i].bypass_filter,
        r[i].fallback_to_default_resolvers == zones[i].fallback_to_default_resolvers,
        r[i].strategy == zones[i].strategy,
        zones[i].servers@.is_prefix_of(r[i].servers@),
        servers[k].zone_id@ == zones[i].id@ && (forall|j: int|
            0 <= j < i ==> (#[trigger] zones[j]).id@ != zones[i].id@) ==> r[i].servers@.contains(
            servers[k],
        ),
        r[i].servers@.contains(servers[k]) && !zones[i].servers@.contains(servers[k])
            ==> servers[k].zone_id@ == zones[i].id@,
{
    let ids = zone_ids(zones);
    let own = servers_of(servers, ids, i);
    let s = servers[k];
    assert(same_zone(r[i], zones[i]));
    let had = zones[i].servers@;
    assert((had + own).subrange(0, had.len() as int) =~= had);
    law_servers_go_to_their_zone(servers, ids, i, s);
    law_first_with_the_id_owns(ids, s.zone_id@);
    if s.zone_id@ == zones[i].id@ && (forall|j: int|
        0 <= j < i ==> (#[trigger] zones[j]).id@ != zones[i].id@) {
        assert forall|j: int| 0 <= j < i implies ids[j] != s.zone_id@ by {
            assert(ids[j] == zones[j].id@);
        }
        lemma_owner(ids, s.zone_id@, i);
        let n = choose|n: int| 0 <= n < own.len() && own[n] == s;
        assert((had + own)[had.len() + n] == s);
    }
    if r[i].servers@.contains(s) && !had.contains(s) {
        let n = choose|n: int| 0 <= n < r[i].servers@.len() && r[i].servers@[n] == s;
        if n < had.len() {
            assert(had[n] == s);
        } else {
            assert(own[n - had.len()] == s);
        }
    }
}

/// Servers and types stay in the order in which they come.
pub proof fn law_attached_records_stay_in_order(
    a: Seq<ZoneServerRecord>,
    b: Seq<ZoneServerRecord>,
    c: Seq<AllowedType>,
    d: Seq<AllowedType>,
    ids: Seq<Seq<char>>,
    place: int,
)
    ensures
        servers_of(a + b, ids, place) == servers_of(a, ids, place) + servers_of(b, ids, place),
        types_of(c + d, ids, place) == types_of(c, ids, place) + types_of(d, ids, place),
    decreases b.len() + d.len(),
{
    if b.len() > 0 {
        assert((a + b).drop_last() =~= a + b.drop_last());
        law_attached_records_stay_in_order(a, b.drop_last(), c, d, ids, place);
        assert(servers_of(a + b, ids, place) =~= servers_of(a, ids, place) + servers_of(
            b,
            ids,
            place,
        ));
    } else {
        assert(a + b =~= a);
        assert(servers_of(a + b, ids, place) =~= servers_of(a, ids, place) + servers_of(
            b,
            ids,
            place,
        ));
        if d.len() > 0 {
            law_attached_records_stay_in_order(a, b, c, d.drop_last(), ids, place);
        }
    }
    if d.len() > 0 {
        if b.len() > 0 {
            law_attached_records_stay_in_order(a, b, c, d.drop_last(), ids, place);
        }
        assert((c + d).drop_last() =~= c + d.drop_last());
    } else {
        assert(c + d =~= c);
    }
    assert(types_of(c + d, ids, place) =~= types_of(c, ids, place) + types_of(d, ids, place));
}

/// Places of discovery keep what they were and the types that they had, in front of all others;
/// a type is added to the first place with its ID, and to no other.
pub proof fn law_places_get_their_types(
    records: Seq<ZoneDiscoveryRecord>,
    t: AllowedType,
    r: Seq<ZoneDiscoveryRecord>,
    i: int,
)
    requires
        have_types(records, seq![t], r),
        0 <= i < records.len(),
    ensures
        r.len() == records.len(),
        r[i].id@ == records[i].id@ && r[i].address@ == records[i].address@,
        r[i].enabled == records[i].enabled && r[i].check_interval == records[i].check_interval,
        r[i].bypass_filter == records[i].bypass_filter,
        r[i].fallback_to_default_resolvers == records[i].fallback_to_default_resolvers,
        r[i].auth_token == records[i].auth_token,
        r[i].auth_username == records[i].auth_username,
        r[i].auth_password == records[i].auth_password,
        r[i].allowed_types@ == if owner(discovery_ids(records), t.zone_discovery_id@) == i {
            records[i].allowed_types@.push(t.allowed_type)
        } else {
            records[i].allowed_types@
        },
{
    let ids = discovery_ids(records);
    assert(same_discovery(r[i], records[i]));
    assert(seq![t].drop_last() =~= Seq::<AllowedType>::empty());
    assert(seq![t].last() == t);
    reveal_with_fuel(types_of, 2);
    assert(r[i].allowed_types@ =~= if owner(ids, t.zone_discovery_id@) == i {
        records[i].allowed_types@.push(t.allowed_type)
    } else {
        records[i].allowed_types@
    });
}

} // verus!
