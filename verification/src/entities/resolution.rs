//! How upstream servers are chosen.

use crate::text::same;
use vstd::prelude::*;

verus! {

/// How one of several upstream servers is chosen.
#[derive(Clone, Copy, Debug, PartialEq, Eq, Structural)]
pub enum UpstreamStrategy {
    /// Each in its turn.
    RoundRobin,
    /// Any of them.
    Random,
    /// The first one that answers.
    Failover,
}

/// The strategy with a name.
pub open spec fn strategy_named(value: Seq<char>) -> Option<UpstreamStrategy> {
    if value == "random"@ {
        Some(UpstreamStrategy::Random)
    } else if value == "failover"@ {
        Some(UpstreamStrategy::Failover)
    } else if value == "round_robin"@ {
        Some(UpstreamStrategy::RoundRobin)
    } else {
        None
    }
}

impl UpstreamStrategy {
    /// The strategy with a name.
    pub fn parse(value: &str) -> (r: Option<UpstreamStrategy>)
        ensures
            r == strategy_named(value@),
    {
        if same(value, "random") {
            Some(UpstreamStrategy::Random)
        } else if same(value, "failover") {
            Some(UpstreamStrategy::Failover)
        } else if same(value, "round_robin") {
            Some(UpstreamStrategy::RoundRobin)
        } else {
            None
        }
    }

    /// The name of the strategy.
    pub open spec fn shown(self) -> Seq<char> {
        match self {
            UpstreamStrategy::Random => "random"@,
            UpstreamStrategy::Failover => "failover"@,
            UpstreamStrategy::RoundRobin => "round_robin"@,
        }
    }
}

impl std::str::FromStr for UpstreamStrategy {
    type Err = ();

    fn from_str(value: &str) -> (r: Result<UpstreamStrategy, ()>)
        ensures
            r == match strategy_named(value@) {
                Some(s) => Ok(s),
                None => Err(()),
            },
    {
        match UpstreamStrategy::parse(value) {
            Some(s) => Ok(s),
            None => Err(()),
        }
    }
}

/// Every strategy has a name of its own, by which it is found.
pub proof fn law_strategies_are_found_by_name(s: UpstreamStrategy)
    ensures
        strategy_named(s.shown()) == Some(s),
{
    reveal_strlit("random");
    reveal_strlit("failover");
    reveal_strlit("round_robin");
    assert("failover"@[0] != "random"@[0]);
    assert("round_robin"@[1] != "random"@[1]);
    assert("round_robin"@[0] != "failover"@[0]);
}

/// The strategies are configured by these names, and by no others.
pub proof fn law_strategies_have_their_names(value: Seq<char>)
    ensures
        strategy_named(value) == Some(UpstreamStrategy::Random) <==> value == "random"@,
        strategy_named(value) == Some(UpstreamStrategy::Failover) <==> value == "failover"@,
        strategy_named(value) == Some(UpstreamStrategy::RoundRobin) <==> value == "round_robin"@,
        strategy_named(value) is None <==> value != "random"@ && value != "failover"@ && value
            != "round_robin"@,
{
    law_strategies_are_found_by_name(UpstreamStrategy::Random);
    law_strategies_are_found_by_name(UpstreamStrategy::Failover);
    law_strategies_are_found_by_name(UpstreamStrategy::RoundRobin);
}

} // verus!
