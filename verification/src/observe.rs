//! Which properties the event client observes, under which ids.
use vstd::prelude::*;
use indexmap::IndexMap;
use crate::error::{nul_error, Error, ErrorView};
use crate::format::MpvFormat;
use crate::maps::{format_at, format_count, format_entries};
use crate::options::{failure_view, nul_error_of};
use crate::text::{find_zero_byte, has_zero_byte};

verus! {

/// The observations made for a sequence of property entries, numbered from
/// `first_id` on, and the error that stops them, if one does: a zero byte in
/// a property name stops the sequence there.
pub open spec fn observe_plan(entries: Seq<(Seq<char>, MpvFormat)>, first_id: int) -> (
    Seq<(int, Seq<char>, MpvFormat)>,
    Option<ErrorView>,
)
    decreases entries.len(),
{
    if entries.len() == 0 {
        (seq![], None)
    } else if has_zero_byte(entries[0].0) {
        (seq![], Some(nul_error_of(entries[0].0)))
    } else {
        let rest = observe_plan(entries.drop_first(), first_id + 1);
        (seq![(first_id, entries[0].0, entries[0].1)] + rest.0, rest.1)
    }
}

/// The properties to observe, in order, each with its reply id, and the
/// error met after them, if any.
pub struct ObservePlan {
    pub observations: Vec<(u64, String, MpvFormat)>,
    pub failure: Option<Error>,
}

/// The view of a list of observations.
pub open spec fn observations_view(s: Seq<(u64, String, MpvFormat)>) -> Seq<(int, Seq<char>, MpvFormat)> {
    s.map_values(|o: (u64, String, MpvFormat)| (o.0 as int, o.1@, o.2))
}

/// Plans the `mpv_observe_property` calls for a map of properties: the
/// properties in the map's order, numbered from 1, and the error that ends
/// them.
pub fn plan_observations(properties: &IndexMap<String, MpvFormat>) -> (p: ObservePlan)
    ensures
        (observations_view(p.observations@), failure_view(p.failure)) == observe_plan(
            format_entries(*properties),
            1,
        ),
{
    let ghost entries = format_entries(*properties);
    let n = format_count(properties);
    let mut observations: Vec<(u64, String, MpvFormat)> = Vec::new();
    let mut i: usize = 0;
    assert(entries.skip(0) =~= entries);
    while i < n
        invariant
            entries == format_entries(*properties),
            n == entries.len(),
            i <= n,
            observe_plan(entries, 1) == (
                observations_view(observations@) + observe_plan(entries.skip(i as int), i + 1).0,
                observe_plan(entries.skip(i as int), i + 1).1,
            ),
        decreases n - i,
    {
        let (name, format) = match format_at(properties, i) {
            Some(p) => p,
            None => { return ObservePlan { observations, failure: None } },
        };
        let ghost tail = entries.skip(i as int);
        proof {
            assert(tail[0] == entries[i as int]);
            assert(tail.drop_first() =~= entries.skip(i + 1));
        }
        match find_zero_byte(name.as_str()) {
            Some(pos) => {
                let failure = nul_error(pos);
                proof {
                    assert(observations_view(observations@) + seq![] =~= observations_view(
                        observations@,
                    ));
                }
                return ObservePlan { observations, failure: Some(failure) };
            },
            None => {},
        }
        let id: u64 = (i as u64) + 1;
        let ghost before = observations@;
        observations.push((id, name.clone(), *format));
        proof {
            let rest = observe_plan(entries.skip(i + 1), i + 2);
            assert(observations_view(observations@) =~= observations_view(before) + seq![
                (id as int, name@, *format),
            ]);
            assert(observations_view(before) + (seq![(id as int, name@, *format)] + rest.0)
                =~= observations_view(observations@) + rest.0);
        }
        i += 1;
    }
    proof {
        assert(entries.skip(n as int).len() == 0);
        assert(observations_view(observations@) + seq![] =~= observations_view(observations@));
    }
    ObservePlan { observations, failure: None }
}

/// The observations of a plan carry the ids `first_id`, `first_id + 1`, ...
/// in order, each with the name and format of the entry at that position.
pub proof fn lemma_observe_plan_ids(entries: Seq<(Seq<char>, MpvFormat)>, first_id: int)
    ensures
        observe_plan(entries, first_id).0.len() <= entries.len(),
        forall|k: int|
            0 <= k < observe_plan(entries, first_id).0.len() ==> {
                let o = #[trigger] observe_plan(entries, first_id).0[k];
                &&& o.0 == first_id + k
                &&& o.1 == entries[k].0
                &&& o.2 == entries[k].1
            },
    decreases entries.len(),
{
    if entries.len() > 0 && !has_zero_byte(entries[0].0) {
        lemma_observe_plan_ids(entries.drop_first(), first_id + 1);
        let rest = observe_plan(entries.drop_first(), first_id + 1);
        let plan = observe_plan(entries, first_id);
        assert forall|k: int| 0 <= k < plan.0.len() implies {
            let o = #[trigger] plan.0[k];
            &&& o.0 == first_id + k
            &&& o.1 == entries[k].0
            &&& o.2 == entries[k].1
        } by {
            if k > 0 {
                assert(plan.0[k] == rest.0[k - 1]);
                assert(entries.drop_first()[k - 1] == entries[k]);
            }
        }
    }
}

/// Observed properties are numbered 1, 2, 3, ... in the order of the map,
/// so every observation has its own id, and each carries the name and format
/// given at its position.
pub proof fn law_observation_ids(entries: Seq<(Seq<char>, MpvFormat)>)
    ensures
        forall|k: int|
            0 <= k < observe_plan(entries, 1).0.len() ==> (#[trigger] observe_plan(entries, 1).0[k]).0
                == k + 1,
        forall|j: int, k: int|
            0 <= j < k < observe_plan(entries, 1).0.len() ==> observe_plan(entries, 1).0[j].0
                != observe_plan(entries, 1).0[k].0,
        forall|k: int|
            0 <= k < observe_plan(entries, 1).0.len() ==> (#[trigger] observe_plan(entries, 1).0[k]).1
                == entries[k].0,
{
    lemma_observe_plan_ids(entries, 1);
}

/// Every property is observed: the observations stop short of the end of
/// the map only where a refusal is reported, and then exactly at the first
/// entry whose name holds a zero byte; with no such name, every entry is
/// observed and nothing is refused.
pub proof fn law_every_property_observed(entries: Seq<(Seq<char>, MpvFormat)>, first_id: int)
    ensures
        observe_plan(entries, first_id).1 is None ==> observe_plan(entries, first_id).0.len()
            == entries.len(),
        observe_plan(entries, first_id).1 is Some ==> {
            let k = observe_plan(entries, first_id).0.len() as int;
            &&& k < entries.len()
            &&& has_zero_byte(entries[k].0)
            &&& forall|j: int| 0 <= j < k ==> !has_zero_byte(#[trigger] entries[j].0)
        },
        (forall|j: int| 0 <= j < entries.len() ==> !has_zero_byte(#[trigger] entries[j].0))
            ==> observe_plan(entries, first_id).1 is None,
    decreases entries.len(),
{
    if entries.len() > 0 && !has_zero_byte(entries[0].0) {
        let rest = entries.drop_first();
        law_every_property_observed(rest, first_id + 1);
        let plan = observe_plan(entries, first_id);
        let rest_plan = observe_plan(rest, first_id + 1);
        assert(plan.0.len() == rest_plan.0.len() + 1);
        if plan.1 is Some {
            let k = rest_plan.0.len() as int;
            assert(entries[k + 1] == rest[k]);
            assert forall|j: int| 0 <= j < k + 1 implies !has_zero_byte(#[trigger] entries[j].0) by {
                if j > 0 {
                    assert(entries[j] == rest[j - 1]);
                }
            }
        }
        if forall|j: int| 0 <= j < entries.len() ==> !has_zero_byte(#[trigger] entries[j].0) {
            assert forall|j: int| 0 <= j < rest.len() implies !has_zero_byte(#[trigger] rest[j].0) by {
                assert(rest[j] == entries[j + 1]);
            }
        }
    }
}

} // verus!
