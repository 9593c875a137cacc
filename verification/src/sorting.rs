//! The orders in which records are shown.

use vstd::prelude::*;

use crate::order::{
    in_order, insert_ranked, ranked, ranked_is_in_order, text_not_after, Ranked,
};
use crate::reports::OverviewModel;
use crate::models::AgentRole;
use crate::snapshot::snapshot_is_the_state_in_order;
use crate::state::World;
use crate::time::Timestamp;

verus! {

/// The first text comes before the second: it is its beginning, or at the first place where
/// they differ its character is the smaller one.
pub open spec fn comes_first(a: Seq<char>, b: Seq<char>) -> bool {
    ||| a.len() <= b.len() && b.take(a.len() as int) == a
    ||| exists|k: int|
        0 <= k < a.len() && k < b.len() && a.take(k) == b.take(k) && #[trigger] a[k] < b[k]
}

/// Texts are ordered character by character.
pub proof fn texts_are_ordered_by_characters(a: Seq<char>, b: Seq<char>)
    ensures
        text_not_after(a, b) <==> comes_first(a, b),
    decreases a.len(),
{
    if a.len() == 0 {
        assert(b.take(0) =~= a);
    } else if b.len() == 0 {
    } else if a[0] != b[0] {
        if a[0] < b[0] {
            assert(a.take(0) =~= b.take(0));
        } else {
            if a.len() <= b.len() && b.take(a.len() as int) == a {
                assert(b.take(a.len() as int)[0] == b[0]);
            }
            assert forall|k: int|
                0 <= k < a.len() && k < b.len() && a.take(k) == b.take(k) implies !(
            #[trigger] a[k] < b[k]) by {
                if k > 0 {
                    assert(a.take(k)[0] == a[0]);
                    assert(b.take(k)[0] == b[0]);
                }
            }
        }
    } else {
        let x = a.skip(1);
        let y = b.skip(1);
        texts_are_ordered_by_characters(x, y);
        if comes_first(x, y) {
            if x.len() <= y.len() && y.take(x.len() as int) == x {
                assert forall|i: int| 0 <= i < a.len() implies #[trigger] b.take(
                    a.len() as int,
                )[i] == a[i] by {
                    if i > 0 {
                        assert(y.take(x.len() as int)[i - 1] == x[i - 1]);
                    }
                }
                assert(b.take(a.len() as int) =~= a);
            } else {
                let k = choose|k: int|
                    0 <= k < x.len() && k < y.len() && x.take(k) == y.take(k) && #[trigger] x[k]
                        < y[k];
                assert forall|i: int| 0 <= i < k + 1 implies #[trigger] a.take(k + 1)[i]
                    == b.take(k + 1)[i] by {
                    if i > 0 {
                        assert(x.take(k)[i - 1] == y.take(k)[i - 1]);
                    }
                }
                assert(a.take(k + 1) =~= b.take(k + 1));
                assert(a[k + 1] < b[k + 1]);
            }
        }
        if comes_first(a, b) {
            if a.len() <= b.len() && b.take(a.len() as int) == a {
                assert forall|i: int| 0 <= i < x.len() implies #[trigger] y.take(
                    x.len() as int,
                )[i] == x[i] by {
                    assert(b.take(a.len() as int)[i + 1] == a[i + 1]);
                }
                assert(y.take(x.len() as int) =~= x);
            } else {
                let k = choose|k: int|
                    0 <= k < a.len() && k < b.len() && a.take(k) == b.take(k) && #[trigger] a[k]
                        < b[k];
                assert(k > 0);
                assert forall|i: int| 0 <= i < k - 1 implies #[trigger] x.take(k - 1)[i]
                    == y.take(k - 1)[i] by {
                    assert(a.take(k)[i + 1] == b.take(k)[i + 1]);
                }
                assert(x.take(k - 1) =~= y.take(k - 1));
                assert(x[k - 1] < y[k - 1]);
            }
        }
    }
}

/// In a snapshot agents come by their names, tasks and decisions by the time when they were
/// made, and sessions by the time when they began; and the newest lines and entries are as
/// they were kept.
pub proof fn snapshot_goes_by_names_and_times(w: World, now: Timestamp)
    ensures
        ({
            let s = w.snapshot(now);
            &&& forall|i: int, j: int|
                0 <= i < j < s.agents.len() ==> comes_first(
                    (#[trigger] s.agents[i]).name,
                    (#[trigger] s.agents[j]).name,
                )
            &&& forall|i: int, j: int|
                0 <= i < j < s.tasks.len() ==> !(#[trigger] s.tasks[j]).created_at.before(
                    (#[trigger] s.tasks[i]).created_at,
                )
            &&& forall|i: int, j: int|
                0 <= i < j < s.decisions.len() ==> !(#[trigger] s.decisions[j]).created_at.before(
                    (#[trigger] s.decisions[i]).created_at,
                )
            &&& forall|i: int, j: int|
                0 <= i < j < s.sessions.len() ==> !(#[trigger] s.sessions[j]).started_at.before(
                    (#[trigger] s.sessions[i]).started_at,
                )
            &&& s.recent_streams == w.recent_streams
            &&& s.recent_runtime_events == w.recent_runtime_events
            &&& s.generated_at == now
        }),
{
    snapshot_is_the_state_in_order(w, now);
    let s = w.snapshot(now);
    assert forall|i: int, j: int| 0 <= i < j < s.agents.len() implies comes_first(
        (#[trigger] s.agents[i]).name,
        (#[trigger] s.agents[j]).name,
    ) by {
        assert(s.agents[i].not_after(s.agents[j]));
        texts_are_ordered_by_characters(s.agents[i].name, s.agents[j].name);
    }
    assert forall|i: int, j: int| 0 <= i < j < s.tasks.len() implies !(
    #[trigger] s.tasks[j]).created_at.before((#[trigger] s.tasks[i]).created_at) by {
        assert(s.tasks[i].not_after(s.tasks[j]));
    }
    assert forall|i: int, j: int| 0 <= i < j < s.decisions.len() implies !(
    #[trigger] s.decisions[j]).created_at.before((#[trigger] s.decisions[i]).created_at) by {
        assert(s.decisions[i].not_after(s.decisions[j]));
    }
    assert forall|i: int, j: int| 0 <= i < j < s.sessions.len() implies !(
    #[trigger] s.sessions[j]).started_at.before((#[trigger] s.sessions[i]).started_at) by {
        assert(s.sessions[i].not_after(s.sessions[j]));
    }
}

/// In the overview main agents come before children, and each of the two by their names.
pub proof fn overview_goes_by_roles_and_names(agents: Seq<OverviewModel>)
    ensures
        ({
            let s = ranked(agents);
            &&& s.to_multiset() == agents.to_multiset()
            &&& forall|i: int, j: int|
                0 <= i < j < s.len() ==> ((#[trigger] s[j]).agent.role == AgentRole::Main ==> (
                #[trigger] s[i]).agent.role == AgentRole::Main) && (s[i].agent.role
                    == s[j].agent.role ==> comes_first(s[i].agent.name, s[j].agent.name))
        }),
{
    ranked_is_in_order(agents);
    let s = ranked(agents);
    assert forall|i: int, j: int| 0 <= i < j < s.len() implies ((#[trigger] s[j]).agent.role
        == AgentRole::Main ==> (#[trigger] s[i]).agent.role == AgentRole::Main) && (s[i].agent.role
        == s[j].agent.role ==> comes_first(s[i].agent.name, s[j].agent.name)) by {
        assert(s[i].not_after(s[j]));
        texts_are_ordered_by_characters(s[i].agent.name, s[j].agent.name);
    }
}

/// A record is put behind all that do not come after it, those of its own rank among them:
/// records of one rank stay as they came.
pub proof fn equal_records_stay_as_they_came<R: Ranked>(s: Seq<R>, r: R) -> (k: int)
    requires
        in_order(s),
    ensures
        0 <= k <= s.len(),
        insert_ranked(s, r) == s.take(k).push(r) + s.skip(k),
        k > 0 ==> s[k - 1].not_after(r),
        forall|i: int| k <= i < s.len() ==> !(#[trigger] s[i]).not_after(r),
    decreases s.len(),
{
    if s.len() == 0 || s.last().not_after(r) {
        let k = s.len() as int;
        assert(insert_ranked(s, r) =~= s.take(k).push(r) + s.skip(k));
        k
    } else {
        let head = s.drop_last();
        assert(in_order(head)) by {
            assert forall|i: int, j: int| 0 <= i < j < head.len() implies (
            #[trigger] head[i]).not_after(#[trigger] head[j]) by {
                assert(s[i].not_after(s[j]));
            }
        }
        let k = equal_records_stay_as_they_came(head, r);
        assert(head.take(k) =~= s.take(k));
        assert(head.skip(k).push(s.last()) =~= s.skip(k));
        assert(insert_ranked(s, r) =~= s.take(k).push(r) + s.skip(k));
        assert forall|i: int| k <= i < s.len() implies !(#[trigger] s[i]).not_after(r) by {
            if i < head.len() {
                assert(head[i] == s[i]);
            }
        }
        if k > 0 {
            assert(head[k - 1] == s[k - 1]);
        }
        k
    }
}

} // verus!
