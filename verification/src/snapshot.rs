//! Snapshots of the whole state for dashboards.

use vstd::prelude::*;

use crate::models::{DashboardSnapshot, SnapshotModel};
use crate::order::{in_order, rank_all, ranked, ranked_is_in_order};
use crate::state::{RuntimeState, World};
use crate::table::{dup_all, views};
use crate::time::{utc_now, Timestamp};

verus! {

impl RuntimeState {
    /// The state in order: agents by name, the rest by time.
    pub open spec fn snapshot_model(self, now: Timestamp) -> SnapshotModel {
        SnapshotModel {
            agents: ranked(self.agents@),
            tasks: ranked(self.tasks@),
            decisions: ranked(self.decisions@),
            sessions: ranked(self.sessions@),
            recent_streams: views(self.recent_streams@),
            recent_runtime_events: views(self.recent_runtime_events@),
            generated_at: now,
        }
    }

    pub fn snapshot_at(&self, now: Timestamp) -> (r: DashboardSnapshot)
        ensures
            r@ == self.snapshot_model(now),
    {
        DashboardSnapshot {
            agents: rank_all(&self.agents.rows),
            tasks: rank_all(&self.tasks.rows),
            decisions: rank_all(&self.decisions.rows),
            sessions: rank_all(&self.sessions.rows),
            recent_streams: dup_all(&self.recent_streams),
            recent_runtime_events: dup_all(&self.recent_runtime_events),
            generated_at: now,
        }
    }

    /// The snapshot of this moment.
    pub fn snapshot(&self) -> (r: DashboardSnapshot)
        ensures
            r@ == self.snapshot_model(r@.generated_at),
    {
        self.snapshot_at(utc_now())
    }
}

impl World {
    pub open spec fn snapshot(self, now: Timestamp) -> SnapshotModel {
        SnapshotModel {
            agents: ranked(self.agents),
            tasks: ranked(self.tasks),
            decisions: ranked(self.decisions),
            sessions: ranked(self.sessions),
            recent_streams: self.recent_streams,
            recent_runtime_events: self.recent_runtime_events,
            generated_at: now,
        }
    }
}

/// A snapshot holds every record of the state once, in order.
pub proof fn snapshot_is_the_state_in_order(w: World, now: Timestamp)
    ensures
        in_order(w.snapshot(now).agents),
        in_order(w.snapshot(now).tasks),
        in_order(w.snapshot(now).decisions),
        in_order(w.snapshot(now).sessions),
        w.snapshot(now).agents.to_multiset() == w.agents.to_multiset(),
        w.snapshot(now).tasks.to_multiset() == w.tasks.to_multiset(),
        w.snapshot(now).decisions.to_multiset() == w.decisions.to_multiset(),
        w.snapshot(now).sessions.to_multiset() == w.sessions.to_multiset(),
{
    ranked_is_in_order(w.agents);
    ranked_is_in_order(w.tasks);
    ranked_is_in_order(w.decisions);
    ranked_is_in_order(w.sessions);
}

} // verus!
