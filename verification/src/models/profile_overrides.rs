//! Scheduling overrides of a profile (the `profile_overrides` table).

use vstd::prelude::*;

use crate::utils::time::UtcDateTime;

verus! {

/// A scheduling override for a profile.
#[derive(Clone, Debug, PartialEq, PartialOrd)]
pub struct ProfileOverrides {
    id: i32,
    profile_id: i32,
    runs_at: UtcDateTime,
    claimed: bool,
}

/// The values of an override.
pub struct ProfileOverridesView {
    pub id: i32,
    pub profile_id: i32,
    pub runs_at: UtcDateTime,
    pub claimed: bool,
}

impl View for ProfileOverrides {
    type V = ProfileOverridesView;

    closed spec fn view(&self) -> ProfileOverridesView {
        ProfileOverridesView { id: self.id, profile_id: self.profile_id, runs_at: self.runs_at, claimed: self.claimed }
    }
}

/// Whether moving the override to `new_date` must update the database.
pub open spec fn run_date_changes(o: ProfileOverridesView, new_date: UtcDateTime) -> bool {
    o.runs_at != new_date
}

/// The override scheduled at `new_date`.
pub open spec fn with_run_date(o: ProfileOverridesView, new_date: UtcDateTime) -> ProfileOverridesView {
    ProfileOverridesView { runs_at: new_date, ..o }
}

/// Whether claiming the override must update the database.
pub open spec fn claim_needed(o: ProfileOverridesView) -> bool {
    !o.claimed
}

/// The override marked as claimed.
pub open spec fn claimed(o: ProfileOverridesView) -> ProfileOverridesView {
    ProfileOverridesView { claimed: true, ..o }
}

/// What a deletion reports from the number of rows it affected: `Some(())`
/// when a row was deleted, `None` when no row was affected.
pub open spec fn deletion_outcome_spec(rows_affected: u64) -> Option<()> {
    if rows_affected == 0 {
        None
    } else {
        Some(())
    }
}

/// Moving an override to a new date updates the database exactly when the
/// date differs from the one it runs at, earlier or later.
pub proof fn lemma_run_date_changes_iff_differs(o: ProfileOverridesView, new_date: UtcDateTime)
    ensures
        run_date_changes(o, new_date) <==> o.runs_at != new_date,
        new_date.seconds < o.runs_at.seconds ==> run_date_changes(o, new_date),
        new_date.seconds > o.runs_at.seconds ==> run_date_changes(o, new_date),
        new_date == o.runs_at ==> !run_date_changes(o, new_date),
{
}

/// Moving an override sets its run date to the new date and leaves its ID,
/// profile and claim as they were.
pub proof fn lemma_with_run_date_moves_only_the_date(o: ProfileOverridesView, new_date: UtcDateTime)
    ensures
        with_run_date(o, new_date).runs_at == new_date,
        with_run_date(o, new_date).id == o.id,
        with_run_date(o, new_date).profile_id == o.profile_id,
        with_run_date(o, new_date).claimed == o.claimed,
{
}

/// Claiming is needed exactly for an unclaimed override, and a claimed
/// override keeps its ID, profile and run date.
pub proof fn lemma_claim_marks_only_the_claim(o: ProfileOverridesView)
    ensures
        claim_needed(o) <==> !o.claimed,
        claimed(o).claimed,
        claimed(o).id == o.id,
        claimed(o).profile_id == o.profile_id,
        claimed(o).runs_at == o.runs_at,
{
}

/// A deletion reports success exactly when it affected a row.
pub proof fn lemma_deletion_reports_affected_rows(rows_affected: u64)
    ensures
        deletion_outcome_spec(rows_affected) is None <==> rows_affected == 0,
        rows_affected > 0 ==> deletion_outcome_spec(rows_affected) == Some(()),
{
}

/// Once an override is at a date, moving it to that date again changes
/// nothing in the database.
pub proof fn lemma_run_date_update_settles(o: ProfileOverridesView, new_date: UtcDateTime)
    ensures
        !run_date_changes(with_run_date(o, new_date), new_date),
        with_run_date(with_run_date(o, new_date), new_date) == with_run_date(o, new_date),
{
}

/// Claiming is idempotent: a claimed override needs no further claim, and
/// claiming it again leaves it as it is.
pub proof fn lemma_claim_settles(o: ProfileOverridesView)
    ensures
        !claim_needed(claimed(o)),
        claimed(claimed(o)) == claimed(o),
{
}

impl ProfileOverrides {
    /// An override holding the given values.
    pub fn new(id: i32, profile_id: i32, runs_at: UtcDateTime, claimed: bool) -> (o: Self)
        ensures
            o@ == (ProfileOverridesView { id, profile_id, runs_at, claimed }),
    {
        ProfileOverrides { id, profile_id, runs_at, claimed }
    }

    /// The outcome of deleting this override, from the number of rows the
    /// deletion affected.
    pub fn deletion_outcome(rows_affected: u64) -> (res: Option<()>)
        ensures
            res == deletion_outcome_spec(rows_affected),
            res is None <==> rows_affected == 0,
            res is Some ==> res == Some(()),
    {
        if rows_affected == 0 {
            None
        } else {
            Some(())
        }
    }

    /// Whether moving the override to `new_date` must update the database:
    /// not when it already runs at that date.
    pub fn run_date_changes(&self, new_date: UtcDateTime) -> (changes: bool)
        ensures
            changes == run_date_changes(self@, new_date),
            changes <==> self@.runs_at != new_date,
    {
        !(self.runs_at == new_date)
    }

    /// Records the new run date once the database holds it.
    pub fn set_run_date(&mut self, new_date: UtcDateTime)
        ensures
            final(self)@ == with_run_date(old(self)@, new_date),
            final(self)@.runs_at == new_date,
            final(self)@.id == old(self)@.id,
            final(self)@.profile_id == old(self)@.profile_id,
            final(self)@.claimed == old(self)@.claimed,
    {
        self.runs_at = new_date;
    }

    /// Whether claiming the override must update the database: not when it
    /// is already claimed.
    pub fn claim_needed(&self) -> (needed: bool)
        ensures
            needed == claim_needed(self@),
            needed <==> !self@.claimed,
    {
        !self.claimed
    }

    /// Records the claim once the database holds it.
    pub fn mark_claimed(&mut self)
        ensures
            final(self)@ == claimed(old(self)@),
            final(self)@.claimed,
            final(self)@.id == old(self)@.id,
            final(self)@.profile_id == old(self)@.profile_id,
            final(self)@.runs_at == old(self)@.runs_at,
    {
        self.claimed = true;
    }

    /// The ID of the override entry.
    pub fn id(&self) -> (id: i32)
        ensures
            id == self@.id,
    {
        self.id
    }

    /// The profile ID associated with this override.
    pub fn profile_id(&self) -> (profile_id: i32)
        ensures
            profile_id == self@.profile_id,
    {
        self.profile_id
    }

    /// The scheduled time of this override.
    pub fn runs_at(&self) -> (runs_at: UtcDateTime)
        ensures
            runs_at == self@.runs_at,
    {
        self.runs_at
    }

    /// Whether this override has been claimed or already ran.
    pub fn claimed(&self) -> (claimed: bool)
        ensures
            claimed == self@.claimed,
    {
        self.claimed
    }
}

} // verus!
