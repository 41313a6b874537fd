//! The submissions on record, each under its code.

use vstd::prelude::*;
use vstd::string::StringExecFns;
use crate::error::{AppError, AppErrorView};
use crate::models::{
    status_step, submission_wf, GradingResults, GradingResultsView, GradingStatus, StatusView, Submission,
    SubmissionView,
};

verus! {

/// The records of a list of submissions as plain values.
pub open spec fn records_view(records: Seq<Submission>) -> Seq<SubmissionView> {
    Seq::new(records.len(), |i: int| records[i]@)
}

/// The position of the first record under `code`, or `records.len()`
/// where there is none.
pub open spec fn position_of(records: Seq<SubmissionView>, code: Seq<char>) -> int
    decreases records.len(),
{
    if records.len() == 0 || records[0].submission_code == code {
        0
    } else {
        1 + position_of(records.skip(1), code)
    }
}

/// Whether a record stands under `code`.
pub open spec fn knows(records: Seq<SubmissionView>, code: Seq<char>) -> bool {
    position_of(records, code) < records.len()
}

/// No code stands on two records.
pub open spec fn codes_distinct(records: Seq<SubmissionView>) -> bool {
    forall|i: int, j: int|
        0 <= i < j < records.len() ==> (#[trigger] records[i]).submission_code != (
        #[trigger] records[j]).submission_code
}

/// Every record is well formed.
pub open spec fn records_wf(records: Seq<SubmissionView>) -> bool {
    forall|i: int| 0 <= i < records.len() ==> submission_wf(#[trigger] records[i])
}

/// Whether `status` may be saved over the record `current` by itself: it
/// is one step on from the status of the record, and it is not
/// `Completed`, which is saved only together with the results.
pub open spec fn may_save_status(current: SubmissionView, status: StatusView) -> bool {
    status_step(current.grading_status, status) && !(status is Completed)
}

/// The record `current` once its grading is completed with `results`.
pub open spec fn completed_with(current: SubmissionView, results: GradingResultsView) -> SubmissionView {
    SubmissionView { grading_status: StatusView::Completed, results: Some(results), ..current }
}

/// What `position_of` means: no record before it stands under the code,
/// and the record at it does, unless it is the end.
pub proof fn lemma_position_of(records: Seq<SubmissionView>, code: Seq<char>)
    ensures
        0 <= position_of(records, code) <= records.len(),
        forall|j: int| 0 <= j < position_of(records, code) ==> (#[trigger] records[j]).submission_code != code,
        position_of(records, code) < records.len() ==> records[position_of(
            records,
            code,
        )].submission_code == code,
    decreases records.len(),
{
    if !(records.len() == 0 || records[0].submission_code == code) {
        let rest = records.skip(1);
        lemma_position_of(rest, code);
        assert forall|j: int| 0 <= j < position_of(records, code) implies (
        #[trigger] records[j]).submission_code != code by {
            if j > 0 {
                assert(rest[j - 1] == records[j]);
            }
        }
    }
}

/// A position before which no record stands under the code, and which is
/// the end or holds such a record, is the position of the code.
pub proof fn lemma_position_found(records: Seq<SubmissionView>, code: Seq<char>, i: int)
    requires
        0 <= i <= records.len(),
        forall|j: int| 0 <= j < i ==> (#[trigger] records[j]).submission_code != code,
        i == records.len() || records[i].submission_code == code,
    ensures
        position_of(records, code) == i,
    decreases i,
{
    if i > 0 {
        let rest = records.skip(1);
        assert forall|j: int| 0 <= j < i - 1 implies (#[trigger] rest[j]).submission_code != code by {
            assert(rest[j] == records[j + 1]);
        }
        lemma_position_found(rest, code, i - 1);
    }
}

/// What is reported for a code that is already on record.
pub open spec fn duplicate_code_note() -> Seq<char> {
    "Submission code already exists"@
}

/// What is reported for a code that is not on record.
pub open spec fn unknown_code_note() -> Seq<char> {
    "Submission not found"@
}

/// What is reported for a record whose results do not go with its status.
pub open spec fn inconsistent_record_note() -> Seq<char> {
    "Submission record is inconsistent"@
}

/// What is reported for a status that may not follow the one on record.
pub open spec fn illegal_status_note() -> Seq<char> {
    "Grading status cannot change this way"@
}

/// What is reported for results that come while no grading is in progress.
pub open spec fn untimely_results_note() -> Seq<char> {
    "Results can be stored only while grading is in progress"@
}

/// The submissions on record, each under its own code.
#[derive(Debug)]
pub struct SubmissionRepository {
    records: Vec<Submission>,
}

impl View for SubmissionRepository {
    type V = Seq<SubmissionView>;

    closed spec fn view(&self) -> Seq<SubmissionView> {
        records_view(self.records@)
    }
}

impl SubmissionRepository {
    #[verifier::type_invariant]
    spec fn inv(&self) -> bool {
        codes_distinct(records_view(self.records@)) && records_wf(records_view(self.records@))
    }

    /// A repository without records.
    pub fn new() -> (r: Self)
        ensures
            r@ == Seq::<SubmissionView>::empty(),
    {
        let records: Vec<Submission> = Vec::new();
        assert(records_view(records@) =~= Seq::<SubmissionView>::empty());
        SubmissionRepository { records }
    }

    /// The number of records. No code stands on two of them, and every
    /// record is well formed.
    pub fn len(&self) -> (n: usize)
        ensures
            n == self@.len(),
            codes_distinct(self@),
            records_wf(self@),
    {
        proof {
            use_type_invariant(self);
        }
        self.records.len()
    }

    fn find(&self, code: &str) -> (i: usize)
        ensures
            i == position_of(self@, code@),
            i <= self@.len(),
            self@.len() == self.records@.len(),
    {
        let wanted = code.to_owned();
        let ghost views = records_view(self.records@);
        let mut i: usize = 0;
        while i < self.records.len() && self.records[i].submission_code != wanted
            invariant
                i <= self.records@.len(),
                wanted@ == code@,
                views == records_view(self.records@),
                forall|j: int| 0 <= j < i ==> (#[trigger] views[j]).submission_code != code@,
            decreases self.records@.len() - i,
        {
            i += 1;
        }
        proof {
            lemma_position_found(views, code@, i as int);
        }
        i
    }

    /// Whether a record stands under `code`.
    pub fn submission_exists(&self, code: &str) -> (b: bool)
        ensures
            b == knows(self@, code@),
    {
        self.find(code) < self.records.len()
    }

    /// The record under `code`, or `NotFound`.
    pub fn read(&self, code: &str) -> (r: Result<&Submission, AppError>)
        ensures
            match r {
                Ok(record) => knows(self@, code@) && record@ == self@[position_of(self@, code@)]
                    && record@.submission_code == code@ && record.wf(),
                Err(e) => !knows(self@, code@) && e@ == AppErrorView::NotFound(unknown_code_note()),
            },
    {
        let i = self.find(code);
        if i < self.records.len() {
            proof {
                use_type_invariant(self);
                lemma_position_of(self@, code@);
                assert(self@[i as int] == self.records@[i as int]@);
            }
            Ok(&self.records[i])
        } else {
            Err(AppError::NotFound(String::from_str("Submission not found")))
        }
    }

    /// Puts `record` on record. Fails with `Conflict` where its code is on
    /// record already, whatever else the record holds, and with
    /// `Validation` where its results do not go with its status.
    pub fn create(&mut self, record: Submission) -> (r: Result<(), AppError>)
        ensures
            match r {
                Ok(()) => !knows(old(self)@, record@.submission_code) && record.wf() && final(self)@
                    == old(self)@.push(record@),
                Err(e) => final(self)@ == old(self)@ && if knows(old(self)@, record@.submission_code) {
                    e@ == AppErrorView::Conflict(duplicate_code_note())
                } else {
                    !record.wf() && e@ == AppErrorView::Validation(inconsistent_record_note())
                },
            },
    {
        proof {
            use_type_invariant(&*self);
        }
        let i = self.find(record.submission_code.as_str());
        if i < self.records.len() {
            return Err(AppError::Conflict(String::from_str("Submission code already exists")));
        }
        if !is_consistent(&record) {
            return Err(AppError::Validation(String::from_str("Submission record is inconsistent")));
        }
        let ghost before = records_view(self.records@);
        proof {
            lemma_position_of(before, record@.submission_code);
        }
        let mut records: Vec<Submission> = Vec::new();
        proof {
            assert(records_view(records@) =~= Seq::<SubmissionView>::empty());
        }
        std::mem::swap(&mut self.records, &mut records);
        let ghost added = record@;
        records.push(record);
        proof {
            let after = records_view(records@);
            assert(after =~= before.push(added));
            assert(codes_distinct(after)) by {
                assert forall|a: int, b: int| 0 <= a < b < after.len() implies (
                #[trigger] after[a]).submission_code != (#[trigger] after[b]).submission_code by {
                    assert(after[a] == before[a]);
                    if b < before.len() {
                        assert(after[b] == before[b]);
                    }
                }
            }
            assert(records_wf(after)) by {
                assert forall|a: int| 0 <= a < after.len() implies submission_wf(#[trigger] after[a]) by {
                    if a < before.len() {
                        assert(after[a] == before[a]);
                    }
                }
            }
        }
        std::mem::swap(&mut self.records, &mut records);
        Ok(())
    }

    /// Saves `status` over the record under `code`. Fails with `NotFound`
    /// where no record stands under the code, and with `Conflict` where
    /// the status may not follow the one on record, or is `Completed`:
    /// that status is saved by `update_results`, in one write with the
    /// results.
    pub fn update_status(&mut self, code: &str, status: GradingStatus) -> (r: Result<(), AppError>)
        ensures
            match r {
                Ok(()) => {
                    let i = position_of(old(self)@, code@);
                    &&& knows(old(self)@, code@)
                    &&& may_save_status(old(self)@[i], status@)
                    &&& final(self)@ == old(self)@.update(
                        i,
                        SubmissionView { grading_status: status@, ..old(self)@[i] },
                    )
                },
                Err(e) => final(self)@ == old(self)@ && if !knows(old(self)@, code@) {
                    e@ == AppErrorView::NotFound(unknown_code_note())
                } else {
                    !may_save_status(old(self)@[position_of(old(self)@, code@)], status@) && e@
                        == AppErrorView::Conflict(illegal_status_note())
                },
            },
    {
        proof {
            use_type_invariant(&*self);
        }
        let i = self.find(code);
        if i >= self.records.len() {
            return Err(AppError::NotFound(String::from_str("Submission not found")));
        }
        let ghost before = records_view(self.records@);
        assert(before[i as int] == self.records@[i as int]@);
        let allowed = self.records[i].grading_status.can_become(&status) && match &status {
            GradingStatus::Completed => false,
            _ => true,
        };
        if !allowed {
            return Err(AppError::Conflict(String::from_str("Grading status cannot change this way")));
        }
        let mut records: Vec<Submission> = Vec::new();
        proof {
            assert(records_view(records@) =~= Seq::<SubmissionView>::empty());
        }
        std::mem::swap(&mut self.records, &mut records);
        let ghost saved = status@;
        records[i].grading_status = status;
        proof {
            let after = records_view(records@);
            let changed = SubmissionView { grading_status: saved, ..before[i as int] };
            assert(after[i as int] == records@[i as int]@);
            assert(after =~= before.update(i as int, changed));
            assert(codes_distinct(after)) by {
                assert forall|a: int, b: int| 0 <= a < b < after.len() implies (
                #[trigger] after[a]).submission_code != (#[trigger] after[b]).submission_code by {
                    assert(after[a].submission_code == before[a].submission_code);
                    assert(after[b].submission_code == before[b].submission_code);
                }
            }
            assert(records_wf(after)) by {
                assert forall|a: int| 0 <= a < after.len() implies submission_wf(#[trigger] after[a]) by {
                    if a != i {
                        assert(after[a] == before[a]);
                    }
                }
            }
        }
        std::mem::swap(&mut self.records, &mut records);
        Ok(())
    }

    /// Saves `results` over the record under `code` and, in the same
    /// write, `Completed` as its status. Fails with `NotFound` where no
    /// record stands under the code, and with `Conflict` unless its
    /// grading is in progress.
    pub fn update_results(&mut self, code: &str, results: GradingResults) -> (r: Result<(), AppError>)
        ensures
            match r {
                Ok(()) => {
                    let i = position_of(old(self)@, code@);
                    &&& knows(old(self)@, code@)
                    &&& old(self)@[i].grading_status is InProgress
                    &&& final(self)@ == old(self)@.update(i, completed_with(old(self)@[i], results@))
                },
                Err(e) => final(self)@ == old(self)@ && if !knows(old(self)@, code@) {
                    e@ == AppErrorView::NotFound(unknown_code_note())
                } else {
                    !(old(self)@[position_of(old(self)@, code@)].grading_status is InProgress) && e@
                        == AppErrorView::Conflict(untimely_results_note())
                },
            },
    {
        proof {
            use_type_invariant(&*self);
        }
        let i = self.find(code);
        if i >= self.records.len() {
            return Err(AppError::NotFound(String::from_str("Submission not found")));
        }
        let ghost before = records_view(self.records@);
        assert(before[i as int] == self.records@[i as int]@);
        let in_progress = match &self.records[i].grading_status {
            GradingStatus::InProgress => true,
            _ => false,
        };
        if !in_progress {
            return Err(
                AppError::Conflict(String::from_str("Results can be stored only while grading is in progress")),
            );
        }
        let mut records: Vec<Submission> = Vec::new();
        proof {
            assert(records_view(records@) =~= Seq::<SubmissionView>::empty());
        }
        std::mem::swap(&mut self.records, &mut records);
        let ghost saved = results@;
        records[i].results = Some(results);
        records[i].grading_status = GradingStatus::Completed;
        proof {
            let after = records_view(records@);
            let changed = completed_with(before[i as int], saved);
            assert(after[i as int] == records@[i as int]@);
            assert(after =~= before.update(i as int, changed));
            assert(codes_distinct(after)) by {
                assert forall|a: int, b: int| 0 <= a < b < after.len() implies (
                #[trigger] after[a]).submission_code != (#[trigger] after[b]).submission_code by {
                    assert(after[a].submission_code == before[a].submission_code);
                    assert(after[b].submission_code == before[b].submission_code);
                }
            }
            assert(records_wf(after)) by {
                assert forall|a: int| 0 <= a < after.len() implies submission_wf(#[trigger] after[a]) by {
                    if a != i {
                        assert(after[a] == before[a]);
                    }
                }
            }
        }
        std::mem::swap(&mut self.records, &mut records);
        Ok(())
    }
}

/// Whether the results of `record` go with its status.
pub fn is_consistent(record: &Submission) -> (b: bool)
    ensures
        b == record.wf(),
{
    match &record.grading_status {
        GradingStatus::Completed => record.results.is_some(),
        _ => record.results.is_none(),
    }
}

} // verus!
