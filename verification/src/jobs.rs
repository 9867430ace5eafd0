//! In-memory job tracking: run status, final output and error text per
//! opaque job identifier.  The table itself is a plain value; a hosting
//! service wraps it in whatever shared, mutually-exclusive handle it
//! needs.

use vstd::prelude::*;

use crate::options::string_eq;

verus! {

/// Lifecycle states of a run.
#[derive(Clone, Copy, PartialEq, Eq, Structural, Debug)]
pub enum JobStatus {
    Pending,
    Running,
    Completed,
    Failed,
}

/// The stored string form of a status.
pub open spec fn spec_status_name(s: JobStatus) -> Seq<char> {
    match s {
        JobStatus::Pending => "pending"@,
        JobStatus::Running => "running"@,
        JobStatus::Completed => "completed"@,
        JobStatus::Failed => "failed"@,
    }
}

/// One tracked job.
pub struct JobEntry {
    pub id: String,
    pub status: String,
    pub output: Option<Vec<u8>>,
    pub error: Option<String>,
}

/// Mathematical view of a tracked job.
#[verifier::ext_equal]
pub struct JobEntryView {
    pub id: Seq<char>,
    pub status: Seq<char>,
    pub output: Option<Seq<u8>>,
    pub error: Option<Seq<char>>,
}

impl DeepView for JobEntry {
    type V = JobEntryView;

    open spec fn deep_view(&self) -> JobEntryView {
        JobEntryView {
            id: self.id@,
            status: self.status@,
            output: self.output.deep_view(),
            error: self.error.deep_view(),
        }
    }
}

/// Index of the entry for a job identifier, or -1.
pub open spec fn spec_job_index(jobs: Seq<JobEntryView>, id: Seq<char>) -> int
    decreases jobs.len(),
{
    if jobs.len() == 0 {
        -1
    } else if jobs[0].id == id {
        0
    } else {
        let rest = spec_job_index(jobs.drop_first(), id);
        if rest < 0 {
            -1
        } else {
            rest + 1
        }
    }
}

/// What `spec_job_index` finds: the first entry for the identifier, or
/// a witness that the identifier is absent.
pub proof fn lemma_job_index_first(jobs: Seq<JobEntryView>, id: Seq<char>)
    ensures
        ({
            let i = spec_job_index(jobs, id);
            &&& -1 <= i < jobs.len()
            &&& (i == -1 ==> forall|j: int| 0 <= j < jobs.len() ==> jobs[j].id != id)
            &&& (i >= 0 ==> jobs[i].id == id && (forall|j: int| 0 <= j < i ==> jobs[j].id != id))
        }),
    decreases jobs.len(),
{
    if jobs.len() > 0 && jobs[0].id != id {
        lemma_job_index_first(jobs.drop_first(), id);
        let rest = spec_job_index(jobs.drop_first(), id);
        if rest < 0 {
            assert forall|j: int| 0 <= j < jobs.len() implies jobs[j].id != id by {
                if j >= 1 {
                    assert(jobs.drop_first()[j - 1] == jobs[j]);
                }
            }
        } else {
            assert(jobs.drop_first()[rest] == jobs[rest + 1]);
            assert forall|j: int| 0 <= j < rest + 1 implies jobs[j].id != id by {
                if j >= 1 {
                    assert(jobs.drop_first()[j - 1] == jobs[j]);
                }
            }
        }
    }
}

/// If `id` first occurs at index `i`, then `spec_job_index` finds
/// exactly `i`.
pub proof fn lemma_job_index_unique(jobs: Seq<JobEntryView>, id: Seq<char>, i: int)
    requires
        0 <= i < jobs.len(),
        jobs[i].id == id,
        forall|j: int| 0 <= j < i ==> jobs[j].id != id,
    ensures
        spec_job_index(jobs, id) == i,
{
    lemma_job_index_first(jobs, id);
    let i0 = spec_job_index(jobs, id);
    if i0 == -1 {
        assert(jobs[i].id != id);
    } else if i0 < i {
        assert(jobs[i0].id != id);
    } else if i0 > i {
        assert(jobs[i].id != id);
    }
}

/// The status recorded for a job, if any.
pub open spec fn spec_job_status(jobs: Seq<JobEntryView>, id: Seq<char>) -> Option<Seq<char>> {
    let i = spec_job_index(jobs, id);
    if i < 0 {
        None
    } else {
        Some(jobs[i].status)
    }
}

/// The output recorded for a job, if any.
pub open spec fn spec_job_output(jobs: Seq<JobEntryView>, id: Seq<char>) -> Option<Seq<u8>> {
    let i = spec_job_index(jobs, id);
    if i < 0 {
        None
    } else {
        jobs[i].output
    }
}

/// The table after recording a status: the job's entry is updated in
/// place, or created with no output and no error.
pub open spec fn spec_set_status(jobs: Seq<JobEntryView>, id: Seq<char>, status: Seq<char>) -> Seq<
    JobEntryView,
> {
    let i = spec_job_index(jobs, id);
    if i < 0 {
        jobs.push(JobEntryView { id, status, output: None, error: None })
    } else {
        jobs.update(i, JobEntryView { id, status, output: jobs[i].output, error: jobs[i].error })
    }
}

/// The table after recording completion: status "completed" and the
/// final output, the error text kept.
pub open spec fn spec_set_completed(jobs: Seq<JobEntryView>, id: Seq<char>, output: Seq<u8>) -> Seq<
    JobEntryView,
> {
    let i = spec_job_index(jobs, id);
    if i < 0 {
        jobs.push(JobEntryView { id, status: "completed"@, output: Some(output), error: None })
    } else {
        jobs.update(
            i,
            JobEntryView { id, status: "completed"@, output: Some(output), error: jobs[i].error },
        )
    }
}

/// The table after recording failure: status "failed" and the error
/// text, the output kept.
pub open spec fn spec_set_failed(jobs: Seq<JobEntryView>, id: Seq<char>, err: Seq<char>) -> Seq<
    JobEntryView,
> {
    let i = spec_job_index(jobs, id);
    if i < 0 {
        jobs.push(JobEntryView { id, status: "failed"@, output: None, error: Some(err) })
    } else {
        jobs.update(
            i,
            JobEntryView { id, status: "failed"@, output: jobs[i].output, error: Some(err) },
        )
    }
}

/// Job table: one entry per submitted run, keyed by identifier.
pub struct JobState {
    pub jobs: Vec<JobEntry>,
}

impl DeepView for JobState {
    type V = Seq<JobEntryView>;

    open spec fn deep_view(&self) -> Seq<JobEntryView> {
        self.jobs.deep_view()
    }
}

fn find_job(jobs: &Vec<JobEntry>, id: &String) -> (r: Option<usize>)
    ensures
        match r {
            Some(i) => i < jobs@.len() && spec_job_index(jobs.deep_view(), id@) == i as int,
            None => spec_job_index(jobs.deep_view(), id@) == -1,
        },
{
    let mut i: usize = 0;
    while i < jobs.len()
        invariant
            i <= jobs@.len(),
            jobs.deep_view().len() == jobs@.len(),
            forall|j: int| 0 <= j < i ==> #[trigger] jobs.deep_view()[j].id != id@,
        decreases jobs@.len() - i,
    {
        assert(jobs.deep_view()[i as int].id == jobs@[i as int].id@);
        if string_eq(&jobs[i].id, id) {
            proof {
                lemma_job_index_unique(jobs.deep_view(), id@, i as int);
            }
            return Some(i);
        }
        i = i + 1;
    }
    proof {
        lemma_job_index_first(jobs.deep_view(), id@);
        let i0 = spec_job_index(jobs.deep_view(), id@);
        if i0 >= 0 {
            assert(jobs.deep_view()[i0].id != id@);
        }
    }
    None
}

impl JobState {
    /// An empty job table.
    pub fn new() -> (r: Self)
        ensures
            r.deep_view() == Seq::<JobEntryView>::empty(),
    {
        let r = JobState { jobs: Vec::new() };
        assert(r.jobs.deep_view() =~= Seq::<JobEntryView>::empty());
        r
    }

    /// Record a job's lifecycle status.
    pub fn set_status(&mut self, job_id: &str, status: JobStatus)
        ensures
            final(self).deep_view() == spec_set_status(
                old(self).deep_view(),
                job_id@,
                spec_status_name(status),
            ),
    {
        let id = job_id.to_owned();
        let text: String = match status {
            JobStatus::Pending => "pending".to_owned(),
            JobStatus::Running => "running".to_owned(),
            JobStatus::Completed => "completed".to_owned(),
            JobStatus::Failed => "failed".to_owned(),
        };
        match find_job(&self.jobs, &id) {
            Some(i) => {
                let mut e = self.jobs.remove(i);
                let ghost old_ev = e.deep_view();
                e.id = id;
                e.status = text;
                proof {
                    assert(e.deep_view() =~= JobEntryView {
                        id: job_id@,
                        status: spec_status_name(status),
                        output: old_ev.output,
                        error: old_ev.error,
                    });
                }
                self.jobs.insert(i, e);
                assert(self.jobs@ =~= old(self).jobs@.update(i as int, self.jobs@[i as int]));
                assert(self.jobs.deep_view() =~= spec_set_status(
                    old(self).deep_view(),
                    job_id@,
                    spec_status_name(status),
                ));
            },
            None => {
                let e = JobEntry { id, status: text, output: None, error: None };
                self.jobs.push(e);
                assert(self.jobs.deep_view() =~= spec_set_status(
                    old(self).deep_view(),
                    job_id@,
                    spec_status_name(status),
                ));
            },
        }
    }

    /// Record a successful run: terminal status and the final output.
    pub fn set_completed(&mut self, job_id: &str, output: Vec<u8>)
        ensures
            final(self).deep_view() == spec_set_completed(
                old(self).deep_view(),
                job_id@,
                output@,
            ),
    {
        let id = job_id.to_owned();
        match find_job(&self.jobs, &id) {
            Some(i) => {
                let mut e = self.jobs.remove(i);
                let ghost old_ev = e.deep_view();
                e.id = id;
                e.status = "completed".to_owned();
                e.output = Some(output);
                proof {
                    assert(e.deep_view() =~= JobEntryView {
                        id: job_id@,
                        status: "completed"@,
                        output: Some(output@),
                        error: old_ev.error,
                    });
                }
                self.jobs.insert(i, e);
                assert(self.jobs@ =~= old(self).jobs@.update(i as int, self.jobs@[i as int]));
                assert(self.jobs.deep_view() =~= spec_set_completed(
                    old(self).deep_view(),
                    job_id@,
                    output@,
                ));
            },
            None => {
                let ghost ov = output@;
                let e = JobEntry {
                    id,
                    status: "completed".to_owned(),
                    output: Some(output),
                    error: None,
                };
                let ghost ev = e.deep_view();
                proof {
                    assert(ev =~= JobEntryView {
                        id: job_id@,
                        status: "completed"@,
                        output: Some(ov),
                        error: None,
                    });
                }
                self.jobs.push(e);
                assert(self.jobs.deep_view() =~= old(self).deep_view().push(ev));
                assert(self.jobs.deep_view() =~= spec_set_completed(
                    old(self).deep_view(),
                    job_id@,
                    ov,
                ));
            },
        }
    }

    /// Record a failed run: terminal status and the error text.
    pub fn set_failed(&mut self, job_id: &str, err: String)
        ensures
            final(self).deep_view() == spec_set_failed(old(self).deep_view(), job_id@, err@),
    {
        let id = job_id.to_owned();
        match find_job(&self.jobs, &id) {
            Some(i) => {
                let mut e = self.jobs.remove(i);
                let ghost old_ev = e.deep_view();
                e.id = id;
                e.status = "failed".to_owned();
                e.error = Some(err);
                proof {
                    assert(e.deep_view() =~= JobEntryView {
                        id: job_id@,
                        status: "failed"@,
                        output: old_ev.output,
                        error: Some(err@),
                    });
                }
                self.jobs.insert(i, e);
                assert(self.jobs@ =~= old(self).jobs@.update(i as int, self.jobs@[i as int]));
                assert(self.jobs.deep_view() =~= spec_set_failed(
                    old(self).deep_view(),
                    job_id@,
                    err@,
                ));
            },
            None => {
                let e = JobEntry {
                    id,
                    status: "failed".to_owned(),
                    output: None,
                    error: Some(err),
                };
                self.jobs.push(e);
                assert(self.jobs.deep_view() =~= spec_set_failed(
                    old(self).deep_view(),
                    job_id@,
                    err@,
                ));
            },
        }
    }

    /// The status recorded for a job, if any.
    pub fn get_status(&self, job_id: &str) -> (r: Option<String>)
        ensures
            r.deep_view() == spec_job_status(self.deep_view(), job_id@),
    {
        let id = job_id.to_owned();
        match find_job(&self.jobs, &id) {
            Some(i) => Some(self.jobs[i].status.clone()),
            None => None,
        }
    }

    /// The output recorded for a job, if any.
    pub fn get_output(&self, job_id: &str) -> (r: Option<Vec<u8>>)
        ensures
            r.deep_view() == spec_job_output(self.deep_view(), job_id@),
    {
        let id = job_id.to_owned();
        match find_job(&self.jobs, &id) {
            Some(i) => match &self.jobs[i].output {
                Some(o) => {
                    let mut copy: Vec<u8> = Vec::new();
                    copy.extend_from_slice(o.as_slice());
                    assert(copy@ =~= o@);
                    Some(copy)
                },
                None => None,
            },
            None => None,
        }
    }
}

impl Default for JobState {
    /// The empty job table.
    fn default() -> (r: Self)
        ensures
            r.deep_view() == Seq::<JobEntryView>::empty(),
    {
        JobState::new()
    }
}

} // verus!
