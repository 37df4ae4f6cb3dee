use vstd::prelude::*;
use crate::chars::{contains, str_contains, trim, trim_chars};
use crate::envfile::{lines_of, text_lines};
use crate::chars::strings_view;
use crate::error::VirtuosoError;
use crate::models::{Job, JobStatus};
use crate::text::{chars_of, push_str, string_from, string_of};

verus! {

/// The last line that mentions `Error` or `error`, trimmed.
pub open spec fn last_error_line(lines: Seq<Seq<char>>) -> Option<Seq<char>>
    decreases lines.len(),
{
    if lines.len() == 0 {
        None
    } else if contains(lines.last(), "Error"@) || contains(lines.last(), "error"@) {
        Some(trim(lines.last()))
    } else {
        last_error_line(lines.drop_last())
    }
}

/// The name `{:?}` gives a job status.
pub open spec fn status_name(s: JobStatus) -> Seq<char> {
    match s {
        JobStatus::Running => "Running"@,
        JobStatus::Completed => "Completed"@,
        JobStatus::Failed => "Failed"@,
        JobStatus::Cancelled => "Cancelled"@,
    }
}

fn status_name_exec(s: JobStatus) -> (r: &'static str)
    ensures
        r@ == status_name(s),
{
    match s {
        JobStatus::Running => "Running",
        JobStatus::Completed => "Completed",
        JobStatus::Failed => "Failed",
        JobStatus::Cancelled => "Cancelled",
    }
}

/// The view of an optional string.
pub open spec fn opt_text(o: Option<String>) -> Option<Seq<char>> {
    match o {
        Some(s) => Some(s@),
        None => None,
    }
}

/// Everything but the status, the error and the finish time is as before.
pub open spec fn same_job_but_outcome(a: Job, b: Job) -> bool {
    a == (Job { status: a.status, error: a.error, finished: a.finished, ..b })
}

fn last_error_line_exec(lines: &Vec<String>) -> (r: Option<String>)
    ensures
        opt_text(r) == last_error_line(strings_view(lines@)),
{
    let ghost ls = strings_view(lines@);
    let mut i = lines.len();
    assert(ls.take(i as int) =~= ls);
    while i > 0
        invariant
            i <= lines@.len(),
            ls == strings_view(lines@),
            last_error_line(ls) == last_error_line(ls.take(i as int)),
        decreases i,
    {
        assert(ls.take(i as int).drop_last() == ls.take(i - 1));
        assert(ls.take(i as int).last() == lines@[i - 1]@);
        let l = lines[i - 1].as_str();
        if str_contains(l, "Error") || str_contains(l, "error") {
            let t = trim_chars(&chars_of(l));
            return Some(string_of(t.as_slice()));
        }
        i = i - 1;
    }
    None
}

impl Job {
    /// Settles a job whose process has exited, from its `spectre.out` log:
    /// completed when the log reports `completes with 0 errors`; otherwise
    /// failed, with the last line that mentions an error (or a note that no
    /// log was found). `finished` is the finish time.
    pub fn finish_from_log(&mut self, content: &str, finished: String)
        ensures
            same_job_but_outcome(*final(self), *old(self)),
            final(self).finished == Some(finished),
            contains(content@, "completes with 0 errors"@) ==> final(self).status == JobStatus::Completed
                && final(self).error == old(self).error,
            !contains(content@, "completes with 0 errors"@) && content@.len() == 0 ==> final(self).status == JobStatus::Failed
                && opt_text(final(self).error) == Some("process exited, no log found"@),
            !contains(content@, "completes with 0 errors"@) && content@.len() > 0 ==> final(self).status == JobStatus::Failed
                && opt_text(final(self).error) == last_error_line(text_lines(content@)),
    {
        if str_contains(content, "completes with 0 errors") {
            self.status = JobStatus::Completed;
        } else if content.is_empty() {
            self.status = JobStatus::Failed;
            self.error = Some(string_from("process exited, no log found"));
        } else {
            self.status = JobStatus::Failed;
            let lines = lines_of(content);
            let found = last_error_line_exec(&lines);
            self.error = found;
        }
        self.finished = Some(finished);
    }

    /// Marks a running job cancelled at time `finished` (its process is
    /// signalled by the caller); a job that is not running is an error.
    pub fn cancel(&mut self, finished: String) -> (r: Result<(), VirtuosoError>)
        ensures
            old(self).status == JobStatus::Running ==> r is Ok
                && *final(self) == (Job { status: JobStatus::Cancelled, finished: Some(finished), ..*old(self) }),
            old(self).status != JobStatus::Running ==> *final(self) == *old(self)
                && (r matches Err(VirtuosoError::Config(m)) && m@ == "job '"@ + old(self).id@
                    + "' is not running (status: "@ + status_name(old(self).status) + ")"@),
    {
        if self.status != JobStatus::Running {
            let mut m = string_from("job '");
            push_str(&mut m, self.id.as_str());
            push_str(&mut m, "' is not running (status: ");
            push_str(&mut m, status_name_exec(self.status));
            push_str(&mut m, ")");
            return Err(VirtuosoError::Config(m));
        }
        self.status = JobStatus::Cancelled;
        self.finished = Some(finished);
        Ok(())
    }

    /// The process to check for liveness: a running job's pid, if it has one.
    pub fn liveness_pid(&self) -> (r: Option<u32>)
        ensures
            r == (if self.status == JobStatus::Running { self.pid } else { None }),
    {
        if self.status == JobStatus::Running { self.pid } else { None }
    }
}

} // verus!
