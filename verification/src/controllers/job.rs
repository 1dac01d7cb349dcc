//! What the job pages answer, apart from rendering.
use vstd::prelude::*;

verus! {

/// The error reported when deleting job `job_id` failed.
pub fn delete_failure_message(job_id: &str) -> (msg: String)
    ensures
        msg@ == "Unable to delete job id '"@ + job_id@ + "'"@,
{
    let mut msg = String::from_str("Unable to delete job id '");
    msg.append(job_id);
    msg.append("'");
    msg
}

} // verus!
