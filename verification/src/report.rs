//! The lines that report a failed call and the chain of errors behind it.

use vstd::prelude::*;

verus! {

/// The first line of a report: which call failed, and with what error.
pub open spec fn failure_line(method_name: Seq<char>, err: Seq<char>) -> Seq<char> {
    method_name + "() failed: "@ + err
}

/// A further line of a report: one error that lies behind the failure.
pub open spec fn cause_line(cause: Seq<char>) -> Seq<char> {
    "  Caused by: "@ + cause
}

/// The report of a failed call: a line that names the call and its error,
/// then one line for each underlying cause, nearest first.
pub fn log_error(method_name: &str, err: &str, causes: &Vec<String>) -> (lines: Vec<String>)
    ensures
        lines@.len() == causes@.len() + 1,
        lines@[0]@ == failure_line(method_name@, err@),
        forall|k: int|
            0 <= k < causes@.len() ==> (#[trigger] lines@[k + 1])@ == cause_line(causes@[k]@),
{
    let mut lines: Vec<String> = Vec::new();
    let mut first = String::from_str(method_name);
    first.append("() failed: ");
    first.append(err);
    lines.push(first);
    let mut k: usize = 0;
    while k < causes.len()
        invariant
            k <= causes@.len(),
            lines@.len() == k + 1,
            lines@[0]@ == failure_line(method_name@, err@),
            forall|j: int| 0 <= j < k ==> (#[trigger] lines@[j + 1])@ == cause_line(causes@[j]@),
        decreases causes@.len() - k,
    {
        let mut line = String::from_str("  Caused by: ");
        line.append(causes[k].as_str());
        lines.push(line);
        k += 1;
    }
    lines
}

} // verus!
