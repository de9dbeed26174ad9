//! What the log says: the report of an error with its causes, and the level
//! at which the end of a request is recorded.

use vstd::prelude::*;

verus! {

/// The line that opens and closes an error report.
pub open spec fn separator() -> Seq<char> {
    "\n-----------------------------------------------------------------------------------\n"@
}

/// The part of a report that lists the causes, outermost first: for each, an
/// empty line, the words `Caused by:`, another empty line, and the cause.
pub open spec fn causes_text(causes: Seq<Seq<char>>) -> Seq<char>
    decreases causes.len(),
{
    if causes.len() == 0 {
        Seq::empty()
    } else {
        causes_text(causes.drop_last()) + "\n"@ + "Caused by:\n\n"@ + causes.last()
    }
}

/// The report of an error: between two separators, the error on a line of its
/// own, then its causes.
pub open spec fn error_report(error: Seq<char>, causes: Seq<Seq<char>>) -> Seq<char> {
    separator() + error + "\n"@ + causes_text(causes) + "\n"@ + separator()
}

/// Writes the report of an error and of the chain of its causes. `error` is
/// the error as it is to appear, `causes` are its causes from the nearest to
/// the deepest.
pub fn log_error_chain(error: &str, causes: &Vec<String>) -> (report: String)
    ensures
        report@ == error_report(error@, causes.deep_view()),
{
    let separator =
        "\n-----------------------------------------------------------------------------------\n";
    let mut report = String::new();
    report.append(separator);
    report.append(error);
    report.append("\n");
    let ghost head = report@;
    let ghost all = causes.deep_view();
    let mut i: usize = 0;
    while i < causes.len()
        invariant
            i <= causes.len(),
            all == causes.deep_view(),
            report@ == head + causes_text(all.take(i as int)),
        decreases causes.len() - i,
    {
        proof {
            assert(all.take(i + 1).drop_last() =~= all.take(i as int));
        }
        report.append("\n");
        report.append("Caused by:\n\n");
        report.append(causes[i].as_str());
        i += 1;
    }
    proof {
        assert(all.take(i as int) =~= all);
    }
    report.append("\n");
    report.append(separator);
    report
}

/// The level of a log record.
#[derive(Debug, Clone, Copy, PartialEq, Eq, Structural)]
pub enum Level {
    Error,
    Info,
}

/// The level at which the end of a request is recorded: client and server
/// failures, the status codes from 400 to 599, are errors; every other
/// status is information.
pub open spec fn response_level(status_code: u16) -> Level {
    if 4 <= status_code / 100 <= 5 {
        Level::Error
    } else {
        Level::Info
    }
}

/// Decides the level of the record that ends a request.
pub fn on_response(status_code: u16) -> (level: Level)
    ensures
        level == response_level(status_code),
{
    let status_code_class = status_code / 100;
    match status_code_class {
        4..=5 => Level::Error,
        _ => Level::Info,
    }
}

} // verus!
