use vstd::prelude::*;
use vstd::string::StringExecFns;

verus! {

/// The rule printed above and below an error report.
pub const REPORT_SEPARATOR: &'static str = "\n----------------------------------------------------------------------------------\n";

/// The lines for the causes of an error, each as "Caused by:" and its text.
pub open spec fn causes_text(causes: Seq<Seq<char>>) -> Seq<char>
    decreases causes.len(),
{
    if causes.len() == 0 {
        Seq::empty()
    } else {
        causes_text(causes.drop_last()) + "\n"@ + "Caused by:\n\n"@ + causes.last()
    }
}

/// The report of an error (its debug text) and its chain of causes.
pub open spec fn error_chain_report(error: Seq<char>, causes: Seq<Seq<char>>) -> Seq<char> {
    REPORT_SEPARATOR@ + error + "\n"@ + causes_text(causes) + "\n"@ + REPORT_SEPARATOR@
}

/// The text logged for an error: `error` is its debug text, `causes` the debug
/// texts of its sources, nearest first.
pub fn log_error_chain(error: &str, causes: &Vec<String>) -> (r: String)
    ensures
        r@ == error_chain_report(error@, causes@.map_values(|s: String| s@)),
{
    let ghost views = causes@.map_values(|s: String| s@);
    let mut report = REPORT_SEPARATOR.to_string();
    report.append(error);
    report.append("\n");
    let n = causes.len();
    let mut i: usize = 0;
    while i < n
        invariant
            n == causes@.len(),
            views == causes@.map_values(|s: String| s@),
            i <= n,
            report@ == REPORT_SEPARATOR@ + error@ + "\n"@ + causes_text(views.subrange(0, i as int)),
        decreases n - i,
    {
        report.append("\n");
        report.append("Caused by:\n\n");
        report.append(causes[i].as_str());
        proof {
            assert(views.subrange(0, i + 1).drop_last() =~= views.subrange(0, i as int));
            assert(views.subrange(0, i + 1).last() == causes@[i as int]@);
        }
        i = i + 1;
    }
    assert(views.subrange(0, n as int) =~= views);
    report.append("\n");
    report.append(REPORT_SEPARATOR);
    report
}

} // verus!
