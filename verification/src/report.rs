use vstd::prelude::*;

use crate::numfmt::all_dec_digits;
use crate::numfmt::dec_rep;
use crate::numfmt::lemma_dec_rep_digits;
use crate::numfmt::push_char;
use crate::numfmt::u64_to_string;
use crate::outcome::CheckOutcome;
use crate::outcome::CheckStatus;
use crate::outcome::ResultSet;

verus! {

/// `msg` with every double quote replaced by a single quote: enough to
/// keep the rendered report well-formed without a full escaping pass.
pub open spec fn sanitized(msg: Seq<char>) -> Seq<char> {
    msg.map_values(|c: char| if c == '"' { '\'' } else { c })
}

/// The JSON rendering of a status: a bare integer for `Success`, a
/// quoted string (with double quotes replaced) for `Failure`.
pub open spec fn status_json(status: CheckStatus) -> Seq<char> {
    match status {
        CheckStatus::Success(code) => dec_rep(code as nat),
        CheckStatus::Failure(msg) => seq!['"'] + sanitized(msg@) + seq!['"'],
    }
}

/// The JSON object rendered for one outcome, with exactly the fields
/// `url`, `status`, `response_time_ms` and `timestamp`.
pub open spec fn entry_json(outcome: CheckOutcome) -> Seq<char> {
    "  {\n    \"url\": \""@ + outcome.url@ + "\",\n    \"status\": "@ + status_json(outcome.status)
        + ",\n    \"response_time_ms\": "@ + dec_rep(outcome.elapsed_ms as nat)
        + ",\n    \"timestamp\": "@ + dec_rep(outcome.timestamp_secs as nat) + "\n  }"@
}

/// What follows entry `i` of `len`: a comma between entries, a bare
/// newline after the last one.
pub open spec fn entry_sep(len: int, i: int) -> Seq<char> {
    if i == len - 1 {
        "\n"@
    } else {
        ",\n"@
    }
}

/// The rendering of the first `i` entries, each with its separator.
pub open spec fn entries_json_prefix(results: Seq<CheckOutcome>, i: int) -> Seq<char>
    recommends
        0 <= i <= results.len(),
    decreases i,
{
    if i <= 0 {
        Seq::empty()
    } else {
        entries_json_prefix(results, i - 1) + entry_json(results[i - 1]) + entry_sep(
            results.len() as int,
            i - 1,
        )
    }
}

/// The full JSON report: an array with one object per outcome, in
/// result order.
pub open spec fn report_json(results: Seq<CheckOutcome>) -> Seq<char> {
    "[\n"@ + entries_json_prefix(results, results.len() as int) + "]"@
}

/// The rendered status value tells the outcome apart: for `Success` it
/// is a bare integer of decimal digits; for `Failure` it is a quoted
/// string whose interior holds no double quote, so the quotes around it
/// are unambiguous.
pub proof fn lemma_status_json_shape(status: CheckStatus)
    ensures
        status matches CheckStatus::Success(code) ==> status_json(status) == dec_rep(code as nat)
            && all_dec_digits(status_json(status)) && status_json(status).len() >= 1,
        status matches CheckStatus::Failure(msg) ==> {
            &&& status_json(status).len() >= 2
            &&& status_json(status)[0] == '"'
            &&& status_json(status).last() == '"'
            &&& forall|i: int|
                0 < i < status_json(status).len() - 1 ==> #[trigger] status_json(status)[i] != '"'
        },
{
    match status {
        CheckStatus::Success(code) => {
            lemma_dec_rep_digits(code as nat);
        },
        CheckStatus::Failure(msg) => {
            let rendered = status_json(status);
            assert forall|i: int| 0 < i < rendered.len() - 1 implies #[trigger] rendered[i]
                != '"' by {
                assert(rendered[i] == sanitized(msg@)[i - 1]);
            }
        },
    }
}

/// Replaces every double quote of an error message by a single quote.
pub fn sanitize_message(msg: &String) -> (r: String)
    ensures
        r@ == sanitized(msg@),
{
    let mut r = String::new();
    let n = msg.as_str().unicode_len();
    let mut i: usize = 0;
    while i < n
        invariant
            i <= n,
            n == msg@.len(),
            r@ =~= sanitized(msg@.take(i as int)),
        decreases n - i,
    {
        let c = msg.as_str().get_char(i);
        if c == '"' {
            push_char(&mut r, '\'');
        } else {
            push_char(&mut r, c);
        }
        i = i + 1;
        proof {
            assert(r@ =~= sanitized(msg@.take(i as int)));
        }
    }
    proof {
        assert(msg@.take(n as int) =~= msg@);
    }
    r
}

/// Renders one status as its JSON value.
pub fn render_status(status: &CheckStatus) -> (r: String)
    ensures
        r@ == status_json(*status),
{
    match status {
        CheckStatus::Success(code) => u64_to_string(*code as u64),
        CheckStatus::Failure(msg) => {
            let mut r = String::new();
            push_char(&mut r, '"');
            let body = sanitize_message(msg);
            r.append(body.as_str());
            push_char(&mut r, '"');
            proof {
                assert(r@ =~= status_json(*status));
            }
            r
        },
    }
}

/// Renders the JSON object for one outcome.
pub fn render_entry(outcome: &CheckOutcome) -> (r: String)
    ensures
        r@ == entry_json(*outcome),
{
    let mut r = String::new();
    r.append("  {\n    \"url\": \"");
    r.append(outcome.url.as_str());
    r.append("\",\n    \"status\": ");
    let status = render_status(&outcome.status);
    r.append(status.as_str());
    r.append(",\n    \"response_time_ms\": ");
    let elapsed = u64_to_string(outcome.elapsed_ms);
    r.append(elapsed.as_str());
    r.append(",\n    \"timestamp\": ");
    let stamp = u64_to_string(outcome.timestamp_secs);
    r.append(stamp.as_str());
    r.append("\n  }");
    proof {
        assert(r@ =~= entry_json(*outcome));
    }
    r
}

/// Renders the sealed result set as the report's JSON array, one object
/// per outcome, in result-set order.
pub fn render_report(results: &ResultSet) -> (r: String)
    ensures
        r@ == report_json(results@),
{
    let entries = results.entries();
    let n = entries.len();
    let mut r = String::new();
    r.append("[\n");
    let mut i: usize = 0;
    while i < n
        invariant
            i <= n,
            n == entries@.len(),
            entries@ == results@,
            r@ =~= "[\n"@ + entries_json_prefix(entries@, i as int),
        decreases n - i,
    {
        let rendered = render_entry(&entries[i]);
        r.append(rendered.as_str());
        if i + 1 < n {
            r.append(",\n");
        } else {
            r.append("\n");
        }
        i = i + 1;
        proof {
            assert(r@ =~= "[\n"@ + entries_json_prefix(entries@, i as int));
        }
    }
    r.append("]");
    proof {
        assert(r@ =~= report_json(results@));
    }
    r
}

} // verus!
