//! Decisions of the load-generating and reporting clients.

use vstd::prelude::*;
use vstd::string::*;

use crate::server::{model_30x30, model_60x60};
use crate::text::{contains_str, has_substring};

verus! {

/// The model a signal file belongs to: the large model when its name
/// mentions `60x60`, the small one otherwise.
pub open spec fn signal_model(file_name: Seq<char>) -> Seq<char> {
    if has_substring(file_name, model_60x60()) {
        model_60x60()
    } else {
        model_30x30()
    }
}

/// What `str::to_lowercase` gives for `s`.
pub uninterp spec fn std_to_lowercase(s: Seq<char>) -> Seq<char>;

/// `str::to_lowercase`. The contract only ties the result to the name
/// `std_to_lowercase`; the Unicode case mapping is left unsaid.
#[verifier::external_body]
fn lowercase(s: &str) -> (r: String)
    ensures
        r@ == std_to_lowercase(s@),
{
    s.to_lowercase()
}

fn model_text(large: bool) -> (m: &'static str)
    ensures
        m@ == if large { model_60x60() } else { model_30x30() },
{
    proof {
        reveal_strlit("60x60");
        reveal_strlit("30x30");
    }
    if large {
        assert("60x60"@ =~= model_60x60());
        "60x60"
    } else {
        assert("30x30"@ =~= model_30x30());
        "30x30"
    }
}

/// The model id the load generator sends with a signal file, judged by the
/// file name as written.
pub fn model_for_signal_file(file_name: &str) -> (m: &'static str)
    ensures
        m@ == signal_model(file_name@),
{
    proof {
        reveal_strlit("60x60");
    }
    assert("60x60"@ =~= model_60x60());
    model_text(contains_str(file_name, "60x60"))
}

/// The model id the report client sends with a signal file, judged by the
/// file name in lower case.
pub fn model_for_report_file(file_name: &str) -> (m: &'static str)
    ensures
        m@ == signal_model(std_to_lowercase(file_name@)),
{
    let lower = lowercase(file_name);
    model_for_signal_file(lower.as_str())
}

} // verus!
