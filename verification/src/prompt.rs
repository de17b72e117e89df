//! The prompt: the findings that are reported, one line for each, set into
//! the wording for the file's language.

use crate::error::ValidationError;
use crate::text::{decimal, push_decimal, str_eq};
use vstd::prelude::*;
use vstd::seq_lib::lemma_flatten_concat;
use vstd::string::StringExecFns;

verus! {

/// A finding as the contracts see it: the line, the identifier of the
/// vulnerability and the severity label. The fourth field of a finding is
/// not read.
pub struct FindingView {
    pub line: nat,
    pub vulnerability_id: Seq<char>,
    pub severity: Seq<char>,
}

/// The view of one finding.
pub open spec fn finding_view(finding: (usize, String, String, String)) -> FindingView {
    FindingView {
        line: finding.0 as nat,
        vulnerability_id: finding.1@,
        severity: finding.2@,
    }
}

/// The views of a list of findings, in order.
pub open spec fn finding_views(findings: Seq<(usize, String, String, String)>) -> Seq<
    FindingView,
> {
    findings.map_values(|finding: (usize, String, String, String)| finding_view(finding))
}

/// A finding of this severity is reported: every finding when `all` is set,
/// else those of severity `Critical` or `High`.
pub open spec fn is_reported(severity: Seq<char>, all: bool) -> bool {
    all || severity == "Critical"@ || severity == "High"@
}

/// The test that `reported` filters by.
pub open spec fn reported_test(all: bool) -> spec_fn(FindingView) -> bool {
    |finding: FindingView| is_reported(finding.severity, all)
}

/// The findings that are reported, in their original order.
pub open spec fn reported(findings: Seq<FindingView>, all: bool) -> Seq<FindingView> {
    findings.filter(reported_test(all))
}

/// The line that stands for one finding in the findings list.
pub open spec fn finding_line(finding: FindingView) -> Seq<char> {
    "line "@ + decimal(finding.line) + ": "@ + finding.vulnerability_id + "\n"@
}

/// `finding_line` as a function value.
pub open spec fn line_of() -> spec_fn(FindingView) -> Seq<char> {
    |finding: FindingView| finding_line(finding)
}

/// The findings list: the lines of the reported findings, one after the
/// other.
pub open spec fn findings_text(findings: Seq<FindingView>, all: bool) -> Seq<char> {
    reported(findings, all).flat_map(line_of())
}

/// One more finding adds its line to the findings list if it is reported,
/// and nothing if it is not.
pub proof fn lemma_findings_text_push(findings: Seq<FindingView>, finding: FindingView, all: bool)
    ensures
        findings_text(findings.push(finding), all) == if is_reported(finding.severity, all) {
            findings_text(findings, all) + finding_line(finding)
        } else {
            findings_text(findings, all)
        },
{
    let kept = reported(findings, all);
    findings.lemma_filter_push(finding, reported_test(all));
    if is_reported(finding.severity, all) {
        kept.lemma_push_map_commute(line_of(), finding);
        kept.map_values(line_of()).lemma_flatten_push(finding_line(finding));
    }
}

/// Whether a finding of this severity is reported.
pub fn severity_is_reported(severity: &str, all: bool) -> (kept: bool)
    ensures
        kept == is_reported(severity@, all),
{
    all || str_eq(severity, "Critical") || str_eq(severity, "High")
}

/// The findings list for `findings`: for each finding that is reported, in
/// the order given, the line `line N: ID` and a line feed.
pub fn build_findings_list(findings: &[(usize, String, String, String)], all: bool) -> (list:
    String)
    ensures
        list@ == findings_text(finding_views(findings@), all),
{
    let mut list = String::new();
    let n: usize = findings.len();
    let mut i: usize = 0;
    proof {
        assert(finding_views(findings@.take(0)) =~= Seq::<FindingView>::empty());
        reveal(Seq::filter);
        assert(findings_text(Seq::<FindingView>::empty(), all) =~= Seq::<char>::empty());
    }
    while i < n
        invariant
            n == findings@.len(),
            i <= n,
            list@ == findings_text(finding_views(findings@.take(i as int)), all),
        decreases n - i,
    {
        let finding = &findings[i];
        let ghost before = list@;
        let ghost seen = finding_views(findings@.take(i as int));
        if severity_is_reported(finding.2.as_str(), all) {
            list.append("line ");
            push_decimal(&mut list, finding.0);
            list.append(": ");
            list.append(finding.1.as_str());
            list.append("\n");
            assert(list@ =~= before + finding_line(finding_view(*finding)));
        }
        proof {
            assert(finding_views(findings@.take(i + 1)) =~= seen.push(finding_view(*finding)));
            lemma_findings_text_push(seen, finding_view(*finding), all);
        }
        i += 1;
    }
    assert(findings@.take(n as int) =~= findings@);
    list
}

/// The name under which a language stands in the prompt, for the language
/// tags that are supported.
pub open spec fn dialect_of(language: Seq<char>) -> Option<Seq<char>> {
    if language == "Rust"@ {
        Some("Rust"@)
    } else if language == "Solidity-Ethereum"@ {
        Some("Solidity"@)
    } else {
        None
    }
}

/// The prompt for a file in the language named `dialect`.
pub open spec fn prompt_text(dialect: Seq<char>, source: Seq<char>, findings: Seq<char>) -> Seq<
    char,
> {
    "A SAST tool detects potential "@ + dialect
        + " vulnerabilities in the following file:\n\nSource code:\n"@ + source
        + "\n\nFindings list:\n"@ + findings
        + "\n\nAre these valid vulnerabilities or false positives? Provide an explanation."@
}

/// The prompt that is asked of the model about a file, or
/// `UnsupportedLanguage` for a language tag that is not supported.
pub open spec fn prompt_for(
    language: Seq<char>,
    source: Seq<char>,
    findings: Seq<FindingView>,
    all: bool,
) -> Result<Seq<char>, ValidationError> {
    match dialect_of(language) {
        Some(dialect) => Ok(prompt_text(dialect, source, findings_text(findings, all))),
        None => Err(ValidationError::UnsupportedLanguage),
    }
}

/// The name under which the language stands in the prompt, or `None` for a
/// language tag that is not supported.
pub fn dialect(language: &str) -> (name: Option<&'static str>)
    ensures
        dialect_of(language@) == match name {
            Some(text) => Some(text@),
            None => None,
        },
{
    if str_eq(language, "Rust") {
        Some("Rust")
    } else if str_eq(language, "Solidity-Ethereum") {
        Some("Solidity")
    } else {
        None
    }
}

/// The prompt for a file in the language named `dialect`, with the file's
/// text and the findings list set in.
pub fn fill_prompt(dialect: &str, file_content: &str, findings_list: &str) -> (prompt: String)
    ensures
        prompt@ == prompt_text(dialect@, file_content@, findings_list@),
{
    let mut prompt = String::from_str("A SAST tool detects potential ");
    prompt.append(dialect);
    prompt.append(" vulnerabilities in the following file:\n\nSource code:\n");
    prompt.append(file_content);
    prompt.append("\n\nFindings list:\n");
    prompt.append(findings_list);
    prompt.append(
        "\n\nAre these valid vulnerabilities or false positives? Provide an explanation.",
    );
    prompt
}

/// The prompt about a file: fails on a language tag that is not supported,
/// and else reports the findings that `all` lets through.
pub fn build_prompt(
    findings: &[(usize, String, String, String)],
    file_content: &str,
    language: &str,
    all: bool,
) -> (prompt: Result<String, ValidationError>)
    ensures
        prompt_for(language@, file_content@, finding_views(findings@), all) == match prompt {
            Ok(text) => Ok(text@),
            Err(error) => Err(error),
        },
{
    match dialect(language) {
        Some(name) => {
            let list = build_findings_list(findings, all);
            Ok(fill_prompt(name, file_content, list.as_str()))
        },
        None => Err(ValidationError::UnsupportedLanguage),
    }
}

/// With every severity let through, every finding is reported.
pub proof fn lemma_all_severities_report_every_finding(findings: Seq<FindingView>)
    ensures
        reported(findings, true) == findings,
    decreases findings.len(),
{
    reveal(Seq::filter);
    if findings.len() > 0 {
        lemma_all_severities_report_every_finding(findings.drop_last());
        assert(findings.drop_last().push(findings.last()) =~= findings);
    }
}

/// Without that, the findings reported are those of severity `Critical` or
/// `High`: each reported finding has one of the two, and each finding that
/// has one of the two is reported.
pub proof fn lemma_only_critical_and_high_reported(findings: Seq<FindingView>)
    ensures
        forall|i: int|
            0 <= i < reported(findings, false).len() ==> {
                let severity = (#[trigger] reported(findings, false)[i]).severity;
                severity == "Critical"@ || severity == "High"@
            },
        forall|i: int|
            0 <= i < findings.len() && (findings[i].severity == "Critical"@ || findings[i].severity
                == "High"@) ==> reported(findings, false).contains(#[trigger] findings[i]),
{
    let test = reported_test(false);
    assert forall|i: int| 0 <= i < reported(findings, false).len() implies {
        let severity = (#[trigger] reported(findings, false)[i]).severity;
        severity == "Critical"@ || severity == "High"@
    } by {
        findings.lemma_filter_pred(test, i);
    }
    assert forall|i: int|
        0 <= i < findings.len() && (findings[i].severity == "Critical"@ || findings[i].severity
            == "High"@) implies reported(findings, false).contains(#[trigger] findings[i]) by {
        findings.lemma_filter_contains(test, i);
    }
}

/// The findings list keeps the order of the findings: the list for two runs
/// of findings, one after the other, is the list for the first followed by
/// the list for the second.
pub proof fn lemma_findings_text_concat(
    first: Seq<FindingView>,
    second: Seq<FindingView>,
    all: bool,
)
    ensures
        findings_text(first + second, all) == findings_text(first, all) + findings_text(
            second,
            all,
        ),
{
    let kept_first = reported(first, all);
    let kept_second = reported(second, all);
    Seq::filter_distributes_over_add(first, second, reported_test(all));
    assert((kept_first + kept_second).map_values(line_of()) =~= kept_first.map_values(line_of())
        + kept_second.map_values(line_of()));
    lemma_flatten_concat(kept_first.map_values(line_of()), kept_second.map_values(line_of()));
}

/// A language tag other than `Rust` and `Solidity-Ethereum` gets no prompt:
/// the outcome is `UnsupportedLanguage`, whatever the other inputs are.
pub proof fn lemma_unsupported_language_gets_no_prompt(
    language: Seq<char>,
    source: Seq<char>,
    findings: Seq<FindingView>,
    all: bool,
)
    requires
        language != "Rust"@,
        language != "Solidity-Ethereum"@,
    ensures
        prompt_for(language, source, findings, all) == Err::<Seq<char>, ValidationError>(
            ValidationError::UnsupportedLanguage,
        ),
{
}

/// The two supported language tags get a prompt.
pub proof fn lemma_supported_language_gets_prompt(
    language: Seq<char>,
    source: Seq<char>,
    findings: Seq<FindingView>,
    all: bool,
)
    requires
        language == "Rust"@ || language == "Solidity-Ethereum"@,
    ensures
        prompt_for(language, source, findings, all) is Ok,
{
}

} // verus!
