//! Natural-language requests where script-style JSON is the expected proposal shape.

/// Parse multi-line CSV and print column sums.
pub const SCENARIO_CSV_AGGREGATE: &str =
    "Sum the third column of data.csv where the first column starts with 'A' and print one total per group.";

/// JSON transform with error handling.
pub const SCENARIO_NESTED_JSON_TRANSFORM: &str =
    "Read package.json, double every numeric dependency version patch component, and write to stdout as formatted JSON.";

/// Cross-platform path logic.
pub const SCENARIO_PATH_REWRITE: &str =
    "Walk the current directory tree, find files named '*.bak', and print their paths with the .bak removed from the name.";

/// Algorithmic task with loop state.
pub const SCENARIO_FIZZBUZZ_STYLE: &str =
    "Print numbers 1 through 100, but for multiples of 3 print 'fizz', multiples of 5 'buzz', both 'fizzbuzz'.";

/// Ruby one-off text munging.
pub const SCENARIO_RUBY_TEXT: &str =
    "Read stdin, replace every occurrence of the word 'TODO' with 'DONE' case-sensitively, write to stdout.";

#[test]
fn golden_scenario_strings_are_nonempty() {
    for (name, s) in [
        ("csv", SCENARIO_CSV_AGGREGATE),
        ("json", SCENARIO_NESTED_JSON_TRANSFORM),
        ("paths", SCENARIO_PATH_REWRITE),
        ("fizz", SCENARIO_FIZZBUZZ_STYLE),
        ("ruby", SCENARIO_RUBY_TEXT),
    ] {
        assert!(s.len() > 20, "scenario {name} should be a substantive prompt");
    }
    let _ = clai::schema::CommandProposal::schema_json();
}
