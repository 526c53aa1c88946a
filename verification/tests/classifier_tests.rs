use agent_cluster::classifier::{classify, Classifier, RoutingDecision};
use agent_cluster::text::{contains, is_blank, same_text, starts_with, strip_prefix, white_space};

#[test]
fn plain_question_is_a_user_query() {
    assert_eq!(classify("What does the ECG show?"), RoutingDecision::UserQuery);
}

#[test]
fn empty_text_is_a_user_query() {
    assert_eq!(classify(""), RoutingDecision::UserQuery);
}

#[test]
fn report_heading_marks_an_agent_result() {
    assert_eq!(classify("### Camera Analysis Result\nall clear"), RoutingDecision::AgentResult);
}

#[test]
fn heading_without_its_space_is_no_marker() {
    assert_eq!(classify("###Camera"), RoutingDecision::UserQuery);
}

#[test]
fn heading_in_the_middle_is_no_marker() {
    assert_eq!(classify("see ### here"), RoutingDecision::UserQuery);
}

#[test]
fn each_phrase_marks_an_agent_result() {
    for phrase in [
        "Analysis Report",
        "Key Insights",
        "Strategic Recommendations",
        "Executive Summary",
        "RESEARCH DATA FOR ANALYSIS",
    ] {
        let text = format!("intro {} outro", phrase);
        assert_eq!(classify(&text), RoutingDecision::AgentResult);
    }
}

#[test]
fn phrases_are_case_sensitive() {
    assert_eq!(classify("key insights follow"), RoutingDecision::UserQuery);
}

#[test]
fn classification_is_repeatable() {
    let text = "Please give me the Executive Summary";
    assert_eq!(classify(text), classify(text));
    assert_eq!(classify(text), RoutingDecision::AgentResult);
}

#[test]
fn configured_markers_are_used() {
    let c = Classifier::new("REPORT:".to_string(), vec!["done".to_string()]);
    assert_eq!(c.classify("REPORT: fine"), RoutingDecision::AgentResult);
    assert_eq!(c.classify("it is done now"), RoutingDecision::AgentResult);
    assert_eq!(c.classify("### heading"), RoutingDecision::UserQuery);
}

#[test]
fn standard_classifier_matches_free_function() {
    let c = Classifier::standard();
    assert_eq!(c.heading, "### ");
    assert_eq!(c.phrases.len(), 5);
    assert_eq!(c.classify("Key Insights"), classify("Key Insights"));
}

#[test]
fn non_ascii_text_is_searched_by_character() {
    assert_eq!(classify("résumé — Key Insights ✓"), RoutingDecision::AgentResult);
    assert_eq!(classify("résumé ✓"), RoutingDecision::UserQuery);
}

#[test]
fn search_agrees_with_std() {
    let hays = ["", "a", "abc", "aaa", "abcabc", "héllo wörld", "### x", "xx###  "];
    let needles = ["", "a", "bc", "aa", "cab", "ö", "### ", "d"];
    for h in hays {
        for n in needles {
            assert_eq!(contains(h, n), h.contains(n), "contains({:?}, {:?})", h, n);
            assert_eq!(starts_with(h, n), h.starts_with(n), "starts_with({:?}, {:?})", h, n);
            assert_eq!(
                strip_prefix(h, n),
                h.strip_prefix(n).map(|r| r.to_string()),
                "strip_prefix({:?}, {:?})",
                h,
                n
            );
            assert_eq!(same_text(h, n), h == n);
        }
    }
}

#[test]
fn white_space_agrees_with_std_on_every_char() {
    let mut code: u32 = 0;
    while code <= 0x10FFFF {
        if let Some(c) = char::from_u32(code) {
            assert_eq!(white_space(c), c.is_whitespace(), "U+{:04X}", code);
        }
        code += 1;
    }
}

#[test]
fn blank_agrees_with_trim() {
    for s in ["", " ", "\t\n", " a ", "\u{3000}", "\u{200B}", "x"] {
        assert_eq!(is_blank(s), s.trim().is_empty(), "{:?}", s);
    }
}
