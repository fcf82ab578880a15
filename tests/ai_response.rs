use sway_playground::ai_response::{
    parse_code_generation_response, parse_error_analysis_response, strip_code_blocks,
    ANALYSIS_SUGGESTIONS, DEFAULT_EXPLANATION, GENERATION_SUGGESTIONS,
};

#[test]
fn code_and_explanation_are_split() {
    let r = parse_code_generation_response("Intro\n```sway\ncontract;\n```\nOutro").unwrap();
    assert_eq!(r.code, "contract;");
    assert_eq!(r.explanation, "Intro\n\nOutro");
    assert_eq!(r.suggestions, GENERATION_SUGGESTIONS.map(String::from).to_vec());
}

#[test]
fn answer_without_block_is_all_code() {
    let r = parse_code_generation_response("  just text  ").unwrap();
    assert_eq!(r.code, "  just text  ");
    assert_eq!(r.explanation, "just text");
}

#[test]
fn answer_with_only_code_gets_stock_explanation() {
    let r = parse_code_generation_response("```rust\nfn a() {}```\n").unwrap();
    assert_eq!(r.code, "fn a() {}");
    assert_eq!(r.explanation, DEFAULT_EXPLANATION);
    assert_eq!(DEFAULT_EXPLANATION, "Generated Sway smart contract");
}

#[test]
fn untagged_block_is_found() {
    let r = parse_code_generation_response("a```\n x \n```b").unwrap();
    assert_eq!(r.code, "x");
    assert_eq!(r.explanation, "ab");
}

#[test]
fn tag_without_line_break_opens_no_block() {
    let text = "```sway x\nA```";
    let r = parse_code_generation_response(text).unwrap();
    assert_eq!(r.code, text);
    assert_eq!(strip_code_blocks(text), text);
}

#[test]
fn unclosed_block_is_no_block() {
    let r = parse_error_analysis_response("see ```\nabc").unwrap();
    assert_eq!(r.fixed_code, None);
    assert_eq!(r.analysis, "see ```\nabc");
}

#[test]
fn first_of_several_blocks_is_taken_and_all_are_stripped() {
    let text = "x```sway\none```y```\ntwo```z";
    let r = parse_code_generation_response(text).unwrap();
    assert_eq!(r.code, "one");
    assert_eq!(r.explanation, "xyz");
    assert_eq!(strip_code_blocks(""), "");
}

#[test]
fn error_analysis_keeps_answer_and_fixed_code() {
    let text = "Missing semicolon.\n```sway\ncontract;\nfn f() {}\n```";
    let r = parse_error_analysis_response(text).unwrap();
    assert_eq!(r.analysis, text);
    assert_eq!(r.fixed_code.as_deref(), Some("contract;\nfn f() {}"));
    assert_eq!(r.suggestions, ANALYSIS_SUGGESTIONS.map(String::from).to_vec());
}

#[test]
fn non_ascii_text_around_blocks() {
    let r = parse_code_generation_response("héllo ```\nça```\u{3000}").unwrap();
    assert_eq!(r.code, "ça");
    assert_eq!(r.explanation, "héllo");
}
