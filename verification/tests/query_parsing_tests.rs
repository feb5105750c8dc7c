use shodh_memory::query_parsing::{
    create_parser, select_parser, ParserConfig, ParserType, SelectedParser, LLM_PARSER_ENABLED,
};

#[test]
fn default_config_is_rule_based() {
    let c = ParserConfig::default();
    assert_eq!(c.parser_type, ParserType::RuleBased);
    assert!(c.llm_endpoint.is_none());
    assert!(c.llm_model.is_none());
    assert_eq!(ParserType::default(), ParserType::RuleBased);
}

#[test]
fn rule_based_config_equals_default() {
    let c = ParserConfig::rule_based();
    assert_eq!(c.parser_type, ParserType::RuleBased);
    assert!(c.llm_endpoint.is_none());
    assert!(c.llm_model.is_none());
}

#[test]
fn llm_config_names_endpoint_and_model() {
    let c = ParserConfig::llm("http://localhost:11434".to_string(), "qwen2.5:1.5b".to_string());
    assert_eq!(c.parser_type, ParserType::Llm);
    assert_eq!(c.llm_endpoint.as_deref(), Some("http://localhost:11434"));
    assert_eq!(c.llm_model.as_deref(), Some("qwen2.5:1.5b"));
}

#[test]
fn create_parser_rule_based() {
    assert!(matches!(create_parser(ParserConfig::rule_based()), SelectedParser::RuleBased));
}

#[test]
fn create_parser_llm_falls_back_without_llm_support() {
    assert!(!LLM_PARSER_ENABLED);
    let c = ParserConfig::llm("http://h".to_string(), "m".to_string());
    assert!(matches!(create_parser(c), SelectedParser::RuleBased));
}

#[test]
fn select_parser_with_llm_support() {
    let c = ParserConfig::llm("http://h:1".to_string(), "model-x".to_string());
    match select_parser(c, true) {
        SelectedParser::Llm { endpoint, model } => {
            assert_eq!(endpoint, "http://h:1");
            assert_eq!(model, "model-x");
        }
        other => panic!("expected the LLM parser, got {:?}", other),
    }
    assert!(matches!(select_parser(ParserConfig::rule_based(), true), SelectedParser::RuleBased));
    let c = ParserConfig::llm("e".to_string(), "m".to_string());
    assert!(matches!(select_parser(c, false), SelectedParser::RuleBased));
}
