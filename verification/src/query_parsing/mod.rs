//! Selection of the query parser implementation.
//!
//! A query is parsed either by the rule-based parser (keyword extraction,
//! regular expressions, heuristics) or by an LLM served over HTTP. This module
//! holds the configuration and decides, from a configuration, which of the two
//! parsers is built and with which endpoint and model.
use vstd::prelude::*;

verus! {

/// Whether the LLM-backed parser is part of this build. When it is not, a
/// configuration that asks for it falls back to the rule-based parser.
pub const LLM_PARSER_ENABLED: bool = false;

/// Parser implementation type.
#[derive(Debug, Clone, Copy, PartialEq, Eq, Structural)]
pub enum ParserType {
    /// Rule-based parsing using keyword extraction, regex, and heuristics (default).
    RuleBased,
    /// LLM-based parsing through an HTTP-served model.
    Llm,
}

impl Default for ParserType {
    fn default() -> (t: Self)
        ensures
            t == ParserType::RuleBased,
    {
        ParserType::RuleBased
    }
}

/// Configuration for the query parser.
#[derive(Debug, Clone)]
pub struct ParserConfig {
    /// Which parser implementation to use.
    pub parser_type: ParserType,
    /// HTTP endpoint for the LLM server. Only used when `parser_type == Llm`.
    pub llm_endpoint: Option<String>,
    /// Model name to request from the LLM server. Only used when `parser_type == Llm`.
    pub llm_model: Option<String>,
}

/// The configuration that selects the rule-based parser and names no LLM.
pub open spec fn is_rule_based_config(config: ParserConfig) -> bool {
    &&& config.parser_type == ParserType::RuleBased
    &&& config.llm_endpoint is None
    &&& config.llm_model is None
}

impl Default for ParserConfig {
    fn default() -> (config: Self)
        ensures
            is_rule_based_config(config),
    {
        ParserConfig { parser_type: ParserType::RuleBased, llm_endpoint: None, llm_model: None }
    }
}

impl ParserConfig {
    /// Create config for the rule-based parser (the same as the default).
    pub fn rule_based() -> (config: Self)
        ensures
            is_rule_based_config(config),
    {
        Self::default()
    }

    /// Create config for the LLM parser pointing at an HTTP-served model.
    pub fn llm(endpoint: String, model: String) -> (config: Self)
        ensures
            config.parser_type == ParserType::Llm,
            config.llm_endpoint == Some(endpoint),
            config.llm_model == Some(model),
    {
        ParserConfig {
            parser_type: ParserType::Llm,
            llm_endpoint: Some(endpoint),
            llm_model: Some(model),
        }
    }
}

/// The parser that a configuration leads to.
#[derive(Debug, Clone)]
pub enum SelectedParser {
    /// The rule-based parser.
    RuleBased,
    /// The LLM parser, talking to `model` at `endpoint`.
    Llm { endpoint: String, model: String },
}

/// Which parser `config` selects in a build where the LLM parser is
/// available (`llm_enabled`) or not.
pub open spec fn parser_for(config: ParserConfig, llm_enabled: bool) -> SelectedParser {
    if config.parser_type == ParserType::Llm && llm_enabled {
        SelectedParser::Llm { endpoint: config.llm_endpoint->0, model: config.llm_model->0 }
    } else {
        SelectedParser::RuleBased
    }
}

/// What a build with the LLM parser needs from a configuration: an LLM
/// configuration names both an endpoint and a model.
pub open spec fn llm_config_complete(config: ParserConfig, llm_enabled: bool) -> bool {
    llm_enabled && config.parser_type == ParserType::Llm ==> {
        &&& config.llm_endpoint is Some
        &&& config.llm_model is Some
    }
}

/// Select the parser for `config` in a build where the LLM parser is
/// available or not. In a build without it, an LLM configuration falls back
/// to the rule-based parser.
pub fn select_parser(config: ParserConfig, llm_enabled: bool) -> (parser: SelectedParser)
    requires
        llm_config_complete(config, llm_enabled),
    ensures
        parser == parser_for(config, llm_enabled),
{
    match config.parser_type {
        ParserType::RuleBased => SelectedParser::RuleBased,
        ParserType::Llm => {
            if llm_enabled {
                match (config.llm_endpoint, config.llm_model) {
                    (Some(endpoint), Some(model)) => SelectedParser::Llm { endpoint, model },
                    _ => SelectedParser::RuleBased,
                }
            } else {
                SelectedParser::RuleBased
            }
        },
    }
}

/// Create a parser based on configuration, in this build.
pub fn create_parser(config: ParserConfig) -> (parser: SelectedParser)
    ensures
        parser == parser_for(config, LLM_PARSER_ENABLED),
        !LLM_PARSER_ENABLED ==> parser == SelectedParser::RuleBased,
{
    select_parser(config, LLM_PARSER_ENABLED)
}

} // verus!
