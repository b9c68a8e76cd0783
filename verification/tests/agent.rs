use athena::agent::{AIAgent, AIAgentBuilder};

#[test]
fn test_builder() {
    let agent = AIAgent::builder();
    // Just verify it creates a builder without panicking
    assert!(agent.build().budget.remaining() > 0);
}

#[test]
fn test_model() {
    let agent = AIAgentBuilder::new()
        .model("test-model")
        .build();
    assert_eq!(agent.model(), "test-model");
}

use athena::agent::{DEFAULT_CONTEXT_TOKENS, DEFAULT_MAX_ITERATIONS, DEFAULT_MODEL};
use athena::budget::IterationBudget;

#[test]
fn builder_defaults() {
    let agent = AIAgent::builder().build();
    assert_eq!(agent.model(), DEFAULT_MODEL);
    assert_eq!(agent.base_url(), None);
    assert_eq!(agent.api_key(), None);
    assert_eq!(agent.budget.remaining(), DEFAULT_MAX_ITERATIONS);
    assert_eq!(agent.config.context_limit(), DEFAULT_CONTEXT_TOKENS);
    assert!(agent.logger.is_none());
}

#[test]
fn builder_settings_reach_the_agent() {
    let agent = AIAgentBuilder::new()
        .model("gpt-4o")
        .base_url("http://localhost:1234".to_string())
        .api_key("fake-key")
        .max_iterations(2)
        .max_tokens(50)
        .build();
    assert_eq!(agent.model(), "gpt-4o");
    assert_eq!(agent.base_url(), Some("http://localhost:1234"));
    assert_eq!(agent.api_key(), Some("fake-key"));
    assert_eq!(agent.budget.remaining(), 2);
    assert_eq!(agent.config.context_limit(), 50);
}

#[test]
fn budget_grants_exactly_its_iterations() {
    let mut b = IterationBudget::new(3);
    assert!(b.consume());
    assert!(b.consume());
    assert!(b.consume());
    assert_eq!(b.remaining(), 0);
    assert!(!b.consume());
    assert_eq!(b.remaining(), 0);
}

#[test]
fn empty_budget_grants_nothing() {
    let mut b = IterationBudget::new(0);
    assert!(!b.consume());
}

#[test]
fn cancelled_budget_grants_nothing() {
    let mut b = IterationBudget::new(20);
    assert!(b.consume());
    b.cancel();
    assert_eq!(b.remaining(), 0);
    assert!(!b.consume());
}

#[test]
fn batch_headings_count_from_one() {
    let b = athena::agent::BatchConfig { prompts: vec!["a".to_string(), "b c".to_string()] };
    assert_eq!(b.heading(0), "Batch 1/2: a");
    assert_eq!(b.heading(1), "Batch 2/2: b c");
}
