//! Tests for the data model, validation and configuration.

use grok_rust_sdk::chat::{Message, MessageBuilder, Model, Role};
use grok_rust_sdk::config::{
    validate_api_key, validate_max_tokens, validate_messages, validate_stop, ClientBuilder,
};
use grok_rust_sdk::error::GrokError;

#[test]
fn test_model_strings() {
    assert_eq!(Model::Grok4FastReasoning.as_str(), "grok-4-fast-reasoning");
    assert_eq!(Model::Grok4.as_str(), "grok-4");
    assert_eq!(Model::Grok3.as_str(), "grok-3");
    assert_eq!(Model::Grok2.as_str(), "grok-2");
    assert_eq!(Model::Grok1.as_str(), "grok-1");
}

#[test]
fn test_message_creation() {
    let message = Message {
        role: Role::User,
        content: "Hello, world!".to_string(),
        tool_calls: None,
        tool_call_id: None,
        name: None,
    };

    assert_eq!(message.role, Role::User);
    assert_eq!(message.content, "Hello, world!");
}

#[test]
fn test_api_key_validation_empty() {
    let result = validate_api_key("");
    assert!(matches!(result, Err(GrokError::InvalidApiKey(_))));
}

#[test]
fn test_api_key_validation_too_short() {
    let result = validate_api_key("short");
    assert!(matches!(result, Err(GrokError::InvalidApiKey(_))));
}

#[test]
fn test_api_key_validation_placeholder() {
    let result = validate_api_key("your-api-key");
    assert!(matches!(result, Err(GrokError::InvalidApiKey(_))));

    let result = validate_api_key("your-xai-api-key");
    assert!(matches!(result, Err(GrokError::InvalidApiKey(_))));

    let result = validate_api_key("replace-me");
    assert!(matches!(result, Err(GrokError::InvalidApiKey(_))));
}

#[test]
fn test_api_key_validation_invalid_chars() {
    let result = validate_api_key("invalid@key#with$special%chars");
    assert!(matches!(result, Err(GrokError::InvalidApiKey(_))));
}

#[test]
fn test_api_key_validation_whitespace_trim() {
    let result = validate_api_key("  valid-api-key-12345  ");
    assert!(result.is_ok());
    assert_eq!(result.unwrap(), "valid-api-key-12345");
}

#[test]
fn test_model_from_str() {
    assert_eq!(
        Model::from_str("grok-4-fast-reasoning").unwrap(),
        Model::Grok4FastReasoning
    );
    assert_eq!(Model::from_str("grok-4").unwrap(), Model::Grok4);
    assert_eq!(Model::from_str("grok-3").unwrap(), Model::Grok3);
    assert_eq!(Model::from_str("grok-2").unwrap(), Model::Grok2);
    assert_eq!(Model::from_str("grok-1").unwrap(), Model::Grok1);

    // Letter case is ignored.
    assert_eq!(Model::from_str("GROK-4").unwrap(), Model::Grok4);

    // Unknown identifiers are rejected.
    let result = Model::from_str("invalid-model");
    assert!(matches!(result, Err(GrokError::InvalidConfig(_))));
}

#[test]
fn test_message_builder() {
    let msg = Message::user("Hello, world!");
    assert_eq!(msg.role, Role::User);
    assert_eq!(msg.content, "Hello, world!");
    assert!(msg.tool_calls.is_none());

    let sys_msg = Message::system("You are a helpful assistant");
    assert_eq!(sys_msg.role, Role::System);

    let asst_msg = Message::assistant("I'm here to help!");
    assert_eq!(asst_msg.role, Role::Assistant);

    let tool_msg = Message::tool("result", "call-123", "my_tool");
    assert_eq!(tool_msg.role, Role::Tool);
    assert_eq!(tool_msg.tool_call_id, Some("call-123".to_string()));
    assert_eq!(tool_msg.name, Some("my_tool".to_string()));
}

#[test]
fn test_message_builder_pattern() {
    let msg = MessageBuilder::new()
        .role(Role::User)
        .content("Test message")
        .build()
        .unwrap();

    assert_eq!(msg.role, Role::User);
    assert_eq!(msg.content, "Test message");

    // A missing role is rejected.
    let result = MessageBuilder::new().content("Test message").build();
    assert!(matches!(result, Err(GrokError::InvalidConfig(_))));

    // Missing content is rejected.
    let result = MessageBuilder::new().role(Role::User).build();
    assert!(matches!(result, Err(GrokError::InvalidConfig(_))));
}

#[test]
fn test_client_builder() {
    let config = ClientBuilder::new()
        .api_key("valid-api-key-12345")
        .timeout(30_000)
        .max_retries(5)
        .build();

    assert!(config.is_ok());
    let config = config.unwrap();
    assert_eq!(config.api_key, "valid-api-key-12345");
    assert_eq!(config.timeout_ms, Some(30_000));
    assert_eq!(config.max_retries, 5);

    // A missing API key is rejected.
    let result = ClientBuilder::new().timeout(30_000).build();
    assert!(matches!(result, Err(GrokError::InvalidConfig(_))));
}

#[test]
fn test_client_builder_defaults() {
    let config = ClientBuilder::new()
        .api_key("valid-api-key-12345")
        .build()
        .unwrap();
    assert_eq!(config.base_url, "https://api.x.ai/v1");
    assert_eq!(config.max_retries, 3);
    assert_eq!(config.retry_delay_ms, 1000);
    assert_eq!(config.timeout_ms, None);
}

#[test]
fn test_error_display() {
    let err = GrokError::InvalidApiKey("test error".to_string());
    let display = err.message();
    assert!(display.contains("Invalid API key"));

    let err = GrokError::InvalidConfig("config error".to_string());
    let display = err.message();
    assert!(display.contains("Invalid configuration"));

    let err = GrokError::RateLimit {
        retry_after: Some(60),
    };
    let display = err.message();
    assert!(display.contains("Rate limit exceeded"));
    assert!(display.contains("60 seconds"));
}

#[test]
fn test_error_messages_exact() {
    assert_eq!(
        GrokError::Http("refused".to_string()).message(),
        "HTTP request failed: refused"
    );
    assert_eq!(
        GrokError::Json("bad body".to_string()).message(),
        "JSON processing failed: bad body"
    );
    assert_eq!(
        GrokError::Api {
            status: 418,
            message: "teapot".to_string()
        }
        .message(),
        "API error (status 418): teapot"
    );
    assert_eq!(
        GrokError::RateLimit { retry_after: None }.message(),
        "Rate limit exceeded"
    );
    assert_eq!(
        GrokError::Session("gone".to_string()).message(),
        "Session operation failed: gone"
    );
    assert_eq!(
        GrokError::Collection("gone".to_string()).message(),
        "Collection operation failed: gone"
    );
    assert_eq!(
        GrokError::Database("locked".to_string()).message(),
        "Database error: locked"
    );
    assert_eq!(
        GrokError::ToolExecution("boom".to_string()).message(),
        "Tool execution failed: boom"
    );
    assert_eq!(
        GrokError::SchemaValidation("type".to_string()).message(),
        "JSON Schema validation failed: type"
    );
    assert_eq!(
        GrokError::Authentication("denied".to_string()).message(),
        "Authentication failed: denied"
    );
}

#[test]
fn test_chat_options_validation_max_tokens() {
    // A zero output budget is rejected.
    let result = validate_max_tokens(Some(0));
    assert!(matches!(result, Err(GrokError::InvalidConfig(_))));

    // A budget over the service maximum is rejected.
    let result = validate_max_tokens(Some(200_000));
    assert!(matches!(result, Err(GrokError::InvalidConfig(_))));

    assert!(validate_max_tokens(Some(131_072)).is_ok());
    assert!(validate_max_tokens(None).is_ok());
}

#[test]
fn test_chat_options_validation_stop_sequences() {
    let result = validate_stop(&Some(vec![
        "stop1".to_string(),
        "stop2".to_string(),
        "stop3".to_string(),
        "stop4".to_string(),
        "stop5".to_string(),
    ]));
    assert!(matches!(result, Err(GrokError::InvalidConfig(_))));

    assert!(validate_stop(&Some(vec!["stop1".to_string()])).is_ok());
    assert!(validate_stop(&None).is_ok());
}

#[test]
fn test_empty_messages_validation() {
    let messages: Vec<Message> = vec![];
    let result = validate_messages(&messages);
    assert!(matches!(result, Err(GrokError::InvalidConfig(_))));

    assert!(validate_messages(&vec![Message::user("Test")]).is_ok());
}

#[test]
fn test_tool_definition() {
    let params = serde_json::from_str::<serde_json::Value>("{\"type\": \"object\"}").unwrap();
    let tool = grok_rust_sdk::tools::Tool::new("lookup", "Looks a thing up", params);
    assert_eq!(tool.tool_type, "function");
    assert_eq!(tool.function.name, "lookup");
    assert_eq!(tool.function.description, "Looks a thing up");
}
