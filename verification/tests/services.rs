use moro_host::ai::chromadb::{
    collection_json, collection_url, collections_url, create_collection_body, refusal_message,
    resolve_base_url, server_base_url, ChromaCollection, DEFAULT_BASE_URL,
};
use moro_host::ai::llm::{
    authorization, chat_request, chat_url, stream_event_name, stream_events, StreamEvent,
};
use moro_host::database::{Conversation, Message, Model, ModelWithProvider, Provider};
use moro_host::json::Json;

fn message(role: &str, content: &str) -> Message {
    Message {
        id: "m1".to_string(),
        conversation_id: "c1".to_string(),
        role: role.to_string(),
        content: content.to_string(),
        timestamp: "2026-01-01T00:00:00Z".to_string(),
    }
}

fn model() -> ModelWithProvider {
    ModelWithProvider {
        model_id: "id-1".to_string(),
        model_name: "Large".to_string(),
        model_key: "large-v1".to_string(),
        provider_url: "https://api.example.com/v1/".to_string(),
        provider_key: "SECRET-REDACTED".to_string(),
    }
}

#[test]
fn base_url_prefers_the_given_then_the_embedded_address() {
    assert_eq!(DEFAULT_BASE_URL, "http://localhost:8000");
    assert_eq!(resolve_base_url(Some("http://a"), Some("http://b")), "http://a");
    assert_eq!(resolve_base_url(None, Some("http://b")), "http://b");
    assert_eq!(resolve_base_url(None, None), "http://localhost:8000");
}

#[test]
fn server_base_url_names_the_port() {
    assert_eq!(server_base_url(8000), "http://localhost:8000");
    assert_eq!(server_base_url(0), "http://localhost:0");
    assert_eq!(server_base_url(65535), "http://localhost:65535");
}

#[test]
fn collection_addresses_follow_the_api() {
    assert_eq!(collections_url("http://h:1"), "http://h:1/api/v1/collections");
    assert_eq!(collection_url("http://h:1", "docs", "add"), "http://h:1/api/v1/collections/docs/add");
    assert_eq!(collection_url("http://h:1", "docs", "query"), "http://h:1/api/v1/collections/docs/query");
    assert_eq!(collection_url("http://h:1", "docs", ""), "http://h:1/api/v1/collections/docs");
}

#[test]
fn create_collection_body_asks_to_get_or_create() {
    assert_eq!(create_collection_body("docs").to_text(), "{\"get_or_create\":true,\"name\":\"docs\"}");
}

#[test]
fn collection_json_holds_name_and_id() {
    let collection = ChromaCollection { name: "docs".to_string(), id: "42".to_string() };
    assert_eq!(collection_json(&collection), Json::parse("{\"name\":\"docs\",\"id\":\"42\"}").unwrap());
}

#[test]
fn refusal_message_names_status_and_answer() {
    assert_eq!(
        refusal_message("创建集合失败", "500 Internal Server Error", "no"),
        "创建集合失败: 500 Internal Server Error - no"
    );
}

#[test]
fn chat_url_drops_trailing_slashes() {
    assert_eq!(chat_url("https://api.example.com/v1"), "https://api.example.com/v1/chat/completions");
    assert_eq!(chat_url("https://api.example.com/v1///"), "https://api.example.com/v1/chat/completions");
    assert_eq!(chat_url(""), "/chat/completions");
}

#[test]
fn authorization_and_event_name_carry_their_prefix() {
    assert_eq!(authorization("SECRET-REDACTED"), "Bearer SECRET-REDACTED");
    assert_eq!(stream_event_name("c1"), "chat-stream://c1");
}

#[test]
fn chat_request_sends_roles_and_contents_only() {
    let body = chat_request(&model(), &vec![message("user", "hi"), message("assistant", "hello")]);
    assert_eq!(
        body,
        Json::parse("{\"model\":\"large-v1\",\"messages\":[{\"role\":\"user\",\"content\":\"hi\"},{\"role\":\"assistant\",\"content\":\"hello\"}],\"stream\":true}").unwrap()
    );
    assert_eq!(
        chat_request(&model(), &vec![]).to_text(),
        "{\"messages\":[],\"model\":\"large-v1\",\"stream\":true}"
    );
}

#[test]
fn stream_events_reads_data_lines() {
    let chunk = "data: {\"choices\":[]}\n\ndata: {\"a\":1}\r\n: comment\nevent: x\n";
    assert_eq!(
        stream_events(chunk),
        vec![
            StreamEvent::Data("{\"choices\":[]}".to_string()),
            StreamEvent::Data("{\"a\":1}".to_string()),
        ]
    );
}

#[test]
fn stream_events_stops_at_done() {
    let chunk = "data: 1\n  data: [DONE]  \ndata: 2\n";
    assert_eq!(stream_events(chunk), vec![StreamEvent::Data("1".to_string()), StreamEvent::Done]);
    assert_eq!(stream_events("data: [DONE]"), vec![StreamEvent::Done]);
}

#[test]
fn stream_events_passes_over_other_lines() {
    assert_eq!(stream_events(""), vec![]);
    assert_eq!(stream_events("\n\n \n"), vec![]);
    assert_eq!(stream_events("data:1\nDATA: 2"), vec![]);
    assert_eq!(stream_events("data: "), vec![]);
    assert_eq!(stream_events("data: x"), vec![StreamEvent::Data("x".to_string())]);
    assert_eq!(stream_events("data: [DONE] x"), vec![StreamEvent::Data("[DONE] x".to_string())]);
}

#[test]
fn new_conversation_has_no_summary_and_is_not_pinned() {
    assert_eq!(
        Conversation::create("c1".to_string(), "Title".to_string(), "2026-01-01T00:00:00+00:00"),
        Conversation {
            id: "c1".to_string(),
            title: "Title".to_string(),
            summary: "".to_string(),
            created_at: "2026-01-01T00:00:00+00:00".to_string(),
            updated_at: "2026-01-01T00:00:00+00:00".to_string(),
            is_pinned: false,
        }
    );
}

#[test]
fn new_model_is_not_active() {
    let model = Model::create(
        "m1".to_string(),
        "prov-1".to_string(),
        "Large".to_string(),
        "large-v1".to_string(),
        "2026-01-01T00:00:00+00:00",
    );
    assert_eq!(
        model,
        Model {
            id: "m1".to_string(),
            provider_id: "prov-1".to_string(),
            name: "Large".to_string(),
            model_key: "large-v1".to_string(),
            is_active: false,
            created_at: "2026-01-01T00:00:00+00:00".to_string(),
        }
    );
}

#[test]
fn provider_holds_what_it_is_given() {
    let provider = Provider {
        id: "prov-1".to_string(),
        name: "Example".to_string(),
        base_url: "https://api.example.com/v1".to_string(),
        api_key: "SECRET-REDACTED".to_string(),
        icon: "".to_string(),
        created_at: "2026-01-01T00:00:00+00:00".to_string(),
    };
    assert_eq!(chat_url(&provider.base_url), "https://api.example.com/v1/chat/completions");
    assert_eq!(authorization(&provider.api_key), "Bearer SECRET-REDACTED");
}
