use codetether_agent::chunker::{ChunkOptions, ContentType, RlmChunker};

#[test]
fn test_detect_code() {
    let content = r#"
fn main() {
    println!("Hello, world!");
}

impl Foo {
    pub fn new() -> Self {
        Self {}
    }
}
"#;
    assert_eq!(RlmChunker::detect_content_type(content), ContentType::Code);
}

#[test]
fn test_detect_conversation() {
    let content = r#"
[User]: Can you help me with this?

[Assistant]: Of course! What do you need?

[User]: I want to implement a feature.
"#;
    assert_eq!(RlmChunker::detect_content_type(content), ContentType::Conversation);
}

#[test]
fn test_compress() {
    let content = "line\n".repeat(1000);
    let compressed = RlmChunker::compress(&content, 100, None);
    let tokens = RlmChunker::estimate_tokens(&compressed);
    assert!(tokens <= 100 || compressed.contains("[..."));
}

#[test]
fn selected_chunks_fit_the_budget_and_keep_order() {
    let content = (0..400).map(|i| format!("entry number {i} with some words")).collect::<Vec<_>>().join("\n");
    let chunks = RlmChunker::chunk(&content, None);
    let selected = RlmChunker::select_chunks(&chunks, 300);
    let total: usize = selected.iter().map(|c| c.tokens).sum();
    assert!(total <= 300);
    for w in selected.windows(2) {
        assert!(w[0].start_line <= w[1].start_line);
    }
}

#[test]
fn estimate_tokens_rounds_up_quarters() {
    assert_eq!(RlmChunker::estimate_tokens(""), 0);
    assert_eq!(RlmChunker::estimate_tokens("abcd"), 1);
    assert_eq!(RlmChunker::estimate_tokens("abcde"), 2);
}


#[test]
fn one_line_conversation_is_detected() {
    assert_eq!(RlmChunker::detect_content_type("[User]: hello"), ContentType::Conversation);
}

#[test]
fn split_pieces_carry_their_own_tokens() {
    let opts = ChunkOptions { max_chunk_tokens: 2, preserve_recent: 0 };
    let chunks = RlmChunker::chunk("abcd\nabcd\nabcd", Some(opts));
    assert!(!chunks.is_empty());
    for c in &chunks {
        assert_eq!(c.tokens, RlmChunker::estimate_tokens(&c.content));
        assert!(c.start_line == c.end_line || c.tokens <= 2);
    }
}

#[test]
fn recent_pieces_keep_high_priority() {
    let opts = ChunkOptions { max_chunk_tokens: 2, preserve_recent: 1 };
    let content = "abcd\nabcd\nabcd";
    let chunks = RlmChunker::chunk(content, Some(opts));
    let n = content.lines().count();
    for c in &chunks {
        if c.end_line + 1 >= n {
            assert!(c.priority >= 8);
        }
    }
    assert_eq!(RlmChunker::reassemble(&chunks), content);
}
