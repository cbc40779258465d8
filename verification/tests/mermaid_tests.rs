use charradissa::mermaid::{extract_mermaid_blocks, kroki_result, kroki_svg_url, KROKI_TIMEOUT_SECS};

#[test]
fn extracts_single_block() {
    let msg = "look at this\n```mermaid\ngraph TD\n  A-->B\n```\ncool right?";
    let blocks = extract_mermaid_blocks(msg);
    assert_eq!(blocks, vec!["graph TD\n  A-->B"]);
}

#[test]
fn extracts_multiple_blocks() {
    let msg = "```mermaid\nflowchart LR\n  A-->B\n```\nand\n```mermaid\nsequenceDiagram\n  A->>B: hi\n```";
    let blocks = extract_mermaid_blocks(msg);
    assert_eq!(blocks.len(), 2);
}

#[test]
fn ignores_non_mermaid_blocks() {
    let msg = "```rust\nfn main() {}\n```";
    assert!(extract_mermaid_blocks(msg).is_empty());
}

#[test]
fn empty_message() {
    assert!(extract_mermaid_blocks("hello world").is_empty());
}

#[test]
fn unterminated_block_is_ignored_and_empty_block_skipped() {
    assert!(extract_mermaid_blocks("```mermaid\ngraph TD").is_empty());
    assert!(extract_mermaid_blocks("```mermaid\n\n```").is_empty());
}

#[test]
fn kroki_url_and_failure_message() {
    assert_eq!(kroki_svg_url("http://kroki:8000"), "http://kroki:8000/mermaid/svg");
    assert_eq!(KROKI_TIMEOUT_SECS, 15);
    assert_eq!(kroki_result(true, "200 OK", "", vec![1, 2]), Ok(vec![1, 2]));
    assert_eq!(
        kroki_result(false, "400 Bad Request", "syntax", vec![]),
        Err("Kroki returned 400 Bad Request: syntax".to_string())
    );
}
