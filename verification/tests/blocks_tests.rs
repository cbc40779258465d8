use charradissa::blocks::strip_block_markers;

#[test]
fn passthrough_when_no_markers() {
    let text = "Hello, I am Guilhem.";
    assert_eq!(strip_block_markers(text), text);
}

#[test]
fn extracts_main_section() {
    let text = "[MAIN]\n\nThis is the reply.\n\n[LEAVE]";
    assert_eq!(strip_block_markers(text), "This is the reply.");
}

#[test]
fn strips_consult_keeps_main() {
    let text = "[CONSULT to: farga]\nsome internal question\n\n[MAIN]\n\nActual reply.\n\n[LEAVE]";
    assert_eq!(strip_block_markers(text), "Actual reply.");
}

#[test]
fn concatenates_multiple_main_blocks() {
    let text = "[MAIN]\n\nFirst part.\n\n[MAIN]\n\nSecond part.";
    assert_eq!(strip_block_markers(text), "First part.\n\nSecond part.");
}

#[test]
fn main_content_on_same_line() {
    let text = "[MAIN] inline reply here";
    assert_eq!(strip_block_markers(text), "inline reply here");
}

#[test]
fn main_preceded_by_preamble_on_same_line() {
    let text = "I have reviewed the context.[MAIN]\n\nActual answer here.\n\n[LEAVE]";
    assert_eq!(strip_block_markers(text), "Actual answer here.");
}

#[test]
fn btw_and_leave_discarded() {
    let text = "[BTW to: room]\nside note\n\n[MAIN]\n\nReal answer.\n\n[LEAVE]\ngoodbye";
    assert_eq!(strip_block_markers(text), "Real answer.");
}

#[test]
fn request_approval_variant_is_discarded() {
    let text = "[MAIN]\nKept.\n[REQUEST_APPROVAL reason=\"x\"]\nhidden";
    assert_eq!(strip_block_markers(text), "Kept.");
}

#[test]
fn marker_text_without_main_yields_empty_reply() {
    let text = "[CLOSE]\nnothing to say";
    assert_eq!(strip_block_markers(text), "");
}
