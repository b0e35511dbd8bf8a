use guwen::ArtListResp;
use guwen::ArticleSimple;
use guwen::CursorState;
use guwen::Method;

fn entry(id: &str, title: &str) -> ArticleSimple {
    ArticleSimple { id: id.to_string(), title: title.to_string() }
}

fn loaded_page() -> ArtListResp {
    let q = ArtListResp::list_by_writer(1, "李白".to_string()).unwrap();
    let data = vec![entry("a1", "将进酒"), entry("a2", "静夜思")];
    ArtListResp::from_fetch(q, 2, 1, 1, 10, data).unwrap()
}

#[test]
fn fresh_cursor_stands_on_nothing() {
    let cursor = CursorState::new();
    assert!(cursor.page.is_none());
    assert_eq!(cursor.index, 0);
    assert!(cursor.current_entry().is_none());
    assert!(cursor.current_query().is_none());
}

#[test]
fn load_resets_the_index_to_the_first_item() {
    let mut cursor = CursorState::new();
    cursor.load(loaded_page());
    cursor.advance();
    assert_eq!(cursor.index, 1);
    cursor.load(loaded_page());
    assert_eq!(cursor.index, 0);
    assert_eq!(cursor.current_entry().unwrap().id, "a1".to_string());
}

#[test]
fn advance_walks_the_page_in_order() {
    let mut cursor = CursorState::new();
    cursor.load(loaded_page());
    assert_eq!(cursor.current_entry().unwrap().id, "a1".to_string());
    cursor.advance();
    assert_eq!(cursor.current_entry().unwrap().id, "a2".to_string());
}

#[test]
fn advance_past_the_end_yields_no_entry_and_keeps_the_page() {
    let mut cursor = CursorState::new();
    cursor.load(loaded_page());
    cursor.advance();
    cursor.advance();
    assert_eq!(cursor.index, 2);
    assert!(cursor.current_entry().is_none());
    let page = cursor.page.as_ref().unwrap();
    assert_eq!(page.page, 1);
    assert_eq!(page.data.len(), 2);
    assert_eq!(page.method, Method::Writer("李白".to_string()));
}

#[test]
fn retreat_at_the_start_signals_and_moves_nothing() {
    let mut cursor = CursorState::new();
    cursor.load(loaded_page());
    assert!(!cursor.retreat());
    assert_eq!(cursor.index, 0);
    cursor.advance();
    assert!(cursor.retreat());
    assert_eq!(cursor.index, 0);
}

#[test]
fn current_query_targets_the_selected_entry() {
    let mut cursor = CursorState::new();
    cursor.load(loaded_page());
    cursor.advance();
    let q = cursor.current_query().unwrap();
    assert_eq!(q.id, "a2".to_string());
}

#[test]
fn empty_page_has_no_current_entry() {
    let q = ArtListResp::list_by_page(99).unwrap();
    let empty = ArtListResp::from_fetch(q, 100, 10, 99, 10, Vec::new()).unwrap();
    let mut cursor = CursorState::new();
    cursor.load(empty);
    assert!(cursor.current_entry().is_none());
}
