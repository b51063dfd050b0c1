use chat_tools::memo::{format_memo_line, list_memos_formatted, Memo, MemoList};
use chat_tools::clock::TIMESTAMP_FORMAT;

#[test]
fn test_new_memo_list() {
    let list = MemoList::new();
    assert_eq!(list.memos.len(), 0);
}

#[test]
fn test_add_memo() {
    let mut list = MemoList::new();
    list.add_memo("買い物".to_string());

    assert_eq!(list.memos.len(), 1);
    assert_eq!(list.memos[0].id, 1);
    assert_eq!(list.memos[0].content, "買い物");
}

#[test]
fn test_add_multiple_memos() {
    let mut list = MemoList::new();
    list.add_memo("買い物".to_string());
    list.add_memo("勉強".to_string());
    list.add_memo("運動".to_string());

    assert_eq!(list.memos.len(), 3);
    assert_eq!(list.memos[0].id, 1);
    assert_eq!(list.memos[1].id, 2);
    assert_eq!(list.memos[2].id, 3);
}

#[test]
fn test_remove_memo_success() {
    let mut list = MemoList::new();
    list.add_memo("買い物".to_string());
    list.add_memo("勉強".to_string());

    let removed = list.remove_memo(1);

    assert!(removed);
    assert_eq!(list.memos.len(), 1);
    assert_eq!(list.memos[0].id, 2);
}

#[test]
fn test_remove_memo_not_found() {
    let mut list = MemoList::new();
    list.add_memo("買い物".to_string());

    let removed = list.remove_memo(999);

    assert!(!removed);
    assert_eq!(list.memos.len(), 1);
}

#[test]
fn test_next_id_empty_list() {
    let list = MemoList::new();
    assert_eq!(list.next_id(), 1);
}

#[test]
fn test_next_id_after_deletion() {
    let mut list = MemoList::new();
    list.add_memo("メモ1".to_string());
    list.add_memo("メモ2".to_string());
    list.add_memo("メモ3".to_string());
    list.remove_memo(2);

    assert_eq!(list.next_id(), 4);
}

#[test]
fn test_list_memos_formatted_empty() {
    let list = MemoList::new();

    let lines: Vec<String> = list.memos.iter().map(format_memo_line).collect();

    assert_eq!(lines.len(), 0);
}

#[test]
fn test_list_memos_formatted_with_data() {
    let mut list = MemoList::new();
    list.add_memo("テストメモ1".to_string());
    list.add_memo("テストメモ2".to_string());

    let lines: Vec<String> = list.memos.iter().map(format_memo_line).collect();

    let output = lines.join("\n");

    assert!(output.contains("テストメモ1"));
    assert!(output.contains("テストメモ2"));
    assert!(output.contains("id:1"));
    assert!(output.contains("id:2"));
}

#[test]
fn memo_line_has_exact_shape() {
    let memo = Memo { id: 42, content: "牛乳".to_string(), created_at: "2024-01-02 03:04:05".to_string() };
    assert_eq!(format_memo_line(&memo), "[id:42] 牛乳 - 2024-01-02 03:04:05");
}

#[test]
fn listing_of_empty_list() {
    assert_eq!(list_memos_formatted(&MemoList::new()), "📭 メモはありません");
}

#[test]
fn listing_of_two_memos() {
    let mut list = MemoList::new();
    list.add_memo_at("a".to_string(), "t1".to_string());
    list.add_memo_at("b".to_string(), "t2".to_string());
    assert_eq!(list_memos_formatted(&list), "📝 メモ一覧:\n[id:1] a - t1\n[id:2] b - t2\n");
}

#[test]
fn next_id_follows_largest_id_not_count() {
    let mut list = MemoList::new();
    list.memos.push(Memo { id: 10, content: "x".to_string(), created_at: "t".to_string() });
    list.memos.push(Memo { id: 3, content: "y".to_string(), created_at: "t".to_string() });
    assert_eq!(list.max_id(), 10);
    assert_eq!(list.next_id(), 11);
    list.add_memo_at("z".to_string(), "t".to_string());
    assert_eq!(list.memos[2].id, 11);
}

#[test]
fn remove_drops_every_memo_with_the_id() {
    let mut list = MemoList::new();
    list.memos.push(Memo { id: 5, content: "x".to_string(), created_at: "t".to_string() });
    list.memos.push(Memo { id: 6, content: "y".to_string(), created_at: "t".to_string() });
    list.memos.push(Memo { id: 5, content: "z".to_string(), created_at: "t".to_string() });
    assert!(list.remove_memo(5));
    assert_eq!(list.memos.len(), 1);
    assert_eq!(list.memos[0].content, "y");
}

#[test]
fn add_memo_stamps_local_time() {
    let mut list = MemoList::new();
    list.add_memo("x".to_string());
    let stamp = &list.memos[0].created_at;
    assert_ne!(stamp, TIMESTAMP_FORMAT);
    assert_eq!(stamp.len(), 19);
    assert_eq!(&stamp[4..5], "-");
    assert_eq!(&stamp[13..14], ":");
}
