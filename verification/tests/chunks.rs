use amai_continuity::chunks::build_chunks;
use amai_continuity::json::{get, Json};

#[test]
fn build_chunks_packs_whole_lines_greedily_under_the_budget() {
    let chunks = build_chunks(6, "aa\nbb\ncc\n");
    assert_eq!(chunks.len(), 2);
    assert_eq!(chunks[0].content, "aa\nbb\n");
    assert_eq!((chunks[0].start_line, chunks[0].end_line), (1, 2));
    assert_eq!((chunks[0].start_byte, chunks[0].end_byte), (0, 6));
    assert_eq!(chunks[1].content, "cc\n");
    assert_eq!((chunks[1].start_line, chunks[1].end_line), (3, 3));
    assert_eq!((chunks[1].start_byte, chunks[1].end_byte), (6, 9));
    assert_eq!((chunks[0].chunk_index, chunks[1].chunk_index), (0, 1));
    assert_eq!((chunks[0].total_chunks, chunks[1].total_chunks), (2, 2));
}

#[test]
fn build_chunks_keeps_an_oversized_line_in_a_chunk_of_its_own() {
    let chunks = build_chunks(4, "abcdefgh\nx");
    assert_eq!(chunks.len(), 2);
    assert_eq!(chunks[0].content, "abcdefgh\n");
    assert_eq!((chunks[0].start_line, chunks[0].end_line), (1, 1));
    assert_eq!((chunks[0].start_byte, chunks[0].end_byte), (0, 9));
    assert_eq!(chunks[1].content, "x\n");
    assert_eq!((chunks[1].start_line, chunks[1].end_line), (2, 2));
    assert_eq!((chunks[1].start_byte, chunks[1].end_byte), (9, 11));
}

#[test]
fn build_chunks_of_empty_content_is_empty() {
    assert!(build_chunks(100, "").is_empty());
}

#[test]
fn build_chunks_counts_bytes_of_multibyte_text_and_drops_carriage_returns() {
    let chunks = build_chunks(100, "привет\r\nb");
    assert_eq!(chunks.len(), 1);
    assert_eq!(chunks[0].content, "привет\nb\n");
    assert_eq!((chunks[0].start_byte, chunks[0].end_byte), (0, 15));
    assert_eq!((chunks[0].start_line, chunks[0].end_line), (1, 2));
}

#[test]
fn build_chunks_marks_chunks_and_gives_them_fresh_random_ids() {
    let chunks = build_chunks(3, "a\nb\n");
    assert_eq!(chunks.len(), 2);
    for chunk in &chunks {
        assert!(matches!(get(&chunk.metadata, "continuity_chunk"), Some(Json::Bool(true))));
        assert!(chunk.qdrant_point_id.is_none());
        assert!(chunk.qdrant_collection_alias.is_none());
        assert_eq!(uuid::Uuid::from_u128(chunk.chunk_id).get_version_num(), 4);
    }
    assert_ne!(chunks[0].chunk_id, chunks[1].chunk_id);
}
