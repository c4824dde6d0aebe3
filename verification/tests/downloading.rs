use moanmyip::download::Download;

#[test]
fn chunks_are_accounted_in_order() {
    let chunks: Vec<Vec<u8>> = vec![vec![1, 2, 3], vec![], vec![4, 5]];
    let mut download = Download::new();
    let mut destination: Vec<u8> = Vec::new();
    for chunk in &chunks {
        download.record_chunk(chunk.as_slice());
        destination.extend_from_slice(chunk.as_slice());
    }
    assert_eq!(download.byte_count(), 5);
    assert_eq!(destination, vec![1, 2, 3, 4, 5]);
    assert_eq!(destination.len(), download.byte_count());
}

#[test]
fn empty_stream_transfers_nothing() {
    let download = Download::new();
    assert_eq!(download.byte_count(), 0);
}

#[test]
fn single_chunk_is_counted_exactly() {
    let mut download = Download::new();
    download.record_chunk(&[7u8; 42]);
    assert_eq!(download.byte_count(), 42);
}
