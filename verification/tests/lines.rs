use sse_relay::lines::LineBuffer;

fn feed_all(buffer: &mut LineBuffer, chunks: &[&[u8]]) -> Vec<Vec<u8>> {
    let mut lines: Vec<Vec<u8>> = Vec::new();
    for chunk in chunks {
        lines.extend(buffer.feed(chunk));
    }
    lines
}

#[test]
fn whole_input_yields_lines_in_order() {
    let mut buffer = LineBuffer::new();
    let lines = buffer.feed(b"alpha\nbeta\ngamma");
    assert_eq!(lines, vec![b"alpha".to_vec(), b"beta".to_vec()]);
}

#[test]
fn reassembly_matches_single_feed() {
    let input: &[u8] = b"data: one\n\ndata: two\ndata: thr";
    let mut whole = LineBuffer::new();
    let expected = whole.feed(input);
    for cut_a in 0..input.len() {
        for cut_b in cut_a..input.len() {
            let mut split = LineBuffer::new();
            let lines = feed_all(
                &mut split,
                &[&input[..cut_a], &input[cut_a..cut_b], &input[cut_b..]],
            );
            assert_eq!(lines, expected);
        }
    }
}

#[test]
fn newline_split_across_chunks_loses_nothing() {
    let mut buffer = LineBuffer::new();
    assert_eq!(buffer.feed(b"hello"), Vec::<Vec<u8>>::new());
    assert_eq!(buffer.feed(b"\nworld\n"), vec![b"hello".to_vec(), b"world".to_vec()]);
}

#[test]
fn trailing_partial_line_is_retained() {
    let mut buffer = LineBuffer::new();
    assert_eq!(buffer.feed(b"par"), Vec::<Vec<u8>>::new());
    assert_eq!(buffer.feed(b"tial"), Vec::<Vec<u8>>::new());
    assert_eq!(buffer.feed(b"\n"), vec![b"partial".to_vec()]);
}

#[test]
fn empty_lines_are_yielded() {
    let mut buffer = LineBuffer::new();
    assert_eq!(buffer.feed(b"\n\na\n"), vec![b"".to_vec(), b"".to_vec(), b"a".to_vec()]);
}
