use mmap_bench::segments::WorkBuffer;

fn pattern(len: usize) -> Vec<u8> {
    let mut data = Vec::with_capacity(len);
    for i in 0..len {
        data.push((i % 251) as u8);
    }
    data
}

fn lengths(buffer: &WorkBuffer<'_>) -> Vec<usize> {
    let mut out = Vec::new();
    for s in buffer.segments() {
        out.push(s.len());
    }
    out
}

#[test]
fn split_ten_bytes_by_four() {
    let data = pattern(10);
    let mut buffer = WorkBuffer::new(4, data.len());
    assert_eq!(buffer.len(), 0);
    assert_eq!(buffer.chunk_size(), 4);
    buffer.fill(&data);
    assert_eq!(buffer.len(), 3);
    assert_eq!(lengths(&buffer), vec![4, 4, 2]);
    assert_eq!(buffer.segments()[0], &data[0..4]);
    assert_eq!(buffer.segments()[1], &data[4..8]);
    assert_eq!(buffer.segments()[2], &data[8..10]);
}

#[test]
fn split_exact_multiple_has_no_short_segment() {
    let data = pattern(12);
    let mut buffer = WorkBuffer::new(4, data.len());
    buffer.fill(&data);
    assert_eq!(lengths(&buffer), vec![4, 4, 4]);
}

#[test]
fn split_empty_view_has_no_segment() {
    let data: Vec<u8> = Vec::new();
    let mut buffer = WorkBuffer::new(4, 0);
    buffer.fill(&data);
    assert_eq!(buffer.len(), 0);
    assert!(buffer.segments().is_empty());
}

#[test]
fn split_view_shorter_than_a_chunk_is_one_segment() {
    let data = pattern(3);
    let mut buffer = WorkBuffer::new(1024, data.len());
    buffer.fill(&data);
    assert_eq!(lengths(&buffer), vec![3]);
    assert_eq!(buffer.segments()[0], &data[..]);
}

#[test]
fn split_by_one_gives_one_segment_per_byte() {
    let data = pattern(5);
    let mut buffer = WorkBuffer::new(1, data.len());
    buffer.fill(&data);
    assert_eq!(lengths(&buffer), vec![1, 1, 1, 1, 1]);
}

#[test]
fn split_with_the_largest_chunk() {
    let data = pattern(9);
    let mut buffer = WorkBuffer::new(usize::MAX, data.len());
    buffer.fill(&data);
    assert_eq!(lengths(&buffer), vec![9]);
}

#[test]
fn split_counts_sums_and_joins_for_many_sizes() {
    for n in 0..70usize {
        let data = pattern(n);
        for c in 1..12usize {
            let mut buffer = WorkBuffer::new(c, n);
            buffer.fill(&data);
            let lens = lengths(&buffer);
            let expected = (n + c - 1) / c;
            assert_eq!(lens.len(), expected);
            assert_eq!(buffer.len(), expected);
            assert_eq!(lens.iter().sum::<usize>(), n);
            for (i, len) in lens.iter().enumerate() {
                if i + 1 < lens.len() {
                    assert_eq!(*len, c);
                } else {
                    assert!(*len >= 1 && *len <= c);
                }
            }
            let mut joined: Vec<u8> = Vec::new();
            for s in buffer.segments() {
                joined.extend_from_slice(s);
            }
            assert_eq!(joined, data);
        }
    }
}

#[test]
fn fill_replaces_the_previous_pass() {
    let first = pattern(10);
    let second = pattern(5);
    let mut buffer = WorkBuffer::new(4, first.len());
    buffer.fill(&first);
    assert_eq!(lengths(&buffer), vec![4, 4, 2]);
    buffer.fill(&second);
    assert_eq!(lengths(&buffer), vec![4, 1]);
    buffer.fill(&first);
    assert_eq!(lengths(&buffer), vec![4, 4, 2]);
    assert_eq!(buffer.chunk_size(), 4);
}

#[test]
fn one_mebibyte_chunks_of_three_mebibytes() {
    let data = vec![0xa5u8; 3 * 1024 * 1024 + 17];
    let mut buffer = WorkBuffer::new(1024 * 1024, data.len());
    buffer.fill(&data);
    assert_eq!(lengths(&buffer), vec![1048576, 1048576, 1048576, 17]);
}
