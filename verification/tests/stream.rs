use wasm_coremark::stream::SliceStream;
use wasm_coremark::stream::CHUNK_LEN;

fn bytes(n: usize) -> Vec<u8> {
    (0..n).map(|i| (i % 251) as u8).collect()
}

#[test]
fn chunks_are_at_most_chunk_len_and_reassemble() {
    let data = bytes(2500);
    let mut stream = SliceStream::new(&data);
    let mut lens = Vec::new();
    let mut joined = Vec::new();
    while let Some(chunk) = stream.read() {
        lens.push(chunk.len());
        joined.extend_from_slice(&chunk);
    }
    assert_eq!(CHUNK_LEN, 1024);
    assert_eq!(lens, vec![1024, 1024, 452]);
    assert_eq!(joined, data);
    assert_eq!(stream.pos(), 2500);
}

#[test]
fn read_after_the_end_stays_none() {
    let data = bytes(10);
    let mut stream = SliceStream::new(&data);
    assert_eq!(stream.read(), Some(data.clone()));
    assert_eq!(stream.read(), None);
    assert_eq!(stream.read(), None);
    assert_eq!(stream.pos(), 10);
}

#[test]
fn empty_data_gives_no_chunk() {
    let data: Vec<u8> = Vec::new();
    let mut stream = SliceStream::new(&data);
    assert_eq!(stream.pos(), 0);
    assert_eq!(stream.read(), None);
}

#[test]
fn exactly_one_chunk_of_data() {
    let data = bytes(1024);
    let mut stream = SliceStream::new(&data);
    assert_eq!(stream.read(), Some(data.clone()));
    assert_eq!(stream.read(), None);
    let data = bytes(1025);
    let mut stream = SliceStream::new(&data);
    assert_eq!(stream.read().map(|c| c.len()), Some(1024));
    assert_eq!(stream.read(), Some(vec![data[1024]]));
    assert_eq!(stream.read(), None);
}
