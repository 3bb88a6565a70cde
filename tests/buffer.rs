use melonstt::SampleBuffer;

#[test]
fn appends_are_drained_in_order() {
    let mut b: SampleBuffer<f32> = SampleBuffer::new();
    assert!(b.append(&[0.5, -0.25]));
    assert!(b.append(&[]));
    assert!(b.append(&[1.0]));
    assert_eq!(b.len(), 3);
    b.close();
    assert_eq!(b.drain(), vec![0.5, -0.25, 1.0]);
    assert_eq!(b.len(), 0);
}

#[test]
fn many_chunks_are_kept_once_each() {
    let mut b: SampleBuffer<i32> = SampleBuffer::new();
    let mut expected = Vec::new();
    for k in 0..50 {
        let chunk: Vec<i32> = (0..k % 7).map(|i| k * 10 + i).collect();
        assert!(b.append(&chunk));
        expected.extend_from_slice(&chunk);
    }
    b.close();
    assert_eq!(b.drain(), expected);
}

#[test]
fn closed_buffer_refuses_appends() {
    let mut b: SampleBuffer<f32> = SampleBuffer::new();
    assert!(b.is_open());
    assert!(b.append(&[0.1]));
    b.close();
    assert!(!b.is_open());
    assert!(!b.append(&[0.2, 0.3]));
    assert_eq!(b.drain(), vec![0.1]);
}

#[test]
fn empty_buffer_drains_empty() {
    let mut b: SampleBuffer<f32> = SampleBuffer::new();
    b.close();
    assert!(b.drain().is_empty());
}

#[test]
fn drain_leaves_buffer_empty_and_closed() {
    let mut b: SampleBuffer<u8> = SampleBuffer::new();
    b.append(&[1, 2, 3]);
    b.close();
    assert_eq!(b.drain(), vec![1, 2, 3]);
    assert!(b.drain().is_empty());
    assert!(!b.append(&[4]));
}
