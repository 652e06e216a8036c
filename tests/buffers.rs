use enoki2d::batch::instance_batches;
use enoki2d::bounds::{bounds_sample_indices, bounds_stride};
use enoki2d::checksum::simple_checksum;
use enoki2d::log::{LogBuffer, LOG_CAPACITY};

#[test]
fn batches_are_consecutive_and_skip_empty() {
    let b = instance_batches(&vec![3, 0, 2, 5]);
    assert_eq!(b.len(), 4);
    assert_eq!(b[0].as_ref().map(|x| x.range.clone()), Some(0..3));
    assert!(b[1].is_none());
    assert_eq!(b[2].as_ref().map(|x| x.range.clone()), Some(3..5));
    assert_eq!(b[3].as_ref().map(|x| x.range.clone()), Some(5..10));
}

#[test]
fn batches_of_nothing() {
    assert!(instance_batches(&vec![]).is_empty());
    let b = instance_batches(&vec![0, 0]);
    assert!(b.iter().all(|x| x.is_none()));
}

#[test]
fn stride_grows_per_thousand_and_is_clamped() {
    assert_eq!(bounds_stride(0), 1);
    assert_eq!(bounds_stride(999), 1);
    assert_eq!(bounds_stride(1999), 1);
    assert_eq!(bounds_stride(2000), 2);
    assert_eq!(bounds_stride(5500), 5);
    assert_eq!(bounds_stride(10_999), 10);
    assert_eq!(bounds_stride(1_000_000), 10);
}

#[test]
fn sample_indices_small_and_strided() {
    assert_eq!(bounds_sample_indices(0), Vec::<usize>::new());
    assert_eq!(bounds_sample_indices(4), vec![0, 1, 2, 3]);
    let v = bounds_sample_indices(3001);
    assert_eq!(v.len(), 1001);
    assert_eq!(v[0], 0);
    assert_eq!(v[1], 3);
    assert_eq!(*v.last().unwrap(), 3000);
    let w = bounds_sample_indices(20_005);
    assert_eq!(w.len(), 2001);
    assert!(w.iter().all(|i| i % 10 == 0 && *i < 20_005));
}

#[test]
fn log_buffer_keeps_last_five() {
    let mut b: LogBuffer<u32> = LogBuffer::new();
    for i in 0..4 {
        b.push(i);
    }
    assert_eq!(b.events(), &vec![0, 1, 2, 3]);
    b.push(4);
    assert_eq!(b.len(), LOG_CAPACITY);
    b.push(5);
    b.push(6);
    assert_eq!(b.events(), &vec![2, 3, 4, 5, 6]);
    b.clear();
    assert_eq!(b.len(), 0);
    let d: LogBuffer<String> = LogBuffer::default();
    assert_eq!(d.len(), 0);
}

#[test]
fn checksum_weights_by_position() {
    assert_eq!(simple_checksum(""), 0);
    assert_eq!(simple_checksum("a"), 97);
    // 'a' * 1 + 'b' * 2
    assert_eq!(simple_checksum("ab"), 97 + 98 * 2);
    assert_ne!(simple_checksum("ab"), simple_checksum("ba"));
    // a non-ASCII character counts once, by its code point
    assert_eq!(simple_checksum("xé"), 120 + 0xE9 * 2);
}
