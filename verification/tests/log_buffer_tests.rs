use devboot::log_buffer::LogBuffer;
use devboot::MAX_LOG_LINES;

#[test]
fn empty_buffer_is_empty() {
    let b = LogBuffer::new();
    assert_eq!(b.len(), 0);
    assert!(b.snapshot().is_empty());
}

#[test]
fn append_keeps_order() {
    let mut b = LogBuffer::new();
    b.append("one".to_string());
    b.append("two".to_string());
    b.append("three".to_string());
    assert_eq!(b.snapshot(), vec!["one", "two", "three"]);
}

#[test]
fn capacity_is_never_exceeded_and_eviction_is_fifo() {
    let mut b = LogBuffer::new();
    for i in 0..MAX_LOG_LINES + 5 {
        b.append(format!("line {}", i));
        assert!(b.len() <= MAX_LOG_LINES);
    }
    let lines = b.snapshot();
    assert_eq!(lines.len(), MAX_LOG_LINES);
    // the five oldest lines were evicted, one per overflowing append
    assert_eq!(lines[0], "line 5");
    assert_eq!(lines[MAX_LOG_LINES - 1], format!("line {}", MAX_LOG_LINES + 4));
    // relative order of the survivors is preserved
    for (i, line) in lines.iter().enumerate() {
        assert_eq!(*line, format!("line {}", i + 5));
    }
}

#[test]
fn append_at_capacity_evicts_exactly_one() {
    let mut b = LogBuffer::new();
    for i in 0..MAX_LOG_LINES {
        b.append(format!("{}", i));
    }
    assert_eq!(b.len(), MAX_LOG_LINES);
    b.append("newest".to_string());
    let lines = b.snapshot();
    assert_eq!(lines.len(), MAX_LOG_LINES);
    assert_eq!(lines[0], "1");
    assert_eq!(lines[MAX_LOG_LINES - 1], "newest");
}

#[test]
fn snapshot_is_a_copy() {
    let mut b = LogBuffer::new();
    b.append("kept".to_string());
    let copy = b.snapshot();
    b.append("later".to_string());
    assert_eq!(copy, vec!["kept"]);
}

#[test]
fn clear_empties_the_buffer() {
    let mut b = LogBuffer::new();
    b.append("x".to_string());
    b.clear();
    assert_eq!(b.len(), 0);
    assert!(b.snapshot().is_empty());
}
