use clockd::{FutureStream, StreamPoll};

#[test]
fn a_stream_yields_its_value_once() {
    let mut stream: FutureStream<&str> = FutureStream::new("timer");
    assert!(stream.may_finish());
    assert!(stream.wants_poll());
    assert!(matches!(stream.poll_next::<u8>(None), StreamPoll::Pending));
    assert!(stream.wants_poll());
    assert!(matches!(stream.poll_next(Some(7u8)), StreamPoll::Item(7)));
    assert!(!stream.may_finish());
    assert!(!stream.wants_poll());
    assert!(matches!(stream.poll_next::<u8>(None), StreamPoll::End));
    assert!(matches!(stream.poll_next::<u8>(None), StreamPoll::Pending));
    assert!(matches!(stream.poll_next(Some(9u8)), StreamPoll::Pending));
    assert!(!stream.wants_poll());
}

#[test]
fn a_stream_around_nothing_yields_nothing() {
    let mut stream: FutureStream<&str> = FutureStream::new_never();
    assert!(!stream.may_finish());
    assert!(!stream.wants_poll());
    assert!(stream.inner_mut().is_none());
    for _ in 0..5 {
        assert!(matches!(stream.poll_next::<u8>(None), StreamPoll::Pending));
    }
}

#[test]
fn a_stream_can_be_armed_again() {
    let mut stream: FutureStream<u32> = FutureStream::new(1);
    assert!(matches!(stream.poll_next(Some('a')), StreamPoll::Item('a')));
    stream.set(2);
    assert!(stream.wants_poll());
    assert_eq!(stream.inner_mut().map(|f| *f), Some(2));
    assert!(matches!(stream.poll_next(Some('b')), StreamPoll::Item('b')));
    assert!(matches!(stream.poll_next::<char>(None), StreamPoll::End));
    stream.set(3);
    assert!(matches!(stream.poll_next(Some('c')), StreamPoll::Item('c')));
    stream.set_never();
    assert!(!stream.may_finish());
    assert!(matches!(stream.poll_next::<char>(None), StreamPoll::Pending));
}

#[test]
fn set_if_no_future_keeps_what_is_wrapped() {
    let mut stream: FutureStream<u32> = FutureStream::new(1);
    stream.set_if_no_future(2);
    assert_eq!(stream.inner_mut().map(|f| *f), Some(1));
    stream.set_never();
    stream.set_if_no_future(3);
    assert_eq!(stream.inner_mut().map(|f| *f), Some(3));
    assert!(stream.wants_poll());
    let mut fresh: FutureStream<u32> = FutureStream::new_never();
    fresh.set_if_no_future(4);
    assert!(matches!(fresh.poll_next(Some(())), StreamPoll::Item(())));
}

#[test]
fn the_wrapped_computation_is_polled_in_place() {
    let mut stream: FutureStream<Vec<u8>> = FutureStream::new(vec![1]);
    if let Some(inner) = stream.inner_mut() {
        inner.push(2);
    }
    assert_eq!(stream.inner_mut().map(|f| f.clone()), Some(vec![1, 2]));
    assert!(stream.wants_poll());
}
