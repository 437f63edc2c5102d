use crossbus::queue::{NodeData, Queue};

#[test]
fn test_queue() {
    struct Se {
        state: i32,
    }

    let mut que: Queue<Se> = Queue::new_null();
    let b = que.assume_init();
    assert!(b);
    assert!(que.pop().is_none());
    let se = Se { state: 0 };
    que.push(se);
    let se = Se { state: 1 };
    que.push(se);
    let data = que.pop();
    assert!(data.is_some());
    assert_eq!(data.unwrap().state, 0);
    let data = que.pop();
    assert!(data.is_some());
    assert_eq!(data.unwrap().state, 1);
}

#[test]
fn queue_try_pop_reports_empty() {
    let mut q: Queue<u8> = Queue::new();
    assert!(matches!(q.try_pop(), NodeData::Empty));
    q.push(7);
    assert_eq!(q.len(), 1);
    assert!(matches!(q.try_pop(), NodeData::Data(7)));
    assert!(matches!(q.try_pop(), NodeData::Empty));
    assert_eq!(q.len(), 0);
}

#[test]
fn queue_is_first_in_first_out() {
    let mut q: Queue<u32> = Queue::new();
    for i in 0..10 {
        q.push(i);
    }
    for i in 0..10 {
        assert_eq!(q.pop(), Some(i));
    }
    assert_eq!(q.pop(), None);
}
