use portmidi::{MidiMessage, PmError, PmQueue};

#[test]
fn test_queue() {
    let mut queue: PmQueue = PmQueue::new();
    queue.create(32, 4);

    let read_midi = queue.dequeue();
    match read_midi {
        Ok(notes) => println!("portmidi read midi note {:?}", notes),
        Err(PmError::PmNoError) => assert_eq!(PmError::PmNoError, PmError::PmNoError),
        Err(err) => panic!("portmidi read midi error {:?}", err),
    }

    assert_eq!(queue.is_empty(), true);
    assert_eq!(queue.is_full(), false);

    let peek1 = queue.peek();
    match peek1 {
        None => assert_eq!(peek1, None),
        _ => panic!("queue.peek  bad result. not None"),
    }

    let enqueuerr = queue.enqueue(
        MidiMessage {
            status: 1 | 0x90, // channel and note on
            data1: 36, // note number
            data2: 90, // velocity
            data3: 0,
        }
        .encode(),
    );
    assert_eq!(enqueuerr, PmError::PmNoError);

    assert_eq!(queue.is_empty(), false);
    assert_eq!(queue.is_full(), false);

    let peek1 = queue.peek();
    match peek1 {
        Some(notes) => assert_eq!(MidiMessage::from(notes).data1, 36),
        None => panic!("queue.peek2  bad result. None"),
    }

    assert_eq!(queue.is_empty(), false);
    assert_eq!(queue.is_full(), false);

    let readqueue = queue.dequeue();
    match readqueue {
        Ok(notes) => assert_eq!(MidiMessage::from(notes).data1, 36),
        Err(PmError::PmNoError) => panic!("dequeue error no object found {:?}", readqueue),
        Err(err) => panic!("portmidi read midi error {:?}", err),
    }

    assert_eq!(queue.is_empty(), true);
    assert_eq!(queue.is_full(), false);

    let queudesterr = queue.destroy();
    assert_eq!(queudesterr, PmError::PmNoError);
}

#[test]
fn queue_before_create_reports_bad_pointer() {
    let mut queue = PmQueue::new();
    assert_eq!(queue.enqueue(7), PmError::PmBadPtr);
    assert_eq!(queue.dequeue(), Err(PmError::PmBadPtr));
    assert_eq!(queue.set_overflow(), PmError::PmBadPtr);
    assert_eq!(queue.destroy(), PmError::PmBadPtr);
    assert_eq!(queue.peek(), None);
    // full and empty read as false on a queue that does not exist
    assert!(!queue.is_full());
    assert!(!queue.is_empty());
}

#[test]
fn queue_keeps_fifo_order_up_to_capacity() {
    let mut queue = PmQueue::new();
    queue.create(3, 4);
    assert_eq!(queue.enqueue(10), PmError::PmNoError);
    assert_eq!(queue.enqueue(20), PmError::PmNoError);
    assert_eq!(queue.enqueue(30), PmError::PmNoError);
    assert!(queue.is_full());
    assert_eq!(queue.dequeue(), Ok(10));
    assert_eq!(queue.dequeue(), Ok(20));
    assert_eq!(queue.dequeue(), Ok(30));
    assert_eq!(queue.dequeue(), Err(PmError::PmNoError));
}

#[test]
fn queue_overflow_is_reported_once_after_the_drain() {
    let mut queue = PmQueue::new();
    queue.create(2, 4);
    assert_eq!(queue.enqueue(1), PmError::PmNoError);
    assert_eq!(queue.enqueue(2), PmError::PmNoError);
    // the queue is full: this message is dropped and the loss recorded
    assert_eq!(queue.enqueue(3), PmError::PmBufferOverflow);
    // the writer stays blocked until the reader acknowledges
    assert_eq!(queue.enqueue(4), PmError::PmBufferOverflow);
    // the reader first receives everything queued before the loss
    assert_eq!(queue.dequeue(), Ok(1));
    assert_eq!(queue.dequeue(), Ok(2));
    // then exactly one overflow report
    assert_eq!(queue.dequeue(), Err(PmError::PmBufferOverflow));
    // which acknowledges the loss: the writer may send again
    assert_eq!(queue.enqueue(5), PmError::PmNoError);
    assert_eq!(queue.dequeue(), Ok(5));
    assert_eq!(queue.dequeue(), Err(PmError::PmNoError));
}

#[test]
fn set_overflow_signals_a_loss_to_the_reader() {
    let mut queue = PmQueue::new();
    queue.create(4, 4);
    assert_eq!(queue.enqueue(1), PmError::PmNoError);
    assert_eq!(queue.set_overflow(), PmError::PmNoError);
    // already in an overflow state
    assert_eq!(queue.set_overflow(), PmError::PmBufferOverflow);
    assert_eq!(queue.dequeue(), Ok(1));
    assert_eq!(queue.dequeue(), Err(PmError::PmBufferOverflow));
    assert_eq!(queue.dequeue(), Err(PmError::PmNoError));
}
