use transformable_channels::{channel, ExtSender, TransformableSender};

#[test]
fn test_chain_map() {
    println!("* Making sure that chain composition of .map() takes place in the right order");
    let (tx, rx) = channel();
    let tx = tx.map(|x| x + 1).map(|x| x * 2);
    tx.send(0).unwrap();
    assert_eq!(rx.recv().unwrap(), 1);
}

#[test]
fn test_filter_map() {
    let (tx, rx) = channel();
    let tx2 = (tx.map(|x| { x + 1 })).filter(|x| x % 2 == 0);
    let tx3 = tx.filter_map(|x| if x % 2 == 0 { Some(x + 1) } else { None });

    for i in 1..10 {
        tx2.send(i).unwrap();
        tx3.send(i).unwrap();
        if i % 2 == 0 {
            let got_2 = rx.recv().unwrap();
            let got_3 = rx.recv().unwrap();
            assert_eq!(got_2, got_3);
        }
    }
}

#[test]
fn channel_delivers_in_order() {
    let (tx, rx) = channel();
    for i in 1..5 {
        tx.send(i).unwrap();
    }
    for (msg, i) in rx.try_iter().zip(1..5) {
        assert_eq!(msg, i);
    }
    assert!(rx.try_recv().is_err());
}

#[derive(Debug)]
struct LabelledValue<T> {
    origin: usize,
    value: T,
}

#[test]
fn map_labels_values() {
    let (tx, rx) = channel();
    for i in 1..5 {
        let tx = tx.map(move |msg| LabelledValue { origin: i, value: msg });
        tx.send(i).unwrap();
    }
    for _ in 1..5 {
        let msg = rx.recv().unwrap();
        assert_eq!(msg.origin, msg.value);
    }
}

#[test]
fn map_sends_the_transformed_value() {
    let (tx, rx) = channel();
    let tx = tx.map(|x: u32| x * 3 + 1);
    tx.send(4).unwrap();
    assert_eq!(rx.recv().unwrap(), 13);
}

#[test]
fn filter_keeps_only_even() {
    let (tx, rx) = channel();
    let tx = tx.filter(move |msg| msg % 2 == 0);
    for i in 1..10 {
        tx.send(i).unwrap();
    }
    let got: Vec<i32> = rx.try_iter().collect();
    assert_eq!(got, vec![2, 4, 6, 8]);
}

#[test]
fn filter_map_example() {
    let (tx, rx) = channel();
    let tx = tx.filter_map(move |msg| if msg % 2 == 0 { Some(msg + 1) } else { None });
    for i in 1..10 {
        tx.send(i).unwrap();
    }
    for i in 1..5 {
        assert_eq!(rx.recv().unwrap(), i * 2 + 1);
    }
    assert!(rx.try_recv().is_err());
}

#[test]
fn tee_splits_pairs() {
    let (tx_1, rx_1) = channel();
    let (tx_2, rx_2) = channel();
    let tx = tx_1.tee(&tx_2);
    tx.send(("one".to_string(), 1)).unwrap();
    assert_eq!(rx_1.recv().unwrap(), "one".to_string());
    assert_eq!(rx_2.recv().unwrap(), 1);
}

#[test]
fn send_fails_after_receiver_dropped() {
    let (tx, rx) = channel::<u8>();
    drop(rx);
    assert_eq!(tx.send(1), Err(()));
}

#[test]
fn mapped_send_fails_after_receiver_dropped() {
    let (tx, rx) = channel::<u8>();
    let tx = tx.map(|x: u8| x.wrapping_add(1));
    drop(rx);
    assert_eq!(tx.send(1), Err(()));
}

#[test]
fn discarded_value_is_ok_even_without_receiver() {
    let (tx, rx) = channel::<u8>();
    let filtered = tx.filter(|_x: &u8| false);
    let filter_mapped = tx.filter_map(|_x: u8| None::<u8>);
    drop(rx);
    assert_eq!(filtered.send(1), Ok(()));
    assert_eq!(filter_mapped.send(1), Ok(()));
    assert_eq!(tx.send(1), Err(()));
}

#[test]
fn tee_fails_only_if_both_fail() {
    let (tx_1, rx_1) = channel::<u8>();
    let (tx_2, rx_2) = channel::<u8>();
    let tx = tx_1.tee(&tx_2);
    drop(rx_1);
    assert_eq!(tx.send((1, 2)), Ok(()));
    assert_eq!(rx_2.recv().unwrap(), 2);
    drop(rx_2);
    assert_eq!(tx.send((3, 4)), Err(()));
}

#[test]
fn tee_with_discarding_half_is_ok() {
    let (tx_1, rx_1) = channel::<u8>();
    let (tx_2, rx_2) = channel::<u8>();
    let left = tx_1.filter(|_x: &u8| false);
    let tx = left.tee(&tx_2);
    drop(rx_1);
    drop(rx_2);
    assert_eq!(tx.send((1, 2)), Ok(()));
}

#[test]
fn clone_sends_to_same_channel() {
    let (tx, rx) = channel();
    let mapped = tx.map(|x: u32| x + 10);
    let copy = mapped.clone();
    let raw_copy = tx.clone();
    copy.send(1).unwrap();
    raw_copy.send(2).unwrap();
    assert_eq!(rx.recv().unwrap(), 11);
    assert_eq!(rx.recv().unwrap(), 2);
}

#[test]
fn internal_clone_sends_as_original() {
    let (tx, rx) = channel();
    let filtered = tx.filter(|x: &u32| *x > 5);
    let boxed = filtered.internal_clone();
    boxed.send(3).unwrap();
    boxed.send(8).unwrap();
    let raw_boxed = tx.internal_clone();
    raw_boxed.send(9).unwrap();
    assert_eq!(rx.recv().unwrap(), 8);
    assert_eq!(rx.recv().unwrap(), 9);
    assert!(rx.try_recv().is_err());
}

#[test]
fn derived_senders_compose() {
    let (tx, rx) = channel();
    let tx2 = tx.map(|x: u32| x * 2).filter(|x: &u32| *x < 3).filter_map(|x: u32| if x == 0 { None } else { Some(x - 1) });
    for i in 0..5 {
        tx2.send(i).unwrap();
    }
    let got: Vec<u32> = rx.try_iter().collect();
    assert_eq!(got, vec![0, 2, 4]);
}

#[test]
fn clone_survives_dropping_original() {
    let (tx, rx) = channel::<i32>();
    let c = tx.clone();
    drop(tx);
    assert_eq!(c.send(7), Ok(()));
    assert_eq!(rx.recv().unwrap(), 7);
    drop(c);
    assert!(rx.recv().is_err());
}

#[test]
fn map_survives_dropping_source() {
    let (tx, rx) = channel::<i32>();
    let m = tx.map(|x: i32| x + 1);
    drop(tx);
    assert_eq!(m.send(1), Ok(()));
    assert_eq!(rx.recv().unwrap(), 2);
}

#[test]
fn identity_map_sends_as_source() {
    let (tx, rx) = channel::<i32>();
    let m = tx.map(|x: i32| x);
    m.send(5).unwrap();
    tx.send(6).unwrap();
    assert_eq!(rx.recv().unwrap(), 5);
    assert_eq!(rx.recv().unwrap(), 6);
}

#[test]
fn channels_stay_separate() {
    let (tx_1, rx_1) = channel::<i32>();
    let (tx_2, rx_2) = channel::<i32>();
    tx_1.map(|x: i32| x * 10).send(1).unwrap();
    tx_2.send(2).unwrap();
    assert_eq!(rx_1.recv().unwrap(), 10);
    assert_eq!(rx_2.recv().unwrap(), 2);
    assert!(rx_1.try_recv().is_err());
    assert!(rx_2.try_recv().is_err());
}

#[test]
fn boxed_sender_is_a_sender() {
    let (tx, rx) = channel::<u32>();
    let boxed = tx.map(|x: u32| x + 1).internal_clone();
    fn send_through<S: ExtSender<u32>>(s: &S, v: u32) -> Result<(), ()> {
        s.send(v)
    }
    send_through(&boxed, 4).unwrap();
    assert_eq!(rx.recv().unwrap(), 5);
}

#[test]
fn mapped_i32_send_fails_after_receiver_dropped() {
    let (tx, rx) = channel::<i32>();
    let s = tx.map(|x: i32| x + 1);
    drop(rx);
    assert_eq!(s.send(1), Err(()));
}

#[test]
fn filter_map_some_sends_as_map() {
    let (tx, rx) = channel::<i32>();
    let m = tx.map(|x: i32| x * 3);
    let fm = tx.filter_map(|x: i32| Some(x * 3));
    for i in 0..4 {
        m.send(i).unwrap();
        fm.send(i).unwrap();
        assert_eq!(rx.recv().unwrap(), rx.recv().unwrap());
    }
}

#[test]
fn guarded_filter_map_sends_as_filter() {
    let (tx, rx) = channel::<i32>();
    let f = tx.filter(|x: &i32| *x > 2);
    let fm = tx.filter_map(|x: i32| if x > 2 { Some(x) } else { None });
    for i in 0..6 {
        f.send(i).unwrap();
        fm.send(i).unwrap();
    }
    let got: Vec<i32> = rx.try_iter().collect();
    assert_eq!(got, vec![3, 3, 4, 4, 5, 5]);
}

#[test]
fn map_then_filter_delivers_successors_of_even() {
    let (tx, rx) = channel::<i32>();
    let s = (tx.map(|x| x + 1)).filter(|x| x % 2 == 0);
    for i in 1..10 {
        assert_eq!(s.send(i), Ok(()));
    }
    let got: Vec<i32> = rx.try_iter().collect();
    assert_eq!(got, vec![3, 5, 7, 9]);
}
