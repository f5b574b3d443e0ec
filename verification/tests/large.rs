use fastvec::FastVec;

struct Test(usize, &'static str);

#[test]
fn large_amount_of_items_push_pop() {
    let mut buf = FastVec::<Test, 3>::new();
    buf.push(Test(1, "A")).unwrap();
    buf.push(Test(2, "B")).unwrap();
    buf.push(Test(3, "C")).unwrap();
    buf.push(Test(4, "D")).unwrap();
    buf.push(Test(5, "E")).unwrap();
    buf.push(Test(6, "F")).unwrap();
    buf.push(Test(7, "G")).unwrap();
    buf.push(Test(8, "H")).unwrap();
    buf.push(Test(9, "I")).unwrap();
    buf.push(Test(10, "J")).unwrap();
    buf.push(Test(11, "K")).unwrap();
    buf.push(Test(12, "L")).unwrap();
    buf.push(Test(13, "M")).unwrap();
    buf.push(Test(14, "N")).unwrap();
    buf.push(Test(15, "O")).unwrap();
    buf.push(Test(16, "P")).unwrap();
    buf.push(Test(17, "Q")).unwrap();
    buf.push(Test(18, "R")).unwrap();
    buf.push(Test(19, "S")).unwrap();
    buf.push(Test(20, "T")).unwrap();
    buf.push(Test(21, "X")).unwrap();
    buf.push(Test(22, "Y")).unwrap();
    buf.push(Test(23, "Z")).unwrap();

    assert!(buf.pop().is_some());
    assert!(buf.pop().is_some());
    assert!(buf.pop().is_some());
    assert!(buf.pop().is_some());
    assert!(buf.pop().is_some());
    assert!(buf.pop().is_some());
    assert!(buf.pop().is_some());
    assert!(buf.pop().is_some());
    assert!(buf.pop().is_some());
    assert!(buf.pop().is_some());
    assert!(buf.pop().is_some());
    assert!(buf.pop().is_some());
    assert!(buf.pop().is_some());
    assert!(buf.pop().is_some());
    assert!(buf.pop().is_some());
    assert!(buf.pop().is_some());
    assert!(buf.pop().is_some());
    assert!(buf.pop().is_some());
    assert!(buf.pop().is_some());
    assert!(buf.pop().is_some());
    assert!(buf.pop().is_some());
    assert!(buf.pop().is_some());
    assert!(buf.pop().is_some());

    assert!(buf.pop().is_none());
    assert!(buf.pop().is_none());
}

#[test]
fn large_round_trip_values() {
    let mut buf = FastVec::<usize, 3>::new();
    assert_eq!(buf.cap(), 3);
    for i in 1..=23usize {
        buf.push(i).unwrap();
    }
    assert_eq!(buf.len(), 23);
    assert_eq!(buf.cap(), 24);
    assert!(buf.is_heap_allocated());
    for i in (1..=23usize).rev() {
        assert_eq!(buf.pop(), Some(i));
    }
    assert_eq!(buf.pop(), None);
    assert_eq!(buf.pop(), None);
}

#[test]
fn capacity_steps_while_growing() {
    let mut buf = FastVec::<usize, 3>::new();
    let mut caps: Vec<usize> = Vec::new();
    for i in 0..23usize {
        buf.push(i).unwrap();
        if caps.last() != Some(&buf.cap()) {
            caps.push(buf.cap());
        }
    }
    assert_eq!(caps, vec![3, 6, 12, 24]);
}
