use binview::binary::{BorrowView, ReadError, View};

fn sample() -> Vec<u8> {
    (1u8..=20).collect()
}

/// What a view shows to reads: the length left, and the bytes up to it
/// (none where the view stands beyond the end, and even the empty range
/// cannot be read).
fn seen<V: View>(view: &V) -> (Option<usize>, Option<Vec<u8>>) {
    let left = view.bound_len();
    let bytes = match view.transcribe(left.unwrap_or(0)) {
        Ok(bytes) => Some(bytes.as_slice().to_vec()),
        Err(_) => None,
    };
    (left, bytes)
}

/// How far a view can be skipped: the largest accepted skip up to `limit`,
/// or `None` where not even the empty skip is accepted.
fn farthest<V: View>(view: &V, limit: u64) -> Option<u64> {
    let mut far = None;
    for n in 0..=limit {
        match view.clone().skip(n) {
            Ok(_) => far = Some(n),
            Err(e) => assert!(e == ReadError::EndOfStream),
        }
    }
    far
}

#[test]
fn skip_of_nothing_changes_nothing() {
    let view = BorrowView::new_offset(sample(), 7);
    let before = seen(&view);
    match view.skip(0) {
        Ok(after) => assert_eq!(seen(&after), before),
        Err(_) => panic!("a skip of nothing is legal"),
    }
}

#[test]
fn skip_moves_the_offset_by_the_count() {
    match BorrowView::new_offset(sample(), 2).skip(5) {
        Ok(view) => {
            assert!(view.read_byte() == Ok(8));
            assert_eq!(view.bound_len(), Some(13));
        }
        Err(_) => panic!("no bound, so the skip is legal"),
    }
}

#[test]
fn two_skips_are_one_skip_of_the_sum() {
    let data = sample();
    for a in 0u64..24 {
        for b in 0u64..24 {
            let twice = BorrowView::new(data.clone())
                .skip(a)
                .and_then(|view| view.skip(b));
            let once = BorrowView::new(data.clone()).skip(a + b);
            match (twice, once) {
                (Ok(twice), Ok(once)) => {
                    assert!(a + b <= 20);
                    assert_eq!(seen(&twice), seen(&once));
                    assert_eq!(farthest(&twice, 24), farthest(&once, 24));
                }
                (Err(x), Err(y)) => {
                    assert!(a + b > 20);
                    assert!(x == ReadError::EndOfStream);
                    assert!(y == ReadError::EndOfStream);
                }
                _ => panic!("skip({}) then skip({}) and skip({}) disagree", a, b, a + b),
            }
        }
    }
}

#[test]
fn two_skips_are_one_skip_of_the_sum_under_a_bound() {
    let data = sample();
    for a in 0u64..16 {
        for b in 0u64..16 {
            let twice = BorrowView::new(data.clone())
                .bound(12)
                .skip(a)
                .and_then(|view| view.skip(b));
            let once = BorrowView::new(data.clone()).bound(12).skip(a + b);
            match (twice, once) {
                (Ok(twice), Ok(once)) => {
                    assert!(a + b <= 12);
                    assert_eq!(seen(&twice), seen(&once));
                    assert_eq!(farthest(&twice, 16), farthest(&once, 16));
                    assert_eq!(farthest(&once, 16), Some(12 - (a + b)));
                }
                (Err(x), Err(y)) => {
                    assert!(a + b > 12);
                    assert!(x == ReadError::EndOfStream);
                    assert!(y == ReadError::EndOfStream);
                }
                _ => panic!("skip({}) then skip({}) and skip({}) disagree", a, b, a + b),
            }
        }
    }
}

#[test]
fn skip_to_the_end_leaves_nothing() {
    match BorrowView::new_offset(sample(), 4).skip(16) {
        Ok(view) => {
            assert_eq!(view.bound_len(), Some(0));
            assert_eq!(view.hint_available_bytes(), Some(0));
            assert!(matches!(view.read_byte(), Err(ReadError::EndOfStream)));
            assert!(matches!(view.transcribe(1), Err(ReadError::EndOfStream)));
        }
        Err(_) => panic!("skipping to the end is legal"),
    }
}

#[test]
fn skip_past_the_end_is_refused_under_a_bound_at_the_end() {
    let view = BorrowView::new_offset(sample(), 4).bound(16);
    match view.skip(16) {
        Ok(view) => {
            assert_eq!(view.bound_len(), Some(0));
            assert!(matches!(view.skip(1), Err(ReadError::EndOfStream)));
        }
        Err(_) => panic!("skipping to the bound is legal"),
    }
}

#[test]
fn skip_past_the_end_is_refused_without_a_bound() {
    let data = sample();
    for offset in 0..=data.len() {
        let view = BorrowView::new_offset(data.clone(), offset);
        let left = (data.len() - offset) as u64;
        match view.clone().skip(left) {
            Ok(end) => {
                assert_eq!(end.bound_len(), Some(0));
                assert!(matches!(end.skip(1), Err(ReadError::EndOfStream)));
            }
            Err(_) => panic!("skipping to the end is legal"),
        }
        assert!(matches!(view.skip(left + 1), Err(ReadError::EndOfStream)));
    }
}

#[test]
fn skip_from_beyond_the_end_is_refused() {
    let view = BorrowView::new_offset(sample(), 21);
    assert!(matches!(view.clone().skip(0), Err(ReadError::EndOfStream)));
    assert!(matches!(view.skip(1), Err(ReadError::EndOfStream)));
}

#[test]
fn skip_of_the_largest_count_is_refused() {
    let view = BorrowView::new_offset(vec![1u8, 2, 3], 1);
    assert!(matches!(view.clone().skip(u64::MAX), Err(ReadError::EndOfStream)));
    assert!(matches!(
        view.clone().skip(u64::MAX - 1),
        Err(ReadError::EndOfStream)
    ));
    // The view is as it was: nothing wrapped around.
    assert!(view.read_byte() == Ok(2));
    assert!(view.skip(2).is_ok());
}

#[test]
fn skip_whose_sum_overflows_is_refused() {
    let view = BorrowView::new_offset(sample(), usize::MAX);
    assert!(matches!(view.clone().skip(1), Err(ReadError::EndOfStream)));
    assert!(matches!(view.skip(u64::MAX), Err(ReadError::EndOfStream)));
}

#[test]
fn skip_under_a_bound_of_the_largest_count() {
    let view = BorrowView::new_offset(sample(), 5).bound(u64::MAX);
    assert_eq!(farthest(&view, 20), Some(15));
    assert!(matches!(view.skip(u64::MAX), Err(ReadError::EndOfStream)));
}

#[test]
fn bound_by_two_counts_is_bound_by_the_smaller() {
    let data = sample();
    for offset in [0usize, 3, 12, 20, 25] {
        let left = data.len().checked_sub(offset).map(|left| left as u64);
        for n in 0u64..12 {
            for m in 0u64..12 {
                let both = BorrowView::new_offset(data.clone(), offset)
                    .bound(n)
                    .bound(m);
                let other = BorrowView::new_offset(data.clone(), offset)
                    .bound(m)
                    .bound(n);
                let least = BorrowView::new_offset(data.clone(), offset).bound(n.min(m));
                // As far as the smaller count, and no further than the end.
                let far = left.map(|left| left.min(n).min(m));
                assert_eq!(farthest(&both, 14), far);
                assert_eq!(farthest(&other, 14), far);
                assert_eq!(farthest(&least, 14), far);
                assert_eq!(seen(&both), seen(&least));
                for s in 0u64..14 {
                    match (both.clone().skip(s), least.clone().skip(s)) {
                        (Ok(x), Ok(y)) => {
                            assert!(x.read_byte() == y.read_byte());
                            assert_eq!(seen(&x), seen(&y));
                        }
                        (Err(x), Err(y)) => assert!(x == y),
                        _ => panic!("the two bounds disagree on skip({})", s),
                    }
                }
            }
        }
    }
}

#[test]
fn bound_counts_from_where_the_view_stands() {
    let view = BorrowView::new(sample()).bound(10);
    match view.skip(4) {
        Ok(view) => {
            assert_eq!(farthest(&view, 12), Some(6));
            let wider = view.clone().bound(9);
            assert_eq!(farthest(&wider, 12), Some(6));
            let tighter = view.bound(2);
            assert_eq!(farthest(&tighter, 12), Some(2));
        }
        Err(_) => panic!("four is within the bound of ten"),
    }
}

#[test]
fn bound_of_nothing_refuses_every_skip_but_the_empty_one() {
    let view = BorrowView::new(sample()).bound(0);
    assert!(view.clone().skip(0).is_ok());
    assert!(matches!(view.clone().skip(1), Err(ReadError::EndOfStream)));
    assert!(view.read_byte() == Ok(1));
}

#[test]
fn bound_beyond_the_container_leaves_the_end_in_charge() {
    let view = BorrowView::new(sample()).bound(30);
    assert!(view.clone().skip(20).is_ok());
    assert!(matches!(view.clone().skip(21), Err(ReadError::EndOfStream)));
    assert!(matches!(view.skip(30), Err(ReadError::EndOfStream)));
}
