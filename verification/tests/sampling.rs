use gan::{element_at, quantized_pick, rand_element, rand_fixed, rand_num, Fixed, STEP};

fn fx(micros: i64) -> Fixed {
    Fixed::new(micros)
}

#[test]
fn quantized_pick_enumerates_from_max_down() {
    // 0.40 .. 0.60 in steps of 0.05: 0.60, 0.55, 0.50, 0.45, 0.40
    let (min, max) = (fx(400_000), fx(600_000));
    assert_eq!(quantized_pick(min, max, STEP, 0), fx(600_000));
    assert_eq!(quantized_pick(min, max, STEP, 1), fx(550_000));
    assert_eq!(quantized_pick(min, max, STEP, 2), fx(500_000));
    assert_eq!(quantized_pick(min, max, STEP, 3), fx(450_000));
    assert_eq!(quantized_pick(min, max, STEP, 4), fx(400_000));
    // five candidates: the sixth draw is the first again
    assert_eq!(quantized_pick(min, max, STEP, 5), fx(600_000));
}

#[test]
fn quantized_pick_includes_min_off_the_grid() {
    // 0.00 .. 0.12: 0.12, 0.07, 0.02, and 0.00 itself
    let (min, max) = (fx(0), fx(120_000));
    assert_eq!(quantized_pick(min, max, STEP, 0), fx(120_000));
    assert_eq!(quantized_pick(min, max, STEP, 1), fx(70_000));
    assert_eq!(quantized_pick(min, max, STEP, 2), fx(20_000));
    assert_eq!(quantized_pick(min, max, STEP, 3), fx(0));
    assert_eq!(quantized_pick(min, max, STEP, 4), fx(120_000));
}

#[test]
fn quantized_pick_short_range_is_max() {
    for draw in 0..50usize {
        // exactly one step wide
        assert_eq!(quantized_pick(fx(100_000), fx(150_000), STEP, draw), fx(150_000));
        // narrower than a step
        assert_eq!(quantized_pick(fx(100_000), fx(120_000), STEP, draw), fx(120_000));
        // empty and reversed ranges
        assert_eq!(quantized_pick(fx(7), fx(7), STEP, draw), fx(7));
        assert_eq!(quantized_pick(fx(900_000), fx(100_000), STEP, draw), fx(100_000));
    }
}

#[test]
fn quantized_pick_negative_and_wide_ranges() {
    assert_eq!(quantized_pick(fx(-100_000), fx(100_000), STEP, 4), fx(-100_000));
    assert_eq!(quantized_pick(fx(-100_000), fx(100_000), STEP, 2), fx(0));
    let (min, max) = (fx(i64::MIN), fx(i64::MAX));
    let x = quantized_pick(min, max, STEP, usize::MAX);
    assert!(min.micros <= x.micros && x.micros <= max.micros);
    assert_eq!(quantized_pick(min, max, STEP, 1), fx(i64::MAX - STEP));
}

#[test]
fn quantized_pick_other_granularity() {
    assert_eq!(quantized_pick(fx(0), fx(10), 3, 0), fx(10));
    assert_eq!(quantized_pick(fx(0), fx(10), 3, 3), fx(1));
    assert_eq!(quantized_pick(fx(0), fx(10), 3, 4), fx(0));
    assert_eq!(quantized_pick(fx(0), fx(10), 3, 5), fx(10));
}

#[test]
fn range_invariant_of_samples() {
    let ranges = [
        (400_000i64, 600_000i64),
        (0, 1_000_000),
        (-250_000, 250_000),
        (7_000_000, 8_500_000),
        (0, 120_000),
        (100_000, 130_000),
    ];
    for (lo, hi) in ranges {
        for _ in 0..10_000 {
            let x = rand_fixed(fx(lo), fx(hi)).micros;
            assert!(lo <= x && x <= hi);
            if hi - lo <= STEP {
                assert_eq!(x, hi);
            } else if (hi - lo) % STEP == 0 {
                assert_eq!((x - lo) % STEP, 0);
            } else {
                assert!((hi - x) % STEP == 0 || x == lo);
            }
        }
    }
}

#[test]
fn samples_reach_every_candidate() {
    let mut seen = [false; 5];
    for _ in 0..10_000 {
        let x = rand_fixed(fx(400_000), fx(600_000)).micros;
        seen[((x - 400_000) / STEP) as usize] = true;
    }
    assert_eq!(seen, [true; 5]);
}

#[test]
fn element_at_wraps_around() {
    let v = vec![10u16, 20, 30];
    assert_eq!(*element_at(&v, 0), 10);
    assert_eq!(*element_at(&v, 4), 20);
    assert_eq!(*element_at(&v, 5), 30);
    assert_eq!(*element_at(&[7u8], usize::MAX), 7);
}

#[test]
fn rand_element_is_an_element() {
    let v = vec!["a".to_string(), "b".to_string(), "c".to_string()];
    let mut seen = [false; 3];
    for _ in 0..1_000 {
        let x = rand_element(&v);
        let at = v.iter().position(|y| y == x).unwrap();
        seen[at] = true;
    }
    assert_eq!(seen, [true; 3]);
    assert_eq!(*rand_element(&[42u32]), 42);
}

#[test]
fn rand_num_stays_within_bounds() {
    let mut low = false;
    let mut high = false;
    for _ in 0..2_000 {
        let x = rand_num(20, 23);
        assert!((20..=23).contains(&x));
        low |= x == 20;
        high |= x == 23;
    }
    assert!(low && high);
    assert_eq!(rand_num(9, 9), 9);
    assert_eq!(rand_num(30, 5), 5);
}
