use uno_no_mercy_video::random::SeededRng;

#[test]
fn same_seed_gives_the_same_numbers() {
    let mut a = SeededRng::new(42);
    let mut b = SeededRng::new(42);
    for bound in [1u32, 2, 10, 400, 1080, u32::MAX] {
        let x = a.below(bound);
        let y = b.below(bound);
        assert_eq!(x, y);
        assert!(x < bound);
    }
}

#[test]
fn numbers_stay_below_the_bound() {
    let mut rng = SeededRng::new(7);
    let mut seen = [false; 4];
    for _ in 0..200 {
        let v = rng.below(4);
        assert!(v < 4);
        seen[v as usize] = true;
    }
    assert_eq!(seen, [true; 4]);
}

#[test]
fn different_seeds_give_different_streams() {
    let mut a = SeededRng::new(1);
    let mut b = SeededRng::new(2);
    let xs: Vec<u32> = (0..16).map(|_| a.below(1_000_000)).collect();
    let ys: Vec<u32> = (0..16).map(|_| b.below(1_000_000)).collect();
    assert_ne!(xs, ys);
}
