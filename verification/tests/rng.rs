use sim_core::rng::Pcg32;

/// The PCG-XSH-RR output permutation written with the standard library's rotate.
fn reference(seed: u64, count: usize) -> Vec<u32> {
    const M: u64 = 6_364_136_223_846_793_005;
    let inc: u64 = (1_442_695_040_888_963_407u64 << 1) | 1;
    let step = |state: &mut u64| -> u32 {
        let old = *state;
        *state = old.wrapping_mul(M).wrapping_add(inc);
        let x = (((old >> 18) ^ old) >> 27) as u32;
        x.rotate_right((old >> 59) as u32)
    };
    let mut state = 0u64;
    step(&mut state);
    state = state.wrapping_add(seed);
    step(&mut state);
    (0..count).map(|_| step(&mut state)).collect()
}

#[test]
fn seed_zero_gives_the_published_stream() {
    let mut rng = Pcg32::seed_from(0);
    let got: Vec<u32> = (0..4).map(|_| rng.next_u32()).collect();
    assert_eq!(got, vec![881_477_183, 1_327_520_283, 692_503_688, 2_153_658_078]);
}

#[test]
fn seed_forty_two_gives_its_own_stream() {
    let mut rng = Pcg32::seed_from(42);
    let got: Vec<u32> = (0..4).map(|_| rng.next_u32()).collect();
    assert_eq!(got, vec![492_690_617, 1_919_685_028, 3_561_993_920, 683_038_915]);
}

#[test]
fn the_rotation_matches_the_standard_library() {
    for seed in [0u64, 1, 7, 42, 1 << 40, u64::MAX] {
        let mut rng = Pcg32::seed_from(seed);
        let got: Vec<u32> = (0..256).map(|_| rng.next_u32()).collect();
        assert_eq!(got, reference(seed, 256), "seed {seed}");
    }
}

#[test]
fn equal_seeds_give_equal_generators_and_different_seeds_differ() {
    assert_eq!(Pcg32::seed_from(9), Pcg32::seed_from(9));
    assert_ne!(Pcg32::seed_from(9), Pcg32::seed_from(10));
    let mut a = Pcg32::seed_from(123);
    let mut b = a;
    for _ in 0..100 {
        assert_eq!(a.next_u32(), b.next_u32());
    }
}
