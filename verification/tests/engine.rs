use differential_evolution::individual::Individual;
use differential_evolution::order;
use differential_evolution::population::{self_adaptive_de, select_generation, Population};
use differential_evolution::settings::Settings;
use differential_evolution::source::RandomSource;

use rand::{Rng, SeedableRng};
use rand_xorshift::XorShiftRng;

use std::cell::RefCell;
use std::rc::Rc;

/// A uniform source backed by a seeded xorshift generator.
struct XorSource {
    rng: XorShiftRng,
}

impl XorSource {
    fn seeded(seed: u64) -> XorSource {
        XorSource {
            rng: XorShiftRng::seed_from_u64(seed),
        }
    }
}

impl RandomSource for XorSource {
    fn pick(&mut self, bound: usize) -> usize {
        self.rng.gen_range(0..bound)
    }

    fn draw(&mut self, lo: u32, hi: u32) -> u32 {
        let l = f32::from_bits(lo);
        let h = f32::from_bits(hi);
        if l < h {
            self.rng.gen_range(l..h).to_bits()
        } else {
            lo
        }
    }

    fn fraction(&mut self) -> u32 {
        self.rng.gen::<f32>().to_bits()
    }
}

/// The mutation arithmetic over single-precision reals, bits in, bits out.
fn blend_f32(b3: u32, w: u32, b1: u32, b2: u32) -> u32 {
    (f32::from_bits(b3) + f32::from_bits(w) * (f32::from_bits(b1) - f32::from_bits(b2))).to_bits()
}

fn bounds_bits(pairs: &[(f32, f32)]) -> Vec<(u32, u32)> {
    pairs.iter().map(|&(a, b)| (a.to_bits(), b.to_bits())).collect()
}

fn sphere_bits(pos: &[u32]) -> u32 {
    pos.iter()
        .fold(0.0f32, |acc, &b| acc + f32::from_bits(b) * f32::from_bits(b))
        .to_bits()
}

type Recorder = Rc<RefCell<Vec<Vec<u32>>>>;

/// A settings bundle over a small population with a recording sphere cost.
fn small_settings(
    pairs: &[(f32, f32)],
    pop_size: usize,
    seed: u64,
    rec: Recorder,
) -> Settings<impl Fn(Vec<u32>) -> u32, impl Fn(u32, u32, u32, u32) -> u32, XorSource> {
    Settings {
        min_max_pos: bounds_bits(pairs),
        cr_min_max: (0.0f32.to_bits(), 1.0f32.to_bits()),
        cr_change_probability: 0.1f32.to_bits(),
        f_min_max: (0.1f32.to_bits(), 1.0f32.to_bits()),
        f_change_probability: 0.1f32.to_bits(),
        pop_size,
        rng: XorSource::seeded(seed),
        cost_function: move |pos: Vec<u32>| {
            rec.borrow_mut().push(pos.clone());
            sphere_bits(&pos)
        },
        blend: |b3: u32, w: u32, b1: u32, b2: u32| blend_f32(b3, w, b1, b2),
    }
}

#[test]
fn initial_positions_inside_bounds() {
    let pairs = [(-10.0f32, 10.0f32), (0.5, 0.75), (-3.0, -1.0)];
    let rec: Recorder = Rc::new(RefCell::new(Vec::new()));
    let mut de = Population::new(small_settings(&pairs, 8, 11, rec.clone()));
    for _ in 0..8 {
        de.eval();
    }
    let seen = rec.borrow();
    assert_eq!(seen.len(), 8);
    for pos in seen.iter() {
        assert_eq!(pos.len(), 3);
        for (d, &b) in pos.iter().enumerate() {
            let x = f32::from_bits(b);
            assert!(pairs[d].0 <= x && x < pairs[d].1);
        }
    }
    // the control parameters were seeded inside their configured ranges
    for ind in de.curr.iter() {
        let cr = f32::from_bits(ind.cr);
        let fw = f32::from_bits(ind.f);
        assert!((0.0..1.0).contains(&cr));
        assert!((0.1..1.0).contains(&fw));
    }
}

#[test]
fn evaluation_counter_steps_by_one() {
    let rec: Recorder = Rc::new(RefCell::new(Vec::new()));
    let mut de = Population::new(small_settings(&[(-1.0, 1.0)], 4, 3, rec));
    assert_eq!(de.num_cost_evaluations(), 0);
    for k in 1..=10 {
        de.eval();
        assert_eq!(de.num_cost_evaluations(), k);
    }
}

#[test]
fn generation_cycle_and_single_reproduction_pass() {
    let rec: Recorder = Rc::new(RefCell::new(Vec::new()));
    let breed_calls = Rc::new(RefCell::new(0usize));
    let calls = breed_calls.clone();
    let inner = rec.clone();
    let s = Settings {
        min_max_pos: bounds_bits(&[(-2.0, 2.0)]),
        cr_min_max: (0.0f32.to_bits(), 1.0f32.to_bits()),
        cr_change_probability: 0.1f32.to_bits(),
        f_min_max: (0.1f32.to_bits(), 1.0f32.to_bits()),
        f_change_probability: 0.1f32.to_bits(),
        pop_size: 4,
        rng: XorSource::seeded(21),
        cost_function: move |pos: Vec<u32>| {
            inner.borrow_mut().push(pos.clone());
            sphere_bits(&pos)
        },
        blend: move |b3: u32, w: u32, b1: u32, b2: u32| {
            *calls.borrow_mut() += 1;
            blend_f32(b3, w, b1, b2)
        },
    };
    let mut de = Population::new(s);
    assert_eq!(de.countdown(), 4);
    for k in 0..4 {
        de.eval();
        assert_eq!(de.countdown(), 3 - k);
    }
    // a full generation is evaluated and no reproduction has happened yet
    assert_eq!(*breed_calls.borrow(), 0);
    // the next evaluation crosses the boundary: the countdown refills (and
    // steps down once), after exactly one selection + reproduction pass —
    // with one dimension, that pass breeds each of the four slots once
    de.eval();
    assert_eq!(de.countdown(), 3);
    assert_eq!(*breed_calls.borrow(), 4);
    for _ in 0..3 {
        de.eval();
    }
    // still the same single pass until the next boundary
    assert_eq!(*breed_calls.borrow(), 4);
    de.eval();
    assert_eq!(*breed_calls.borrow(), 8);
}

#[test]
fn best_cost_trajectory_is_monotone() {
    let rec: Recorder = Rc::new(RefCell::new(Vec::new()));
    let mut de = Population::new(small_settings(&[(-10.0, 10.0); 5], 20, 5, rec));
    let mut last = f32::INFINITY;
    for _ in 0..500 {
        let now = f32::from_bits(de.step().unwrap());
        assert!(now <= last);
        last = now;
    }
}

#[test]
fn identical_seeds_run_identically() {
    let rec_a: Recorder = Rc::new(RefCell::new(Vec::new()));
    let rec_b: Recorder = Rc::new(RefCell::new(Vec::new()));
    let mut a = Population::new(small_settings(&[(-5.0, 5.0); 3], 6, 99, rec_a.clone()));
    let mut b = Population::new(small_settings(&[(-5.0, 5.0); 3], 6, 99, rec_b.clone()));
    let mut trace_a = Vec::new();
    let mut trace_b = Vec::new();
    for _ in 0..250 {
        trace_a.push(a.step());
        trace_b.push(b.step());
    }
    assert_eq!(trace_a, trace_b);
    assert_eq!(*rec_a.borrow(), *rec_b.borrow());
}

#[test]
fn selection_swaps_on_equal_cost() {
    let cost = 3.5f32.to_bits();
    let curr_pos = vec![1.0f32.to_bits()];
    let best_pos = vec![2.0f32.to_bits()];
    let mut curr = vec![Individual { pos: curr_pos.clone(), cost: Some(cost), cr: 0, f: 0 }];
    let mut best = vec![Individual { pos: best_pos.clone(), cost: Some(cost), cr: 0, f: 0 }];
    select_generation(&mut curr, &mut best);
    // equal costs: the non-strict rule moves the pair anyway
    assert_eq!(curr[0].pos, best_pos);
    assert_eq!(best[0].pos, curr_pos);
}

#[test]
fn selection_keeps_strictly_better_best() {
    let curr_pos = vec![1.0f32.to_bits()];
    let best_pos = vec![2.0f32.to_bits()];
    let mut curr =
        vec![Individual { pos: curr_pos.clone(), cost: Some(4.0f32.to_bits()), cr: 0, f: 0 }];
    let mut best =
        vec![Individual { pos: best_pos.clone(), cost: Some(3.0f32.to_bits()), cr: 0, f: 0 }];
    select_generation(&mut curr, &mut best);
    assert_eq!(curr[0].pos, curr_pos);
    assert_eq!(best[0].pos, best_pos);
}

#[test]
fn selection_fills_costless_best() {
    let curr_pos = vec![1.0f32.to_bits()];
    let best_pos = vec![2.0f32.to_bits()];
    let mut curr =
        vec![Individual { pos: curr_pos.clone(), cost: Some(4.0f32.to_bits()), cr: 0, f: 0 }];
    let mut best = vec![Individual { pos: best_pos.clone(), cost: None, cr: 0, f: 0 }];
    select_generation(&mut curr, &mut best);
    assert_eq!(best[0].pos, curr_pos);
    assert_eq!(curr[0].pos, best_pos);
}

#[test]
fn forced_dimension_mutates_despite_zero_cr() {
    let rec: Recorder = Rc::new(RefCell::new(Vec::new()));
    let inner = rec.clone();
    let sentinel = 42.0f32.to_bits();
    let s = Settings {
        min_max_pos: bounds_bits(&[(-2.0, 2.0)]),
        // cr can only ever be zero: crossover by chance is impossible
        cr_min_max: (0.0f32.to_bits(), 0.0f32.to_bits()),
        cr_change_probability: 0.1f32.to_bits(),
        f_min_max: (0.1f32.to_bits(), 1.0f32.to_bits()),
        f_change_probability: 0.1f32.to_bits(),
        pop_size: 4,
        rng: XorSource::seeded(8),
        cost_function: move |pos: Vec<u32>| {
            inner.borrow_mut().push(pos.clone());
            sphere_bits(&pos)
        },
        blend: move |_b3: u32, _w: u32, _b1: u32, _b2: u32| sentinel,
    };
    let mut de = Population::new(s);
    for _ in 0..8 {
        de.eval();
    }
    let seen = rec.borrow();
    // the second generation went through one reproduction pass: its sole
    // dimension was the forced one in every slot, so every evaluated
    // position carries the mutant value
    for pos in seen[4..8].iter() {
        assert_eq!(pos, &vec![sentinel]);
    }
}

#[test]
fn sphere_five_dimensions_converges() {
    let mut de = self_adaptive_de(
        bounds_bits(&[(-10.0, 10.0); 5]),
        |pos: Vec<u32>| sphere_bits(&pos),
        |b3: u32, w: u32, b1: u32, b2: u32| blend_f32(b3, w, b1, b2),
        XorSource::seeded(2),
    );
    let mut first_generation_best = f32::INFINITY;
    for _ in 0..100 {
        first_generation_best = f32::from_bits(de.step().unwrap());
    }
    for _ in 0..9900 {
        de.step();
    }
    let (cost_bits, pos) = de.best().unwrap();
    let cost = f32::from_bits(cost_bits);
    assert!(cost.is_finite());
    assert!(cost >= 0.0);
    assert!(cost < 1.0);
    assert!(cost < first_generation_best);
    assert_eq!(pos.len(), 5);
}

#[test]
fn degenerate_point_bounds_stay_at_zero() {
    let rec: Recorder = Rc::new(RefCell::new(Vec::new()));
    let mut de = Population::new(small_settings(&[(0.0, 0.0)], 4, 13, rec.clone()));
    for _ in 0..20 {
        let best_bits = de.step().unwrap();
        assert_eq!(f32::from_bits(best_bits), 0.0);
    }
    for pos in rec.borrow().iter() {
        assert_eq!(pos, &vec![0.0f32.to_bits()]);
    }
}

#[test]
fn best_is_absent_before_any_evaluation() {
    let rec: Recorder = Rc::new(RefCell::new(Vec::new()));
    let de = Population::new(small_settings(&[(-1.0, 1.0)], 4, 17, rec));
    assert!(de.best().is_none());
    assert_eq!(de.num_cost_evaluations(), 0);
    assert_eq!(de.countdown(), 4);
}

#[test]
fn best_reports_the_evaluated_position() {
    let rec: Recorder = Rc::new(RefCell::new(Vec::new()));
    let mut de = Population::new(small_settings(&[(-4.0, 4.0), (1.0, 2.0)], 5, 23, rec.clone()));
    de.eval();
    let (cost_bits, pos) = de.best().unwrap();
    let seen = rec.borrow();
    assert_eq!(pos, seen[0]);
    assert_eq!(cost_bits, sphere_bits(&seen[0]));
}

#[test]
fn default_settings_take_the_standard_values() {
    let s = Settings::default(
        bounds_bits(&[(-1.0, 1.0)]),
        |pos: Vec<u32>| sphere_bits(&pos),
        |b3: u32, w: u32, b1: u32, b2: u32| blend_f32(b3, w, b1, b2),
        XorSource::seeded(1),
    );
    assert_eq!(s.cr_min_max, (0.0f32.to_bits(), 1.0f32.to_bits()));
    assert_eq!(s.cr_change_probability, 0.1f32.to_bits());
    assert_eq!(s.f_min_max, (0.1f32.to_bits(), 1.0f32.to_bits()));
    assert_eq!(s.f_change_probability, 0.1f32.to_bits());
    assert_eq!(s.pop_size, 100);
}

#[test]
fn encoded_order_matches_single_precision() {
    let b = |x: f32| x.to_bits();
    assert!(order::lt(b(1.0), b(2.0)));
    assert!(!order::lt(b(2.0), b(1.0)));
    assert!(order::lt(b(-1.0), b(1.0)));
    assert!(order::lt(b(-2.0), b(-1.0)));
    assert!(order::lt(b(-1.0), b(0.0)));
    assert!(!order::lt(b(1.0), b(1.0)));
    assert!(order::le(b(1.0), b(1.0)));
    // the two zeros are the same real
    assert!(order::le(b(0.0), b(-0.0)));
    assert!(order::le(b(-0.0), b(0.0)));
    assert!(!order::lt(b(0.0), b(-0.0)));
    // not-a-number compares with nothing
    let nan = f32::NAN.to_bits();
    assert!(!order::lt(nan, b(1.0)));
    assert!(!order::lt(b(1.0), nan));
    assert!(!order::le(nan, nan));
    // infinities order at the ends
    assert!(order::lt(b(f32::NEG_INFINITY), b(-1.0e30)));
    assert!(order::lt(b(1.0e30), b(f32::INFINITY)));
}
