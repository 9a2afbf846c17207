use baldwin::GaError;
use baldwin::crossover::apply_crossover;
use baldwin::crossover::draw_cuts;
use baldwin::genome::Individual;
use baldwin::genome::random_genome;
use baldwin::mutation::apply_mutation;
use baldwin::mutation::mutate;
use baldwin::reinsert::reinsert;
use baldwin::reinsert::top_indices;
use baldwin::rng::SeededRng;
use baldwin::select::pick_among;
use baldwin::select::select_parents;
use baldwin::util::best_index;
use baldwin::util::ceil_frac_exec;
use baldwin::util::mean_fitness;

#[test]
fn crossover_alternates_at_cut_points() {
    let a: Vec<u8> = vec![0, 0, 0, 0];
    let b: Vec<u8> = vec![1, 1, 1, 1];
    assert_eq!(apply_crossover(&a, &b, &vec![2]), vec![0, 0, 1, 1]);
    assert_eq!(apply_crossover(&a, &b, &vec![1, 3]), vec![0, 1, 1, 0]);
    assert_eq!(apply_crossover(&a, &b, &Vec::new()), vec![0, 0, 0, 0]);
}

#[test]
fn crossover_ignores_cut_order() {
    let a: Vec<u8> = vec![0, 0, 0, 0];
    let b: Vec<u8> = vec![1, 1, 1, 1];
    assert_eq!(apply_crossover(&a, &b, &vec![3, 1]), apply_crossover(&a, &b, &vec![1, 3]));
}

#[test]
fn crossover_of_identical_parents_is_identity() {
    let a: Vec<u8> = vec![1, 0, 1, 1, 0, 0];
    let b = a.clone();
    let child = apply_crossover(&a, &b, &vec![1, 2, 5]);
    assert_eq!(child, a);
}

#[test]
fn crossover_takes_every_gene_from_a_parent() {
    let a: Vec<u8> = vec![0, 1, 0, 1, 0];
    let b: Vec<u8> = vec![1, 1, 0, 0, 1];
    let child = apply_crossover(&a, &b, &vec![2, 4]);
    for i in 0..child.len() {
        assert!(child[i] == a[i] || child[i] == b[i]);
    }
}

#[test]
fn mutation_draws_dictate_the_child() {
    let g: Vec<u8> = vec![5, 5, 5];
    let draws: Vec<(u64, u8)> = vec![(0, 7), (1, 8), (0, 9)];
    // threshold 1: only coins below 1 mutate
    assert_eq!(apply_mutation(&g, &draws, 1), vec![7, 5, 9]);
    // threshold 0: nothing mutates
    assert_eq!(apply_mutation(&g, &draws, 0), vec![5, 5, 5]);
    // threshold 2: every coin is below it, every gene is its fresh draw
    assert_eq!(apply_mutation(&g, &draws, 2), vec![7, 8, 9]);
}

#[test]
fn mutation_with_probability_zero_changes_nothing() {
    let mut rng = SeededRng::new(11);
    let g: Vec<u8> = vec![0, 1, 1, 0, 1, 0];
    let child = mutate(&mut rng, &g, 0, 100, 0, 2);
    assert_eq!(child, g);
}

#[test]
fn mutation_with_probability_one_stays_in_domain() {
    let mut rng = SeededRng::new(12);
    let g: Vec<u8> = vec![4, 4, 4, 4, 4, 4, 4, 4];
    let child = mutate(&mut rng, &g, 1, 1, 0, 5);
    assert_eq!(child.len(), g.len());
    for gene in &child {
        assert!(*gene < 5);
    }
}

#[test]
fn random_genomes_have_shape_and_domain() {
    let mut rng = SeededRng::new(3);
    let g = random_genome(&mut rng, 40, 2, 6);
    assert_eq!(g.len(), 40);
    for gene in &g {
        assert!(2 <= *gene && *gene < 6);
    }
}

#[test]
fn drawn_cuts_are_distinct_and_in_range() {
    let mut rng = SeededRng::new(4);
    let cuts = draw_cuts(&mut rng, 3, 10);
    assert_eq!(cuts.len(), 3);
    for (i, c) in cuts.iter().enumerate() {
        assert!(1 <= *c && *c < 10);
        for d in cuts.iter().skip(i + 1) {
            assert_ne!(*c, *d);
        }
    }
}

#[test]
fn drawn_cuts_clamp_to_available_boundaries() {
    let mut rng = SeededRng::new(5);
    let cuts = draw_cuts(&mut rng, 100, 10);
    assert_eq!(cuts.len(), 9);
    let none = draw_cuts(&mut rng, 100, 1);
    assert_eq!(none.len(), 0);
}

#[test]
fn mean_fitness_is_exact() {
    assert_eq!(mean_fitness(&vec![3, 4, 5]), Ok(4));
    assert_eq!(mean_fitness(&vec![1, 2]), Ok(1));
    assert_eq!(mean_fitness(&Vec::new()), Err(GaError::ContractViolation));
}

#[test]
fn best_index_breaks_ties_early() {
    assert_eq!(best_index(&vec![1, 5, 5, 2]), 1);
    assert_eq!(best_index(&vec![9]), 0);
    assert_eq!(best_index(&vec![0, 0, 3]), 2);
}

#[test]
fn ceil_frac_rounds_up() {
    assert_eq!(ceil_frac_exec(10, 7, 10), 7);
    assert_eq!(ceil_frac_exec(10, 1, 3), 4);
    assert_eq!(ceil_frac_exec(10, 0, 3), 0);
    assert_eq!(ceil_frac_exec(10, 3, 3), 10);
}

#[test]
fn top_indices_rank_by_score_then_position() {
    let fits: Vec<u64> = vec![3, 9, 9, 1];
    assert_eq!(top_indices(&fits, 3), vec![1, 2, 0]);
    assert_eq!(top_indices(&fits, 0), Vec::<usize>::new());
    assert_eq!(top_indices(&fits, 4), vec![1, 2, 0, 3]);
}

#[test]
fn pick_among_prefers_score_then_position() {
    let fits: Vec<u64> = vec![1, 7, 7, 2];
    assert_eq!(pick_among(&fits, &vec![3, 0]), 3);
    assert_eq!(pick_among(&fits, &vec![2, 1]), 1);
    assert_eq!(pick_among(&fits, &vec![0]), 0);
}

#[test]
fn selecting_from_an_empty_population_is_a_contract_violation() {
    let mut rng = SeededRng::new(6);
    let fits: Vec<u64> = Vec::new();
    assert_eq!(select_parents(&mut rng, &fits, 7, 10, 2), Err(GaError::ContractViolation));
}

#[test]
fn selecting_from_a_single_individual_is_a_contract_violation() {
    let mut rng = SeededRng::new(7);
    let fits: Vec<u64> = vec![5];
    assert_eq!(select_parents(&mut rng, &fits, 7, 10, 2), Err(GaError::ContractViolation));
}

#[test]
fn selection_returns_the_configured_share() {
    let mut rng = SeededRng::new(8);
    let fits: Vec<u64> = vec![1, 2, 3, 4, 5, 6, 7, 8, 9, 10];
    let pool = select_parents(&mut rng, &fits, 7, 10, 2).unwrap();
    assert_eq!(pool.len(), 7);
    for p in &pool {
        assert!(*p < fits.len());
    }
    // a minimum of two candidates, so a breeding pair always exists
    let small = select_parents(&mut rng, &vec![4, 4], 1, 100, 2).unwrap();
    assert_eq!(small.len(), 2);
}

fn ind(genome: Vec<u8>, fitness: u64) -> Individual {
    Individual { genome, cached: Some(fitness) }
}

#[test]
fn reinsertion_carries_winning_elites() {
    let parents = vec![ind(vec![9, 9], 5), ind(vec![8, 8], 1), ind(vec![7, 7], 3)];
    let parent_fits: Vec<u64> = vec![5, 1, 3];
    let offspring = vec![ind(vec![0, 0], 2), ind(vec![1, 1], 4)];
    let offspring_fits: Vec<u64> = vec![2, 4];
    let elites = top_indices(&parent_fits, 1);
    assert_eq!(elites, vec![0]);
    let next = reinsert(&parents, &parent_fits, &offspring, &offspring_fits, &elites, true);
    assert_eq!(next.len(), 3);
    // offspring fill the front, repeating cyclically
    assert_eq!(next[0].genome, vec![0, 0]);
    assert_eq!(next[1].genome, vec![1, 1]);
    // the best parent (score 5) displaces the offspring in the last slot (score 2)
    assert_eq!(next[2].genome, vec![9, 9]);
    assert_eq!(next[2].cached, Some(5));
}

#[test]
fn strict_reinsertion_rejects_a_tie() {
    let parents = vec![ind(vec![9], 2), ind(vec![8], 0)];
    let parent_fits: Vec<u64> = vec![2, 0];
    let offspring = vec![ind(vec![0], 1), ind(vec![1], 2)];
    let offspring_fits: Vec<u64> = vec![1, 2];
    let elites = vec![0];
    // slot 1 holds offspring 1 with score 2; the elite also scores 2
    let strict = reinsert(&parents, &parent_fits, &offspring, &offspring_fits, &elites, true);
    assert_eq!(strict[1].genome, vec![1]);
    let lax = reinsert(&parents, &parent_fits, &offspring, &offspring_fits, &elites, false);
    assert_eq!(lax[1].genome, vec![9]);
}
