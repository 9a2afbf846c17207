use baldwin::GaError;
use baldwin::engine::Config;
use baldwin::engine::Engine;
use baldwin::engine::EngineState;
use baldwin::engine::StepResult;
use baldwin::engine::StopCondition;
use baldwin::engine::StopReason;
use baldwin::turtle::FitnessCalc;
use baldwin::turtle::Goal;

fn turtle_config(
    population_size: usize,
    genome_length: usize,
    stop_conditions: Vec<StopCondition>,
    seed: u64,
) -> Config {
    Config {
        population_size,
        genome_length,
        lo: 0,
        hi: 2,
        selection_ratio_num: 7,
        selection_ratio_den: 10,
        tournament_size: 2,
        num_cut_points: genome_length / 6,
        mutation_num: 1,
        mutation_den: 100,
        elitism_num: 7,
        elitism_den: 10,
        strict_elitism: true,
        stop_conditions,
        seed,
    }
}

fn turtle_engine(
    population_size: usize,
    genome_length: usize,
    stop_conditions: Vec<StopCondition>,
    seed: u64,
) -> Engine<FitnessCalc> {
    let config = turtle_config(population_size, genome_length, stop_conditions, seed);
    let calc = FitnessCalc { goal: Goal { target_length: genome_length as u64 } };
    Engine::new(config, calc).unwrap()
}

#[test]
fn construction_rejects_bad_configurations() {
    let calc = FitnessCalc { goal: Goal { target_length: 10 } };
    let stops = vec![StopCondition::GenerationLimit(5)];
    let mut c = turtle_config(0, 10, stops.clone(), 1);
    assert!(matches!(Engine::new(c, calc), Err(GaError::InvalidConfiguration)));
    c = turtle_config(10, 0, stops.clone(), 1);
    assert!(matches!(Engine::new(c, calc), Err(GaError::InvalidConfiguration)));
    c = turtle_config(10, 10, stops.clone(), 1);
    c.lo = 2;
    c.hi = 2;
    assert!(matches!(Engine::new(c, calc), Err(GaError::InvalidConfiguration)));
    c = turtle_config(10, 10, Vec::new(), 1);
    assert!(matches!(Engine::new(c, calc), Err(GaError::InvalidConfiguration)));
    c = turtle_config(10, 10, stops.clone(), 1);
    c.mutation_den = 0;
    assert!(matches!(Engine::new(c, calc), Err(GaError::InvalidConfiguration)));
    c = turtle_config(10, 10, stops.clone(), 1);
    c.elitism_num = 11;
    c.elitism_den = 10;
    assert!(matches!(Engine::new(c, calc), Err(GaError::InvalidConfiguration)));
}

#[test]
fn construction_samples_a_well_formed_population() {
    let engine = turtle_engine(20, 8, vec![StopCondition::GenerationLimit(5)], 2);
    assert_eq!(engine.generation(), 0);
    assert_eq!(engine.state(), EngineState::Initialized);
    assert_eq!(engine.population_size(), 20);
    for i in 0..20 {
        let genome = engine.genome_at(i);
        assert_eq!(genome.len(), 8);
        for gene in &genome {
            assert!(*gene < 2);
        }
    }
    assert!(engine.best_solution().is_none());
}

#[test]
fn population_size_is_invariant_across_generations() {
    let mut engine = turtle_engine(30, 6, vec![StopCondition::GenerationLimit(100)], 3);
    for _ in 0..5 {
        match engine.step() {
            StepResult::Intermediate(_) => {},
            other => panic!("expected an intermediate step, got {:?}", other),
        }
        assert_eq!(engine.population_size(), 30);
    }
}

#[test]
fn genes_stay_in_domain_across_generations() {
    let mut engine = turtle_engine(25, 7, vec![StopCondition::GenerationLimit(100)], 4);
    for _ in 0..5 {
        engine.step();
        for i in 0..engine.population_size() {
            let genome = engine.genome_at(i);
            assert_eq!(genome.len(), 7);
            for gene in &genome {
                assert!(*gene < 2);
            }
        }
    }
}

#[test]
fn best_fitness_never_decreases() {
    let mut engine = turtle_engine(40, 12, vec![StopCondition::GenerationLimit(100)], 5);
    let mut last: u64 = 0;
    for _ in 0..10 {
        engine.step();
        let (_, fitness) = engine.best_solution().expect("a best solution after stepping");
        assert!(fitness >= last);
        last = fitness;
    }
}

#[test]
fn run_reaches_the_fitness_limit() {
    let stops = vec![StopCondition::GenerationLimit(50), StopCondition::FitnessLimit(10)];
    let mut engine = turtle_engine(100, 10, stops, 42);
    loop {
        match engine.step() {
            StepResult::Intermediate(rep) => {
                assert!(rep.generation <= 50);
            },
            StepResult::Final(reason, rep) => {
                assert_eq!(reason, StopReason::FitnessLimitReached);
                assert_eq!(rep.best_fitness, 10);
                assert_eq!(rep.best_genome, vec![0; 10]);
                assert_eq!(engine.state(), EngineState::Finished(reason));
                break;
            },
            StepResult::Failure(kind) => panic!("unexpected failure: {:?}", kind),
        }
    }
}

#[test]
fn run_hits_the_generation_limit() {
    let stops = vec![StopCondition::GenerationLimit(1), StopCondition::FitnessLimit(1000)];
    let mut engine = turtle_engine(100, 10, stops, 43);
    match engine.step() {
        StepResult::Final(reason, rep) => {
            assert_eq!(reason, StopReason::GenerationLimitReached);
            assert_eq!(rep.generation, 1);
        },
        other => panic!("expected a final result, got {:?}", other),
    }
    assert_eq!(engine.generation(), 1);
}

#[test]
fn stepping_a_finished_run_fails() {
    let stops = vec![StopCondition::GenerationLimit(1)];
    let mut engine = turtle_engine(10, 4, stops, 44);
    match engine.step() {
        StepResult::Final(reason, _) => assert_eq!(reason, StopReason::GenerationLimitReached),
        other => panic!("expected a final result, got {:?}", other),
    }
    match engine.step() {
        StepResult::Failure(kind) => assert_eq!(kind, GaError::ContractViolation),
        other => panic!("expected a failure, got {:?}", other),
    }
    assert_eq!(engine.state(), EngineState::Finished(StopReason::GenerationLimitReached));
}

#[test]
fn a_population_too_small_to_breed_fails() {
    let stops = vec![StopCondition::GenerationLimit(5)];
    let mut engine = turtle_engine(1, 4, stops, 45);
    match engine.step() {
        StepResult::Failure(kind) => assert_eq!(kind, GaError::ContractViolation),
        other => panic!("expected a failure, got {:?}", other),
    }
    assert_eq!(engine.state(), EngineState::Failed(GaError::ContractViolation));
    match engine.step() {
        StepResult::Failure(kind) => assert_eq!(kind, GaError::ContractViolation),
        other => panic!("expected a failure, got {:?}", other),
    }
}

#[test]
fn intermediate_reports_carry_the_running_average() {
    let stops = vec![StopCondition::GenerationLimit(100)];
    let mut engine = turtle_engine(10, 5, stops, 46);
    match engine.step() {
        StepResult::Intermediate(rep) => {
            assert_eq!(rep.generation, 1);
            // the mean of ten scores each at most five
            assert!(rep.average_fitness <= 5);
            assert!(rep.best_fitness <= 5);
            assert_eq!(rep.best_genome.len(), 5);
        },
        other => panic!("expected an intermediate step, got {:?}", other),
    }
}
