//! The simulation driver: one generation per `step` call.
//!
//! The driver owns the population, the random source and the configured
//! operator parameters. Each step evaluates the population, breeds the next
//! one through selection, crossover, mutation and elitist reinsertion,
//! tracks the best solution observed so far, and reports an intermediate or
//! final result depending on the configured stop conditions. Contract
//! violations in sub-operators surface as a terminal failure; stepping a
//! finished or failed simulation is itself a contract violation.

use vstd::prelude::*;
use crate::GaError;
use crate::crossover::apply_crossover;
use crate::crossover::draw_cuts;
use crate::fitness::FitnessFunction;
use crate::genome::Individual;
use crate::genome::clone_genome;
use crate::genome::genome_in_domain;
use crate::genome::init_population;
use crate::mutation::mutate;
use crate::reinsert::cyclic;
use crate::reinsert::reinsert;
use crate::reinsert::same_individual;
use crate::reinsert::top_indices;
use crate::rng::SeededRng;
use crate::select::select_parents;
use crate::util::best_index;
use crate::util::ceil_frac_exec;
use crate::util::sum_of;

verus! {

/// A pluggable stopping predicate; a list of them is combined by logical
/// or, and the first to trigger names the reason.
#[derive(Debug, Clone, Copy, PartialEq, Eq, Structural)]
pub enum StopCondition {
    /// Triggers once the generation counter reaches the limit.
    GenerationLimit(u64),
    /// Triggers once the best fitness observed reaches the limit.
    FitnessLimit(u64),
}

/// Why a run ended.
#[derive(Debug, Clone, Copy, PartialEq, Eq, Structural)]
pub enum StopReason {
    GenerationLimitReached,
    FitnessLimitReached,
    Error,
}

/// Whether a stop condition triggers in the given simulation state.
pub open spec fn triggered(c: StopCondition, generation: u64, best_fit: u64) -> bool {
    match c {
        StopCondition::GenerationLimit(g) => generation >= g,
        StopCondition::FitnessLimit(f) => best_fit >= f,
    }
}

/// The reason a stop condition reports when it triggers.
pub open spec fn reason_of(c: StopCondition) -> StopReason {
    match c {
        StopCondition::GenerationLimit(_) => StopReason::GenerationLimitReached,
        StopCondition::FitnessLimit(_) => StopReason::FitnessLimitReached,
    }
}

/// The reason of the first stop condition that triggers in the given
/// simulation state, if any does.
pub open spec fn first_triggered(stops: Seq<StopCondition>, generation: u64, best_fit: u64) -> Option<
    StopReason,
>
    decreases stops.len(),
{
    if stops.len() == 0 {
        None
    } else if triggered(stops[0], generation, best_fit) {
        Some(reason_of(stops[0]))
    } else {
        first_triggered(stops.drop_first(), generation, best_fit)
    }
}

/// Evaluates the stop conditions in order and reports the first that
/// triggers.
fn check_stops(stops: &Vec<StopCondition>, generation: u64, best_fit: u64) -> (r: Option<StopReason>)
    ensures
        r == first_triggered(stops@, generation, best_fit),
{
    let mut i: usize = 0;
    proof {
        assert(stops@.skip(0) =~= stops@);
    }
    while i < stops.len()
        invariant
            i <= stops@.len(),
            first_triggered(stops@, generation, best_fit) == first_triggered(
                stops@.skip(i as int),
                generation,
                best_fit,
            ),
        decreases stops@.len() - i,
    {
        proof {
            assert(stops@.skip(i as int)[0] == stops@[i as int]);
            assert(stops@.skip(i as int).drop_first() =~= stops@.skip(i as int + 1));
        }
        let hit = match stops[i] {
            StopCondition::GenerationLimit(g) => generation >= g,
            StopCondition::FitnessLimit(f) => best_fit >= f,
        };
        if hit {
            let reason = match stops[i] {
                StopCondition::GenerationLimit(_) => StopReason::GenerationLimitReached,
                StopCondition::FitnessLimit(_) => StopReason::FitnessLimitReached,
            };
            return Some(reason);
        }
        i = i + 1;
    }
    None
}

/// Everything a run is configured with: population shape, gene domain,
/// operator parameters (ratios as explicit fractions, so a run needs no
/// floating point), stop conditions and the random seed.
#[derive(Debug)]
pub struct Config {
    /// `N`: how many individuals every generation holds.
    pub population_size: usize,
    /// `L`: how many genes every genome holds.
    pub genome_length: usize,
    /// Inclusive lower bound of the gene domain.
    pub lo: u8,
    /// Exclusive upper bound of the gene domain.
    pub hi: u8,
    /// Fraction of the population chosen as breeding candidates.
    pub selection_ratio_num: u64,
    pub selection_ratio_den: u64,
    /// How many contenders each selection tournament draws.
    pub tournament_size: usize,
    /// How many crossover cut points to draw (clamped to `L - 1`).
    pub num_cut_points: usize,
    /// Per-gene mutation probability.
    pub mutation_num: u64,
    pub mutation_den: u64,
    /// Fraction of slots reserved for the best parents.
    pub elitism_num: u64,
    pub elitism_den: u64,
    /// Whether an elite must strictly outscore the offspring it displaces.
    pub strict_elitism: bool,
    /// At least one stop condition; combined by logical or.
    pub stop_conditions: Vec<StopCondition>,
    /// Seed of the run's random source.
    pub seed: u64,
}

/// The configuration rules checked at construction.
pub open spec fn config_valid(c: &Config) -> bool {
    &&& c.population_size > 0
    &&& c.genome_length > 0
    &&& c.lo < c.hi
    &&& c.selection_ratio_den > 0
    &&& c.selection_ratio_num <= c.selection_ratio_den
    &&& c.tournament_size > 0
    &&& c.mutation_den > 0
    &&& c.mutation_num <= c.mutation_den
    &&& c.elitism_den > 0
    &&& c.elitism_num <= c.elitism_den
    &&& c.stop_conditions@.len() > 0
}

/// Where the simulation state machine stands.
#[derive(Debug, Clone, Copy, PartialEq, Eq, Structural)]
pub enum EngineState {
    /// Constructed; no step taken yet.
    Initialized,
    /// At least one step taken, no stop condition triggered yet.
    Stepping,
    /// A stop condition triggered; no further stepping is permitted.
    Finished(StopReason),
    /// A sub-operator reported a contract violation; terminal.
    Failed(GaError),
}

/// What one step reports: the new generation count, the average fitness of
/// the population that was evaluated, and the best solution observed so
/// far.
#[derive(Debug)]
pub struct StepReport {
    pub generation: u64,
    pub average_fitness: u64,
    pub best_genome: Vec<u8>,
    pub best_fitness: u64,
}

/// The outcome of one `step` call.
#[derive(Debug)]
pub enum StepResult {
    /// The run goes on.
    Intermediate(StepReport),
    /// A stop condition triggered; the run is over.
    Final(StopReason, StepReport),
    /// A contract violation surfaced; the run is over.
    Failure(GaError),
}

/// A state the simulation can still step from.
pub open spec fn active(s: EngineState) -> bool {
    s is Initialized || s is Stepping
}

/// What a step report must hold: the engine's new generation count, the
/// mean of the scores the step evaluated, and the best solution observed
/// so far with its score.
pub open spec fn report_ok<F: FitnessFunction>(e: Engine<F>, evaluated: Seq<u64>, rep: StepReport) -> bool {
    &&& rep.generation == e.generation
    &&& evaluated.len() > 0
    &&& rep.average_fitness == sum_of(evaluated) / (evaluated.len() as int)
    &&& e.best is Some
    &&& rep.best_genome@ == e.best->Some_0.genome@
    &&& rep.best_fitness == e.best_fit()
}

/// The fitness of each individual of a population, by position.
pub open spec fn fitness_seq<F: FitnessFunction>(f: F, pop: Seq<Individual>) -> Seq<u64> {
    Seq::new(pop.len(), |i: int| f.fitness_spec(pop[i].genome@))
}

/// Scores a population, reusing each cached fitness and caching each score
/// computed afresh; genomes are left untouched.
pub fn evaluate_population<F: FitnessFunction>(fitness: &F, pop: &Vec<Individual>) -> (r: (
    Vec<Individual>,
    Vec<u64>,
))
    requires
        forall|i: int|
            0 <= i < pop@.len() ==> fitness.valid_genome((#[trigger] pop@[i]).genome@) && (
            pop@[i].cached matches Some(f) ==> f == fitness.fitness_spec(pop@[i].genome@)),
    ensures
        r.0@.len() == pop@.len(),
        r.1@ == fitness_seq(*fitness, pop@),
        forall|i: int|
            0 <= i < pop@.len() ==> (#[trigger] r.0@[i]).genome@ == pop@[i].genome@
                && r.0@[i].cached == Some(fitness.fitness_spec(pop@[i].genome@)),
{
    let mut out: Vec<Individual> = Vec::new();
    let mut fits: Vec<u64> = Vec::new();
    let mut i: usize = 0;
    while i < pop.len()
        invariant
            i <= pop@.len(),
            out@.len() == i,
            fits@.len() == i,
            forall|j: int|
                0 <= j < pop@.len() ==> fitness.valid_genome((#[trigger] pop@[j]).genome@) && (
                pop@[j].cached matches Some(f) ==> f == fitness.fitness_spec(pop@[j].genome@)),
            forall|j: int|
                0 <= j < i ==> (#[trigger] out@[j]).genome@ == pop@[j].genome@ && out@[j].cached
                    == Some(fitness.fitness_spec(pop@[j].genome@)),
            forall|j: int| 0 <= j < i ==> #[trigger] fits@[j] == fitness.fitness_spec(pop@[j].genome@),
        decreases pop@.len() - i,
    {
        let f = match pop[i].cached {
            Some(f) => f,
            None => fitness.fitness_of(&pop[i].genome),
        };
        let g = clone_genome(&pop[i].genome);
        out.push(Individual { genome: g, cached: Some(f) });
        fits.push(f);
        i = i + 1;
    }
    proof {
        assert(fits@ =~= fitness_seq(*fitness, pop@));
    }
    (out, fits)
}

/// The evolutionary engine: the population being evolved, the best solution
/// observed so far, and the run's configuration and random source.
pub struct Engine<F: FitnessFunction> {
    pub fitness: F,
    pub config: Config,
    pub rng: SeededRng,
    pub population: Vec<Individual>,
    pub generation: u64,
    pub best: Option<Individual>,
    pub state: EngineState,
}

impl<F: FitnessFunction> Engine<F> {
    /// A genome of the configured length whose genes all lie in the
    /// configured domain.
    pub open spec fn genome_ok(&self, g: Seq<u8>) -> bool {
        g.len() == self.config.genome_length && genome_in_domain(g, self.config.lo, self.config.hi)
    }

    /// A structurally sound individual: its genome is well-shaped and its
    /// fitness cache, if set, holds the genome's true score.
    pub open spec fn ind_ok(&self, ind: Individual) -> bool {
        self.genome_ok(ind.genome@) && (ind.cached matches Some(f) ==> f
            == self.fitness.fitness_spec(ind.genome@))
    }

    /// The engine invariant: a valid configuration, a population of exactly
    /// the configured size whose individuals are all sound, a sound best
    /// solution with its score cached, and an evaluator defined on every
    /// well-shaped genome.
    pub open spec fn wf(&self) -> bool {
        &&& config_valid(&self.config)
        &&& self.population@.len() == self.config.population_size
        &&& forall|i: int|
            0 <= i < self.population@.len() ==> self.ind_ok(#[trigger] self.population@[i])
        &&& (self.best matches Some(b) ==> self.genome_ok(b.genome@) && b.cached == Some(
            self.fitness.fitness_spec(b.genome@),
        ))
        &&& forall|g: Seq<u8>|
            self.genome_ok(g) ==> #[trigger] self.fitness.valid_genome(g)
    }

    /// The score of the best solution observed so far.
    pub open spec fn best_fit(&self) -> u64
        recommends
            self.best is Some,
    {
        self.fitness.fitness_spec(self.best->Some_0.genome@)
    }

    /// Builds an engine: checks the configuration, seeds the random source,
    /// and samples the initial population uniformly from the gene domain.
    ///
    /// Fails exactly on an invalid configuration. The evaluator must be
    /// defined on every genome of the configured shape.
    pub fn new(config: Config, fitness: F) -> (r: Result<Engine<F>, GaError>)
        requires
            forall|g: Seq<u8>|
                g.len() == config.genome_length && genome_in_domain(g, config.lo, config.hi)
                    ==> #[trigger] fitness.valid_genome(g),
        ensures
            r is Err <==> !config_valid(&config),
            r is Err ==> r == Err::<Engine<F>, GaError>(GaError::InvalidConfiguration),
            r matches Ok(e) ==> e.wf() && e.generation == 0 && e.state
                == EngineState::Initialized && e.best is None && e.config == config,
    {
        let ok = config.population_size > 0 && config.genome_length > 0 && config.lo < config.hi
            && config.selection_ratio_den > 0 && config.selection_ratio_num
            <= config.selection_ratio_den && config.tournament_size > 0 && config.mutation_den > 0
            && config.mutation_num <= config.mutation_den && config.elitism_den > 0
            && config.elitism_num <= config.elitism_den && config.stop_conditions.len() > 0;
        if !ok {
            return Err(GaError::InvalidConfiguration);
        }
        let mut rng = SeededRng::new(config.seed);
        let population = init_population(
            &mut rng,
            config.population_size,
            config.genome_length,
            config.lo,
            config.hi,
        );
        Ok(
            Engine {
                fitness,
                config,
                rng,
                population,
                generation: 0,
                best: None,
                state: EngineState::Initialized,
            },
        )
    }

    /// The current generation counter; zero until the first step completes.
    pub fn generation(&self) -> (r: u64)
        ensures
            r == self.generation,
    {
        self.generation
    }

    /// Where the state machine stands.
    pub fn state(&self) -> (r: EngineState)
        ensures
            r == self.state,
    {
        self.state
    }

    /// How many individuals the population holds.
    pub fn population_size(&self) -> (r: usize)
        ensures
            r == self.population@.len(),
    {
        self.population.len()
    }

    /// A copy of the genome at the given population position.
    pub fn genome_at(&self, i: usize) -> (r: Vec<u8>)
        requires
            i < self.population@.len(),
        ensures
            r@ == self.population@[i as int].genome@,
    {
        clone_genome(&self.population[i].genome)
    }

    /// A copy of the best solution observed so far, with its score.
    pub fn best_solution(&self) -> (r: Option<(Vec<u8>, u64)>)
        requires
            self.wf(),
        ensures
            r is Some <==> self.best is Some,
            r matches Some(p) ==> p.0@ == self.best->Some_0.genome@ && p.1 == self.best_fit(),
    {
        match &self.best {
            Some(b) => {
                let f = match b.cached {
                    Some(f) => f,
                    None => {
                        proof {
                            assert(false);
                        }
                        0
                    },
                };
                Some((clone_genome(&b.genome), f))
            },
            None => None,
        }
    }

    /// Advances the simulation by one generation.
    ///
    /// The step evaluates the current population, breeds the next one
    /// through selection, crossover, mutation and elitist reinsertion,
    /// replaces the population wholesale, increments the generation
    /// counter, updates the best solution observed so far — whose score
    /// therefore never decreases — and evaluates the stop conditions in
    /// order. The first to trigger ends the run with its reason; otherwise
    /// an intermediate report is emitted. Stepping a finished or failed
    /// run, a run whose population is too small to breed, or a run whose
    /// generation counter is exhausted, is a contract violation and fails.
    pub fn step(&mut self) -> (r: StepResult)
        requires
            old(self).wf(),
        ensures
            final(self).wf(),
            final(self).config == old(self).config,
            final(self).fitness == old(self).fitness,
            !active(old(self).state) ==> (r matches StepResult::Failure(k) && k
                == GaError::ContractViolation && *final(self) == *old(self)),
            (active(old(self).state) && old(self).generation == u64::MAX) ==> (r
                matches StepResult::Failure(k) && k == GaError::ContractViolation && final(self).state == EngineState::Failed(GaError::ContractViolation) && final(self).generation
                == old(self).generation && final(self).best == old(self).best),
            (active(old(self).state) && old(self).generation < u64::MAX && old(self).config.population_size < 2) ==> (r matches StepResult::Failure(k) && k
                == GaError::ContractViolation && final(self).state == EngineState::Failed(
                GaError::ContractViolation,
            ) && final(self).generation == old(self).generation && final(self).best == old(self).best),
            (active(old(self).state) && old(self).generation < u64::MAX && old(self).config.population_size >= 2) ==> ({
                &&& final(self).generation == old(self).generation + 1
                &&& final(self).best is Some
                &&& (old(self).best is Some ==> final(self).best_fit() >= old(self).best_fit())
                &&& forall|i: int|
                    0 <= i < old(self).population@.len() ==> final(self).best_fit() >= old(self).fitness.fitness_spec((#[trigger] old(self).population@[i]).genome@)
                &&& forall|i: int|
                    0 <= i < final(self).population@.len() ==> final(self).best_fit() >= final(self).fitness.fitness_spec((#[trigger] final(self).population@[i]).genome@)
                &&& match r {
                    StepResult::Intermediate(rep) => first_triggered(
                        final(self).config.stop_conditions@,
                        final(self).generation,
                        final(self).best_fit(),
                    ) is None && final(self).state == EngineState::Stepping && report_ok(
                        *final(self),
                        fitness_seq(old(self).fitness, old(self).population@),
                        rep,
                    ),
                    StepResult::Final(reason, rep) => first_triggered(
                        final(self).config.stop_conditions@,
                        final(self).generation,
                        final(self).best_fit(),
                    ) == Some(reason) && final(self).state == EngineState::Finished(reason)
                        && report_ok(
                        *final(self),
                        fitness_seq(old(self).fitness, old(self).population@),
                        rep,
                    ),
                    StepResult::Failure(_) => false,
                }
            }),
    {
        match self.state {
            EngineState::Finished(_) => {
                return StepResult::Failure(GaError::ContractViolation);
            },
            EngineState::Failed(_) => {
                return StepResult::Failure(GaError::ContractViolation);
            },
            _ => {},
        }
        if self.generation == u64::MAX {
            self.state = EngineState::Failed(GaError::ContractViolation);
            return StepResult::Failure(GaError::ContractViolation);
        }
        // evaluate the current population
        let (parents, fits) = evaluate_population(&self.fitness, &self.population);
        let n = parents.len();
        let avg = match self.fitness.average(&fits) {
            Ok(a) => a,
            Err(_) => {
                proof {
                    assert(false);
                }
                0
            },
        };
        // selection
        let pool = match select_parents(
            &mut self.rng,
            &fits,
            self.config.selection_ratio_num,
            self.config.selection_ratio_den,
            self.config.tournament_size,
        ) {
            Ok(pool) => pool,
            Err(_) => {
                self.state = EngineState::Failed(GaError::ContractViolation);
                return StepResult::Failure(GaError::ContractViolation);
            },
        };
        let pool_len = pool.len();
        let l = self.config.genome_length;
        let lo = self.config.lo;
        let hi = self.config.hi;
        let num_cuts = self.config.num_cut_points;
        let mutation_num = self.config.mutation_num;
        let mutation_den = self.config.mutation_den;
        // crossover and mutation breed one offspring per slot
        let mut offspring: Vec<Individual> = Vec::new();
        let mut i: usize = 0;
        while i < n
            invariant
                old(self).wf(),
                self.config == old(self).config,
                self.fitness == old(self).fitness,
                self.population == old(self).population,
                self.generation == old(self).generation,
                self.best == old(self).best,
                self.state == old(self).state,
                n == self.population@.len(),
                pool_len == pool@.len() >= 2,
                forall|q: int| 0 <= q < pool@.len() ==> #[trigger] pool@[q] < n,
                l == self.config.genome_length,
                lo == self.config.lo,
                hi == self.config.hi,
                lo < hi,
                l >= 1,
                mutation_den > 0,
                mutation_num <= mutation_den,
                mutation_num == self.config.mutation_num,
                mutation_den == self.config.mutation_den,
                i <= n,
                offspring@.len() == i,
                forall|j: int|
                    0 <= j < i ==> (#[trigger] offspring@[j]).genome@.len() == l
                        && genome_in_domain(offspring@[j].genome@, lo, hi) && offspring@[j].cached
                        is None,
            decreases n - i,
        {
            let a_idx = pool[i % pool_len];
            let b_idx = pool[(i + 1) % pool_len];
            let cuts = draw_cuts(&mut self.rng, num_cuts, l);
            proof {
                assert(self.ind_ok(self.population@[a_idx as int]));
                assert(self.ind_ok(self.population@[b_idx as int]));
            }
            let child_crossed = apply_crossover(
                &self.population[a_idx].genome,
                &self.population[b_idx].genome,
                &cuts,
            );
            proof {
                assert forall|q: int|
                    0 <= q < child_crossed@.len() implies lo <= #[trigger] child_crossed@[q]
                    < hi by {
                    assert(child_crossed@[q] == self.population@[a_idx as int].genome@[q]
                        || child_crossed@[q] == self.population@[b_idx as int].genome@[q]);
                }
            }
            let child = mutate(&mut self.rng, &child_crossed, mutation_num, mutation_den, lo, hi);
            offspring.push(Individual::fresh(child));
            i = i + 1;
        }
        // evaluate the offspring, then merge elites and offspring
        let (offspring_eval, offspring_fits) = evaluate_population(&self.fitness, &offspring);
        let elite_count = ceil_frac_exec(n, self.config.elitism_num, self.config.elitism_den);
        let elites = top_indices(&fits, elite_count);
        let next = reinsert(
            &parents,
            &fits,
            &offspring_eval,
            &offspring_fits,
            &elites,
            self.config.strict_elitism,
        );
        // the best solution observed so far never rolls back
        let bi = best_index(&fits);
        let oi = best_index(&offspring_fits);
        let mut cand: Individual = parents[bi].duplicate();
        let mut cand_f: u64 = fits[bi];
        if offspring_fits[oi] > cand_f {
            cand = offspring_eval[oi].duplicate();
            cand_f = offspring_fits[oi];
        }
        let (new_best, new_best_f): (Individual, u64) = match &self.best {
            Some(b) => {
                let bf = match b.cached {
                    Some(f) => f,
                    None => {
                        proof {
                            assert(false);
                        }
                        0
                    },
                };
                if cand_f > bf {
                    (cand, cand_f)
                } else {
                    (b.duplicate(), bf)
                }
            },
            None => (cand, cand_f),
        };
        proof {
            assert(offspring_eval@.len() == n);
            assert(parents@.len() == n);
            assert(new_best_f >= cand_f);
            assert forall|j: int|
                0 <= j < next@.len() implies (self.ind_ok(#[trigger] next@[j]) && new_best_f
                >= self.fitness.fitness_spec(next@[j].genome@)) by {
                vstd::arithmetic::div_mod::lemma_small_mod(j as nat, n as nat);
                assert(j % (n as int) == j);
                if j < n as int - elite_count as int {
                    assert(same_individual(next@[j], cyclic(offspring_eval@, j)));
                } else {
                    let idx = n as int - 1 - j;
                    assert(0 <= idx < elites@.len());
                    assert(elites@[idx] < n);
                    assert(n as int - 1 - idx == j);
                }
                assert(same_individual(next@[j], offspring_eval@[j]) || same_individual(
                    next@[j],
                    parents@[elites@[n as int - 1 - j] as int],
                ));
                if same_individual(next@[j], offspring_eval@[j]) {
                    assert(offspring_eval@[j].genome@ == offspring@[j].genome@);
                    assert(offspring_eval@[j].cached == Some(
                        self.fitness.fitness_spec(offspring@[j].genome@),
                    ));
                    assert(offspring_fits@[j] == self.fitness.fitness_spec(offspring@[j].genome@));
                    assert(offspring_fits@[j] <= offspring_fits@[oi as int]);
                } else {
                    let p = elites@[n as int - 1 - j] as int;
                    assert(0 <= p < n);
                    assert(parents@[p].genome@ == old(self).population@[p].genome@);
                    assert(old(self).ind_ok(old(self).population@[p]));
                    assert(fits@[p] == self.fitness.fitness_spec(parents@[p].genome@));
                    assert(fits@[p] <= fits@[bi as int]);
                }
            }
        }
        let best_genome = clone_genome(&new_best.genome);
        self.population = next;
        self.best = Some(new_best);
        self.generation = self.generation + 1;
        self.state = EngineState::Stepping;
        proof {
            assert(self.generation == old(self).generation + 1);
            assert(self.best is Some);
            assert(self.best_fit() == new_best_f);
            assert(self.wf());
            assert(old(self).best is Some ==> self.best_fit() >= old(self).best_fit());
            assert(fits@ == fitness_seq(old(self).fitness, old(self).population@));
            assert(avg == sum_of(fits@) / (fits@.len() as int));
            assert forall|i2: int|
                0 <= i2 < old(self).population@.len() implies new_best_f >= old(
                self,
            ).fitness.fitness_spec((#[trigger] old(self).population@[i2]).genome@) by {
                assert(fits@[i2] == old(self).fitness.fitness_spec(
                    old(self).population@[i2].genome@,
                ));
                assert(fits@[i2] <= fits@[bi as int]);
            }
        }
        let stop = check_stops(&self.config.stop_conditions, self.generation, new_best_f);
        let rep = StepReport {
            generation: self.generation,
            average_fitness: avg,
            best_genome,
            best_fitness: new_best_f,
        };
        match stop {
            Some(reason) => {
                self.state = EngineState::Finished(reason);
                StepResult::Final(reason, rep)
            },
            None => StepResult::Intermediate(rep),
        }
    }
}

} // verus!
