use local_search::AcceptanceCriterion;
use local_search::Algorithm;
use local_search::Callback;
use local_search::CreateRandom;
use local_search::CreateThreadRandom;
use local_search::FixedInitial;
use local_search::HillClimbing;
use local_search::InitialSolution;
use local_search::MaybeNeighbor;
use local_search::MetropolisCriterion;
use local_search::Neighborhood;
use local_search::Problem;
use local_search::RandomStream;
use local_search::SimulatedAnnealing;
use local_search::StrictImprovement;
use local_search::Solution;
use local_search::Temperature;
use local_search::PROB_ONE;
use std::cell::RefCell;
use std::rc::Rc;

/// A table lookup problem: the instance is a table of costs, a candidate is
/// an index into it.
struct TableProblem;

impl Problem for TableProblem {
    type Instance = Vec<u64>;
    type Solution = usize;
    type Cost = u64;

    fn cost(instance: &Vec<u64>, value: &usize) -> u64 {
        instance[*value]
    }
}

/// Starts the search at a fixed index.
struct StartAt(usize);

impl InitialSolution<TableProblem> for StartAt {
    fn get(&self, _instance: &Vec<u64>) -> usize {
        self.0
    }
}

/// Neighbors of index `i` are `i + 1` and `i - 1`, within bounds, probed in
/// that order.
struct Steps;

impl Neighborhood<TableProblem> for Steps {
    fn find<'i, F: AcceptanceCriterion<TableProblem>>(
        &self,
        current: Solution<'i, TableProblem>,
        criterion: &mut F,
    ) -> MaybeNeighbor<'i, TableProblem> {
        let instance = current.instance();
        let idx = *current.value();
        if idx + 1 < instance.len() {
            let candidate = Solution::new(instance, idx + 1);
            if criterion.test(&candidate) {
                return MaybeNeighbor::Found(candidate);
            }
        }
        if idx > 0 {
            let candidate = Solution::new(instance, idx - 1);
            if criterion.test(&candidate) {
                return MaybeNeighbor::Found(candidate);
            }
        }
        MaybeNeighbor::NotFound(current)
    }
}

/// A neighborhood with no moves at all.
struct NoMoves;

impl Neighborhood<TableProblem> for NoMoves {
    fn find<'i, F: AcceptanceCriterion<TableProblem>>(
        &self,
        current: Solution<'i, TableProblem>,
        _criterion: &mut F,
    ) -> MaybeNeighbor<'i, TableProblem> {
        MaybeNeighbor::NotFound(current)
    }
}

/// Records every reported solution.
struct Recorder {
    log: Vec<(usize, u64)>,
}

impl Recorder {
    fn new() -> Recorder {
        Recorder { log: Vec::new() }
    }
}

impl Callback<TableProblem> for Recorder {
    fn report<'i>(&mut self, solution: &Solution<'i, TableProblem>) {
        self.log.push((*solution.value(), *solution.cost()));
    }
}

/// A schedule that accepts everything for `hot_steps` cooling steps and
/// nothing afterwards.
struct CountdownHeat {
    hot_steps: u32,
    hot_probability: u64,
}

impl Temperature<TableProblem> for CountdownHeat {
    type State = u32;

    fn initial_temp(&self) -> u32 {
        self.hot_steps
    }

    fn acceptance_probability<'i>(
        &self,
        _new: &Solution<'i, TableProblem>,
        _current: &Solution<'i, TableProblem>,
        temp: &u32,
    ) -> u64 {
        if *temp > 0 {
            self.hot_probability
        } else {
            0
        }
    }

    fn cool(&self, temp: &mut u32) {
        if *temp > 0 {
            *temp -= 1;
        }
    }
}

/// A stream that always draws the same value.
struct FixedDraw(u64);

impl RandomStream for FixedDraw {
    fn next_unit(&mut self) -> u64 {
        self.0
    }
}

struct MakeFixedDraw(u64);

impl CreateRandom for MakeFixedDraw {
    type Stream = FixedDraw;

    fn create(&self) -> FixedDraw {
        FixedDraw(self.0)
    }
}

/// A schedule that accepts every worsening move and records each call made
/// to it.
struct TraceHeat {
    events: Rc<RefCell<Vec<&'static str>>>,
}

impl Temperature<TableProblem> for TraceHeat {
    type State = u8;

    fn initial_temp(&self) -> u8 {
        self.events.borrow_mut().push("initial_temp");
        0
    }

    fn acceptance_probability<'i>(
        &self,
        _new: &Solution<'i, TableProblem>,
        _current: &Solution<'i, TableProblem>,
        _temp: &u8,
    ) -> u64 {
        self.events.borrow_mut().push("probability");
        PROB_ONE
    }

    fn cool(&self, _temp: &mut u8) {
        self.events.borrow_mut().push("cool");
    }
}

/// A stream of zeros that records each draw.
struct TraceStream {
    events: Rc<RefCell<Vec<&'static str>>>,
}

impl RandomStream for TraceStream {
    fn next_unit(&mut self) -> u64 {
        self.events.borrow_mut().push("draw");
        0
    }
}

struct TraceFactory {
    events: Rc<RefCell<Vec<&'static str>>>,
}

impl CreateRandom for TraceFactory {
    type Stream = TraceStream;

    fn create(&self) -> TraceStream {
        self.events.borrow_mut().push("create");
        TraceStream { events: Rc::clone(&self.events) }
    }
}

fn assert_never_worsens(log: &[(usize, u64)]) {
    for pair in log.windows(2) {
        assert!(pair[1].1 <= pair[0].1, "report got worse: {:?}", pair);
    }
}

#[test]
fn solution_caches_cost_and_destructures() {
    let table: Vec<u64> = vec![5, 9];
    let s: Solution<TableProblem> = Solution::new(&table, 1);
    assert_eq!(*s.value(), 1);
    assert_eq!(*s.cost(), 9);
    assert_eq!(*s.instance(), vec![5, 9]);
    let copy = s.clone();
    assert_eq!(*copy.value(), 1);
    assert_eq!(*copy.cost(), 9);
    let (value, instance) = s.destroy();
    assert_eq!(value, 1);
    assert_eq!(*instance, vec![5, 9]);
}

#[test]
fn fixed_initial_hands_out_its_value() {
    let table: Vec<u64> = vec![5, 9];
    let initial = FixedInitial { value: 1usize };
    let got = <FixedInitial<usize> as InitialSolution<TableProblem>>::get(&initial, &table);
    assert_eq!(got, 1);
}

#[test]
fn hill_climbing_descends_to_local_optimum() {
    let table: Vec<u64> = vec![5, 4, 3, 7, 1];
    let searcher = HillClimbing { initial: StartAt(0), neighborhood: Steps };
    let mut recorder = Recorder::new();
    let result: Solution<TableProblem> = searcher.solve(&table, &mut recorder);
    // The climb stops at index 2: both neighbors (4 and 7) are worse, even
    // though the global optimum sits at index 4.
    assert_eq!(*result.value(), 2);
    assert_eq!(*result.cost(), 3);
    assert_eq!(recorder.log, vec![(0, 5), (1, 4), (2, 3)]);
    assert_never_worsens(&recorder.log);
    // Local optimality: no direct neighbor is strictly better.
    assert!(table[1] >= table[2]);
    assert!(table[3] >= table[2]);
}

#[test]
fn hill_climbing_reports_an_unimprovable_start_once() {
    let table: Vec<u64> = vec![1, 5];
    let searcher = HillClimbing { initial: StartAt(0), neighborhood: Steps };
    let mut recorder = Recorder::new();
    let result: Solution<TableProblem> = searcher.solve(&table, &mut recorder);
    assert_eq!(*result.value(), 0);
    assert_eq!(*result.cost(), 1);
    assert_eq!(recorder.log, vec![(0, 1)]);
}

#[test]
fn hill_climbing_empty_neighborhood_reports_once() {
    let table: Vec<u64> = vec![9];
    let searcher = HillClimbing { initial: StartAt(0), neighborhood: NoMoves };
    let mut recorder = Recorder::new();
    let result: Solution<TableProblem> = searcher.solve(&table, &mut recorder);
    assert_eq!(*result.value(), 0);
    assert_eq!(*result.cost(), 9);
    assert_eq!(recorder.log, vec![(0, 9)]);
}

#[test]
fn annealing_empty_neighborhood_returns_initial_unchanged() {
    let table: Vec<u64> = vec![9];
    let searcher = SimulatedAnnealing {
        initial: StartAt(0),
        neighborhood: NoMoves,
        create_random: MakeFixedDraw(0),
        heat: CountdownHeat { hot_steps: 3, hot_probability: PROB_ONE },
        max_steps: 100,
    };
    let mut recorder = Recorder::new();
    let result: Solution<TableProblem> = searcher.solve(&table, &mut recorder);
    assert_eq!(*result.value(), 0);
    assert_eq!(*result.cost(), 9);
    // The initial solution is reported by the annealing phase and once more
    // by the mandatory final hill-climbing pass.
    assert_eq!(recorder.log, vec![(0, 9), (0, 9)]);
}

#[test]
fn annealing_with_zero_probability_is_greedy() {
    let table: Vec<u64> = vec![5, 4, 3, 7, 1];
    let searcher = SimulatedAnnealing {
        initial: StartAt(0),
        neighborhood: Steps,
        create_random: MakeFixedDraw(PROB_ONE),
        heat: CountdownHeat { hot_steps: 0, hot_probability: 0 },
        max_steps: 100,
    };
    let mut recorder = Recorder::new();
    let result: Solution<TableProblem> = searcher.solve(&table, &mut recorder);
    assert_eq!(*result.value(), 2);
    assert_eq!(*result.cost(), 3);
    assert_eq!(recorder.log, vec![(0, 5), (1, 4), (2, 3), (2, 3)]);
    assert_never_worsens(&recorder.log);
}

#[test]
fn annealing_escapes_a_local_optimum() {
    // Hill climbing alone is stuck at index 0; annealing accepts the
    // worsening move to index 1 while hot and then falls into the global
    // optimum at index 2.
    let table: Vec<u64> = vec![3, 4, 1];
    let searcher = SimulatedAnnealing {
        initial: StartAt(0),
        neighborhood: Steps,
        create_random: MakeFixedDraw(1),
        heat: CountdownHeat { hot_steps: 2, hot_probability: PROB_ONE },
        max_steps: 100,
    };
    let mut recorder = Recorder::new();
    let result: Solution<TableProblem> = searcher.solve(&table, &mut recorder);
    assert_eq!(*result.value(), 2);
    assert_eq!(*result.cost(), 1);
    assert_eq!(recorder.log, vec![(0, 3), (2, 1), (2, 1)]);
    assert_never_worsens(&recorder.log);
}

#[test]
fn annealing_result_is_a_local_optimum() {
    // Re-running hill climbing from the returned candidate reports it once
    // and returns it unchanged: it already is a local optimum.
    let table: Vec<u64> = vec![3, 4, 1];
    let searcher = SimulatedAnnealing {
        initial: StartAt(0),
        neighborhood: Steps,
        create_random: MakeFixedDraw(1),
        heat: CountdownHeat { hot_steps: 2, hot_probability: PROB_ONE },
        max_steps: 100,
    };
    let mut recorder = Recorder::new();
    let result: Solution<TableProblem> = searcher.solve(&table, &mut recorder);
    let again = HillClimbing { initial: FixedInitial { value: *result.value() }, neighborhood: Steps };
    let mut second = Recorder::new();
    let settled: Solution<TableProblem> = again.solve(&table, &mut second);
    assert_eq!(second.log, vec![(*result.value(), *result.cost())]);
    assert_eq!(*settled.value(), *result.value());
    assert_eq!(*settled.cost(), *result.cost());
}

#[test]
fn acceptance_is_inclusive_at_the_drawn_value() {
    // A worsening move is accepted exactly when the draw does not exceed
    // the acceptance probability; the boundary draw accepts.
    let table: Vec<u64> = vec![5, 7, 1];
    let accepting = SimulatedAnnealing {
        initial: StartAt(0),
        neighborhood: Steps,
        create_random: MakeFixedDraw(500_000_000),
        heat: CountdownHeat { hot_steps: 1, hot_probability: 500_000_000 },
        max_steps: 100,
    };
    let mut recorder = Recorder::new();
    let result: Solution<TableProblem> = accepting.solve(&table, &mut recorder);
    assert_eq!(*result.value(), 2);
    assert_eq!(*result.cost(), 1);

    let rejecting = SimulatedAnnealing {
        initial: StartAt(0),
        neighborhood: Steps,
        create_random: MakeFixedDraw(500_000_001),
        heat: CountdownHeat { hot_steps: 1, hot_probability: 500_000_000 },
        max_steps: 100,
    };
    let mut second = Recorder::new();
    let stuck: Solution<TableProblem> = rejecting.solve(&table, &mut second);
    assert_eq!(*stuck.value(), 0);
    assert_eq!(*stuck.cost(), 5);
    assert_eq!(second.log, vec![(0, 5), (0, 5)]);
}

#[test]
fn drivers_run_through_the_algorithm_trait() {
    let table: Vec<u64> = vec![5, 4, 3, 7, 1];
    let climber = HillClimbing { initial: StartAt(0), neighborhood: Steps };
    let mut recorder = Recorder::new();
    let result: Solution<TableProblem> =
        Algorithm::solve(&climber, &table, &mut recorder);
    assert_eq!(*result.value(), 2);
    let annealer = SimulatedAnnealing {
        initial: StartAt(0),
        neighborhood: Steps,
        create_random: MakeFixedDraw(PROB_ONE),
        heat: CountdownHeat { hot_steps: 0, hot_probability: 0 },
        max_steps: 100,
    };
    let mut second = Recorder::new();
    let settled: Solution<TableProblem> =
        Algorithm::solve(&annealer, &table, &mut second);
    assert_eq!(*settled.value(), 2);
}

#[test]
fn annealing_step_budget_bounds_accepted_moves() {
    // With no budget the annealing phase does nothing: the search degrades
    // to the final hill-climbing pass from the initial solution, here stuck
    // at the starting local optimum.
    let table: Vec<u64> = vec![3, 4, 1];
    let no_budget = SimulatedAnnealing {
        initial: StartAt(0),
        neighborhood: Steps,
        create_random: MakeFixedDraw(1),
        heat: CountdownHeat { hot_steps: 2, hot_probability: PROB_ONE },
        max_steps: 0,
    };
    let mut recorder = Recorder::new();
    let result: Solution<TableProblem> = no_budget.solve(&table, &mut recorder);
    assert_eq!(*result.value(), 0);
    assert_eq!(*result.cost(), 3);
    assert_eq!(recorder.log, vec![(0, 3), (0, 3)]);

    // One accepted move is not enough to escape either: the budget runs out
    // on the worsening move to index 1 before anything better is found.
    let one_step = SimulatedAnnealing {
        initial: StartAt(0),
        neighborhood: Steps,
        create_random: MakeFixedDraw(1),
        heat: CountdownHeat { hot_steps: 2, hot_probability: PROB_ONE },
        max_steps: 1,
    };
    let mut second = Recorder::new();
    let stuck: Solution<TableProblem> = one_step.solve(&table, &mut second);
    assert_eq!(*stuck.value(), 0);
    assert_eq!(*stuck.cost(), 3);
    assert_eq!(second.log, vec![(0, 3), (0, 3)]);
}

#[test]
fn annealing_consults_schedule_and_stream_in_protocol_order() {
    // One stream is created and the schedule initialized once, both before
    // any probe; a worsening candidate costs one probability query and one
    // draw, a strictly improving one costs neither; `cool` follows every
    // accepted move, improving or not, and nothing is consulted once the
    // step budget is exhausted or the strict final pass runs.
    let events: Rc<RefCell<Vec<&'static str>>> = Rc::new(RefCell::new(Vec::new()));
    let table: Vec<u64> = vec![5, 6];
    let searcher = SimulatedAnnealing {
        initial: StartAt(0),
        neighborhood: Steps,
        create_random: TraceFactory { events: Rc::clone(&events) },
        heat: TraceHeat { events: Rc::clone(&events) },
        max_steps: 3,
    };
    let mut recorder = Recorder::new();
    let result: Solution<TableProblem> = searcher.solve(&table, &mut recorder);
    assert_eq!(*result.value(), 0);
    assert_eq!(recorder.log, vec![(0, 5), (0, 5)]);
    // Accepted moves: 0 -> 1 (worsening), 1 -> 0 (improving, no draw),
    // 0 -> 1 (worsening); then the budget is spent.
    assert_eq!(
        *events.borrow(),
        vec![
            "create",
            "initial_temp",
            "probability",
            "draw",
            "cool",
            "cool",
            "probability",
            "draw",
            "cool",
        ]
    );
}

#[test]
fn strict_improvement_accepts_only_strictly_better() {
    let table: Vec<u64> = vec![5, 7, 3, 5];
    let current: Solution<TableProblem> = Solution::new(&table, 0);
    let mut criterion = StrictImprovement { current: &current };
    assert!(criterion.test(&Solution::new(&table, 2)));
    assert!(!criterion.test(&Solution::new(&table, 1)));
    // Equal cost is no improvement.
    assert!(!criterion.test(&Solution::new(&table, 3)));
}

#[test]
fn metropolis_criterion_consults_probability_and_draw() {
    let table: Vec<u64> = vec![5, 7, 3];
    let current: Solution<TableProblem> = Solution::new(&table, 0);
    let worse: Solution<TableProblem> = Solution::new(&table, 1);
    let improving: Solution<TableProblem> = Solution::new(&table, 2);
    let heat = CountdownHeat { hot_steps: 1, hot_probability: 400 };
    let temp: u32 = 1;
    let mut at_boundary = MetropolisCriterion {
        current: &current,
        heat: &heat,
        temp: &temp,
        random: FixedDraw(400),
    };
    assert!(at_boundary.test(&worse));
    let mut above_boundary = MetropolisCriterion {
        current: &current,
        heat: &heat,
        temp: &temp,
        random: FixedDraw(401),
    };
    assert!(!above_boundary.test(&worse));
    // A strictly improving candidate is accepted whatever the draw.
    let mut hostile_draw = MetropolisCriterion {
        current: &current,
        heat: &heat,
        temp: &temp,
        random: FixedDraw(PROB_ONE),
    };
    assert!(hostile_draw.test(&improving));
}

#[test]
fn thread_random_draws_stay_in_range() {
    let mut stream = CreateThreadRandom.create();
    for _ in 0..1000 {
        let draw = stream.next_unit();
        assert!(draw <= PROB_ONE);
    }
}
