use libdt::damping::Candidate;
use libdt::damping::Damping;
use libdt::damping::DampingAction;
use libdt::damping::DEFAULT_MAX_ATTEMPTS;
use libdt::damping::GROWTH_FACTOR;
use libdt::damping::SHRINK_FACTOR;
use libdt::error::TrainError;
use libdt::layer::Layer;
use libdt::layer::LinLayer;
use libdt::layer::SigmaLayer;
use libdt::line_search::LineSearch;
use libdt::line_search::SearchAction;
use libdt::line_search::SearchPhase;
use libdt::line_search::DEFAULT_MAX_EXPANSIONS;
use libdt::network::neural_network;
use libdt::schedule::RestartSchedule;
use libdt::trainer::check_step;
use libdt::trainer::check_training_set;
use libdt::trainer::uniform_len;

#[test]
fn error_messages() {
    assert_eq!(TrainError::ShapeMismatch.message(), "shape mismatch");
    assert_eq!(TrainError::Protocol.message(), "protocol violation");
    assert_eq!(TrainError::LineSearchDivergent.message(), "line search divergent");
    assert_eq!(TrainError::LmStalled.message(), "damping loop stalled");
}

#[test]
fn line_search_runs_through_its_phases() {
    let mut search = LineSearch::new(DEFAULT_MAX_EXPANSIONS);
    assert_eq!(search.current_phase(), SearchPhase::Bracketing);
    assert_eq!(search.expansions_made(), 0);
    assert_eq!(search.on_upper_probe(true), Ok(SearchAction::Expand));
    assert_eq!(search.on_upper_probe(true), Ok(SearchAction::Expand));
    assert_eq!(search.expansions_made(), 2);
    assert_eq!(search.on_upper_probe(false), Ok(SearchAction::StartRefining));
    assert_eq!(search.current_phase(), SearchPhase::Refining);
    assert_eq!(search.on_interval(true, true), Ok(SearchAction::ShrinkUpper));
    assert_eq!(search.on_interval(true, false), Ok(SearchAction::ShrinkLower));
    assert_eq!(search.current_phase(), SearchPhase::Refining);
    assert_eq!(search.on_interval(false, true), Ok(SearchAction::Finish));
    assert_eq!(search.current_phase(), SearchPhase::Finished);
    assert_eq!(search.expansions_made(), 2);
}

#[test]
fn line_search_finishes_at_once_on_a_narrow_interval() {
    let mut search = LineSearch::new(3);
    assert_eq!(search.on_upper_probe(false), Ok(SearchAction::StartRefining));
    assert_eq!(search.on_interval(false, false), Ok(SearchAction::Finish));
}

#[test]
fn line_search_diverges_when_the_expansions_are_used_up() {
    let mut search = LineSearch::new(3);
    for _ in 0..3 {
        assert_eq!(search.on_upper_probe(true), Ok(SearchAction::Expand));
    }
    assert_eq!(search.on_upper_probe(true), Err(TrainError::LineSearchDivergent));
    assert_eq!(search.current_phase(), SearchPhase::Diverged);
    assert_eq!(search.expansions_made(), 3);
    assert_eq!(search.on_upper_probe(false), Err(TrainError::Protocol));
    assert_eq!(search.on_interval(true, true), Err(TrainError::Protocol));
}

#[test]
fn line_search_without_expansions() {
    let mut search = LineSearch::new(0);
    assert_eq!(search.on_upper_probe(true), Err(TrainError::LineSearchDivergent));
    let mut search = LineSearch::new(0);
    assert_eq!(search.on_upper_probe(false), Ok(SearchAction::StartRefining));
}

#[test]
fn line_search_refuses_calls_out_of_phase() {
    let mut search = LineSearch::new(5);
    assert_eq!(search.on_interval(true, true), Err(TrainError::Protocol));
    assert_eq!(search.current_phase(), SearchPhase::Bracketing);
    assert_eq!(search.on_upper_probe(false), Ok(SearchAction::StartRefining));
    assert_eq!(search.on_upper_probe(true), Err(TrainError::Protocol));
    assert_eq!(search.current_phase(), SearchPhase::Refining);
    assert_eq!(search.on_interval(false, true), Ok(SearchAction::Finish));
    assert_eq!(search.on_interval(false, true), Err(TrainError::Protocol));
    assert_eq!(search.on_upper_probe(true), Err(TrainError::Protocol));
    assert_eq!(search.current_phase(), SearchPhase::Finished);
}

#[test]
fn damping_accepts_an_improving_candidate() {
    let mut damping = Damping::new(DEFAULT_MAX_ATTEMPTS);
    assert_eq!(damping.decide(Candidate::Improves), Ok(DampingAction::Accept));
    assert_eq!(damping.rejections_made(), 0);
    assert_eq!(damping.decide(Candidate::Fails), Ok(DampingAction::Retry));
    assert_eq!(damping.decide(Candidate::Fails), Ok(DampingAction::Retry));
    assert_eq!(damping.rejections_made(), 2);
    assert_eq!(damping.decide(Candidate::Improves), Ok(DampingAction::Accept));
    assert_eq!(damping.rejections_made(), 0);
}

#[test]
fn damping_falls_back_on_a_singular_matrix() {
    let mut damping = Damping::new(DEFAULT_MAX_ATTEMPTS);
    assert_eq!(damping.decide(Candidate::Fails), Ok(DampingAction::Retry));
    assert_eq!(damping.decide(Candidate::Singular), Ok(DampingAction::LineSearch));
    assert_eq!(damping.rejections_made(), 0);
}

#[test]
fn damping_stalls_at_the_last_attempt() {
    assert_eq!(DEFAULT_MAX_ATTEMPTS, 64);
    let mut damping = Damping::new(DEFAULT_MAX_ATTEMPTS);
    for made in 1..64 {
        assert_eq!(damping.decide(Candidate::Fails), Ok(DampingAction::Retry));
        assert_eq!(damping.rejections_made(), made);
    }
    assert_eq!(damping.decide(Candidate::Fails), Err(TrainError::LmStalled));
    assert_eq!(damping.rejections_made(), 0);
    assert_eq!(damping.decide(Candidate::Fails), Ok(DampingAction::Retry));
}

#[test]
fn damping_with_one_or_no_attempt() {
    let mut damping = Damping::new(1);
    assert_eq!(damping.decide(Candidate::Fails), Err(TrainError::LmStalled));
    assert_eq!(damping.decide(Candidate::Improves), Ok(DampingAction::Accept));
    let mut damping = Damping::new(0);
    assert_eq!(damping.decide(Candidate::Fails), Err(TrainError::LmStalled));
    let mut damping = Damping::new(2);
    assert_eq!(damping.decide(Candidate::Fails), Ok(DampingAction::Retry));
    assert_eq!(damping.decide(Candidate::Fails), Err(TrainError::LmStalled));
}

#[test]
fn restart_every_period_steps() {
    let mut schedule = RestartSchedule::new(4);
    assert_eq!(schedule.period(), 4);
    let mut restarts = Vec::new();
    for step in 0..13 {
        assert_eq!(schedule.step_num(), step);
        if schedule.is_restart() {
            restarts.push(step);
        }
        schedule.advance();
    }
    assert_eq!(restarts, vec![0, 4, 8, 12]);
}

#[test]
fn restart_within_any_window_of_one_period() {
    for period in 1usize..7 {
        for start in 0usize..20 {
            let mut schedule = RestartSchedule::new(period);
            for _ in 0..start {
                schedule.advance();
            }
            let mut seen = false;
            for _ in 0..period {
                seen = seen || schedule.is_restart();
                schedule.advance();
            }
            assert!(seen, "period {}, start {}", period, start);
        }
    }
}

#[test]
fn restart_always_with_period_one_or_zero() {
    for period in [0usize, 1] {
        let mut schedule = RestartSchedule::new(period);
        for _ in 0..5 {
            assert!(schedule.is_restart());
            schedule.advance();
        }
    }
}

#[test]
fn uniform_len_compares_every_entry() {
    assert!(uniform_len(&vec![], 3));
    assert!(uniform_len(&vec![3, 3, 3], 3));
    assert!(!uniform_len(&vec![3, 2, 3], 3));
    assert!(!uniform_len(&vec![3, 3, 4], 3));
}

#[test]
fn training_set_that_fits() {
    let net = neural_network(vec![Layer::Lin(LinLayer::new(1, 2)), Layer::Sigma(SigmaLayer::new(2))])
        .unwrap();
    assert_eq!(check_training_set(&net, 4, &vec![1, 1, 1], &vec![2, 2, 2]), Ok(()));
    assert_eq!(check_training_set(&net, 4, &vec![], &vec![]), Ok(()));
}

#[test]
fn training_set_that_does_not_fit() {
    let net = neural_network(vec![Layer::Lin(LinLayer::new(1, 2)), Layer::Sigma(SigmaLayer::new(2))])
        .unwrap();
    assert_eq!(check_training_set(&net, 3, &vec![1], &vec![2]), Err(TrainError::ShapeMismatch));
    assert_eq!(check_training_set(&net, 4, &vec![1, 1], &vec![2]), Err(TrainError::Protocol));
    assert_eq!(check_training_set(&net, 3, &vec![1, 1], &vec![2]), Err(TrainError::ShapeMismatch));
    assert_eq!(check_training_set(&net, 4, &vec![1, 2], &vec![2, 2]), Err(TrainError::ShapeMismatch));
    assert_eq!(check_training_set(&net, 4, &vec![1, 1], &vec![2, 1]), Err(TrainError::ShapeMismatch));
}

#[test]
fn step_must_have_one_component_per_parameter() {
    assert_eq!(check_step(4, 4), Ok(()));
    assert_eq!(check_step(0, 0), Ok(()));
    assert_eq!(check_step(4, 3), Err(TrainError::ShapeMismatch));
    assert_eq!(check_step(3, 4), Err(TrainError::ShapeMismatch));
}

/// Golden-section search for the minimum of `phi` over the step lengths from
/// zero on, with the decisions taken from the library.
fn golden_section(phi: &dyn Fn(f64) -> f64, max_expansions: usize) -> Result<f64, TrainError> {
    let first = 0.000001f64;
    let tolerance = first;
    let phi2 = 2.618033988749894848207f64;
    let rphi = 0.618033988749894848207f64;

    let mut search = LineSearch::new(max_expansions);
    let fx1 = phi(0.);
    let mut x1 = 0f64;
    let mut x2 = first;
    loop {
        match search.on_upper_probe(phi(x2) <= fx1)? {
            SearchAction::Expand => x2 = x1 + (x2 - x1) * phi2,
            SearchAction::StartRefining => break,
            other => panic!("unexpected action {:?}", other),
        }
    }
    let mut x3 = x2 - (x2 - x1) * rphi;
    let mut x4 = x1 + (x2 - x1) * rphi;
    let mut fx3 = phi(x3);
    let mut fx4 = phi(x4);
    loop {
        match search.on_interval((x1 - x2).abs() > tolerance, fx3 < fx4)? {
            SearchAction::ShrinkUpper => {
                x2 = x4;
                fx4 = fx3;
                x3 = x2 - (x2 - x1) * rphi;
                x4 = x1 + (x2 - x1) * rphi;
                fx3 = phi(x3);
            }
            SearchAction::ShrinkLower => {
                x1 = x3;
                fx3 = fx4;
                x3 = x2 - (x2 - x1) * rphi;
                x4 = x1 + (x2 - x1) * rphi;
                fx4 = phi(x4);
            }
            SearchAction::Finish => break,
            other => panic!("unexpected action {:?}", other),
        }
    }
    Ok((x1 + x2) / 2.0)
}

#[test]
fn golden_section_finds_the_minimum_of_a_parabola() {
    let minimum = golden_section(&|a| (a - 3.0) * (a - 3.0), DEFAULT_MAX_EXPANSIONS).unwrap();
    assert!((minimum - 3.0).abs() <= 0.000_01, "found {}", minimum);
    let minimum = golden_section(&|a| (a - 0.25) * (a - 0.25) + 1.0, DEFAULT_MAX_EXPANSIONS).unwrap();
    assert!((minimum - 0.25).abs() <= 0.000_01, "found {}", minimum);
}

#[test]
fn golden_section_never_raises_the_cost_of_a_parabola() {
    let phi = |a: f64| (a - 40.0) * (a - 40.0);
    let minimum = golden_section(&phi, DEFAULT_MAX_EXPANSIONS).unwrap();
    assert!(phi(minimum) <= phi(0.0));
}

#[test]
fn golden_section_diverges_on_a_falling_cost() {
    assert_eq!(golden_section(&|a| -a, DEFAULT_MAX_EXPANSIONS), Err(TrainError::LineSearchDivergent));
    assert_eq!(golden_section(&|_| 1.0, 5), Err(TrainError::LineSearchDivergent));
}

#[test]
fn default_caps() {
    assert_eq!(DEFAULT_MAX_EXPANSIONS, 32);
    assert_eq!(DEFAULT_MAX_ATTEMPTS, 64);
    assert_eq!(SHRINK_FACTOR, 9);
    assert_eq!(GROWTH_FACTOR, 11);
}

/// Runs the damping loop on a scripted run of candidates and gives the
/// damping factor after every decision.
fn damping_trace(candidates: &[Candidate], start: f64) -> Vec<f64> {
    let mut damping = Damping::new(DEFAULT_MAX_ATTEMPTS);
    let mut lambda = start;
    let mut trace = Vec::new();
    for candidate in candidates {
        match damping.decide(*candidate) {
            Ok(DampingAction::Accept) => lambda = (lambda / f64::from(SHRINK_FACTOR)).max(1e-12),
            Ok(DampingAction::Retry) => lambda *= f64::from(GROWTH_FACTOR),
            _ => {}
        }
        trace.push(lambda);
    }
    trace
}

#[test]
fn damping_stays_above_its_floor_and_grows_by_the_factor() {
    let accepted = vec![Candidate::Improves; 40];
    let trace = damping_trace(&accepted, 0.1);
    assert!(trace.iter().all(|lambda| *lambda >= 1e-12));
    assert_eq!(trace[39], 1e-12);
    assert_eq!(trace[0], 0.1 / 9.0);

    let rejected = vec![Candidate::Fails; 10];
    let trace = damping_trace(&rejected, 0.1);
    let mut expected = 0.1;
    for lambda in trace {
        expected *= 11.0;
        assert_eq!(lambda, expected);
    }
}
