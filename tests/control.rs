use polyfit::{
    check_perturbation, check_sample_grid, clamp_rate, fac, rate_action, ConvergenceOutcome,
    Curriculum, EpochReport, ErrorKind, RateAction, RateClamp, TrainError, Trainer, Trend,
    INITIAL_LAST_CONVERGENCE,
};

fn report(loss_change: Trend, vs_threshold: Trend) -> EpochReport {
    EpochReport { finite: true, loss_change, vs_threshold }
}

#[test]
fn factorial_of_small_numbers() {
    assert_eq!(fac(3), 6);
    assert_eq!(fac(1), 1);
    assert_eq!(fac(5), 120);
}

#[test]
fn factorial_of_non_positive_is_one() {
    assert_eq!(fac(0), 1);
    assert_eq!(fac(-4), 1);
}

#[test]
fn factorial_of_largest_input() {
    assert_eq!(fac(12), 479001600);
}

#[test]
fn worse_loss_decays_rate() {
    assert_eq!(rate_action(Trend::Above, 0), RateAction::Decay);
    assert_eq!(rate_action(Trend::Above, 4000), RateAction::Decay);
}

#[test]
fn better_loss_boosts_only_after_warmup() {
    assert_eq!(rate_action(Trend::Below, 50), RateAction::Keep);
    assert_eq!(rate_action(Trend::Below, 51), RateAction::Boost);
}

#[test]
fn unchanged_loss_keeps_rate() {
    assert_eq!(rate_action(Trend::Equal, 100), RateAction::Keep);
    assert_eq!(rate_action(Trend::Unordered, 100), RateAction::Keep);
}

#[test]
fn clamp_sends_both_sides_to_floor() {
    assert_eq!(clamp_rate(Trend::Above, Trend::Above), RateClamp::Floor);
    assert_eq!(clamp_rate(Trend::Below, Trend::Below), RateClamp::Floor);
}

#[test]
fn clamp_keeps_rate_in_range() {
    assert_eq!(clamp_rate(Trend::Below, Trend::Above), RateClamp::Keep);
    assert_eq!(clamp_rate(Trend::Equal, Trend::Equal), RateClamp::Keep);
    assert_eq!(clamp_rate(Trend::Unordered, Trend::Unordered), RateClamp::Keep);
}

#[test]
fn clamp_on_real_boosted_rates() {
    let side = |a: f64, b: f64| match a.partial_cmp(&b) {
        Some(std::cmp::Ordering::Less) => Trend::Below,
        Some(std::cmp::Ordering::Equal) => Trend::Equal,
        Some(std::cmp::Ordering::Greater) => Trend::Above,
        None => Trend::Unordered,
    };
    for lr in [2e-3, 5e-7] {
        assert_eq!(clamp_rate(side(lr, 1e-3), side(lr, 1e-6)), RateClamp::Floor);
    }
    assert_eq!(clamp_rate(side(1e-4, 1e-3), side(1e-4, 1e-6)), RateClamp::Keep);
}

#[test]
fn empty_grid_is_rejected() {
    let err = Err(TrainError::EmptySampleGrid);
    assert_eq!(check_sample_grid(Trend::Equal, Trend::Above, 500), err);
    assert_eq!(check_sample_grid(Trend::Below, Trend::Above, 500), err);
    assert_eq!(check_sample_grid(Trend::Above, Trend::Equal, 500), err);
    assert_eq!(check_sample_grid(Trend::Above, Trend::Below, 500), err);
    assert_eq!(check_sample_grid(Trend::Above, Trend::Above, 0), err);
    assert_eq!(TrainError::EmptySampleGrid.kind(), ErrorKind::NumericDegeneracy);
}

#[test]
fn grid_with_points_is_accepted() {
    assert_eq!(check_sample_grid(Trend::Above, Trend::Above, 500), Ok(500));
}

#[test]
fn perturbation_must_be_positive() {
    assert_eq!(check_perturbation(Trend::Above), Ok(()));
    assert_eq!(check_perturbation(Trend::Equal), Err(TrainError::NonPositivePerturbation));
    assert_eq!(check_perturbation(Trend::Below), Err(TrainError::NonPositivePerturbation));
}

#[test]
fn configuration_errors() {
    assert_eq!(Trainer::new(0, 5000, 3, 100), Err(TrainError::ZeroDegree));
    assert_eq!(Trainer::new(10, 0, 3, 100), Err(TrainError::NoEpochs));
    assert_eq!(Trainer::new(10, 5000, 0, 100), Err(TrainError::ActiveTermsOutOfRange));
    assert_eq!(Trainer::new(10, 5000, 11, 100), Err(TrainError::ActiveTermsOutOfRange));
    assert_eq!(Trainer::new(10, 5000, 3, 0), Err(TrainError::ZeroRenderCadence));
    assert_eq!(TrainError::ZeroDegree.kind(), ErrorKind::Configuration);
    assert_eq!(TrainError::NoEpochs.kind(), ErrorKind::Configuration);
}

#[test]
fn new_trainer_starts_at_epoch_zero() {
    let t = Trainer::new(10, 5000, 3, 100).unwrap();
    assert_eq!(t.epoch, 0);
    assert_eq!(t.epochs, 5000);
    assert_eq!(t.active_terms(), 3);
    assert_eq!(t.curriculum.degree, 10);
    assert_eq!(t.curriculum.last_convergence_epoch, INITIAL_LAST_CONVERGENCE);
    assert!(!t.is_finished());
}

#[test]
fn non_finite_report_leaves_state() {
    let mut t = Trainer::new(10, 5000, 3, 100).unwrap();
    let before = t;
    let bad = EpochReport { finite: false, loss_change: Trend::Below, vs_threshold: Trend::Above };
    assert_eq!(t.finish_epoch(bad), Err(TrainError::NonFinite));
    assert_eq!(t.finish_epoch(report(Trend::Unordered, Trend::Above)), Err(TrainError::NonFinite));
    assert_eq!(t.finish_epoch(report(Trend::Below, Trend::Unordered)), Err(TrainError::NonFinite));
    assert_eq!(t, before);
    assert_eq!(TrainError::NonFinite.kind(), ErrorKind::NumericDegeneracy);
}

#[test]
fn first_epoch_checks_without_event() {
    let mut t = Trainer::new(10, 5000, 3, 100).unwrap();
    let plan = t.finish_epoch(report(Trend::Above, Trend::Above)).unwrap();
    assert_eq!(plan.epoch, 0);
    assert_eq!(plan.rate, RateAction::Decay);
    assert_eq!(
        plan.convergence,
        Some(ConvergenceOutcome { converged: false, expanded: false, retune_threshold: false })
    );
    assert!(!plan.render);
    assert_eq!(t.epoch, 1);
    let plan = t.finish_epoch(report(Trend::Below, Trend::Above)).unwrap();
    assert_eq!(plan.epoch, 1);
    assert_eq!(plan.rate, RateAction::Keep);
    assert_eq!(plan.convergence, None);
}

#[test]
fn curriculum_expands_after_gap() {
    let mut t = Trainer::new(10, 5000, 3, 100).unwrap();
    let mut events = Vec::new();
    let mut renders = 0;
    let mut last_active = t.active_terms();
    while !t.is_finished() {
        let plan = t.finish_epoch(report(Trend::Below, Trend::Above)).unwrap();
        if plan.epoch > 50 {
            assert_eq!(plan.rate, RateAction::Boost);
        }
        if plan.render {
            renders += 1;
            assert_eq!(plan.epoch % 100, 0);
        }
        if let Some(outcome) = plan.convergence {
            assert!(!outcome.retune_threshold);
            if outcome.converged {
                events.push(plan.epoch);
            }
        }
        assert!(t.active_terms() >= last_active);
        assert!(t.active_terms() <= 10);
        last_active = t.active_terms();
    }
    assert_eq!(t.epoch, 5000);
    assert_eq!(renders, 49);
    assert_eq!(&events[..4], &[205, 710, 1215, 1720]);
    assert_eq!(events.len(), 10);
    assert_eq!(events[9], 4750);
    assert_eq!(t.active_terms(), 10);
}

#[test]
fn below_threshold_never_converges() {
    let mut t = Trainer::new(4, 2000, 1, 100).unwrap();
    while !t.is_finished() {
        let plan = t.finish_epoch(report(Trend::Below, Trend::Below)).unwrap();
        if let Some(outcome) = plan.convergence {
            assert!(!outcome.converged);
        }
    }
    assert_eq!(t.active_terms(), 1);
    assert_eq!(t.curriculum.last_convergence_epoch, INITIAL_LAST_CONVERGENCE);
}

#[test]
fn full_curriculum_stays_at_degree() {
    let mut c = Curriculum::new(4, 4);
    let outcome = c.check(1000, Trend::Above);
    assert_eq!(
        outcome,
        ConvergenceOutcome { converged: true, expanded: false, retune_threshold: false }
    );
    assert_eq!(c.active_terms, 4);
    assert_eq!(c.last_convergence_epoch, 1000);
}

#[test]
fn check_respects_gap() {
    let mut c = Curriculum::new(10, 3);
    assert!(!c.check(200, Trend::Above).converged);
    assert_eq!(c.active_terms, 3);
    let outcome = c.check(201, Trend::Above);
    assert!(outcome.converged && outcome.expanded);
    assert_eq!(c.active_terms, 4);
    assert!(!c.check(701, Trend::Above).converged);
    assert!(c.check(702, Trend::Above).converged);
    assert!(!c.check(5000, Trend::Equal).converged);
}
