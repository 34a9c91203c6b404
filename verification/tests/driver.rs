use benchmark::binary64::Binary64;
use benchmark::common::Duration;
use benchmark::driver::Action;
use benchmark::driver::Driver;
use benchmark::driver::Event;
use benchmark::driver::Plan;
use benchmark::driver::PlanError;

fn number(value: f64) -> Binary64 {
    Binary64::from_bits(value.to_bits())
}

fn plan(warm_up: usize, repeats: usize, skip_verification: bool) -> Plan {
    Plan { warm_up, repeats, skip_verification }
}

#[test]
fn a_plan_without_samples_is_refused() {
    assert_eq!(Driver::new(plan(3, 0, false)).err(), Some(PlanError::NoRepeats));
    assert_eq!(Driver::new(plan(0, 0, true)).err(), Some(PlanError::NoRepeats));
    assert!(Driver::new(plan(0, 1, true)).is_ok());
}

#[test]
fn a_run_warms_up_checks_and_measures_in_this_order() {
    let run = Driver::new(plan(2, 3, false)).unwrap();
    assert_eq!(run.next_action(), Action::WarmUp);
    let (run, action) = run.step(Event::Ran(Duration(900)));
    assert_eq!(action, Action::WarmUp);
    let (run, action) = run.step(Event::Ran(Duration(800)));
    assert_eq!(action, Action::Check);
    let (run, action) = run.step(Event::Checked(number(0.0)));
    assert_eq!(action, Action::Measure);
    assert!(run.records().is_empty());
    let (run, action) = run.step(Event::Ran(Duration(30)));
    assert_eq!(action, Action::Measure);
    let (run, action) = run.step(Event::Ran(Duration(10)));
    assert_eq!(action, Action::Measure);
    assert!(!run.is_finished());
    let (run, action) = run.step(Event::Ran(Duration(20)));
    assert_eq!(action, Action::Finish);
    assert!(run.is_finished());
    assert_eq!(run.records(), &vec![Duration(30), Duration(10), Duration(20)]);
}

#[test]
fn a_rejected_output_aborts_the_run() {
    let run = Driver::new(plan(0, 3, false)).unwrap();
    assert_eq!(run.next_action(), Action::Check);
    let (run, action) = run.step(Event::Checked(number(0.01)));
    assert_eq!(action, Action::Abort);
    let (run, action) = run.step(Event::Ran(Duration(30)));
    assert_eq!(action, Action::Abort);
    let (run, action) = run.step(Event::Checked(number(0.0)));
    assert_eq!(action, Action::Abort);
    assert!(run.records().is_empty());
    assert!(!run.is_finished());
}

#[test]
fn a_run_without_check_measures_at_once() {
    let run = Driver::new(plan(0, 2, true)).unwrap();
    assert_eq!(run.next_action(), Action::Measure);
    let (run, action) = run.step(Event::Ran(Duration(5)));
    assert_eq!(action, Action::Measure);
    let (run, action) = run.step(Event::Ran(Duration(6)));
    assert_eq!(action, Action::Finish);
    assert_eq!(run.records(), &vec![Duration(5), Duration(6)]);
}

#[test]
fn events_that_answer_no_action_change_nothing() {
    let run = Driver::new(plan(1, 1, false)).unwrap();
    let (run, action) = run.step(Event::Checked(number(0.0)));
    assert_eq!(action, Action::WarmUp);
    let (run, action) = run.step(Event::Ran(Duration(1)));
    assert_eq!(action, Action::Check);
    let (run, action) = run.step(Event::Ran(Duration(2)));
    assert_eq!(action, Action::Check);
    assert!(run.records().is_empty());
    let (run, action) = run.step(Event::Checked(number(1.0e-4)));
    assert_eq!(action, Action::Measure);
    let (run, action) = run.step(Event::Checked(number(9.0)));
    assert_eq!(action, Action::Measure);
    let (run, action) = run.step(Event::Ran(Duration(3)));
    assert_eq!(action, Action::Finish);
    let (run, action) = run.step(Event::Ran(Duration(4)));
    assert_eq!(action, Action::Finish);
    assert_eq!(run.records(), &vec![Duration(3)]);
}

#[test]
fn a_run_takes_as_many_invocations_as_planned() {
    let mut run = Driver::new(plan(4, 5, false)).unwrap();
    let mut invocations: usize = 0;
    loop {
        let event = match run.next_action() {
            Action::WarmUp | Action::Measure => Event::Ran(Duration(invocations as u128)),
            Action::Check => Event::Checked(number(0.0)),
            Action::Finish | Action::Abort => break,
        };
        invocations += 1;
        run = run.step(event).0;
    }
    assert_eq!(invocations, 4 + 1 + 5);
    assert_eq!(run.records().len(), 5);
    assert_eq!(run.records()[0], Duration(5));
}
