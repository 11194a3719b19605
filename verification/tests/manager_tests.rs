use icie::comms::{Food, ManagerMessage, Note, OperationalError, Row, SessionError, WorkerOrder};
use icie::manage::Manager;
use icie::outcome::{Outcome, Verdict};

fn row(number: u64, verdict: Verdict, fitness: usize, input: &[u8]) -> Row {
    Row {
        number,
        solution: Outcome { verdict, stdout: b"out".to_vec(), time_millis: 1 },
        fitness,
        input: input.to_vec(),
    }
}

#[test]
fn start_unpauses_and_forwards_start() {
    let mut m = Manager::new();
    let eff = m.handle_message(ManagerMessage::Note(Note::Start));
    assert!(!m.paused);
    assert_eq!(eff.order, Some(WorkerOrder::Start));
    assert_eq!(eff.food, Food::State { running: true, reset: false });
    assert_eq!(eff.save_input, None);
    assert_eq!(eff.surface_error, None);
}

#[test]
fn pause_pauses_and_forwards_pause() {
    let mut m = Manager::new();
    m.handle_message(ManagerMessage::Note(Note::Start));
    let eff = m.handle_message(ManagerMessage::Note(Note::Pause));
    assert!(m.paused);
    assert_eq!(eff.order, Some(WorkerOrder::Pause));
    assert_eq!(eff.food, Food::State { running: false, reset: false });
}

#[test]
fn reset_clears_best_fitness_and_unpauses_from_any_state() {
    let mut m = Manager::new();
    m.handle_message(ManagerMessage::Note(Note::Start));
    m.handle_message(ManagerMessage::Report(Ok(row(1, Verdict::WrongAnswer, 7, b"x"))));
    m.handle_message(ManagerMessage::Note(Note::Pause));
    assert_eq!(m.best_fitness, Some(7));
    assert!(m.paused);
    let eff = m.handle_message(ManagerMessage::Note(Note::Reset));
    assert_eq!(m.best_fitness, None);
    assert!(!m.paused);
    assert_eq!(eff.order, Some(WorkerOrder::Reset));
    assert_eq!(eff.food, Food::State { running: false, reset: true });
}

#[test]
fn failing_row_updates_best_and_attaches_input() {
    let mut m = Manager::new();
    let eff = m.handle_message(ManagerMessage::Report(Ok(row(1, Verdict::WrongAnswer, 3, b"in"))));
    assert_eq!(m.best_fitness, Some(3));
    assert_eq!(
        eff.food,
        Food::Row {
            number: 1,
            outcome: Verdict::WrongAnswer,
            fitness: 3,
            input: Some(b"in".to_vec())
        }
    );
}

#[test]
fn passing_row_never_updates_best_or_attaches_input() {
    let mut m = Manager::new();
    let eff = m.handle_message(ManagerMessage::Report(Ok(row(1, Verdict::Success, 99, b"in"))));
    assert_eq!(m.best_fitness, None);
    assert_eq!(
        eff.food,
        Food::Row { number: 1, outcome: Verdict::Success, fitness: 99, input: None }
    );
}

#[test]
fn non_improving_failing_row_omits_input() {
    let mut m = Manager::new();
    m.handle_message(ManagerMessage::Report(Ok(row(1, Verdict::WrongAnswer, 5, b"a"))));
    let eff = m.handle_message(ManagerMessage::Report(Ok(row(2, Verdict::WrongAnswer, 5, b"b"))));
    assert_eq!(m.best_fitness, Some(5));
    assert_eq!(
        eff.food,
        Food::Row { number: 2, outcome: Verdict::WrongAnswer, fitness: 5, input: None }
    );
}

#[test]
fn pause_then_start_keeps_best_fitness() {
    let mut m = Manager::new();
    m.handle_message(ManagerMessage::Report(Ok(row(1, Verdict::WrongAnswer, 4, b"q"))));
    m.handle_message(ManagerMessage::Note(Note::Pause));
    m.handle_message(ManagerMessage::Note(Note::Start));
    assert_eq!(m.best_fitness, Some(4));
    assert!(!m.paused);
}

#[test]
fn save_while_running_pauses_first() {
    let mut m = Manager::new();
    m.handle_message(ManagerMessage::Note(Note::Start));
    let eff = m.handle_message(ManagerMessage::Note(Note::Save { input: b"5\n".to_vec() }));
    assert!(m.paused);
    assert_eq!(eff.order, Some(WorkerOrder::Pause));
    assert_eq!(eff.food, Food::State { running: false, reset: false });
    assert_eq!(eff.save_input, Some(b"5\n".to_vec()));
}

#[test]
fn save_while_paused_sends_no_second_pause() {
    let mut m = Manager::new();
    m.handle_message(ManagerMessage::Note(Note::Pause));
    let eff = m.handle_message(ManagerMessage::Note(Note::Save { input: b"5\n".to_vec() }));
    assert!(m.paused);
    assert_eq!(eff.order, None);
    assert_eq!(eff.save_input, Some(b"5\n".to_vec()));
}

#[test]
fn operational_error_clears_state_and_is_surfaced() {
    let mut m = Manager::new();
    m.handle_message(ManagerMessage::Report(Ok(row(1, Verdict::WrongAnswer, 5, b"a"))));
    let eff = m.handle_message(ManagerMessage::Report(Err(SessionError::Operational(
        OperationalError::BuildFailed,
    ))));
    assert_eq!(m.best_fitness, None);
    assert!(!m.paused);
    assert_eq!(eff.food, Food::State { running: false, reset: true });
    assert_eq!(eff.surface_error, Some(OperationalError::BuildFailed));
}

#[test]
fn every_operational_error_kind_is_surfaced() {
    for err in [
        OperationalError::BuildFailed,
        OperationalError::SpawnFailed,
        OperationalError::GeneratorFailed,
        OperationalError::ReferenceFailed,
        OperationalError::StorageFailed,
    ] {
        let mut m = Manager::new();
        let eff = m.handle_message(ManagerMessage::Report(Err(SessionError::Operational(err))));
        assert_eq!(eff.surface_error, Some(err));
        assert_eq!(m.best_fitness, None);
    }
}

#[test]
fn cancellation_resets_ui_state_silently() {
    let mut m = Manager::new();
    m.handle_message(ManagerMessage::Report(Ok(row(1, Verdict::WrongAnswer, 5, b"a"))));
    let eff = m.handle_message(ManagerMessage::Report(Err(SessionError::Cancelled)));
    assert_eq!(m.best_fitness, None);
    assert_eq!(eff.food, Food::State { running: false, reset: true });
    assert_eq!(eff.surface_error, None);
}
