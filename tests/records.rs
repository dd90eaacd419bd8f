use um_scraper::config::{Config, ConfigError};
use um_scraper::grade::{Grade, RowError};
use um_scraper::mail::collect_sends;
use um_scraper::note::Note;
use um_scraper::poll::{Action, Controller, Event, Phase};
use um_scraper::scrape::{grades_from_rows, results_table_index, semester_index};
use um_scraper::snapshot::{contains_grade, diff};

fn row(cells: &[&str]) -> Vec<String> {
    cells.iter().map(|c| c.to_string()).collect()
}

fn grade(code: &str, result: &str) -> Grade {
    Grade::from_row(&row(&[code, "Algebra", "12", result, "", "", "3rd"])).unwrap()
}

#[test]
fn empty_session_is_not_graded() {
    let r = Grade::from_row(&row(&["M1", "Algebra", "", "", "", "", ""]));
    assert_eq!(r, Err(RowError::NotYetGraded));
    let r = Grade::from_row(&row(&["M1", "Algebra", "   ", "14/20", "x", "y", "1st"]));
    assert_eq!(r, Err(RowError::NotYetGraded));
}

#[test]
fn complete_row_is_accepted() {
    let g = Grade::from_row(&row(&["M1", "Algebra", "12", "14/20", "", "", "3rd"])).unwrap();
    assert_eq!(g.code, "M1");
    assert_eq!(g.label, "Algebra");
    assert_eq!(g.session1, "12");
    assert_eq!(g.resultat1, "14/20");
    assert_eq!(g.session2, "");
    assert_eq!(g.resultat2, "");
    assert_eq!(g.rang, "3rd");
}

#[test]
fn cells_are_trimmed() {
    let g = Grade::from_row(&row(&[" M1 ", "\tAlgebra\n", " 12", "14/20 ", "  ", "", " 3rd "]))
        .unwrap();
    assert_eq!(g.code, "M1");
    assert_eq!(g.label, "Algebra");
    assert_eq!(g.session1, "12");
    assert_eq!(g.resultat1, "14/20");
    assert_eq!(g.session2, "");
    assert_eq!(g.rang, "3rd");
}

#[test]
fn short_row_is_incomplete() {
    let r = Grade::from_row(&row(&["M1", "Algebra", "12", "14/20", "", ""]));
    assert_eq!(r, Err(RowError::IncompleteRow));
    assert_eq!(Grade::from_row(&Vec::new()), Err(RowError::IncompleteRow));
}

#[test]
fn note_follows_grade_rules() {
    let n = Note::from_row(&row(&[" M2", "Physics", "9", "9/20", "", "", "10th"])).unwrap();
    assert_eq!(n.code, "M2");
    assert_eq!(n.rang, "10th");
    assert_eq!(
        Note::from_row(&row(&["M2", "Physics", "", "", "", "", ""])),
        Err(RowError::NotYetGraded)
    );
}

#[test]
fn added_record_is_the_delta() {
    let r1 = grade("M1", "14/20");
    let r2 = grade("M2", "10/20");
    let d = diff(&vec![r1.clone()], &vec![r1.clone(), r2.clone()]);
    assert!(d.changed);
    assert_eq!(d.delta, vec![r2]);
}

#[test]
fn corrected_record_is_new() {
    let r1 = grade("M1", "14/20");
    let r1b = grade("M1", "15/20");
    let d = diff(&vec![r1], &vec![r1b.clone()]);
    assert!(d.changed);
    assert_eq!(d.delta, vec![r1b]);
}

#[test]
fn same_snapshot_is_unchanged() {
    let a = vec![grade("M1", "14/20"), grade("M2", "10/20")];
    let d = diff(&a, &a);
    assert!(!d.changed);
    assert!(d.delta.is_empty());
    let empty: Vec<Grade> = Vec::new();
    let d = diff(&empty, &empty);
    assert!(!d.changed);
    assert!(d.delta.is_empty());
}

#[test]
fn order_and_repetition_do_not_matter() {
    let r1 = grade("M1", "14/20");
    let r2 = grade("M2", "10/20");
    let d = diff(&vec![r1.clone(), r2.clone()], &vec![r2.clone(), r1.clone(), r2.clone()]);
    assert!(!d.changed);
    assert!(d.delta.is_empty());
}

#[test]
fn removed_record_is_a_change_without_delta() {
    let r1 = grade("M1", "14/20");
    let r2 = grade("M2", "10/20");
    let d = diff(&vec![r1.clone(), r2], &vec![r1]);
    assert!(d.changed);
    assert!(d.delta.is_empty());
}

#[test]
fn contains_compares_all_fields() {
    let s = vec![grade("M1", "14/20")];
    assert!(contains_grade(&s, &grade("M1", "14/20")));
    assert!(!contains_grade(&s, &grade("M1", "14/21")));
}

#[test]
fn table_rows_skip_headers_and_ungraded() {
    let rows = vec![
        row(&["Code", "Label", "S1", "R1", "S2", "R2", "Rank"]),
        row(&["", "", "", "", "", "", ""]),
        row(&["M1", "Algebra", "12", "14/20", "", "", "3rd"]),
        row(&["M2", "Physics", "", "", "", "", ""]),
        row(&["M3", "Short"]),
        row(&["M4", "Chemistry", "8", "8/20", "", "", "20th"]),
    ];
    let g = grades_from_rows(&rows);
    assert_eq!(g.len(), 2);
    assert_eq!(g[0].code, "M1");
    assert_eq!(g[1].code, "M4");
    assert!(grades_from_rows(&rows[..2].to_vec()).is_empty());
    assert!(grades_from_rows(&Vec::new()).is_empty());
}

#[test]
fn semester_and_results_positions() {
    assert_eq!(semester_index(0), None);
    assert_eq!(semester_index(1), None);
    assert_eq!(semester_index(5), Some(1));
    assert_eq!(results_table_index(0), None);
    assert_eq!(results_table_index(3), Some(2));
}

#[test]
fn one_failed_send_fails_the_notification() {
    let results: Vec<Result<u32, String>> = vec![Ok(1), Err("refused".to_string()), Ok(3)];
    let r = collect_sends(results);
    assert_eq!(r.unwrap_err().failed, vec![1]);
    let r = collect_sends::<u32, String>(vec![Ok(1), Ok(2), Ok(3)]);
    assert_eq!(r.unwrap(), vec![1, 2, 3]);
    let r = collect_sends::<u32, String>(vec![Err("a".to_string()), Ok(2), Err("b".to_string())]);
    assert_eq!(r.unwrap_err().failed, vec![0, 2]);
}

#[test]
fn failed_send_still_persists() {
    let r1 = grade("M1", "14/20");
    let r2 = grade("M2", "10/20");
    let mut c = Controller::new(vec![r1.clone()]);
    assert!(matches!(c.step(Event::Wake), Action::SpawnDriver));
    assert!(matches!(c.step(Event::DriverReady), Action::Login));
    assert!(matches!(c.step(Event::LoggedIn), Action::Scrape));
    match c.step(Event::Scraped(vec![r1.clone(), r2.clone()])) {
        Action::Notify(d) => assert_eq!(d, vec![r2.clone()]),
        other => panic!("unexpected {:?}", other),
    }
    let sent: Vec<Result<u32, String>> = vec![Ok(1), Err("refused".to_string()), Ok(3)];
    let outcome = collect_sends(sent);
    assert!(outcome.is_err());
    match c.step(Event::Sent(outcome.is_ok())) {
        Action::Persist(s) => assert_eq!(s, vec![r1.clone(), r2.clone()]),
        other => panic!("unexpected {:?}", other),
    }
    assert!(matches!(c.step(Event::Saved(true)), Action::Sleep));
    assert_eq!(c.phase, Phase::Sleeping);
    assert_eq!(c.snapshot, vec![r1, r2]);
}

#[test]
fn failed_step_leaves_snapshot() {
    let r1 = grade("M1", "14/20");
    let mut c = Controller::new(vec![r1.clone()]);
    c.step(Event::Wake);
    c.step(Event::DriverReady);
    assert!(matches!(c.step(Event::StepFailed), Action::Sleep));
    assert_eq!(c.phase, Phase::Sleeping);
    assert_eq!(c.snapshot, vec![r1.clone()]);
    assert!(matches!(c.step(Event::Sent(true)), Action::Nothing));
    assert!(matches!(c.step(Event::Signal), Action::Shutdown));
    assert_eq!(c.phase, Phase::Stopped);
}

#[test]
fn failed_write_keeps_old_snapshot() {
    let r1 = grade("M1", "14/20");
    let r2 = grade("M2", "10/20");
    let mut c = Controller::new(vec![r1.clone()]);
    c.step(Event::Wake);
    c.step(Event::DriverReady);
    c.step(Event::LoggedIn);
    c.step(Event::Scraped(vec![r2.clone()]));
    c.step(Event::Sent(true));
    assert!(matches!(c.step(Event::Saved(false)), Action::Sleep));
    assert_eq!(c.snapshot, vec![r1]);
}

#[test]
fn unchanged_scrape_sleeps() {
    let r1 = grade("M1", "14/20");
    let mut c = Controller::new(vec![r1.clone()]);
    c.step(Event::Wake);
    c.step(Event::DriverReady);
    c.step(Event::LoggedIn);
    assert!(matches!(c.step(Event::Scraped(vec![r1.clone()])), Action::Sleep));
    assert_eq!(c.phase, Phase::Sleeping);
}

fn valid_config() -> Config {
    let mut c = Config::default();
    c.gmail_login_email = "me@gmail.com".to_string();
    c.gmail_from_email = None;
    c
}

#[test]
fn invalid_recipient_aborts_load() {
    let mut c = valid_config();
    c.to_emails = vec!["a@b.com".to_string(), "not an address".to_string()];
    match Config::load(Some(c)) {
        Err(ConfigError::InvalidToEmails(v)) => assert_eq!(v, vec!["not an address".to_string()]),
        other => panic!("unexpected {:?}", other),
    }
}

#[test]
fn invalid_login_aborts_load() {
    let c = Config::default();
    assert!(matches!(Config::load(Some(c)), Err(ConfigError::InvalidLoginEmail(_))));
    let mut c = valid_config();
    c.gmail_from_email = Some("nope".to_string());
    assert!(matches!(Config::load(Some(c)), Err(ConfigError::InvalidFromEmail(_))));
}

#[test]
fn valid_config_loads() {
    let c = valid_config();
    let loaded = Config::load(Some(c)).unwrap();
    assert_eq!(loaded.to_emails, vec!["mail1@gmail.com", "mail2@hotmail.com"]);
    assert_eq!(loaded.from_email(), "me@gmail.com");
}

#[test]
fn missing_config_gives_default() {
    let c = Config::load(None).unwrap();
    assert_eq!(c.sleep_time_secs, 600);
    assert_eq!(c.geckodriver_port, 4444);
    assert_eq!(c.data_file, "./grades.yaml");
    assert_eq!(c.from_email(), "different mail (alias) or remove this part");
}
