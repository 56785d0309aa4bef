use efinmet::cycle::{display, settle, AppModel, Command, Message};

#[test]
fn model_starts_empty_and_asks_for_a_fetch() {
    let (model, command) = AppModel::init();
    assert!(model.metars.is_empty());
    assert_eq!(model.error, None);
    assert_eq!(command, Command::Fetch);
    assert_eq!(model.lines(), vec!["EFIN Metars".to_string()]);
}

#[test]
fn load_changes_nothing_and_fetches() {
    let (mut model, _) = AppModel::init();
    model.update(Message::UpdateMetars(vec!["EFHK ...".to_string()]));
    let before = model.clone();
    assert_eq!(model.update(Message::LoadMetars), Command::Fetch);
    assert_eq!(model, before);
}

#[test]
fn new_reports_replace_the_old_and_clear_the_failure() {
    let (mut model, _) = AppModel::init();
    model.update(Message::SetError("no route to host".to_string()));
    let command = model.update(Message::UpdateMetars(vec!["METAR EFHK ...".to_string()]));
    assert_eq!(command, Command::ReloadAfter(30));
    assert_eq!(model.metars, vec!["METAR EFHK ...".to_string()]);
    assert_eq!(model.error, None);
}

#[test]
fn failure_is_kept_behind_the_banner() {
    let (mut model, _) = AppModel::init();
    model.update(Message::UpdateMetars(vec!["METAR EFHK ...".to_string()]));
    let command = model.update(Message::SetError("no route to host".to_string()));
    assert_eq!(command, Command::ReloadAfter(30));
    assert_eq!(
        model.error,
        Some("Error (will retry shortly): no route to host".to_string())
    );
    assert_eq!(model.metars, vec!["METAR EFHK ...".to_string()]);
    assert_eq!(
        model.lines(),
        vec!["Error (will retry shortly): no route to host".to_string()]
    );
}

#[test]
fn reports_are_shown_without_their_label() {
    let (mut model, _) = AppModel::init();
    model.update(Message::UpdateMetars(vec![
        "METAR EFHK 271020Z".to_string(),
        "EFTU 271020Z".to_string(),
    ]));
    assert_eq!(
        model.lines(),
        vec![
            "EFIN Metars".to_string(),
            "EFHK 271020Z".to_string(),
            "EFTU 271020Z".to_string(),
        ]
    );
}

#[test]
fn label_is_taken_off_once_and_only_at_the_start() {
    assert_eq!(display(&"METAR METAR EFHK".to_string()), "METAR EFHK");
    assert_eq!(display(&"EFHK METAR ".to_string()), "EFHK METAR ");
    assert_eq!(display(&"METAR".to_string()), "METAR");
    assert_eq!(display(&"METAR ".to_string()), "");
    assert_eq!(display(&String::new()), "");
}

#[test]
fn outcome_becomes_the_message_that_ends_the_cycle() {
    assert_eq!(
        settle(Ok(vec!["EFHK ...".to_string()])),
        Message::UpdateMetars(vec!["EFHK ...".to_string()])
    );
    assert_eq!(
        settle(Err("timed out".to_string())),
        Message::SetError("timed out".to_string())
    );
}
