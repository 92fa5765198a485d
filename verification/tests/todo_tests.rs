use todomvc::model::{
    Message, Model, RenderDirective, FILTER_ACTIVE, FILTER_ALL, FILTER_COMPLETED,
};
use todomvc::task::Task;

fn texts(tasks: &[Task]) -> Vec<&str> {
    tasks.iter().map(|t| t.text.as_str()).collect()
}

#[test]
fn seeded_initial_state() {
    let m = Model::default();
    assert_eq!(m.filter, FILTER_ALL);
    assert_eq!(m.tasks.len(), 4);
    assert_eq!(
        texts(&m.tasks),
        vec![
            "Call Joe",
            "Call Mike",
            "Call Robert",
            "Get Robert to fix the bug",
        ]
    );
    assert_eq!(
        m.tasks.iter().map(|t| t.done).collect::<Vec<bool>>(),
        vec![true, true, false, false]
    );
}

#[test]
fn toggle_is_an_involution() {
    for index in 0..4 {
        let mut m = Model::default();
        let before: Vec<bool> = m.tasks.iter().map(|t| t.done).collect();
        m.update(Message::Toggle { index });
        assert_ne!(m.tasks[index].done, before[index]);
        m.update(Message::Toggle { index });
        let after: Vec<bool> = m.tasks.iter().map(|t| t.done).collect();
        assert_eq!(after, before);
    }
}

#[test]
fn add_appends_last_not_done() {
    let mut m = Model::default();
    let d = m.update(Message::Add {
        task: "Buy milk".to_string(),
    });
    assert_eq!(d, RenderDirective::Rerender);
    assert_eq!(m.tasks.len(), 5);
    assert_eq!(m.tasks[4].text, "Buy milk");
    assert!(!m.tasks[4].done);
    assert_eq!(texts(&m.tasks)[..4], texts(&Model::default().tasks)[..]);
}

#[test]
fn add_accepts_empty_text() {
    let mut m = Model::default();
    m.update(Message::Add {
        task: String::new(),
    });
    assert_eq!(m.tasks.len(), 5);
    assert_eq!(m.tasks[4].text, "");
    assert!(!m.tasks[4].done);
}

#[test]
fn delete_shifts_later_tasks_left() {
    let mut m = Model::default();
    let d = m.update(Message::Delete { index: 1 });
    assert_eq!(d, RenderDirective::Rerender);
    assert_eq!(m.tasks.len(), 3);
    assert_eq!(
        texts(&m.tasks),
        vec!["Call Joe", "Call Robert", "Get Robert to fix the bug"]
    );
    assert_eq!(
        m.tasks.iter().map(|t| t.done).collect::<Vec<bool>>(),
        vec![true, false, false]
    );
}

#[test]
fn delete_first_leaves_three_starting_with_call_mike() {
    let mut m = Model::default();
    m.update(Message::Delete { index: 0 });
    assert_eq!(m.tasks.len(), 3);
    assert_eq!(m.tasks[0].text, "Call Mike");
}

#[test]
fn filter_message_does_not_touch_tasks() {
    let mut m = Model::default();
    let before: Vec<String> = m.tasks.iter().map(|t| t.text.clone()).collect();
    let before_done: Vec<bool> = m.tasks.iter().map(|t| t.done).collect();
    let d = m.update(Message::Filter {
        filter: FILTER_COMPLETED,
    });
    assert_eq!(d, RenderDirective::Rerender);
    assert_eq!(m.filter, FILTER_COMPLETED);
    let after: Vec<String> = m.tasks.iter().map(|t| t.text.clone()).collect();
    assert_eq!(after, before);
    assert_eq!(
        m.tasks.iter().map(|t| t.done).collect::<Vec<bool>>(),
        before_done
    );
}

#[test]
fn exit_changes_nothing_and_needs_no_redraw() {
    let mut m = Model::default();
    let d = m.update(Message::Exit);
    assert_eq!(d, RenderDirective::NoOp);
    assert_eq!(m.tasks.len(), 4);
    assert_eq!(m.filter, FILTER_ALL);
}

#[test]
fn toggle_call_robert_keeps_all_four_visible() {
    let mut m = Model::default();
    assert_eq!(m.filter, FILTER_ALL);
    let d = m.update(Message::Toggle { index: 2 });
    assert_eq!(d, RenderDirective::Rerender);
    assert!(m.tasks[2].done);
    let visible = m.visible_tasks();
    assert_eq!(visible.len(), 4);
    assert_eq!(visible[2].text, "Call Robert");
    assert_eq!(
        visible[2].label(),
        "<span strikethrough=\"true\" alpha=\"50%\">Call Robert</span>"
    );
}

#[test]
fn active_filter_shows_open_tasks_in_order() {
    let mut m = Model::default();
    m.update(Message::Filter {
        filter: FILTER_ACTIVE,
    });
    let visible = m.visible_tasks();
    assert_eq!(
        texts(&visible),
        vec!["Call Robert", "Get Robert to fix the bug"]
    );
    assert!(visible.iter().all(|t| !t.done));
}

#[test]
fn completed_filter_shows_done_tasks_in_order() {
    let mut m = Model::default();
    m.update(Message::Filter {
        filter: FILTER_COMPLETED,
    });
    let visible = m.visible_tasks();
    assert_eq!(texts(&visible), vec!["Call Joe", "Call Mike"]);
    assert!(visible.iter().all(|t| t.done));
}

#[test]
fn all_filter_shows_everything() {
    let m = Model::default();
    let visible = m.visible_tasks();
    assert_eq!(texts(&visible), texts(&m.tasks));
}

#[test]
fn filter_task_matches_each_selection() {
    let open_task = Task::new("write", false);
    let done_task = Task::new("rest", true);
    let mut m = Model::default();
    assert!(m.filter_task(&open_task));
    assert!(m.filter_task(&done_task));
    m.update(Message::Filter {
        filter: FILTER_ACTIVE,
    });
    assert!(m.filter_task(&open_task));
    assert!(!m.filter_task(&done_task));
    m.update(Message::Filter {
        filter: FILTER_COMPLETED,
    });
    assert!(!m.filter_task(&open_task));
    assert!(m.filter_task(&done_task));
}

#[test]
fn label_of_open_task_is_its_text() {
    let t = Task::new("Call Joe", false);
    assert_eq!(t.label(), "Call Joe");
}

#[test]
fn label_of_done_task_is_struck_through() {
    let t = Task::new("Call Joe", true);
    assert_eq!(
        t.label(),
        "<span strikethrough=\"true\" alpha=\"50%\">Call Joe</span>"
    );
}

#[test]
fn label_of_empty_done_task_keeps_the_markup() {
    let t = Task::new("", true);
    assert_eq!(t.label(), "<span strikethrough=\"true\" alpha=\"50%\"></span>");
}
