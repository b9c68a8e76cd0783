use athena::kanban::{
    default_board_steps, kanban_op, new_task_card, render_board, KanbanCard, KanbanCreateTaskTool,
    KanbanMoveTaskTool, KanbanOp, KanbanStep,
};

fn card(id: &str, column: &str, assignee: Option<&str>) -> KanbanCard {
    KanbanCard {
        id: id.to_string(),
        board_id: "default".to_string(),
        column_id: column.to_string(),
        title: format!("Task {}", id),
        assignee: assignee.map(|a| a.to_string()),
    }
}

#[test]
fn default_board_is_created_once() {
    let steps = default_board_steps(0);
    assert_eq!(steps.len(), 4);
    match &steps[0] {
        KanbanStep::CreateBoard(b) => assert_eq!((b.id.as_str(), b.name.as_str()), ("default", "Main Board")),
        _ => panic!(),
    }
    match &steps[2] {
        KanbanStep::CreateColumn(c) => assert_eq!((c.id.as_str(), c.order_idx), ("col-in-progress", 1)),
        _ => panic!(),
    }
    assert!(default_board_steps(1).is_empty());
}

#[test]
fn board_lists_cards_by_column() {
    let text = render_board(&[card("1", "col-todo", None), card("2", "col-done", Some("bob"))]);
    assert_eq!(
        text,
        "\n--- KANBAN BOARD ---\n\n  [TODO]\n    #1: Task 1 (Assigned to: unassigned)\n\n  [IN PROGRESS]\n    (No tasks)\n\n  [DONE]\n    #2: Task 2 (Assigned to: bob)\n\n--------------------"
    );
}

#[test]
fn dashboard_requests_become_operations() {
    match kanban_op("create", None, Some("T".to_string()), None, None) {
        Some(KanbanOp::Create { id, title, column_id, assignee }) => {
            assert_eq!(id.len(), 36);
            assert_eq!(title, "T");
            assert_eq!(column_id, "col-todo");
            assert!(assignee.is_none());
        }
        _ => panic!(),
    }
    assert!(kanban_op("create", None, None, None, None).is_none());
    assert!(matches!(kanban_op("move", Some("1".into()), None, Some("col-done".into()), None), Some(KanbanOp::Move { .. })));
    assert!(kanban_op("move", Some("1".into()), None, None, None).is_none());
    assert!(matches!(kanban_op("assign", Some("1".into()), None, None, Some("a".into())), Some(KanbanOp::Assign { .. })));
    assert!(matches!(kanban_op("delete", Some("1".into()), None, None, None), Some(KanbanOp::Delete { .. })));
    assert!(kanban_op("archive", Some("1".into()), None, None, None).is_none());
}

#[test]
fn tools_fill_in_defaults() {
    let t = KanbanCreateTaskTool;
    assert_eq!((t.name(), t.toolset()), ("kanban_create", "kanban"));
    let c = t.card(None, Some("me".to_string()));
    let d = t.card(None, None);
    assert_ne!(c.id, d.id);
    assert_eq!(c.title, "");
    assert_eq!(c.column_id, "col-todo");
    assert_eq!(c.board_id, "default");
    let m = KanbanMoveTaskTool;
    assert_eq!((m.name(), m.toolset()), ("kanban_move", "kanban"));
    assert_eq!(m.target(None, Some("col-done".to_string())), (String::new(), "col-done".to_string()));
    let n = new_task_card("x".to_string(), "T".to_string(), None);
    assert_eq!(n.column_id, "col-todo");
}

#[test]
fn typed_tasks_get_a_fresh_id_and_a_trimmed_assignee() {
    let c = athena::kanban::new_task("Ship".to_string(), "  ana  ");
    assert_eq!(c.id.len(), 36);
    assert_eq!((c.board_id.as_str(), c.column_id.as_str(), c.title.as_str()), ("default", "col-todo", "Ship"));
    assert_eq!(c.assignee.as_deref(), Some("ana"));
    assert_eq!(athena::kanban::new_task("x".to_string(), "   ").assignee, None);
    assert_eq!(athena::kanban::assignee_from_input(" bo "), Some("bo".to_string()));
}
