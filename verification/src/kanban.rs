use vstd::prelude::*;
use crate::ids::{fresh_id, is_uuid_text};
use crate::text::{seq_contains, trim, trim_spec};

verus! {

/// A board of the kanban store.
#[derive(Clone, Debug)]
pub struct KanbanBoard {
    pub id: String,
    pub name: String,
}

/// A column of a board, shown in `order_idx` order.
#[derive(Clone, Debug)]
pub struct KanbanColumn {
    pub id: String,
    pub board_id: String,
    pub name: String,
    pub order_idx: i32,
}

/// A task on a board.
#[derive(Clone, Debug)]
pub struct KanbanCard {
    pub id: String,
    pub board_id: String,
    pub column_id: String,
    pub title: String,
    pub assignee: Option<String>,
}

} // verus!

verus! {

/// The board that the tools and the dashboard work on.
pub const DEFAULT_BOARD: &'static str = "default";

/// The column that new tasks start in.
pub const TODO_COLUMN: &'static str = "col-todo";

/// A write to the kanban store.
pub enum KanbanStep {
    CreateBoard(KanbanBoard),
    CreateColumn(KanbanColumn),
}

/// What a store with `board_count` boards needs in order to have the
/// default board: nothing, unless it has no board at all; then the board
/// "Main Board" and its columns Todo, In Progress and Done, in that order.
pub fn default_board_steps(board_count: i64) -> (steps: Vec<KanbanStep>)
    ensures
        board_count != 0 ==> steps@.len() == 0,
        board_count == 0 ==> {
            &&& steps@.len() == 4
            &&& steps@[0] matches KanbanStep::CreateBoard(b) && b.id@ == "default"@ && b.name@ == "Main Board"@
            &&& steps@[1] matches KanbanStep::CreateColumn(c) && c.id@ == "col-todo"@ && c.board_id@ == "default"@
                && c.name@ == "Todo"@ && c.order_idx == 0
            &&& steps@[2] matches KanbanStep::CreateColumn(c) && c.id@ == "col-in-progress"@
                && c.board_id@ == "default"@ && c.name@ == "In Progress"@ && c.order_idx == 1
            &&& steps@[3] matches KanbanStep::CreateColumn(c) && c.id@ == "col-done"@ && c.board_id@ == "default"@
                && c.name@ == "Done"@ && c.order_idx == 2
        },
{
    let mut steps: Vec<KanbanStep> = Vec::new();
    if board_count == 0 {
        steps.push(KanbanStep::CreateBoard(KanbanBoard {
            id: String::from_str("default"),
            name: String::from_str("Main Board"),
        }));
        steps.push(KanbanStep::CreateColumn(KanbanColumn {
            id: String::from_str("col-todo"),
            board_id: String::from_str("default"),
            name: String::from_str("Todo"),
            order_idx: 0,
        }));
        steps.push(KanbanStep::CreateColumn(KanbanColumn {
            id: String::from_str("col-in-progress"),
            board_id: String::from_str("default"),
            name: String::from_str("In Progress"),
            order_idx: 1,
        }));
        steps.push(KanbanStep::CreateColumn(KanbanColumn {
            id: String::from_str("col-done"),
            board_id: String::from_str("default"),
            name: String::from_str("Done"),
            order_idx: 2,
        }));
    }
    steps
}

/// How a card is listed on the board.
pub open spec fn card_line(c: KanbanCard) -> Seq<char> {
    "    #"@ + c.id@ + ": "@ + c.title@ + " (Assigned to: "@ + match c.assignee {
        Some(a) => a@,
        None => "unassigned"@,
    } + ")\n"@
}

/// The lines of the cards in the given column, in order.
pub open spec fn column_lines(cards: Seq<KanbanCard>, column: Seq<char>) -> Seq<char>
    decreases cards.len(),
{
    if cards.len() == 0 {
        Seq::<char>::empty()
    } else if cards.last().column_id@ == column {
        column_lines(cards.drop_last(), column) + card_line(cards.last())
    } else {
        column_lines(cards.drop_last(), column)
    }
}

/// Whether some card is in the given column.
pub open spec fn column_has_cards(cards: Seq<KanbanCard>, column: Seq<char>) -> bool {
    exists|k: int| 0 <= k < cards.len() && (#[trigger] cards[k]).column_id@ == column
}

/// How one column is shown: its heading, then its cards or a note that it has none.
pub open spec fn column_section(cards: Seq<KanbanCard>, column: Seq<char>, heading: Seq<char>) -> Seq<char> {
    "\n  ["@ + heading + "]\n"@ + if column_has_cards(cards, column) {
        column_lines(cards, column)
    } else {
        "    (No tasks)\n"@
    }
}

/// How the board is shown: the Todo, In Progress and Done columns in turn.
pub open spec fn board_text(cards: Seq<KanbanCard>) -> Seq<char> {
    "\n--- KANBAN BOARD ---\n"@ + column_section(cards, "col-todo"@, "TODO"@)
        + column_section(cards, "col-in-progress"@, "IN PROGRESS"@)
        + column_section(cards, "col-done"@, "DONE"@) + "\n--------------------"@
}

/// Whether `section` shows the given column of the board: it opens with the
/// column's heading; it lists the line of every card in that column; it
/// says "(No tasks)" and nothing else when no card is in the column; and
/// when some card is, a card line (not "(No tasks)") follows the heading.
pub open spec fn column_shown(section: Seq<char>, cards: Seq<KanbanCard>, column: Seq<char>, heading: Seq<char>) -> bool {
    let h = "\n  ["@ + heading + "]\n"@;
    &&& h.len() <= section.len() && section.take(h.len() as int) == h
    &&& forall|k: int| 0 <= k < cards.len() && (#[trigger] cards[k]).column_id@ == column ==> seq_contains(section,
            "    #"@ + cards[k].id@ + ": "@ + cards[k].title@ + " (Assigned to: "@
                + (match cards[k].assignee { Some(a) => a@, None => "unassigned"@ }) + ")\n"@)
    &&& (forall|k: int| 0 <= k < cards.len() ==> (#[trigger] cards[k]).column_id@ != column)
            ==> section == h + "    (No tasks)\n"@
    &&& (exists|k: int| 0 <= k < cards.len() && (#[trigger] cards[k]).column_id@ == column)
            ==> h.len() + 4 < section.len() && section[h.len() + 4int] == '#'
}

proof fn lemma_card_line_starts(c: KanbanCard)
    ensures
        card_line(c).len() > 4,
        card_line(c)[4] == '#',
{
    reveal_strlit("    #");
    assert("    #"@[4] == '#');
}

proof fn lemma_contains_shift(a: Seq<char>, b: Seq<char>, n: Seq<char>)
    requires
        seq_contains(b, n),
    ensures
        seq_contains(a + b, n),
{
    let i = choose|i: int| 0 <= i && i + n.len() <= b.len() && #[trigger] b.subrange(i, i + n.len()) == n;
    assert((a + b).subrange(a.len() + i, a.len() + i + n.len()) =~= b.subrange(i, i + n.len()));
}

proof fn lemma_contains_prefix(a: Seq<char>, b: Seq<char>, n: Seq<char>)
    requires
        seq_contains(a, n),
    ensures
        seq_contains(a + b, n),
{
    let i = choose|i: int| 0 <= i && i + n.len() <= a.len() && #[trigger] a.subrange(i, i + n.len()) == n;
    assert((a + b).subrange(i, i + n.len()) =~= a.subrange(i, i + n.len()));
}

proof fn lemma_line_in_column(cards: Seq<KanbanCard>, column: Seq<char>, k: int)
    requires
        0 <= k < cards.len(),
        cards[k].column_id@ == column,
    ensures
        seq_contains(column_lines(cards, column), card_line(cards[k])),
    decreases cards.len(),
{
    let rest = cards.drop_last();
    if k == cards.len() - 1 {
        let line = card_line(cards[k]);
        assert(column_lines(cards, column) == column_lines(rest, column) + line);
        assert((column_lines(rest, column) + line).subrange(column_lines(rest, column).len() as int,
            (column_lines(rest, column).len() + line.len()) as int) =~= line);
    } else {
        assert(rest[k] == cards[k]);
        lemma_line_in_column(rest, column, k);
        if cards.last().column_id@ == column {
            lemma_contains_prefix(column_lines(rest, column), card_line(cards.last()), card_line(cards[k]));
        }
    }
}

proof fn lemma_lines_start(cards: Seq<KanbanCard>, column: Seq<char>)
    ensures
        !column_has_cards(cards, column) ==> column_lines(cards, column).len() == 0,
        column_has_cards(cards, column) ==> column_lines(cards, column).len() > 4
            && column_lines(cards, column)[4] == '#',
    decreases cards.len(),
{
    if cards.len() > 0 {
        let rest = cards.drop_last();
        lemma_lines_start(rest, column);
        if column_has_cards(rest, column) {
            let k = choose|k: int| 0 <= k < rest.len() && (#[trigger] rest[k]).column_id@ == column;
            assert(cards[k] == rest[k]);
        }
        if column_has_cards(cards, column) && !column_has_cards(rest, column) {
            let k = choose|k: int| 0 <= k < cards.len() && (#[trigger] cards[k]).column_id@ == column;
            if k < rest.len() {
                assert(rest[k] == cards[k]);
            }
            lemma_card_line_starts(cards.last());
        }
        if !column_has_cards(cards, column) {
            assert(cards[cards.len() - 1] == cards.last());
        }
    }
}

proof fn lemma_section_shown(cards: Seq<KanbanCard>, column: Seq<char>, heading: Seq<char>)
    ensures
        column_shown(column_section(cards, column, heading), cards, column, heading),
{
    let h = "\n  ["@ + heading + "]\n"@;
    let sec = column_section(cards, column, heading);
    lemma_lines_start(cards, column);
    if column_has_cards(cards, column) {
        assert(sec.take(h.len() as int) =~= h);
        assert forall|k: int| 0 <= k < cards.len() && (#[trigger] cards[k]).column_id@ == column implies seq_contains(sec,
            "    #"@ + cards[k].id@ + ": "@ + cards[k].title@ + " (Assigned to: "@
                + (match cards[k].assignee { Some(a) => a@, None => "unassigned"@ }) + ")\n"@) by {
            lemma_line_in_column(cards, column, k);
            lemma_contains_shift(h, column_lines(cards, column), card_line(cards[k]));
        }
        assert(sec[h.len() + 4int] == column_lines(cards, column)[4]);
    } else {
        assert(sec.take(h.len() as int) =~= h);
        assert forall|k: int| 0 <= k < cards.len() implies (#[trigger] cards[k]).column_id@ != column by {}
    }
}

/// The board shows each of its three columns in turn, under its heading:
/// every card in the Todo, In Progress or Done column is listed in that
/// column's section, and a section says "(No tasks)" exactly when no card
/// is in its column.
pub proof fn lemma_board_lists_every_card(cards: Seq<KanbanCard>)
    ensures
        exists|todo: Seq<char>, doing: Seq<char>, done: Seq<char>|
            #![trigger column_shown(todo, cards, "col-todo"@, "TODO"@), column_shown(doing, cards, "col-in-progress"@, "IN PROGRESS"@), column_shown(done, cards, "col-done"@, "DONE"@)]
            board_text(cards) == "\n--- KANBAN BOARD ---\n"@ + todo + doing + done + "\n--------------------"@
            && column_shown(todo, cards, "col-todo"@, "TODO"@)
            && column_shown(doing, cards, "col-in-progress"@, "IN PROGRESS"@)
            && column_shown(done, cards, "col-done"@, "DONE"@),
{
    lemma_section_shown(cards, "col-todo"@, "TODO"@);
    lemma_section_shown(cards, "col-in-progress"@, "IN PROGRESS"@);
    lemma_section_shown(cards, "col-done"@, "DONE"@);
}

fn push_column(out: &mut String, cards: &[KanbanCard], column: &str, heading: &str)
    ensures
        final(out)@ == old(out)@ + column_section(cards@, column@, heading@),
{
    out.append("\n  [");
    out.append(heading);
    out.append("]\n");
    let mut lines = String::new();
    let mut any = false;
    for i in 0..cards.len()
        invariant
            lines@ == column_lines(cards@.take(i as int), column@),
            any == column_has_cards(cards@.take(i as int), column@),
    {
        proof {
            assert(cards@.take(i + 1).drop_last() =~= cards@.take(i as int));
        }
        let c = &cards[i];
        if crate::text::str_eq(c.column_id.as_str(), column) {
            lines.append("    #");
            lines.append(c.id.as_str());
            lines.append(": ");
            lines.append(c.title.as_str());
            lines.append(" (Assigned to: ");
            match &c.assignee {
                Some(a) => lines.append(a.as_str()),
                None => lines.append("unassigned"),
            }
            lines.append(")\n");
            any = true;
            proof {
                assert(cards@.take(i + 1)[i as int] == cards@[i as int]);
            }
        } else {
            proof {
                assert forall|k: int| 0 <= k < i + 1 && (#[trigger] cards@.take(i + 1)[k]).column_id@ == column@
                    implies column_has_cards(cards@.take(i as int), column@) by {
                    assert(cards@.take(i as int)[k] == cards@.take(i + 1)[k]);
                }
                if column_has_cards(cards@.take(i as int), column@) {
                    let k = choose|k: int| 0 <= k < i && (#[trigger] cards@.take(i as int)[k]).column_id@ == column@;
                    assert(cards@.take(i + 1)[k] == cards@.take(i as int)[k]);
                }
            }
        }
        proof {
            assert(lines@ =~= column_lines(cards@.take(i + 1), column@));
        }
    }
    proof {
        assert(cards@.take(cards@.len() as int) =~= cards@);
    }
    if any {
        out.append(lines.as_str());
    } else {
        out.append("    (No tasks)\n");
    }
}

/// The board as the kanban command shows it.
pub fn render_board(cards: &[KanbanCard]) -> (text: String)
    ensures
        text@ == board_text(cards@),
{
    let mut out = String::from_str("\n--- KANBAN BOARD ---\n");
    push_column(&mut out, cards, "col-todo", "TODO");
    push_column(&mut out, cards, "col-in-progress", "IN PROGRESS");
    push_column(&mut out, cards, "col-done", "DONE");
    out.append("\n--------------------");
    out
}

/// A change that the dashboard asks of the board.
#[allow(inconsistent_fields)]
pub enum KanbanOp {
    Create { id: String, title: String, column_id: String, assignee: Option<String> },
    Move { task_id: String, column_id: String },
    Assign { task_id: String, assignee: String },
    Delete { task_id: String },
}

/// The change that a dashboard request stands for, or `None` for an unknown
/// action or one without the fields it needs. A new task gets a fresh id and
/// goes to the Todo column unless the request names another.
pub fn kanban_op(
    action: &str,
    task_id: Option<String>,
    title: Option<String>,
    column_id: Option<String>,
    assignee: Option<String>,
) -> (op: Option<KanbanOp>)
    ensures
        action@ == "create"@ ==> match title {
            Some(t) => op matches Some(KanbanOp::Create { id, title: t2, column_id: c2, assignee: a2 })
                && is_uuid_text(id@) && t2@ == t@ && a2.deep_view() == assignee.deep_view()
                && c2@ == (match column_id { Some(c) => c@, None => "col-todo"@ }),
            None => op is None,
        },
        action@ == "move"@ ==> match (task_id, column_id) {
            (Some(i), Some(c)) => op matches Some(KanbanOp::Move { task_id: i2, column_id: c2 }) && i2@ == i@ && c2@ == c@,
            _ => op is None,
        },
        action@ == "assign"@ ==> match (task_id, assignee) {
            (Some(i), Some(a)) => op matches Some(KanbanOp::Assign { task_id: i2, assignee: a2 }) && i2@ == i@ && a2@ == a@,
            _ => op is None,
        },
        action@ == "delete"@ ==> match task_id {
            Some(i) => op matches Some(KanbanOp::Delete { task_id: i2 }) && i2@ == i@,
            None => op is None,
        },
        !(action@ == "create"@ || action@ == "move"@ || action@ == "assign"@ || action@ == "delete"@) ==> op is None,
{
    proof {
        reveal_strlit("create");
        reveal_strlit("move");
        reveal_strlit("assign");
        reveal_strlit("delete");
        assert("create"@[0] == 'c' && "move"@[0] == 'm' && "assign"@[0] == 'a' && "delete"@[0] == 'd');
    }
    if crate::text::str_eq(action, "create") {
        match title {
            Some(t) => {
                let c = match column_id {
                    Some(c) => c,
                    None => String::from_str("col-todo"),
                };
                Some(KanbanOp::Create { id: fresh_id(), title: t, column_id: c, assignee })
            },
            None => None,
        }
    } else if crate::text::str_eq(action, "move") {
        match (task_id, column_id) {
            (Some(i), Some(c)) => Some(KanbanOp::Move { task_id: i, column_id: c }),
            _ => None,
        }
    } else if crate::text::str_eq(action, "assign") {
        match (task_id, assignee) {
            (Some(i), Some(a)) => Some(KanbanOp::Assign { task_id: i, assignee: a }),
            _ => None,
        }
    } else if crate::text::str_eq(action, "delete") {
        match task_id {
            Some(i) => Some(KanbanOp::Delete { task_id: i }),
            None => None,
        }
    } else {
        None
    }
}

/// The card that a new task becomes: on the default board, in the Todo column.
pub fn new_task_card(id: String, title: String, assignee: Option<String>) -> (c: KanbanCard)
    ensures
        c.id == id,
        c.board_id@ == "default"@,
        c.column_id@ == "col-todo"@,
        c.title == title,
        c.assignee == assignee,
{
    KanbanCard {
        id,
        board_id: String::from_str(DEFAULT_BOARD),
        column_id: String::from_str(TODO_COLUMN),
        title,
        assignee,
    }
}

/// The assignee typed for a new task: the text without white space at
/// either end, or nobody when that is empty.
pub fn assignee_from_input(text: &str) -> (a: Option<String>)
    ensures
        trim_spec(text@).len() == 0 ==> a is None,
        trim_spec(text@).len() > 0 ==> (a matches Some(s) && s@ == trim_spec(text@)),
{
    let t = trim(text);
    if t.is_empty() {
        None
    } else {
        Some(String::from_str(t))
    }
}

/// A new task typed at the terminal: a card under a fresh id in the default
/// board's Todo column, with the given title and the typed assignee.
pub fn new_task(title: String, assignee_input: &str) -> (c: KanbanCard)
    ensures
        is_uuid_text(c.id@),
        c.board_id@ == "default"@,
        c.column_id@ == "col-todo"@,
        c.title == title,
        trim_spec(assignee_input@).len() == 0 ==> c.assignee is None,
        trim_spec(assignee_input@).len() > 0 ==> (c.assignee matches Some(s) && s@ == trim_spec(assignee_input@)),
{
    new_task_card(fresh_id(), title, assignee_from_input(assignee_input))
}

/// The tool with which the agent adds a task to the board.
pub struct KanbanCreateTaskTool;

/// The tool with which the agent moves a task to another column.
pub struct KanbanMoveTaskTool;

impl KanbanCreateTaskTool {
    pub fn name(&self) -> (n: &'static str)
        ensures
            n@ == "kanban_create"@,
    {
        "kanban_create"
    }

    pub fn toolset(&self) -> (t: &'static str)
        ensures
            t@ == "kanban"@,
    {
        "kanban"
    }

    /// The card that a call adds: under a fresh id, with the given title
    /// (empty where the call gives none) and assignee, on the default board's
    /// Todo column.
    pub fn card(&self, title: Option<String>, assignee: Option<String>) -> (c: KanbanCard)
        ensures
            is_uuid_text(c.id@),
            c.board_id@ == "default"@,
            c.column_id@ == "col-todo"@,
            c.title@ == (match title { Some(t) => t@, None => Seq::<char>::empty() }),
            c.assignee == assignee,
    {
        let t = match title {
            Some(t) => t,
            None => String::new(),
        };
        new_task_card(fresh_id(), t, assignee)
    }
}

impl KanbanMoveTaskTool {
    pub fn name(&self) -> (n: &'static str)
        ensures
            n@ == "kanban_move"@,
    {
        "kanban_move"
    }

    pub fn toolset(&self) -> (t: &'static str)
        ensures
            t@ == "kanban"@,
    {
        "kanban"
    }

    /// The task and the column of a call: empty where the call gives none.
    pub fn target(&self, task_id: Option<String>, column: Option<String>) -> (r: (String, String))
        ensures
            r.0@ == (match task_id { Some(t) => t@, None => Seq::<char>::empty() }),
            r.1@ == (match column { Some(c) => c@, None => Seq::<char>::empty() }),
    {
        let t = match task_id {
            Some(t) => t,
            None => String::new(),
        };
        let c = match column {
            Some(c) => c,
            None => String::new(),
        };
        (t, c)
    }
}

} // verus!
