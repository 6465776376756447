use git_browser::app::refs_page::RefsPage;
use git_browser::app::{Action, App};
use git_browser::objects::{Entry, ObjectId, ObjectKind, ObjectRef};
use git_browser::text::{Color, Panel, Rendering, Span, Style};
use git_browser::ui::{compose, ui, Area, BORDER_ROWS, FOOTER_ROWS, RESERVED_ROWS};

fn obj(byte: u8, kind: ObjectKind) -> ObjectRef {
    ObjectRef { id: ObjectId { bytes: [byte; 20] }, kind }
}

fn entry(name: &str, byte: u8, kind: ObjectKind) -> Entry {
    Entry { name: name.to_string(), object: obj(byte, kind) }
}

fn two_branches() -> App {
    App::new(RefsPage::new(
        "repo".to_string(),
        vec![entry("main", 0xa1, ObjectKind::Commit), entry("dev", 0xb2, ObjectKind::Commit)],
    ))
}

fn root_tree() -> Vec<Entry> {
    vec![
        entry("src", 1, ObjectKind::Tree),
        entry("README", 2, ObjectKind::Blob),
        entry("v1.0", 3, ObjectKind::Tag),
        entry("odd", 4, ObjectKind::Unknown),
    ]
}

fn styled(text: &str, fg: Option<Color>, bold: bool, reversed: bool) -> Span {
    Span { content: text.to_string(), style: Style { fg, bold, reversed } }
}

fn blank() -> Span {
    styled(" ", None, false, false)
}

fn label(text: &str) -> Span {
    styled(text, Some(Color::Green), true, false)
}

fn segment(text: &str) -> Span {
    styled(text, Some(Color::Blue), true, false)
}

#[test]
fn new_navigator_is_at_the_root() {
    let app = two_branches();
    assert_eq!(app.depth(), 0);
    assert_eq!(app.commit(), None);
    assert_eq!(app.search_input, "");
}

#[test]
fn selecting_a_branch_opens_its_commit() {
    let mut app = two_branches();
    let commit_a = obj(0xa1, ObjectKind::Commit);
    let action = app.select();
    assert_eq!(action, Action::OpenCommit { object: commit_a, name: "main".to_string() });
    assert_eq!(app.depth(), 0);
    app.open_commit(commit_a.id, commit_a, "main".to_string(), root_tree());
    assert_eq!(app.depth(), 1);
    assert_eq!(app.commit(), Some(commit_a.id));
    assert_eq!(
        app.draw(24, 5).body,
        Rendering::List(vec![
            styled("src", None, false, true),
            styled("README", None, false, false),
            styled("v1.0", None, false, false),
            styled("odd", None, false, false),
        ])
    );
}

#[test]
fn selecting_the_second_branch_opens_the_second_commit() {
    let mut app = two_branches();
    app.next_selection();
    assert_eq!(
        app.select(),
        Action::OpenCommit { object: obj(0xb2, ObjectKind::Commit), name: "dev".to_string() }
    );
}

#[test]
fn selecting_a_tree_opens_it() {
    let mut app = two_branches();
    let commit = obj(0xa1, ObjectKind::Commit);
    app.open_commit(commit.id, commit, "main".to_string(), root_tree());
    let action = app.select();
    assert_eq!(
        action,
        Action::OpenTree { object: obj(1, ObjectKind::Tree), name: "src".to_string() }
    );
    app.open_tree(obj(1, ObjectKind::Tree), "src".to_string(), Vec::new());
    assert_eq!(app.depth(), 2);
    assert_eq!(app.commit(), Some(commit.id));
}

#[test]
fn selecting_a_blob_a_tag_or_an_unknown_object_changes_nothing() {
    let mut app = two_branches();
    let commit = obj(0xa1, ObjectKind::Commit);
    app.open_commit(commit.id, commit, "main".to_string(), root_tree());
    for _ in 0..3 {
        app.next_selection();
        assert_eq!(app.select(), Action::Stay);
        assert_eq!(app.depth(), 1);
        assert_eq!(app.commit(), Some(commit.id));
    }
}

#[test]
fn tree_with_one_blob_is_a_dead_end() {
    let mut app = two_branches();
    app.open_tree(
        obj(5, ObjectKind::Tree),
        "doc".to_string(),
        vec![entry("notes.txt", 6, ObjectKind::Blob)],
    );
    assert_eq!(app.select(), Action::Stay);
    assert_eq!(app.depth(), 1);
    app.next_selection();
    assert_eq!(app.select(), Action::Stay);
    assert_eq!(app.depth(), 1);
}

#[test]
fn selecting_on_an_empty_page_changes_nothing() {
    let mut app = App::new(RefsPage::new("bare".to_string(), Vec::new()));
    assert_eq!(app.select(), Action::Stay);
    app.open_tree(obj(5, ObjectKind::Tree), "empty".to_string(), Vec::new());
    assert_eq!(app.select(), Action::Stay);
    app.next_selection();
    app.previous_selection();
    assert_eq!(app.select(), Action::Stay);
    assert_eq!(app.depth(), 1);
}

#[test]
fn select_does_not_move_the_cursor() {
    let mut app = two_branches();
    app.next_selection();
    let first = app.select();
    let second = app.select();
    assert_eq!(first, second);
}

#[test]
fn opening_adds_one_page_and_back_removes_one() {
    let mut app = two_branches();
    app.open_tree(obj(1, ObjectKind::Tree), "a".to_string(), Vec::new());
    assert_eq!(app.depth(), 1);
    app.open_tree(obj(2, ObjectKind::Tree), "b".to_string(), Vec::new());
    assert_eq!(app.depth(), 2);
    let commit = obj(3, ObjectKind::Commit);
    app.open_commit(commit.id, commit, "c".to_string(), Vec::new());
    assert_eq!(app.depth(), 3);
    app.back();
    assert_eq!(app.depth(), 2);
    app.back();
    assert_eq!(app.depth(), 1);
    app.back();
    assert_eq!(app.depth(), 0);
}

#[test]
fn back_at_the_root_changes_nothing() {
    let mut app = two_branches();
    app.next_selection();
    app.back();
    assert_eq!(app.depth(), 0);
    assert_eq!(app.commit(), None);
    assert_eq!(
        app.select(),
        Action::OpenCommit { object: obj(0xb2, ObjectKind::Commit), name: "dev".to_string() }
    );
    let mut untouched = two_branches();
    untouched.next_selection();
    assert_eq!(app, untouched);
}

#[test]
fn commit_stays_open_until_the_stack_is_empty() {
    let mut app = two_branches();
    let commit = obj(0xa1, ObjectKind::Commit);
    app.open_commit(commit.id, commit, "main".to_string(), root_tree());
    app.open_tree(obj(1, ObjectKind::Tree), "src".to_string(), Vec::new());
    app.back();
    assert_eq!(app.commit(), Some(commit.id));
    app.back();
    assert_eq!(app.depth(), 0);
    assert_eq!(app.commit(), None);
}

#[test]
fn a_later_commit_replaces_the_open_one() {
    let mut app = two_branches();
    let first = obj(0xa1, ObjectKind::Commit);
    let second = obj(0xc3, ObjectKind::Commit);
    app.open_commit(first.id, first, "main".to_string(), root_tree());
    app.open_commit(second.id, second, "vendor".to_string(), Vec::new());
    assert_eq!(app.commit(), Some(second.id));
    app.back();
    assert_eq!(app.commit(), Some(second.id));
    app.back();
    assert_eq!(app.commit(), None);
}

#[test]
fn round_trip_returns_to_the_root() {
    for pages in 0..6u8 {
        let mut app = two_branches();
        for page in 0..pages {
            if page % 2 == 0 {
                let commit = obj(page, ObjectKind::Commit);
                app.open_commit(commit.id, commit, format!("c{}", page), root_tree());
            } else {
                app.open_tree(obj(page, ObjectKind::Tree), format!("t{}", page), root_tree());
            }
            app.next_selection();
            app.next_selection();
            app.previous_selection();
        }
        assert_eq!(app.depth(), usize::from(pages));
        for _ in 0..pages {
            app.back();
        }
        assert_eq!(app.depth(), 0);
        assert_eq!(app.commit(), None);
        assert_eq!(app, two_branches());
    }
}

#[test]
fn moves_go_to_the_active_page_only() {
    let mut app = two_branches();
    app.next_selection();
    let commit = obj(0xb2, ObjectKind::Commit);
    app.open_commit(commit.id, commit, "dev".to_string(), root_tree());
    app.next_selection();
    app.next_selection();
    app.next_selection();
    app.next_selection();
    app.previous_selection();
    assert_eq!(
        app.draw(24, 5).body,
        Rendering::List(vec![
            styled("src", None, false, false),
            styled("README", None, false, false),
            styled("v1.0", None, false, true),
            styled("odd", None, false, false),
        ])
    );
    app.back();
    assert_eq!(
        app.draw(24, 5).body,
        Rendering::List(vec![styled("main", None, false, false), styled("dev", None, false, true)])
    );
}

#[test]
fn title_at_the_root() {
    let app = two_branches();
    assert_eq!(app.title(), vec![blank(), label("repo"), blank()]);
}

#[test]
fn title_with_an_open_commit() {
    let mut app = two_branches();
    let commit = obj(0xa1, ObjectKind::Commit);
    app.open_commit(commit.id, commit, "main".to_string(), root_tree());
    assert_eq!(
        app.title(),
        vec![
            blank(),
            label("repo@a1a1a1a"),
            segment("main"),
            blank(),
        ]
    );
}

#[test]
fn title_with_a_path() {
    let mut app = two_branches();
    let commit = obj(0xa1, ObjectKind::Commit);
    app.open_commit(commit.id, commit, "main".to_string(), root_tree());
    app.open_tree(obj(1, ObjectKind::Tree), "src".to_string(), Vec::new());
    app.open_tree(obj(2, ObjectKind::Tree), "app".to_string(), Vec::new());
    assert_eq!(
        app.title(),
        vec![
            blank(),
            label("repo@a1a1a1a: "),
            segment("main"),
            segment("/src"),
            segment("/app"),
            blank(),
        ]
    );
}

#[test]
fn title_shows_the_first_seven_digits_of_the_commit() {
    let mut app = two_branches();
    let bytes = [
        0x12, 0x23, 0x34, 0x45, 0x56, 0x67, 0x78, 0x89, 0x9a, 0xab, 0xbc, 0xcd, 0xde, 0xef, 0xf0,
        0x01, 0x13, 0x24, 0x35, 0x46,
    ];
    let commit = ObjectRef { id: ObjectId { bytes }, kind: ObjectKind::Commit };
    app.open_commit(commit.id, commit, "main".to_string(), root_tree());
    assert_eq!(commit.id.to_hex(), "12233445566778899aabbccddeeff00113243546");
    assert_eq!(app.title()[1], label("repo@1223344"));
}

#[test]
fn title_drops_the_commit_when_the_stack_is_empty_again() {
    let mut app = two_branches();
    let commit = obj(0xa1, ObjectKind::Commit);
    app.open_commit(commit.id, commit, "main".to_string(), root_tree());
    app.back();
    assert_eq!(app.title(), vec![blank(), label("repo"), blank()]);
}

#[test]
fn title_without_a_commit() {
    let mut app = two_branches();
    app.open_tree(obj(1, ObjectKind::Tree), "src".to_string(), Vec::new());
    assert_eq!(app.title(), vec![blank(), label("repo"), segment("src"), blank()]);
    app.open_tree(obj(2, ObjectKind::Tree), "app".to_string(), Vec::new());
    assert_eq!(
        app.title(),
        vec![blank(), label("repo: "), segment("src"), segment("/app"), blank()]
    );
}

#[test]
fn draw_frames_the_active_page_with_the_title() {
    let mut app = two_branches();
    app.next_selection();
    assert_eq!(
        app.draw(24, 5),
        Panel {
            title: vec![blank(), label("repo"), blank()],
            body: Rendering::List(vec![
                styled("main", None, false, false),
                styled("dev", None, false, true),
            ]),
        }
    );
}

#[test]
fn search_input_is_kept() {
    let mut app = two_branches();
    app.search_input = "needle".to_string();
    app.next_selection();
    app.open_tree(obj(1, ObjectKind::Tree), "src".to_string(), Vec::new());
    app.back();
    assert_eq!(app.search_input, "needle");
}

fn area(x: u16, y: u16, width: u16, height: u16) -> Area {
    Area { x, y, width, height }
}

#[test]
fn screen_has_the_page_and_both_footers() {
    let app = two_branches();
    let screen = ui(&app, area(0, 0, 80, 24));
    assert_eq!(screen.panel, app.draw(24, RESERVED_ROWS));
    assert_eq!(
        screen.mode_footer,
        vec![
            styled("Normal Mode", Some(Color::Green), false, false),
            styled(" | ", Some(Color::White), false, false),
            styled("Not doing anything", Some(Color::DarkGray), false, false),
        ]
    );
    assert_eq!(screen.keys_footer, vec![styled("(^x) to exit", Some(Color::Red), false, false)]);
}

#[test]
fn screen_is_laid_out_above_a_footer_of_two_halves() {
    let screen = ui(&two_branches(), area(0, 0, 80, 24));
    assert_eq!(screen.panel_area, area(0, 0, 80, 21));
    assert_eq!(screen.mode_area, area(0, 21, 40, 3));
    assert_eq!(screen.keys_area, area(40, 21, 40, 3));
}

#[test]
fn layout_follows_the_terminal() {
    let screen = ui(&two_branches(), area(2, 1, 100, 10));
    assert_eq!(screen.panel_area, area(2, 1, 100, 7));
    assert_eq!(screen.mode_area, area(2, 8, 50, 3));
    assert_eq!(screen.keys_area, area(52, 8, 50, 3));
}

fn lies_inside(outer: Area, part: Area) -> bool {
    outer.x <= part.x
        && u32::from(part.x) + u32::from(part.width) <= u32::from(outer.x) + u32::from(outer.width)
        && outer.y <= part.y
        && u32::from(part.y) + u32::from(part.height)
            <= u32::from(outer.y) + u32::from(outer.height)
}

#[test]
fn boxes_lie_inside_the_terminal_whatever_its_size() {
    let app = two_branches();
    for width in 0..=40u16 {
        for height in 0..=24u16 {
            let terminal = area(3, 2, width, height);
            let screen = ui(&app, terminal);
            assert!(lies_inside(terminal, screen.panel_area), "page on {:?}", terminal);
            assert!(lies_inside(terminal, screen.mode_area), "mode on {:?}", terminal);
            assert!(lies_inside(terminal, screen.keys_area), "keys on {:?}", terminal);
            assert_eq!(screen.panel_area.x, terminal.x);
            assert_eq!(screen.panel_area.width, terminal.width);
            assert_eq!(screen.mode_area.y, screen.keys_area.y);
            assert_eq!(screen.mode_area.height, screen.keys_area.height);
        }
    }
}

#[test]
fn boxes_lie_inside_a_terminal_at_the_far_corner() {
    let terminal = area(u16::MAX - 10, u16::MAX - 4, 10, 4);
    let screen = ui(&two_branches(), terminal);
    assert!(lies_inside(terminal, screen.panel_area));
    assert!(lies_inside(terminal, screen.mode_area));
    assert!(lies_inside(terminal, screen.keys_area));
}

#[test]
fn layout_of_a_terminal_without_cells() {
    let screen = ui(&two_branches(), area(0, 0, 0, 0));
    assert_eq!(screen.panel_area.width, 0);
    assert_eq!(screen.panel_area.x, 0);
    assert_eq!(screen.mode_area.y, screen.keys_area.y);
    assert_eq!(screen.mode_area.height, screen.keys_area.height);
}

#[test]
fn compose_puts_the_boxes_where_it_is_told() {
    let app = two_branches();
    let screen = compose(&app, 24, area(0, 0, 10, 5), area(1, 2, 3, 4), area(5, 6, 7, 8));
    assert_eq!(screen.panel, app.draw(24, RESERVED_ROWS));
    assert_eq!(screen.panel_area, area(0, 0, 10, 5));
    assert_eq!(screen.mode_area, area(1, 2, 3, 4));
    assert_eq!(screen.keys_area, area(5, 6, 7, 8));
    assert_eq!(screen.keys_footer, vec![styled("(^x) to exit", Some(Color::Red), false, false)]);
}

#[test]
fn footer_and_frame_take_five_rows() {
    assert_eq!(FOOTER_ROWS, 3);
    assert_eq!(BORDER_ROWS, 2);
    assert_eq!(RESERVED_ROWS, 5);
}
