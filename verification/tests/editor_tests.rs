use rustext::editor::{Action, Editor, SaveOutcome};
use rustext::input::{Key, Mods};
use rustext::prompt::{PromptState, PromptStep};

fn editor_with(text: &str) -> Editor {
    Editor::new(80, 24, Some(text), None, 0)
}

fn row_string(ed: &Editor, i: usize) -> String {
    ed.rows.get_row(i).iter().collect()
}

fn rendered_string(ed: &Editor, i: usize) -> String {
    ed.rows.get_render(i).iter().collect()
}

#[test]
fn enter_at_end_of_first_line_splits_in_empty_row() {
    let mut ed = editor_with("abc\ndef");
    ed.process_key(Key::Char('d'), Mods::Control);
    assert_eq!(ed.cursor.cursor_x, 3);
    assert_eq!(ed.cursor.cursor_y, 0);
    let r = ed.process_key(Key::Enter, Mods::Plain);
    assert_eq!(r, Action::Continue);
    assert_eq!(ed.rows.number_of_rows(), 3);
    assert_eq!(row_string(&ed, 0), "abc");
    assert_eq!(row_string(&ed, 1), "");
    assert_eq!(row_string(&ed, 2), "def");
    assert_eq!(ed.cursor.cursor_y, 1);
    assert_eq!(ed.cursor.cursor_x, 0);
}

#[test]
fn backspace_at_line_start_joins_rows() {
    let mut ed = editor_with("abc\ndef");
    ed.process_key(Key::Down, Mods::Plain);
    assert_eq!(ed.cursor.cursor_y, 1);
    assert_eq!(ed.cursor.cursor_x, 0);
    ed.process_key(Key::Backspace, Mods::Plain);
    assert_eq!(ed.rows.number_of_rows(), 1);
    assert_eq!(row_string(&ed, 0), "abcdef");
    assert_eq!(ed.cursor.cursor_y, 0);
    assert_eq!(ed.cursor.cursor_x, 3);
}

#[test]
fn tab_renders_to_next_multiple_of_eight() {
    let ed = editor_with("a\tb");
    assert_eq!(row_string(&ed, 0), "a\tb");
    assert_eq!(rendered_string(&ed, 0), "a       b");
    assert_eq!(rendered_string(&ed, 0).len(), 9);
}

#[test]
fn rendered_follows_every_mutation() {
    let mut ed = Editor::new(80, 24, None, None, 0);
    ed.process_key(Key::Char('x'), Mods::Plain);
    ed.process_key(Key::Tab, Mods::Plain);
    ed.process_key(Key::Char('y'), Mods::Plain);
    assert_eq!(row_string(&ed, 0), "x\ty");
    assert_eq!(rendered_string(&ed, 0), "x       y");
    ed.process_key(Key::Backspace, Mods::Plain);
    assert_eq!(row_string(&ed, 0), "x\t");
    assert_eq!(rendered_string(&ed, 0), "x       ");
    let mut tabbed = Editor::new(80, 24, Some("\tq"), None, 0);
    assert_eq!(rendered_string(&tabbed, 0), "        q");
    tabbed.process_key(Key::Char('m'), Mods::Plain);
    assert_eq!(row_string(&tabbed, 0), "m\tq");
    assert_eq!(rendered_string(&tabbed, 0), "m       q");
}

#[test]
fn save_text_round_trips_through_load() {
    let ed = editor_with("alpha\nbeta\ngamma");
    let saved = ed.save_text();
    assert_eq!(saved, "alpha\nbeta\ngamma");
    let re = Editor::new(80, 24, Some(&saved), None, 0);
    assert_eq!(re.rows.number_of_rows(), ed.rows.number_of_rows());
    for i in 0..ed.rows.number_of_rows() {
        assert_eq!(row_string(&re, i), row_string(&ed, i));
    }
}

#[test]
fn trailing_newline_adds_no_empty_row() {
    let ed = editor_with("a\n");
    assert_eq!(ed.rows.number_of_rows(), 1);
    assert_eq!(row_string(&ed, 0), "a");
    assert_eq!(ed.save_text(), "a");
}

#[test]
fn viewport_follows_cursor_and_reconciles() {
    let mut ed = Editor::new(5, 2, Some("one\ntwo\nthree\nfour\nfive"), None, 0);
    for _ in 0..4 {
        ed.process_key(Key::Down, Mods::Plain);
    }
    let _ = ed.build_frame(0);
    let y = ed.cursor.cursor_y;
    assert_eq!(y, 4);
    assert!(ed.cursor.row_offset <= y);
    assert!(y < ed.cursor.row_offset + 2);
    assert!(ed.cursor.column_offset <= ed.cursor.render_x);
    assert!(ed.cursor.render_x < ed.cursor.column_offset + 5);
}

#[test]
fn reconciling_twice_changes_nothing_more() {
    let mut ed = Editor::new(5, 2, Some("one\ntwo\nthree\nfour"), None, 0);
    for _ in 0..3 {
        ed.process_key(Key::Down, Mods::Plain);
    }
    let _ = ed.build_frame(0);
    let (ro, co, rx) = (ed.cursor.row_offset, ed.cursor.column_offset, ed.cursor.render_x);
    let _ = ed.build_frame(0);
    assert_eq!(ed.cursor.row_offset, ro);
    assert_eq!(ed.cursor.column_offset, co);
    assert_eq!(ed.cursor.render_x, rx);
}

#[test]
fn boundary_moves_are_no_ops() {
    let mut ed = editor_with("abc\nde");
    // Left at the very start.
    ed.process_key(Key::Left, Mods::Plain);
    assert_eq!((ed.cursor.cursor_y, ed.cursor.cursor_x), (0, 0));
    // Backspace at the very start.
    ed.process_key(Key::Backspace, Mods::Plain);
    assert_eq!(ed.rows.number_of_rows(), 2);
    assert_eq!(row_string(&ed, 0), "abc");
    assert_eq!((ed.cursor.cursor_y, ed.cursor.cursor_x), (0, 0));
    // Down at the last line.
    ed.process_key(Key::Down, Mods::Plain);
    assert_eq!(ed.cursor.cursor_y, 1);
    ed.process_key(Key::Down, Mods::Plain);
    assert_eq!(ed.cursor.cursor_y, 1);
    // Right at the end of the last line.
    ed.process_key(Key::Char('d'), Mods::Control);
    assert_eq!(ed.cursor.cursor_x, 2);
    ed.process_key(Key::Right, Mods::Plain);
    assert_eq!((ed.cursor.cursor_y, ed.cursor.cursor_x), (1, 2));
}

#[test]
fn horizontal_moves_wrap_across_lines() {
    let mut ed = editor_with("abc\ndef");
    ed.process_key(Key::Char('d'), Mods::Control);
    ed.process_key(Key::Right, Mods::Plain);
    assert_eq!((ed.cursor.cursor_y, ed.cursor.cursor_x), (1, 0));
    ed.process_key(Key::Left, Mods::Plain);
    assert_eq!((ed.cursor.cursor_y, ed.cursor.cursor_x), (0, 3));
}

#[test]
fn vertical_move_clamps_column_to_shorter_row() {
    let mut ed = editor_with("abcdef\nxy");
    ed.process_key(Key::Char('d'), Mods::Control);
    assert_eq!(ed.cursor.cursor_x, 6);
    ed.process_key(Key::Down, Mods::Plain);
    assert_eq!((ed.cursor.cursor_y, ed.cursor.cursor_x), (1, 2));
}

#[test]
fn delete_forward_removes_character_under_cursor() {
    let mut ed = editor_with("ab");
    ed.process_key(Key::Delete, Mods::Plain);
    assert_eq!(row_string(&ed, 0), "b");
    assert_eq!((ed.cursor.cursor_y, ed.cursor.cursor_x), (0, 0));
}

#[test]
fn typing_into_empty_buffer_creates_first_row() {
    let mut ed = Editor::new(80, 24, None, None, 0);
    assert_eq!(ed.rows.number_of_rows(), 0);
    ed.process_key(Key::Char('a'), Mods::Plain);
    assert_eq!(ed.rows.number_of_rows(), 1);
    assert_eq!(row_string(&ed, 0), "a");
    assert_eq!((ed.cursor.cursor_y, ed.cursor.cursor_x), (0, 1));
}

#[test]
fn enter_at_column_zero_inserts_blank_row_above() {
    let mut ed = editor_with("abc");
    ed.process_key(Key::Enter, Mods::Plain);
    assert_eq!(ed.rows.number_of_rows(), 2);
    assert_eq!(row_string(&ed, 0), "");
    assert_eq!(row_string(&ed, 1), "abc");
    assert_eq!((ed.cursor.cursor_y, ed.cursor.cursor_x), (1, 0));
}

#[test]
fn cancelled_save_prompt_leaves_buffer_and_reports_abort() {
    let mut ed = editor_with("abc");
    let action = ed.process_key(Key::Char('s'), Mods::Control);
    assert_eq!(action, Action::Save);
    assert!(!ed.has_filename());
    // The session loop would now run the filename prompt; the user
    // cancels it immediately.
    let mut prompt = PromptState::new();
    let step = prompt.step(Key::Esc, Mods::Plain);
    assert!(matches!(step, PromptStep::Cancel));
    ed.finish_save(SaveOutcome::Cancelled, 7);
    let msg: String = ed.status.shown(7).expect("message must be visible").iter().collect();
    assert_eq!(msg, "File Save Aborted");
    assert_eq!(ed.rows.number_of_rows(), 1);
    assert_eq!(row_string(&ed, 0), "abc");
    assert!(!ed.has_filename());
}

#[test]
fn committed_prompt_names_the_file_and_save_succeeds() {
    let mut ed = editor_with("abc\nd");
    let action = ed.process_key(Key::Char('s'), Mods::Control);
    assert_eq!(action, Action::Save);
    let mut prompt = PromptState::new();
    assert!(matches!(prompt.step(Key::Char('f'), Mods::Plain), PromptStep::Pending));
    assert!(matches!(prompt.step(Key::Char('x'), Mods::Plain), PromptStep::Pending));
    assert!(matches!(prompt.step(Key::Backspace, Mods::Plain), PromptStep::Pending));
    assert!(matches!(prompt.step(Key::Char('1'), Mods::Plain), PromptStep::Pending));
    match prompt.step(Key::Enter, Mods::Plain) {
        PromptStep::Commit(name) => {
            assert_eq!(name, "f1");
            ed.set_filename(name);
        },
        other => panic!("expected a commit, got {:?}", other),
    }
    assert!(ed.has_filename());
    assert_eq!(ed.save_text(), "abc\nd");
    ed.finish_save(SaveOutcome::Written, 3);
    let msg: String = ed.status.shown(3).expect("message must be visible").iter().collect();
    assert_eq!(msg, "File Saved");
}

#[test]
fn empty_prompt_input_cannot_commit() {
    let mut prompt = PromptState::new();
    assert!(matches!(prompt.step(Key::Enter, Mods::Plain), PromptStep::Pending));
    assert!(matches!(prompt.step(Key::Char('a'), Mods::Plain), PromptStep::Pending));
    assert!(matches!(prompt.step(Key::Backspace, Mods::Plain), PromptStep::Pending));
    assert!(matches!(prompt.step(Key::Enter, Mods::Plain), PromptStep::Pending));
}

#[test]
fn prompt_status_line_interpolates_input() {
    let mut prompt = PromptState::new();
    prompt.step(Key::Char('h'), Mods::Plain);
    prompt.step(Key::Char('i'), Mods::Plain);
    let line: String = prompt.status_line().iter().collect();
    assert_eq!(
        line,
        "(Enter File Name : hi   | Press: ENTER to save / ESC to cancel save)"
    );
}

#[test]
fn status_message_expires_after_timeout() {
    let mut ed = editor_with("x");
    ed.set_status("hello", 100);
    let shown: String = ed.status.shown(100).expect("fresh message").iter().collect();
    assert_eq!(shown, "hello");
    assert!(ed.status.shown(400).is_some());
    assert!(ed.status.shown(401).is_none());
}

#[test]
fn frame_is_the_exact_escape_annotated_text() {
    let mut ed = Editor::new(10, 2, Some("hi"), None, 0);
    let frame = ed.build_frame(0);
    let expected = "\u{1b}[?25l\u{1b}[1;1Hhi\u{1b}[K\r\n2\u{1b}[K\r\n\u{1b}[7mFile Not S\u{1b}[0m\r\n\u{1b}[KHELP: CTRL\u{1b}[1;1H\u{1b}[?25h";
    assert_eq!(frame, expected);
}

#[test]
fn frame_places_cursor_and_right_aligns_line_indicator() {
    let mut ed = Editor::new(30, 2, Some("ab\ncd"), None, 0);
    ed.process_key(Key::Down, Mods::Plain);
    ed.process_key(Key::Right, Mods::Plain);
    let frame = ed.build_frame(1000);
    let expected = "\u{1b}[?25l\u{1b}[1;1Hab\u{1b}[K\r\ncd\u{1b}[K\r\n\u{1b}[7mFile Not Saved [2 lines]   2/2\u{1b}[0m\r\n\u{1b}[K\u{1b}[2;2H\u{1b}[?25h";
    assert_eq!(frame, expected);
}

#[test]
fn page_down_and_up_jump_a_viewport() {
    let mut ed = Editor::new(10, 3, Some("a\nb\nc\nd\ne\nf\ng\nh"), None, 0);
    ed.process_key(Key::Down, Mods::Control);
    assert_eq!(ed.cursor.cursor_y, 5);
    let _ = ed.build_frame(0);
    ed.process_key(Key::Up, Mods::Control);
    assert_eq!(ed.cursor.cursor_y, 0);
}

#[test]
fn unrecognised_keys_are_ignored() {
    let mut ed = editor_with("abc");
    let before = row_string(&ed, 0);
    assert_eq!(ed.process_key(Key::Other, Mods::Plain), Action::Continue);
    assert_eq!(ed.process_key(Key::Char('z'), Mods::Control), Action::Continue);
    assert_eq!(ed.process_key(Key::Esc, Mods::Plain), Action::Continue);
    assert_eq!(ed.process_key(Key::Left, Mods::OtherMods), Action::Continue);
    assert_eq!(row_string(&ed, 0), before);
    assert_eq!((ed.cursor.cursor_y, ed.cursor.cursor_x), (0, 0));
}

#[test]
fn quit_key_ends_the_session() {
    let mut ed = editor_with("abc");
    assert_eq!(ed.process_key(Key::Char('q'), Mods::Control), Action::Quit);
    assert_eq!(row_string(&ed, 0), "abc");
}

#[test]
fn line_start_and_end_keys_move_within_the_row() {
    let mut ed = editor_with("hello");
    ed.process_key(Key::Char('d'), Mods::Control);
    assert_eq!(ed.cursor.cursor_x, 5);
    ed.process_key(Key::Char('a'), Mods::Control);
    assert_eq!(ed.cursor.cursor_x, 0);
}

#[test]
fn shift_modified_characters_still_insert() {
    let mut ed = Editor::new(80, 24, None, None, 0);
    ed.process_key(Key::Char('A'), Mods::Shift);
    assert_eq!(row_string(&ed, 0), "A");
}

#[test]
fn status_line_shows_final_path_component() {
    let mut ed = Editor::new(30, 2, Some("x"), Some("dir/file.txt".to_string()), 0);
    let frame = ed.build_frame(0);
    let expected = "\u{1b}[?25l\u{1b}[1;1Hx\u{1b}[K\r\n2\u{1b}[K\r\n\u{1b}[7mfile.txt [1 lines]         1/1\u{1b}[0m\r\n\u{1b}[KHELP: CTRL - [q: Quit | s: Sav\u{1b}[1;1H\u{1b}[?25h";
    assert_eq!(frame, expected);
}

#[test]
fn status_line_drops_parent_directories() {
    let mut ed = Editor::new(60, 2, Some("x"), Some("a/b/name.txt".to_string()), 0);
    let frame = ed.build_frame(0);
    assert!(frame.contains("name.txt [1 lines]"));
    assert!(!frame.contains("a/b"));
    let mut plain = Editor::new(60, 2, Some("x"), Some("plain.txt".to_string()), 0);
    let plain_frame = plain.build_frame(0);
    assert!(plain_frame.contains("plain.txt [1 lines]"));
}
