use txtui::content::{Content, ContentListItem};

fn type_text(content: &mut Content, text: &str) {
    for c in text.chars() {
        if c == '\n' {
            content.handle_enter();
        } else {
            content.insert_char(c);
        }
    }
}

fn strings(lines: &[&str]) -> Vec<String> {
    lines.iter().map(|l| l.to_string()).collect()
}

#[test]
fn insert_at_line_start_shifts_characters_right() {
    let mut content = Content::new();
    type_text(&mut content, "abc");
    for _ in 0..3 {
        content.move_cursor_left();
    }
    assert_eq!(content.cursor_index_x(), 0);
    content.insert_char('x');
    assert_eq!(content.lines(), strings(&["xabc"]));
    assert_eq!(content.cursor_index_x(), 1);
    assert_eq!(content.cursor_index_y(), 0);
}

#[test]
fn split_then_delete_restores_line_and_cursor() {
    let mut content = Content::new();
    type_text(&mut content, "hello");
    content.move_cursor_left();
    content.move_cursor_left();
    content.handle_enter();
    assert_eq!(content.lines(), strings(&["hel", "lo"]));
    assert_eq!((content.cursor_index_y(), content.cursor_index_x()), (1, 0));
    content.delete_char();
    assert_eq!(content.lines(), strings(&["hello"]));
    assert_eq!((content.cursor_index_y(), content.cursor_index_x()), (0, 3));
}

#[test]
fn enter_on_empty_buffer_appends_line() {
    let mut content = Content::new();
    content.handle_enter();
    assert_eq!(content.lines(), strings(&[""]));
    assert_eq!((content.cursor_index_y(), content.cursor_index_x()), (1, 0));
    content.insert_char('a');
    assert_eq!(content.lines(), strings(&["", "a"]));
    assert_eq!((content.cursor_index_y(), content.cursor_index_x()), (1, 1));
}

#[test]
fn delete_at_buffer_start_does_nothing() {
    let mut content = Content::new();
    content.delete_char();
    assert!(content.lines().is_empty());
    type_text(&mut content, "ab");
    content.scroll_to_top();
    content.delete_char();
    assert_eq!(content.lines(), strings(&["ab"]));
    assert_eq!((content.cursor_index_y(), content.cursor_index_x()), (0, 0));
}

#[test]
fn delete_removes_character_before_cursor() {
    let mut content = Content::new();
    type_text(&mut content, "abc");
    content.move_cursor_left();
    content.delete_char();
    assert_eq!(content.lines(), strings(&["ac"]));
    assert_eq!(content.cursor_index_x(), 1);
}

#[test]
fn delete_at_line_start_joins_with_previous_line() {
    let mut content = Content::new();
    type_text(&mut content, "ab\ncd");
    content.move_cursor_left();
    content.move_cursor_left();
    content.delete_char();
    assert_eq!(content.lines(), strings(&["abcd"]));
    assert_eq!((content.cursor_index_y(), content.cursor_index_x()), (0, 2));
}

#[test]
fn columns_count_characters_not_bytes() {
    let mut content = Content::new();
    type_text(&mut content, "héé");
    assert_eq!(content.cursor_index_x(), 3);
    content.move_cursor_left();
    content.insert_char('ü');
    assert_eq!(content.lines(), strings(&["héüé"]));
    content.delete_char();
    assert_eq!(content.lines(), strings(&["héé"]));
}

#[test]
fn horizontal_moves_wrap_between_lines() {
    let mut content = Content::new();
    type_text(&mut content, "ab\ncd");
    content.scroll_to_top();
    content.move_cursor_right();
    content.move_cursor_right();
    assert_eq!((content.cursor_index_y(), content.cursor_index_x()), (0, 2));
    content.move_cursor_right();
    assert_eq!((content.cursor_index_y(), content.cursor_index_x()), (1, 0));
    content.move_cursor_left();
    assert_eq!((content.cursor_index_y(), content.cursor_index_x()), (0, 2));
    content.scroll_to_top();
    content.move_cursor_left();
    assert_eq!((content.cursor_index_y(), content.cursor_index_x()), (0, 0));
    content.scroll_to_bottom();
    content.move_cursor_right();
    assert_eq!((content.cursor_index_y(), content.cursor_index_x()), (1, 2));
}

#[test]
fn vertical_moves_clamp_column() {
    let mut content = Content::new();
    type_text(&mut content, "abcdef\nxy\nlonger line");
    assert_eq!((content.cursor_index_y(), content.cursor_index_x()), (2, 11));
    content.move_cursor_up();
    assert_eq!((content.cursor_index_y(), content.cursor_index_x()), (1, 2));
    content.move_cursor_up();
    assert_eq!((content.cursor_index_y(), content.cursor_index_x()), (0, 2));
    content.move_cursor_up();
    assert_eq!((content.cursor_index_y(), content.cursor_index_x()), (0, 2));
    content.move_cursor_down();
    content.move_cursor_down();
    content.move_cursor_down();
    assert_eq!((content.cursor_index_y(), content.cursor_index_x()), (2, 2));
}

#[test]
fn visible_height_is_area_less_borders() {
    let mut content = Content::new();
    content.prepare_render(12, None);
    assert_eq!(content.visible_height(), 10);
    content.prepare_render(1, None);
    assert_eq!(content.visible_height(), 0);
}

fn fifty_lines(content: &mut Content) {
    for i in 0..50 {
        type_text(content, &format!("line{}", i));
        if i < 49 {
            content.handle_enter();
        }
    }
}

#[test]
fn scroll_to_top_then_bottom_on_fifty_lines() {
    let mut content = Content::new();
    content.prepare_render(12, None);
    fifty_lines(&mut content);
    content.scroll_to_top();
    assert_eq!(content.scroll_offset(), 0);
    assert_eq!((content.cursor_index_y(), content.cursor_index_x()), (0, 0));
    content.scroll_to_bottom();
    assert_eq!(content.scroll_offset(), 40);
    assert_eq!(content.cursor_index_y(), 49);
    assert_eq!(content.cursor_index_x(), 6);
}

#[test]
fn cursor_stays_on_screen_while_moving() {
    let mut content = Content::new();
    content.prepare_render(12, None);
    fifty_lines(&mut content);
    content.scroll_to_top();
    for _ in 0..30 {
        content.move_cursor_down();
        let (s, r) = (content.scroll_offset(), content.cursor_index_y());
        assert!(s <= r && r < s + 10);
    }
    assert_eq!(content.cursor_index_y(), 30);
    assert_eq!(content.scroll_offset(), 21);
    for _ in 0..25 {
        content.move_cursor_up();
        let (s, r) = (content.scroll_offset(), content.cursor_index_y());
        assert!(s <= r && r < s + 10);
    }
    assert_eq!(content.scroll_offset(), 5);
}

#[test]
fn moving_down_scrolls_one_line_at_a_time() {
    let mut content = Content::new();
    content.prepare_render(12, None);
    fifty_lines(&mut content);
    assert_eq!(content.scroll_offset(), 40);
    content.scroll_to_top();
    for _ in 0..45 {
        content.move_cursor_down();
    }
    assert_eq!(content.scroll_offset(), 36);
}

#[test]
fn view_is_clamped_after_lines_are_joined() {
    let mut content = Content::new();
    content.prepare_render(12, None);
    fifty_lines(&mut content);
    content.scroll_to_bottom();
    for _ in 0..6 {
        content.move_cursor_left();
    }
    content.delete_char();
    assert_eq!(content.lines().len(), 49);
    assert_eq!(content.cursor_index_y(), 48);
    assert_eq!(content.scroll_offset(), 39);
}

#[test]
fn scroll_to_bottom_on_empty_buffer() {
    let mut content = Content::new();
    content.prepare_render(12, None);
    content.scroll_to_bottom();
    assert_eq!(content.scroll_offset(), 0);
    assert_eq!((content.cursor_index_y(), content.cursor_index_x()), (0, 0));
}

#[test]
fn toggle_insert_resets_cursor() {
    let mut content = Content::new();
    type_text(&mut content, "ab\ncd");
    assert!(!content.enable_insert_mode());
    content.toggle_insert();
    assert!(content.enable_insert_mode());
    assert_eq!((content.cursor_index_y(), content.cursor_index_x()), (0, 0));
}

#[test]
fn select_prefers_committed_text_over_seed() {
    let mut content = Content::new();
    content.set_placeholder(2, &strings(&["seed"]));
    content.select_placeholder(2);
    assert_eq!(content.lines(), strings(&["seed"]));
    content.move_cursor_right();
    content.insert_char('!');
    content.save_content_for_current_topic(2);
    content.select_placeholder(3);
    assert_eq!(content.lines(), strings(&["empty"]));
    content.select_placeholder(2);
    assert_eq!(content.lines(), strings(&["s!eed"]));
    assert_eq!((content.cursor_index_y(), content.cursor_index_x()), (0, 0));
}

#[test]
fn select_out_of_range_changes_nothing() {
    let mut content = Content::new();
    type_text(&mut content, "keep");
    content.select_placeholder(5);
    content.save_content_for_current_topic(7);
    assert_eq!(content.lines(), strings(&["keep"]));
    assert_eq!(content.document(), "");
}

#[test]
fn seed_text_is_not_loaded_while_editing() {
    let mut content = Content::new();
    content.toggle_insert();
    type_text(&mut content, "draft");
    content.select_placeholder(1);
    assert_eq!(content.lines(), strings(&["draft"]));
}

#[test]
fn prepare_render_commits_while_editing() {
    let mut content = Content::new();
    content.toggle_insert();
    type_text(&mut content, "text");
    content.prepare_render(12, Some(3));
    content.toggle_insert();
    content.select_placeholder(0);
    assert_eq!(content.lines(), strings(&["empty"]));
    content.prepare_render(12, Some(3));
    assert_eq!(content.lines(), strings(&["text"]));
}

#[test]
fn document_lists_sections_in_topic_order_without_title() {
    let mut content = Content::new();
    content.toggle_insert();
    type_text(&mut content, "lineA\nlineB");
    content.save_content_for_current_topic(4);
    content.toggle_insert();
    content.select_placeholder(1);
    content.toggle_insert();
    content.scroll_to_bottom();
    for _ in 0..5 {
        content.delete_char();
    }
    type_text(&mut content, "line1");
    content.save_content_for_current_topic(1);
    assert_eq!(
        content.document(),
        "## Tutorials\nline1\n\n## Reference\nlineA\nlineB\n\n"
    );
}

#[test]
fn document_starts_with_project_title() {
    let mut content = Content::new();
    content.toggle_insert();
    type_text(&mut content, "My Project\nsubtitle");
    content.save_content_for_current_topic(0);
    content.save_content_for_current_topic(3);
    assert_eq!(
        content.document(),
        "# My Project\n\nThis documentation follows the Diátaxis framework.\nLearn more at https://diataxis.fr/\n\n## Explanation\nMy Project\nsubtitle\n\n"
    );
}

#[test]
fn document_with_empty_project_uses_stock_title() {
    let mut content = Content::new();
    content.toggle_insert();
    content.save_content_for_current_topic(0);
    content.save_content_for_current_topic(2);
    assert_eq!(
        content.document(),
        "# Documentation\n\nThis documentation follows the Diátaxis framework.\nLearn more at https://diataxis.fr/\n\n## Guides\n\n"
    );
}

#[test]
fn topics_by_index_and_labels() {
    assert_eq!(ContentListItem::from_index(0), Some(ContentListItem::ProjectName));
    assert_eq!(ContentListItem::from_index(4), Some(ContentListItem::Reference));
    assert_eq!(ContentListItem::from_index(5), None);
    assert_eq!(ContentListItem::Guides.label(), "Guides");
    assert_eq!(ContentListItem::Tutorials.placeholder_file(), "tutorials.md");
}
