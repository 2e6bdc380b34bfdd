use txtui::content::Content;
use txtui::screen::Screen;

#[test]
fn test_default_selection() {
    let screen = Screen::new();
    assert_eq!(screen.selected(), Some(0));
}

#[test]
fn test_next_navigation() {
    let mut screen = Screen::new();
    let mut content = Content::new();
    assert_eq!(screen.selected(), Some(0));

    screen.next(&mut content);
    assert_eq!(screen.selected(), Some(1));

    screen.next(&mut content);
    assert_eq!(screen.selected(), Some(2));

    screen.next(&mut content);
    assert_eq!(screen.selected(), Some(3));

    screen.next(&mut content);
    assert_eq!(screen.selected(), Some(4));

    screen.next(&mut content);
    assert_eq!(screen.selected(), Some(0));
}

#[test]
fn test_previous_navigation() {
    let mut screen = Screen::new();
    let mut content = Content::new();

    assert_eq!(screen.selected(), Some(0));

    screen.previous(&mut content);
    assert_eq!(screen.selected(), Some(screen.items().len() - 1));

    screen.previous(&mut content);
    assert_eq!(screen.selected(), Some(screen.items().len() - 2));
}

#[test]
fn test_toggle_popup() {
    let mut screen = Screen::new();
    assert!(!screen.show_popup());

    screen.toggle_popup();
    assert!(screen.show_popup());

    screen.toggle_popup();
    assert!(!screen.show_popup());
}

#[test]
fn test_screen_items_length() {
    let screen = Screen::new();

    assert_eq!(screen.items().len(), 5);
    assert_eq!(screen.items()[0], "Project Name");
    assert_eq!(screen.items()[1], "Tutorials");
    assert_eq!(screen.items()[2], "How-to Guides");
    assert_eq!(screen.items()[3], "Explanation");
    assert_eq!(screen.items()[4], "Reference");
}

#[test]
fn test_selection_persistence_after_toggle_popup() {
    let mut screen = Screen::new();
    let mut content = Content::new();
    screen.next(&mut content);
    assert_eq!(screen.selected(), Some(1));

    screen.toggle_popup();
    assert_eq!(screen.selected(), Some(1));
}

#[test]
fn switching_loads_seed_text_of_unedited_topic() {
    let mut screen = Screen::new();
    let mut content = Content::new();
    content.set_placeholder(1, &vec!["How to start".to_string(), "".to_string()]);
    screen.next(&mut content);
    assert_eq!(content.lines(), vec!["How to start".to_string(), "".to_string()]);
    screen.next(&mut content);
    assert_eq!(content.lines(), vec!["empty".to_string()]);
}

#[test]
fn five_switches_return_with_committed_edits() {
    let mut screen = Screen::new();
    let mut content = Content::new();
    content.toggle_insert();
    for c in "hello".chars() {
        content.insert_char(c);
    }
    content.save_content_for_current_topic(0);
    content.toggle_insert();
    for _ in 0..5 {
        screen.next(&mut content);
    }
    assert_eq!(screen.selected(), Some(0));
    assert_eq!(content.lines(), vec!["hello".to_string()]);
    for _ in 0..5 {
        screen.previous(&mut content);
    }
    assert_eq!(screen.selected(), Some(0));
    assert_eq!(content.lines(), vec!["hello".to_string()]);
}
