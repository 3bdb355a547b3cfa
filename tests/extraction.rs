use mdt::{extract_tag_items, new_file_info, parse_file, MdEvent, TagItem, TagItemContent, TagType};

fn items_of(text: &str) -> Vec<TagItem> {
    parse_file("notes.md".to_string(), text).todos
}

fn list_of(item: &TagItem) -> (bool, Vec<String>) {
    match &item.content {
        Some(TagItemContent::List { is_numbered, items }) => (*is_numbered, items.clone()),
        None => panic!("expected list content"),
    }
}

fn text(s: &str) -> MdEvent {
    MdEvent::Text(s.to_string())
}

#[test]
fn single_todo_heading() {
    let items = items_of("# TODO: Buy milk\n");
    assert_eq!(items.len(), 1);
    assert_eq!(items[0].tag_type, TagType::Todo);
    assert_eq!(items[0].title, "Buy milk");
    assert!(items[0].content.is_none());
}

#[test]
fn title_is_trimmed() {
    let items = items_of("## TODO:   Trim me  \n");
    assert_eq!(items.len(), 1);
    assert_eq!(items[0].title, "Trim me");
    assert!(items[0].content.is_none());
}

#[test]
fn unordered_list_is_captured() {
    let items = items_of("# TODO: Groceries\n- milk\n- eggs\n");
    assert_eq!(items.len(), 1);
    assert_eq!(items[0].title, "Groceries");
    let (numbered, list) = list_of(&items[0]);
    assert!(!numbered);
    assert_eq!(list, vec!["milk".to_string(), "eggs".to_string()]);
}

#[test]
fn ordered_list_is_captured() {
    let items = items_of("# TODO: Groceries\n1. milk\n2. eggs\n");
    assert_eq!(items.len(), 1);
    let (numbered, list) = list_of(&items[0]);
    assert!(numbered);
    assert_eq!(list, vec!["milk".to_string(), "eggs".to_string()]);
}

#[test]
fn empty_document_has_no_items() {
    assert!(items_of("").is_empty());
}

#[test]
fn untagged_heading_with_list_has_no_items() {
    assert!(items_of("# Not a todo\n- milk\n- eggs\n").is_empty());
}

#[test]
fn prefix_is_case_sensitive() {
    assert!(items_of("# todo: lower\n").is_empty());
    assert!(items_of("# TODO without colon\n").is_empty());
}

#[test]
fn items_keep_document_order() {
    let items = items_of("# TODO: first\n\nsome text\n\n## TODO: second\n\nmore\n\n# TODO: third\n");
    let titles: Vec<&str> = items.iter().map(|i| i.title.as_str()).collect();
    assert_eq!(titles, vec!["first", "second", "third"]);
}

#[test]
fn titles_never_hold_the_prefix_or_edge_whitespace() {
    let items = items_of("# TODO: a\n\nx\n\n# TODO:b \n\ny\n\n#   TODO:    c   d   \n");
    let titles: Vec<&str> = items.iter().map(|i| i.title.as_str()).collect();
    assert_eq!(titles, vec!["a", "b", "c   d"]);
    for t in titles {
        assert!(!t.contains("TODO:"));
        assert_eq!(t, t.trim());
    }
}

#[test]
fn extraction_twice_gives_the_same_items() {
    let doc = "# TODO: Groceries\n- milk\n- eggs\n\n# TODO: Call\n";
    let a = items_of(doc);
    let b = items_of(doc);
    assert_eq!(a.len(), b.len());
    for (x, y) in a.iter().zip(b.iter()) {
        assert_eq!(x.tag_type, y.tag_type);
        assert_eq!(x.title, y.title);
        assert_eq!(x.content.is_some(), y.content.is_some());
        if x.content.is_some() {
            assert_eq!(list_of(x), list_of(y));
        }
    }
}

#[test]
fn event_after_tag_heading_is_consumed() {
    // The event right after a tag heading decides on content and is not
    // looked at again: a tag heading directly after another is not seen.
    let items = items_of("# TODO: a\n# TODO: b\n");
    assert_eq!(items.len(), 1);
    assert_eq!(items[0].title, "a");
    assert!(items[0].content.is_none());
}

#[test]
fn paragraph_between_heading_and_list_drops_the_list() {
    let items = items_of("# TODO: a\n\nintro\n\n- milk\n");
    assert_eq!(items.len(), 1);
    assert!(items[0].content.is_none());
}

#[test]
fn item_text_stops_at_inline_markup() {
    let items = items_of("# TODO: a\n- milk *now*\n- eggs\n");
    assert_eq!(items.len(), 1);
    let (_, list) = list_of(&items[0]);
    assert_eq!(list, vec!["milk ".to_string()]);
}

#[test]
fn events_heading_without_end_is_dropped() {
    let events = vec![MdEvent::HeadingStart, text("TODO: x")];
    assert!(extract_tag_items(&events).is_empty());
}

#[test]
fn events_tag_heading_at_end_has_no_content() {
    let events = vec![MdEvent::HeadingStart, text("  TODO: x  "), MdEvent::HeadingEnd];
    let items = extract_tag_items(&events);
    assert_eq!(items.len(), 1);
    assert_eq!(items[0].title, "x");
    assert!(items[0].content.is_none());
}

#[test]
fn events_unclosed_list_is_dropped() {
    let events = vec![
        MdEvent::HeadingStart,
        text("TODO: x"),
        MdEvent::HeadingEnd,
        MdEvent::ListStart(None),
        MdEvent::ItemStart,
        text("a"),
    ];
    assert!(extract_tag_items(&events).is_empty());
}

#[test]
fn events_unexpected_event_in_list_ends_it() {
    let events = vec![
        MdEvent::HeadingStart,
        text("TODO: x"),
        MdEvent::HeadingEnd,
        MdEvent::ListStart(Some(3)),
        MdEvent::ItemStart,
        text("a"),
        text("b"),
        MdEvent::ItemEnd,
        MdEvent::Other,
        MdEvent::ItemStart,
        text("c"),
        MdEvent::ItemEnd,
        MdEvent::ListEnd,
    ];
    let items = extract_tag_items(&events);
    assert_eq!(items.len(), 1);
    assert_eq!(list_of(&items[0]), (true, vec!["ab".to_string()]));
}

#[test]
fn events_heading_text_is_concatenated() {
    let events = vec![
        MdEvent::HeadingStart,
        text("TO"),
        MdEvent::Other,
        text("DO: split"),
        MdEvent::HeadingEnd,
    ];
    let items = extract_tag_items(&events);
    assert_eq!(items.len(), 1);
    assert_eq!(items[0].title, "split");
}

#[test]
fn new_file_info_is_empty() {
    let info = new_file_info("a/b.md".to_string());
    assert_eq!(info.file_path, "a/b.md");
    assert!(info.todos.is_empty());
}

#[test]
fn file_info_keeps_its_path() {
    let mut info = parse_file("dir/x.md".to_string(), "# TODO: one\n");
    assert_eq!(info.file_path, "dir/x.md");
    assert_eq!(info.todos.len(), 1);
    info.handle_generic_events(&vec![MdEvent::HeadingStart, text("TODO: two"), MdEvent::HeadingEnd]);
    assert_eq!(info.todos.len(), 2);
    assert_eq!(info.todos[1].title, "two");
}
