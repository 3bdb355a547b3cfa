use mdt::{
    default_config, format_item, format_item_with, format_items, get_context, get_preamble,
    parse_file, show_status, status_overview, Config, TagItem, TagItemContent, TagType,
};

fn item(title: &str, list: Option<Vec<&str>>) -> TagItem {
    TagItem {
        tag_type: TagType::Todo,
        title: title.to_string(),
        content: list.map(|l| TagItemContent::List {
            is_numbered: false,
            items: l.into_iter().map(|s| s.to_string()).collect(),
        }),
    }
}

const HARD: &str = "========================================";
const DIV: &str = "--------------------------------";

#[test]
fn preamble_names_the_directory() {
    let conf = Config { notes_directory: "/home/u/notes/".to_string() };
    let expected = format!("{HARD}\nmdt\nRoot directory: /home/u/notes/\n{HARD}\n");
    assert_eq!(get_preamble(&conf), expected);
}

#[test]
fn item_line_with_list() {
    let it = item("Groceries", Some(vec!["milk", "eggs"]));
    assert_eq!(format_item_with("TODO:", &it), "TODO: Groceries\n  - milk\n  - eggs");
}

#[test]
fn item_line_plain() {
    colored::control::set_override(false);
    assert_eq!(format_item(&item("Buy milk", None)), "TODO: Buy milk");
}

#[test]
fn item_line_painted() {
    colored::control::set_override(true);
    assert_eq!(format_item(&item("Buy milk", None)), "\u{1b}[91mTODO:\u{1b}[0m Buy milk");
}

#[test]
fn items_each_end_a_line() {
    colored::control::set_override(false);
    let items = vec![item("a", None), item("b", Some(vec!["x"]))];
    assert_eq!(format_items(&items), "TODO: a\nTODO: b\n  - x\n");
}

#[test]
fn overview_skips_files_without_items() {
    colored::control::set_override(false);
    let ctx = get_context(Config { notes_directory: "/n/".to_string() });
    let files = vec![
        parse_file("/n/sub/a.md".to_string(), "# TODO: x\n"),
        parse_file("/n/b.md".to_string(), "# nothing\n"),
    ];
    let expected = format!("{HARD}\nmdt\nRoot directory: /n/\n{HARD}\n\na.md\n{DIV}\nTODO: x\n\n");
    assert_eq!(status_overview(&ctx, &files), expected);
}

#[test]
fn status_over_documents() {
    colored::control::set_override(false);
    let ctx = get_context(Config { notes_directory: "/n/".to_string() });
    let docs = vec![
        ("/n/a.md".to_string(), "# TODO: x\n- one\n".to_string()),
        ("/n/b.md".to_string(), "# TODO: y\n".to_string()),
    ];
    let expected = format!(
        "{HARD}\nmdt\nRoot directory: /n/\n{HARD}\n\na.md\n{DIV}\nTODO: x\n  - one\n\nb.md\n{DIV}\nTODO: y\n\n"
    );
    assert_eq!(show_status(&ctx, &docs), expected);
}

#[test]
fn default_config_is_under_home() {
    assert_eq!(default_config("/home/u").notes_directory, "/home/u/notes/");
}
