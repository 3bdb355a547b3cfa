//! The status report: a preamble, then for each file with items its name
//! and its items, one per line, list items beneath their heading's line.

use vstd::prelude::*;

use colored::Colorize;

use crate::document::{document_items, parse_file};
use crate::model::{
    items_view, label_of, strings_view, Config, ContentModel, Context, FileInfo, TagItem,
    TagItemContent, TagItemModel, TagType,
};

verus! {

pub open spec fn bright_red_start() -> Seq<char> {
    seq!['\u{1b}', '[', '9', '1', 'm']
}

pub open spec fn style_reset() -> Seq<char> {
    seq!['\u{1b}', '[', '0', 'm']
}

/// `s` between the escape sequences that show it bright red on a terminal.
pub open spec fn painted(s: Seq<char>) -> Seq<char> {
    bright_red_start() + s + style_reset()
}

/// Relies on colored's `Colorize::bright_red` and the `Display` of its
/// `ColoredString`: where colouring is off (which depends on the
/// environment) the text comes back as it is; else it comes between the
/// bright-red escape sequence and the reset sequence. Text without an
/// escape character holds no reset sequence that would be rewritten.
#[verifier::external_body]
fn bright_red(s: &str) -> (r: String)
    requires
        forall|i: int| 0 <= i < s@.len() ==> s@[i] != '\u{1b}',
    ensures
        r@ == s@ || r@ == painted(s@),
{
    s.bright_red().to_string()
}

/// The final component of a path, if it has one that is valid Unicode.
pub uninterp spec fn file_name_of(path: Seq<char>) -> Option<Seq<char>>;

/// Relies on std's `Path::file_name`, with `OsStr::to_str`: the last
/// component of a path, unless the path ends in `..` or has none, and only
/// if it is valid Unicode. It depends on the path alone.
#[verifier::external_body]
fn file_name(path: &str) -> (r: Option<String>)
    ensures
        match r {
            Some(n) => file_name_of(path@) == Some(n@),
            None => file_name_of(path@) is None,
        },
{
    std::path::Path::new(path).file_name().and_then(|n| n.to_str()).map(|n| n.to_string())
}

/// The tag part of an item's line, before colouring: its label and a colon.
pub open spec fn tag_part(tt: TagType) -> Seq<char> {
    label_of(tt).push(':')
}

/// `part` is the tag part of kind `tt`, plain or painted.
pub open spec fn is_tag_part_of(part: Seq<char>, tt: TagType) -> bool {
    part == tag_part(tt) || part == painted(tag_part(tt))
}

/// One line per list item, each beginning with a line break.
pub open spec fn list_lines(items: Seq<Seq<char>>) -> Seq<char>
    decreases items.len(),
{
    if items.len() == 0 {
        Seq::empty()
    } else {
        list_lines(items.drop_last()) + "\n  - "@ + items.last()
    }
}

/// The text of one item: its tag part, a space and its title, then its
/// list items beneath.
pub open spec fn item_text(part: Seq<char>, it: TagItemModel) -> Seq<char> {
    part + " "@ + it.title + match it.content {
        Some(ContentModel::List { items, .. }) => list_lines(items),
        None => Seq::empty(),
    }
}

/// The text of a sequence of items, each with the tag part at the same
/// position in `parts`, each followed by a line break.
pub open spec fn items_text(parts: Seq<Seq<char>>, items: Seq<TagItemModel>) -> Seq<char>
    decreases items.len(),
{
    if items.len() == 0 {
        Seq::empty()
    } else {
        items_text(parts.drop_last(), items.drop_last()) + item_text(parts.last(), items.last())
            + "\n"@
    }
}

/// `r` is the text of `items`, each with its kind's tag part, plain or
/// painted.
pub open spec fn renders_items(r: Seq<char>, items: Seq<TagItemModel>) -> bool {
    exists|parts: Seq<Seq<char>>|
        parts.len() == items.len() && (forall|i: int|
            0 <= i < items.len() ==> is_tag_part_of(#[trigger] parts[i], items[i].tag_type))
            && r == items_text(parts, items)
}

pub open spec fn hard_divider() -> Seq<char> {
    "========================================"@
}

pub open spec fn divider() -> Seq<char> {
    "--------------------------------"@
}

/// The head of the report, naming the notes directory.
pub open spec fn preamble(notes_directory: Seq<char>) -> Seq<char> {
    hard_divider() + "\n"@ + "mdt\n"@ + "Root directory: "@ + notes_directory + "\n"@
        + hard_divider() + "\n"@
}

/// The name under which a file is shown: its file name, or `-`.
pub open spec fn shown_name(path: Seq<char>) -> Seq<char> {
    match file_name_of(path) {
        Some(n) => n,
        None => "-"@,
    }
}

/// The block of one file: its name, a divider, then its items.
pub open spec fn file_block(path: Seq<char>, body: Seq<char>) -> Seq<char> {
    shown_name(path) + "\n"@ + divider() + "\n"@ + body + "\n"@
}

/// `r` is the report body for `files`, each a path with its items: a block
/// for each file that has items, in order.
pub open spec fn renders_files(r: Seq<char>, files: Seq<(Seq<char>, Seq<TagItemModel>)>) -> bool
    decreases files.len(),
{
    if files.len() == 0 {
        r == Seq::<char>::empty()
    } else {
        let (path, items) = files.last();
        if items.len() == 0 {
            renders_files(r, files.drop_last())
        } else {
            exists|a: Seq<char>, body: Seq<char>|
                renders_files(a, files.drop_last()) && renders_items(body, items) && r == a
                    + file_block(path, body)
        }
    }
}

pub open spec fn files_view(v: Seq<FileInfo>) -> Seq<(Seq<char>, Seq<TagItemModel>)> {
    v.map_values(|f: FileInfo| (f.file_path@, items_view(f.todos@)))
}

/// `r` is the whole report: the preamble, a blank line, the files' blocks.
pub open spec fn renders_overview(
    r: Seq<char>,
    notes_directory: Seq<char>,
    files: Seq<(Seq<char>, Seq<TagItemModel>)>,
) -> bool {
    exists|body: Seq<char>|
        renders_files(body, files) && r == preamble(notes_directory) + "\n"@ + body
}

/// The head of the report for the settings `conf`.
pub fn get_preamble(conf: &Config) -> (r: String)
    ensures
        r@ == preamble(conf.notes_directory@),
{
    let mut sb = String::new();
    sb.append("========================================");
    sb.append("\n");
    sb.append("mdt\n");
    sb.append("Root directory: ");
    sb.append(conf.notes_directory.as_str());
    sb.append("\n");
    sb.append("========================================");
    sb.append("\n");
    sb
}

/// The text of `item` with the given tag part: the tag part, a space, the
/// title, and one line per list item beneath.
pub fn format_item_with(part: &str, item: &TagItem) -> (r: String)
    ensures
        r@ == item_text(part@, item@),
{
    let mut sb = String::new();
    sb.append(part);
    sb.append(" ");
    sb.append(item.title.as_str());
    match &item.content {
        Some(TagItemContent::List { items, .. }) => {
            let ghost head = sb@;
            let mut k: usize = 0;
            while k < items.len()
                invariant
                    k <= items@.len(),
                    sb@ == head + list_lines(strings_view(items@).take(k as int)),
                decreases items@.len() - k,
            {
                proof {
                    let v = strings_view(items@);
                    assert(v.take(k + 1).drop_last() =~= v.take(k as int));
                    assert(v.take(k + 1).last() == items@[k as int]@);
                }
                sb.append("\n  - ");
                sb.append(items[k].as_str());
                k = k + 1;
            }
            proof {
                assert(strings_view(items@).take(items@.len() as int) =~= strings_view(items@));
            }
        },
        None => {
            assert(sb@ =~= sb@ + Seq::<char>::empty());
        },
    }
    sb
}

/// The tag part of an item of kind `tt`, highlighted where the terminal
/// shows colours.
pub fn format_tag(tt: TagType) -> (r: String)
    ensures
        is_tag_part_of(r@, tt),
{
    let mut part = String::new();
    part.append(tt.label());
    part.append(":");
    proof {
        reveal_strlit(":");
        assert(part@ =~= tag_part(tt));
    }
    bright_red(part.as_str())
}

/// The line of `item`: its highlighted tag part, its title, its list.
pub fn format_item(item: &TagItem) -> (r: String)
    ensures
        exists|part: Seq<char>| is_tag_part_of(part, item.tag_type) && r@ == item_text(part, item@),
{
    let part = format_tag(item.tag_type);
    format_item_with(part.as_str(), item)
}

/// The text of `items`, each followed by a line break.
pub fn format_items(items: &Vec<TagItem>) -> (r: String)
    ensures
        renders_items(r@, items_view(items@)),
{
    let mut res = String::new();
    let ghost mut parts: Seq<Seq<char>> = Seq::empty();
    let mut k: usize = 0;
    while k < items.len()
        invariant
            k <= items@.len(),
            parts.len() == k,
            forall|i: int|
                0 <= i < k ==> is_tag_part_of(#[trigger] parts[i], items@[i].tag_type),
            res@ == items_text(parts, items_view(items@).take(k as int)),
        decreases items@.len() - k,
    {
        let line = format_item(&items[k]);
        let ghost part = choose|part: Seq<char>|
            is_tag_part_of(part, items@[k as int].tag_type) && line@ == item_text(
                part,
                items@[k as int]@,
            );
        res.append(line.as_str());
        res.append("\n");
        proof {
            let v = items_view(items@);
            let old_parts = parts;
            parts = parts.push(part);
            assert(v.take(k + 1).drop_last() =~= v.take(k as int));
            assert(parts.drop_last() =~= old_parts);
            assert(v.take(k + 1).last() == items@[k as int]@);
        }
        k = k + 1;
    }
    proof {
        assert(items_view(items@).take(items@.len() as int) =~= items_view(items@));
    }
    res
}

/// The report over `file_infos` for the context `ctx`: the preamble, a
/// blank line, then a block for each file that has items.
pub fn status_overview(ctx: &Context, file_infos: &Vec<FileInfo>) -> (r: String)
    ensures
        renders_overview(r@, ctx.config.notes_directory@, files_view(file_infos@)),
{
    let mut sb = get_preamble(&ctx.config);
    sb.append("\n");
    let ghost head = sb@;
    let ghost mut body: Seq<char> = Seq::empty();
    let mut k: usize = 0;
    while k < file_infos.len()
        invariant
            k <= file_infos@.len(),
            head == preamble(ctx.config.notes_directory@) + "\n"@,
            renders_files(body, files_view(file_infos@).take(k as int)),
            sb@ == head + body,
        decreases file_infos@.len() - k,
    {
        let info = &file_infos[k];
        let ghost v = files_view(file_infos@);
        proof {
            assert(v.take(k + 1).drop_last() =~= v.take(k as int));
            assert(v.take(k + 1).last() == v[k as int]);
        }
        if info.todos.len() > 0 {
            let ghost before = sb@;
            let name = file_name(info.file_path.as_str());
            match &name {
                Some(n) => sb.append(n.as_str()),
                None => sb.append("-"),
            }
            sb.append("\n");
            sb.append("--------------------------------");
            sb.append("\n");
            let items = format_items(&info.todos);
            sb.append(items.as_str());
            sb.append("\n");
            proof {
                let block = file_block(info.file_path@, items@);
                assert(sb@ =~= before + block);
                let a = body;
                assert(renders_files(a, v.take(k + 1).drop_last()));
                assert(renders_items(items@, items_view(info.todos@)));
                body = a + block;
                assert(sb@ =~= head + body);
                assert(renders_files(a, v.take(k + 1).drop_last()) && renders_items(
                    items@,
                    v.take(k + 1).last().1,
                ) && body == a + file_block(v.take(k + 1).last().0, items@));
                assert(renders_files(body, v.take(k + 1)));
            }
        } else {
            proof {
                assert(v.take(k + 1).last().1.len() == 0);
                assert(renders_files(body, v.take(k + 1)));
            }
        }
        k = k + 1;
    }
    proof {
        assert(files_view(file_infos@).take(file_infos@.len() as int) =~= files_view(
            file_infos@,
        ));
    }
    sb
}

/// The paths and items of the documents `documents`, each a path with its
/// markdown text.
pub open spec fn documents_view(documents: Seq<(String, String)>) -> Seq<
    (Seq<char>, Seq<TagItemModel>),
> {
    documents.map_values(|d: (String, String)| (d.0@, document_items(d.1@)))
}

/// The status report over `documents`, each a file's path with its
/// markdown text, in order.
pub fn show_status(ctx: &Context, documents: &Vec<(String, String)>) -> (r: String)
    ensures
        renders_overview(r@, ctx.config.notes_directory@, documents_view(documents@)),
{
    let mut file_infos: Vec<FileInfo> = Vec::new();
    let mut k: usize = 0;
    while k < documents.len()
        invariant
            k <= documents@.len(),
            files_view(file_infos@) == documents_view(documents@).take(k as int),
        decreases documents@.len() - k,
    {
        let (path, text) = &documents[k];
        let info = parse_file(path.clone(), text.as_str());
        let ghost before = file_infos@;
        file_infos.push(info);
        proof {
            assert(files_view(file_infos@) =~= files_view(before).push(
                (info.file_path@, items_view(info.todos@)),
            ));
            assert(documents_view(documents@).take(k + 1) =~= documents_view(documents@).take(
                k as int,
            ).push(documents_view(documents@)[k as int]));
        }
        k = k + 1;
    }
    proof {
        assert(documents_view(documents@).take(documents@.len() as int) =~= documents_view(
            documents@,
        ));
    }
    status_overview(ctx, &file_infos)
}

/// The context of a status run with the settings `config`.
pub fn get_context(config: Config) -> (r: Context)
    ensures
        r.config.notes_directory@ == config.notes_directory@,
{
    Context { config }
}

/// The settings used when none are given: the `notes` directory under the
/// home directory `home`.
pub fn default_config(home: &str) -> (r: Config)
    ensures
        r.notes_directory@ == home@ + "/notes/"@,
{
    let mut dir = String::new();
    dir.append(home);
    dir.append("/notes/");
    Config { notes_directory: dir }
}

} // verus!
