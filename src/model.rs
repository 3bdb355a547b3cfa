//! The data model: markdown events consumed, tag items produced.

use vstd::prelude::*;

verus! {

/// The kind of an actionable item. Each kind is recognized by a prefix of
/// a heading's text and rendered under a label.
#[derive(Clone, Copy, Debug, PartialEq, Eq, Structural)]
pub enum TagType {
    Todo,
}

/// The prefix that marks a heading as an item of kind `t`.
pub open spec fn prefix_of(t: TagType) -> Seq<char> {
    match t {
        TagType::Todo => seq!['T', 'O', 'D', 'O', ':'],
    }
}

/// The label under which items of kind `t` are rendered.
pub open spec fn label_of(t: TagType) -> Seq<char> {
    match t {
        TagType::Todo => seq!['T', 'O', 'D', 'O'],
    }
}

impl TagType {
    /// The prefix that marks a heading as an item of this kind.
    pub fn prefix(&self) -> (r: &'static str)
        ensures
            r@ == prefix_of(*self),
    {
        match self {
            TagType::Todo => {
                proof {
                    reveal_strlit("TODO:");
                }
                "TODO:"
            },
        }
    }

    /// The label under which items of this kind are rendered.
    pub fn label(&self) -> (r: &'static str)
        ensures
            r@ == label_of(*self),
    {
        match self {
            TagType::Todo => {
                proof {
                    reveal_strlit("TODO");
                }
                "TODO"
            },
        }
    }
}

/// One event of a markdown document, as far as tag extraction tells events
/// apart. Consecutive text fragments arrive as one `Text` event.
#[derive(Clone, Debug)]
pub enum MdEvent {
    HeadingStart,
    HeadingEnd,
    Text(String),
    /// The start of a list; `Some(n)` for a numbered list starting at `n`.
    ListStart(Option<u64>),
    ListEnd,
    ItemStart,
    ItemEnd,
    Other,
}

/// Content captured from the list that directly follows a tag heading.
#[derive(Clone, Debug)]
pub enum TagItemContent {
    List { is_numbered: bool, items: Vec<String> },
}

/// Mathematical model of `TagItemContent`.
pub enum ContentModel {
    List { is_numbered: bool, items: Seq<Seq<char>> },
}

pub open spec fn strings_view(v: Seq<String>) -> Seq<Seq<char>> {
    v.map_values(|s: String| s@)
}

impl View for TagItemContent {
    type V = ContentModel;

    open spec fn view(&self) -> ContentModel {
        match self {
            TagItemContent::List { is_numbered, items } => ContentModel::List {
                is_numbered: *is_numbered,
                items: strings_view(items@),
            },
        }
    }
}

/// One extracted item.
#[derive(Clone, Debug)]
pub struct TagItem {
    pub tag_type: TagType,
    pub title: String,
    pub content: Option<TagItemContent>,
}

/// Mathematical model of `TagItem`.
pub struct TagItemModel {
    pub tag_type: TagType,
    pub title: Seq<char>,
    pub content: Option<ContentModel>,
}

impl View for TagItem {
    type V = TagItemModel;

    open spec fn view(&self) -> TagItemModel {
        TagItemModel {
            tag_type: self.tag_type,
            title: self.title@,
            content: match self.content {
                Some(c) => Some(c@),
                None => None,
            },
        }
    }
}

pub open spec fn items_view(v: Seq<TagItem>) -> Seq<TagItemModel> {
    v.map_values(|t: TagItem| t@)
}

/// The items found in one file, in document order.
#[derive(Clone, Debug)]
pub struct FileInfo {
    pub file_path: String,
    pub todos: Vec<TagItem>,
}

/// Settings of the status report.
#[derive(Clone, Debug)]
pub struct Config {
    pub notes_directory: String,
}

/// What a status run works with.
#[derive(Clone, Debug)]
pub struct Context {
    pub config: Config,
}

} // verus!
