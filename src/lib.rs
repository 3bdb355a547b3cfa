//! Extraction of tag items (headings such as `# TODO: ...` and the list that
//! follows them) from markdown documents, and their textual rendering.

pub mod document;
pub mod extract;
pub mod laws;
pub mod model;
pub mod report;
pub mod text;

pub use document::{new_file_info, parse_file};
pub use extract::extract_tag_items;
pub use model::{Config, Context, FileInfo, MdEvent, TagItem, TagItemContent, TagType};
pub use report::{
    default_config, format_item, format_item_with, format_items, get_context, get_preamble,
    show_status, status_overview,
};
