//! Per-document work: markdown text to events, events to a `FileInfo`.

use vstd::prelude::*;

use pulldown_cmark::{Event, Parser, Tag, TagEnd, TextMergeStream};

use crate::extract::{extract, extract_into};
use crate::model::{items_view, FileInfo, MdEvent, TagItemModel};

verus! {

/// The events that pulldown-cmark's parser yields for the markdown text
/// `text`, with consecutive text events merged.
pub uninterp spec fn markdown_events_of(text: Seq<char>) -> Seq<MdEvent>;

/// Relies on `pulldown_cmark::Parser::new` and `TextMergeStream`: the event
/// sequence of a markdown text, which depends on the text alone. Each event
/// is carried over as the variant of `MdEvent` that names it.
#[verifier::external_body]
fn markdown_events(text: &str) -> (r: Vec<MdEvent>)
    ensures
        r@ == markdown_events_of(text@),
{
    TextMergeStream::new(Parser::new(text)).map(|e| match e {
        Event::Start(Tag::Heading { .. }) => MdEvent::HeadingStart,
        Event::End(TagEnd::Heading(_)) => MdEvent::HeadingEnd,
        Event::Text(t) => MdEvent::Text(t.into_string()),
        Event::Start(Tag::List(start)) => MdEvent::ListStart(start),
        Event::End(TagEnd::List(_)) => MdEvent::ListEnd,
        Event::Start(Tag::Item) => MdEvent::ItemStart,
        Event::End(TagEnd::Item) => MdEvent::ItemEnd,
        _ => MdEvent::Other,
    }).collect()
}

/// The tag items of the markdown text `text`.
pub open spec fn document_items(text: Seq<char>) -> Seq<TagItemModel> {
    extract(markdown_events_of(text))
}

/// A `FileInfo` for the file at `file_path`, with no items yet.
pub fn new_file_info(file_path: String) -> (r: FileInfo)
    ensures
        r.file_path@ == file_path@,
        r.todos@.len() == 0,
{
    FileInfo { file_path, todos: Vec::new() }
}

impl FileInfo {
    /// Walks the events of a document and appends its tag items, in
    /// document order.
    pub fn handle_generic_events(&mut self, events: &Vec<MdEvent>)
        ensures
            final(self).file_path == old(self).file_path,
            items_view(final(self).todos@) == items_view(old(self).todos@) + extract(events@),
    {
        extract_into(events, &mut self.todos);
    }
}

/// The `FileInfo` of the file at `file_path`, whose markdown text is `text`.
pub fn parse_file(file_path: String, text: &str) -> (r: FileInfo)
    ensures
        r.file_path@ == file_path@,
        items_view(r.todos@) == document_items(text@),
{
    let events = markdown_events(text);
    let mut info = new_file_info(file_path);
    info.handle_generic_events(&events);
    proof {
        assert(items_view(Seq::<crate::model::TagItem>::empty()) =~= Seq::empty());
        assert(Seq::<TagItemModel>::empty() + extract(events@) =~= extract(events@));
    }
    info
}

} // verus!
