//! The tag extractor: a state machine that walks a document's events once,
//! front to back, and emits the tag items it recognizes in document order.

use vstd::prelude::*;

use crate::model::{
    items_view, label_of, prefix_of, strings_view, ContentModel, MdEvent, TagItem,
    TagItemContent, TagItemModel, TagType,
};
use crate::text::{has_prefix, starts_with, trim, trimmed};

verus! {

/// Mathematical model of the extractor's state.
pub enum Phase {
    /// Between tags.
    Scanning,
    /// Inside a heading, with the text gathered so far.
    InHeading(Seq<char>),
    /// A tag heading has closed; the next event decides whether a list follows.
    AwaitingContent(TagType, Seq<char>),
    /// Gathering the items of the list that follows a tag heading.
    InList(TagType, Seq<char>, bool, Seq<Seq<char>>),
    /// Gathering the text of one list item.
    InListItem(TagType, Seq<char>, bool, Seq<Seq<char>>, Seq<char>),
}

/// The kind and title of a heading whose text is `buf`, if the heading is a
/// tag: its trimmed text begins with the kind's prefix, and the title is
/// what follows the prefix, trimmed.
pub open spec fn recognize(buf: Seq<char>) -> Option<(TagType, Seq<char>)> {
    let t = trim(buf);
    let p = prefix_of(TagType::Todo);
    if starts_with(t, p) {
        Some((TagType::Todo, trim(t.skip(p.len() as int))))
    } else {
        None
    }
}

pub open spec fn item_model(
    tag_type: TagType,
    title: Seq<char>,
    content: Option<ContentModel>,
) -> TagItemModel {
    TagItemModel { tag_type, title, content }
}

/// One transition: the next phase, and the item emitted on the way, if any.
pub open spec fn step(p: Phase, e: MdEvent) -> (Phase, Option<TagItemModel>) {
    match p {
        Phase::Scanning => match e {
            MdEvent::HeadingStart => (Phase::InHeading(Seq::empty()), None),
            _ => (Phase::Scanning, None),
        },
        Phase::InHeading(buf) => match e {
            MdEvent::Text(t) => (Phase::InHeading(buf + t@), None),
            MdEvent::HeadingEnd => match recognize(buf) {
                Some((tt, title)) => (Phase::AwaitingContent(tt, title), None),
                None => (Phase::Scanning, None),
            },
            _ => (Phase::InHeading(buf), None),
        },
        Phase::AwaitingContent(tt, title) => match e {
            MdEvent::ListStart(start) => (
                Phase::InList(tt, title, start is Some, Seq::empty()),
                None,
            ),
            _ => (Phase::Scanning, Some(item_model(tt, title, None))),
        },
        Phase::InList(tt, title, numbered, items) => match e {
            MdEvent::ItemStart => (
                Phase::InListItem(tt, title, numbered, items, Seq::empty()),
                None,
            ),
            _ => (
                Phase::Scanning,
                Some(
                    item_model(
                        tt,
                        title,
                        Some(ContentModel::List { is_numbered: numbered, items }),
                    ),
                ),
            ),
        },
        Phase::InListItem(tt, title, numbered, items, buf) => match e {
            MdEvent::Text(t) => (Phase::InListItem(tt, title, numbered, items, buf + t@), None),
            _ => (Phase::InList(tt, title, numbered, items.push(buf)), None),
        },
    }
}

/// What is emitted when the events run out in phase `p`: a tag heading
/// still waiting for content is emitted without it; anything unfinished is
/// dropped.
pub open spec fn finish(p: Phase) -> Seq<TagItemModel> {
    match p {
        Phase::AwaitingContent(tt, title) => seq![item_model(tt, title, None)],
        _ => Seq::empty(),
    }
}

pub open spec fn emitted(o: Option<TagItemModel>) -> Seq<TagItemModel> {
    match o {
        Some(t) => seq![t],
        None => Seq::empty(),
    }
}

/// The phase reached from `p` over the events `s`, and the items emitted
/// on the way, in order.
pub open spec fn run_from(p: Phase, s: Seq<MdEvent>) -> (Phase, Seq<TagItemModel>)
    decreases s.len(),
{
    if s.len() == 0 {
        (p, Seq::empty())
    } else {
        let (q, items) = run_from(p, s.drop_last());
        let (r, o) = step(q, s.last());
        (r, items + emitted(o))
    }
}

/// The tag items of a document whose events are `s`.
pub open spec fn extract(s: Seq<MdEvent>) -> Seq<TagItemModel> {
    let (p, items) = run_from(Phase::Scanning, s);
    items + finish(p)
}

/// The extractor's state, as the executable walk holds it.
pub enum ExtractState {
    Scanning,
    InHeading { buf: String },
    AwaitingContent { tag_type: TagType, title: String },
    InList { tag_type: TagType, title: String, is_numbered: bool, items: Vec<String> },
    InListItem {
        tag_type: TagType,
        title: String,
        is_numbered: bool,
        items: Vec<String>,
        buf: String,
    },
}

impl View for ExtractState {
    type V = Phase;

    open spec fn view(&self) -> Phase {
        match self {
            ExtractState::Scanning => Phase::Scanning,
            ExtractState::InHeading { buf } => Phase::InHeading(buf@),
            ExtractState::AwaitingContent { tag_type, title } => Phase::AwaitingContent(
                *tag_type,
                title@,
            ),
            ExtractState::InList { tag_type, title, is_numbered, items } => Phase::InList(
                *tag_type,
                title@,
                *is_numbered,
                strings_view(items@),
            ),
            ExtractState::InListItem { tag_type, title, is_numbered, items, buf } =>
                Phase::InListItem(*tag_type, title@, *is_numbered, strings_view(items@), buf@),
        }
    }
}

pub open spec fn emitted_view(o: Option<TagItem>) -> Option<TagItemModel> {
    match o {
        Some(t) => Some(t@),
        None => None,
    }
}

/// The kind and title of a heading whose text is `buf`, if it is a tag.
pub fn recognize_heading(buf: &str) -> (r: Option<(TagType, String)>)
    ensures
        match r {
            Some((tt, title)) => recognize(buf@) == Some((tt, title@)),
            None => recognize(buf@) is None,
        },
{
    let t = trimmed(buf);
    let tt = TagType::Todo;
    let p = tt.prefix();
    if has_prefix(t.as_str(), p) {
        let n = t.as_str().unicode_len();
        let m = p.unicode_len();
        let rest = t.as_str().substring_char(m, n);
        let title = trimmed(rest);
        Some((tt, title))
    } else {
        None
    }
}

/// Transition out of `Scanning`: a heading's start opens a heading.
pub fn handle_generic_event(e: &MdEvent) -> (r: ExtractState)
    ensures
        (r@, None::<TagItemModel>) == step(Phase::Scanning, *e),
{
    match e {
        MdEvent::HeadingStart => ExtractState::InHeading { buf: String::new() },
        _ => ExtractState::Scanning,
    }
}

/// Transition out of `InHeading`: text is gathered; at the heading's end
/// its text is tested for a tag prefix.
pub fn handle_heading(buf: String, e: &MdEvent) -> (r: ExtractState)
    ensures
        (r@, None::<TagItemModel>) == step(Phase::InHeading(buf@), *e),
{
    match e {
        MdEvent::Text(t) => {
            let mut buf = buf;
            buf.append(t.as_str());
            ExtractState::InHeading { buf }
        },
        MdEvent::HeadingEnd => match recognize_heading(buf.as_str()) {
            Some((tag_type, title)) => ExtractState::AwaitingContent { tag_type, title },
            None => ExtractState::Scanning,
        },
        _ => ExtractState::InHeading { buf },
    }
}

/// Transition out of `AwaitingContent`: a list start opens the list;
/// any other event is consumed and the item is emitted without content.
pub fn handle_tag_item_content(tag_type: TagType, title: String, e: &MdEvent) -> (r: (
    ExtractState,
    Option<TagItem>,
))
    ensures
        (r.0@, emitted_view(r.1)) == step(Phase::AwaitingContent(tag_type, title@), *e),
{
    match e {
        MdEvent::ListStart(start) => {
            let is_numbered = start.is_some();
            let items: Vec<String> = Vec::new();
            proof {
                assert(strings_view(items@) =~= Seq::empty());
            }
            (ExtractState::InList { tag_type, title, is_numbered, items }, None)
        },
        _ => (ExtractState::Scanning, Some(TagItem { tag_type, title, content: None })),
    }
}

/// Transition out of `InList`: an item's start opens the item; the list's
/// end, or any other event, closes the list and emits the item with the
/// list items gathered so far.
pub fn collect_list(
    tag_type: TagType,
    title: String,
    is_numbered: bool,
    items: Vec<String>,
    e: &MdEvent,
) -> (r: (ExtractState, Option<TagItem>))
    ensures
        (r.0@, emitted_view(r.1)) == step(
            Phase::InList(tag_type, title@, is_numbered, strings_view(items@)),
            *e,
        ),
{
    match e {
        MdEvent::ItemStart => (
            ExtractState::InListItem { tag_type, title, is_numbered, items, buf: String::new() },
            None,
        ),
        _ => {
            let content = TagItemContent::List { is_numbered, items };
            (ExtractState::Scanning, Some(TagItem { tag_type, title, content: Some(content) }))
        },
    }
}

/// Transition out of `InListItem`: text is gathered; the first other event
/// closes the item.
pub fn collect_list_item(
    tag_type: TagType,
    title: String,
    is_numbered: bool,
    items: Vec<String>,
    buf: String,
    e: &MdEvent,
) -> (r: ExtractState)
    ensures
        (r@, None::<TagItemModel>) == step(
            Phase::InListItem(tag_type, title@, is_numbered, strings_view(items@), buf@),
            *e,
        ),
{
    match e {
        MdEvent::Text(t) => {
            let mut buf = buf;
            buf.append(t.as_str());
            ExtractState::InListItem { tag_type, title, is_numbered, items, buf }
        },
        _ => {
            let mut items = items;
            let ghost before = items@;
            items.push(buf);
            proof {
                assert(strings_view(items@) =~= strings_view(before).push(buf@));
            }
            ExtractState::InList { tag_type, title, is_numbered, items }
        },
    }
}

/// One transition of the extractor.
pub fn advance(state: ExtractState, e: &MdEvent) -> (r: (ExtractState, Option<TagItem>))
    ensures
        (r.0@, emitted_view(r.1)) == step(state@, *e),
{
    match state {
        ExtractState::Scanning => (handle_generic_event(e), None),
        ExtractState::InHeading { buf } => (handle_heading(buf, e), None),
        ExtractState::AwaitingContent { tag_type, title } => handle_tag_item_content(
            tag_type,
            title,
            e,
        ),
        ExtractState::InList { tag_type, title, is_numbered, items } => collect_list(
            tag_type,
            title,
            is_numbered,
            items,
            e,
        ),
        ExtractState::InListItem { tag_type, title, is_numbered, items, buf } => (
            collect_list_item(tag_type, title, is_numbered, items, buf, e),
            None,
        ),
    }
}

/// Appends to `out` the tag items of a document whose events are `events`,
/// in document order.
pub fn extract_into(events: &Vec<MdEvent>, out: &mut Vec<TagItem>)
    ensures
        items_view(final(out)@) == items_view(old(out)@) + extract(events@),
{
    let ghost start = items_view(out@);
    let mut state = ExtractState::Scanning;
    let n = events.len();
    let mut i: usize = 0;
    while i < n
        invariant
            n == events@.len(),
            i <= n,
            run_from(Phase::Scanning, events@.take(i as int)) == (
                state@,
                items_view(out@).skip(start.len() as int),
            ),
            items_view(out@).take(start.len() as int) == start,
            start.len() <= out@.len(),
        decreases n - i,
    {
        let ghost before = items_view(out@);
        let (next, produced) = advance(state, &events[i]);
        state = next;
        match produced {
            Some(t) => {
                out.push(t);
            },
            None => {},
        }
        proof {
            assert(events@.take(i + 1).drop_last() =~= events@.take(i as int));
            assert(events@.take(i + 1).last() == events@[i as int]);
            assert(items_view(out@) =~= before + emitted(emitted_view(produced)));
            assert(items_view(out@).skip(start.len() as int) =~= before.skip(start.len() as int)
                + emitted(emitted_view(produced)));
            assert(items_view(out@).take(start.len() as int) =~= before.take(
                start.len() as int,
            ));
        }
        i = i + 1;
    }
    let ghost before = items_view(out@);
    match state {
        ExtractState::AwaitingContent { tag_type, title } => {
            out.push(TagItem { tag_type, title, content: None });
        },
        _ => {},
    }
    proof {
        assert(events@.take(n as int) =~= events@);
        assert(items_view(out@) =~= before + finish(state@));
        assert(before =~= start + before.skip(start.len() as int));
    }
}

/// The tag items of a document whose events are `events`, in document order.
pub fn extract_tag_items(events: &Vec<MdEvent>) -> (r: Vec<TagItem>)
    ensures
        items_view(r@) == extract(events@),
{
    let mut out: Vec<TagItem> = Vec::new();
    extract_into(events, &mut out);
    proof {
        assert(items_view(Seq::<TagItem>::empty()) =~= Seq::empty());
        assert(Seq::<TagItemModel>::empty() + extract(events@) =~= extract(events@));
    }
    out
}

} // verus!
