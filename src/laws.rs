//! General properties of tag extraction, proved over the extractor's model.

use vstd::prelude::*;

use crate::document::document_items;
use crate::extract::{emitted, extract, finish, recognize, run_from, step, Phase};
use crate::model::{prefix_of, MdEvent, TagType};
use crate::text::{contains, is_trimmed, lemma_trim_is_trimmed, lemma_trim_keeps_absence, starts_with, trim};

verus! {

/// Running over `a + b` is running over `a`, then over `b` from the phase
/// that `a` left, with the emitted items concatenated.
pub proof fn lemma_run_concat(p: Phase, a: Seq<MdEvent>, b: Seq<MdEvent>)
    ensures
        run_from(p, a + b) == ({
            let (q, x) = run_from(p, a);
            let (r, y) = run_from(q, b);
            (r, x + y)
        }),
    decreases b.len(),
{
    if b.len() == 0 {
        assert(a + b =~= a);
        let (q, x) = run_from(p, a);
        assert(x + Seq::<crate::model::TagItemModel>::empty() =~= x);
    } else {
        assert((a + b).drop_last() =~= a + b.drop_last());
        assert((a + b).last() == b.last());
        lemma_run_concat(p, a, b.drop_last());
        let (q, x) = run_from(p, a);
        let (r0, y0) = run_from(q, b.drop_last());
        let (r, o) = step(r0, b.last());
        assert(x + y0 + emitted(o) =~= x + (y0 + emitted(o)));
    }
}

/// Emission is append-only and follows the order of the events: the items
/// emitted while reading the first `i` events of a document stand, in the
/// same order, at the front of the document's items. So an item of an
/// earlier heading comes before the item of a later one.
pub proof fn law_document_order(events: Seq<MdEvent>, i: int)
    requires
        0 <= i <= events.len(),
    ensures
        ({
            let early = run_from(Phase::Scanning, events.take(i)).1;
            early.len() <= extract(events).len() && extract(events).take(early.len() as int)
                == early
        }),
{
    let a = events.take(i);
    let b = events.skip(i);
    assert(a + b =~= events);
    lemma_run_concat(Phase::Scanning, a, b);
    let (q, x) = run_from(Phase::Scanning, a);
    let (r, y) = run_from(q, b);
    assert((x + y + finish(r)).take(x.len() as int) =~= x);
}

/// A kind and a title that some heading text is recognized as.
pub open spec fn from_tag_heading(tt: TagType, title: Seq<char>) -> bool {
    exists|h: Seq<char>| recognize(h) == Some((tt, title))
}

/// The kind and title carried by a phase, where one is carried, come from
/// a tag heading.
pub open spec fn phase_from_tag_heading(p: Phase) -> bool {
    match p {
        Phase::AwaitingContent(tt, title) => from_tag_heading(tt, title),
        Phase::InList(tt, title, _, _) => from_tag_heading(tt, title),
        Phase::InListItem(tt, title, _, _, _) => from_tag_heading(tt, title),
        _ => true,
    }
}

/// What a recognized heading yields: its trimmed text starts with the
/// kind's prefix, and the title is the trimmed rest of that text after
/// the prefix.
pub proof fn law_recognized_heading(h: Seq<char>)
    ensures
        recognize(h) is Some <==> starts_with(trim(h), prefix_of(TagType::Todo)),
        recognize(h) matches Some((tt, title)) ==> title == trim(
            trim(h).skip(prefix_of(tt).len() as int),
        ) && is_trimmed(title) && trim(title) == title,
{
    let t = trim(h);
    lemma_trim_is_trimmed(t.skip(prefix_of(TagType::Todo).len() as int));
}

/// A title holds no tag prefix unless the heading's own text, after the
/// prefix that made it a tag, holds one again (as `TODO: TODO: x` does).
pub proof fn law_title_holds_no_prefix(h: Seq<char>)
    requires
        !contains(trim(h).skip(prefix_of(TagType::Todo).len() as int), prefix_of(TagType::Todo)),
    ensures
        recognize(h) matches Some((tt, title)) ==> !contains(title, prefix_of(tt)),
{
    lemma_trim_keeps_absence(
        trim(h).skip(prefix_of(TagType::Todo).len() as int),
        prefix_of(TagType::Todo),
    );
}

proof fn lemma_run_from_tag_headings(s: Seq<MdEvent>)
    ensures
        phase_from_tag_heading(run_from(Phase::Scanning, s).0),
        forall|k: int|
            0 <= k < run_from(Phase::Scanning, s).1.len() ==> from_tag_heading(
                #[trigger] run_from(Phase::Scanning, s).1[k].tag_type,
                run_from(Phase::Scanning, s).1[k].title,
            ),
    decreases s.len(),
{
    if s.len() > 0 {
        lemma_run_from_tag_headings(s.drop_last());
        let (q, items) = run_from(Phase::Scanning, s.drop_last());
        let e = s.last();
        match q {
            Phase::InHeading(buf) => {
                if e is HeadingEnd {
                    if let Some((tt, title)) = recognize(buf) {
                        assert(recognize(buf) == Some((tt, title)));
                        assert(from_tag_heading(tt, title));
                    }
                }
            },
            _ => {},
        }
        let (r, o) = step(q, e);
        let all = items + emitted(o);
        assert forall|k: int| 0 <= k < all.len() implies from_tag_heading(
            #[trigger] all[k].tag_type,
            all[k].title,
        ) by {
            if k >= items.len() {
                assert(all[k] == o->Some_0);
            }
        }
    }
}

/// Every item of every document comes from a heading whose trimmed text
/// starts with its kind's prefix; its title is the trimmed rest of that
/// text after the prefix, so it is itself trimmed. Headings without the
/// prefix yield no item.
pub proof fn law_items_come_from_tag_headings(events: Seq<MdEvent>)
    ensures
        forall|k: int|
            0 <= k < extract(events).len() ==> from_tag_heading(
                #[trigger] extract(events)[k].tag_type,
                extract(events)[k].title,
            ) && is_trimmed(extract(events)[k].title),
{
    lemma_run_from_tag_headings(events);
    let (p, items) = run_from(Phase::Scanning, events);
    let all = extract(events);
    assert forall|k: int| 0 <= k < all.len() implies from_tag_heading(
        #[trigger] all[k].tag_type,
        all[k].title,
    ) && is_trimmed(all[k].title) by {
        if k >= items.len() {
            assert(all[k] == finish(p)[0]);
        }
        let h = choose|h: Seq<char>| recognize(h) == Some((all[k].tag_type, all[k].title));
        law_recognized_heading(h);
    }
}

/// A heading whose trimmed text does not start with a tag prefix yields
/// nothing and leaves no trace: the document reads as if it were absent.
pub proof fn law_untagged_heading_ignored(h: String, rest: Seq<MdEvent>)
    requires
        !starts_with(trim(h@), prefix_of(TagType::Todo)),
    ensures
        extract(seq![MdEvent::HeadingStart, MdEvent::Text(h), MdEvent::HeadingEnd] + rest)
            == extract(rest),
{
    let head = seq![MdEvent::HeadingStart, MdEvent::Text(h), MdEvent::HeadingEnd];
    lemma_run_concat(Phase::Scanning, head, rest);
    let h1 = head.drop_last().drop_last();
    let h2 = head.drop_last();
    assert(h1.drop_last() =~= Seq::<MdEvent>::empty());
    assert(h1.last() == MdEvent::HeadingStart);
    assert(h2.drop_last() == h1);
    assert(h2.last() == MdEvent::Text(h));
    assert(head.last() == MdEvent::HeadingEnd);
    assert(Seq::<char>::empty() + h@ =~= h@);
    let none = Seq::<crate::model::TagItemModel>::empty();
    assert(run_from(Phase::Scanning, Seq::<MdEvent>::empty()) == (Phase::Scanning, none));
    assert(none + none =~= none);
    assert(run_from(Phase::Scanning, h1) == (Phase::InHeading(Seq::empty()), none));
    assert(run_from(Phase::Scanning, h2) == (Phase::InHeading(h@), none));
    assert(run_from(Phase::Scanning, head) == (Phase::Scanning, none));
    let (q, x) = run_from(Phase::Scanning, head);
    let (r, y) = run_from(q, rest);
    assert(x + y =~= y);
}

/// Extraction depends on the document's text alone: two runs over the same
/// text yield the same items.
pub proof fn law_extraction_is_deterministic(a: Seq<char>, b: Seq<char>)
    requires
        a == b,
    ensures
        document_items(a) == document_items(b),
{
}

} // verus!
