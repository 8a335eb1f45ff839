//! The two inventories of a pass: the organization's repositories, gathered
//! page by page, and the guild's channel groups.
use vstd::prelude::*;
use crate::names::{contains_text, texts};

verus! {

/// The structural role of a guild channel.
#[derive(PartialEq, Eq, Structural, Clone, Copy, Debug)]
pub enum ChannelKind {
    /// A channel group.
    Category,
    /// An announcement channel.
    News,
    /// A text channel.
    Text,
    /// Any other kind (voice, forum, ...).
    Other,
}

/// What a pass reads of an existing guild channel.
#[derive(Clone, Debug, PartialEq, Eq)]
pub struct ChannelInfo {
    pub id: u64,
    pub name: String,
    pub kind: ChannelKind,
}

/// The names of the channels of `channels` that are channel groups, in order.
pub open spec fn category_names(channels: Seq<ChannelInfo>) -> Seq<Seq<char>>
    decreases channels.len(),
{
    if channels.len() == 0 {
        Seq::empty()
    } else {
        let rest = category_names(channels.drop_last());
        if channels.last().kind == ChannelKind::Category {
            rest.push(channels.last().name@)
        } else {
            rest
        }
    }
}

/// The names of the channel groups among a guild's channels, in order.
pub fn select_categories(channels: &Vec<ChannelInfo>) -> (r: Vec<String>)
    ensures
        texts(r@) == category_names(channels@),
{
    let mut r: Vec<String> = Vec::new();
    let mut i: usize = 0;
    while i < channels.len()
        invariant
            i <= channels.len(),
            texts(r@) == category_names(channels@.take(i as int)),
        decreases channels.len() - i,
    {
        let c = &channels[i];
        if c.kind == ChannelKind::Category {
            r.push(c.name.clone());
        }
        assert(channels@.take(i + 1).drop_last() =~= channels@.take(i as int));
        i += 1;
        assert(texts(r@) =~= category_names(channels@.take(i as int)));
    }
    assert(channels@.take(i as int) =~= channels@);
    r
}

/// No name occurs twice.
pub open spec fn distinct(v: Seq<Seq<char>>) -> bool {
    forall|a: int, b: int| 0 <= a < v.len() && 0 <= b < v.len() && a != b ==> v[a] != v[b]
}

/// Adds the names of one page of the repository listing to those gathered so
/// far, keeping the order of first appearance and skipping names already
/// there.
pub fn add_page(gathered: &mut Vec<String>, page: &Vec<String>)
    requires
        distinct(texts(old(gathered)@)),
    ensures
        distinct(texts(final(gathered)@)),
        texts(final(gathered)@).to_set() == texts(old(gathered)@).to_set().union(texts(page@).to_set()),
        texts(old(gathered)@).is_prefix_of(texts(final(gathered)@)),
{
    let ghost start = texts(gathered@);
    let mut i: usize = 0;
    while i < page.len()
        invariant
            i <= page.len(),
            distinct(texts(gathered@)),
            start.is_prefix_of(texts(gathered@)),
            texts(gathered@).to_set() == start.to_set().union(texts(page@).take(i as int).to_set()),
        decreases page.len() - i,
    {
        let ghost before = texts(gathered@);
        let present = contains_text(gathered, &page[i]);
        if !present {
            gathered.push(page[i].clone());
            assert(texts(gathered@) =~= before.push(page@[i as int]@));
        }
        proof {
            let p = texts(page@);
            assert(p.take(i + 1) =~= p.take(i as int).push(p[i as int]));
            lemma_push_to_set(p.take(i as int), p[i as int]);
            if !present {
                lemma_push_to_set(before, p[i as int]);
                assert(start.is_prefix_of(texts(gathered@))) by {
                    assert forall|k: int| 0 <= k < start.len() implies start[k] == texts(gathered@)[k] by {
                        assert(start[k] == before[k]);
                    }
                }
            } else {
                assert(before.to_set().contains(p[i as int]));
            }
            assert(texts(gathered@).to_set() =~= start.to_set().union(p.take(i + 1).to_set()));
        }
        i += 1;
    }
    assert(texts(page@).take(i as int) =~= texts(page@));
}

/// The set of a sequence with one more element.
proof fn lemma_push_to_set(s: Seq<Seq<char>>, x: Seq<char>)
    ensures
        s.push(x).to_set() == s.to_set().insert(x),
{
    assert forall|y: Seq<char>| s.push(x).to_set().contains(y) <==> s.to_set().insert(x).contains(y) by {
        if s.push(x).to_set().contains(y) && y != x {
            let k = choose|k: int| 0 <= k < s.push(x).len() && s.push(x)[k] == y;
            assert(s[k] == y);
        }
        if s.to_set().contains(y) {
            let k = choose|k: int| 0 <= k < s.len() && s[k] == y;
            assert(s.push(x)[k] == y);
        }
        if y == x {
            assert(s.push(x)[s.len() as int] == x);
        }
    }
    assert(s.push(x).to_set() =~= s.to_set().insert(x));
}

/// The union of the names of all pages.
pub open spec fn pages_union(pages: Seq<Seq<Seq<char>>>) -> Set<Seq<char>>
    decreases pages.len(),
{
    if pages.len() == 0 {
        Set::empty()
    } else {
        pages_union(pages.drop_last()).union(pages.last().to_set())
    }
}

/// Gathers the repository listing from all its pages: each name once, every
/// name of every page, in order of first appearance.
pub fn gather_pages(pages: &Vec<Vec<String>>) -> (r: Vec<String>)
    ensures
        distinct(texts(r@)),
        texts(r@).to_set() == pages_union(pages@.map_values(|p: Vec<String>| texts(p@))),
{
    let ghost all = pages@.map_values(|p: Vec<String>| texts(p@));
    let mut r: Vec<String> = Vec::new();
    let mut i: usize = 0;
    assert(texts(r@).to_set() =~= Set::empty());
    while i < pages.len()
        invariant
            i <= pages.len(),
            all == pages@.map_values(|p: Vec<String>| texts(p@)),
            distinct(texts(r@)),
            texts(r@).to_set() == pages_union(all.take(i as int)),
        decreases pages.len() - i,
    {
        add_page(&mut r, &pages[i]);
        assert(all.take(i + 1).drop_last() =~= all.take(i as int));
        i += 1;
    }
    assert(all.take(i as int) =~= all);
    r
}

} // verus!
