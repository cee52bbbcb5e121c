//! The link resolver: interfaces by index and name.
use vstd::prelude::*;

use crate::types::{Link, LinkMsg};
use crate::RtNetlinkMessage;

verus! {

/// The (index, name) pairs of the link messages among `msgs`, in order.
pub open spec fn links_of(msgs: Seq<RtNetlinkMessage>) -> Seq<(u32, Seq<char>)>
    decreases msgs.len(),
{
    if msgs.len() == 0 {
        Seq::empty()
    } else {
        match msgs.last() {
            RtNetlinkMessage::GetLink(m) => links_of(msgs.drop_last()).push(
                (m.header.index, m.attr.name@),
            ),
            _ => links_of(msgs.drop_last()),
        }
    }
}

pub open spec fn link_pairs(links: Seq<Link>) -> Seq<(u32, Seq<char>)> {
    links.map_values(|l: Link| (l.index, l.name@))
}

/// The links that the link messages among `messages` describe, in order;
/// other messages are passed over.
pub fn links(messages: Vec<RtNetlinkMessage>) -> (r: Result<Vec<Link>, crate::errors::Error>)
    ensures
        r is Ok,
        link_pairs(r->Ok_0@) == links_of(messages@),
{
    let ghost msgs = messages@;
    let mut links: Vec<Link> = Vec::new();
    for message in iter: messages.into_iter()
        invariant
            iter.seq() == msgs,
            links@.len() == links_of(msgs.take(iter.index() as int)).len(),
            forall|j: int|
                0 <= j < links@.len() ==> (#[trigger] links@[j]).index == links_of(
                    msgs.take(iter.index() as int),
                )[j].0 && links@[j].name@ == links_of(msgs.take(iter.index() as int))[j].1,
    {
        let ghost k = iter.index() as int;
        assert(msgs.take(k + 1).drop_last() =~= msgs.take(k));
        assert(msgs.take(k + 1).last() == msgs[k]);
        match message {
            RtNetlinkMessage::GetLink(m) => {
                let LinkMsg { header, attr } = m;
                links.push(Link { index: header.index, name: attr.name });
            },
            _ => {},
        }
    }
    assert(msgs.take(msgs.len() as int) =~= msgs);
    assert(link_pairs(links@) =~= links_of(msgs));
    Ok(links)
}

/// The position of the first link named `name`, where there is one.
pub open spec fn first_named(links: Seq<(u32, Seq<char>)>, name: Seq<char>) -> Option<int>
    decreases links.len(),
{
    if links.len() == 0 {
        None
    } else if links[0].1 == name {
        Some(0)
    } else {
        match first_named(links.drop_first(), name) {
            Some(i) => Some(i + 1),
            None => None,
        }
    }
}

/// The index of the first link named `name`, if any: how a class dump for a
/// named interface finds the interface to ask for.
pub fn link_index(links: &Vec<Link>, name: &str) -> (r: Option<u32>)
    ensures
        match first_named(link_pairs(links@), name@) {
            Some(i) => r == Some(links@[i].index),
            None => r is None,
        },
{
    let ghost pairs = link_pairs(links@);
    let mut i: usize = 0;
    assert(pairs.subrange(0, pairs.len() as int) =~= pairs);
    while i < links.len()
        invariant
            i <= links@.len(),
            pairs == link_pairs(links@),
            first_named(pairs, name@) == match first_named(pairs.subrange(i as int, pairs.len() as int), name@) {
                Some(j) => Some(j + i),
                None => None::<int>,
            },
        decreases links@.len() - i,
    {
        let ghost rest = pairs.subrange(i as int, pairs.len() as int);
        assert(rest.drop_first() =~= pairs.subrange(i + 1, pairs.len() as int));
        if crate::tc::str_eq(links[i].name.as_str(), name) {
            return Some(links[i].index);
        }
        i = i + 1;
    }
    None
}

} // verus!
