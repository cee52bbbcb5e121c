//! The public entry points: dumps requested through a netlink connection,
//! decoded under a `ParseOptions`.
use vstd::prelude::*;

use crate::errors::{Error, ErrorView};
use crate::link::{first_named, link_index, link_pairs, links, links_of};
use crate::tc::tcs_view;
use crate::types::{Link, Tc, TcView};
use crate::walker::{link_results, parse_links, RawMessage};
use crate::{messages_view, tc_results, ParseOptions, RtNetlinkMessageView};

verus! {

/// A connection to the kernel's routing netlink family that runs dump
/// requests. Each method sends the request and returns the messages of the
/// reply, in the order the kernel sent them; a connection that serves
/// fixtures can stand in for the kernel.
pub trait NetlinkConnection {
    /// Opens a connection.
    fn new() -> Result<Self, Error> where Self: Sized;

    /// The reply to a qdisc dump request.
    fn qdiscs(&self) -> Result<Vec<RawMessage>, Error>;

    /// The reply to a class dump request for the interface `index`.
    fn classes(&self, index: i32) -> Result<Vec<RawMessage>, Error>;

    /// The reply to a link dump request.
    fn links(&self) -> Result<Vec<RawMessage>, Error>;
}

/// Whether `v` is what some dump decodes to under `opts`.
pub open spec fn decoded_from_dump(v: Seq<Tc>, opts: ParseOptions) -> bool {
    exists|ms: Seq<RawMessage>| tc_results(ms, opts) == Ok::<Seq<TcView>, ErrorView>(tcs_view(v))
}

/// The qdiscs of all interfaces.
pub fn list_qdiscs<C: NetlinkConnection>(conn: &C, opts: &ParseOptions) -> (r: Result<
    Vec<Tc>,
    Error,
>)
    ensures
        r is Ok ==> decoded_from_dump(r->Ok_0@, *opts),
{
    let messages = match conn.qdiscs() {
        Ok(m) => m,
        Err(e) => return Err(e),
    };
    let ghost ms = messages@;
    let r = opts.tc(messages);
    proof {
        if r is Ok {
            assert(tc_results(ms, *opts) == Ok::<Seq<TcView>, ErrorView>(tcs_view(r->Ok_0@)));
        }
    }
    r
}

/// The classes of the interface `index`.
pub fn classes_for_index<C: NetlinkConnection>(conn: &C, index: u32, opts: &ParseOptions) -> (r:
    Result<Vec<Tc>, Error>)
    ensures
        r is Ok ==> decoded_from_dump(r->Ok_0@, *opts),
{
    let messages = match conn.classes(index as i32) {
        Ok(m) => m,
        Err(e) => return Err(e),
    };
    let ghost ms = messages@;
    let r = opts.tc(messages);
    proof {
        if r is Ok {
            assert(tc_results(ms, *opts) == Ok::<Seq<TcView>, ErrorView>(tcs_view(r->Ok_0@)));
        }
    }
    r
}

/// The links that some link dump decodes to.
pub open spec fn links_from_dump(l: Seq<Link>) -> bool {
    exists|ms: Seq<RawMessage>|
        #![trigger link_results(ms)]
        link_results(ms) is Ok && links_of_view(link_results(ms)->Ok_0) == link_pairs(l)
}

/// The (index, name) pairs of the link messages among `msgs`, in order.
pub open spec fn links_of_view(msgs: Seq<RtNetlinkMessageView>) -> Seq<(u32, Seq<char>)>
    decreases msgs.len(),
{
    if msgs.len() == 0 {
        Seq::empty()
    } else {
        match msgs.last() {
            RtNetlinkMessageView::GetLink(l) => links_of_view(msgs.drop_last()).push(l),
            _ => links_of_view(msgs.drop_last()),
        }
    }
}

proof fn lemma_links_of_view(msgs: Seq<crate::RtNetlinkMessage>)
    ensures
        links_of_view(messages_view(msgs)) == links_of(msgs),
    decreases msgs.len(),
{
    if msgs.len() > 0 {
        assert(messages_view(msgs).drop_last() =~= messages_view(msgs.drop_last()));
        lemma_links_of_view(msgs.drop_last());
    }
}

/// The links of a link dump.
pub fn list_links<C: NetlinkConnection>(conn: &C) -> (r: Result<Vec<Link>, Error>)
    ensures
        r is Ok ==> links_from_dump(r->Ok_0@),
{
    let messages = match conn.links() {
        Ok(m) => m,
        Err(e) => return Err(e),
    };
    let ghost ms = messages@;
    let parsed = match parse_links(&messages) {
        Ok(p) => p,
        Err(e) => return Err(e),
    };
    let ghost pm = parsed@;
    let r = links(parsed);
    proof {
        lemma_links_of_view(pm);
        assert(link_results(ms) is Ok && links_of_view(link_results(ms)->Ok_0) == link_pairs(
            r->Ok_0@,
        ));
    }
    r
}

/// The classes of the first link among `all` named `name`; where none has
/// that name, the error names it.
pub fn classes_among<C: NetlinkConnection>(
    conn: &C,
    all: &Vec<Link>,
    name: &str,
    opts: &ParseOptions,
) -> (r: Result<Vec<Tc>, Error>)
    ensures
        first_named(link_pairs(all@), name@) is None ==> r is Err && r->Err_0@
            == ErrorView::NoSuchLink(name@),
        r is Ok ==> first_named(link_pairs(all@), name@) is Some && decoded_from_dump(
            r->Ok_0@,
            *opts,
        ),
{
    match link_index(all, name) {
        Some(index) => classes_for_index(conn, index, opts),
        None => Err(Error::NoSuchLink(name.to_string())),
    }
}

/// The classes of the interface named `name`, found through a link dump: the
/// first link of that name is the one asked for.
pub fn classes_for_name<C: NetlinkConnection>(conn: &C, name: &str, opts: &ParseOptions) -> (r:
    Result<Vec<Tc>, Error>)
    ensures
        r is Ok ==> decoded_from_dump(r->Ok_0@, *opts),
{
    match list_links(conn) {
        Ok(all) => classes_among(conn, &all, name, opts),
        Err(e) => Err(e),
    }
}

/// The records that the dumps `dumps` decode to, one dump after the other,
/// each in order; or the first error met.
pub open spec fn dumps_results(dumps: Seq<Seq<RawMessage>>, opts: ParseOptions) -> Result<
    Seq<TcView>,
    ErrorView,
>
    decreases dumps.len(),
{
    if dumps.len() == 0 {
        Ok(Seq::empty())
    } else {
        match dumps_results(dumps.drop_last(), opts) {
            Err(e) => Err(e),
            Ok(v) => match tc_results(dumps.last(), opts) {
                Ok(w) => Ok(v + w),
                Err(e) => Err(e),
            },
        }
    }
}

pub open spec fn dumps_view(d: Seq<Vec<RawMessage>>) -> Seq<Seq<RawMessage>> {
    d.map_values(|v: Vec<RawMessage>| v@)
}

proof fn lemma_dumps_results_err(d: Seq<Seq<RawMessage>>, k: int, opts: ParseOptions)
    requires
        0 <= k <= d.len(),
        dumps_results(d.take(k), opts) is Err,
    ensures
        dumps_results(d, opts) == dumps_results(d.take(k), opts),
    decreases d.len() - k,
{
    if k < d.len() {
        assert(d.take(k + 1).drop_last() =~= d.take(k));
        lemma_dumps_results_err(d, k + 1, opts);
    } else {
        assert(d.take(k) =~= d);
    }
}

/// Decodes several dump replies, one after the other, and joins their records
/// in order.
pub fn records_of_dumps(dumps: Vec<Vec<RawMessage>>, opts: &ParseOptions) -> (r: Result<
    Vec<Tc>,
    Error,
>)
    ensures
        match r {
            Ok(v) => dumps_results(dumps_view(dumps@), *opts) == Ok::<Seq<TcView>, ErrorView>(
                tcs_view(v@),
            ),
            Err(e) => dumps_results(dumps_view(dumps@), *opts) == Err::<Seq<TcView>, ErrorView>(
                e@,
            ),
        },
{
    let ghost d = dumps_view(dumps@);
    let mut out: Vec<Tc> = Vec::new();
    assert(tcs_view(out@) =~= Seq::<TcView>::empty());
    for dump in iter: dumps.into_iter()
        invariant
            iter.seq() == dumps@,
            d == dumps_view(dumps@),
            dumps_results(d.take(iter.index() as int), *opts) == Ok::<Seq<TcView>, ErrorView>(
                tcs_view(out@),
            ),
    {
        let ghost k = iter.index() as int;
        assert(d.take(k + 1).drop_last() =~= d.take(k));
        assert(d.take(k + 1).last() == dump@);
        match opts.tc(dump) {
            Ok(mut part) => {
                let ghost before = out@;
                let ghost added = part@;
                out.append(&mut part);
                assert(tcs_view(out@) =~= tcs_view(before) + tcs_view(added));
            },
            Err(e) => {
                proof {
                    lemma_dumps_results_err(d, k + 1, *opts);
                }
                return Err(e);
            },
        }
    }
    assert(d.take(d.len() as int) =~= d);
    Ok(out)
}

/// Whether `v` is what `dumps` replies decode to, one after the other, where
/// the replies answer a class request for each link of some link dump,
/// preceded by `extra` more replies.
pub open spec fn decoded_from_replies(v: Seq<Tc>, extra: nat, opts: ParseOptions) -> bool {
    exists|l: Seq<Link>, d: Seq<Seq<RawMessage>>|
        #![trigger links_from_dump(l), dumps_results(d, opts)]
        links_from_dump(l) && d.len() == l.len() + extra && dumps_results(d, opts) == Ok::<
            Seq<TcView>,
            ErrorView,
        >(tcs_view(v))
}

/// One class dump reply per link of a link dump, in link order.
fn class_replies<C: NetlinkConnection>(conn: &C) -> (r: Result<Vec<Vec<RawMessage>>, Error>)
    ensures
        r is Ok ==> exists|l: Seq<Link>|
            #![trigger links_from_dump(l)]
            links_from_dump(l) && r->Ok_0@.len() == l.len(),
{
    let all = match list_links(conn) {
        Ok(l) => l,
        Err(e) => return Err(e),
    };
    let mut replies: Vec<Vec<RawMessage>> = Vec::new();
    let mut i: usize = 0;
    while i < all.len()
        invariant
            i <= all@.len(),
            replies@.len() == i,
        decreases all@.len() - i,
    {
        match conn.classes(all[i].index as i32) {
            Ok(reply) => replies.push(reply),
            Err(e) => return Err(e),
        }
        i = i + 1;
    }
    Ok(replies)
}

/// The classes of every interface, one class dump per link, in link order.
pub fn list_classes<C: NetlinkConnection>(conn: &C, opts: &ParseOptions) -> (r: Result<
    Vec<Tc>,
    Error,
>)
    ensures
        r is Ok ==> decoded_from_replies(r->Ok_0@, 0, *opts),
{
    let replies = match class_replies(conn) {
        Ok(d) => d,
        Err(e) => return Err(e),
    };
    let ghost d = dumps_view(replies@);
    let r = records_of_dumps(replies, opts);
    proof {
        if r is Ok {
            let l = choose|l: Seq<Link>| links_from_dump(l) && d.len() == l.len();
            assert(links_from_dump(l) && d.len() == l.len() + 0 && dumps_results(d, *opts)
                == Ok::<Seq<TcView>, ErrorView>(tcs_view(r->Ok_0@)));
        }
    }
    r
}

/// The qdiscs of all interfaces followed by the classes of all interfaces:
/// the qdisc dump reply comes first, then one class dump reply per link.
pub fn tc_stats<C: NetlinkConnection>(conn: &C, opts: &ParseOptions) -> (r: Result<
    Vec<Tc>,
    Error,
>)
    ensures
        r is Ok ==> decoded_from_replies(r->Ok_0@, 1, *opts),
{
    let qdiscs = match conn.qdiscs() {
        Ok(q) => q,
        Err(e) => return Err(e),
    };
    let mut classes = match class_replies(conn) {
        Ok(d) => d,
        Err(e) => return Err(e),
    };
    let mut replies: Vec<Vec<RawMessage>> = Vec::new();
    replies.push(qdiscs);
    let ghost n = classes@.len();
    replies.append(&mut classes);
    let ghost d = dumps_view(replies@);
    let r = records_of_dumps(replies, opts);
    proof {
        if r is Ok {
            let l = choose|l: Seq<Link>| links_from_dump(l) && n == l.len();
            assert(links_from_dump(l) && d.len() == l.len() + 1 && dumps_results(d, *opts)
                == Ok::<Seq<TcView>, ErrorView>(tcs_view(r->Ok_0@)));
        }
    }
    r
}

} // verus!
