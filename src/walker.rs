//! The attribute walker: turns the attributes of one netlink message, split
//! into (type, payload) pairs, into tc attributes, and a dump into messages.
use vstd::prelude::*;
use vstd::utf8::{decode_utf8, valid_utf8};

use netlink_packet_utils::nla::NlasIterator;
use netlink_packet_utils::DecodeError;

use crate::bytes::le_u16;
use crate::constants::{
    IFLA_IFNAME, RTM_NEWLINK, TCA_CHAIN, TCA_FCNT, TCA_HW_OFFLOAD, TCA_KIND, TCA_OPTIONS, TCA_RATE, TCA_STAB,
    TCA_STATS, TCA_STATS2, TCA_STATS_APP, TCA_STATS_BASIC, TCA_STATS_QUEUE, TCA_XSTATS,
};
use crate::errors::{Error, ErrorView};
use crate::types::{
    attrs_view, options_view, stats2_view, LinkAttr, LinkHeader, LinkMsg, TcAttr, TcAttrView, TcMsgView,
    TcHeader, TcMsg, TcOption, TcStats2,
};
use crate::{messages_view, ParseOptions, RtNetlinkMessage, RtNetlinkMessageView};

verus! {

/// `netlink_packet_utils::DecodeError`, the error of that crate's parsers,
/// carried opaque: the walker only tells whether a parse failed.
#[verifier::external_type_specification]
#[verifier::external_body]
pub struct ExDecodeError(DecodeError);

/// `b` without one trailing NUL byte, where it ends in one.
pub open spec fn nul_trimmed(b: Seq<u8>) -> Seq<u8> {
    if b.len() > 0 && b.last() == 0 {
        b.drop_last()
    } else {
        b
    }
}

/// The string that an attribute payload holds: UTF-8, optionally NUL-terminated.
pub open spec fn string_of(b: Seq<u8>) -> Option<Seq<char>> {
    if valid_utf8(nul_trimmed(b)) {
        Some(decode_utf8(nul_trimmed(b)))
    } else {
        None
    }
}

/// Relies on `netlink_packet_utils::parsers::parse_string`: drops one
/// trailing NUL and decodes the rest with `String::from_utf8`, which fails
/// exactly on invalid UTF-8.
pub assume_specification[ netlink_packet_utils::parsers::parse_string ](payload: &[u8]) -> (r:
    Result<String, DecodeError>)
    ensures
        match string_of(payload@) {
            Some(s) => r is Ok && r->Ok_0@ == s,
            None => r is Err,
        },
;

/// `n` rounded up to a multiple of 4, where the next attribute starts.
pub open spec fn nla_align(n: int) -> int {
    (n + 3) / 4 * 4
}

/// The attributes of a buffer in netlink attribute framing, as (type, payload)
/// pairs, or `None` where the framing is broken. Each attribute starts with
/// its length (header included) and type, both `u16`; the top two bits of
/// the type are flags, not part of it; attributes start 4-byte aligned.
pub open spec fn nlas_of(b: Seq<u8>) -> Option<Seq<(u16, Seq<u8>)>>
    decreases b.len(),
{
    if b.len() == 0 {
        Some(Seq::empty())
    } else if b.len() < 4 {
        None
    } else {
        let len = le_u16(b, 0) as int;
        if len > b.len() || len < 4 {
            None
        } else {
            let next = nla_align(len);
            let rest = if next >= b.len() {
                Seq::empty()
            } else {
                b.subrange(next, b.len() as int)
            };
            match nlas_of(rest) {
                Some(s) => Some(seq![((le_u16(b, 2) & 0x3fff) as u16, b.subrange(4, len))] + s),
                None => None,
            }
        }
    }
}

/// Relies on `netlink_packet_utils::nla::NlasIterator`, with `NlaBuffer::kind`
/// and `NlaBuffer::value`: splits a buffer of nested attributes, stopping at
/// the first attribute whose framing is broken. Lengths and types are read
/// in the host's byte order, little-endian on the hosts this library targets.
#[verifier::external_body]
fn split_nlas(b: &[u8]) -> (r: Result<Vec<TcOption>, DecodeError>)
    ensures
        match nlas_of(b@) {
            Some(s) => r is Ok && options_view(r->Ok_0@) == s,
            None => r is Err,
        },
{
    let mut out = Vec::new();
    for nla in NlasIterator::new(b) {
        let nla = nla?;
        out.push(TcOption { kind: nla.kind(), bytes: nla.value().to_vec() });
    }
    Ok(out)
}

/// The blocks of a segmented statistics attribute that are kept: basic,
/// queue and application blocks. Any other block fails the walk where the
/// options ask for that, and is dropped otherwise.
pub open spec fn stats2_blocks(s: Seq<(u16, Seq<u8>)>, opts: ParseOptions) -> Result<
    Seq<(u16, Seq<u8>)>,
    ErrorView,
>
    decreases s.len(),
{
    if s.len() == 0 {
        Ok(Seq::empty())
    } else {
        match stats2_blocks(s.drop_last(), opts) {
            Err(e) => Err(e),
            Ok(v) => {
                let k = s.last().0;
                if k == TCA_STATS_BASIC || k == TCA_STATS_QUEUE || k == TCA_STATS_APP {
                    Ok(v.push(s.last()))
                } else if opts.fail_on_unknown_attribute {
                    Err(ErrorView::UnknownAttribute(k))
                } else {
                    Ok(v)
                }
            },
        }
    }
}

/// What the walker does with one top-level attribute.
pub enum NlaStep {
    Attr(TcAttrView),
    Skip,
    Fail(ErrorView),
}

/// The walker's step on the attribute of type `kind` with payload `v`.
pub open spec fn nla_step(kind: u16, v: Seq<u8>, opts: ParseOptions) -> NlaStep {
    if kind == TCA_KIND {
        match string_of(v) {
            Some(s) => NlaStep::Attr(TcAttrView::Kind(s)),
            None => NlaStep::Fail(ErrorView::MalformedAttribute(kind)),
        }
    } else if kind == TCA_OPTIONS {
        match nlas_of(v) {
            Some(o) => NlaStep::Attr(TcAttrView::Options(o)),
            None => NlaStep::Fail(ErrorView::MalformedAttribute(kind)),
        }
    } else if kind == TCA_STATS {
        NlaStep::Attr(TcAttrView::Stats(v))
    } else if kind == TCA_XSTATS {
        NlaStep::Attr(TcAttrView::Xstats(v))
    } else if kind == TCA_RATE {
        NlaStep::Attr(TcAttrView::Rate(v))
    } else if kind == TCA_FCNT {
        NlaStep::Attr(TcAttrView::Fcnt(v))
    } else if kind == TCA_STATS2 {
        match nlas_of(v) {
            Some(s) => match stats2_blocks(s, opts) {
                Ok(blocks) => NlaStep::Attr(TcAttrView::Stats2(blocks)),
                Err(e) => NlaStep::Fail(e),
            },
            None => NlaStep::Fail(ErrorView::MalformedAttribute(kind)),
        }
    } else if kind == TCA_STAB {
        NlaStep::Attr(TcAttrView::Stab(v))
    } else if kind == TCA_CHAIN {
        NlaStep::Attr(TcAttrView::Chain(v))
    } else if kind == TCA_HW_OFFLOAD {
        if v.len() == 1 {
            NlaStep::Attr(TcAttrView::HwOffload(v[0]))
        } else {
            NlaStep::Fail(ErrorView::MalformedAttribute(kind))
        }
    } else if opts.fail_on_unknown_attribute {
        NlaStep::Fail(ErrorView::UnknownAttribute(kind))
    } else {
        NlaStep::Skip
    }
}

/// The tc attributes that the attributes `nlas` of a message give, in
/// order, or the first error met.
pub open spec fn walk(nlas: Seq<(u16, Seq<u8>)>, opts: ParseOptions) -> Result<
    Seq<TcAttrView>,
    ErrorView,
>
    decreases nlas.len(),
{
    if nlas.len() == 0 {
        Ok(Seq::empty())
    } else {
        match walk(nlas.drop_last(), opts) {
            Err(e) => Err(e),
            Ok(v) => match nla_step(nlas.last().0, nlas.last().1, opts) {
                NlaStep::Attr(a) => Ok(v.push(a)),
                NlaStep::Skip => Ok(v),
                NlaStep::Fail(e) => Err(e),
            },
        }
    }
}

proof fn lemma_walk_err(nlas: Seq<(u16, Seq<u8>)>, k: int, opts: ParseOptions)
    requires
        0 <= k <= nlas.len(),
        walk(nlas.take(k), opts) is Err,
    ensures
        walk(nlas, opts) == walk(nlas.take(k), opts),
    decreases nlas.len() - k,
{
    if k < nlas.len() {
        assert(nlas.take(k + 1).drop_last() =~= nlas.take(k));
        lemma_walk_err(nlas, k + 1, opts);
    } else {
        assert(nlas.take(k) =~= nlas);
    }
}

proof fn lemma_stats2_blocks_err(s: Seq<(u16, Seq<u8>)>, k: int, opts: ParseOptions)
    requires
        0 <= k <= s.len(),
        stats2_blocks(s.take(k), opts) is Err,
    ensures
        stats2_blocks(s, opts) == stats2_blocks(s.take(k), opts),
    decreases s.len() - k,
{
    if k < s.len() {
        assert(s.take(k + 1).drop_last() =~= s.take(k));
        lemma_stats2_blocks_err(s, k + 1, opts);
    } else {
        assert(s.take(k) =~= s);
    }
}

fn copy_bytes(b: &Vec<u8>) -> (r: Vec<u8>)
    ensures
        r@ == b@,
{
    let r = b.clone();
    assert(r@ =~= b@);
    r
}

/// Keeps the known blocks of a segmented statistics attribute.
fn to_stats2(blocks: Vec<TcOption>, opts: &ParseOptions) -> (r: Result<Vec<TcStats2>, Error>)
    ensures
        match r {
            Ok(v) => stats2_blocks(options_view(blocks@), *opts) == Ok::<
                Seq<(u16, Seq<u8>)>,
                ErrorView,
            >(stats2_view(v@)),
            Err(e) => stats2_blocks(options_view(blocks@), *opts) == Err::<
                Seq<(u16, Seq<u8>)>,
                ErrorView,
            >(e@),
        },
{
    let ghost s = options_view(blocks@);
    let mut out: Vec<TcStats2> = Vec::new();
    let n = blocks.len();
    let mut i: usize = 0;
    while i < n
        invariant
            n == blocks@.len(),
            s == options_view(blocks@),
            i <= n,
            stats2_blocks(s.take(i as int), *opts) is Ok,
            stats2_blocks(s.take(i as int), *opts)->Ok_0.len() == out@.len(),
            forall|j: int|
                0 <= j < out@.len() ==> #[trigger] out@[j]@ == stats2_blocks(
                    s.take(i as int),
                    *opts,
                )->Ok_0[j],
        decreases n - i,
    {
        assert(s.take(i + 1).drop_last() =~= s.take(i as int));
        let k = blocks[i].kind;
        let bytes = copy_bytes(&blocks[i].bytes);
        if k == TCA_STATS_BASIC {
            out.push(TcStats2::StatsBasic(bytes));
        } else if k == TCA_STATS_QUEUE {
            out.push(TcStats2::StatsQueue(bytes));
        } else if k == TCA_STATS_APP {
            out.push(TcStats2::StatsApp(bytes));
        } else if opts.fail_on_unknown_attribute {
            proof {
                lemma_stats2_blocks_err(s, i + 1, *opts);
            }
            return Err(Error::UnknownAttribute(k));
        }
        i = i + 1;
    }
    assert(s.take(n as int) =~= s);
    assert(stats2_view(out@) =~= stats2_blocks(s, *opts)->Ok_0);
    Ok(out)
}

/// The walker's step on one attribute, as an executable decision.
fn walk_one(nla: &TcOption, opts: &ParseOptions) -> (r: Result<Option<TcAttr>, Error>)
    ensures
        match nla_step(nla.kind, nla.bytes@, *opts) {
            NlaStep::Attr(a) => r is Ok && r->Ok_0 is Some && r->Ok_0->0@ == a,
            NlaStep::Skip => r is Ok && r->Ok_0 is None,
            NlaStep::Fail(e) => r is Err && r->Err_0@ == e,
        },
{
    let kind = nla.kind;
    let v = nla.bytes.as_slice();
    if kind == TCA_KIND {
        match netlink_packet_utils::parsers::parse_string(v) {
            Ok(s) => Ok(Some(TcAttr::Kind(s))),
            Err(_) => Err(Error::MalformedAttribute(kind)),
        }
    } else if kind == TCA_OPTIONS {
        match split_nlas(v) {
            Ok(o) => Ok(Some(TcAttr::Options(o))),
            Err(_) => Err(Error::MalformedAttribute(kind)),
        }
    } else if kind == TCA_STATS {
        Ok(Some(TcAttr::Stats(copy_bytes(&nla.bytes))))
    } else if kind == TCA_XSTATS {
        Ok(Some(TcAttr::Xstats(copy_bytes(&nla.bytes))))
    } else if kind == TCA_RATE {
        Ok(Some(TcAttr::Rate(copy_bytes(&nla.bytes))))
    } else if kind == TCA_FCNT {
        Ok(Some(TcAttr::Fcnt(copy_bytes(&nla.bytes))))
    } else if kind == TCA_STATS2 {
        match split_nlas(v) {
            Ok(blocks) => match to_stats2(blocks, opts) {
                Ok(s) => Ok(Some(TcAttr::Stats2(s))),
                Err(e) => Err(e),
            },
            Err(_) => Err(Error::MalformedAttribute(kind)),
        }
    } else if kind == TCA_STAB {
        Ok(Some(TcAttr::Stab(copy_bytes(&nla.bytes))))
    } else if kind == TCA_CHAIN {
        Ok(Some(TcAttr::Chain(copy_bytes(&nla.bytes))))
    } else if kind == TCA_HW_OFFLOAD {
        if v.len() == 1 {
            Ok(Some(TcAttr::HwOffload(v[0])))
        } else {
            Err(Error::MalformedAttribute(kind))
        }
    } else if opts.fail_on_unknown_attribute {
        Err(Error::UnknownAttribute(kind))
    } else {
        Ok(None)
    }
}

/// Walks the top-level attributes `nlas` of a tc message with header `header`.
pub fn to_tc(header: TcHeader, nlas: &Vec<TcOption>, opts: &ParseOptions) -> (r: Result<
    TcMsg,
    Error,
>)
    ensures
        match r {
            Ok(m) => m.header == header && walk(options_view(nlas@), *opts) == Ok::<
                Seq<TcAttrView>,
                ErrorView,
            >(attrs_view(m.attrs@)),
            Err(e) => walk(options_view(nlas@), *opts) == Err::<Seq<TcAttrView>, ErrorView>(e@),
        },
{
    let ghost s = options_view(nlas@);
    let mut attrs: Vec<TcAttr> = Vec::new();
    let n = nlas.len();
    let mut i: usize = 0;
    while i < n
        invariant
            n == nlas@.len(),
            s == options_view(nlas@),
            i <= n,
            walk(s.take(i as int), *opts) is Ok,
            walk(s.take(i as int), *opts)->Ok_0.len() == attrs@.len(),
            forall|j: int|
                0 <= j < attrs@.len() ==> #[trigger] attrs@[j]@ == walk(
                    s.take(i as int),
                    *opts,
                )->Ok_0[j],
        decreases n - i,
    {
        assert(s.take(i + 1).drop_last() =~= s.take(i as int));
        match walk_one(&nlas[i], opts) {
            Ok(Some(a)) => attrs.push(a),
            Ok(None) => {},
            Err(e) => {
                proof {
                    lemma_walk_err(s, i + 1, *opts);
                }
                return Err(e);
            },
        }
        i = i + 1;
    }
    assert(s.take(n as int) =~= s);
    assert(attrs_view(attrs@) =~= walk(s, *opts)->Ok_0);
    Ok(TcMsg { header, attrs })
}

} // verus!

verus! {

/// A netlink message of a dump, with its header and its top-level attributes
/// split into (type, payload) pairs.
#[derive(Debug)]
pub enum RawMessage {
    /// `RTM_NEWQDISC`.
    NewQdisc(TcHeader, Vec<TcOption>),
    /// `RTM_NEWTCLASS`.
    NewClass(TcHeader, Vec<TcOption>),
    /// `RTM_NEWLINK`, with the interface index.
    NewLink(u32, Vec<TcOption>),
    /// Any other message, by type.
    Other(u16),
}

/// The messages of a dump that carry qdiscs and classes, with their
/// attributes walked; or the first error met. A message of another type
/// fails the call where the options ask for that, and is dropped otherwise.
pub open spec fn parse_results(msgs: Seq<RawMessage>, opts: ParseOptions) -> Result<
    Seq<RtNetlinkMessageView>,
    ErrorView,
>
    decreases msgs.len(),
{
    if msgs.len() == 0 {
        Ok(Seq::empty())
    } else {
        match parse_results(msgs.drop_last(), opts) {
            Err(e) => Err(e),
            Ok(v) => match msgs.last() {
                RawMessage::NewQdisc(h, nlas) => match walk(options_view(nlas@), opts) {
                    Ok(a) => Ok(
                        v.push(RtNetlinkMessageView::GetQdisc(TcMsgView { header: h, attrs: a })),
                    ),
                    Err(e) => Err(e),
                },
                RawMessage::NewClass(h, nlas) => match walk(options_view(nlas@), opts) {
                    Ok(a) => Ok(
                        v.push(RtNetlinkMessageView::GetClass(TcMsgView { header: h, attrs: a })),
                    ),
                    Err(e) => Err(e),
                },
                RawMessage::NewLink(_, _) => if opts.fail_on_unknown_netlink_message {
                    Err(ErrorView::UnknownMessage(RTM_NEWLINK))
                } else {
                    Ok(v)
                },
                RawMessage::Other(t) => if opts.fail_on_unknown_netlink_message {
                    Err(ErrorView::UnknownMessage(t))
                } else {
                    Ok(v)
                },
            },
        }
    }
}

proof fn lemma_parse_results_err(msgs: Seq<RawMessage>, k: int, opts: ParseOptions)
    requires
        0 <= k <= msgs.len(),
        parse_results(msgs.take(k), opts) is Err,
    ensures
        parse_results(msgs, opts) == parse_results(msgs.take(k), opts),
    decreases msgs.len() - k,
{
    if k < msgs.len() {
        assert(msgs.take(k + 1).drop_last() =~= msgs.take(k));
        lemma_parse_results_err(msgs, k + 1, opts);
    } else {
        assert(msgs.take(k) =~= msgs);
    }
}

/// Walks the qdisc and class messages of a dump.
pub fn parse(messages: &Vec<RawMessage>, opts: &ParseOptions) -> (r: Result<
    Vec<RtNetlinkMessage>,
    Error,
>)
    ensures
        match r {
            Ok(v) => parse_results(messages@, *opts) == Ok::<
                Seq<RtNetlinkMessageView>,
                ErrorView,
            >(messages_view(v@)),
            Err(e) => parse_results(messages@, *opts) == Err::<
                Seq<RtNetlinkMessageView>,
                ErrorView,
            >(e@),
        },
{
    let ghost s = messages@;
    let mut out: Vec<RtNetlinkMessage> = Vec::new();
    let n = messages.len();
    let mut i: usize = 0;
    while i < n
        invariant
            n == s.len(),
            s == messages@,
            i <= n,
            parse_results(s.take(i as int), *opts) is Ok,
            parse_results(s.take(i as int), *opts)->Ok_0.len() == out@.len(),
            forall|j: int|
                0 <= j < out@.len() ==> #[trigger] out@[j]@ == parse_results(
                    s.take(i as int),
                    *opts,
                )->Ok_0[j],
        decreases n - i,
    {
        assert(s.take(i + 1).drop_last() =~= s.take(i as int));
        match &messages[i] {
            RawMessage::NewQdisc(h, nlas) => match to_tc(*h, nlas, opts) {
                Ok(m) => out.push(RtNetlinkMessage::GetQdisc(m)),
                Err(e) => {
                    proof {
                        lemma_parse_results_err(s, i + 1, *opts);
                    }
                    return Err(e);
                },
            },
            RawMessage::NewClass(h, nlas) => match to_tc(*h, nlas, opts) {
                Ok(m) => out.push(RtNetlinkMessage::GetClass(m)),
                Err(e) => {
                    proof {
                        lemma_parse_results_err(s, i + 1, *opts);
                    }
                    return Err(e);
                },
            },
            RawMessage::NewLink(_, _) => {
                if opts.fail_on_unknown_netlink_message {
                    proof {
                        lemma_parse_results_err(s, i + 1, *opts);
                    }
                    return Err(Error::UnknownMessage(RTM_NEWLINK));
                }
            },
            RawMessage::Other(t) => {
                if opts.fail_on_unknown_netlink_message {
                    proof {
                        lemma_parse_results_err(s, i + 1, *opts);
                    }
                    return Err(Error::UnknownMessage(*t));
                }
            },
        }
        i = i + 1;
    }
    assert(s.take(n as int) =~= s);
    assert(messages_view(out@) =~= parse_results(s, *opts)->Ok_0);
    Ok(out)
}

/// The payload of the last interface-name attribute among `nlas`.
pub open spec fn name_payload(nlas: Seq<(u16, Seq<u8>)>) -> Option<Seq<u8>>
    decreases nlas.len(),
{
    if nlas.len() == 0 {
        None
    } else if nlas.last().0 == IFLA_IFNAME {
        Some(nlas.last().1)
    } else {
        name_payload(nlas.drop_last())
    }
}

/// The link that a link message with interface index `index` and attributes
/// `nlas` describes: its name is required.
pub open spec fn link_result(index: u32, nlas: Seq<(u16, Seq<u8>)>) -> Result<
    (u32, Seq<char>),
    ErrorView,
> {
    match name_payload(nlas) {
        None => Err(ErrorView::MissingAttribute(IFLA_IFNAME)),
        Some(p) => match string_of(p) {
            Some(name) => Ok((index, name)),
            None => Err(ErrorView::MalformedAttribute(IFLA_IFNAME)),
        },
    }
}

/// Decodes one link message.
pub fn to_link(index: u32, nlas: &Vec<TcOption>) -> (r: Result<LinkMsg, Error>)
    ensures
        match r {
            Ok(m) => link_result(index, options_view(nlas@)) == Ok::<
                (u32, Seq<char>),
                ErrorView,
            >(m@),
            Err(e) => link_result(index, options_view(nlas@)) == Err::<
                (u32, Seq<char>),
                ErrorView,
            >(e@),
        },
{
    let ghost s = options_view(nlas@);
    let mut i: usize = nlas.len();
    assert(s.take(i as int) =~= s);
    while i > 0
        invariant
            i <= nlas@.len(),
            s == options_view(nlas@),
            name_payload(s) == name_payload(s.take(i as int)),
        decreases i,
    {
        assert(s.take(i as int).drop_last() =~= s.take(i - 1));
        if nlas[i - 1].kind == IFLA_IFNAME {
            return match netlink_packet_utils::parsers::parse_string(nlas[i - 1].bytes.as_slice()) {
                Ok(name) => Ok(LinkMsg { header: LinkHeader { index }, attr: LinkAttr { name } }),
                Err(_) => Err(Error::MalformedAttribute(IFLA_IFNAME)),
            };
        }
        i = i - 1;
    }
    Err(Error::MissingAttribute(IFLA_IFNAME))
}

/// The links of a link dump, in order, or the first error met; messages
/// that are not links are passed over.
pub open spec fn link_results(msgs: Seq<RawMessage>) -> Result<Seq<RtNetlinkMessageView>, ErrorView>
    decreases msgs.len(),
{
    if msgs.len() == 0 {
        Ok(Seq::empty())
    } else {
        match link_results(msgs.drop_last()) {
            Err(e) => Err(e),
            Ok(v) => match msgs.last() {
                RawMessage::NewLink(index, nlas) => match link_result(index, options_view(nlas@)) {
                    Ok(l) => Ok(v.push(RtNetlinkMessageView::GetLink(l))),
                    Err(e) => Err(e),
                },
                _ => Ok(v),
            },
        }
    }
}

proof fn lemma_link_results_err(msgs: Seq<RawMessage>, k: int)
    requires
        0 <= k <= msgs.len(),
        link_results(msgs.take(k)) is Err,
    ensures
        link_results(msgs) == link_results(msgs.take(k)),
    decreases msgs.len() - k,
{
    if k < msgs.len() {
        assert(msgs.take(k + 1).drop_last() =~= msgs.take(k));
        lemma_link_results_err(msgs, k + 1);
    } else {
        assert(msgs.take(k) =~= msgs);
    }
}

/// Decodes the link messages of a link dump.
pub fn parse_links(messages: &Vec<RawMessage>) -> (r: Result<Vec<RtNetlinkMessage>, Error>)
    ensures
        match r {
            Ok(v) => link_results(messages@) == Ok::<Seq<RtNetlinkMessageView>, ErrorView>(
                messages_view(v@),
            ),
            Err(e) => link_results(messages@) == Err::<Seq<RtNetlinkMessageView>, ErrorView>(e@),
        },
{
    let ghost s = messages@;
    let mut out: Vec<RtNetlinkMessage> = Vec::new();
    let n = messages.len();
    let mut i: usize = 0;
    while i < n
        invariant
            n == s.len(),
            s == messages@,
            i <= n,
            link_results(s.take(i as int)) is Ok,
            link_results(s.take(i as int))->Ok_0.len() == out@.len(),
            forall|j: int|
                0 <= j < out@.len() ==> #[trigger] out@[j]@ == link_results(s.take(i as int))->Ok_0[j],
        decreases n - i,
    {
        assert(s.take(i + 1).drop_last() =~= s.take(i as int));
        match &messages[i] {
            RawMessage::NewLink(index, nlas) => match to_link(*index, nlas) {
                Ok(m) => out.push(RtNetlinkMessage::GetLink(m)),
                Err(e) => {
                    proof {
                        lemma_link_results_err(s, i + 1);
                    }
                    return Err(e);
                },
            },
            _ => {},
        }
        i = i + 1;
    }
    assert(s.take(n as int) =~= s);
    assert(messages_view(out@) =~= link_results(s)->Ok_0);
    Ok(out)
}

} // verus!
