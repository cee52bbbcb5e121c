//! The record assembler: turns one tc message into a decoded qdisc or class.
use vstd::prelude::*;

use crate::constants::{
    CLSACT, FQ_CODEL, HTB, TCA_CHAIN, TCA_FCNT, TCA_HW_OFFLOAD, TCA_KIND, TCA_OPTIONS, TCA_PAD,
    TCA_RATE, TCA_STAB, TCA_STATS, TCA_STATS2, TCA_STATS_BASIC, TCA_STATS_QUEUE, TCA_UNSPEC,
    TCA_XSTATS,
};
use crate::errors::{Error, ErrorView};
use crate::fq_codel::{fq_codel_of, fq_codel_xstats_of, FqCodel, FqCodelXStats, FQ_CODEL_XSTATS_LEN};
use crate::htb::{htb_of, htb_xstats_of, Htb, HtbXstats};
use crate::bytes::le_u32;
use crate::types::{
    options_view, parse_stats, parse_stats_basic, parse_stats_queue, stats_basic_of, stats_of,
    stats_queue_of, Attribute, AttributeView, Class, ClassView, Clsact, QDisc, Stats, Stats2,
    Tc, TcAttr, TcAttrView, TcMessage, TcMsg, TcMsgView, TcOption, TcStats2, TcView, XStats, attrs_view, stats2_view,
};
use crate::{messages_view, ParseOptions, RtNetlinkMessage, RtNetlinkMessageView};

verus! {

/// Whether `a` and `b` hold the same characters.
pub fn str_eq(a: &str, b: &str) -> (r: bool)
    ensures
        r == (a@ == b@),
{
    let n = a.unicode_len();
    if n != b.unicode_len() {
        return false;
    }
    let mut i: usize = 0;
    while i < n
        invariant
            n == a@.len() == b@.len(),
            i <= n,
            a@.take(i as int) == b@.take(i as int),
        decreases n - i,
    {
        if a.get_char(i) != b.get_char(i) {
            assert(a@[i as int] != b@[i as int]);
            return false;
        }
        assert(a@.take(i + 1) =~= a@.take(i as int).push(a@[i as int]));
        assert(b@.take(i + 1) =~= b@.take(i as int).push(b@[i as int]));
        i = i + 1;
    }
    assert(a@ =~= a@.take(n as int));
    assert(b@ =~= b@.take(n as int));
    true
}

/// The attribute type id of `a`.
pub open spec fn attr_id(a: TcAttrView) -> u16 {
    match a {
        TcAttrView::Unspec(_) => TCA_UNSPEC,
        TcAttrView::Kind(_) => TCA_KIND,
        TcAttrView::Options(_) => TCA_OPTIONS,
        TcAttrView::Stats(_) => TCA_STATS,
        TcAttrView::Xstats(_) => TCA_XSTATS,
        TcAttrView::Rate(_) => TCA_RATE,
        TcAttrView::Fcnt(_) => TCA_FCNT,
        TcAttrView::Stats2(_) => TCA_STATS2,
        TcAttrView::Stab(_) => TCA_STAB,
        TcAttrView::Pad(_) => TCA_PAD,
        TcAttrView::Chain(_) => TCA_CHAIN,
        TcAttrView::HwOffload(_) => TCA_HW_OFFLOAD,
    }
}

/// Whether the assembler knows attribute `a`: the kind, options, statistics
/// and extended statistics, and the hardware-offload flag, which is recorded
/// by the walker and not otherwise interpreted. Every other attribute is
/// unknown to it.
pub open spec fn assembled(a: TcAttrView) -> bool {
    a is Kind || a is Options || a is Stats || a is Xstats || a is Stats2 || a is HwOffload
}

/// The error that attribute `a` meets where the options fail on unknown
/// attributes: an unknown attribute is named, and a segmented-statistics
/// attribute with blocks that do not decode reports those blocks.
pub open spec fn attr_error(a: TcAttrView) -> Option<ErrorView> {
    if !assembled(a) {
        Some(ErrorView::UnknownAttribute(attr_id(a)))
    } else {
        match a {
            TcAttrView::Stats2(s) => if stats2_fold(s).1.len() > 0 {
                Some(ErrorView::Stats2(stats2_fold(s).1))
            } else {
                None
            },
            _ => None,
        }
    }
}

/// The error of the first attribute, in order, that meets one.
pub open spec fn first_attr_error(attrs: Seq<TcAttrView>) -> Option<ErrorView>
    decreases attrs.len(),
{
    if attrs.len() == 0 {
        None
    } else if attr_error(attrs[0]) is Some {
        attr_error(attrs[0])
    } else {
        first_attr_error(attrs.drop_first())
    }
}

/// The kind named by the last kind attribute, or the empty kind.
pub open spec fn kind_in(attrs: Seq<TcAttrView>) -> Seq<char>
    decreases attrs.len(),
{
    if attrs.len() == 0 {
        Seq::empty()
    } else {
        match attrs.last() {
            TcAttrView::Kind(k) => k,
            _ => kind_in(attrs.drop_last()),
        }
    }
}

/// The options of the last options attribute, or none.
pub open spec fn options_in(attrs: Seq<TcAttrView>) -> Seq<(u16, Seq<u8>)>
    decreases attrs.len(),
{
    if attrs.len() == 0 {
        Seq::empty()
    } else {
        match attrs.last() {
            TcAttrView::Options(o) => o,
            _ => options_in(attrs.drop_last()),
        }
    }
}

/// The legacy statistics that the last statistics attribute decodes to.
pub open spec fn stats_in(attrs: Seq<TcAttrView>) -> Option<Stats>
    decreases attrs.len(),
{
    if attrs.len() == 0 {
        None
    } else {
        match attrs.last() {
            TcAttrView::Stats(b) => stats_of(b),
            _ => stats_in(attrs.drop_last()),
        }
    }
}

/// The segmented statistics that the last such attribute decodes to.
pub open spec fn stats2_in(attrs: Seq<TcAttrView>) -> Option<Stats2>
    decreases attrs.len(),
{
    if attrs.len() == 0 {
        None
    } else {
        match attrs.last() {
            TcAttrView::Stats2(s) => {
                let (v, errs) = stats2_fold(s);
                if errs.len() == 0 {
                    Some(v)
                } else {
                    None
                }
            },
            _ => stats2_in(attrs.drop_last()),
        }
    }
}

/// The payloads of all extended-statistics attributes, in order, joined.
pub open spec fn xstats_in(attrs: Seq<TcAttrView>) -> Seq<u8>
    decreases attrs.len(),
{
    if attrs.len() == 0 {
        Seq::empty()
    } else {
        match attrs.last() {
            TcAttrView::Xstats(b) => xstats_in(attrs.drop_last()) + b,
            _ => xstats_in(attrs.drop_last()),
        }
    }
}

/// The segmented statistics that `blocks` decode to, and the types of the
/// blocks that could not be decoded, in order. Application blocks are not read.
pub open spec fn stats2_fold(blocks: Seq<(u16, Seq<u8>)>) -> (Stats2, Seq<u16>)
    decreases blocks.len(),
{
    if blocks.len() == 0 {
        (Stats2 { basic: None, queue: None }, Seq::empty())
    } else {
        let (s, errs) = stats2_fold(blocks.drop_last());
        let (k, b) = blocks.last();
        if k == TCA_STATS_BASIC {
            match stats_basic_of(b) {
                Some(v) => (Stats2 { basic: Some(v), ..s }, errs),
                None => (s, errs.push(TCA_STATS_BASIC)),
            }
        } else if k == TCA_STATS_QUEUE {
            match stats_queue_of(b) {
                Some(v) => (Stats2 { queue: Some(v), ..s }, errs),
                None => (s, errs.push(TCA_STATS_QUEUE)),
            }
        } else {
            (s, errs)
        }
    }
}

/// Qdisc kinds with a codec.
pub open spec fn known_qdisc(kind: Seq<char>) -> bool {
    kind == FQ_CODEL@ || kind == CLSACT@ || kind == HTB@
}

/// Class kinds with a codec.
pub open spec fn known_class(kind: Seq<char>) -> bool {
    kind == HTB@
}

/// Kinds whose extended statistics have a codec.
pub open spec fn known_xstats(kind: Seq<char>) -> bool {
    kind == FQ_CODEL@ || kind == HTB@
}

/// The qdisc parameters of a known kind: an HTB qdisc has some only where
/// its options hold the creation parameters.
pub open spec fn qdisc_of(kind: Seq<char>, opts: Seq<(u16, Seq<u8>)>) -> Option<QDisc> {
    if kind == FQ_CODEL@ {
        Some(QDisc::FqCodel(fq_codel_of(opts)))
    } else if kind == CLSACT@ {
        Some(QDisc::Clsact(Clsact {}))
    } else if kind == HTB@ {
        match htb_of(opts).init {
            Some(g) => Some(QDisc::Htb(g)),
            None => None,
        }
    } else {
        None
    }
}

/// The class parameters of a known kind.
pub open spec fn class_of(kind: Seq<char>, opts: Seq<(u16, Seq<u8>)>) -> Option<ClassView> {
    if kind == HTB@ {
        Some(ClassView::Htb(htb_of(opts)))
    } else {
        None
    }
}

/// The extended statistics of a known kind, where `b` decodes.
pub open spec fn xstats_of(kind: Seq<char>, b: Seq<u8>) -> Option<XStats> {
    if kind == FQ_CODEL@ {
        if b.len() >= FQ_CODEL_XSTATS_LEN && le_u32(b, 0) == 0 {
            Some(XStats::FqCodel(fq_codel_xstats_of(b)))
        } else {
            None
        }
    } else if kind == HTB@ {
        match htb_xstats_of(b) {
            Some(x) => Some(XStats::Htb(x)),
            None => None,
        }
    } else {
        None
    }
}

/// What a kind-keyed decoder returns for `kind`: `value` for a kind it
/// knows; for any other kind an error naming it where the options ask for
/// that, and nothing otherwise.
pub open spec fn by_kind<T>(
    kind: Seq<char>,
    known: bool,
    value: Option<T>,
    opts: ParseOptions,
    r: Result<Option<T>, Error>,
) -> bool {
    if known {
        r == Ok::<Option<T>, Error>(value)
    } else if opts.fail_on_unknown_option {
        r is Err && r->Err_0@ == ErrorView::UnknownKind(kind)
    } else {
        r == Ok::<Option<T>, Error>(None)
    }
}

/// The record that message `m` decodes to, in the role of a class where
/// `classful`, else of a qdisc; or the error that decoding it meets first.
pub open spec fn tc_result(m: TcMsgView, classful: bool, opts: ParseOptions) -> Result<
    TcView,
    ErrorView,
> {
    let attrs = m.attrs;
    let kind = kind_in(attrs);
    let known = if classful {
        known_class(kind)
    } else {
        known_qdisc(kind)
    };
    if opts.fail_on_unknown_attribute && first_attr_error(attrs) is Some {
        Err(first_attr_error(attrs)->0)
    } else if opts.fail_on_unknown_option && !(known && known_xstats(kind)) {
        Err(ErrorView::UnknownKind(kind))
    } else {
        Ok(
            TcView {
                msg: TcMessage {
                    index: m.header.index as u32,
                    handle: m.header.handle,
                    parent: m.header.parent,
                },
                attr: AttributeView {
                    kind,
                    stats: stats_in(attrs),
                    stats2: stats2_in(attrs),
                    qdisc: if classful {
                        None
                    } else {
                        qdisc_of(kind, options_in(attrs))
                    },
                    class: if classful {
                        class_of(kind, options_in(attrs))
                    } else {
                        None
                    },
                    xstats: xstats_of(kind, xstats_in(attrs)),
                },
            },
        )
    }
}

/// Whether `r` is the outcome that `expected` describes.
pub open spec fn tc_matches(r: Result<Tc, Error>, expected: Result<TcView, ErrorView>) -> bool {
    match r {
        Ok(t) => expected == Ok::<TcView, ErrorView>(t@),
        Err(e) => expected == Err::<TcView, ErrorView>(e@),
    }
}

fn clone_options(v: &Vec<TcOption>) -> (r: Vec<TcOption>)
    ensures
        options_view(r@) == options_view(v@),
{
    let mut r: Vec<TcOption> = Vec::new();
    let mut i: usize = 0;
    while i < v.len()
        invariant
            i <= v@.len(),
            r@.len() == i,
            forall|j: int| 0 <= j < i ==> #[trigger] r@[j]@ == v@[j]@,
        decreases v@.len() - i,
    {
        let o = TcOption { kind: v[i].kind, bytes: v[i].bytes.clone() };
        assert(o.bytes@ =~= v[i as int].bytes@);
        r.push(o);
        i = i + 1;
    }
    assert(options_view(r@) =~= options_view(v@));
    r
}

fn get_qdiscs(message: TcMsg, classful: bool, opts: &ParseOptions) -> (r: Result<Tc, Error>)
    ensures
        tc_matches(r, tc_result(message@, classful, *opts)),
{
    let ghost attrs = message@.attrs;
    let tc = TcMessage {
        index: #[verifier::truncate] (message.header.index as u32),
        handle: message.header.handle,
        parent: message.header.parent,
    };
    let mut kind = String::new();
    let mut stats: Option<Stats> = None;
    let mut stats2: Option<Stats2> = None;
    let mut tc_opts: Vec<TcOption> = Vec::new();
    let mut xstats: Vec<u8> = Vec::new();
    let n = message.attrs.len();
    let mut i: usize = 0;
    assert(attrs.subrange(0, n as int) =~= attrs);
    while i < n
        invariant
            n == attrs.len(),
            attrs == attrs_view(message.attrs@),
            message.attrs@.len() == n,
            i <= n,
            opts.fail_on_unknown_attribute ==> first_attr_error(attrs.take(i as int)) is None,
            opts.fail_on_unknown_attribute ==> first_attr_error(attrs) == first_attr_error(
                attrs.subrange(i as int, n as int),
            ),
            kind@ == kind_in(attrs.take(i as int)),
            options_view(tc_opts@) == options_in(attrs.take(i as int)),
            stats == stats_in(attrs.take(i as int)),
            stats2 == stats2_in(attrs.take(i as int)),
            xstats@ == xstats_in(attrs.take(i as int)),
        decreases n - i,
    {
        let ghost pre = attrs.take(i as int);
        let ghost next = attrs.take(i + 1);
        assert(next.drop_last() =~= pre);
        assert(next =~= pre.push(attrs[i as int]));
        assert(attrs.subrange(i as int, n as int).drop_first() =~= attrs.subrange(i + 1, n as int));
        match &message.attrs[i] {
            TcAttr::Kind(k) => {
                kind = k.clone();
            },
            TcAttr::Options(o) => {
                tc_opts = clone_options(o);
            },
            TcAttr::Stats(b) => {
                stats = parse_stats(b.as_slice()).ok();
            },
            TcAttr::Xstats(b) => {
                xstats.extend_from_slice(b.as_slice());
                assert(xstats@ =~= xstats_in(next));
            },
            TcAttr::Stats2(s) => {
                assert(attrs[i as int] == TcAttrView::Stats2(stats2_view(s@)));
                match parse_stats2(s) {
                    Ok(v) => stats2 = Some(v),
                    Err(e) => {
                        if opts.fail_on_unknown_attribute {
                            return Err(e);
                        }
                        stats2 = None;
                    },
                }
            },
            TcAttr::HwOffload(_) => {},
            _ => {
                if opts.fail_on_unknown_attribute {
                    return Err(Error::UnknownAttribute(unread_id(&message.attrs[i])));
                }
            },
        }
        proof {
            if opts.fail_on_unknown_attribute {
                lemma_first_attr_error_push(pre, attrs[i as int]);
            }
        }
        i = i + 1;
    }
    assert(attrs.take(n as int) =~= attrs);
    let mut attribute = Attribute {
        kind,
        stats,
        stats2,
        qdisc: None,
        class: None,
        xstats: None,
    };
    if classful {
        attribute.class = parse_classes(attribute.kind.as_str(), tc_opts, opts)?;
    } else {
        attribute.qdisc = parse_qdiscs(attribute.kind.as_str(), tc_opts, opts)?;
    }
    attribute.xstats = parse_xstats(attribute.kind.as_str(), xstats.as_slice(), opts)?;
    Ok(Tc { msg: tc, attr: attribute })
}

fn unread_id(a: &TcAttr) -> (r: u16)
    ensures
        r == attr_id(a@),
{
    match a {
        TcAttr::Unspec(_) => TCA_UNSPEC,
        TcAttr::Kind(_) => TCA_KIND,
        TcAttr::Options(_) => TCA_OPTIONS,
        TcAttr::Stats(_) => TCA_STATS,
        TcAttr::Xstats(_) => TCA_XSTATS,
        TcAttr::Rate(_) => TCA_RATE,
        TcAttr::Fcnt(_) => TCA_FCNT,
        TcAttr::Stats2(_) => TCA_STATS2,
        TcAttr::Stab(_) => TCA_STAB,
        TcAttr::Pad(_) => TCA_PAD,
        TcAttr::Chain(_) => TCA_CHAIN,
        TcAttr::HwOffload(_) => TCA_HW_OFFLOAD,
    }
}

proof fn lemma_first_attr_error_push(s: Seq<TcAttrView>, a: TcAttrView)
    requires
        first_attr_error(s) is None,
        attr_error(a) is None,
    ensures
        first_attr_error(s.push(a)) is None,
    decreases s.len(),
{
    if s.len() > 0 {
        assert(attr_error(s[0]) is None);
        assert(s.push(a)[0] == s[0]);
        assert(s.push(a).drop_first() =~= s.drop_first().push(a));
        lemma_first_attr_error_push(s.drop_first(), a);
    } else {
        assert(s.push(a).drop_first() =~= Seq::<TcAttrView>::empty());
        assert(first_attr_error(Seq::<TcAttrView>::empty()) is None);
    }
}

/// Where any attribute meets an error, some first one does.
pub proof fn lemma_first_attr_error_some(attrs: Seq<TcAttrView>, i: int)
    requires
        0 <= i < attrs.len(),
        attr_error(attrs[i]) is Some,
    ensures
        first_attr_error(attrs) is Some,
    decreases i,
{
    if attr_error(attrs[0]) is None {
        assert(attrs.drop_first()[i - 1] == attrs[i]);
        lemma_first_attr_error_some(attrs.drop_first(), i - 1);
    }
}

/// Decodes a queueing discipline from one tc message.
pub fn qdiscs(message: TcMsg, opts: &ParseOptions) -> (r: Result<Tc, Error>)
    ensures
        tc_matches(r, tc_result(message@, false, *opts)),
{
    get_qdiscs(message, false, opts)
}

/// Decodes a traffic class from one tc message.
pub fn classes(message: TcMsg, opts: &ParseOptions) -> (r: Result<Tc, Error>)
    ensures
        tc_matches(r, tc_result(message@, true, *opts)),
{
    get_qdiscs(message, true, opts)
}

/// Decodes the blocks of a segmented statistics attribute; any block that
/// does not decode is reported, together with the others that do not.
pub fn parse_stats2(stats2: &Vec<TcStats2>) -> (r: Result<Stats2, Error>)
    ensures
        match r {
            Ok(s) => stats2_fold(stats2_view(stats2@)).1.len() == 0 && s == stats2_fold(
                stats2_view(stats2@),
            ).0,
            Err(e) => stats2_fold(stats2_view(stats2@)).1.len() > 0 && e@ == ErrorView::Stats2(
                stats2_fold(stats2_view(stats2@)).1,
            ),
        },
{
    let mut stats = Stats2 { basic: None, queue: None };
    let mut errors: Vec<u16> = Vec::new();
    let n = stats2.len();
    let mut i: usize = 0;
    while i < n
        invariant
            n == stats2@.len(),
            i <= n,
            (stats, errors@) == stats2_fold(stats2_view(stats2@).take(i as int)),
        decreases n - i,
    {
        assert(stats2_view(stats2@).take(i + 1).drop_last() =~= stats2_view(stats2@).take(i as int));
        match &stats2[i] {
            TcStats2::StatsBasic(b) => match parse_stats_basic(b.as_slice()) {
                Ok(v) => stats.basic = Some(v),
                Err(_) => errors.push(TCA_STATS_BASIC),
            },
            TcStats2::StatsQueue(b) => match parse_stats_queue(b.as_slice()) {
                Ok(v) => stats.queue = Some(v),
                Err(_) => errors.push(TCA_STATS_QUEUE),
            },
            TcStats2::StatsApp(_) => {},
        }
        i = i + 1;
    }
    assert(stats2_view(stats2@).take(n as int) =~= stats2_view(stats2@));
    if errors.len() > 0 {
        Err(Error::Stats2(errors))
    } else {
        Ok(stats)
    }
}

/// Decodes the options of a qdisc of kind `kind`.
pub fn parse_qdiscs(kind: &str, tc_opts: Vec<TcOption>, opts: &ParseOptions) -> (r: Result<
    Option<QDisc>,
    Error,
>)
    ensures
        by_kind(kind@, known_qdisc(kind@), qdisc_of(kind@, options_view(tc_opts@)), *opts, r),
{
    if str_eq(kind, FQ_CODEL) {
        Ok(Some(QDisc::FqCodel(FqCodel::new(tc_opts))))
    } else if str_eq(kind, CLSACT) {
        Ok(Some(QDisc::Clsact(Clsact {})))
    } else if str_eq(kind, HTB) {
        match Htb::new(tc_opts).init {
            Some(g) => Ok(Some(QDisc::Htb(g))),
            None => Ok(None),
        }
    } else if opts.fail_on_unknown_option {
        Err(Error::UnknownKind(kind.to_string()))
    } else {
        Ok(None)
    }
}

/// Decodes the options of a class of kind `kind`.
pub fn parse_classes(kind: &str, tc_opts: Vec<TcOption>, opts: &ParseOptions) -> (r: Result<
    Option<Class>,
    Error,
>)
    ensures
        match r {
            Ok(Some(c)) => known_class(kind@) && Some(c@) == class_of(
                kind@,
                options_view(tc_opts@),
            ),
            Ok(None) => !known_class(kind@) && !opts.fail_on_unknown_option,
            Err(e) => !known_class(kind@) && opts.fail_on_unknown_option && e@
                == ErrorView::UnknownKind(kind@),
        },
{
    if str_eq(kind, HTB) {
        Ok(Some(Class::Htb(Htb::new(tc_opts))))
    } else if opts.fail_on_unknown_option {
        Err(Error::UnknownKind(kind.to_string()))
    } else {
        Ok(None)
    }
}

/// Decodes the extended statistics of a qdisc or class of kind `kind`; a
/// payload that does not decode leaves them absent.
pub fn parse_xstats(kind: &str, bytes: &[u8], opts: &ParseOptions) -> (r: Result<
    Option<XStats>,
    Error,
>)
    ensures
        by_kind(kind@, known_xstats(kind@), xstats_of(kind@, bytes@), *opts, r),
{
    if str_eq(kind, FQ_CODEL) {
        match FqCodelXStats::new(bytes) {
            Ok(x) => Ok(Some(XStats::FqCodel(x))),
            Err(_) => Ok(None),
        }
    } else if str_eq(kind, HTB) {
        match HtbXstats::new(bytes) {
            Ok(x) => Ok(Some(XStats::Htb(x))),
            Err(_) => Ok(None),
        }
    } else if opts.fail_on_unknown_option {
        Err(Error::UnknownKind(kind.to_string()))
    } else {
        Ok(None)
    }
}

} // verus!

verus! {

/// The records of a whole dump, or the first error met decoding it. Link
/// messages carry no record.
pub open spec fn stats_results(msgs: Seq<RtNetlinkMessageView>, opts: ParseOptions) -> Result<
    Seq<TcView>,
    ErrorView,
>
    decreases msgs.len(),
{
    if msgs.len() == 0 {
        Ok(Seq::empty())
    } else {
        match stats_results(msgs.drop_last(), opts) {
            Err(e) => Err(e),
            Ok(v) => match msgs.last() {
                RtNetlinkMessageView::GetQdisc(m) => match tc_result(m, false, opts) {
                    Ok(t) => Ok(v.push(t)),
                    Err(e) => Err(e),
                },
                RtNetlinkMessageView::GetClass(m) => match tc_result(m, true, opts) {
                    Ok(t) => Ok(v.push(t)),
                    Err(e) => Err(e),
                },
                RtNetlinkMessageView::GetLink(_) => Ok(v),
            },
        }
    }
}

pub open spec fn tcs_view(s: Seq<Tc>) -> Seq<TcView> {
    s.map_values(|t: Tc| t@)
}

proof fn lemma_stats_results_err(msgs: Seq<RtNetlinkMessageView>, k: int, opts: ParseOptions)
    requires
        0 <= k <= msgs.len(),
        stats_results(msgs.take(k), opts) is Err,
    ensures
        stats_results(msgs, opts) == stats_results(msgs.take(k), opts),
    decreases msgs.len() - k,
{
    if k < msgs.len() {
        assert(msgs.take(k + 1).drop_last() =~= msgs.take(k));
        lemma_stats_results_err(msgs, k + 1, opts);
    } else {
        assert(msgs.take(k) =~= msgs);
    }
}

/// Decodes every qdisc and class message of a dump, in order.
pub fn tc_stats(messages: Vec<RtNetlinkMessage>, opts: &ParseOptions) -> (r: Result<Vec<Tc>, Error>)
    ensures
        match r {
            Ok(v) => stats_results(messages_view(messages@), *opts) == Ok::<Seq<TcView>, ErrorView>(
                tcs_view(v@),
            ),
            Err(e) => stats_results(messages_view(messages@), *opts) == Err::<Seq<TcView>, ErrorView>(
                e@,
            ),
        },
{
    let ghost msgs = messages_view(messages@);
    let mut tcs: Vec<Tc> = Vec::with_capacity(messages.len());
    for message in iter: messages.into_iter()
        invariant
            iter.seq() == messages@,
            msgs == messages_view(messages@),
            stats_results(msgs.take(iter.index() as int), *opts) is Ok,
            stats_results(msgs.take(iter.index() as int), *opts)->Ok_0.len() == tcs@.len(),
            forall|j: int|
                0 <= j < tcs@.len() ==> #[trigger] tcs@[j]@ == stats_results(
                    msgs.take(iter.index() as int),
                    *opts,
                )->Ok_0[j],
    {
        let ghost k = iter.index() as int;
        assert(msgs.take(k + 1).drop_last() =~= msgs.take(k));
        assert(msgs.take(k + 1).last() == msgs[k]);
        assert(msgs[k] == message@);
        match message {
            RtNetlinkMessage::GetQdisc(m) => match qdiscs(m, opts) {
                Ok(t) => tcs.push(t),
                Err(e) => {
                    proof {
                        lemma_stats_results_err(msgs, k + 1, *opts);
                    }
                    return Err(e);
                },
            },
            RtNetlinkMessage::GetClass(m) => match classes(m, opts) {
                Ok(t) => tcs.push(t),
                Err(e) => {
                    proof {
                        lemma_stats_results_err(msgs, k + 1, *opts);
                    }
                    return Err(e);
                },
            },
            RtNetlinkMessage::GetLink(_) => {},
        }
    }
    assert(msgs.take(msgs.len() as int) =~= msgs);
    assert(tcs_view(tcs@) =~= stats_results(msgs, *opts)->Ok_0);
    Ok(tcs)
}

} // verus!
