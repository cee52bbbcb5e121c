//! Laws of the decoder, stated over the models its functions are specified by.
use vstd::prelude::*;

use crate::bytes::{le_u32, le_u64};
use crate::constants::{
    FQ_CODEL, HTB, TCA_CHAIN, TCA_FCNT, TCA_HW_OFFLOAD, TCA_KIND, TCA_OPTIONS, TCA_RATE, TCA_STAB,
    TCA_STATS, TCA_STATS2, TCA_XSTATS,
};
use crate::errors::{Error, ErrorView};
use crate::fq_codel::FQ_CODEL_XSTATS_LEN;
use crate::htb::{htb_of, HtbOpt, HTB_OPT_LEN};
use crate::link::first_named;
use crate::tc::{
    assembled, attr_error, class_of, first_attr_error, kind_in, lemma_first_attr_error_some,
    options_in, stats2_fold, stats2_in, stats_in, stats_results, tc_matches, tc_result, xstats_in,
    xstats_of,
};
use crate::types::{rate_spec_at, ClassView, StatsBasic, Tc, TcAttrView, TcMsgView, TcView};
use crate::walker::{nla_step, NlaStep};
use crate::{ParseOptions, RtNetlinkMessageView};

verus! {

/// HTB class options whose parameters option holds a whole `tc_htb_opt`
/// decode to exactly the fields stored at that structure's offsets.
pub proof fn lemma_htb_parms_at_offsets(b: Seq<u8>)
    requires
        b.len() >= HTB_OPT_LEN,
    ensures
        htb_of(seq![(1u16, b)]).parms == Some(
            HtbOpt {
                rate: rate_spec_at(b, 0),
                ceil: rate_spec_at(b, 12),
                buffer: le_u32(b, 24),
                cbuffer: le_u32(b, 28),
                quantum: le_u32(b, 32),
                level: le_u32(b, 36),
                prio: le_u32(b, 40),
            },
        ),
        class_of(HTB@, seq![(1u16, b)]) == Some(ClassView::Htb(htb_of(seq![(1u16, b)]))),
{
    assert(seq![(1u16, b)].drop_last() =~= Seq::<(u16, Seq<u8>)>::empty());
}

/// FQ_CODEL extended statistics whose leading `u32` is not zero are never
/// decoded: a record of that kind carries no extended statistics then.
pub proof fn lemma_fq_codel_xstats_tag(b: Seq<u8>)
    requires
        b.len() < FQ_CODEL_XSTATS_LEN || le_u32(b, 0) != 0,
    ensures
        xstats_of(FQ_CODEL@, b) is None,
{
}

/// Decoding is a function of the message and the options: two decodings of
/// the same message under the same options give equal records, or equal errors.
pub proof fn lemma_decode_deterministic(
    m: TcMsgView,
    classful: bool,
    opts: ParseOptions,
    r1: Result<Tc, Error>,
    r2: Result<Tc, Error>,
)
    requires
        tc_matches(r1, tc_result(m, classful, opts)),
        tc_matches(r2, tc_result(m, classful, opts)),
    ensures
        match (r1, r2) {
            (Ok(a), Ok(b)) => a@ == b@,
            (Err(a), Err(b)) => a@ == b@,
            _ => false,
        },
{
}

/// A message with an attribute that the assembler does not know fails to
/// decode where the options fail on unknown attributes, with the error of
/// the first attribute that meets one; where the options fail on nothing it
/// decodes to a record.
pub proof fn lemma_unknown_attribute_policy(
    m: TcMsgView,
    classful: bool,
    opts: ParseOptions,
    i: int,
)
    requires
        0 <= i < m.attrs.len(),
        !assembled(m.attrs[i]),
    ensures
        first_attr_error(m.attrs) is Some,
        opts.fail_on_unknown_attribute ==> tc_result(m, classful, opts) == Err::<TcView, ErrorView>(
            first_attr_error(m.attrs)->0,
        ),
        !opts.fail_on_unknown_attribute && !opts.fail_on_unknown_option ==> tc_result(
            m,
            classful,
            opts,
        ) is Ok,
{
    lemma_first_attr_error_some(m.attrs, i);
}

/// The attributes of `attrs` that the assembler reads, in order.
pub open spec fn read_attrs(attrs: Seq<TcAttrView>) -> Seq<TcAttrView> {
    attrs.filter(|a: TcAttrView| assembled(a))
}

proof fn lemma_folds_ignore_unread(attrs: Seq<TcAttrView>)
    ensures
        kind_in(read_attrs(attrs)) == kind_in(attrs),
        options_in(read_attrs(attrs)) == options_in(attrs),
        stats_in(read_attrs(attrs)) == stats_in(attrs),
        stats2_in(read_attrs(attrs)) == stats2_in(attrs),
        xstats_in(read_attrs(attrs)) == xstats_in(attrs),
    decreases attrs.len(),
{
    reveal(Seq::filter);
    if attrs.len() > 0 {
        lemma_folds_ignore_unread(attrs.drop_last());
        let pre = read_attrs(attrs.drop_last());
        if assembled(attrs.last()) {
            assert(read_attrs(attrs) == pre.push(attrs.last()));
            assert(pre.push(attrs.last()).drop_last() =~= pre);
        } else {
            assert(read_attrs(attrs) == pre);
        }
    }
}

/// Where the options do not fail on unknown attributes, a message decodes
/// exactly as the same message without the attributes that the assembler
/// does not read: those attributes leave no trace in the record.
pub proof fn lemma_unknown_attributes_ignored(m: TcMsgView, classful: bool, opts: ParseOptions)
    requires
        !opts.fail_on_unknown_attribute,
    ensures
        tc_result(m, classful, opts) == tc_result(
            TcMsgView { header: m.header, attrs: read_attrs(m.attrs) },
            classful,
            opts,
        ),
{
    lemma_folds_ignore_unread(m.attrs);
}

/// The top-level attribute types that the walker decodes.
pub open spec fn walked_kind(kind: u16) -> bool {
    kind == TCA_KIND || kind == TCA_OPTIONS || kind == TCA_STATS || kind == TCA_XSTATS || kind
        == TCA_RATE || kind == TCA_FCNT || kind == TCA_STATS2 || kind == TCA_STAB || kind
        == TCA_CHAIN || kind == TCA_HW_OFFLOAD
}

/// The walker fails on an attribute of a type it does not decode, naming
/// that type, where the options fail on unknown attributes, and otherwise
/// drops the attribute, whatever its payload.
pub proof fn lemma_unknown_nla_policy(kind: u16, v: Seq<u8>, opts: ParseOptions)
    requires
        !walked_kind(kind),
    ensures
        opts.fail_on_unknown_attribute ==> nla_step(kind, v, opts) == NlaStep::Fail(
            ErrorView::UnknownAttribute(kind),
        ),
        !opts.fail_on_unknown_attribute ==> nla_step(kind, v, opts) == NlaStep::Skip,
{
}

proof fn lemma_no_attr_error(attrs: Seq<TcAttrView>)
    requires
        forall|i: int| 0 <= i < attrs.len() ==> (#[trigger] attr_error(attrs[i])) is None,
    ensures
        first_attr_error(attrs) is None,
    decreases attrs.len(),
{
    if attrs.len() > 0 {
        assert forall|i: int| 0 <= i < attrs.drop_first().len() implies (#[trigger] attr_error(
            attrs.drop_first()[i],
        )) is None by {
            assert(attrs.drop_first()[i] == attrs[i + 1]);
        }
        lemma_no_attr_error(attrs.drop_first());
    }
}

proof fn lemma_last_basic(s: Seq<(u16, Seq<u8>)>, k: int, j: int)
    requires
        0 <= k < j <= s.len(),
        s[k].0 == 1,
        s[k].1.len() >= 12,
        forall|t: int| k < t < s.len() ==> (#[trigger] s[t]).0 != 1,
    ensures
        stats2_fold(s.take(j)).0.basic == Some(
            StatsBasic { bytes: le_u64(s[k].1, 0), packets: le_u32(s[k].1, 8) },
        ),
    decreases j,
{
    assert(s.take(j).drop_last() =~= s.take(j - 1));
    assert(s.take(j).last() == s[j - 1]);
    if j - 1 > k {
        lemma_last_basic(s, k, j - 1);
    }
}

/// A qdisc message of kind FQ_CODEL whose attributes are all known and
/// decode, and whose last attribute is segmented statistics in which the
/// last basic block starts with the little-endian bytes of `x`, decodes to a
/// record whose basic byte counter is `x`, under any options.
pub proof fn lemma_basic_bytes_decoded(
    m: TcMsgView,
    opts: ParseOptions,
    s: Seq<(u16, Seq<u8>)>,
    k: int,
    x: u64,
)
    requires
        m.attrs.len() > 0,
        kind_in(m.attrs) == FQ_CODEL@,
        m.attrs.last() == TcAttrView::Stats2(s),
        forall|i: int| 0 <= i < m.attrs.len() ==> (#[trigger] attr_error(m.attrs[i])) is None,
        0 <= k < s.len(),
        s[k].0 == 1,
        s[k].1.len() >= 12,
        le_u64(s[k].1, 0) == x,
        forall|t: int| k < t < s.len() ==> (#[trigger] s[t]).0 != 1,
    ensures
        tc_result(m, false, opts) is Ok,
        tc_result(m, false, opts)->Ok_0.attr.stats2 is Some,
        tc_result(m, false, opts)->Ok_0.attr.stats2->0.basic is Some,
        tc_result(m, false, opts)->Ok_0.attr.stats2->0.basic->0.bytes == x,
{
    lemma_no_attr_error(m.attrs);
    assert(attr_error(m.attrs[m.attrs.len() - 1]) is None);
    lemma_last_basic(s, k, s.len() as int);
    assert(s.take(s.len() as int) =~= s);
}

/// A link dump with one link, and a class dump for its index holding one
/// HTB class whose attributes are all known and decode: the name resolves to
/// that link, and the class dump decodes to exactly one record, the class,
/// with its interface index and handle.
pub proof fn lemma_class_of_named_link(
    link: (u32, Seq<char>),
    m: TcMsgView,
    opts: ParseOptions,
)
    requires
        m.header.index as u32 == link.0,
        kind_in(m.attrs) == HTB@,
        forall|i: int| 0 <= i < m.attrs.len() ==> (#[trigger] attr_error(m.attrs[i])) is None,
    ensures
        first_named(seq![link], link.1) == Some(0int),
        stats_results(seq![RtNetlinkMessageView::GetClass(m)], opts) is Ok,
        stats_results(seq![RtNetlinkMessageView::GetClass(m)], opts)->Ok_0.len() == 1,
        stats_results(seq![RtNetlinkMessageView::GetClass(m)], opts)->Ok_0[0].msg.index == link.0,
        stats_results(seq![RtNetlinkMessageView::GetClass(m)], opts)->Ok_0[0].msg.handle
            == m.header.handle,
        stats_results(seq![RtNetlinkMessageView::GetClass(m)], opts)->Ok_0[0].attr.kind == HTB@,
        stats_results(seq![RtNetlinkMessageView::GetClass(m)], opts)->Ok_0[0].attr.class
            == Some(ClassView::Htb(htb_of(options_in(m.attrs)))),
{
    lemma_no_attr_error(m.attrs);
    let one = seq![RtNetlinkMessageView::GetClass(m)];
    assert(one.drop_last() =~= Seq::<RtNetlinkMessageView>::empty());
    assert(one.last() == RtNetlinkMessageView::GetClass(m));
    assert(stats_results(Seq::<RtNetlinkMessageView>::empty(), opts) == Ok::<
        Seq<TcView>,
        ErrorView,
    >(Seq::empty()));
    assert(tc_result(m, true, opts) is Ok);
    assert(Seq::<TcView>::empty().push(tc_result(m, true, opts)->Ok_0)[0] == tc_result(
        m,
        true,
        opts,
    )->Ok_0);
}

} // verus!
