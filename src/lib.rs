//! Decoding of the Linux kernel's traffic control (tc) netlink dumps into
//! typed qdiscs, classes, statistics and links.
use vstd::prelude::*;

pub mod bytes;
pub mod constants;
pub mod dump;
pub mod errors;
pub mod fq_codel;
pub mod htb;
pub mod lemmas;
pub mod link;
pub mod reassembly;
pub mod tc;
pub mod types;
pub mod walker;

pub use errors::Error;
pub use types::{LinkMsg, TcMsg};

verus! {

/// A decoded netlink message of a dump.
#[derive(Debug)]
pub enum RtNetlinkMessage {
    /// A qdisc (`RTM_NEWQDISC`).
    GetQdisc(TcMsg),
    /// A class (`RTM_NEWTCLASS`).
    GetClass(TcMsg),
    /// A link (`RTM_NEWLINK`).
    GetLink(LinkMsg),
}

/// An `RtNetlinkMessage` as mathematical values.
pub enum RtNetlinkMessageView {
    GetQdisc(types::TcMsgView),
    GetClass(types::TcMsgView),
    GetLink((u32, Seq<char>)),
}

impl View for RtNetlinkMessage {
    type V = RtNetlinkMessageView;

    open spec fn view(&self) -> RtNetlinkMessageView {
        match self {
            RtNetlinkMessage::GetQdisc(m) => RtNetlinkMessageView::GetQdisc(m@),
            RtNetlinkMessage::GetClass(m) => RtNetlinkMessageView::GetClass(m@),
            RtNetlinkMessage::GetLink(m) => RtNetlinkMessageView::GetLink(m@),
        }
    }
}

pub open spec fn messages_view(s: Seq<RtNetlinkMessage>) -> Seq<RtNetlinkMessageView> {
    s.map_values(|m: RtNetlinkMessage| m@)
}

/// How strictly a dump is decoded: each flag says whether something the
/// decoder does not know fails the whole call or is skipped.
#[derive(Clone, Copy, Debug, PartialEq, Eq)]
pub struct ParseOptions {
    pub fail_on_unknown_netlink_message: bool,
    pub fail_on_unknown_attribute: bool,
    pub fail_on_unknown_option: bool,
}

impl ParseOptions {
    /// Options that fail on anything unknown: a caller that has not opted into
    /// lenience never receives incomplete data.
    pub fn new() -> (r: Self)
        ensures
            r.fail_on_unknown_netlink_message,
            r.fail_on_unknown_attribute,
            r.fail_on_unknown_option,
    {
        ParseOptions {
            fail_on_unknown_netlink_message: true,
            fail_on_unknown_attribute: true,
            fail_on_unknown_option: true,
        }
    }

    /// Whether a netlink message that is neither a qdisc nor a class fails the call.
    pub fn fail_on_unknown_netlink_message(&mut self, fail: bool) -> (r: &mut Self)
        ensures
            *r == (ParseOptions { fail_on_unknown_netlink_message: fail, ..*old(self) }),
            *final(self) == *final(r),
    {
        self.fail_on_unknown_netlink_message = fail;
        self
    }

    /// Whether a tc attribute without a decoder fails the call.
    pub fn fail_on_unknown_attribute(&mut self, fail: bool) -> (r: &mut Self)
        ensures
            *r == (ParseOptions { fail_on_unknown_attribute: fail, ..*old(self) }),
            *final(self) == *final(r),
    {
        self.fail_on_unknown_attribute = fail;
        self
    }

    /// Whether a qdisc or class kind without a codec fails the call.
    pub fn fail_on_unknown_option(&mut self, fail: bool) -> (r: &mut Self)
        ensures
            *r == (ParseOptions { fail_on_unknown_option: fail, ..*old(self) }),
            *final(self) == *final(r),
    {
        self.fail_on_unknown_option = fail;
        self
    }
}

/// The records that a dump decodes to under `opts`, in order, or the first
/// error met: the messages are walked first, then assembled.
pub open spec fn tc_results(msgs: Seq<walker::RawMessage>, opts: ParseOptions) -> Result<
    Seq<types::TcView>,
    errors::ErrorView,
> {
    match walker::parse_results(msgs, opts) {
        Err(e) => Err(e),
        Ok(ms) => tc::stats_results(ms, opts),
    }
}

impl ParseOptions {
    /// Decodes the qdiscs and classes of a dump with these options.
    pub fn tc(&self, messages: Vec<walker::RawMessage>) -> (r: Result<Vec<types::Tc>, Error>)
        ensures
            match r {
                Ok(v) => tc_results(messages@, *self) == Ok::<
                    Seq<types::TcView>,
                    errors::ErrorView,
                >(tc::tcs_view(v@)),
                Err(e) => tc_results(messages@, *self) == Err::<
                    Seq<types::TcView>,
                    errors::ErrorView,
                >(e@),
            },
    {
        match walker::parse(&messages, self) {
            Ok(ms) => tc::tc_stats(ms, self),
            Err(e) => Err(e),
        }
    }
}

impl Default for ParseOptions {
    fn default() -> (r: Self)
        ensures
            r == ParseOptions::new_spec(),
    {
        ParseOptions::new()
    }
}

impl ParseOptions {
    /// The strict options that `new` and `default` make.
    pub open spec fn new_spec() -> ParseOptions {
        ParseOptions {
            fail_on_unknown_netlink_message: true,
            fail_on_unknown_attribute: true,
            fail_on_unknown_option: true,
        }
    }
}

} // verus!
