//! The decoded form of tc messages, and the kernel structures they carry.
use vstd::prelude::*;

use crate::bytes::{le_u16, le_u32, le_u64, read_u16, read_u32, read_u64, read_u8};
use crate::errors::{Error, ErrorView};
use crate::fq_codel::{FqCodel, FqCodelXStats};
use crate::htb::{Htb, HtbGlob, HtbView, HtbXstats};

verus! {

/// Bytes in `struct tc_stats` as the kernel emits it.
pub const STATS_LEN: usize = 36;

/// Bytes read from `struct gnet_stats_basic` (its trailing padding is not read).
pub const STATS_BASIC_LEN: usize = 12;

/// Bytes in `struct gnet_stats_queue`.
pub const STATS_QUEUE_LEN: usize = 20;

/// Bytes in `struct tc_ratespec`.
pub const RATE_SPEC_LEN: usize = 12;

/// Whether `r` is what decoding a fixed-size structure of `size` bytes from a
/// payload of `len` bytes gives, where `expected` is the decoded structure, or
/// `None` where the payload is too short.
pub open spec fn decodes_to<T>(r: Result<T, Error>, expected: Option<T>, size: usize, len: nat) -> bool {
    match expected {
        Some(v) => r == Ok::<T, Error>(v),
        None => match r {
            Ok(_) => false,
            Err(e) => e@ == ErrorView::UnmarshalStruct(size, len as usize),
        },
    }
}

/// Header of a tc message: which interface, which object, which parent.
#[derive(Clone, Copy, Debug, PartialEq, Eq)]
pub struct TcHeader {
    pub index: i32,
    pub handle: u32,
    pub parent: u32,
}

/// One tc message, its attributes split but not yet interpreted.
#[derive(Debug)]
pub struct TcMsg {
    pub header: TcHeader,
    pub attrs: Vec<TcAttr>,
}

/// A top-level attribute of a tc message.
#[derive(Debug)]
pub enum TcAttr {
    Unspec(Vec<u8>),
    Kind(String),
    Options(Vec<TcOption>),
    Stats(Vec<u8>),
    Xstats(Vec<u8>),
    Rate(Vec<u8>),
    Fcnt(Vec<u8>),
    Stats2(Vec<TcStats2>),
    Stab(Vec<u8>),
    Pad(Vec<u8>),
    Chain(Vec<u8>),
    HwOffload(u8),
}

/// An attribute as the attribute splitter yields it: its type id and raw
/// payload. The options of a qdisc or class are such pairs, their ids
/// meaningful only together with the kind.
#[derive(Clone, Debug)]
pub struct TcOption {
    pub kind: u16,
    pub bytes: Vec<u8>,
}

impl View for TcOption {
    type V = (u16, Seq<u8>);

    open spec fn view(&self) -> (u16, Seq<u8>) {
        (self.kind, self.bytes@)
    }
}

/// The options of a list, as (id, payload) pairs.
pub open spec fn options_view(opts: Seq<TcOption>) -> Seq<(u16, Seq<u8>)> {
    opts.map_values(|o: TcOption| o@)
}

/// A block of the segmented statistics attribute.
#[derive(Debug)]
pub enum TcStats2 {
    StatsBasic(Vec<u8>),
    StatsQueue(Vec<u8>),
    StatsApp(Vec<u8>),
}

/// A `TcAttr` as mathematical values.
pub enum TcAttrView {
    Unspec(Seq<u8>),
    Kind(Seq<char>),
    Options(Seq<(u16, Seq<u8>)>),
    Stats(Seq<u8>),
    Xstats(Seq<u8>),
    Rate(Seq<u8>),
    Fcnt(Seq<u8>),
    Stats2(Seq<(u16, Seq<u8>)>),
    Stab(Seq<u8>),
    Pad(Seq<u8>),
    Chain(Seq<u8>),
    HwOffload(u8),
}

impl View for TcStats2 {
    /// The block's type id (`TCA_STATS_*`) and payload.
    type V = (u16, Seq<u8>);

    open spec fn view(&self) -> (u16, Seq<u8>) {
        match self {
            TcStats2::StatsBasic(b) => (1u16, b@),
            TcStats2::StatsQueue(b) => (3u16, b@),
            TcStats2::StatsApp(b) => (4u16, b@),
        }
    }
}

pub open spec fn stats2_view(s: Seq<TcStats2>) -> Seq<(u16, Seq<u8>)> {
    s.map_values(|b: TcStats2| b@)
}

impl View for TcAttr {
    type V = TcAttrView;

    open spec fn view(&self) -> TcAttrView {
        match self {
            TcAttr::Unspec(b) => TcAttrView::Unspec(b@),
            TcAttr::Kind(k) => TcAttrView::Kind(k@),
            TcAttr::Options(o) => TcAttrView::Options(options_view(o@)),
            TcAttr::Stats(b) => TcAttrView::Stats(b@),
            TcAttr::Xstats(b) => TcAttrView::Xstats(b@),
            TcAttr::Rate(b) => TcAttrView::Rate(b@),
            TcAttr::Fcnt(b) => TcAttrView::Fcnt(b@),
            TcAttr::Stats2(s) => TcAttrView::Stats2(stats2_view(s@)),
            TcAttr::Stab(b) => TcAttrView::Stab(b@),
            TcAttr::Pad(b) => TcAttrView::Pad(b@),
            TcAttr::Chain(b) => TcAttrView::Chain(b@),
            TcAttr::HwOffload(v) => TcAttrView::HwOffload(*v),
        }
    }
}

pub open spec fn attrs_view(a: Seq<TcAttr>) -> Seq<TcAttrView> {
    a.map_values(|x: TcAttr| x@)
}

/// A `TcMsg` as mathematical values.
pub struct TcMsgView {
    pub header: TcHeader,
    pub attrs: Seq<TcAttrView>,
}

impl View for TcMsg {
    type V = TcMsgView;

    open spec fn view(&self) -> TcMsgView {
        TcMsgView { header: self.header, attrs: attrs_view(self.attrs@) }
    }
}

/// Header of a link message.
#[derive(Debug)]
pub struct LinkHeader {
    pub index: u32,
}

/// The link attributes this library reads.
#[derive(Debug)]
pub struct LinkAttr {
    pub name: String,
}

/// One link message.
#[derive(Debug)]
pub struct LinkMsg {
    pub header: LinkHeader,
    pub attr: LinkAttr,
}

impl View for LinkMsg {
    /// The interface index and name.
    type V = (u32, Seq<char>);

    open spec fn view(&self) -> (u32, Seq<char>) {
        (self.header.index, self.attr.name@)
    }
}

/// A network interface: its index and name.
#[derive(Debug)]
pub struct Link {
    pub index: u32,
    pub name: String,
}

/// Legacy combined counters (`struct tc_stats`).
#[derive(Clone, Copy, Debug, PartialEq, Eq)]
pub struct Stats {
    pub bytes: u64,
    pub packets: u32,
    pub drops: u32,
    pub overlimits: u32,
    pub bps: u32,
    pub pps: u32,
    pub qlen: u32,
    pub backlog: u32,
}

/// Basic counters (`struct gnet_stats_basic`).
#[derive(Clone, Copy, Debug, PartialEq, Eq)]
pub struct StatsBasic {
    pub bytes: u64,
    pub packets: u32,
}

/// Queue counters (`struct gnet_stats_queue`).
#[derive(Clone, Copy, Debug, PartialEq, Eq)]
pub struct StatsQueue {
    pub qlen: u32,
    pub backlog: u32,
    pub drops: u32,
    pub requeues: u32,
    pub overlimits: u32,
}

/// Segmented statistics; each block is present only where it was decoded.
#[derive(Clone, Copy, Debug, PartialEq, Eq)]
pub struct Stats2 {
    pub basic: Option<StatsBasic>,
    pub queue: Option<StatsQueue>,
}

/// Rate parameters (`struct tc_ratespec`).
#[derive(Clone, Copy, Debug, PartialEq, Eq)]
pub struct RateSpec {
    pub cell_log: u8,
    pub linklayer: u8,
    pub overhead: u16,
    pub cell_align: u16,
    pub mpu: u16,
    pub rate: u32,
}

/// The CLSACT qdisc, which has no parameters.
#[derive(Clone, Copy, Debug, PartialEq, Eq)]
pub struct Clsact {}

/// Decoded parameters of a qdisc, by kind.
#[derive(Clone, Copy, Debug, PartialEq, Eq)]
pub enum QDisc {
    FqCodel(FqCodel),
    Clsact(Clsact),
    Htb(HtbGlob),
}

/// Decoded parameters of a class, by kind.
#[derive(Debug)]
pub enum Class {
    Htb(Htb),
}

/// A `Class` as mathematical values.
pub enum ClassView {
    Htb(HtbView),
}

impl View for Class {
    type V = ClassView;

    open spec fn view(&self) -> ClassView {
        match self {
            Class::Htb(h) => ClassView::Htb(h@),
        }
    }
}

/// Decoded extended statistics, by kind.
#[derive(Clone, Copy, Debug, PartialEq, Eq)]
pub enum XStats {
    FqCodel(FqCodelXStats),
    Htb(HtbXstats),
}

/// Where a qdisc or class sits: interface index, handle and parent
/// (`0xFFFF_FFFF` for the root).
#[derive(Clone, Copy, Debug, PartialEq, Eq)]
pub struct TcMessage {
    pub index: u32,
    pub handle: u32,
    pub parent: u32,
}

/// The decoded attributes of a qdisc or class.
#[derive(Debug)]
pub struct Attribute {
    pub kind: String,
    pub stats: Option<Stats>,
    pub stats2: Option<Stats2>,
    pub qdisc: Option<QDisc>,
    pub class: Option<Class>,
    pub xstats: Option<XStats>,
}

/// An `Attribute` as mathematical values.
pub struct AttributeView {
    pub kind: Seq<char>,
    pub stats: Option<Stats>,
    pub stats2: Option<Stats2>,
    pub qdisc: Option<QDisc>,
    pub class: Option<ClassView>,
    pub xstats: Option<XStats>,
}

pub open spec fn class_option_view(c: Option<Class>) -> Option<ClassView> {
    match c {
        Some(c) => Some(c@),
        None => None,
    }
}

impl View for Attribute {
    type V = AttributeView;

    open spec fn view(&self) -> AttributeView {
        AttributeView {
            kind: self.kind@,
            stats: self.stats,
            stats2: self.stats2,
            qdisc: self.qdisc,
            class: class_option_view(self.class),
            xstats: self.xstats,
        }
    }
}

/// One decoded qdisc or class.
#[derive(Debug)]
pub struct Tc {
    pub msg: TcMessage,
    pub attr: Attribute,
}

/// A `Tc` as mathematical values.
pub struct TcView {
    pub msg: TcMessage,
    pub attr: AttributeView,
}

impl View for Tc {
    type V = TcView;

    open spec fn view(&self) -> TcView {
        TcView { msg: self.msg, attr: self.attr@ }
    }
}

pub open spec fn stats_of(b: Seq<u8>) -> Option<Stats> {
    if b.len() < STATS_LEN {
        None
    } else {
        Some(
            Stats {
                bytes: le_u64(b, 0),
                packets: le_u32(b, 8),
                drops: le_u32(b, 12),
                overlimits: le_u32(b, 16),
                bps: le_u32(b, 20),
                pps: le_u32(b, 24),
                qlen: le_u32(b, 28),
                backlog: le_u32(b, 32),
            },
        )
    }
}

pub open spec fn stats_basic_of(b: Seq<u8>) -> Option<StatsBasic> {
    if b.len() < STATS_BASIC_LEN {
        None
    } else {
        Some(StatsBasic { bytes: le_u64(b, 0), packets: le_u32(b, 8) })
    }
}

pub open spec fn stats_queue_of(b: Seq<u8>) -> Option<StatsQueue> {
    if b.len() < STATS_QUEUE_LEN {
        None
    } else {
        Some(
            StatsQueue {
                qlen: le_u32(b, 0),
                backlog: le_u32(b, 4),
                drops: le_u32(b, 8),
                requeues: le_u32(b, 12),
                overlimits: le_u32(b, 16),
            },
        )
    }
}

/// The rate specification stored at `off` in `b`.
pub open spec fn rate_spec_at(b: Seq<u8>, off: int) -> RateSpec {
    RateSpec {
        cell_log: b[off],
        linklayer: b[off + 1],
        overhead: le_u16(b, off + 2),
        cell_align: le_u16(b, off + 4),
        mpu: le_u16(b, off + 6),
        rate: le_u32(b, off + 8),
    }
}

pub open spec fn rate_spec_of(b: Seq<u8>) -> Option<RateSpec> {
    if b.len() < RATE_SPEC_LEN {
        None
    } else {
        Some(rate_spec_at(b, 0))
    }
}

/// Decodes `struct tc_stats`.
pub fn parse_stats(bytes: &[u8]) -> (r: Result<Stats, Error>)
    ensures
        decodes_to(r, stats_of(bytes@), STATS_LEN, bytes@.len()),
{
    let len = bytes.len();
    if len < STATS_LEN {
        return Err(Error::UnmarshalStruct(STATS_LEN, len));
    }
    Ok(
        Stats {
            bytes: read_u64(bytes, 0),
            packets: read_u32(bytes, 8),
            drops: read_u32(bytes, 12),
            overlimits: read_u32(bytes, 16),
            bps: read_u32(bytes, 20),
            pps: read_u32(bytes, 24),
            qlen: read_u32(bytes, 28),
            backlog: read_u32(bytes, 32),
        },
    )
}

/// Decodes `struct gnet_stats_basic`.
pub fn parse_stats_basic(bytes: &[u8]) -> (r: Result<StatsBasic, Error>)
    ensures
        decodes_to(r, stats_basic_of(bytes@), STATS_BASIC_LEN, bytes@.len()),
{
    let len = bytes.len();
    if len < STATS_BASIC_LEN {
        return Err(Error::UnmarshalStruct(STATS_BASIC_LEN, len));
    }
    Ok(StatsBasic { bytes: read_u64(bytes, 0), packets: read_u32(bytes, 8) })
}

/// Decodes `struct gnet_stats_queue`.
pub fn parse_stats_queue(bytes: &[u8]) -> (r: Result<StatsQueue, Error>)
    ensures
        decodes_to(r, stats_queue_of(bytes@), STATS_QUEUE_LEN, bytes@.len()),
{
    let len = bytes.len();
    if len < STATS_QUEUE_LEN {
        return Err(Error::UnmarshalStruct(STATS_QUEUE_LEN, len));
    }
    Ok(
        StatsQueue {
            qlen: read_u32(bytes, 0),
            backlog: read_u32(bytes, 4),
            drops: read_u32(bytes, 8),
            requeues: read_u32(bytes, 12),
            overlimits: read_u32(bytes, 16),
        },
    )
}

/// Reads the rate specification at `off`.
pub fn read_rate_spec(b: &[u8], off: usize) -> (r: RateSpec)
    requires
        off + RATE_SPEC_LEN <= b@.len(),
    ensures
        r == rate_spec_at(b@, off as int),
{
    // the slice's length bounds `off + 12`, so the offsets below do not overflow
    let len = b.len();
    RateSpec {
        cell_log: read_u8(b, off),
        linklayer: read_u8(b, off + 1),
        overhead: read_u16(b, off + 2),
        cell_align: read_u16(b, off + 4),
        mpu: read_u16(b, off + 6),
        rate: read_u32(b, off + 8),
    }
}

/// Decodes `struct tc_ratespec`.
pub fn unmarshal_rate_spec(buf: &[u8]) -> (r: Result<RateSpec, Error>)
    ensures
        decodes_to(r, rate_spec_of(buf@), RATE_SPEC_LEN, buf@.len()),
{
    let len = buf.len();
    if len < RATE_SPEC_LEN {
        return Err(Error::UnmarshalStruct(RATE_SPEC_LEN, len));
    }
    Ok(read_rate_spec(buf, 0))
}

} // verus!
