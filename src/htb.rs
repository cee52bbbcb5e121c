//! The HTB (hierarchy token bucket) qdisc and class codec.
use vstd::prelude::*;

use crate::bytes::{le_u32, le_u64, read_u32, read_u64};
use crate::errors::Error;
use crate::types::{decodes_to, options_view, rate_spec_at, read_rate_spec, RateSpec, TcOption};

verus! {

/// Bytes in `struct tc_htb_opt`.
pub const HTB_OPT_LEN: usize = 44;

/// Bytes in `struct tc_htb_glob`.
pub const HTB_GLOB_LEN: usize = 20;

/// Bytes in `struct tc_htb_xstats`.
pub const HTB_XSTATS_LEN: usize = 20;

/// Parameters of an HTB class, or of an HTB qdisc at creation.
#[derive(Debug)]
pub struct Htb {
    pub parms: Option<HtbOpt>,
    pub init: Option<HtbGlob>,
    pub ctab: Vec<u8>,
    pub rtab: Vec<u8>,
    pub direct_qlen: Option<u32>,
    pub rate64: Option<u64>,
    pub ceil64: Option<u64>,
}

/// An `Htb` as mathematical values.
pub struct HtbView {
    pub parms: Option<HtbOpt>,
    pub init: Option<HtbGlob>,
    pub ctab: Seq<u8>,
    pub rtab: Seq<u8>,
    pub direct_qlen: Option<u32>,
    pub rate64: Option<u64>,
    pub ceil64: Option<u64>,
}

impl View for Htb {
    type V = HtbView;

    open spec fn view(&self) -> HtbView {
        HtbView {
            parms: self.parms,
            init: self.init,
            ctab: self.ctab@,
            rtab: self.rtab@,
            direct_qlen: self.direct_qlen,
            rate64: self.rate64,
            ceil64: self.ceil64,
        }
    }
}

/// Class parameters (`struct tc_htb_opt`).
#[derive(Clone, Copy, Debug, PartialEq, Eq)]
pub struct HtbOpt {
    pub rate: RateSpec,
    pub ceil: RateSpec,
    pub buffer: u32,
    pub cbuffer: u32,
    pub quantum: u32,
    pub level: u32,
    pub prio: u32,
}

/// Qdisc parameters at creation (`struct tc_htb_glob`).
#[derive(Clone, Copy, Debug, PartialEq, Eq)]
pub struct HtbGlob {
    pub version: u32,
    pub rate2quantum: u32,
    pub defcls: u32,
    pub debug: u32,
    pub direct_pkts: u32,
}

/// Extended class statistics (`struct tc_htb_xstats`).
#[derive(Clone, Copy, Debug, PartialEq, Eq)]
pub struct HtbXstats {
    pub lends: u32,
    pub borrows: u32,
    pub giants: u32,
    pub tokens: u32,
    pub ctokens: u32,
}

/// Option ids of HTB (`TCA_HTB_*`).
#[derive(Clone, Copy, Debug, PartialEq, Eq)]
pub enum TcaHtb {
    Unspec,
    Parms,
    Init,
    Ctab,
    Rtab,
    DirectQlen,
    Rate64,
    Ceil64,
    Pad,
    Max,
}

pub open spec fn tca_htb_of(v: u16) -> TcaHtb {
    if v == 0 {
        TcaHtb::Unspec
    } else if v == 1 {
        TcaHtb::Parms
    } else if v == 2 {
        TcaHtb::Init
    } else if v == 3 {
        TcaHtb::Ctab
    } else if v == 4 {
        TcaHtb::Rtab
    } else if v == 5 {
        TcaHtb::DirectQlen
    } else if v == 6 {
        TcaHtb::Rate64
    } else if v == 7 {
        TcaHtb::Ceil64
    } else if v == 8 {
        TcaHtb::Pad
    } else {
        TcaHtb::Max
    }
}

impl From<u16> for TcaHtb {
    fn from(v: u16) -> (r: Self) {
        match v {
            0 => TcaHtb::Unspec,
            1 => TcaHtb::Parms,
            2 => TcaHtb::Init,
            3 => TcaHtb::Ctab,
            4 => TcaHtb::Rtab,
            5 => TcaHtb::DirectQlen,
            6 => TcaHtb::Rate64,
            7 => TcaHtb::Ceil64,
            8 => TcaHtb::Pad,
            _ => TcaHtb::Max,
        }
    }
}

impl vstd::std_specs::convert::FromSpecImpl<u16> for TcaHtb {
    open spec fn obeys_from_spec() -> bool {
        true
    }

    open spec fn from_spec(v: u16) -> TcaHtb {
        tca_htb_of(v)
    }
}

pub open spec fn htb_opt_of(b: Seq<u8>) -> Option<HtbOpt> {
    if b.len() < HTB_OPT_LEN {
        None
    } else {
        Some(
            HtbOpt {
                rate: rate_spec_at(b, 0),
                ceil: rate_spec_at(b, 12),
                buffer: le_u32(b, 24),
                cbuffer: le_u32(b, 28),
                quantum: le_u32(b, 32),
                level: le_u32(b, 36),
                prio: le_u32(b, 40),
            },
        )
    }
}

pub open spec fn htb_glob_of(b: Seq<u8>) -> Option<HtbGlob> {
    if b.len() < HTB_GLOB_LEN {
        None
    } else {
        Some(
            HtbGlob {
                version: le_u32(b, 0),
                rate2quantum: le_u32(b, 4),
                defcls: le_u32(b, 8),
                debug: le_u32(b, 12),
                direct_pkts: le_u32(b, 16),
            },
        )
    }
}

pub open spec fn htb_xstats_of(b: Seq<u8>) -> Option<HtbXstats> {
    if b.len() < HTB_XSTATS_LEN {
        None
    } else {
        Some(
            HtbXstats {
                lends: le_u32(b, 0),
                borrows: le_u32(b, 4),
                giants: le_u32(b, 8),
                tokens: le_u32(b, 12),
                ctokens: le_u32(b, 16),
            },
        )
    }
}

/// The leading `u32` of `b`, where `b` holds one.
pub open spec fn u32_option(b: Seq<u8>) -> Option<u32> {
    if b.len() < 4 {
        None
    } else {
        Some(le_u32(b, 0))
    }
}

/// The leading `u64` of `b`, where `b` holds one.
pub open spec fn u64_option(b: Seq<u8>) -> Option<u64> {
    if b.len() < 8 {
        None
    } else {
        Some(le_u64(b, 0))
    }
}

/// HTB parameters before any option is read.
pub open spec fn htb_empty() -> HtbView {
    HtbView {
        parms: None,
        init: None,
        ctab: Seq::empty(),
        rtab: Seq::empty(),
        direct_qlen: None,
        rate64: None,
        ceil64: None,
    }
}

/// `h` after reading the option `kind` with payload `b`: each id sets its own
/// field, a later option replacing an earlier one, and unknown ids change nothing.
pub open spec fn htb_step(h: HtbView, kind: u16, b: Seq<u8>) -> HtbView {
    match tca_htb_of(kind) {
        TcaHtb::Parms => HtbView { parms: htb_opt_of(b), ..h },
        TcaHtb::Init => HtbView { init: htb_glob_of(b), ..h },
        TcaHtb::Ctab => HtbView { ctab: b, ..h },
        TcaHtb::Rtab => HtbView { rtab: b, ..h },
        TcaHtb::DirectQlen => HtbView { direct_qlen: u32_option(b), ..h },
        TcaHtb::Rate64 => HtbView { rate64: u64_option(b), ..h },
        TcaHtb::Ceil64 => HtbView { ceil64: u64_option(b), ..h },
        _ => h,
    }
}

/// The HTB parameters that the options `opts` describe, read in order.
pub open spec fn htb_of(opts: Seq<(u16, Seq<u8>)>) -> HtbView
    decreases opts.len(),
{
    if opts.len() == 0 {
        htb_empty()
    } else {
        htb_step(htb_of(opts.drop_last()), opts.last().0, opts.last().1)
    }
}

impl Htb {
    /// Decodes the options of an HTB qdisc or class.
    pub fn new(opts: Vec<TcOption>) -> (r: Self)
        ensures
            r@ == htb_of(options_view(opts@)),
    {
        unmarshal_htb(opts)
    }
}

impl HtbXstats {
    /// Decodes the extended statistics of an HTB class.
    pub fn new(bytes: &[u8]) -> (r: Result<Self, Error>)
        ensures
            decodes_to(r, htb_xstats_of(bytes@), HTB_XSTATS_LEN, bytes@.len()),
    {
        unmarshal_htb_xstats(bytes)
    }
}

fn unmarshal_htb(opts: Vec<TcOption>) -> (r: Htb)
    ensures
        r@ == htb_of(options_view(opts@)),
{
    let mut htb = Htb {
        parms: None,
        init: None,
        ctab: Vec::new(),
        rtab: Vec::new(),
        direct_qlen: None,
        rate64: None,
        ceil64: None,
    };
    let n = opts.len();
    let mut i: usize = 0;
    while i < n
        invariant
            n == opts@.len(),
            i <= n,
            htb@ == htb_of(options_view(opts@).take(i as int)),
        decreases n - i,
    {
        let opt = &opts[i];
        let b = opt.bytes.as_slice();
        match TcaHtb::from(opt.kind) {
            TcaHtb::Parms => htb.parms = unmarshal_htb_opt(b).ok(),
            TcaHtb::Init => htb.init = unmarshal_htb_glob(b).ok(),
            TcaHtb::Ctab => htb.ctab = opt.bytes.clone(),
            TcaHtb::Rtab => htb.rtab = opt.bytes.clone(),
            TcaHtb::DirectQlen => {
                htb.direct_qlen = if b.len() < 4 {
                    None
                } else {
                    Some(read_u32(b, 0))
                };
            },
            TcaHtb::Rate64 => {
                htb.rate64 = if b.len() < 8 {
                    None
                } else {
                    Some(read_u64(b, 0))
                };
            },
            TcaHtb::Ceil64 => {
                htb.ceil64 = if b.len() < 8 {
                    None
                } else {
                    Some(read_u64(b, 0))
                };
            },
            _ => {},
        }
        assert(options_view(opts@).take(i + 1).drop_last() =~= options_view(opts@).take(i as int));
        i = i + 1;
    }
    assert(options_view(opts@).take(n as int) =~= options_view(opts@));
    htb
}

fn unmarshal_htb_opt(bytes: &[u8]) -> (r: Result<HtbOpt, Error>)
    ensures
        decodes_to(r, htb_opt_of(bytes@), HTB_OPT_LEN, bytes@.len()),
{
    let len = bytes.len();
    if len < HTB_OPT_LEN {
        return Err(Error::UnmarshalStruct(HTB_OPT_LEN, len));
    }
    Ok(
        HtbOpt {
            rate: read_rate_spec(bytes, 0),
            ceil: read_rate_spec(bytes, 12),
            buffer: read_u32(bytes, 24),
            cbuffer: read_u32(bytes, 28),
            quantum: read_u32(bytes, 32),
            level: read_u32(bytes, 36),
            prio: read_u32(bytes, 40),
        },
    )
}

fn unmarshal_htb_glob(bytes: &[u8]) -> (r: Result<HtbGlob, Error>)
    ensures
        decodes_to(r, htb_glob_of(bytes@), HTB_GLOB_LEN, bytes@.len()),
{
    let len = bytes.len();
    if len < HTB_GLOB_LEN {
        return Err(Error::UnmarshalStruct(HTB_GLOB_LEN, len));
    }
    Ok(
        HtbGlob {
            version: read_u32(bytes, 0),
            rate2quantum: read_u32(bytes, 4),
            defcls: read_u32(bytes, 8),
            debug: read_u32(bytes, 12),
            direct_pkts: read_u32(bytes, 16),
        },
    )
}

fn unmarshal_htb_xstats(bytes: &[u8]) -> (r: Result<HtbXstats, Error>)
    ensures
        decodes_to(r, htb_xstats_of(bytes@), HTB_XSTATS_LEN, bytes@.len()),
{
    let len = bytes.len();
    if len < HTB_XSTATS_LEN {
        return Err(Error::UnmarshalStruct(HTB_XSTATS_LEN, len));
    }
    Ok(
        HtbXstats {
            lends: read_u32(bytes, 0),
            borrows: read_u32(bytes, 4),
            giants: read_u32(bytes, 8),
            tokens: read_u32(bytes, 12),
            ctokens: read_u32(bytes, 16),
        },
    )
}

} // verus!
