//! The FQ_CODEL (fair queuing controlled delay) qdisc codec.
use vstd::prelude::*;

use crate::bytes::{le_u32, read_u32};
use crate::errors::{Error, ErrorView};
use crate::types::{options_view, TcOption};

verus! {

/// Bytes in `struct tc_fq_codel_xstats` when it holds qdisc statistics:
/// a `u32` layout tag, then nine `u32` counters.
pub const FQ_CODEL_XSTATS_LEN: usize = 40;

/// Parameters of an FQ_CODEL qdisc; an option the kernel did not send stays 0.
#[derive(Clone, Copy, Debug, PartialEq, Eq)]
pub struct FqCodel {
    pub target: u32,
    pub limit: u32,
    pub interval: u32,
    pub ecn: u32,
    pub flows: u32,
    pub quantum: u32,
    pub ce_threshold: u32,
    pub drop_batch_size: u32,
    pub memory_limit: u32,
}

/// Extended qdisc statistics (`struct tc_fq_codel_qd_stats`).
#[derive(Clone, Copy, Debug, PartialEq, Eq)]
pub struct FqCodelXStats {
    pub maxpacket: u32,
    pub drop_overlimit: u32,
    pub ecn_mark: u32,
    pub new_flow_count: u32,
    pub new_flows_len: u32,
    pub old_flows_len: u32,
    pub ce_mark: u32,
    pub memory_usage: u32,
    pub drop_overmemory: u32,
}

/// Option ids of FQ_CODEL (`TCA_FQ_CODEL_*`).
#[derive(Clone, Copy, Debug, PartialEq, Eq)]
pub enum TcaFqCodel {
    Unspec,
    Target,
    Limit,
    Interval,
    Ecn,
    Flows,
    Quantum,
    CeThreshold,
    DropBatchSize,
    MemoryLimit,
    Max,
}

pub open spec fn tca_fq_codel_of(v: u16) -> TcaFqCodel {
    if v == 0 {
        TcaFqCodel::Unspec
    } else if v == 1 {
        TcaFqCodel::Target
    } else if v == 2 {
        TcaFqCodel::Limit
    } else if v == 3 {
        TcaFqCodel::Interval
    } else if v == 4 {
        TcaFqCodel::Ecn
    } else if v == 5 {
        TcaFqCodel::Flows
    } else if v == 6 {
        TcaFqCodel::Quantum
    } else if v == 7 {
        TcaFqCodel::CeThreshold
    } else if v == 8 {
        TcaFqCodel::DropBatchSize
    } else if v == 9 {
        TcaFqCodel::MemoryLimit
    } else {
        TcaFqCodel::Max
    }
}

impl From<u16> for TcaFqCodel {
    fn from(v: u16) -> (r: Self) {
        match v {
            0 => TcaFqCodel::Unspec,
            1 => TcaFqCodel::Target,
            2 => TcaFqCodel::Limit,
            3 => TcaFqCodel::Interval,
            4 => TcaFqCodel::Ecn,
            5 => TcaFqCodel::Flows,
            6 => TcaFqCodel::Quantum,
            7 => TcaFqCodel::CeThreshold,
            8 => TcaFqCodel::DropBatchSize,
            9 => TcaFqCodel::MemoryLimit,
            _ => TcaFqCodel::Max,
        }
    }
}

impl vstd::std_specs::convert::FromSpecImpl<u16> for TcaFqCodel {
    open spec fn obeys_from_spec() -> bool {
        true
    }

    open spec fn from_spec(v: u16) -> TcaFqCodel {
        tca_fq_codel_of(v)
    }
}

/// FQ_CODEL parameters before any option is read.
pub open spec fn fq_codel_empty() -> FqCodel {
    FqCodel {
        target: 0,
        limit: 0,
        interval: 0,
        ecn: 0,
        flows: 0,
        quantum: 0,
        ce_threshold: 0,
        drop_batch_size: 0,
        memory_limit: 0,
    }
}

/// `fq` after reading the option `kind` with payload `b`: a payload shorter
/// than a `u32` is skipped, each known id sets its field to the payload's
/// leading `u32`, and unknown ids change nothing.
pub open spec fn fq_codel_step(fq: FqCodel, kind: u16, b: Seq<u8>) -> FqCodel {
    if b.len() < 4 {
        fq
    } else {
        let v = le_u32(b, 0);
        match tca_fq_codel_of(kind) {
            TcaFqCodel::Target => FqCodel { target: v, ..fq },
            TcaFqCodel::Limit => FqCodel { limit: v, ..fq },
            TcaFqCodel::Interval => FqCodel { interval: v, ..fq },
            TcaFqCodel::Ecn => FqCodel { ecn: v, ..fq },
            TcaFqCodel::Flows => FqCodel { flows: v, ..fq },
            TcaFqCodel::Quantum => FqCodel { quantum: v, ..fq },
            TcaFqCodel::CeThreshold => FqCodel { ce_threshold: v, ..fq },
            TcaFqCodel::DropBatchSize => FqCodel { drop_batch_size: v, ..fq },
            TcaFqCodel::MemoryLimit => FqCodel { memory_limit: v, ..fq },
            _ => fq,
        }
    }
}

/// The FQ_CODEL parameters that the options `opts` describe, read in order.
pub open spec fn fq_codel_of(opts: Seq<(u16, Seq<u8>)>) -> FqCodel
    decreases opts.len(),
{
    if opts.len() == 0 {
        fq_codel_empty()
    } else {
        fq_codel_step(fq_codel_of(opts.drop_last()), opts.last().0, opts.last().1)
    }
}

/// The extended statistics in `b`, where `b` holds the qdisc layout.
pub open spec fn fq_codel_xstats_of(b: Seq<u8>) -> FqCodelXStats {
    FqCodelXStats {
        maxpacket: le_u32(b, 4),
        drop_overlimit: le_u32(b, 8),
        ecn_mark: le_u32(b, 12),
        new_flow_count: le_u32(b, 16),
        new_flows_len: le_u32(b, 20),
        old_flows_len: le_u32(b, 24),
        ce_mark: le_u32(b, 28),
        memory_usage: le_u32(b, 32),
        drop_overmemory: le_u32(b, 36),
    }
}

/// What decoding the extended statistics `b` gives: the qdisc layout is
/// tagged 0, and any other tag is refused rather than read as that layout.
pub open spec fn fq_codel_xstats_result(b: Seq<u8>, r: Result<FqCodelXStats, Error>) -> bool {
    if b.len() < FQ_CODEL_XSTATS_LEN {
        r is Err && r->Err_0@ == ErrorView::UnmarshalStruct(FQ_CODEL_XSTATS_LEN, b.len() as usize)
    } else if le_u32(b, 0) != 0 {
        r is Err && r->Err_0@ == ErrorView::UnknownXstatsFormat(le_u32(b, 0))
    } else {
        r == Ok::<FqCodelXStats, Error>(fq_codel_xstats_of(b))
    }
}

impl FqCodel {
    /// Decodes the options of an FQ_CODEL qdisc.
    pub fn new(opts: Vec<TcOption>) -> (r: Self)
        ensures
            r == fq_codel_of(options_view(opts@)),
    {
        unmarshal_fq_codel(opts)
    }
}

impl FqCodelXStats {
    /// Decodes the extended statistics of an FQ_CODEL qdisc.
    pub fn new(bytes: &[u8]) -> (r: Result<Self, Error>)
        ensures
            fq_codel_xstats_result(bytes@, r),
    {
        unmarshal_fq_codel_xstats(bytes)
    }
}

fn unmarshal_fq_codel(opts: Vec<TcOption>) -> (r: FqCodel)
    ensures
        r == fq_codel_of(options_view(opts@)),
{
    let mut fq = FqCodel {
        target: 0,
        limit: 0,
        interval: 0,
        ecn: 0,
        flows: 0,
        quantum: 0,
        ce_threshold: 0,
        drop_batch_size: 0,
        memory_limit: 0,
    };
    let n = opts.len();
    let mut i: usize = 0;
    while i < n
        invariant
            n == opts@.len(),
            i <= n,
            fq == fq_codel_of(options_view(opts@).take(i as int)),
        decreases n - i,
    {
        let opt = &opts[i];
        let b = opt.bytes.as_slice();
        if b.len() >= 4 {
            let value = read_u32(b, 0);
            match TcaFqCodel::from(opt.kind) {
                TcaFqCodel::Target => fq.target = value,
                TcaFqCodel::Limit => fq.limit = value,
                TcaFqCodel::Interval => fq.interval = value,
                TcaFqCodel::Ecn => fq.ecn = value,
                TcaFqCodel::Flows => fq.flows = value,
                TcaFqCodel::Quantum => fq.quantum = value,
                TcaFqCodel::CeThreshold => fq.ce_threshold = value,
                TcaFqCodel::DropBatchSize => fq.drop_batch_size = value,
                TcaFqCodel::MemoryLimit => fq.memory_limit = value,
                _ => {},
            }
        }
        assert(options_view(opts@).take(i + 1).drop_last() =~= options_view(opts@).take(i as int));
        i = i + 1;
    }
    assert(options_view(opts@).take(n as int) =~= options_view(opts@));
    fq
}

fn unmarshal_fq_codel_xstats(bytes: &[u8]) -> (r: Result<FqCodelXStats, Error>)
    ensures
        fq_codel_xstats_result(bytes@, r),
{
    let len = bytes.len();
    if len < FQ_CODEL_XSTATS_LEN {
        return Err(Error::UnmarshalStruct(FQ_CODEL_XSTATS_LEN, len));
    }
    let tag = read_u32(bytes, 0);
    if tag != 0 {
        return Err(Error::UnknownXstatsFormat(tag));
    }
    Ok(
        FqCodelXStats {
            maxpacket: read_u32(bytes, 4),
            drop_overlimit: read_u32(bytes, 8),
            ecn_mark: read_u32(bytes, 12),
            new_flow_count: read_u32(bytes, 16),
            new_flows_len: read_u32(bytes, 20),
            old_flows_len: read_u32(bytes, 24),
            ce_mark: read_u32(bytes, 28),
            memory_usage: read_u32(bytes, 32),
            drop_overmemory: read_u32(bytes, 36),
        },
    )
}

} // verus!
