//! Names and numbers of the kernel's tc netlink protocol.
use vstd::prelude::*;

verus! {

pub const FQ_CODEL: &'static str = "fq_codel";
pub const CLSACT: &'static str = "clsact";
pub const HTB: &'static str = "htb";

/// Top-level tc attribute types (`TCA_*`).
pub const TCA_UNSPEC: u16 = 0;
pub const TCA_KIND: u16 = 1;
pub const TCA_OPTIONS: u16 = 2;
pub const TCA_STATS: u16 = 3;
pub const TCA_XSTATS: u16 = 4;
pub const TCA_RATE: u16 = 5;
pub const TCA_FCNT: u16 = 6;
pub const TCA_STATS2: u16 = 7;
pub const TCA_STAB: u16 = 8;
pub const TCA_PAD: u16 = 9;
pub const TCA_CHAIN: u16 = 11;
pub const TCA_HW_OFFLOAD: u16 = 12;

/// Block types of the segmented statistics attribute (`TCA_STATS_*`).
pub const TCA_STATS_BASIC: u16 = 1;
pub const TCA_STATS_QUEUE: u16 = 3;
pub const TCA_STATS_APP: u16 = 4;

/// Link attribute holding the interface name (`IFLA_IFNAME`).
pub const IFLA_IFNAME: u16 = 3;

/// Netlink message type of a link (`RTM_NEWLINK`).
pub const RTM_NEWLINK: u16 = 16;

} // verus!
