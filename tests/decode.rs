use netlink_tc::dump::{classes_for_name, list_classes, list_qdiscs, tc_stats, NetlinkConnection};
use netlink_tc::errors::Error;
use netlink_tc::fq_codel::{FqCodel, FqCodelXStats};
use netlink_tc::htb::{Htb, HtbGlob, HtbOpt, HtbXstats};
use netlink_tc::link::{link_index, links};
use netlink_tc::reassembly::{DumpEnd, Reassembler};
use netlink_tc::tc::{parse_stats2, parse_xstats};
use netlink_tc::types::{
    parse_stats, unmarshal_rate_spec, Class, QDisc, RateSpec, TcAttr, TcHeader, TcOption,
    TcStats2, XStats,
};
use netlink_tc::walker::{parse_links, to_link, to_tc, RawMessage};
use netlink_tc::{ParseOptions, RtNetlinkMessage};

const ROOT: u32 = 4294967295;

/// One attribute in netlink framing: length and type, payload, padding.
fn framed(kind: u16, value: &[u8]) -> Vec<u8> {
    let len = (value.len() + 4) as u16;
    let mut out = Vec::new();
    out.extend_from_slice(&len.to_le_bytes());
    out.extend_from_slice(&kind.to_le_bytes());
    out.extend_from_slice(value);
    while out.len() % 4 != 0 {
        out.push(0);
    }
    out
}

fn nested(items: &[(u16, Vec<u8>)]) -> Vec<u8> {
    let mut out = Vec::new();
    for (kind, value) in items {
        out.extend(framed(*kind, value));
    }
    out
}

fn nla(kind: u16, bytes: Vec<u8>) -> TcOption {
    TcOption { kind, bytes }
}

fn kind_nla(kind: &str) -> TcOption {
    let mut bytes = kind.as_bytes().to_vec();
    bytes.push(0);
    nla(1, bytes)
}

fn header(index: i32, handle: u32, parent: u32) -> TcHeader {
    TcHeader { index, handle, parent }
}

fn stats_nla(bytes: [u8; 12]) -> TcOption {
    let mut b = bytes.to_vec();
    b.resize(36, 0);
    nla(3, b)
}

fn zero_stats2() -> TcOption {
    nla(7, nested(&[(1, vec![0; 16]), (3, vec![0; 20])]))
}

fn noqueue() -> RawMessage {
    RawMessage::NewQdisc(
        header(1, 0, ROOT),
        vec![kind_nla("noqueue"), nla(12, vec![0]), zero_stats2(), nla(3, vec![0; 36])],
    )
}

fn mq() -> RawMessage {
    RawMessage::NewQdisc(
        header(2, 0, ROOT),
        vec![
            kind_nla("mq"),
            nla(12, vec![0]),
            nla(
                7,
                nested(&[
                    (1, vec![28, 146, 82, 7, 0, 0, 0, 0, 119, 55, 6, 0, 0, 0, 0, 0]),
                    (3, vec![0, 0, 0, 0, 0, 0, 0, 0, 0, 0, 0, 0, 0, 0, 0, 0, 13, 0, 0, 0]),
                ]),
            ),
            stats_nla([28, 146, 82, 7, 0, 0, 0, 0, 119, 55, 6, 0]),
        ],
    )
}

const FQ_CODEL_XSTATS: [u8; 40] = [
    0, 0, 0, 0, 2, 1, 0, 0, 0, 0, 0, 0, 0, 0, 0, 0, 91, 0, 0, 0, 0, 0, 0, 0, 0, 0, 0, 0, 0, 0, 0,
    0, 0, 0, 0, 0, 0, 0, 0, 0,
];

fn fq_codel_options() -> Vec<(u16, Vec<u8>)> {
    vec![
        (1, vec![135, 19, 0, 0]),
        (2, vec![0, 40, 0, 0]),
        (3, vec![159, 134, 1, 0]),
        (4, vec![1, 0, 0, 0]),
        (6, vec![234, 5, 0, 0]),
        (8, vec![64, 0, 0, 0]),
        (9, vec![0, 0, 0, 2]),
        (5, vec![0, 4, 0, 0]),
    ]
}

fn qdisc_nlas(kind: &str) -> Vec<TcOption> {
    vec![
        kind_nla(kind),
        nla(2, nested(&fq_codel_options())),
        nla(12, vec![0]),
        nla(
            7,
            nested(&[
                (4, FQ_CODEL_XSTATS.to_vec()),
                (1, vec![76, 222, 96, 2, 0, 0, 0, 0, 55, 135, 2, 0, 0, 0, 0, 0]),
                (3, vec![0, 0, 0, 0, 0, 0, 0, 0, 0, 0, 0, 0, 0, 0, 0, 0, 7, 0, 0, 0]),
            ]),
        ),
        stats_nla([76, 222, 96, 2, 0, 0, 0, 0, 55, 135, 2, 0]),
        nla(4, FQ_CODEL_XSTATS.to_vec()),
    ]
}

fn qdisc(kind: &str) -> RawMessage {
    RawMessage::NewQdisc(header(2, 0, 2), qdisc_nlas(kind))
}

const HTB_GLOB: [u8; 20] = [17, 0, 3, 0, 10, 0, 0, 0, 32, 0, 0, 0, 0, 0, 0, 0, 0, 0, 0, 0];

fn htb_qdisc() -> RawMessage {
    RawMessage::NewQdisc(
        header(3, 65536, ROOT),
        vec![
            kind_nla("htb"),
            nla(2, nested(&[(2, HTB_GLOB.to_vec()), (5, vec![232, 3, 0, 0])])),
            nla(12, vec![0]),
            zero_stats2(),
            nla(3, vec![0; 36]),
        ],
    )
}

const HTB_OPT: [u8; 44] = [
    0, 1, 0, 0, 0, 0, 0, 0, 72, 232, 1, 0, 0, 1, 0, 0, 0, 0, 0, 0, 72, 232, 1, 0, 64, 13, 3, 0, 64,
    13, 3, 0, 212, 48, 0, 0, 7, 0, 0, 0, 0, 0, 0, 0,
];

const HTB_XSTATS: [u8; 20] = [0, 0, 0, 0, 0, 0, 0, 0, 0, 0, 0, 0, 64, 13, 3, 0, 64, 13, 3, 0];

fn htb_class_nlas() -> Vec<TcOption> {
    vec![
        kind_nla("htb"),
        nla(2, nested(&[(1, HTB_OPT.to_vec())])),
        nla(7, nested(&[(1, vec![0; 16]), (3, vec![0; 20]), (4, HTB_XSTATS.to_vec())])),
        nla(3, vec![0; 36]),
        nla(4, HTB_XSTATS.to_vec()),
    ]
}

fn htb_class() -> RawMessage {
    RawMessage::NewClass(header(3, 65537, ROOT), htb_class_nlas())
}

fn eth0() -> RawMessage {
    RawMessage::NewLink(1, vec![nla(3, b"eth0\0".to_vec())])
}

fn lenient() -> ParseOptions {
    let mut opts = ParseOptions::new();
    opts.fail_on_unknown_netlink_message(false)
        .fail_on_unknown_attribute(false)
        .fail_on_unknown_option(false);
    opts
}

fn tc_msg(m: RawMessage) -> netlink_tc::TcMsg {
    match m {
        RawMessage::NewQdisc(h, nlas) | RawMessage::NewClass(h, nlas) => {
            to_tc(h, &nlas, &lenient()).unwrap()
        }
        _ => panic!("not a tc message"),
    }
}

fn htb_params() -> HtbOpt {
    let rate = RateSpec { cell_log: 0, linklayer: 1, overhead: 0, cell_align: 0, mpu: 0, rate: 125000 };
    HtbOpt {
        rate,
        ceil: rate,
        buffer: 200000,
        cbuffer: 200000,
        quantum: 12500,
        level: 7,
        prio: 0,
    }
}

#[test]
fn test_qdiscs_to_tc() {
    let tcs: Vec<_> = vec![noqueue(), mq(), qdisc("fq_codel"), htb_qdisc()].into_iter().map(tc_msg).collect();

    let tc = &tcs[0];
    assert_eq!(tc.header.index, 1);
    assert_eq!(tc.header.handle, 0);
    assert_eq!(tc.header.parent, 4294967295);
    for attr in &tc.attrs {
        match attr {
            TcAttr::Kind(kind) => assert_eq!(kind, "noqueue"),
            TcAttr::Stats(bytes) => assert_eq!(bytes, &vec![0u8; 36]),
            TcAttr::Stats2(stats) => {
                for stat in stats {
                    match stat {
                        TcStats2::StatsBasic(bytes) => assert_eq!(bytes, &vec![0u8; 16]),
                        TcStats2::StatsQueue(bytes) => assert_eq!(bytes, &vec![0u8; 20]),
                        _ => (),
                    }
                }
            }
            TcAttr::HwOffload(byte) => assert_eq!(byte, &0),
            _ => (),
        }
    }

    let tc = &tcs[1];
    assert_eq!(tc.header.index, 2);
    assert_eq!(tc.header.handle, 0);
    assert_eq!(tc.header.parent, 4294967295);
    for attr in &tc.attrs {
        match attr {
            TcAttr::Kind(kind) => assert_eq!(kind, "mq"),
            TcAttr::Stats(bytes) => assert_eq!(
                bytes,
                &vec![
                    28, 146, 82, 7, 0, 0, 0, 0, 119, 55, 6, 0, 0, 0, 0, 0, 0, 0, 0, 0, 0, 0, 0, 0,
                    0, 0, 0, 0, 0, 0, 0, 0, 0, 0, 0, 0,
                ]
            ),
            TcAttr::Stats2(stats) => {
                for stat in stats {
                    match stat {
                        TcStats2::StatsBasic(bytes) => assert_eq!(
                            bytes,
                            &vec![28, 146, 82, 7, 0, 0, 0, 0, 119, 55, 6, 0, 0, 0, 0, 0]
                        ),
                        TcStats2::StatsQueue(bytes) => assert_eq!(
                            bytes,
                            &vec![0, 0, 0, 0, 0, 0, 0, 0, 0, 0, 0, 0, 0, 0, 0, 0, 13, 0, 0, 0]
                        ),
                        _ => (),
                    }
                }
            }
            TcAttr::HwOffload(byte) => assert_eq!(byte, &0),
            _ => (),
        }
    }

    let tc = &tcs[2];
    assert_eq!(tc.header.index, 2);
    assert_eq!(tc.header.handle, 0);
    assert_eq!(tc.header.parent, 2);
    let mut seen_options = 0;
    for attr in &tc.attrs {
        match attr {
            TcAttr::Kind(kind) => assert_eq!(kind, "fq_codel"),
            TcAttr::Options(opts) => {
                for opt in opts {
                    seen_options += 1;
                    match opt.kind {
                        1 => assert_eq!(opt.bytes, vec![135, 19, 0, 0]),
                        2 => assert_eq!(opt.bytes, vec![0, 40, 0, 0]),
                        3 => assert_eq!(opt.bytes, vec![159, 134, 1, 0]),
                        4 => assert_eq!(opt.bytes, vec![1, 0, 0, 0]),
                        5 => assert_eq!(opt.bytes, vec![0, 4, 0, 0]),
                        6 => assert_eq!(opt.bytes, vec![234, 5, 0, 0]),
                        8 => assert_eq!(opt.bytes, vec![64, 0, 0, 0]),
                        9 => assert_eq!(opt.bytes, vec![0, 0, 0, 2]),
                        _ => (),
                    }
                }
            }
            TcAttr::Stats(bytes) => assert_eq!(
                bytes,
                &vec![
                    76, 222, 96, 2, 0, 0, 0, 0, 55, 135, 2, 0, 0, 0, 0, 0, 0, 0, 0, 0, 0, 0, 0, 0,
                    0, 0, 0, 0, 0, 0, 0, 0, 0, 0, 0, 0,
                ]
            ),
            TcAttr::Stats2(stats) => {
                for stat in stats {
                    match stat {
                        TcStats2::StatsBasic(bytes) => assert_eq!(
                            bytes,
                            &vec![76, 222, 96, 2, 0, 0, 0, 0, 55, 135, 2, 0, 0, 0, 0, 0]
                        ),
                        TcStats2::StatsQueue(bytes) => assert_eq!(
                            bytes,
                            &vec![0, 0, 0, 0, 0, 0, 0, 0, 0, 0, 0, 0, 0, 0, 0, 0, 7, 0, 0, 0]
                        ),
                        TcStats2::StatsApp(bytes) => assert_eq!(bytes, &FQ_CODEL_XSTATS.to_vec()),
                    }
                }
            }
            TcAttr::Xstats(bytes) => assert_eq!(bytes, &FQ_CODEL_XSTATS.to_vec()),
            TcAttr::HwOffload(byte) => assert_eq!(byte, &0),
            _ => (),
        }
    }
    assert_eq!(seen_options, 8);

    let tc = &tcs[3];
    assert_eq!(tc.header.index, 3);
    assert_eq!(tc.header.handle, 65536);
    assert_eq!(tc.header.parent, 4294967295);
    for attr in &tc.attrs {
        match attr {
            TcAttr::Kind(kind) => assert_eq!(kind, "htb"),
            TcAttr::Options(opts) => {
                for opt in opts {
                    match opt.kind {
                        2 => assert_eq!(opt.bytes, HTB_GLOB.to_vec()),
                        5 => assert_eq!(opt.bytes, vec![232, 3, 0, 0]),
                        _ => (),
                    }
                }
            }
            TcAttr::Stats(bytes) => assert_eq!(bytes, &vec![0u8; 36]),
            TcAttr::Stats2(stats2) => {
                for stat in stats2 {
                    match stat {
                        TcStats2::StatsBasic(bytes) => assert_eq!(bytes, &vec![0u8; 16]),
                        TcStats2::StatsQueue(bytes) => assert_eq!(bytes, &vec![0u8; 20]),
                        _ => (),
                    }
                }
            }
            TcAttr::HwOffload(byte) => assert_eq!(byte, &0),
            _ => (),
        }
    }
}

#[test]
fn test_classes_to_tc() {
    let tc = tc_msg(htb_class());
    assert_eq!(tc.header.index, 3);
    assert_eq!(tc.header.handle, 65537);
    assert_eq!(tc.header.parent, 4294967295);
    let mut seen = 0;
    for attr in &tc.attrs {
        match attr {
            TcAttr::Kind(kind) => assert_eq!(kind, "htb"),
            TcAttr::Options(opts) => {
                for opt in opts {
                    if opt.kind == 1 {
                        seen += 1;
                        assert_eq!(opt.bytes, HTB_OPT.to_vec());
                    }
                }
            }
            TcAttr::Stats(bytes) => assert_eq!(bytes, &vec![0u8; 36]),
            TcAttr::Stats2(stats2) => {
                for stat in stats2 {
                    match stat {
                        TcStats2::StatsBasic(bytes) => assert_eq!(bytes, &vec![0u8; 16]),
                        TcStats2::StatsQueue(bytes) => assert_eq!(bytes, &vec![0u8; 20]),
                        TcStats2::StatsApp(bytes) => assert_eq!(bytes, &HTB_XSTATS.to_vec()),
                    }
                }
            }
            TcAttr::Xstats(bytes) => assert_eq!(bytes, &HTB_XSTATS.to_vec()),
            _ => (),
        }
    }
    assert_eq!(seen, 1);
}

#[test]
fn test_to_link() {
    let link = to_link(1, &vec![nla(3, b"eth0\0".to_vec())]).unwrap();
    assert_eq!(link.header.index, 1);
    assert_eq!(link.attr.name, "eth0");
}

#[test]
fn test_no_queue() {
    let stats = lenient().tc(vec![noqueue()]).unwrap();

    let tc = stats.get(0).unwrap();
    assert_eq!(tc.msg.index, 1);
    assert_eq!(tc.msg.handle, 0);
    assert_eq!(tc.msg.parent, 4294967295);
    assert_eq!(tc.attr.kind.as_str(), "noqueue");
    let basic = tc.attr.stats2.as_ref().unwrap().basic.as_ref().unwrap();
    assert_eq!(basic.bytes, 0);
    assert_eq!(basic.packets, 0);
    let queue = tc.attr.stats2.as_ref().unwrap().queue.as_ref().unwrap();
    assert_eq!(queue.qlen, 0);
    let stats = tc.attr.stats.as_ref().unwrap();
    assert_eq!(stats.bytes, 0);
    assert_eq!(stats.packets, 0);
    assert!(tc.attr.qdisc.is_none());
}

#[test]
fn test_mq() {
    let stats = lenient().tc(vec![mq()]).unwrap();

    let tc = stats.get(0).unwrap();
    assert_eq!(tc.msg.index, 2);
    assert_eq!(tc.msg.handle, 0);
    assert_eq!(tc.msg.parent, 4294967295);
    assert_eq!(tc.attr.kind.as_str(), "mq");
    let basic = tc.attr.stats2.as_ref().unwrap().basic.as_ref().unwrap();
    assert_eq!(basic.bytes, 122851868);
    assert_eq!(basic.packets, 407415);
    let queue = tc.attr.stats2.as_ref().unwrap().queue.as_ref().unwrap();
    assert_eq!(queue.qlen, 0);
    assert_eq!(queue.overlimits, 13);
    let stats = tc.attr.stats.as_ref().unwrap();
    assert_eq!(stats.bytes, 122851868);
    assert_eq!(stats.packets, 407415);
}

#[test]
fn test_fq_codel() {
    let stats = ParseOptions::new().tc(vec![qdisc("fq_codel")]).unwrap();

    let tc = stats.get(0).unwrap();
    assert_eq!(tc.msg.index, 2);
    assert_eq!(tc.msg.handle, 0);
    assert_eq!(tc.msg.parent, 2);
    assert_eq!(tc.attr.kind.as_str(), "fq_codel");
    let basic = tc.attr.stats2.as_ref().unwrap().basic.as_ref().unwrap();
    assert_eq!(basic.bytes, 39902796);
    assert_eq!(basic.packets, 165687);
    let queue = tc.attr.stats2.as_ref().unwrap().queue.as_ref().unwrap();
    assert_eq!(queue.qlen, 0);
    assert_eq!(queue.overlimits, 7);
    let stats = tc.attr.stats.as_ref().unwrap();
    assert_eq!(stats.bytes, 39902796);
    assert_eq!(stats.packets, 165687);

    let fq_codel = tc.attr.qdisc.as_ref().unwrap();
    assert_eq!(
        fq_codel,
        &QDisc::FqCodel(FqCodel {
            target: 4999,
            limit: 10240,
            interval: 99999,
            ecn: 1,
            flows: 1024,
            quantum: 1514,
            ce_threshold: 0,
            drop_batch_size: 64,
            memory_limit: 33554432,
        })
    );
    let xstats = tc.attr.xstats.as_ref().unwrap();
    assert_eq!(
        xstats,
        &XStats::FqCodel(FqCodelXStats {
            maxpacket: 258,
            drop_overlimit: 0,
            ecn_mark: 0,
            new_flow_count: 91,
            new_flows_len: 0,
            old_flows_len: 0,
            ce_mark: 0,
            memory_usage: 0,
            drop_overmemory: 0,
        })
    );
}

#[test]
fn test_htb() {
    let tc_stats = ParseOptions::new().tc(vec![htb_qdisc(), htb_class()]).unwrap();

    let tc = tc_stats.get(0).unwrap();
    assert_eq!(tc.msg.index, 3);
    assert_eq!(tc.msg.handle, 65536);
    assert_eq!(tc.msg.parent, 4294967295);
    assert_eq!(tc.attr.kind.as_str(), "htb");
    let basic = tc.attr.stats2.as_ref().unwrap().basic.as_ref().unwrap();
    assert_eq!(basic.bytes, 0);
    assert_eq!(basic.packets, 0);
    let queue = tc.attr.stats2.as_ref().unwrap().queue.as_ref().unwrap();
    assert_eq!(queue.qlen, 0);
    let stats = tc.attr.stats.as_ref().unwrap();
    assert_eq!(stats.overlimits, 0);
    assert_eq!(
        tc.attr.qdisc.as_ref().unwrap(),
        &QDisc::Htb(HtbGlob {
            version: 196625,
            rate2quantum: 10,
            defcls: 32,
            debug: 0,
            direct_pkts: 0,
        })
    );

    let tc = tc_stats.get(1).unwrap();
    assert_eq!(tc.msg.index, 3);
    assert_eq!(tc.msg.handle, 65537);
    assert_eq!(tc.msg.parent, 4294967295);
    let Class::Htb(htb) = tc.attr.class.as_ref().unwrap();
    assert_eq!(htb.parms, Some(htb_params()));
    assert_eq!(htb.init, None);
    assert!(htb.ctab.is_empty());
    assert!(htb.rtab.is_empty());
    assert_eq!(htb.direct_qlen, None);
    assert_eq!(htb.rate64, None);
    assert_eq!(htb.ceil64, None);
    assert_eq!(
        tc.attr.xstats.as_ref().unwrap(),
        &XStats::Htb(HtbXstats { lends: 0, borrows: 0, giants: 0, tokens: 200000, ctokens: 200000 })
    );
}

#[test]
fn test_links() {
    let links = links(parse_links(&vec![eth0()]).unwrap()).unwrap();

    assert_eq!(links[0].index, 1);
    assert_eq!(links[0].name, "eth0");
}

#[test]
fn test_unknown_netlink_msg_fail() {
    // RTM_DELQDISC
    let messages = vec![RawMessage::Other(37)];
    let mut opts = ParseOptions::new();
    let stats = opts.fail_on_unknown_netlink_message(true).tc(messages);

    assert!(stats.is_err());
}

#[test]
fn test_unknown_attribute_fail() {
    // a rate estimator attribute is not read by the assembler
    let mut nlas = qdisc_nlas("fq_codel");
    nlas.push(nla(5, vec![0; 4]));
    let mut opts = ParseOptions::new();
    let stats = opts
        .fail_on_unknown_attribute(true)
        .tc(vec![RawMessage::NewQdisc(header(2, 0, 2), nlas)]);

    assert!(matches!(stats.unwrap_err(), Error::UnknownAttribute(5)));
}

#[test]
fn test_stats_parse_fail() {
    let mut nlas = qdisc_nlas("fq_codel");
    nlas[3] = nla(7, nested(&[(1, vec![1, 2, 3, 4]), (3, vec![1, 2, 3, 4])]));
    let mut opts = ParseOptions::new();
    opts.fail_on_unknown_attribute(false);
    let tcs = opts.tc(vec![RawMessage::NewQdisc(header(2, 0, 2), nlas)]).unwrap();
    let tc = tcs.get(0).unwrap();
    assert!(tc.attr.stats2.is_none());
}

#[test]
fn test_unknown_option_fail() {
    let mut opts = ParseOptions::new();
    opts.fail_on_unknown_attribute(false);
    let stats = opts.fail_on_unknown_option(true).tc(vec![qdisc("unknown")]);

    assert!(stats.is_err());
}

#[test]
fn noqueue_decodes_without_parameters() {
    let tcs = lenient().tc(vec![noqueue()]).unwrap();
    assert_eq!(tcs.len(), 1);
    let attr = &tcs[0].attr;
    assert_eq!(attr.kind, "noqueue");
    assert_eq!(attr.stats.unwrap().bytes, 0);
    assert_eq!(attr.stats.unwrap().packets, 0);
    assert_eq!(attr.stats2.unwrap().basic.unwrap().bytes, 0);
    assert!(attr.qdisc.is_none());
    assert!(attr.class.is_none());
    assert!(attr.xstats.is_none());
}

#[test]
fn mq_counters_decode_exactly() {
    let tcs = lenient().tc(vec![mq()]).unwrap();
    let attr = &tcs[0].attr;
    assert_eq!(attr.stats.unwrap().bytes, 122851868);
    assert_eq!(attr.stats.unwrap().packets, 407415);
    assert_eq!(attr.stats2.unwrap().queue.unwrap().overlimits, 13);
}

#[test]
fn basic_bytes_from_little_endian_encoding() {
    let mut block = 39902796u64.to_le_bytes().to_vec();
    block.extend_from_slice(&[0; 8]);
    let stats2 = parse_stats2(&vec![TcStats2::StatsBasic(block)]).unwrap();
    assert_eq!(stats2.basic.unwrap().bytes, 39902796);
    assert!(stats2.queue.is_none());
}

#[test]
fn classes_for_named_link() {
    let links = links(parse_links(&vec![eth0()]).unwrap()).unwrap();
    let index = link_index(&links, "eth0").unwrap();
    assert_eq!(index, 1);
    assert_eq!(link_index(&links, "eth1"), None);

    let class = RawMessage::NewClass(header(index as i32, 65537, ROOT), htb_class_nlas());
    let mut opts = ParseOptions::new();
    let tcs = opts.fail_on_unknown_attribute(false).tc(vec![class]).unwrap();
    assert_eq!(tcs.len(), 1);
    assert_eq!(tcs[0].msg.index, 1);
    assert_eq!(tcs[0].msg.handle, 65537);
    assert!(matches!(tcs[0].attr.class, Some(Class::Htb(_))));
}

#[test]
fn decoding_twice_gives_equal_records() {
    let a = lenient().tc(vec![qdisc("fq_codel"), htb_class()]).unwrap();
    let b = lenient().tc(vec![qdisc("fq_codel"), htb_class()]).unwrap();
    assert_eq!(a.len(), b.len());
    for (x, y) in a.iter().zip(b.iter()) {
        assert_eq!(x.msg, y.msg);
        assert_eq!(x.attr.kind, y.attr.kind);
        assert_eq!(x.attr.stats, y.attr.stats);
        assert_eq!(x.attr.stats2, y.attr.stats2);
        assert_eq!(x.attr.qdisc, y.attr.qdisc);
        assert_eq!(x.attr.xstats, y.attr.xstats);
    }
}

#[test]
fn unknown_attribute_policy() {
    let mut nlas = qdisc_nlas("fq_codel");
    nlas.retain(|n| n.kind != 12);
    nlas.push(nla(5, vec![1, 2, 3, 4]));
    let strict = ParseOptions::new().tc(vec![RawMessage::NewQdisc(header(2, 0, 2), nlas)]);
    assert!(matches!(strict.unwrap_err(), Error::UnknownAttribute(5)));

    let mut nlas = qdisc_nlas("fq_codel");
    nlas.retain(|n| n.kind != 12);
    nlas.push(nla(5, vec![1, 2, 3, 4]));
    let mut opts = ParseOptions::new();
    let lax = opts.fail_on_unknown_attribute(false).tc(vec![RawMessage::NewQdisc(header(2, 0, 2), nlas)]);
    let tcs = lax.unwrap();
    assert_eq!(tcs.len(), 1);
    assert!(tcs[0].attr.qdisc.is_some());
}

#[test]
fn unknown_top_level_attribute_in_walker() {
    let nlas = vec![kind_nla("fq_codel"), nla(13, vec![0; 4])];
    let strict = to_tc(header(1, 0, ROOT), &nlas, &ParseOptions::new());
    assert!(matches!(strict, Err(Error::UnknownAttribute(13))));
    let lax = to_tc(header(1, 0, ROOT), &nlas, &lenient()).unwrap();
    assert_eq!(lax.attrs.len(), 1);
}

#[test]
fn fq_codel_xstats_with_other_tag_fail() {
    let mut b = FQ_CODEL_XSTATS.to_vec();
    b[0] = 1;
    assert!(matches!(FqCodelXStats::new(&b), Err(Error::UnknownXstatsFormat(1))));
    assert_eq!(parse_xstats("fq_codel", &b, &ParseOptions::new()).unwrap(), None);
    assert!(matches!(FqCodelXStats::new(&b[..39]), Err(Error::UnmarshalStruct(40, 39))));
}

#[test]
fn htb_class_parameters_at_offsets() {
    let htb = Htb::new(vec![nla(1, HTB_OPT.to_vec())]);
    let parms = htb.parms.unwrap();
    assert_eq!(parms.rate.rate, 125000);
    assert_eq!(parms.buffer, 200000);
    assert_eq!(parms.quantum, 12500);
    assert_eq!(parms.level, 7);
    assert_eq!(parms, htb_params());
    assert!(Htb::new(vec![nla(1, HTB_OPT[..43].to_vec())]).parms.is_none());
}

#[test]
fn htb_extension_options() {
    let htb = Htb::new(vec![
        nla(3, vec![9, 9]),
        nla(4, vec![8]),
        nla(5, vec![1, 0, 0]),
        nla(6, 5000000000u64.to_le_bytes().to_vec()),
        nla(7, 6000000000u64.to_le_bytes().to_vec()),
        nla(8, vec![0; 4]),
    ]);
    assert_eq!(htb.ctab, vec![9, 9]);
    assert_eq!(htb.rtab, vec![8]);
    assert_eq!(htb.direct_qlen, None);
    assert_eq!(htb.rate64, Some(5000000000));
    assert_eq!(htb.ceil64, Some(6000000000));
    let htb = Htb::new(vec![nla(5, vec![232, 3, 0, 0]), nla(6, vec![1, 2, 3])]);
    assert_eq!(htb.direct_qlen, Some(1000));
    assert_eq!(htb.rate64, None);
}

#[test]
fn fq_codel_options_skip_short_and_unknown() {
    let fq = FqCodel::new(vec![nla(1, vec![1, 0]), nla(2, vec![5, 0, 0, 0]), nla(42, vec![7, 0, 0, 0])]);
    assert_eq!(fq.target, 0);
    assert_eq!(fq.limit, 5);
    assert_eq!(fq.memory_limit, 0);
}

#[test]
fn short_structures_fail() {
    assert!(matches!(parse_stats(&[0; 35]), Err(Error::UnmarshalStruct(36, 35))));
    assert!(matches!(unmarshal_rate_spec(&[0; 11]), Err(Error::UnmarshalStruct(12, 11))));
    let rate = unmarshal_rate_spec(&[3, 1, 2, 0, 0, 1, 64, 0, 72, 232, 1, 0]).unwrap();
    assert_eq!(rate, RateSpec { cell_log: 3, linklayer: 1, overhead: 2, cell_align: 256, mpu: 64, rate: 125000 });
    assert!(matches!(HtbXstats::new(&[0; 19]), Err(Error::UnmarshalStruct(20, 19))));
}

#[test]
fn stats2_errors_are_collected() {
    let blocks = vec![
        TcStats2::StatsBasic(vec![1, 2, 3]),
        TcStats2::StatsApp(vec![]),
        TcStats2::StatsQueue(vec![1]),
    ];
    match parse_stats2(&blocks) {
        Err(Error::Stats2(kinds)) => assert_eq!(kinds, vec![1, 3]),
        _ => panic!("expected a statistics error"),
    }
}

#[test]
fn unknown_kind_errors() {
    let mut opts = ParseOptions::new();
    opts.fail_on_unknown_attribute(false);
    match opts.tc(vec![qdisc("sfq")]) {
        Err(Error::UnknownKind(kind)) => assert_eq!(kind, "sfq"),
        _ => panic!("expected an unknown kind"),
    }
    let class = RawMessage::NewClass(header(2, 0, 2), qdisc_nlas("fq_codel"));
    assert!(matches!(opts.tc(vec![class]), Err(Error::UnknownKind(_))));
}

#[test]
fn clsact_decodes_to_unit() {
    let nlas = vec![kind_nla("clsact"), nla(2, vec![])];
    let tcs = lenient().tc(vec![RawMessage::NewQdisc(header(4, 0, ROOT), nlas)]).unwrap();
    assert!(matches!(tcs[0].attr.qdisc, Some(QDisc::Clsact(_))));
}

#[test]
fn malformed_attributes() {
    let bad_kind = vec![nla(1, vec![0xff, 0xfe, 0])];
    assert!(matches!(to_tc(header(1, 0, 0), &bad_kind, &lenient()), Err(Error::MalformedAttribute(1))));
    let bad_nested = vec![nla(2, vec![9, 0, 1, 0, 1])];
    assert!(matches!(to_tc(header(1, 0, 0), &bad_nested, &lenient()), Err(Error::MalformedAttribute(2))));
    let bad_offload = vec![nla(12, vec![0, 0])];
    assert!(matches!(to_tc(header(1, 0, 0), &bad_offload, &lenient()), Err(Error::MalformedAttribute(12))));
}

#[test]
fn kind_string_is_trimmed_and_options_split() {
    let m = to_tc(header(1, 0, 0), &vec![kind_nla("htb"), nla(2, nested(&[(2, vec![1, 2, 3]), (0x8005, vec![4; 4])]))], &lenient()).unwrap();
    match &m.attrs[0] {
        TcAttr::Kind(k) => assert_eq!(k, "htb"),
        _ => panic!("expected the kind"),
    }
    match &m.attrs[1] {
        TcAttr::Options(o) => {
            assert_eq!(o.len(), 2);
            assert_eq!((o[0].kind, o[0].bytes.clone()), (2, vec![1, 2, 3]));
            assert_eq!((o[1].kind, o[1].bytes.clone()), (5, vec![4; 4]));
        }
        _ => panic!("expected the options"),
    }
}

#[test]
fn unknown_stats2_block_policy() {
    let nlas = vec![kind_nla("mq"), nla(7, nested(&[(2, vec![0; 16]), (1, vec![0; 16])]))];
    assert!(matches!(to_tc(header(1, 0, 0), &nlas, &ParseOptions::new()), Err(Error::UnknownAttribute(2))));
    let m = to_tc(header(1, 0, 0), &nlas, &lenient()).unwrap();
    match &m.attrs[1] {
        TcAttr::Stats2(s) => assert_eq!(s.len(), 1),
        _ => panic!("expected statistics"),
    }
}

#[test]
fn link_without_name_fails() {
    assert!(matches!(to_link(2, &vec![nla(4, vec![0; 4])]), Err(Error::MissingAttribute(3))));
    assert!(parse_links(&vec![RawMessage::NewLink(2, vec![])]).is_err());
}

#[test]
fn unknown_messages_policy() {
    let msgs = vec![RawMessage::Other(37), eth0(), qdisc("fq_codel")];
    assert!(matches!(ParseOptions::new().tc(msgs), Err(Error::UnknownMessage(37))));
    let msgs = vec![RawMessage::Other(37), eth0(), qdisc("fq_codel")];
    assert_eq!(lenient().tc(msgs).unwrap().len(), 1);
}

#[test]
fn link_messages_carry_no_record() {
    let msgs = vec![RtNetlinkMessage::GetLink(to_link(1, &vec![nla(3, b"lo".to_vec())]).unwrap())];
    assert_eq!(netlink_tc::tc::tc_stats(msgs, &ParseOptions::new()).unwrap().len(), 0);
}

/// A netlink message: header (length, type, flags, sequence, port) and payload.
fn netlink_message(ty: u16, payload: &[u8]) -> Vec<u8> {
    let mut out = Vec::new();
    out.extend_from_slice(&((16 + payload.len()) as u32).to_le_bytes());
    out.extend_from_slice(&ty.to_le_bytes());
    out.extend_from_slice(&[2, 0]);
    out.extend_from_slice(&[0; 8]);
    out.extend_from_slice(payload);
    out
}

#[test]
fn reassembly_of_one_datagram() {
    let first = netlink_message(36, &[1; 20]);
    let second = netlink_message(36, &[2; 24]);
    let mut datagram = first.clone();
    datagram.extend(second.clone());
    datagram.extend(netlink_message(1, &[]));
    datagram.extend(netlink_message(3, &[0; 4]));
    datagram.extend(netlink_message(36, &[3; 4]));
    let mut r = Reassembler::new();
    let batch = r.feed(&datagram);
    assert_eq!(batch.messages, vec![first, second]);
    assert_eq!(batch.end, DumpEnd::Done);
    assert!(r.pending.is_empty());
}

#[test]
fn reassembly_across_datagrams() {
    let message = netlink_message(40, &[7; 40]);
    let mut r = Reassembler::new();
    let batch = r.feed(&message[..30]);
    assert!(batch.messages.is_empty());
    assert_eq!(batch.end, DumpEnd::Open);
    assert_eq!(r.pending.len(), 30);
    let mut rest = message[30..].to_vec();
    rest.extend(netlink_message(3, &[0; 4]));
    let batch = r.feed(&rest);
    assert_eq!(batch.messages, vec![message]);
    assert_eq!(batch.end, DumpEnd::Done);
}

#[test]
fn reassembly_ends_on_kernel_error() {
    let mut datagram = netlink_message(2, &0i32.to_le_bytes());
    datagram.extend(netlink_message(36, &[0; 20]));
    let mut r = Reassembler::new();
    let batch = r.feed(&datagram);
    assert_eq!(batch.messages.len(), 1);
    assert_eq!(batch.end, DumpEnd::Open);
    let batch = r.feed(&netlink_message(2, &(-95i32).to_le_bytes()));
    assert_eq!(batch.end, DumpEnd::Kernel(-95));
}

#[test]
fn reassembly_framing() {
    let mut r = Reassembler::new();
    assert_eq!(r.feed(&[5, 0, 0, 0, 36, 0, 0, 0]).end, DumpEnd::Framing);
    let mut r = Reassembler::new();
    let mut datagram = vec![0u8; 8];
    datagram.extend(netlink_message(36, &[0; 4]));
    let batch = r.feed(&datagram);
    assert!(batch.messages.is_empty());
    assert_eq!(batch.end, DumpEnd::Open);
    assert!(r.pending.is_empty());
}

#[test]
fn builders_set_each_flag() {
    let mut opts = ParseOptions::new();
    assert!(opts.fail_on_unknown_netlink_message && opts.fail_on_unknown_attribute && opts.fail_on_unknown_option);
    opts.fail_on_unknown_option(false);
    assert!(!opts.fail_on_unknown_option && opts.fail_on_unknown_attribute);
    assert_eq!(ParseOptions::default(), ParseOptions::new());
}

/// A connection that answers from fixtures: one link, eth0 at index 1, with
/// one HTB class.
struct Fixtures;

impl NetlinkConnection for Fixtures {
    fn new() -> Result<Self, Error> {
        Ok(Fixtures)
    }

    fn qdiscs(&self) -> Result<Vec<RawMessage>, Error> {
        Ok(vec![noqueue(), RawMessage::Other(3)])
    }

    fn classes(&self, index: i32) -> Result<Vec<RawMessage>, Error> {
        if index == 1 {
            Ok(vec![RawMessage::NewClass(header(1, 65537, ROOT), htb_class_nlas())])
        } else {
            Ok(vec![])
        }
    }

    fn links(&self) -> Result<Vec<RawMessage>, Error> {
        Ok(vec![eth0()])
    }
}

#[test]
fn classes_for_name_through_connection() {
    let conn = Fixtures::new().unwrap();
    let mut opts = ParseOptions::new();
    opts.fail_on_unknown_attribute(false);
    let tcs = classes_for_name(&conn, "eth0", &opts).unwrap();
    assert_eq!(tcs.len(), 1);
    assert_eq!(tcs[0].msg.index, 1);
    assert_eq!(tcs[0].msg.handle, 65537);
    let Class::Htb(htb) = tcs[0].attr.class.as_ref().unwrap();
    assert_eq!(htb.parms, Some(htb_params()));
    match classes_for_name(&conn, "eth9", &opts) {
        Err(Error::NoSuchLink(n)) => assert_eq!(n, "eth9"),
        _ => panic!("expected a missing link"),
    }
    assert_eq!(list_classes(&conn, &opts).unwrap().len(), 1);
    assert!(list_qdiscs(&conn, &opts).is_err());
    let lax = lenient();
    assert_eq!(list_qdiscs(&conn, &lax).unwrap().len(), 1);
    assert_eq!(tc_stats(&conn, &lax).unwrap().len(), 2);
}

#[test]
fn bad_statistics_fail_under_strict_options() {
    let mut nlas = qdisc_nlas("fq_codel");
    nlas[3] = nla(7, nested(&[(1, vec![1, 2, 3, 4]), (3, vec![1, 2, 3, 4])]));
    match ParseOptions::new().tc(vec![RawMessage::NewQdisc(header(2, 0, 2), nlas)]) {
        Err(Error::Stats2(blocks)) => assert_eq!(blocks, vec![1, 3]),
        _ => panic!("expected the statistics error"),
    }
}

#[test]
fn hardware_offload_is_recorded() {
    let tcs = ParseOptions::new().tc(vec![qdisc("fq_codel")]).unwrap();
    assert_eq!(tcs.len(), 1);
    let m = to_tc(header(2, 0, 2), &qdisc_nlas("fq_codel"), &ParseOptions::new()).unwrap();
    assert!(m.attrs.iter().any(|a| matches!(a, TcAttr::HwOffload(0))));
}

#[test]
fn records_of_several_dumps() {
    let mut opts = ParseOptions::new();
    opts.fail_on_unknown_option(false);
    let dumps = vec![vec![noqueue(), mq()], vec![], vec![htb_class()]];
    let tcs = netlink_tc::dump::records_of_dumps(dumps, &opts).unwrap();
    assert_eq!(tcs.len(), 3);
    assert_eq!(tcs[0].attr.kind, "noqueue");
    assert_eq!(tcs[1].attr.kind, "mq");
    assert_eq!(tcs[2].msg.handle, 65537);
    let dumps = vec![vec![noqueue()], vec![qdisc("sfq")], vec![RawMessage::Other(37)]];
    match netlink_tc::dump::records_of_dumps(dumps, &ParseOptions::new()) {
        Err(Error::UnknownKind(k)) => assert_eq!(k, "noqueue"),
        _ => panic!("expected the first dump's error"),
    }
}
