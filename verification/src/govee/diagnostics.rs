//! Diagnostic report for a single Govee device on the LAN.
//!
//! The "Diagnose" action sends three probes to a device (a multicast scan,
//! a unicast scan to port 4001 and a status request to control port 4003)
//! and reports which of them were answered, so the user can tell whether
//! the device's LAN listener is open, the firmware supports it, or the
//! network path is broken. The probes themselves are network I/O; the
//! report is assembled here from their outcomes.
use vstd::prelude::*;

verus! {

/// What we tried, what we got back.
#[derive(Debug, Clone)]
pub struct ProbeReport {
    pub ip: String,
    pub arp_visible: bool,
    pub scan_multicast_received: bool,
    pub unicast_4001_received: bool,
    pub unicast_4003_received: bool,
    pub raw_responses: Vec<String>,
    pub verdict: String,
}

/// Multicast group and port the scan probe is sent to.
pub const PROBE_MULTICAST_ADDR: [u8; 4] = [239, 255, 255, 250];

/// Port of the scan probes.
pub const PROBE_SCAN_PORT: u16 = 4001;

/// Port of the status probe (the control port).
pub const PROBE_CONTROL_PORT: u16 = 4003;

/// How long each probe waits for a reply.
pub const PROBE_WAIT_MS: u64 = 1500;

/// Verdict when at least one probe was answered.
pub open spec fn verdict_open() -> Seq<char> {
    "Govee LAN listener is open — discovery should work."@
}

/// Verdict when no probe was answered.
pub open spec fn verdict_silent() -> Seq<char> {
    "No reply on any Govee LAN port. Likely causes:\n\
     • LAN Control is OFF in Govee Home (toggle it off, wait 5s, toggle on).\n\
     • Device firmware doesn't expose LAN for this SKU.\n\
     • Device is on a different Wi-Fi band/VLAN than this PC.\n\
     • Firewall on the PC is blocking outbound UDP to ports 4001/4003."@
}

/// `prefix` followed by the reply, if there was one.
pub open spec fn reply_line(prefix: Seq<char>, reply: Option<String>) -> Seq<Seq<char>> {
    match reply {
        Some(text) => seq![prefix + text@],
        None => Seq::empty(),
    }
}

/// The raw-response lines of a report, in probe order.
pub open spec fn probe_lines(
    multicast: Option<String>,
    unicast_4001: Option<String>,
    unicast_4003: Option<String>,
) -> Seq<Seq<char>> {
    reply_line("multicast: "@, multicast) + reply_line("4001/scan: "@, unicast_4001) + reply_line(
        "4003/devStatus: "@,
        unicast_4003,
    )
}

/// The report for `ip` given the three probe outcomes.
pub open spec fn report_matches(
    r: ProbeReport,
    ip: Seq<char>,
    multicast: Option<String>,
    unicast_4001: Option<String>,
    unicast_4003: Option<String>,
) -> bool {
    &&& r.ip@ == ip
    &&& r.arp_visible
    &&& r.scan_multicast_received == multicast is Some
    &&& r.unicast_4001_received == unicast_4001 is Some
    &&& r.unicast_4003_received == unicast_4003 is Some
    &&& r.raw_responses@.map_values(|s: String| s@) == probe_lines(
        multicast,
        unicast_4001,
        unicast_4003,
    )
    &&& r.verdict@ == if multicast is Some || unicast_4001 is Some || unicast_4003 is Some {
        verdict_open()
    } else {
        verdict_silent()
    }
}

/// Append `prefix + reply` to `lines` when there was a reply.
fn push_reply(lines: &mut Vec<String>, prefix: &str, reply: &Option<String>)
    ensures
        final(lines)@.map_values(|s: String| s@) == old(lines)@.map_values(|s: String| s@)
            + reply_line(prefix@, *reply),
{
    match reply {
        Some(text) => {
            let mut line = String::from_str(prefix);
            line.append(text.as_str());
            lines.push(line);
            assert(final(lines)@.map_values(|s: String| s@) =~= old(lines)@.map_values(
                |s: String| s@,
            ) + reply_line(prefix@, *reply));
        },
        None => {
            assert(old(lines)@.map_values(|s: String| s@) + reply_line(prefix@, *reply)
                =~= old(lines)@.map_values(|s: String| s@));
        },
    }
}

/// Build the report for `ip` from the three probe outcomes (the decoded
/// text of each reply, or `None` when the probe got no answer or failed).
/// A report is produced whatever the outcomes: partial information beats
/// none. ARP visibility is established by the caller before probing, so it
/// is reported as true.
pub fn assemble_report(
    ip: String,
    multicast: Option<String>,
    unicast_4001: Option<String>,
    unicast_4003: Option<String>,
) -> (r: ProbeReport)
    ensures
        report_matches(r, ip@, multicast, unicast_4001, unicast_4003),
        r.scan_multicast_received == multicast is Some,
        r.unicast_4001_received == unicast_4001 is Some,
        r.unicast_4003_received == unicast_4003 is Some,
        (multicast is Some || unicast_4001 is Some || unicast_4003 is Some) ==> r.verdict@
            == "Govee LAN listener is open — discovery should work."@,
        (multicast is None && unicast_4001 is None && unicast_4003 is None) ==> r.verdict@
            == verdict_silent(),
{
    let mut raw_responses: Vec<String> = Vec::new();
    assert(raw_responses@.map_values(|s: String| s@) =~= Seq::<Seq<char>>::empty());
    push_reply(&mut raw_responses, "multicast: ", &multicast);
    push_reply(&mut raw_responses, "4001/scan: ", &unicast_4001);
    push_reply(&mut raw_responses, "4003/devStatus: ", &unicast_4003);
    assert(raw_responses@.map_values(|s: String| s@) =~= probe_lines(
        multicast,
        unicast_4001,
        unicast_4003,
    ));
    let scan_multicast_received = multicast.is_some();
    let unicast_4001_received = unicast_4001.is_some();
    let unicast_4003_received = unicast_4003.is_some();
    let verdict = if unicast_4003_received || unicast_4001_received || scan_multicast_received {
        String::from_str("Govee LAN listener is open — discovery should work.")
    } else {
        String::from_str(
            "No reply on any Govee LAN port. Likely causes:\n\
             • LAN Control is OFF in Govee Home (toggle it off, wait 5s, toggle on).\n\
             • Device firmware doesn't expose LAN for this SKU.\n\
             • Device is on a different Wi-Fi band/VLAN than this PC.\n\
             • Firewall on the PC is blocking outbound UDP to ports 4001/4003.",
        )
    };
    ProbeReport {
        ip,
        arp_visible: true,
        scan_multicast_received,
        unicast_4001_received,
        unicast_4003_received,
        raw_responses,
        verdict,
    }
}

/// The verdict says the listener is open exactly when at least one of the
/// three probes was answered; a report that received the multicast scan
/// reply never carries the "No reply" verdict, and the answered flags are
/// those of the probes that got a reply.
pub proof fn law_verdict_follows_replies(
    r: ProbeReport,
    ip: Seq<char>,
    multicast: Option<String>,
    unicast_4001: Option<String>,
    unicast_4003: Option<String>,
)
    requires
        report_matches(r, ip, multicast, unicast_4001, unicast_4003),
    ensures
        r.scan_multicast_received <==> multicast is Some,
        r.unicast_4001_received <==> unicast_4001 is Some,
        r.unicast_4003_received <==> unicast_4003 is Some,
        (r.scan_multicast_received || r.unicast_4001_received || r.unicast_4003_received)
            ==> r.verdict@ == "Govee LAN listener is open — discovery should work."@,
        !(r.scan_multicast_received || r.unicast_4001_received || r.unicast_4003_received)
            ==> r.verdict@ == verdict_silent(),
        r.verdict@ == "Govee LAN listener is open — discovery should work."@ || r.verdict@
            == verdict_silent(),
        multicast is Some ==> r.raw_responses@[0]@ == "multicast: "@ + multicast->0@,
        unicast_4003 is Some ==> r.raw_responses@[r.raw_responses@.len() - 1]@
            == "4003/devStatus: "@ + unicast_4003->0@,
        r.raw_responses@.len() == (if multicast is Some { 1int } else { 0int }) + (if unicast_4001 is Some {
            1int
        } else {
            0int
        }) + (if unicast_4003 is Some { 1int } else { 0int }),
{
    let v = r.raw_responses@.map_values(|s: String| s@);
    assert(v.len() == r.raw_responses@.len());
    if multicast is Some {
        assert(v[0] == r.raw_responses@[0]@);
    }
    if unicast_4003 is Some {
        assert(v[v.len() - 1] == r.raw_responses@[v.len() - 1]@);
    }
}

} // verus!
