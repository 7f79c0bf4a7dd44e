//! What the print and check actions decide before they touch a printer: the lines a
//! print carries, where a job goes, the defaults a device command brings for its
//! transport, the start-up connectivity probe, and the layout of a weighing ticket.

use vstd::prelude::*;
use vstd::utf8::encode_utf8;
use crate::agent::actions::{nonblank, pad_left, pad_left_spec, pad_right, pad_right_spec};
use crate::agent::bridge_config::{port_spec, MqttBridgeConfig, PrinterTargetFields, resolve_tcp_target, tcp_target_spec};
use crate::text::{
    append_chars, append_str, char_is_whitespace, chars_eq_str, chars_of, dec, dec_chars, dec_padded,
    dec_padded_chars, is_digit, is_ws, lower_chars, lower_seq, opt_string_view, opt_view, owned,
    string_of, trim, trim_chars,
};

verus! {

/// The lines a print carries: the payload's `lines` where there are any, else its
/// `text`, else its `data` rendered as JSON after `DATA: `, else a fixed banner.
pub open spec fn action_lines_spec(
    lines: Option<Seq<Seq<char>>>,
    text: Option<Seq<char>>,
    data_json: Option<Seq<char>>,
) -> Seq<Seq<char>> {
    if lines matches Some(l) && l.len() > 0 {
        lines->0
    } else {
        match text {
            Some(t) => seq![t],
            None => match data_json {
                Some(d) => seq!["DATA: "@ + d],
                None => seq!["SCADA ACTION PRINT"@],
            },
        }
    }
}

/// The characters of each string.
pub open spec fn views(v: Seq<String>) -> Seq<Seq<char>> {
    v.map_values(|s: String| s@)
}

/// The characters of each string of an optional list.
pub open spec fn opt_views(v: Option<Vec<String>>) -> Option<Seq<Seq<char>>> {
    match v {
        Some(l) => Some(views(l@)),
        None => None,
    }
}

/// The lines a print carries, given the payload's `lines` (each entry as text), `text`
/// and `data` (as JSON text).
pub fn render_action_lines(lines: Option<Vec<String>>, text: Option<&str>, data_json: Option<&str>) -> (r: Vec<String>)
    ensures
        views(r@) == action_lines_spec(opt_views(lines), opt_view(text), opt_view(data_json)),
{
    if let Some(l) = lines {
        if l.len() > 0 {
            return l;
        }
    }
    let mut out: Vec<String> = Vec::new();
    if let Some(t) = text {
        out.push(owned(t));
    } else if let Some(d) = data_json {
        let mut s = owned("DATA: ");
        append_str(&mut s, d);
        out.push(s);
    } else {
        out.push(owned("SCADA ACTION PRINT"));
    }
    assert(views(out@) =~= action_lines_spec(opt_views(lines), opt_view(text), opt_view(data_json)));
    out
}

/// Whether a plain print is printed from a weight buffer: when the payload names a
/// buffer, or asks for the `from_buffer` mode in any ASCII case.
pub fn wants_buffer_print(has_buffer_id: bool, mode: Option<&str>) -> (r: bool)
    ensures
        r == (has_buffer_id || (mode matches Some(m) && lower_seq(m@) == "from_buffer"@)),
{
    if has_buffer_id {
        return true;
    }
    match mode {
        Some(m) => {
            let v = chars_of(m);
            let l = lower_chars(&v);
            chars_eq_str(&l, "from_buffer")
        },
        None => false,
    }
}

/// The characters of a text that are not white space, in order.
pub open spec fn strip_ws(s: Seq<char>) -> Seq<char>
    decreases s.len(),
{
    if s.len() == 0 {
        s
    } else if is_ws(s.last()) {
        strip_ws(s.drop_last())
    } else {
        strip_ws(s.drop_last()).push(s.last())
    }
}

/// A character that can belong to a written number: a digit, a sign or a point.
pub open spec fn numeric_char(c: char) -> bool {
    is_digit(c) || c == '+' || c == '-' || c == '.'
}

/// Splits a written weight such as `+ 12.5 kg` into its number and its unit: white
/// space is dropped, and the number is the longest leading run of digits, signs and
/// points.
pub fn split_weight_text(t: &str) -> (r: (String, String))
    ensures
        r.0@ + r.1@ == strip_ws(t@),
        forall|i: int| 0 <= i < r.0@.len() ==> numeric_char(#[trigger] r.0@[i]),
        r.1@.len() == 0 || !numeric_char(r.1@[0]),
{
    let v = chars_of(t);
    let mut compact: Vec<char> = Vec::new();
    let mut i: usize = 0;
    while i < v.len()
        invariant
            i <= v@.len(),
            compact@ == strip_ws(v@.subrange(0, i as int)),
        decreases v@.len() - i,
    {
        assert(v@.subrange(0, (i + 1) as int).drop_last() =~= v@.subrange(0, i as int));
        if !char_is_whitespace(v[i]) {
            compact.push(v[i]);
        }
        i = i + 1;
    }
    assert(v@.subrange(0, v@.len() as int) =~= v@);
    let mut k: usize = 0;
    while k < compact.len()
        invariant
            k <= compact@.len(),
            forall|j: int| 0 <= j < k ==> numeric_char(#[trigger] compact@[j]),
        ensures
            k <= compact@.len(),
            forall|j: int| 0 <= j < k ==> numeric_char(#[trigger] compact@[j]),
            k == compact@.len() || !numeric_char(compact@[k as int]),
        decreases compact@.len() - k,
    {
        let c = compact[k];
        if !((c >= '0' && c <= '9') || c == '+' || c == '-' || c == '.') {
            break;
        }
        k = k + 1;
    }
    let mut num: Vec<char> = Vec::new();
    let mut unit: Vec<char> = Vec::new();
    let mut j: usize = 0;
    while j < compact.len()
        invariant
            k <= compact@.len(),
            k == compact@.len() || !numeric_char(compact@[k as int]),
            forall|i: int| 0 <= i < k ==> numeric_char(#[trigger] compact@[i]),
            j <= compact@.len(),
            j <= k ==> num@ == compact@.subrange(0, j as int) && unit@.len() == 0,
            j > k ==> num@ == compact@.subrange(0, k as int) && unit@ == compact@.subrange(k as int, j as int),
        decreases compact@.len() - j,
    {
        if j < k {
            num.push(compact[j]);
        } else {
            unit.push(compact[j]);
        }
        j = j + 1;
        assert(compact@.subrange(0, j as int) =~= compact@.subrange(0, (j - 1) as int).push(compact@[j - 1]));
        assert(j > k ==> compact@.subrange(k as int, j as int) =~= compact@.subrange(k as int, (j - 1) as int).push(
            compact@[j - 1],
        ));
    }
    assert(num@ + unit@ =~= compact@);
    (string_of(&num), string_of(&unit))
}

/// The printer a device command brings along for its arguments.
#[derive(Debug, Clone)]
pub enum PrinterDefault {
    /// A Windows printer share.
    Share(String),
    /// A TCP printer, with its port where the device gives a valid one.
    Tcp { host: String, port: Option<u16> },
}

/// The printer a device command's arguments get from the device's transport: none when
/// the arguments already name a target; else the device's Windows share; else its TCP
/// host, with its port where that fits in 16 bits.
pub fn device_transport_default(
    args_have_target: bool,
    windows_share: Option<&str>,
    tcp_host: Option<&str>,
    tcp_port: Option<u64>,
) -> (r: Option<PrinterDefault>)
    ensures
        args_have_target ==> r is None,
        !args_have_target ==> match nonblank(opt_view(windows_share)) {
            Some(s) => r matches Some(PrinterDefault::Share(x)) && x@ == s,
            None => match nonblank(opt_view(tcp_host)) {
                Some(h) => r matches Some(PrinterDefault::Tcp { host, port }) && host@ == h && port
                    == port_spec(tcp_port),
                None => r is None,
            },
        },
{
    if args_have_target {
        return None;
    }
    if let Some(s) = windows_share {
        let v = chars_of(s);
        let t = trim_chars(&v);
        if t.len() > 0 {
            return Some(PrinterDefault::Share(string_of(&t)));
        }
    }
    if let Some(h) = tcp_host {
        let v = chars_of(h);
        let t = trim_chars(&v);
        if t.len() > 0 {
            let port: Option<u16> = match tcp_port {
                Some(p) => if p <= 65535 {
                    Some(p as u16)
                } else {
                    None
                },
                None => None,
            };
            return Some(PrinterDefault::Tcp { host: string_of(&t), port });
        }
    }
    None
}

/// What a device command's payload holds under `args`.
#[derive(Debug, Clone, Copy, PartialEq, Eq)]
pub enum ArgsKind {
    /// No `args` at all.
    Missing,
    /// An object; its keys are handed over beside it.
    Object,
    /// Any other value.
    Other,
}

/// How the arguments object of a device command is formed from its `args`.
#[derive(Debug, Clone, Copy, PartialEq, Eq)]
pub enum ArgsShape {
    /// An empty object.
    Empty,
    /// The `args` object itself.
    AsGiven,
    /// An object whose one key `value` holds the `args`.
    WrapAsValue,
}

/// What a device command does to its arguments before it runs the sub-action.
#[derive(Debug, Clone)]
pub struct DeviceArgsPlan {
    /// How the arguments object is formed.
    pub shape: ArgsShape,
    /// Whether `device_id` is added, holding the routed device's id.
    pub add_device_id: bool,
    /// The `printer` added from the device's transport, if any.
    pub printer: Option<PrinterDefault>,
}

/// The keys of an argument that names the printer it is meant for.
pub open spec fn target_key(k: Seq<char>) -> bool {
    k == "host"@ || k == "printer_host"@ || k == "printer"@ || k == "share"@ || k == "unc"@
}

/// The keys of the arguments object once formed.
pub open spec fn shaped_keys(kind: ArgsKind, keys: Seq<Seq<char>>) -> Seq<Seq<char>> {
    match kind {
        ArgsKind::Missing => Seq::empty(),
        ArgsKind::Object => keys,
        ArgsKind::Other => seq!["value"@],
    }
}

/// Whether a string is the given key.
fn key_is(s: &String, k: &str) -> (r: bool)
    ensures
        r == (s@ == k@),
{
    let v = chars_of(s.as_str());
    chars_eq_str(&v, k)
}

/// How a device command forms its arguments: from the kind of its `args` (and the keys
/// of an object), with `device_id` added where no such key is there, and a `printer`
/// from the device's transport where no key names a target (see
/// `device_transport_default`).
pub fn plan_device_args(
    kind: ArgsKind,
    keys: &Vec<String>,
    windows_share: Option<&str>,
    tcp_host: Option<&str>,
    tcp_port: Option<u64>,
) -> (r: DeviceArgsPlan)
    ensures
        r.shape == (match kind {
            ArgsKind::Missing => ArgsShape::Empty,
            ArgsKind::Object => ArgsShape::AsGiven,
            ArgsKind::Other => ArgsShape::WrapAsValue,
        }),
        r.add_device_id == !shaped_keys(kind, views(keys@)).contains("device_id"@),
        ({
            let names_target = exists|i: int|
                0 <= i < shaped_keys(kind, views(keys@)).len() && #[trigger] target_key(
                    shaped_keys(kind, views(keys@))[i],
                );
            &&& names_target ==> r.printer is None
            &&& !names_target ==> match nonblank(opt_view(windows_share)) {
                Some(s) => r.printer matches Some(PrinterDefault::Share(x)) && x@ == s,
                None => match nonblank(opt_view(tcp_host)) {
                    Some(h) => r.printer matches Some(PrinterDefault::Tcp { host, port }) && host@ == h
                        && port == port_spec(tcp_port),
                    None => r.printer is None,
                },
            }
        }),
{
    let shape = match kind {
        ArgsKind::Missing => ArgsShape::Empty,
        ArgsKind::Object => ArgsShape::AsGiven,
        ArgsKind::Other => ArgsShape::WrapAsValue,
    };
    let ghost sk = shaped_keys(kind, views(keys@));
    let empty: Vec<String> = Vec::new();
    let wrapped: Vec<String> = vec![owned("value")];
    let ks: &Vec<String> = match kind {
        ArgsKind::Missing => &empty,
        ArgsKind::Object => keys,
        ArgsKind::Other => &wrapped,
    };
    assert(views(ks@) =~= sk);
    let mut has_device_id = false;
    let mut names_target = false;
    let mut i: usize = 0;
    while i < ks.len()
        invariant
            0 <= i <= ks.len(),
            sk == views(ks@),
            has_device_id == exists|j: int| 0 <= j < i && #[trigger] sk[j] == "device_id"@,
            names_target == exists|j: int| 0 <= j < i && #[trigger] target_key(sk[j]),
        decreases ks.len() - i,
    {
        let k = &ks[i];
        assert(sk[i as int] == k@);
        if key_is(k, "device_id") {
            has_device_id = true;
        }
        if key_is(k, "host") || key_is(k, "printer_host") || key_is(k, "printer") || key_is(k, "share")
            || key_is(k, "unc") {
            names_target = true;
            assert(target_key(sk[i as int]));
        }
        i = i + 1;
    }
    let printer = device_transport_default(names_target, windows_share, tcp_host, tcp_port);
    DeviceArgsPlan { shape, add_device_id: !has_device_id, printer }
}

/// `host:port`.
pub open spec fn addr_spec(host: Seq<char>, port: u16) -> Seq<char> {
    host + ":"@ + dec(port as nat)
}

/// `host:port`.
pub fn format_addr(host: &str, port: u16) -> (r: String)
    ensures
        r@ == addr_spec(host@, port),
{
    let mut s = owned(host);
    append_str(&mut s, ":");
    let d = dec_chars(port as u64);
    append_chars(&mut s, &d);
    s
}

/// Where a print job goes.
#[derive(Debug, Clone)]
pub enum PrintDestination {
    /// A Windows printer share.
    WindowsShare(String),
    /// A TCP printer at this address.
    Tcp(String),
    /// The configured ESC/POS output file.
    File,
}

/// Where a print job goes: to the Windows share where one is resolved, else to the TCP
/// printer where a host is resolved, else to the output file.
pub fn print_destination(share: Option<String>, tcp_host: Option<String>, tcp_port: u16) -> (r: PrintDestination)
    ensures
        match share {
            Some(s) => r matches PrintDestination::WindowsShare(x) && x == s,
            None => match tcp_host {
                Some(h) => r matches PrintDestination::Tcp(a) && a@ == addr_spec(h@, tcp_port),
                None => r matches PrintDestination::File,
            },
        },
{
    match share {
        Some(s) => PrintDestination::WindowsShare(s),
        None => match tcp_host {
            Some(h) => PrintDestination::Tcp(format_addr(h.as_str(), tcp_port)),
            None => PrintDestination::File,
        },
    }
}

/// The line written before a job appended to the output file:
/// `--- <time> request_id=<id or -> action=<type> ---`, between newlines.
pub fn escpos_file_header(timestamp: &str, request_id: Option<&str>, action_type: &str) -> (r: String)
    ensures
        r@ == "\n--- "@ + timestamp@ + " request_id="@ + (match request_id {
            Some(id) => id@,
            None => "-"@,
        }) + " action="@ + action_type@ + " ---\n"@,
{
    let mut s = owned("\n--- ");
    append_str(&mut s, timestamp);
    append_str(&mut s, " request_id=");
    match request_id {
        Some(id) => append_str(&mut s, id),
        None => append_str(&mut s, "-"),
    }
    append_str(&mut s, " action=");
    append_str(&mut s, action_type);
    append_str(&mut s, " ---\n");
    s
}

/// The timeout of a connectivity check: the requested one, else the configured one, but
/// at least 100 ms.
pub open spec fn check_timeout_spec(requested: Option<u64>, configured: u64) -> u64 {
    let t = match requested {
        Some(t) => t,
        None => configured,
    };
    if t < 100 {
        100
    } else {
        t
    }
}

/// What a connectivity check connects to.
#[derive(Debug, Clone)]
pub enum CheckTarget {
    /// A TCP connection to this address.
    Tcp { addr: String, timeout_ms: u64 },
    /// Access to this Windows share.
    Share { share: String, timeout_ms: u64 },
}

/// What a connectivity check connects to: the TCP printer where a host is resolved,
/// else the Windows share; with neither, an error.
pub fn plan_connection_check(
    tcp_host: Option<String>,
    tcp_port: u16,
    share: Option<String>,
    requested_timeout_ms: Option<u64>,
    configured_timeout_ms: u64,
) -> (r: Result<CheckTarget, String>)
    ensures
        match tcp_host {
            Some(h) => r matches Ok(CheckTarget::Tcp { addr, timeout_ms }) && addr@ == addr_spec(h@, tcp_port)
                && timeout_ms == check_timeout_spec(requested_timeout_ms, configured_timeout_ms),
            None => match share {
                Some(s) => r matches Ok(CheckTarget::Share { share: x, timeout_ms }) && x == s && timeout_ms
                    == check_timeout_spec(requested_timeout_ms, configured_timeout_ms),
                None => r matches Err(e) && e@
                    == "connection.check requires host/port or windows printer share (payload.printer.share)"@,
            },
        },
{
    let t = match requested_timeout_ms {
        Some(t) => t,
        None => configured_timeout_ms,
    };
    let timeout_ms = if t < 100 {
        100
    } else {
        t
    };
    match tcp_host {
        Some(h) => Ok(CheckTarget::Tcp { addr: format_addr(h.as_str(), tcp_port), timeout_ms }),
        None => match share {
            Some(s) => Ok(CheckTarget::Share { share: s, timeout_ms }),
            None => Err(
                owned("connection.check requires host/port or windows printer share (payload.printer.share)"),
            ),
        },
    }
}

/// How a connection attempt ended.
#[derive(Debug, Clone)]
pub enum ConnectOutcome {
    Connected,
    /// The attempt failed with this error text.
    Failed(String),
    /// The attempt did not finish in time.
    TimedOut,
}

/// The result of a connectivity check's TCP attempt.
pub fn tcp_check_result(addr: &str, timeout_ms: u64, outcome: ConnectOutcome) -> (r: Result<(), String>)
    ensures
        match outcome {
            ConnectOutcome::Connected => r is Ok,
            ConnectOutcome::Failed(e) => r matches Err(m) && m@ == "connection.check failed '"@ + addr@
                + "': "@ + e@,
            ConnectOutcome::TimedOut => r matches Err(m) && m@ == "connection.check timeout '"@ + addr@
                + "' after "@ + dec(timeout_ms as nat) + " ms"@,
        },
{
    match outcome {
        ConnectOutcome::Connected => Ok(()),
        ConnectOutcome::Failed(e) => {
            let mut m = owned("connection.check failed '");
            append_str(&mut m, addr);
            append_str(&mut m, "': ");
            append_str(&mut m, e.as_str());
            Err(m)
        },
        ConnectOutcome::TimedOut => {
            let mut m = owned("connection.check timeout '");
            append_str(&mut m, addr);
            append_str(&mut m, "' after ");
            let d = dec_chars(timeout_ms);
            append_chars(&mut m, &d);
            append_str(&mut m, " ms");
            Err(m)
        },
    }
}

/// The start-up probe of the on-demand printer: which device it reports for, where it
/// connects, and how long it waits.
#[derive(Debug, Clone)]
pub struct ProbePlan {
    pub connection_id: String,
    pub device_id: String,
    pub addr: String,
    pub timeout_ms: u64,
}

/// No printer field given by a payload.
pub open spec fn no_fields() -> PrinterTargetFields {
    PrinterTargetFields {
        nested_host: None,
        printer_host: None,
        host: None,
        nested_port: None,
        printer_port: None,
        port: None,
        nested_share: None,
        nested_path: None,
        share: None,
        unc: None,
    }
}

/// Whether and how the start-up probe runs: only when enabled, with a connection id,
/// a device id and a configured TCP host; it waits at least 100 ms.
pub fn plan_startup_probe(cfg: &MqttBridgeConfig) -> (r: Option<ProbePlan>)
    ensures
        r is Some <==> (cfg.on_demand_probe_enabled && nonblank(opt_string_view(cfg.on_demand_probe_connection_id))
            is Some && nonblank(opt_string_view(cfg.on_demand_probe_device_id)) is Some && tcp_target_spec(
            *cfg,
            no_fields(),
        ).0 is Some),
        r matches Some(p) ==> {
            &&& p.connection_id@ == nonblank(opt_string_view(cfg.on_demand_probe_connection_id))->0
            &&& p.device_id@ == nonblank(opt_string_view(cfg.on_demand_probe_device_id))->0
            &&& p.addr@ == addr_spec(tcp_target_spec(*cfg, no_fields()).0->0, tcp_target_spec(*cfg, no_fields()).1)
            &&& p.timeout_ms == (if cfg.on_demand_probe_timeout_ms < 100 {
                100
            } else {
                cfg.on_demand_probe_timeout_ms
            })
        },
{
    if !cfg.on_demand_probe_enabled {
        return None;
    }
    let connection_id = match &cfg.on_demand_probe_connection_id {
        Some(c) => {
            let v = chars_of(c.as_str());
            let t = trim_chars(&v);
            if t.len() == 0 {
                return None;
            }
            string_of(&t)
        },
        None => return None,
    };
    let device_id = match &cfg.on_demand_probe_device_id {
        Some(d) => {
            let v = chars_of(d.as_str());
            let t = trim_chars(&v);
            if t.len() == 0 {
                return None;
            }
            string_of(&t)
        },
        None => return None,
    };
    let fields = PrinterTargetFields {
        nested_host: None,
        printer_host: None,
        host: None,
        nested_port: None,
        printer_port: None,
        port: None,
        nested_share: None,
        nested_path: None,
        share: None,
        unc: None,
    };
    let (host, port) = resolve_tcp_target(cfg, &fields);
    let host = match host {
        Some(h) => h,
        None => return None,
    };
    let timeout_ms = if cfg.on_demand_probe_timeout_ms < 100 {
        100
    } else {
        cfg.on_demand_probe_timeout_ms
    };
    Some(ProbePlan { connection_id, device_id, addr: format_addr(host.as_str(), port), timeout_ms })
}

/// The state and reason the start-up probe reports for its outcome.
pub fn probe_report(plan: &ProbePlan, outcome: ConnectOutcome) -> (r: (String, String))
    ensures
        match outcome {
            ConnectOutcome::Connected => r.0@ == "Connected"@ && r.1@ == "startup_probe_ok"@,
            ConnectOutcome::Failed(e) => r.0@ == "Error"@ && r.1@ == "startup_probe_failed '"@ + plan.addr@
                + "' : "@ + e@,
            ConnectOutcome::TimedOut => r.0@ == "Error"@ && r.1@ == "startup_probe_timeout '"@ + plan.addr@
                + "' after "@ + dec(plan.timeout_ms as nat) + " ms"@,
        },
{
    match outcome {
        ConnectOutcome::Connected => (owned("Connected"), owned("startup_probe_ok")),
        ConnectOutcome::Failed(e) => {
            let mut m = owned("startup_probe_failed '");
            append_str(&mut m, plan.addr.as_str());
            append_str(&mut m, "' : ");
            append_str(&mut m, e.as_str());
            (owned("Error"), m)
        },
        ConnectOutcome::TimedOut => {
            let mut m = owned("startup_probe_timeout '");
            append_str(&mut m, plan.addr.as_str());
            append_str(&mut m, "' after ");
            let d = dec_chars(plan.timeout_ms);
            append_chars(&mut m, &d);
            append_str(&mut m, " ms");
            (owned("Error"), m)
        },
    }
}

/// What an absent description or batch prints as.
pub open spec fn blank_field() -> Seq<char> {
    "___________________"@
}

/// The first of two optional values that is present.
pub open spec fn first_present(a: Option<Seq<char>>, b: Option<Seq<char>>) -> Option<Seq<char>> {
    match a {
        Some(x) => Some(x),
        None => b,
    }
}

/// The equipment named on a weighing ticket: the device's name (`device.name`, else
/// `device_name`), else its id (`device.id`, then `device_id`), each trimmed and only
/// when not blank; else `unknown-device`.
pub open spec fn device_name_spec(
    nested_name: Option<Seq<char>>,
    device_name: Option<Seq<char>>,
    nested_id: Option<Seq<char>>,
    device_id: Option<Seq<char>>,
) -> Seq<char> {
    match nonblank(first_present(nested_name, device_name)) {
        Some(n) => n,
        None => match nonblank(nested_id) {
            Some(n) => n,
            None => match nonblank(device_id) {
                Some(n) => n,
                None => "unknown-device"@,
            },
        },
    }
}

/// The number a ticket is printed under: the requested one, else the current time in
/// milliseconds modulo one million.
pub open spec fn print_number_spec(print_id: Option<i64>, now_ms: i64) -> i64 {
    match print_id {
        Some(p) => p,
        None => ((now_ms as int) % 1_000_000int) as i64,
    }
}

/// `{:06}` of a signed number: six digits, zero-padded, a minus sign taking one place.
pub open spec fn print_id_text(n: i64) -> Seq<char> {
    if n < 0 {
        "-"@ + dec_padded((-n) as nat, 5)
    } else {
        dec_padded(n as nat, 6)
    }
}

/// The header fields of a weighing ticket.
#[derive(Debug, Clone)]
pub struct WeightTicketHeader {
    pub description: String,
    pub batch: String,
    pub device_name: String,
    pub print_id: String,
    pub buffer_id: String,
}

fn nonblank_or(o: Option<&str>, default: &str) -> (r: String)
    ensures
        r@ == (match nonblank(opt_view(o)) {
            Some(x) => x,
            None => default@,
        }),
{
    match o {
        Some(s) => {
            let v = chars_of(s);
            let t = trim_chars(&v);
            if t.len() > 0 {
                string_of(&t)
            } else {
                owned(default)
            }
        },
        None => owned(default),
    }
}

fn nonblank_opt(o: Option<&str>) -> (r: Option<String>)
    ensures
        opt_string_view(r) == nonblank(opt_view(o)),
{
    match o {
        Some(s) => {
            let v = chars_of(s);
            let t = trim_chars(&v);
            if t.len() > 0 {
                Some(string_of(&t))
            } else {
                None
            }
        },
        None => None,
    }
}

fn first_present_str<'a>(a: Option<&'a str>, b: Option<&'a str>) -> (r: Option<&'a str>)
    ensures
        opt_view(r) == first_present(opt_view(a), opt_view(b)),
{
    match a {
        Some(x) => Some(x),
        None => b,
    }
}

/// The number a ticket is printed under.
pub fn print_number(print_id: Option<i64>, now_ms: i64) -> (r: i64)
    ensures
        r == print_number_spec(print_id, now_ms),
{
    match print_id {
        Some(p) => p,
        None => {
            if now_ms >= 0 {
                let m: u64 = now_ms as u64;
                (m % 1_000_000) as i64
            } else {
                let m: u64 = (-(now_ms as i128)) as u64;
                let q: u64 = m % 1_000_000;
                let r: u64 = if q == 0 {
                    0
                } else {
                    1_000_000 - q
                };
                assert(r as int == (now_ms as int) % 1_000_000int) by (nonlinear_arith)
                    requires
                        now_ms < 0,
                        m as int == -now_ms,
                        q as int == m as int % 1_000_000int,
                        r as int == (if q == 0 {
                            0int
                        } else {
                            1_000_000int - q
                        }),
                ;
                r as i64
            }
        },
    }
}

/// `{:06}` of a ticket number.
pub fn format_print_id(n: i64) -> (r: String)
    ensures
        r@ == print_id_text(n),
{
    if n < 0 {
        let m: u64 = (-(n as i128)) as u64;
        let mut s = owned("-");
        let d = dec_padded_chars(m, 5);
        append_chars(&mut s, &d);
        s
    } else {
        let d = dec_padded_chars(n as u64, 6);
        string_of(&d)
    }
}

/// The header of a weighing ticket from the payload's fields: the description and the
/// batch (`batch`, else `lote`) trimmed, with a line of underscores where blank; the
/// equipment; the ticket number; and the buffer printed.
pub fn resolve_weight_ticket_header(
    description: Option<&str>,
    batch: Option<&str>,
    lote: Option<&str>,
    nested_device_name: Option<&str>,
    device_name: Option<&str>,
    nested_device_id: Option<&str>,
    device_id: Option<&str>,
    print_id: Option<i64>,
    now_ms: i64,
    buffer_id: &str,
) -> (r: WeightTicketHeader)
    ensures
        r.description@ == (match nonblank(opt_view(description)) {
            Some(x) => x,
            None => blank_field(),
        }),
        r.batch@ == (match nonblank(first_present(opt_view(batch), opt_view(lote))) {
            Some(x) => x,
            None => blank_field(),
        }),
        r.device_name@ == device_name_spec(
            opt_view(nested_device_name),
            opt_view(device_name),
            opt_view(nested_device_id),
            opt_view(device_id),
        ),
        r.print_id@ == print_id_text(print_number_spec(print_id, now_ms)),
        r.buffer_id@ == buffer_id@,
{
    let desc = nonblank_or(description, "___________________");
    let lot = nonblank_or(first_present_str(batch, lote), "___________________");
    let name = match nonblank_opt(first_present_str(nested_device_name, device_name)) {
        Some(n) => n,
        None => match nonblank_opt(nested_device_id) {
            Some(n) => n,
            None => nonblank_or(device_id, "unknown-device"),
        },
    };
    let n = print_number(print_id, now_ms);
    WeightTicketHeader {
        description: desc,
        batch: lot,
        device_name: name,
        print_id: format_print_id(n),
        buffer_id: owned(buffer_id),
    }
}

/// The number of decimals a ticket prints: the requested number up to six, else four.
pub fn ticket_decimals(decimals: Option<u64>) -> (r: usize)
    ensures
        r == (match decimals {
            Some(d) => if d < 6 {
                d
            } else {
                6
            },
            None => 4,
        }),
{
    match decimals {
        Some(d) => if d < 6 {
            d as usize
        } else {
            6
        },
        None => 4,
    }
}

/// The first unit, among those of the samples in order, that is not blank, trimmed.
pub open spec fn first_unit(units: Seq<Seq<char>>) -> Seq<char>
    decreases units.len(),
{
    if units.len() == 0 {
        Seq::empty()
    } else if trim(units[0]).len() > 0 {
        trim(units[0])
    } else {
        first_unit(units.drop_first())
    }
}

/// The unit a ticket's statistics are printed in.
pub fn ticket_unit(units: &Vec<String>) -> (r: String)
    ensures
        r@ == first_unit(views(units@)),
{
    let mut i: usize = 0;
    assert(views(units@).subrange(0, units@.len() as int) =~= views(units@));
    while i < units.len()
        invariant
            i <= units@.len(),
            first_unit(views(units@)) == first_unit(views(units@).subrange(i as int, units@.len() as int)),
        decreases units@.len() - i,
    {
        let ghost rest = views(units@).subrange(i as int, units@.len() as int);
        assert(rest[0] == units@[i as int]@);
        assert(rest.drop_first() =~= views(units@).subrange(i + 1, units@.len() as int));
        let v = chars_of(units[i].as_str());
        let t = trim_chars(&v);
        if t.len() > 0 {
            return string_of(&t);
        }
        i = i + 1;
    }
    String::new()
}

/// The UTF-8 length of a text, as `str::len` reports it.
pub open spec fn byte_len(s: Seq<char>) -> nat {
    (encode_utf8(s).len() as usize) as nat
}

/// `pad_right` on characters.
pub open spec fn padr(s: Seq<char>, n: nat) -> Seq<char> {
    pad_right_spec(s, byte_len(s), n)
}

/// `pad_left` on characters.
pub open spec fn padl(s: Seq<char>, n: nat) -> Seq<char> {
    pad_left_spec(s, byte_len(s), n)
}

/// The line of the `i`-th sample (from zero): `N01`, `N02`, ... then the value and the
/// unit, right-aligned.
pub open spec fn sample_line(i: int, value: Seq<char>, unit: Seq<char>) -> Seq<char> {
    padr("N"@ + dec_padded((i + 1) as nat, 2), 12) + padl(value, 20) + padl(unit, 2)
}

/// A line of the statistics block.
pub open spec fn stat_line(label: Seq<char>, value: Seq<char>, unit: Seq<char>) -> Seq<char> {
    padr(label, 12) + padl(value, 20) + padl(unit, 2)
}

/// The lines of a weighing ticket: the header, the time span of the samples, one line
/// per sample, and the statistics block with the signature line.
pub open spec fn weight_ticket_spec(
    h: WeightTicketHeader,
    span: Option<(Seq<char>, Seq<char>)>,
    rows: Seq<(String, String)>,
    count: nat,
    min: Seq<char>,
    max: Seq<char>,
    avg: Seq<char>,
    std: Seq<char>,
    cv: Seq<char>,
    unit: Seq<char>,
) -> Seq<Seq<char>> {
    seq![
        padr("Descripcion:"@, 12) + padl(h.description@, 26),
        padr("Lote:"@, 12) + padl(h.batch@, 26),
        padr("Equipo:"@, 12) + h.device_name@ + padl("#"@, 5) + h.print_id@,
        "BUFFER: "@ + h.buffer_id@,
        Seq::empty(),
        "===============< Datos >==============="@,
    ] + span_lines_spec(span) + Seq::new(rows.len(), |i: int| sample_line(i, rows[i].0@, rows[i].1@)) + seq![
        Seq::empty(),
        "===========< Estadisticas >==========="@,
        "COUNT: "@ + dec(count),
        padr("N:"@, 12) + padl(dec(count), 26),
        stat_line("Min:"@, min, unit),
        stat_line("Max:"@, max, unit),
        stat_line("Promedio:"@, avg, unit),
        stat_line("Std:"@, std, unit),
        stat_line("CV:"@, cv, "%"@),
        "--------------------------------------"@,
        Seq::empty(),
        Seq::empty(),
        "Firma_________________________________"@,
    ]
}

/// In a weighing ticket the line labelled `Min:` shows the minimum handed in, `Max:`
/// the maximum, `Promedio:` the average, `Std:` the deviation (all in the ticket's unit)
/// and `CV:` the coefficient of variation in percent: each is the label padded to 12,
/// then the value right-aligned to 20, then the unit; they stand right after the `N:`
/// line, which follows the header, the span and the samples.
pub proof fn lemma_ticket_min_max_lines(
    h: WeightTicketHeader,
    span: Option<(Seq<char>, Seq<char>)>,
    rows: Seq<(String, String)>,
    count: nat,
    min: Seq<char>,
    max: Seq<char>,
    avg: Seq<char>,
    std: Seq<char>,
    cv: Seq<char>,
    unit: Seq<char>,
)
    ensures
        ({
            let lines = weight_ticket_spec(h, span, rows, count, min, max, avg, std, cv, unit);
            let n: int = 6 + (if span is Some { 2int } else { 0int }) + rows.len();
            &&& lines.len() == n + 13
            &&& lines[n + 3] == padr("N:"@, 12) + padl(dec(count), 26)
            &&& lines[n + 4] == padr("Min:"@, 12) + padl(min, 20) + padl(unit, 2)
            &&& lines[n + 5] == padr("Max:"@, 12) + padl(max, 20) + padl(unit, 2)
            &&& lines[n + 6] == padr("Promedio:"@, 12) + padl(avg, 20) + padl(unit, 2)
            &&& lines[n + 7] == padr("Std:"@, 12) + padl(std, 20) + padl(unit, 2)
            &&& lines[n + 8] == padr("CV:"@, 12) + padl(cv, 20) + padl("%"@, 2)
        }),
{
    let lines = weight_ticket_spec(h, span, rows, count, min, max, avg, std, cv, unit);
    let head = seq![
        padr("Descripcion:"@, 12) + padl(h.description@, 26),
        padr("Lote:"@, 12) + padl(h.batch@, 26),
        padr("Equipo:"@, 12) + h.device_name@ + padl("#"@, 5) + h.print_id@,
        "BUFFER: "@ + h.buffer_id@,
        Seq::<char>::empty(),
        "===============< Datos >==============="@,
    ];
    let body = Seq::new(rows.len(), |i: int| sample_line(i, rows[i].0@, rows[i].1@));
    let tail = seq![
        Seq::<char>::empty(),
        "===========< Estadisticas >==========="@,
        "COUNT: "@ + dec(count),
        padr("N:"@, 12) + padl(dec(count), 26),
        stat_line("Min:"@, min, unit),
        stat_line("Max:"@, max, unit),
        stat_line("Promedio:"@, avg, unit),
        stat_line("Std:"@, std, unit),
        stat_line("CV:"@, cv, "%"@),
        "--------------------------------------"@,
        Seq::<char>::empty(),
        Seq::<char>::empty(),
        "Firma_________________________________"@,
    ];
    let pre = head + span_lines_spec(span) + body;
    assert(lines == pre + tail);
    assert(pre.len() == 6 + (if span is Some { 2int } else { 0int }) + rows.len());
    assert(lines[pre.len() as int + 3] == tail[3]);
    assert(lines[pre.len() as int + 4] == tail[4]);
    assert(lines[pre.len() as int + 5] == tail[5]);
    assert(lines[pre.len() as int + 6] == tail[6]);
    assert(lines[pre.len() as int + 7] == tail[7]);
    assert(lines[pre.len() as int + 8] == tail[8]);
}

/// The characters of an optional pair of texts.
pub open spec fn span_views(span: Option<(String, String)>) -> Option<(Seq<char>, Seq<char>)> {
    match span {
        Some((a, b)) => Some((a@, b@)),
        None => None,
    }
}

/// The lines of the time span of the samples, where there is one.
pub open spec fn span_lines_spec(span: Option<(Seq<char>, Seq<char>)>) -> Seq<Seq<char>> {
    match span {
        Some((a, b)) => seq![padr("Inicio:"@, 12) + padl(a, 26), padr("Fin:"@, 12) + padl(b, 26)],
        None => Seq::empty(),
    }
}

/// `a` then `b`.
fn cat2(a: String, b: &str) -> (r: String)
    ensures
        r@ == a@ + b@,
{
    let mut s = a;
    append_str(&mut s, b);
    s
}

/// A line of the statistics block.
fn stat_line_text(label: &str, value: &str, unit: &str) -> (r: String)
    ensures
        r@ == stat_line(label@, value@, unit@),
{
    let a = pad_right(label, 12);
    let b = pad_left(value, 20);
    let c = pad_left(unit, 2);
    cat2(cat2(a, b.as_str()), c.as_str())
}

/// The lines of a weighing ticket for its header, the formatted first and last sample
/// times, the formatted value and unit of each sample, the sample count, and the
/// formatted statistics in the ticket's unit.
pub fn weight_ticket_lines(
    h: &WeightTicketHeader,
    span: Option<(String, String)>,
    rows: &Vec<(String, String)>,
    count: usize,
    min: &str,
    max: &str,
    avg: &str,
    std: &str,
    cv: &str,
    unit: &str,
) -> (r: Vec<String>)
    ensures
        views(r@) == weight_ticket_spec(
            *h,
            span_views(span),
            rows@,
            count as nat,
            min@,
            max@,
            avg@,
            std@,
            cv@,
            unit@,
        ),
{
    let mut out: Vec<String> = Vec::new();
    out.push(cat2(pad_right("Descripcion:", 12), pad_left(h.description.as_str(), 26).as_str()));
    out.push(cat2(pad_right("Lote:", 12), pad_left(h.batch.as_str(), 26).as_str()));
    let equipo = cat2(cat2(pad_right("Equipo:", 12), h.device_name.as_str()), pad_left("#", 5).as_str());
    out.push(cat2(equipo, h.print_id.as_str()));
    out.push(cat2(owned("BUFFER: "), h.buffer_id.as_str()));
    out.push(String::new());
    out.push(owned("===============< Datos >==============="));
    let ghost head = seq![
        padr("Descripcion:"@, 12) + padl(h.description@, 26),
        padr("Lote:"@, 12) + padl(h.batch@, 26),
        padr("Equipo:"@, 12) + h.device_name@ + padl("#"@, 5) + h.print_id@,
        "BUFFER: "@ + h.buffer_id@,
        Seq::<char>::empty(),
        "===============< Datos >==============="@,
    ];
    assert(views(out@) =~= head);
    let ghost span_lines: Seq<Seq<char>> = span_lines_spec(span_views(span));
    match &span {
        Some((a, b)) => {
            out.push(cat2(pad_right("Inicio:", 12), pad_left(a.as_str(), 26).as_str()));
            out.push(cat2(pad_right("Fin:", 12), pad_left(b.as_str(), 26).as_str()));
        },
        None => {},
    }
    assert(views(out@) =~= head + span_lines);
    let mut i: usize = 0;
    while i < rows.len()
        invariant
            i <= rows@.len(),
            views(out@) == head + span_lines + Seq::new(
                i as nat,
                |j: int| sample_line(j, rows@[j].0@, rows@[j].1@),
            ),
        decreases rows@.len() - i,
    {
        let mut label = owned("N");
        let d = dec_padded_chars((i as u64) + 1, 2);
        append_chars(&mut label, &d);
        let a = pad_right(label.as_str(), 12);
        let b = pad_left(rows[i].0.as_str(), 20);
        let c = pad_left(rows[i].1.as_str(), 2);
        let line = cat2(cat2(a, b.as_str()), c.as_str());
        assert(line@ == sample_line(i as int, rows@[i as int].0@, rows@[i as int].1@));
        let ghost before = views(out@);
        out.push(line);
        assert(views(out@) =~= before.push(line@));
        assert(Seq::new((i + 1) as nat, |j: int| sample_line(j, rows@[j].0@, rows@[j].1@)) =~= Seq::new(
            i as nat,
            |j: int| sample_line(j, rows@[j].0@, rows@[j].1@),
        ).push(line@));
        i = i + 1;
    }
    let ghost mid = views(out@);
    let cnt = dec_chars(count as u64);
    let cnt_s = string_of(&cnt);
    out.push(String::new());
    out.push(owned("===========< Estadisticas >==========="));
    out.push(cat2(owned("COUNT: "), cnt_s.as_str()));
    out.push(cat2(pad_right("N:", 12), pad_left(cnt_s.as_str(), 26).as_str()));
    out.push(stat_line_text("Min:", min, unit));
    out.push(stat_line_text("Max:", max, unit));
    out.push(stat_line_text("Promedio:", avg, unit));
    out.push(stat_line_text("Std:", std, unit));
    out.push(stat_line_text("CV:", cv, "%"));
    out.push(owned("--------------------------------------"));
    out.push(String::new());
    out.push(String::new());
    out.push(owned("Firma_________________________________"));
    let ghost tail = seq![
        Seq::<char>::empty(),
        "===========< Estadisticas >==========="@,
        "COUNT: "@ + dec(count as nat),
        padr("N:"@, 12) + padl(dec(count as nat), 26),
        stat_line("Min:"@, min@, unit@),
        stat_line("Max:"@, max@, unit@),
        stat_line("Promedio:"@, avg@, unit@),
        stat_line("Std:"@, std@, unit@),
        stat_line("CV:"@, cv@, "%"@),
        "--------------------------------------"@,
        Seq::<char>::empty(),
        Seq::<char>::empty(),
        "Firma_________________________________"@,
    ];
    assert(views(out@) =~= mid + tail);
    out
}

} // verus!
