//! The health report: which device the pipeline runs on and how much of its memory is in use.
use vstd::prelude::*;
use vstd::string::*;

use crate::json::{object_text, quote, Member};
use crate::reply::{Reply, ReplyBody};
use crate::text::decimal_text;

verus! {

use crate::json::{member_views, members, object, plain_text_is_quoted_verbatim, quoted};
use crate::reply::{success, text_view, ReplyBodyView};
use crate::text::decimal;

/// What the pipeline reports of one device.
pub struct DeviceResource {
    pub name: String,
    pub selected: bool,
    pub memory_used_bytes: Option<u64>,
    pub memory_budget_bytes: Option<u64>,
}

/// The latest report of the pipeline's resources. It lists no device on a CPU.
pub struct ResourceSnapshot {
    pub devices: Vec<DeviceResource>,
}

/// The health report that the service answers with.
pub struct HealthResponse {
    pub status: &'static str,
    pub device: Option<String>,
    pub vram_used_bytes: Option<u64>,
    pub vram_total_bytes: Option<u64>,
}

/// Whether `i` is the place of the first selected device.
pub open spec fn is_first_selected(devices: Seq<DeviceResource>, i: int) -> bool {
    &&& 0 <= i < devices.len()
    &&& devices[i].selected
    &&& forall|j: int| 0 <= j < i ==> !(#[trigger] devices[j]).selected
}

/// Whether no device is selected.
pub open spec fn none_selected(devices: Seq<DeviceResource>) -> bool {
    forall|j: int| 0 <= j < devices.len() ==> !(#[trigger] devices[j]).selected
}

/// Whether `response` reports on the device at place `i`.
pub open spec fn reports_device(
    response: HealthResponse,
    devices: Seq<DeviceResource>,
    i: int,
) -> bool {
    &&& text_view(response.device) == Some(devices[i].name@)
    &&& response.vram_used_bytes == devices[i].memory_used_bytes
    &&& response.vram_total_bytes == devices[i].memory_budget_bytes
}

/// Whether `response` reports on no device.
pub open spec fn reports_no_device(response: HealthResponse) -> bool {
    &&& response.device is None
    &&& response.vram_used_bytes is None
    &&& response.vram_total_bytes is None
}

/// Reports on the first selected device, or on none where none is selected.
pub fn health(snapshot: &ResourceSnapshot) -> (r: HealthResponse)
    ensures
        r.status@ == "ok"@,
        forall|i: int| #[trigger]
            is_first_selected(snapshot.devices@, i) ==> reports_device(r, snapshot.devices@, i),
        none_selected(snapshot.devices@) ==> reports_no_device(r),
        forall|i: int|
            0 <= i < snapshot.devices@.len() && (#[trigger] snapshot.devices@[i]).selected && (
            forall|j: int| 0 <= j < i ==> !(#[trigger] snapshot.devices@[j]).selected) ==> (
            r.device matches Some(name) && name@ == snapshot.devices@[i].name@)
                && r.vram_used_bytes == snapshot.devices@[i].memory_used_bytes
                && r.vram_total_bytes == snapshot.devices@[i].memory_budget_bytes,
        (forall|i: int|
            0 <= i < snapshot.devices@.len() ==> !(#[trigger] snapshot.devices@[i]).selected) ==> (
        r.device is None && r.vram_used_bytes is None && r.vram_total_bytes is None),
{
    let mut i: usize = 0;
    while i < snapshot.devices.len()
        invariant
            i <= snapshot.devices.len(),
            forall|j: int| 0 <= j < i ==> !(#[trigger] snapshot.devices@[j]).selected,
        decreases snapshot.devices.len() - i,
    {
        let device = &snapshot.devices[i];
        if device.selected {
            let r = HealthResponse {
                status: "ok",
                device: Some(device.name.clone()),
                vram_used_bytes: device.memory_used_bytes,
                vram_total_bytes: device.memory_budget_bytes,
            };
            assert(is_first_selected(snapshot.devices@, i as int));
            assert forall|k: int| #[trigger]
                is_first_selected(snapshot.devices@, k) implies reports_device(
                r,
                snapshot.devices@,
                k,
            ) by {
                assert(k == i);
            }
            return r;
        }
        i = i + 1;
    }
    HealthResponse { status: "ok", device: None, vram_used_bytes: None, vram_total_bytes: None }
}

/// Every report names exactly one device or none: a list of devices has a first selected one,
/// and only one, or it has no selected device at all.
pub proof fn first_selected_is_unique(devices: Seq<DeviceResource>)
    ensures
        none_selected(devices) <==> !(exists|i: int| is_first_selected(devices, i)),
        forall|i: int, j: int|
            is_first_selected(devices, i) && is_first_selected(devices, j) ==> i == j,
    decreases devices.len(),
{
    if !none_selected(devices) {
        let shorter = devices.drop_last();
        first_selected_is_unique(shorter);
        if none_selected(shorter) {
            assert forall|j: int| 0 <= j < devices.len() - 1 implies !(
            #[trigger] devices[j]).selected by {
                assert(!shorter[j].selected);
            }
            assert(is_first_selected(devices, devices.len() - 1));
        } else {
            let i = choose|i: int| is_first_selected(shorter, i);
            assert forall|j: int| 0 <= j < i implies !(#[trigger] devices[j]).selected by {
                assert(!shorter[j].selected);
            }
            assert(shorter[i] == devices[i]);
            assert(is_first_selected(devices, i));
        }
    }
}

/// The JSON text of an optional number.
pub open spec fn number_or_null(n: Option<u64>) -> Seq<char> {
    match n {
        Some(n) => decimal(n as nat),
        None => "null"@,
    }
}

/// The JSON text of an optional string.
pub open spec fn string_or_null(text: Option<Seq<char>>) -> Seq<char> {
    match text {
        Some(text) => quoted(text),
        None => "null"@,
    }
}

/// The health report as compact JSON.
pub open spec fn health_json(response: HealthResponse) -> Seq<char> {
    object(
        seq![
            ("status"@, quoted(response.status@)),
            ("device"@, string_or_null(text_view(response.device))),
            ("vram_used_bytes"@, number_or_null(response.vram_used_bytes)),
            ("vram_total_bytes"@, number_or_null(response.vram_total_bytes)),
        ],
    )
}

fn number_text(n: Option<u64>) -> (r: String)
    ensures
        r@ == number_or_null(n),
{
    match n {
        Some(n) => decimal_text(n),
        None => "null".to_owned(),
    }
}

impl HealthResponse {
    /// The report as compact JSON: absent figures are `null`.
    pub fn to_json(&self) -> (r: String)
        ensures
            r@ == health_json(*self),
    {
        let device = match &self.device {
            Some(name) => quote(name.as_str()),
            None => "null".to_owned(),
        };
        let mut list: Vec<Member> = Vec::new();
        list.push(Member { key: "status", value: quote(self.status) });
        list.push(Member { key: "device", value: device });
        list.push(Member { key: "vram_used_bytes", value: number_text(self.vram_used_bytes) });
        list.push(Member { key: "vram_total_bytes", value: number_text(self.vram_total_bytes) });
        assert(member_views(list@) =~= seq![
            ("status"@, quoted(self.status@)),
            ("device"@, string_or_null(text_view(self.device))),
            ("vram_used_bytes"@, number_or_null(self.vram_used_bytes)),
            ("vram_total_bytes"@, number_or_null(self.vram_total_bytes)),
        ]);
        object_text(&list)
    }

    /// The answer that carries this report.
    pub fn into_response(self) -> (r: Reply)
        ensures
            r@ == success(ReplyBodyView::Json(health_json(self))),
    {
        Reply::ok(ReplyBody::Json(self.to_json()))
    }
}

/// In the text of a report each key is followed by the field of its name: the status and the device
/// as string literals, the used and the total memory as numerals, and what is absent as `null`.
pub proof fn report_reads_field_by_field(response: HealthResponse)
    ensures
        health_json(response) == "{\"status\":"@ + quoted(response.status@) + ",\"device\":"@ + (
        match response.device {
            Some(name) => quoted(name@),
            None => "null"@,
        }) + ",\"vram_used_bytes\":"@ + (match response.vram_used_bytes {
            Some(n) => decimal(n as nat),
            None => "null"@,
        }) + ",\"vram_total_bytes\":"@ + (match response.vram_total_bytes {
            Some(n) => decimal(n as nat),
            None => "null"@,
        }) + "}"@,
{
    let status = ("status"@, quoted(response.status@));
    let device = ("device"@, string_or_null(text_view(response.device)));
    let used = ("vram_used_bytes"@, number_or_null(response.vram_used_bytes));
    let total = ("vram_total_bytes"@, number_or_null(response.vram_total_bytes));
    let list = seq![status, device, used, total];
    reveal_strlit("status");
    reveal_strlit("device");
    reveal_strlit("vram_used_bytes");
    reveal_strlit("vram_total_bytes");
    reveal_strlit("{\"status\":");
    reveal_strlit(",\"device\":");
    reveal_strlit(",\"vram_used_bytes\":");
    reveal_strlit(",\"vram_total_bytes\":");
    reveal_strlit("}");
    plain_text_is_quoted_verbatim("status"@);
    plain_text_is_quoted_verbatim("device"@);
    plain_text_is_quoted_verbatim("vram_used_bytes"@);
    plain_text_is_quoted_verbatim("vram_total_bytes"@);
    assert("{\"status\":"@ =~= seq!['{'] + quoted("status"@) + seq![':']);
    assert(",\"device\":"@ =~= seq![','] + quoted("device"@) + seq![':']);
    assert(",\"vram_used_bytes\":"@ =~= seq![','] + quoted("vram_used_bytes"@) + seq![':']);
    assert(",\"vram_total_bytes\":"@ =~= seq![','] + quoted("vram_total_bytes"@) + seq![':']);
    assert("}"@ =~= seq!['}']);
    assert(list.drop_last() =~= seq![status, device, used]);
    assert(list.drop_last().drop_last() =~= seq![status, device]);
    assert(list.drop_last().drop_last().drop_last() =~= seq![status]);
    reveal_with_fuel(members, 5);
    assert(seq!['{'] + members(seq![status]) =~= "{\"status\":"@ + status.1);
    assert(seq!['{'] + members(seq![status, device]) =~= "{\"status\":"@ + status.1
        + ",\"device\":"@ + device.1);
    assert(seq!['{'] + members(seq![status, device, used]) =~= "{\"status\":"@ + status.1
        + ",\"device\":"@ + device.1 + ",\"vram_used_bytes\":"@ + used.1);
    assert(seq!['{'] + members(list) =~= "{\"status\":"@ + status.1 + ",\"device\":"@ + device.1
        + ",\"vram_used_bytes\":"@ + used.1 + ",\"vram_total_bytes\":"@ + total.1);
}

} // verus!
