//! What the front ends share: the endpoints and the rendering of markdown.

pub mod api;

use crate::text::{
    begins_with, chars_of, decimal, decimal_text, find_line_with, first_line_with,
    lemma_until_bounded, scan_until, second_field, text_of, text_without, trim_range, trimmed,
    without,
};
use vstd::prelude::*;
use vstd::string::*;

verus! {

/// The HTML that `pulldown_cmark` renders for a markdown text, with
/// strikethrough, tables, footnotes and task lists switched on.
pub uninterp spec fn rendered_html(markdown: Seq<char>) -> Seq<char>;

/// Renders markdown as HTML with `pulldown_cmark::Parser::new_ext` and
/// `pulldown_cmark::html::push_html`, with strikethrough, tables, footnotes
/// and task lists switched on. The result is trusted to be a function of the
/// text alone.
#[verifier::external_body]
pub fn markdown_to_html(markdown: &str) -> (html: String)
    ensures
        html@ == rendered_html(markdown@),
{
    let mut options = pulldown_cmark::Options::empty();
    options.insert(pulldown_cmark::Options::ENABLE_STRIKETHROUGH);
    options.insert(pulldown_cmark::Options::ENABLE_TABLES);
    options.insert(pulldown_cmark::Options::ENABLE_FOOTNOTES);
    options.insert(pulldown_cmark::Options::ENABLE_TASKLISTS);
    let parser = pulldown_cmark::Parser::new_ext(markdown, options);
    let mut html_output = String::new();
    pulldown_cmark::html::push_html(&mut html_output, parser);
    html_output
}

/// One entry of the directory of graphics devices.
#[derive(Debug, Clone)]
pub struct DrmEntry {
    /// The entry's file name.
    pub name: String,
    /// What the entry's `device/uevent` file holds, where it could be read.
    pub uevent: Option<String>,
}

/// What was read off the machine to describe it.
#[derive(Debug, Clone)]
pub struct SystemProbe {
    /// Number of processors at hand.
    pub cores: usize,
    /// The architecture the program was built for.
    pub arch: String,
    /// The operating system the program was built for.
    pub os: String,
    /// What the processor description file holds, where there is one.
    pub cpuinfo: Option<String>,
    /// The directory of graphics devices, in the order it was read.
    pub graphics: Vec<DrmEntry>,
}

/// What a text in JSON holds under a key.
#[derive(Debug, Clone, PartialEq, Eq)]
pub enum JsonField {
    /// The text is no JSON.
    Invalid,
    /// There is no string under the key.
    Missing,
    /// The string under the key.
    Text(String),
}

/// `JsonField` as a mathematical value.
pub enum JsonFieldView {
    Invalid,
    Missing,
    Text(Seq<char>),
}

impl View for JsonField {
    type V = JsonFieldView;

    open spec fn view(&self) -> JsonFieldView {
        match *self {
            JsonField::Invalid => JsonFieldView::Invalid,
            JsonField::Missing => JsonFieldView::Missing,
            JsonField::Text(text) => JsonFieldView::Text(text@),
        }
    }
}

/// The processor's name as the description file gives it: on the first line
/// that begins with `model name`, what stands between the first colon and
/// the next, without the white space around it.
pub open spec fn model_name_of(cpuinfo: Seq<char>) -> Option<Seq<char>> {
    match first_line_with(cpuinfo, "model name"@) {
        Some(line) => match second_field(line, ':') {
            Some(field) => Some(trimmed(field)),
            None => None,
        },
        None => None,
    }
}

/// Whether a file name in the directory of graphics devices names a card
/// rather than one of its connectors.
pub open spec fn card_device(name: Seq<char>) -> bool {
    "card"@.is_prefix_of(name) && !name.contains('-')
}

/// The driver that a device's `uevent` file names: its first line that
/// begins with `DRIVER=`, with every `DRIVER=` taken out.
pub open spec fn driver_of(uevent: Seq<char>) -> Option<Seq<char>> {
    match first_line_with(uevent, "DRIVER="@) {
        Some(line) => Some(without(line, "DRIVER="@)),
        None => None,
    }
}

/// How a card is called: by its driver where that is known, else by its
/// file name.
pub open spec fn card_name(entry: DrmEntry) -> Seq<char> {
    match entry.uevent {
        Some(uevent) => match driver_of(uevent@) {
            Some(driver) => driver,
            None => entry.name@,
        },
        None => entry.name@,
    }
}

/// The position of the first card among `entries`, or their number where
/// none is a card.
pub open spec fn first_card(entries: Seq<DrmEntry>) -> nat
    decreases entries.len(),
{
    if entries.len() == 0 || card_device(entries[0].name@) {
        0
    } else {
        1 + first_card(entries.skip(1))
    }
}

/// How the graphics processor is described.
pub open spec fn gpu_text(entries: Seq<DrmEntry>) -> Seq<char> {
    if first_card(entries) < entries.len() {
        card_name(entries[first_card(entries) as int]) + " (via WGPU/Burn)"@
    } else {
        "WGPU (Cross-platform GPU via Burn)"@
    }
}

/// How the processor is called: by its model name where the description
/// file gives one, else by architecture and operating system.
pub open spec fn cpu_name_text(cpuinfo: Option<String>, arch: Seq<char>, os: Seq<char>) -> Seq<
    char,
> {
    match cpuinfo {
        Some(content) => match model_name_of(content@) {
            Some(name) => name,
            None => arch + " ("@ + os + ")"@,
        },
        None => arch + " ("@ + os + ")"@,
    }
}

/// How the processor is described.
pub open spec fn cpu_text(probe: SystemProbe) -> Seq<char> {
    cpu_name_text(probe.cpuinfo, probe.arch@, probe.os@) + " ("@ + decimal(probe.cores as nat)
        + " cores)"@
}

/// The JSON object that `serde_json` writes for two string fields.
pub uninterp spec fn json_object(
    first_key: Seq<char>,
    first: Seq<char>,
    second_key: Seq<char>,
    second: Seq<char>,
) -> Seq<char>;

/// What `serde_json` finds under `key` in the text `info`.
pub uninterp spec fn json_field(info: Seq<char>, key: Seq<char>) -> JsonFieldView;

/// The description of the machine, as JSON.
pub open spec fn system_info(probe: SystemProbe) -> Seq<char> {
    json_object("cpu"@, cpu_text(probe), "gpu"@, gpu_text(probe.graphics@))
}

/// What is shown of one field of the description.
pub open spec fn shown_field(label: Seq<char>, field: JsonFieldView) -> Seq<char> {
    label + match field {
        JsonFieldView::Text(text) => text,
        _ => "N/A"@,
    }
}

/// The lines shown for what the description holds under `cpu` and `gpu`:
/// both fields, or the loading line where the description is no JSON.
pub open spec fn field_lines(cpu: JsonFieldView, gpu: JsonFieldView) -> Seq<Seq<char>> {
    if cpu is Invalid {
        seq!["Loading system info"@]
    } else {
        seq![shown_field("CPU: "@, cpu), shown_field("GPU: "@, gpu)]
    }
}

/// The lines shown for the description `info`, or for none while it loads.
pub open spec fn info_lines(info: Option<Seq<char>>) -> Seq<Seq<char>> {
    match info {
        Some(text) => field_lines(json_field(text, "cpu"@), json_field(text, "gpu"@)),
        None => seq!["Loading system info"@],
    }
}

/// Writes a JSON object of two string fields with `serde_json::Map::insert`
/// and `serde_json::Value`'s `Display`. The result is trusted to be a
/// function of the keys and values alone.
#[verifier::external_body]
fn write_json_object(first_key: &str, first: &str, second_key: &str, second: &str) -> (json: String)
    ensures
        json@ == json_object(first_key@, first@, second_key@, second@),
{
    let mut fields = serde_json::Map::new();
    fields.insert(first_key.to_string(), serde_json::Value::String(first.to_string()));
    fields.insert(second_key.to_string(), serde_json::Value::String(second.to_string()));
    serde_json::Value::Object(fields).to_string()
}

/// Reads `info` with `serde_json::from_str` and looks for a string under
/// `key` with `serde_json::Value::get` and `as_str`. The result is trusted to
/// be a function of the two texts alone.
#[verifier::external_body]
fn read_json_field(info: &str, key: &str) -> (field: JsonField)
    ensures
        field@ == json_field(info@, key@),
{
    match serde_json::from_str::<serde_json::Value>(info) {
        Ok(value) => match value.get(key).and_then(|found| found.as_str()) {
            Some(text) => JsonField::Text(text.to_string()),
            None => JsonField::Missing,
        },
        Err(_) => JsonField::Invalid,
    }
}

/// Reads the processor's model name off the description file.
pub fn model_name(cpuinfo: &str) -> (name: Option<String>)
    ensures
        match name {
            Some(text) => model_name_of(cpuinfo@) == Some(text@),
            None => model_name_of(cpuinfo@) is None,
        },
{
    let chars = chars_of(cpuinfo);
    let prefix = chars_of("model name");
    match find_line_with(&chars, &prefix) {
        Some((from, to)) => {
            let ghost line = chars@.subrange(from as int, to as int);
            let colon: usize = scan_until(&chars, from, to, ':');
            if colon >= to {
                None
            } else {
                assert(line.skip(colon - from + 1) =~= chars@.subrange(colon + 1, to as int));
                let next: usize = scan_until(&chars, colon + 1, to, ':');
                assert(chars@.subrange(colon + 1, to as int).take(next - colon - 1)
                    =~= chars@.subrange(colon + 1, next as int));
                let (start, end) = trim_range(&chars, colon + 1, next);
                Some(text_of(&chars, start, end))
            }
        },
        None => None,
    }
}

/// Whether a file name in the directory of graphics devices names a card.
pub fn is_card_device(name: &str) -> (card: bool)
    ensures
        card == card_device(name@),
{
    let chars = chars_of(name);
    let prefix = chars_of("card");
    let len: usize = chars.len();
    assert(chars@.subrange(0, len as int) =~= name@);
    let dash: usize = scan_until(&chars, 0, len, '-');
    proof {
        lemma_until_bounded(name@, '-');
    }
    begins_with(&chars, 0, len, &prefix) && dash == len
}

/// Reads the driver's name off a device's `uevent` file.
pub fn driver_name(uevent: &str) -> (driver: Option<String>)
    ensures
        match driver {
            Some(text) => driver_of(uevent@) == Some(text@),
            None => driver_of(uevent@) is None,
        },
{
    let chars = chars_of(uevent);
    let prefix = chars_of("DRIVER=");
    match find_line_with(&chars, &prefix) {
        Some((from, to)) => Some(text_without(&chars, from, to, &prefix)),
        None => None,
    }
}

/// Describes the graphics processor by the first card in the directory of
/// graphics devices.
pub fn gpu_info(graphics: &Vec<DrmEntry>) -> (text: String)
    ensures
        text@ == gpu_text(graphics@),
{
    let mut i: usize = 0;
    assert(graphics@.skip(0) =~= graphics@);
    while i < graphics.len()
        invariant
            i <= graphics@.len(),
            first_card(graphics@) == i + first_card(graphics@.skip(i as int)),
        decreases graphics@.len() - i,
    {
        let entry = &graphics[i];
        if is_card_device(entry.name.as_str()) {
            let known = match &entry.uevent {
                Some(uevent) => driver_name(uevent.as_str()),
                None => None,
            };
            let mut text = match known {
                Some(driver) => driver,
                None => entry.name.clone(),
            };
            text.append(" (via WGPU/Burn)");
            return text;
        }
        assert(graphics@.skip(i as int).skip(1) =~= graphics@.skip(i + 1));
        i = i + 1;
    }
    String::from_str("WGPU (Cross-platform GPU via Burn)")
}

/// Describes the processor by its name and the number of its cores.
pub fn cpu_info(probe: &SystemProbe) -> (text: String)
    ensures
        text@ == cpu_text(*probe),
{
    let named = match &probe.cpuinfo {
        Some(content) => model_name(content.as_str()),
        None => None,
    };
    let mut text = match named {
        Some(name) => name,
        None => {
            let mut fallback = probe.arch.clone();
            fallback.append(" (");
            fallback.append(probe.os.as_str());
            fallback.append(")");
            fallback
        },
    };
    text.append(" (");
    let cores = decimal_text(probe.cores as u64);
    text.append(cores.as_str());
    text.append(" cores)");
    text
}

/// Describes the machine, as JSON with the fields `cpu` and `gpu`.
pub fn get_system_info(probe: &SystemProbe) -> (json: String)
    ensures
        json@ == system_info(*probe),
{
    let cpu = cpu_info(probe);
    let gpu = gpu_info(&probe.graphics);
    write_json_object("cpu", cpu.as_str(), "gpu", gpu.as_str())
}

/// Words one field of the description for display.
pub fn show_field(label: &str, field: JsonField) -> (text: String)
    ensures
        text@ == shown_field(label@, field@),
{
    let mut text = String::from_str(label);
    match field {
        JsonField::Text(found) => {
            text.append(found.as_str());
        },
        _ => {
            text.append("N/A");
        },
    }
    text
}

/// The lines to show for what the description holds under `cpu` and `gpu`.
pub fn show_fields(cpu: JsonField, gpu: JsonField) -> (lines: Vec<String>)
    ensures
        lines.deep_view() == field_lines(cpu@, gpu@),
{
    let mut lines: Vec<String> = Vec::new();
    let invalid = match &cpu {
        JsonField::Invalid => true,
        _ => false,
    };
    if invalid {
        lines.push(String::from_str("Loading system info"));
    } else {
        let first = show_field("CPU: ", cpu);
        let second = show_field("GPU: ", gpu);
        lines.push(first);
        lines.push(second);
    }
    lines
}

/// The lines to show for the description `info`, or for none while it
/// loads.
pub fn system_info_lines(info: Option<&str>) -> (lines: Vec<String>)
    ensures
        lines.deep_view() == info_lines(
            match info {
                Some(text) => Some(text@),
                None => None,
            },
        ),
{
    match info {
        Some(text) => {
            let cpu = read_json_field(text, "cpu");
            let gpu = read_json_field(text, "gpu");
            show_fields(cpu, gpu)
        },
        None => {
            let mut lines: Vec<String> = Vec::new();
            lines.push(String::from_str("Loading system info"));
            lines
        },
    }
}

} // verus!
