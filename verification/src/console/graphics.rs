//! The text of the console's graphics section, made from what the graphics
//! bootstrap reports.

use vstd::prelude::*;
use vstd::string::*;
use crate::console::names::{decimal, decimal_string, hex, on_off, on_off_text, prefixed_hex};

verus! {

/// What the graphics bootstrap reports; addresses are given as integers.
pub struct GraphicsReadings {
    pub bootstrap_active: bool,
    pub ngpu_initialized: bool,
    pub device: Option<usize>,
    pub window: Option<usize>,
    pub queue: Option<usize>,
    pub present_queue: Option<usize>,
    pub active_texture_index: Option<u64>,
    pub active_texture: Option<usize>,
    pub driver_api: Option<(u64, u64)>,
    pub supports_draw_texture: Option<bool>,
    /// How many submit queues are tracked.
    pub queue_count: usize,
    /// The buffer that the tracked submit queues were copied into.
    pub queues: Vec<usize>,
    /// How many window textures are cached.
    pub texture_count: usize,
    /// The buffer that the cached window textures were copied into.
    pub textures: Vec<usize>,
}

/// An address as the `{:p}` format writes a pointer, or `unavailable`.
pub open spec fn pointer_text(address: Option<usize>) -> Seq<char> {
    match address {
        Some(a) => "0x"@ + hex(a as nat, false),
        None => "unavailable"@,
    }
}

/// An address as the `{:p}` format writes a pointer, or `unavailable`.
pub fn option_ptr(address: Option<usize>) -> (text: String)
    ensures
        text@ == pointer_text(address),
{
    match address {
        Some(a) => prefixed_hex(a as u64, false),
        None => String::from_str("unavailable"),
    }
}

/// The non-zero entries among the first `n` of `values`, each as `0x` and
/// hexadecimal digits, separated by `, `.
pub open spec fn listed(values: Seq<usize>, n: nat, upper: bool) -> Seq<char>
    decreases n,
{
    if n == 0 {
        Seq::empty()
    } else {
        let before = listed(values, (n - 1) as nat, upper);
        let v = values[n - 1];
        if v == 0 {
            before
        } else if before.len() == 0 {
            "0x"@ + hex(v as nat, upper)
        } else {
            before + ", "@ + "0x"@ + hex(v as nat, upper)
        }
    }
}

/// How many entries a preview looks at: at most three, and no more than
/// were reported or copied.
pub open spec fn preview_len(count: usize, available: nat) -> nat {
    let n: nat = if count < 3 {
        count as nat
    } else {
        3
    };
    if n < available {
        n
    } else {
        available
    }
}

/// A count followed by a preview of its first entries in brackets, when
/// there is any non-zero one.
pub open spec fn counted_preview(count: usize, values: Seq<usize>, upper: bool) -> Seq<char> {
    let shown = listed(values, preview_len(count, values.len()), upper);
    decimal(count as nat) + if shown.len() == 0 {
        Seq::empty()
    } else {
        " ["@ + shown + "]"@
    }
}

/// Writes `counted_preview`.
fn preview(count: usize, values: &Vec<usize>, upper: bool) -> (text: String)
    ensures
        text@ == counted_preview(count, values@, upper),
{
    let limit: usize = if count < 3 {
        count
    } else {
        3
    };
    let limit = if limit < values.len() {
        limit
    } else {
        values.len()
    };
    let mut shown = String::new();
    let mut i: usize = 0;
    while i < limit
        invariant
            limit <= values@.len(),
            limit == preview_len(count, values@.len()),
            i <= limit,
            shown@ == listed(values@, i as nat, upper),
        decreases limit - i,
    {
        let v = values[i];
        if v != 0 {
            if shown.as_str().unicode_len() != 0 {
                shown.append(", ");
            }
            let entry = prefixed_hex(v as u64, upper);
            shown.append(entry.as_str());
        }
        i = i + 1;
        assert(shown@ =~= listed(values@, i as nat, upper));
    }
    let mut text = decimal_string(count as u64);
    if shown.as_str().unicode_len() != 0 {
        text.append(" [");
        text.append(shown.as_str());
        text.append("]");
    }
    assert(text@ =~= counted_preview(count, values@, upper));
    text
}

/// The text lines of the graphics section.
pub open spec fn graphics_lines_of(r: &GraphicsReadings) -> Seq<Seq<char>> {
    seq![
        "bootstrap active: "@ + on_off_text(r.bootstrap_active) + " | ngpu initialized: "@
            + on_off_text(r.ngpu_initialized),
        "device: "@ + pointer_text(r.device) + " | window: "@ + pointer_text(r.window),
        "queue: "@ + pointer_text(r.queue) + " | present queue: "@ + pointer_text(r.present_queue),
        "active texture index: "@ + match r.active_texture_index {
            Some(i) => decimal(i as nat),
            None => "unavailable"@,
        } + " | active texture: "@ + pointer_text(r.active_texture),
        "driver api: "@ + match r.driver_api {
            Some((major, minor)) => decimal(major as nat) + "."@ + decimal(minor as nat),
            None => "unavailable"@,
        } + " | draw_texture support: "@ + match r.supports_draw_texture {
            Some(b) => on_off_text(b),
            None => "unknown"@,
        },
        "tracked submit queues: "@ + counted_preview(r.queue_count, r.queues@, true),
        "cached window textures: "@ + counted_preview(r.texture_count, r.textures@, false),
    ]
}

/// The text lines of the graphics section: the bootstrap state, the cached
/// device, window, queues and textures, the driver version, and previews of
/// the tracked submit queues and window textures.
pub fn graphics_lines(r: &GraphicsReadings) -> (lines: Vec<String>)
    ensures
        lines@.map_values(|line: String| line@) == graphics_lines_of(r),
{
    let mut lines: Vec<String> = Vec::new();

    let mut line = String::from_str("bootstrap active: ");
    line.append(on_off(r.bootstrap_active));
    line.append(" | ngpu initialized: ");
    line.append(on_off(r.ngpu_initialized));
    assert(line@ =~= graphics_lines_of(r)[0]);
    lines.push(line);

    let mut line = String::from_str("device: ");
    let part = option_ptr(r.device);
    line.append(part.as_str());
    line.append(" | window: ");
    let part = option_ptr(r.window);
    line.append(part.as_str());
    assert(line@ =~= graphics_lines_of(r)[1]);
    lines.push(line);

    let mut line = String::from_str("queue: ");
    let part = option_ptr(r.queue);
    line.append(part.as_str());
    line.append(" | present queue: ");
    let part = option_ptr(r.present_queue);
    line.append(part.as_str());
    assert(line@ =~= graphics_lines_of(r)[2]);
    lines.push(line);

    let mut line = String::from_str("active texture index: ");
    match r.active_texture_index {
        Some(i) => {
            let part = decimal_string(i);
            line.append(part.as_str());
        },
        None => line.append("unavailable"),
    }
    line.append(" | active texture: ");
    let part = option_ptr(r.active_texture);
    line.append(part.as_str());
    assert(line@ =~= graphics_lines_of(r)[3]);
    lines.push(line);

    let mut line = String::from_str("driver api: ");
    match r.driver_api {
        Some((major, minor)) => {
            let part = decimal_string(major);
            line.append(part.as_str());
            line.append(".");
            let part = decimal_string(minor);
            line.append(part.as_str());
        },
        None => line.append("unavailable"),
    }
    line.append(" | draw_texture support: ");
    match r.supports_draw_texture {
        Some(b) => line.append(on_off(b)),
        None => line.append("unknown"),
    }
    assert(line@ =~= graphics_lines_of(r)[4]);
    lines.push(line);

    let mut line = String::from_str("tracked submit queues: ");
    let part = preview(r.queue_count, &r.queues, true);
    line.append(part.as_str());
    assert(line@ =~= graphics_lines_of(r)[5]);
    lines.push(line);

    let mut line = String::from_str("cached window textures: ");
    let part = preview(r.texture_count, &r.textures, false);
    line.append(part.as_str());
    assert(line@ =~= graphics_lines_of(r)[6]);
    lines.push(line);

    assert(lines@.map_values(|line: String| line@) =~= graphics_lines_of(r));
    lines
}

} // verus!
