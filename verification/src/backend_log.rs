//! Texts for the log of the backend's preparation.

use crate::backend_python::{download_percent, shown_percent, DownloadProgress};
use crate::text::{decimal, decimal_string};
use vstd::prelude::*;
use vstd::string::*;

verus! {

/// Bytes in a kilobyte, as sizes are shown.
pub const KB: u64 = 1024;

/// Bytes in a megabyte.
pub const MB: u64 = 1024 * 1024;

/// Bytes in a gigabyte.
pub const GB: u64 = 1024 * 1024 * 1024;

/// `bytes` in tenths of `unit`, rounded to the nearest tenth, and to the
/// even one where two are equally near.
pub open spec fn tenths_of(bytes: u64, unit: u64) -> int
    recommends
        unit > 0,
{
    let scaled = bytes * 10;
    let whole = scaled / (unit as int);
    let rest = scaled % (unit as int);
    if 2 * rest > unit || (2 * rest == unit && whole % 2 == 1) {
        whole + 1
    } else {
        whole
    }
}

/// A number of tenths, written with one decimal.
pub open spec fn one_decimal(tenths: int) -> Seq<char> {
    decimal((tenths / 10) as nat) + "."@ + decimal((tenths % 10) as nat)
}

/// A size as it is shown: in the largest of GB, MB and KB that it
/// reaches, with one decimal; below a kilobyte, in bytes.
pub open spec fn size_text(bytes: u64) -> Seq<char> {
    if bytes >= GB {
        one_decimal(tenths_of(bytes, GB)) + " GB"@
    } else if bytes >= MB {
        one_decimal(tenths_of(bytes, MB)) + " MB"@
    } else if bytes >= KB {
        one_decimal(tenths_of(bytes, KB)) + " KB"@
    } else {
        decimal(bytes as nat) + " B"@
    }
}

fn scaled_text(bytes: u64, unit: u64, suffix: &str) -> (text: String)
    requires
        unit >= 1024,
    ensures
        text@ == one_decimal(tenths_of(bytes, unit)) + suffix@,
{
    let scaled: u128 = (bytes as u128) * 10;
    let whole: u128 = scaled / (unit as u128);
    let rest: u128 = scaled % (unit as u128);
    let tenths: u128 = if 2 * rest > unit as u128 || (2 * rest == unit as u128 && whole % 2 == 1) {
        whole + 1
    } else {
        whole
    };
    assert(tenths == tenths_of(bytes, unit));
    let mut text = decimal_string((tenths / 10) as u64);
    text.append(".");
    let last = decimal_string((tenths % 10) as u64);
    text.append(last.as_str());
    text.append(suffix);
    text
}

/// Renders a size.
pub fn format_bytes(bytes: u64) -> (text: String)
    ensures
        text@ == size_text(bytes),
{
    if bytes >= GB {
        scaled_text(bytes, GB, " GB")
    } else if bytes >= MB {
        scaled_text(bytes, MB, " MB")
    } else if bytes >= KB {
        scaled_text(bytes, KB, " KB")
    } else {
        let mut text = decimal_string(bytes);
        text.append(" B");
        text
    }
}

/// The line that reports a download: with a known total that is not zero,
/// the percentage and both sizes; else the size that has arrived.
pub open spec fn progress_text(progress: DownloadProgress) -> Seq<char> {
    match shown_percent(progress) {
        Some(percent) => "Downloading uv: "@ + decimal(percent as nat) + "% ("@ + size_text(
            progress.received_bytes,
        ) + " / "@ + size_text(progress.total_bytes->0) + ")"@,
        None => "Downloading uv: "@ + size_text(progress.received_bytes),
    }
}

/// Renders the line that reports a download.
pub fn format_download_progress(progress: &DownloadProgress) -> (line: String)
    ensures
        line@ == progress_text(*progress),
{
    let mut line = String::from_str("Downloading uv: ");
    let received = format_bytes(progress.received_bytes);
    match download_percent(progress) {
        Some(percent) => {
            let total = match progress.total_bytes {
                Some(total) => format_bytes(total),
                None => String::from_str(""),
            };
            let share = decimal_string(percent);
            line.append(share.as_str());
            line.append("% (");
            line.append(received.as_str());
            line.append(" / ");
            line.append(total.as_str());
            line.append(")");
        },
        None => {
            line.append(received.as_str());
        },
    }
    line
}

/// The line of output of the backend process, under its label.
pub fn labelled_line(label: &str, line: &str) -> (text: String)
    ensures
        text@ == "["@ + label@ + "] "@ + line@,
{
    let mut text = String::from_str("[");
    text.append(label);
    text.append("] ");
    text.append(line);
    text
}

} // verus!
