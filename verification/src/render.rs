//! The lines the tool prints, with their terminal colours.
//!
//! Durations are written by the application (their text comes from
//! floating-point values); everything around them is laid out here.

use vstd::prelude::*;
use crate::model::PingStatus;
use crate::stats::{loss_level, loss_level_spec, LossLevel};
use crate::text::{decimal, decimal_spec, dashes, repeat_char};
use crate::relay::{table_cell, table_cell_spec};

verus! {

/// The terminal colours and styles the tool uses.
#[derive(Debug, Clone, Copy, PartialEq, Eq, Structural)]
pub enum Color {
    Reset,
    Bold,
    Red,
    Green,
    Yellow,
    Blue,
    Magenta,
    Cyan,
    BrightRed,
    BrightGreen,
    BrightBlue,
    BrightMagenta,
}

/// The ANSI escape sequence of a colour.
pub open spec fn color_code_spec(c: Color) -> Seq<char> {
    match c {
        Color::Reset => "\x1b[0m"@,
        Color::Bold => "\x1b[1m"@,
        Color::Red => "\x1b[31m"@,
        Color::Green => "\x1b[32m"@,
        Color::Yellow => "\x1b[33m"@,
        Color::Blue => "\x1b[34m"@,
        Color::Magenta => "\x1b[35m"@,
        Color::Cyan => "\x1b[36m"@,
        Color::BrightRed => "\x1b[91m"@,
        Color::BrightGreen => "\x1b[92m"@,
        Color::BrightBlue => "\x1b[94m"@,
        Color::BrightMagenta => "\x1b[95m"@,
    }
}

impl Color {
    /// The ANSI escape sequence of this colour.
    pub fn code(&self) -> (res: &'static str)
        ensures
            res@ == color_code_spec(*self),
    {
        match self {
            Color::Reset => "\x1b[0m",
            Color::Bold => "\x1b[1m",
            Color::Red => "\x1b[31m",
            Color::Green => "\x1b[32m",
            Color::Yellow => "\x1b[33m",
            Color::Blue => "\x1b[34m",
            Color::Magenta => "\x1b[35m",
            Color::Cyan => "\x1b[36m",
            Color::BrightRed => "\x1b[91m",
            Color::BrightGreen => "\x1b[92m",
            Color::BrightBlue => "\x1b[94m",
            Color::BrightMagenta => "\x1b[95m",
        }
    }
}

/// The colour a round-trip time is shown in: green under 50 ms, yellow
/// under 100 ms, red under 150 ms, magenta from there on.
pub open spec fn latency_color_spec(elapsed_ns: u128) -> Color {
    if elapsed_ns < 50_000_000 {
        Color::Green
    } else if elapsed_ns < 100_000_000 {
        Color::Yellow
    } else if elapsed_ns < 150_000_000 {
        Color::Red
    } else {
        Color::Magenta
    }
}

/// Picks the colour a round-trip time is shown in.
pub fn latency_color(elapsed_ns: u128) -> (res: Color)
    ensures
        res == latency_color_spec(elapsed_ns),
{
    if elapsed_ns < 50_000_000 {
        Color::Green
    } else if elapsed_ns < 100_000_000 {
        Color::Yellow
    } else if elapsed_ns < 150_000_000 {
        Color::Red
    } else {
        Color::Magenta
    }
}

/// The colour a loss level is shown in.
pub open spec fn loss_color_spec(level: LossLevel) -> Color {
    match level {
        LossLevel::Lossless => Color::Green,
        LossLevel::Low => Color::Yellow,
        LossLevel::High => Color::Red,
    }
}

/// Picks the colour a loss level is shown in.
pub fn loss_color(level: LossLevel) -> (res: Color)
    ensures
        res == loss_color_spec(level),
{
    match level {
        LossLevel::Lossless => Color::Green,
        LossLevel::Low => Color::Yellow,
        LossLevel::High => Color::Red,
    }
}

/// Where a probe went: the address alone when the port is 0, else
/// `address:port`.
pub open spec fn destination_spec(ip: Seq<char>, port: u16) -> Seq<char> {
    if port == 0 {
        ip
    } else {
        ip + ":"@ + decimal_spec(port as nat)
    }
}

/// Writes where a probe went.
pub fn destination(ip: &str, port: u16) -> (res: String)
    ensures
        res@ == destination_spec(ip@, port),
{
    if port == 0 {
        ip.to_owned()
    } else {
        let p = decimal(port as u128);
        ip.to_owned().concat(":").concat(p.as_str())
    }
}

/// The line shown for one probe to `ip` and `port`; `elapsed` is the
/// written round-trip time of a successful probe.
pub open spec fn response_line_spec(ip: Seq<char>, port: u16, status: PingStatus, elapsed: Seq<char>) -> Seq<char> {
    let dest = destination_spec(ip, port);
    let reset = color_code_spec(Color::Reset);
    let cyan = color_code_spec(Color::Cyan);
    let red = color_code_spec(Color::Red);
    match status {
        PingStatus::Success { elapsed_ns } => "Reply from "@ + cyan + dest + reset + " time="@
            + color_code_spec(latency_color_spec(elapsed_ns)) + elapsed + reset,
        PingStatus::Error(e) => red + "Error connecting"@ + reset + " to "@ + cyan + dest + reset
            + ": "@ + e@,
        PingStatus::Timeout => color_code_spec(Color::Bold) + red + "Request timeout"@ + reset + reset
            + " for "@ + cyan + dest + reset,
    }
}

/// Writes the line shown for one probe.
pub fn response_line(ip: &str, port: u16, status: &PingStatus, elapsed: &str) -> (res: String)
    ensures
        res@ == response_line_spec(ip@, port, *status, elapsed@),
{
    let dest = destination(ip, port);
    let reset = Color::Reset.code();
    let cyan = Color::Cyan.code();
    let red = Color::Red.code();
    match status {
        PingStatus::Success { elapsed_ns } => {
            let color = latency_color(*elapsed_ns).code();
            let line = "Reply from ".to_owned().concat(cyan).concat(dest.as_str()).concat(reset).concat(
                " time=",
            ).concat(color).concat(elapsed).concat(reset);
            line
        },
        PingStatus::Error(e) => {
            let line = red.to_owned().concat("Error connecting").concat(reset).concat(" to ").concat(
                cyan,
            ).concat(dest.as_str()).concat(reset).concat(": ").concat(e.as_str());
            line
        },
        PingStatus::Timeout => {
            let line = Color::Bold.code().to_owned().concat(red).concat("Request timeout").concat(
                reset,
            ).concat(reset).concat(" for ").concat(cyan).concat(dest.as_str()).concat(reset);
            line
        },
    }
}

/// The first line of a statistics block.
pub open spec fn stats_heading_spec(title: Seq<char>) -> Seq<char> {
    "\n--- "@ + title + " ping statistics ---"@
}

/// Writes the first line of a statistics block.
pub fn stats_heading(title: &str) -> (res: String)
    ensures
        res@ == stats_heading_spec(title@),
{
    "\n--- ".to_owned().concat(title).concat(" ping statistics ---")
}

/// The summary line of a session: counts, the written loss percentage
/// `loss`, and the total time in milliseconds.
pub open spec fn summary_line_spec(transmitted: nat, received: nat, loss: Seq<char>, millis: nat) -> Seq<char> {
    let reset = color_code_spec(Color::Reset);
    let level = loss_level_spec(transmitted, received);
    color_code_spec(Color::BrightBlue) + decimal_spec(transmitted) + reset + " packets transmitted, "@
        + color_code_spec(Color::BrightGreen) + decimal_spec(received) + reset + " received, "@
        + color_code_spec(loss_color_spec(level)) + loss + "% packet loss"@ + reset + ", time "@
        + color_code_spec(Color::BrightMagenta) + decimal_spec(millis) + reset + "ms"@
}

/// Writes the summary line of a session.
pub fn summary_line(transmitted: usize, received: usize, loss: &str, millis: u128) -> (res: String)
    requires
        received <= transmitted,
    ensures
        res@ == summary_line_spec(transmitted as nat, received as nat, loss@, millis as nat),
{
    let reset = Color::Reset.code();
    let level = loss_level(transmitted, received);
    let line = Color::BrightBlue.code().to_owned().concat(decimal(transmitted as u128).as_str()).concat(
        reset,
    ).concat(" packets transmitted, ").concat(Color::BrightGreen.code()).concat(
        decimal(received as u128).as_str(),
    ).concat(reset).concat(" received, ").concat(loss_color(level).code()).concat(loss).concat(
        "% packet loss",
    ).concat(reset).concat(", time ").concat(Color::BrightMagenta.code()).concat(
        decimal(millis).as_str(),
    ).concat(reset).concat("ms");
    line
}

/// The header row of the results table and the rule under it (as many
/// dashes as the row has bytes).
pub fn table_header(names: &Vec<String>) -> (res: (String, String))
    ensures
        res.0@ == table_row_spec(names@.map_values(|n: String| n@)),
        res.1@ == repeat_char('-', (vstd::utf8::encode_utf8(res.0@).len() as usize) as nat),
{
    let mut row = String::new();
    let mut i: usize = 0;
    let ghost names_v = names@.map_values(|n: String| n@);
    while i < names.len()
        invariant
            0 <= i <= names@.len(),
            names_v == names@.map_values(|n: String| n@),
            row@ == table_row_spec(names_v.subrange(0, i as int)),
        decreases names@.len() - i,
    {
        let cell = table_cell(names[i].as_str());
        row.append(cell.as_str());
        assert(names_v.subrange(0, i + 1).drop_last() =~= names_v.subrange(0, i as int));
        i = i + 1;
    }
    assert(names_v.subrange(0, names@.len() as int) =~= names_v);
    let rule = dashes(row.as_str().len());
    (row, rule)
}

/// A row of the results table holding the given texts, one cell each.
pub open spec fn table_row_spec(texts: Seq<Seq<char>>) -> Seq<char>
    decreases texts.len(),
{
    if texts.len() == 0 {
        Seq::empty()
    } else {
        table_row_spec(texts.drop_last()) + table_cell_spec(texts.last())
    }
}

/// The title of a relay's statistics: with one relay, the host alone;
/// with several, `host from name`, with the relay's city and country
/// code in brackets where its location is known.
pub open spec fn relay_title_spec(host: Seq<char>, name: Seq<char>, place: Option<(Seq<char>, Seq<char>)>, single: bool) -> Seq<char> {
    if single {
        host
    } else {
        let who = match place {
            Some((city, country)) => name + " ("@ + city + ", "@ + country + ")"@,
            None => name,
        };
        host + " from "@ + who
    }
}

/// Writes the title of a relay's statistics.
pub fn relay_title(host: &str, name: &str, place: Option<(&str, &str)>, single: bool) -> (res: String)
    ensures
        res@ == relay_title_spec(
            host@,
            name@,
            match place {
                Some((c, k)) => Some((c@, k@)),
                None => None,
            },
            single,
        ),
{
    if single {
        return host.to_owned();
    }
    let who = match place {
        Some((city, country)) => name.to_owned().concat(" (").concat(city).concat(", ").concat(
            country,
        ).concat(")"),
        None => name.to_owned(),
    };
    host.to_owned().concat(" from ").concat(who.as_str())
}

} // verus!
