use vstd::prelude::*;
use vstd::string::StringExecFns;

verus! {

/// An immutable record of a weight transition or a routing error, produced
/// by the health monitor and drained by the exporters.
#[derive(Debug, PartialEq)]
pub enum ExporterEvent {
    WeightDecreased { addr: String, old_weight: u64, new_weight: u64, latency_ms: u64 },
    WeightIncreased { addr: String, old_weight: u64, new_weight: u64, latency_ms: u64 },
    BackendDown { addr: String },
    Error { err: String },
}

/// The decimal digit character for a value below ten.
pub open spec fn dec_digit(d: nat) -> char {
    if d == 0 {
        '0'
    } else if d == 1 {
        '1'
    } else if d == 2 {
        '2'
    } else if d == 3 {
        '3'
    } else if d == 4 {
        '4'
    } else if d == 5 {
        '5'
    } else if d == 6 {
        '6'
    } else if d == 7 {
        '7'
    } else if d == 8 {
        '8'
    } else {
        '9'
    }
}

/// The decimal digits of a value, most significant first, with no leading
/// zeros (a single `'0'` for zero).
pub open spec fn dec_str(v: nat) -> Seq<char>
    decreases v,
{
    if v < 10 {
        seq![dec_digit(v)]
    } else {
        dec_str(v / 10).push(dec_digit(v % 10))
    }
}

impl ExporterEvent {
    /// The structured log message for this event, exactly as the original
    /// key-value line format spells it.
    pub open spec fn log_message(self) -> Seq<char> {
        match self {
            ExporterEvent::WeightDecreased { addr, old_weight, new_weight, latency_ms } => (
            "level=info event=WeightDecreased addr="@ + addr@ + " old="@ + dec_str(
                old_weight as nat,
            ) + " new="@ + dec_str(new_weight as nat) + " latency_ms="@ + dec_str(
                latency_ms as nat,
            )),
            ExporterEvent::WeightIncreased { addr, old_weight, new_weight, latency_ms } => (
            "level=info event=WeightIncreased addr="@ + addr@ + " old="@ + dec_str(
                old_weight as nat,
            ) + " new="@ + dec_str(new_weight as nat) + " latency_ms="@ + dec_str(
                latency_ms as nat,
            )),
            ExporterEvent::BackendDown { addr } => "level=warn event=BackendDown addr="@ + addr@,
            ExporterEvent::Error { err } => (
            "level=error event=Error err=\""@ + err@ + "\""@),
        }
    }

    /// Renders the event as its structured log message.
    pub fn fmt(&self) -> (r: String)
        ensures
            r@ == self.log_message(),
    {
        let mut out = String::new();
        match self {
            ExporterEvent::WeightDecreased { addr, old_weight, new_weight, latency_ms } => {
                out.append("level=info event=WeightDecreased addr=");
                out.append(addr.as_str());
                out.append(" old=");
                push_u64_dec(&mut out, *old_weight);
                out.append(" new=");
                push_u64_dec(&mut out, *new_weight);
                out.append(" latency_ms=");
                push_u64_dec(&mut out, *latency_ms);
                proof {
                    assert(out@ =~= self.log_message());
                }
            }
            ExporterEvent::WeightIncreased { addr, old_weight, new_weight, latency_ms } => {
                out.append("level=info event=WeightIncreased addr=");
                out.append(addr.as_str());
                out.append(" old=");
                push_u64_dec(&mut out, *old_weight);
                out.append(" new=");
                push_u64_dec(&mut out, *new_weight);
                out.append(" latency_ms=");
                push_u64_dec(&mut out, *latency_ms);
                proof {
                    assert(out@ =~= self.log_message());
                }
            }
            ExporterEvent::BackendDown { addr } => {
                out.append("level=warn event=BackendDown addr=");
                out.append(addr.as_str());
                proof {
                    assert(out@ =~= self.log_message());
                }
            }
            ExporterEvent::Error { err } => {
                out.append("level=error event=Error err=\"");
                out.append(err.as_str());
                out.append("\"");
                proof {
                    assert(out@ =~= self.log_message());
                }
            }
        }
        out
    }
}

/// The full line the exporter writes for one event at a given timestamp.
pub open spec fn log_line(timestamp_ms: u64, event: ExporterEvent) -> Seq<char> {
    "timestamp="@ + dec_str(timestamp_ms as nat) + " "@ + event.log_message() + "\n"@
}

/// Renders one drained event as the exporters write it: the timestamp, the
/// event's message, and a trailing newline.
pub fn render_log_line(timestamp_ms: u64, event: &ExporterEvent) -> (r: String)
    ensures
        r@ == log_line(timestamp_ms, *event),
{
    let mut out = String::new();
    out.append("timestamp=");
    push_u64_dec(&mut out, timestamp_ms);
    out.append(" ");
    let msg = event.fmt();
    out.append(msg.as_str());
    out.append("\n");
    proof {
        assert(out@ =~= log_line(timestamp_ms, *event));
    }
    out
}

/// Appends the decimal digits of `v`, most significant first.
fn push_u64_dec(out: &mut String, v: u64)
    ensures
        final(out)@ == old(out)@ + dec_str(v as nat),
    decreases v,
{
    if v < 10 {
        out.append(digit_str(v));
        proof {
            assert(out@ =~= old(out)@ + dec_str(v as nat));
        }
    } else {
        push_u64_dec(out, v / 10);
        out.append(digit_str(v % 10));
        proof {
            assert(out@ =~= old(out)@ + dec_str(v as nat));
        }
    }
}

/// The one-character string for a decimal digit.
fn digit_str(d: u64) -> (r: &'static str)
    requires
        d < 10,
    ensures
        r@ == seq![dec_digit(d as nat)],
{
    proof {
        reveal_strlit("0");
        reveal_strlit("1");
        reveal_strlit("2");
        reveal_strlit("3");
        reveal_strlit("4");
        reveal_strlit("5");
        reveal_strlit("6");
        reveal_strlit("7");
        reveal_strlit("8");
        reveal_strlit("9");
    }
    let r: &'static str = if d == 0 {
        "0"
    } else if d == 1 {
        "1"
    } else if d == 2 {
        "2"
    } else if d == 3 {
        "3"
    } else if d == 4 {
        "4"
    } else if d == 5 {
        "5"
    } else if d == 6 {
        "6"
    } else if d == 7 {
        "7"
    } else if d == 8 {
        "8"
    } else {
        "9"
    };
    proof {
        assert(r@ =~= seq![dec_digit(d as nat)]);
    }
    r
}

/// Writes each drained log line to standard output; the write itself is I/O
/// and happens outside the library.
#[derive(Debug)]
pub struct ConsoleExporter;

/// Appends each drained log line to the file named by `log_file`; the write
/// itself is I/O and happens outside the library.
#[derive(Debug)]
pub struct FileExporter {
    pub log_file: String,
}

impl FileExporter {
    pub fn new(log_file: String) -> (r: Self)
        ensures
            r.log_file == log_file,
    {
        FileExporter { log_file }
    }
}

} // verus!
