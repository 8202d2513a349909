//! Printer discovery and job submission: the data model, the parsing of
//! the spooler tools' output, and the assembly of a print command.
//!
//! Talking to the spooler itself is process work that the caller does;
//! everything here computes over the captured text and plain values.

use vstd::prelude::*;
use crate::paper::PaperSize;
use crate::text::{
    after_last_char, after_last_char_spec, contains_spec, dec_spec, find_char, find_char_spec,
    find_sub, find_sub_spec, first_non_star, first_non_star_spec, lemma_skip_blanks_bounds,
    lemma_token_end_bounds, skip_blanks, skip_blanks_spec, starts_with_spec, str_contains, str_eq,
    str_starts_with, substring_copy, token_end, token_end_spec, trim_copy, trim_spec,
    u32_to_string,
};

verus! {

/// A printer available on the system.
#[derive(Debug, Clone)]
pub struct PrinterInfo {
    pub name: String,
    pub description: String,
    pub is_default: bool,
    pub state: PrinterState,
}

/// The coarse state a printer reports.
#[derive(Debug, Clone, Copy, PartialEq, Eq, Structural)]
pub enum PrinterState {
    Idle,
    Processing,
    Stopped,
    Unknown,
}

/// A single printer option with its available values.
#[derive(Debug, Clone)]
pub struct PrinterOption {
    /// Internal option name (such as "InputSlot").
    pub name: String,
    /// Human-readable name (such as "Media Source").
    pub display_name: String,
    /// Available values for this option.
    pub values: Vec<PrinterOptionValue>,
    /// Index of the default value in `values`.
    pub default_index: Option<usize>,
}

/// A single value of a printer option.
#[derive(Debug, Clone)]
pub struct PrinterOptionValue {
    /// Internal value (such as "ByPassTray").
    pub value: String,
    /// Whether this is the current default.
    pub is_default: bool,
}

impl PrinterOption {
    /// The default index, when present, points into the values.
    pub open spec fn wf(self) -> bool {
        match self.default_index {
            Option::Some(i) => i < self.values@.len(),
            Option::None => true,
        }
    }

    /// The value at the recorded default index, if any.
    pub fn default_value(&self) -> (r: Option<&str>)
        requires
            self.wf(),
        ensures
            match r {
                Option::Some(s) => self.default_index matches Option::Some(i) && s@
                    == self.values@[i as int].value@,
                Option::None => self.default_index is None,
            },
    {
        match self.default_index {
            Option::Some(i) => Option::Some(self.values[i].value.as_str()),
            Option::None => Option::None,
        }
    }

    /// The first value marked as the current default, if any.
    pub fn current_value(&self) -> (r: Option<&str>)
        ensures
            match r {
                Option::Some(s) => exists|i: int|
                    {
                        &&& 0 <= i < self.values@.len()
                        &&& (#[trigger] self.values@[i]).is_default
                        &&& s@ == self.values@[i].value@
                        &&& forall|j: int| 0 <= j < i ==> !self.values@[j].is_default
                    },
                Option::None => forall|i: int|
                    0 <= i < self.values@.len() ==> !(#[trigger] self.values@[i]).is_default,
            },
    {
        let n: usize = self.values.len();
        let mut k: usize = 0;
        while k < n
            invariant
                0 <= k <= n,
                n == self.values@.len(),
                forall|j: int| 0 <= j < k ==> !(#[trigger] self.values@[j]).is_default,
            decreases n - k,
        {
            if self.values[k].is_default {
                return Option::Some(self.values[k].value.as_str());
            }
            k = k + 1;
        }
        Option::None
    }
}

/// All options reported for one printer.
#[derive(Debug, Clone)]
pub struct PrinterCapabilities {
    pub printer_name: String,
    pub options: Vec<PrinterOption>,
}

impl PrinterCapabilities {
    /// Every option's default index points into its values.
    pub open spec fn wf(self) -> bool {
        forall|i: int| 0 <= i < self.options@.len() ==> (#[trigger] self.options@[i]).wf()
    }

    /// The first option carrying the given internal name, if any.
    pub fn get_option(&self, name: &String) -> (r: Option<&PrinterOption>)
        ensures
            match r {
                Option::Some(o) => exists|i: int|
                    {
                        &&& 0 <= i < self.options@.len()
                        &&& *o == self.options@[i]
                        &&& (#[trigger] self.options@[i]).name@ == name@
                        &&& forall|j: int| 0 <= j < i ==> self.options@[j].name@ != name@
                    },
                Option::None => forall|i: int|
                    0 <= i < self.options@.len() ==> (#[trigger] self.options@[i]).name@ != name@,
            },
    {
        let n: usize = self.options.len();
        let mut k: usize = 0;
        while k < n
            invariant
                0 <= k <= n,
                n == self.options@.len(),
                forall|j: int| 0 <= j < k ==> (#[trigger] self.options@[j]).name@ != name@,
            decreases n - k,
        {
            if self.options[k].name.eq(name) {
                return Option::Some(&self.options[k]);
            }
            k = k + 1;
        }
        Option::None
    }

    /// The InputSlot (media source) option.
    pub fn input_slot(&self) -> (r: Option<&PrinterOption>)
        ensures
            match r {
                Option::Some(o) => exists|i: int|
                    {
                        &&& 0 <= i < self.options@.len()
                        &&& *o == self.options@[i]
                        &&& (#[trigger] self.options@[i]).name@ == "InputSlot"@
                        &&& forall|j: int| 0 <= j < i ==> self.options@[j].name@ != "InputSlot"@
                    },
                Option::None => forall|i: int|
                    0 <= i < self.options@.len() ==> (#[trigger] self.options@[i]).name@
                        != "InputSlot"@,
            },
    {
        let name = String::from_str("InputSlot");
        self.get_option(&name)
    }

    /// The MediaType option.
    pub fn media_type(&self) -> (r: Option<&PrinterOption>)
        ensures
            match r {
                Option::Some(o) => exists|i: int|
                    {
                        &&& 0 <= i < self.options@.len()
                        &&& *o == self.options@[i]
                        &&& (#[trigger] self.options@[i]).name@ == "MediaType"@
                        &&& forall|j: int| 0 <= j < i ==> self.options@[j].name@ != "MediaType"@
                    },
                Option::None => forall|i: int|
                    0 <= i < self.options@.len() ==> (#[trigger] self.options@[i]).name@
                        != "MediaType"@,
            },
    {
        let name = String::from_str("MediaType");
        self.get_option(&name)
    }

    /// The ColorModel option.
    pub fn color_model(&self) -> (r: Option<&PrinterOption>)
        ensures
            match r {
                Option::Some(o) => exists|i: int|
                    {
                        &&& 0 <= i < self.options@.len()
                        &&& *o == self.options@[i]
                        &&& (#[trigger] self.options@[i]).name@ == "ColorModel"@
                        &&& forall|j: int| 0 <= j < i ==> self.options@[j].name@ != "ColorModel"@
                    },
                Option::None => forall|i: int|
                    0 <= i < self.options@.len() ==> (#[trigger] self.options@[i]).name@
                        != "ColorModel"@,
            },
    {
        let name = String::from_str("ColorModel");
        self.get_option(&name)
    }

    /// The print quality option.
    pub fn print_quality(&self) -> (r: Option<&PrinterOption>)
        ensures
            match r {
                Option::Some(o) => exists|i: int|
                    {
                        &&& 0 <= i < self.options@.len()
                        &&& *o == self.options@[i]
                        &&& (#[trigger] self.options@[i]).name@ == "cupsPrintQuality"@
                        &&& forall|j: int|
                            0 <= j < i ==> self.options@[j].name@ != "cupsPrintQuality"@
                    },
                Option::None => forall|i: int|
                    0 <= i < self.options@.len() ==> (#[trigger] self.options@[i]).name@
                        != "cupsPrintQuality"@,
            },
    {
        let name = String::from_str("cupsPrintQuality");
        self.get_option(&name)
    }

    /// The page size option: all supported paper sizes.
    pub fn page_sizes(&self) -> (r: Option<&PrinterOption>)
        ensures
            match r {
                Option::Some(o) => exists|i: int|
                    {
                        &&& 0 <= i < self.options@.len()
                        &&& *o == self.options@[i]
                        &&& (#[trigger] self.options@[i]).name@ == "PageSize"@
                        &&& forall|j: int| 0 <= j < i ==> self.options@[j].name@ != "PageSize"@
                    },
                Option::None => forall|i: int|
                    0 <= i < self.options@.len() ==> (#[trigger] self.options@[i]).name@
                        != "PageSize"@,
            },
    {
        let name = String::from_str("PageSize");
        self.get_option(&name)
    }
}

/// Print job configuration: what to print, where, and how.
#[derive(Debug, Clone)]
pub struct PrintJob {
    pub layout: crate::layout::Layout,
    pub printer_name: String,
    pub copies: u32,
    pub dpi: u32,
    /// Additional spooler options, as (name, value) pairs.
    pub extra_options: Vec<(String, String)>,
}

/// Page orientation as the submission path once expressed it; the page's
/// own orientation field is preferred.
#[derive(Debug, Clone, Copy, PartialEq, Eq, Structural)]
pub enum Orientation {
    Portrait,
    Landscape,
}

/// Why printing failed. The spooler being unavailable is distinct from a
/// valid empty printer list.
#[derive(Debug, Clone)]
pub enum PrintError {
    NoPrinters,
    PrinterNotFound(String),
    PrinterOffline(String),
    CupsNotAvailable,
    RenderError(String),
    IoError(String),
    CommandFailed(String),
}

/// The human-readable description of a print failure.
pub open spec fn print_error_message_spec(e: PrintError) -> Seq<char> {
    match e {
        PrintError::NoPrinters => "No printers found on system"@,
        PrintError::PrinterNotFound(name) => "Printer '"@ + name@ + "' not found"@,
        PrintError::PrinterOffline(name) => "Printer '"@ + name@ + "' is offline"@,
        PrintError::CupsNotAvailable => "CUPS printing system is not available or not running"@,
        PrintError::RenderError(msg) => "Failed to render layout: "@ + msg@,
        PrintError::IoError(msg) => "I/O error: "@ + msg@,
        PrintError::CommandFailed(msg) => "Print command failed: "@ + msg@,
    }
}

impl PrintError {
    /// The human-readable description of this failure, carrying the
    /// captured diagnostic text where there is one.
    pub fn message(&self) -> (r: String)
        ensures
            r@ == print_error_message_spec(*self),
    {
        match self {
            PrintError::NoPrinters => String::from_str("No printers found on system"),
            PrintError::PrinterNotFound(name) => {
                let mut s = String::from_str("Printer '");
                s.append(name.as_str());
                s.append("' not found");
                s
            },
            PrintError::PrinterOffline(name) => {
                let mut s = String::from_str("Printer '");
                s.append(name.as_str());
                s.append("' is offline");
                s
            },
            PrintError::CupsNotAvailable => String::from_str(
                "CUPS printing system is not available or not running",
            ),
            PrintError::RenderError(msg) => {
                let mut s = String::from_str("Failed to render layout: ");
                s.append(msg.as_str());
                s
            },
            PrintError::IoError(msg) => {
                let mut s = String::from_str("I/O error: ");
                s.append(msg.as_str());
                s
            },
            PrintError::CommandFailed(msg) => {
                let mut s = String::from_str("Print command failed: ");
                s.append(msg.as_str());
                s
            },
        }
    }
}

/// Where a print job stands, for a progress display. A submission
/// reports exactly one terminal outcome: completed with a job id, or
/// failed with a message.
#[derive(Debug, Clone)]
pub enum PrintStatus {
    Idle,
    Rendering,
    Sending,
    Completed(String),
    Failed(String),
}

/// An `Option<String>` as an optional character sequence.
pub open spec fn opt_str_view(o: Option<String>) -> Option<Seq<char>> {
    match o {
        Option::Some(s) => Option::Some(s@),
        Option::None => Option::None,
    }
}

/// An `Option<usize>` as an optional mathematical index.
pub open spec fn opt_idx_view(o: Option<usize>) -> Option<int> {
    match o {
        Option::Some(i) => Option::Some(i as int),
        Option::None => Option::None,
    }
}

/// The name reported by the first status line announcing the system
/// default destination, scanning from line `i` on: the text between the
/// line's first and second colon, trimmed.
pub open spec fn default_printer_from_spec(lines: Seq<Seq<char>>, i: int) -> Option<Seq<char>>
    decreases lines.len() - i when 0 <= i <= lines.len()
{
    if i < 0 || i >= lines.len() {
        Option::None
    } else if starts_with_spec(lines[i], "system default destination:"@) {
        Option::Some(default_value_of_line_spec(lines[i]))
    } else {
        default_printer_from_spec(lines, i + 1)
    }
}

/// The value of a default-destination line: between its first colon and
/// the next colon or the end, trimmed of blanks.
pub open spec fn default_value_of_line_spec(line: Seq<char>) -> Seq<char> {
    let p = find_char_spec(line, ':', 0);
    let q = find_char_spec(line, ':', p + 1);
    trim_spec(line.subrange(p + 1, q))
}

/// The printer state a status line reports, by the first matching word.
pub open spec fn printer_state_of_line_spec(line: Seq<char>) -> PrinterState {
    if contains_spec(line, "idle"@) {
        PrinterState::Idle
    } else if contains_spec(line, "processing"@) {
        PrinterState::Processing
    } else if contains_spec(line, "stopped"@) {
        PrinterState::Stopped
    } else {
        PrinterState::Unknown
    }
}

/// The printer name on a status line: its second blank-separated token.
pub open spec fn printer_line_name_spec(line: Seq<char>) -> Seq<char> {
    let start = skip_blanks_spec(line, 7);
    line.subrange(start, token_end_spec(line, start))
}

/// The description on a status line: everything after the first " is ",
/// or the printer name when that marker is absent.
pub open spec fn printer_line_desc_spec(line: Seq<char>) -> Seq<char> {
    let p = find_sub_spec(line, " is "@, 0);
    if p >= 0 {
        line.subrange(p + 4, line.len() as int)
    } else {
        printer_line_name_spec(line)
    }
}

/// What one status line contributes to the printer list: `None` unless
/// the line announces a printer and names it; otherwise the name, the
/// description, whether it is the system default, and its state, as
/// (name, description, is_default, state).
pub open spec fn parse_printer_line_spec(line: Seq<char>, default_name: Option<Seq<char>>) -> Option<
    (Seq<char>, Seq<char>, bool, PrinterState),
> {
    if !starts_with_spec(line, "printer "@) {
        Option::None
    } else {
        let start = skip_blanks_spec(line, 7);
        if start >= line.len() {
            Option::None
        } else {
            let name = printer_line_name_spec(line);
            Option::Some(
                (
                    name,
                    printer_line_desc_spec(line),
                    default_name matches Option::Some(d) && d == name,
                    printer_state_of_line_spec(line),
                ),
            )
        }
    }
}

/// The printers contributed by the first `n` lines, in order, against
/// the given default name.
pub open spec fn parse_lpstat_upto_spec(
    lines: Seq<Seq<char>>,
    default_name: Option<Seq<char>>,
    n: int,
) -> Seq<(Seq<char>, Seq<char>, bool, PrinterState)>
    decreases n when 0 <= n <= lines.len()
{
    if n <= 0 {
        Seq::empty()
    } else {
        let prev = parse_lpstat_upto_spec(lines, default_name, n - 1);
        match parse_printer_line_spec(lines[n - 1], default_name) {
            Option::Some(v) => prev.push(v),
            Option::None => prev,
        }
    }
}

/// The full parse of captured printer status lines: every printer line's
/// entry, in order, with the default flag taken from the
/// default-destination line.
pub open spec fn parse_lpstat_spec(lines: Seq<Seq<char>>) -> Seq<
    (Seq<char>, Seq<char>, bool, PrinterState),
> {
    parse_lpstat_upto_spec(lines, default_printer_from_spec(lines, 0), lines.len() as int)
}

/// The mathematical content of a printer entry.
pub open spec fn printer_info_view(p: PrinterInfo) -> (Seq<char>, Seq<char>, bool, PrinterState) {
    (p.name@, p.description@, p.is_default, p.state)
}

/// The contents of a printer list.
pub open spec fn printer_views(s: Seq<PrinterInfo>) -> Seq<(Seq<char>, Seq<char>, bool, PrinterState)> {
    Seq::new(s.len(), |i: int| printer_info_view(s[i]))
}

/// The first occurrence of `c` at or after `from` is no later than any
/// occurrence there.
proof fn lemma_find_char_le(s: Seq<char>, c: char, i: int, j: int)
    requires
        0 <= i <= j < s.len(),
        s[j] == c,
    ensures
        find_char_spec(s, c, i) <= j,
    decreases j - i,
{
    if i < j && s[i] != c {
        lemma_find_char_le(s, c, i + 1, j);
    }
}

/// The system default printer named by the captured status lines, if any.
pub fn find_default_printer(lines: &Vec<String>) -> (r: Option<String>)
    ensures
        opt_str_view(r) == default_printer_from_spec(lines.deep_view(), 0),
{
    let n: usize = lines.len();
    let mut i: usize = 0;
    while i < n
        invariant
            0 <= i <= n,
            n == lines@.len(),
            default_printer_from_spec(lines.deep_view(), 0) == default_printer_from_spec(
                lines.deep_view(),
                i as int,
            ),
        decreases n - i,
    {
        let line: &str = lines[i].as_str();
        proof {
            assert(lines.deep_view()[i as int] == lines@[i as int]@);
        }
        if str_starts_with(line, "system default destination:") {
            proof {
                reveal_strlit("system default destination:");
                assert(line@.subrange(0, 27)[26] == ':');
                lemma_find_char_le(line@, ':', 0, 26);
            }
            let p = find_char(line, ':', 0);
            let q = find_char(line, ':', p + 1);
            let seg = substring_copy(line, p + 1, q);
            let value = trim_copy(seg.as_str());
            return Option::Some(value);
        }
        i = i + 1;
    }
    Option::None
}

/// Parse one printer status line into a printer entry, against the
/// already-extracted default name.
pub fn parse_printer_line(line: &String, default_name: &Option<String>) -> (r: Option<PrinterInfo>)
    ensures
        match parse_printer_line_spec(line@, opt_str_view(*default_name)) {
            Option::Some(v) => (r matches Option::Some(p) && printer_info_view(p) == v),
            Option::None => r is None,
        },
{
    let s: &str = line.as_str();
    if !str_starts_with(s, "printer ") {
        return Option::None;
    }
    proof {
        reveal_strlit("printer ");
    }
    let n: usize = s.unicode_len();
    let start = skip_blanks(s, 7);
    if start >= n {
        return Option::None;
    }
    let end = token_end(s, start);
    let name = substring_copy(s, start, end);
    let is_default = match default_name {
        Option::Some(d) => str_eq(d.as_str(), name.as_str()),
        Option::None => false,
    };
    let state = if str_contains(s, "idle") {
        PrinterState::Idle
    } else if str_contains(s, "processing") {
        PrinterState::Processing
    } else if str_contains(s, "stopped") {
        PrinterState::Stopped
    } else {
        PrinterState::Unknown
    };
    let description = match find_sub(s, " is ") {
        Option::Some(p) => {
            proof {
                reveal_strlit(" is ");
            }
            substring_copy(s, p + 4, n)
        },
        Option::None => name.clone(),
    };
    Option::Some(PrinterInfo { name, description, is_default, state })
}

/// Parse the captured printer status lines into the printer list: one
/// entry per printer line, in order, the default flag taken from the
/// default-destination line. Tolerates an empty capture: no printers is
/// a valid result.
pub fn parse_lpstat_output(lines: &Vec<String>) -> (r: Vec<PrinterInfo>)
    ensures
        printer_views(r@) == parse_lpstat_spec(lines.deep_view()),
{
    let default_name = find_default_printer(lines);
    let n: usize = lines.len();
    let mut out: Vec<PrinterInfo> = Vec::new();
    let mut i: usize = 0;
    while i < n
        invariant
            0 <= i <= n,
            n == lines@.len(),
            opt_str_view(default_name) == default_printer_from_spec(lines.deep_view(), 0),
            printer_views(out@) == parse_lpstat_upto_spec(
                lines.deep_view(),
                opt_str_view(default_name),
                i as int,
            ),
        decreases n - i,
    {
        proof {
            assert(lines.deep_view()[i as int] == lines@[i as int]@);
        }
        match parse_printer_line(&lines[i], &default_name) {
            Option::Some(p) => {
                let ghost prev = printer_views(out@);
                out.push(p);
                proof {
                    assert(printer_views(out@) =~= prev.push(printer_info_view(p)));
                }
            },
            Option::None => {},
        }
        i = i + 1;
    }
    out
}

/// Whether some printer in the list carries the name.
pub open spec fn has_printer_spec(s: Seq<PrinterInfo>, name: Seq<char>) -> bool {
    exists|i: int| 0 <= i < s.len() && s[i].name@ == name
}

/// Whether the named printer is among the discovered printers; a job
/// must not be sent to a printer that discovery did not report.
pub fn printer_exists(printers: &Vec<PrinterInfo>, name: &String) -> (r: bool)
    ensures
        r == has_printer_spec(printers@, name@),
{
    let n: usize = printers.len();
    let mut k: usize = 0;
    while k < n
        invariant
            0 <= k <= n,
            n == printers@.len(),
            forall|j: int| 0 <= j < k ==> (#[trigger] printers@[j]).name@ != name@,
        decreases n - k,
    {
        if printers[k].name.eq(name) {
            return true;
        }
        k = k + 1;
    }
    false
}

/// The blank-separated tokens of an options line's value part, from raw
/// position `i` on, each as (value, is_default): a token is a default
/// when it begins with an asterisk, and its value is the token with all
/// leading asterisks removed.
pub open spec fn parse_values_spec(s: Seq<char>, i: int) -> Seq<(Seq<char>, bool)>
    decreases s.len() - i when 0 <= i <= s.len() via parse_values_spec_decreases
{
    let st = skip_blanks_spec(s, i);
    if st >= s.len() {
        Seq::empty()
    } else {
        let en = token_end_spec(s, st);
        seq![(s.subrange(first_non_star_spec(s, st, en), en), s[st] == '*')] + parse_values_spec(
            s,
            en,
        )
    }
}

#[via_fn]
proof fn parse_values_spec_decreases(s: Seq<char>, i: int) {
    lemma_skip_blanks_bounds(s, i);
    if skip_blanks_spec(s, i) < s.len() {
        lemma_token_end_bounds(s, skip_blanks_spec(s, i));
    }
}

/// The index of the last value marked default, if any: a later default
/// marker overrides an earlier one.
pub open spec fn last_default_index_spec(vals: Seq<(Seq<char>, bool)>) -> Option<int>
    decreases vals.len()
{
    if vals.len() == 0 {
        Option::None
    } else if vals.last().1 {
        Option::Some(vals.len() - 1)
    } else {
        last_default_index_spec(vals.drop_last())
    }
}

/// What one options line contributes, as (name, display name, values,
/// default index): `None` unless the line has a colon. The name part
/// before the colon splits on a slash into internal and display names
/// (one name serves as both without a slash), each trimmed; the value
/// part after the colon is tokenized on blanks.
pub open spec fn parse_option_line_spec(line: Seq<char>) -> Option<
    (Seq<char>, Seq<char>, Seq<(Seq<char>, bool)>, Option<int>),
> {
    let p = find_char_spec(line, ':', 0);
    if p >= line.len() {
        Option::None
    } else {
        let name_part = line.subrange(0, p);
        let values_part = line.subrange(p + 1, line.len() as int);
        let q = find_char_spec(name_part, '/', 0);
        let name = if q < name_part.len() {
            trim_spec(name_part.subrange(0, q))
        } else {
            trim_spec(name_part)
        };
        let display = if q < name_part.len() {
            trim_spec(name_part.subrange(q + 1, name_part.len() as int))
        } else {
            name
        };
        let vals = parse_values_spec(values_part, 0);
        Option::Some((name, display, vals, last_default_index_spec(vals)))
    }
}

/// The options contributed by the first `n` lines, in order.
pub open spec fn parse_lpoptions_upto_spec(lines: Seq<Seq<char>>, n: int) -> Seq<
    (Seq<char>, Seq<char>, Seq<(Seq<char>, bool)>, Option<int>),
>
    decreases n when 0 <= n <= lines.len()
{
    if n <= 0 {
        Seq::empty()
    } else {
        let prev = parse_lpoptions_upto_spec(lines, n - 1);
        match parse_option_line_spec(lines[n - 1]) {
            Option::Some(v) => prev.push(v),
            Option::None => prev,
        }
    }
}

/// The contents of a value list.
pub open spec fn value_views(s: Seq<PrinterOptionValue>) -> Seq<(Seq<char>, bool)> {
    Seq::new(s.len(), |i: int| (s[i].value@, s[i].is_default))
}

/// The mathematical content of one option.
pub open spec fn option_view(o: PrinterOption) -> (
    Seq<char>,
    Seq<char>,
    Seq<(Seq<char>, bool)>,
    Option<int>,
) {
    (o.name@, o.display_name@, value_views(o.values@), opt_idx_view(o.default_index))
}

/// The contents of an option list.
pub open spec fn option_views(s: Seq<PrinterOption>) -> Seq<
    (Seq<char>, Seq<char>, Seq<(Seq<char>, bool)>, Option<int>),
> {
    Seq::new(s.len(), |i: int| option_view(s[i]))
}

/// Parse one `name/display: value *default value` options line.
pub fn parse_option_line(line: &String) -> (r: Option<PrinterOption>)
    ensures
        match parse_option_line_spec(line@) {
            Option::Some(v) => r matches Option::Some(o) && option_view(o) == v && o.wf(),
            Option::None => r is None,
        },
{
    let s: &str = line.as_str();
    let n: usize = s.unicode_len();
    let p = find_char(s, ':', 0);
    if p >= n {
        return Option::None;
    }
    let name_part = substring_copy(s, 0, p);
    let values_part = substring_copy(s, p + 1, n);
    let np: &str = name_part.as_str();
    let npl: usize = np.unicode_len();
    let q = find_char(np, '/', 0);
    let (name, display_name) = if q < npl {
        let nm = substring_copy(np, 0, q);
        let ds = substring_copy(np, q + 1, npl);
        (trim_copy(nm.as_str()), trim_copy(ds.as_str()))
    } else {
        let nm = trim_copy(np);
        let ds = nm.clone();
        (nm, ds)
    };
    let vp: &str = values_part.as_str();
    let m: usize = vp.unicode_len();
    let mut values: Vec<PrinterOptionValue> = Vec::new();
    let mut default_index: Option<usize> = Option::None;
    let mut i: usize = 0;
    let mut st: usize = skip_blanks(vp, 0);
    while st < m
        invariant
            0 <= i <= m,
            m == vp@.len(),
            st == skip_blanks_spec(vp@, i as int),
            i <= st,
            parse_values_spec(vp@, 0) == value_views(values@) + parse_values_spec(vp@, i as int),
            opt_idx_view(default_index) == last_default_index_spec(value_views(values@)),
            match default_index {
                Option::Some(d) => d < values@.len(),
                Option::None => true,
            },
        decreases m - i,
    {
        proof {
            lemma_skip_blanks_bounds(vp@, i as int);
            lemma_token_end_bounds(vp@, st as int);
        }
        let en = token_end(vp, st);
        let vstart = first_non_star(vp, st, en);
        let value = substring_copy(vp, vstart, en);
        let is_default = vp.get_char(st) == '*';
        if is_default {
            default_index = Option::Some(values.len());
        }
        let ghost prev = value_views(values@);
        values.push(PrinterOptionValue { value, is_default });
        proof {
            let v = (vp@.subrange(
                first_non_star_spec(vp@, st as int, en as int),
                en as int,
            ), vp@[st as int] == '*');
            assert(value_views(values@) =~= prev.push(v));
            assert(value_views(values@).drop_last() =~= prev);
            assert(parse_values_spec(vp@, 0) == value_views(values@) + parse_values_spec(
                vp@,
                en as int,
            )) by {
                assert(parse_values_spec(vp@, i as int) == seq![v] + parse_values_spec(
                    vp@,
                    en as int,
                ));
                assert(value_views(values@) + parse_values_spec(vp@, en as int) =~= prev + (
                seq![v] + parse_values_spec(vp@, en as int)));
            }
        }
        i = en;
        st = skip_blanks(vp, en);
    }
    proof {
        assert(parse_values_spec(vp@, i as int) =~= Seq::empty());
        assert(value_views(values@) + parse_values_spec(vp@, i as int) =~= value_views(values@));
    }
    Option::Some(PrinterOption { name, display_name, values, default_index })
}

/// Parse the captured options lines for one printer: one option per line
/// carrying a colon, in order. A capture with no parseable lines yields
/// an empty option list.
pub fn parse_lpoptions_output(printer_name: &String, lines: &Vec<String>) -> (r: PrinterCapabilities)
    ensures
        r.printer_name@ == printer_name@,
        r.wf(),
        option_views(r.options@) == parse_lpoptions_upto_spec(
            lines.deep_view(),
            lines@.len() as int,
        ),
{
    let n: usize = lines.len();
    let mut options: Vec<PrinterOption> = Vec::new();
    let mut i: usize = 0;
    while i < n
        invariant
            0 <= i <= n,
            n == lines@.len(),
            option_views(options@) == parse_lpoptions_upto_spec(lines.deep_view(), i as int),
            forall|j: int| 0 <= j < options@.len() ==> (#[trigger] options@[j]).wf(),
        decreases n - i,
    {
        proof {
            assert(lines.deep_view()[i as int] == lines@[i as int]@);
        }
        match parse_option_line(&lines[i]) {
            Option::Some(o) => {
                let ghost prev = option_views(options@);
                options.push(o);
                proof {
                    assert(option_views(options@) =~= prev.push(option_view(o)));
                }
            },
            Option::None => {},
        }
        i = i + 1;
    }
    PrinterCapabilities { printer_name: printer_name.clone(), options }
}

/// The spooler media option for a paper size: the named sizes the
/// spooler knows directly; anything else falls back to A4, which nearly
/// every printer accepts.
pub open spec fn media_option_spec(ps: PaperSize) -> Seq<char> {
    match ps {
        PaperSize::A4 => "media=A4"@,
        PaperSize::A3 => "media=A3"@,
        PaperSize::A5 => "media=A5"@,
        PaperSize::Letter => "media=Letter"@,
        PaperSize::Legal => "media=Legal"@,
        PaperSize::Tabloid => "media=Tabloid"@,
        PaperSize::Ledger => "media=Ledger"@,
        PaperSize::Photo4x6 => "media=4x6"@,
        PaperSize::Photo5x7 => "media=5x7"@,
        PaperSize::Photo8x10 => "media=8x10"@,
        PaperSize::Photo11x17 => "media=11x17"@,
        PaperSize::Photo13x19 => "media=13x19"@,
        _ => "media=A4"@,
    }
}

/// The spooler media option for a paper size.
pub fn media_option(paper_size: PaperSize) -> (r: String)
    ensures
        r@ == media_option_spec(paper_size),
{
    match paper_size {
        PaperSize::A4 => String::from_str("media=A4"),
        PaperSize::A3 => String::from_str("media=A3"),
        PaperSize::A5 => String::from_str("media=A5"),
        PaperSize::Letter => String::from_str("media=Letter"),
        PaperSize::Legal => String::from_str("media=Legal"),
        PaperSize::Tabloid => String::from_str("media=Tabloid"),
        PaperSize::Ledger => String::from_str("media=Ledger"),
        PaperSize::Photo4x6 => String::from_str("media=4x6"),
        PaperSize::Photo5x7 => String::from_str("media=5x7"),
        PaperSize::Photo8x10 => String::from_str("media=8x10"),
        PaperSize::Photo11x17 => String::from_str("media=11x17"),
        PaperSize::Photo13x19 => String::from_str("media=13x19"),
        _ => String::from_str("media=A4"),
    }
}

/// The extra spooler options among the first `n`, each as a `-o` flag
/// followed by `name=value`.
pub open spec fn extra_args_upto_spec(opts: Seq<(Seq<char>, Seq<char>)>, n: int) -> Seq<Seq<char>>
    decreases n when 0 <= n <= opts.len()
{
    if n <= 0 {
        Seq::empty()
    } else {
        extra_args_upto_spec(opts, n - 1) + seq!["-o"@, opts[n - 1].0 + "="@ + opts[n - 1].1]
    }
}

/// The arguments handed to the spooler's submission command: the target
/// printer, the copy count, the media option for the rendered page,
/// fit-to-page scaling, any extra options, and the file to print. No
/// page-level orientation option is passed: the rendered page already
/// has its final dimensions, and one would rotate it twice.
pub open spec fn print_args_spec(
    printer: Seq<char>,
    copies: int,
    ps: PaperSize,
    extra: Seq<(Seq<char>, Seq<char>)>,
    file: Seq<char>,
) -> Seq<Seq<char>> {
    seq![
        "-d"@,
        printer,
        "-n"@,
        dec_spec(copies),
        "-o"@,
        media_option_spec(ps),
        "-o"@,
        "fit-to-page"@,
    ] + extra_args_upto_spec(extra, extra.len() as int) + seq![file]
}

/// Build the argument list for the spooler's submission command.
pub fn build_print_args(
    printer_name: &String,
    copies: u32,
    paper_size: PaperSize,
    extra_options: &Vec<(String, String)>,
    temp_file: &String,
) -> (r: Vec<String>)
    ensures
        r.deep_view() == print_args_spec(
            printer_name@,
            copies as int,
            paper_size,
            extra_options.deep_view(),
            temp_file@,
        ),
{
    let mut args: Vec<String> = Vec::new();
    args.push(String::from_str("-d"));
    args.push(printer_name.clone());
    args.push(String::from_str("-n"));
    args.push(u32_to_string(copies));
    args.push(String::from_str("-o"));
    args.push(media_option(paper_size));
    args.push(String::from_str("-o"));
    args.push(String::from_str("fit-to-page"));
    let n: usize = extra_options.len();
    let mut i: usize = 0;
    while i < n
        invariant
            0 <= i <= n,
            n == extra_options@.len(),
            args.deep_view() =~= seq![
                "-d"@,
                printer_name@,
                "-n"@,
                dec_spec(copies as int),
                "-o"@,
                media_option_spec(paper_size),
                "-o"@,
                "fit-to-page"@,
            ] + extra_args_upto_spec(extra_options.deep_view(), i as int),
        decreases n - i,
    {
        proof {
            assert(extra_options.deep_view()[i as int] == (
                extra_options@[i as int].0@,
                extra_options@[i as int].1@,
            ));
        }
        let ghost prev = args.deep_view();
        args.push(String::from_str("-o"));
        let mut opt = extra_options[i].0.clone();
        opt.append("=");
        opt.append(extra_options[i].1.as_str());
        args.push(opt);
        proof {
            assert(args.deep_view() =~= prev + seq![
                "-o"@,
                extra_options.deep_view()[i as int].0 + "="@
                    + extra_options.deep_view()[i as int].1,
            ]);
            assert(args.deep_view() =~= seq![
                "-d"@,
                printer_name@,
                "-n"@,
                dec_spec(copies as int),
                "-o"@,
                media_option_spec(paper_size),
                "-o"@,
                "fit-to-page"@,
            ] + extra_args_upto_spec(extra_options.deep_view(), i + 1));
        }
        i = i + 1;
    }
    args.push(temp_file.clone());
    proof {
        assert(args.deep_view() =~= print_args_spec(
            printer_name@,
            copies as int,
            paper_size,
            extra_options.deep_view(),
            temp_file@,
        ));
    }
    args
}

/// The first blank-separated token at or after raw position `i` that
/// starts with "request", as its (start, end), or `None`.
pub open spec fn request_token_spec(s: Seq<char>, i: int) -> Option<(int, int)>
    decreases s.len() - i when 0 <= i <= s.len() via request_token_spec_decreases
{
    let st = skip_blanks_spec(s, i);
    if st >= s.len() {
        Option::None
    } else {
        let en = token_end_spec(s, st);
        if starts_with_spec(s.subrange(st, en), "request"@) {
            Option::Some((st, en))
        } else {
            request_token_spec(s, en)
        }
    }
}

#[via_fn]
proof fn request_token_spec_decreases(s: Seq<char>, i: int) {
    lemma_skip_blanks_bounds(s, i);
    if skip_blanks_spec(s, i) < s.len() {
        lemma_token_end_bounds(s, skip_blanks_spec(s, i));
    }
}

/// The job identifier in the submission command's output: the text after
/// the last dash of the first token starting with "request", or the word
/// "unknown" when no such token appears.
pub open spec fn parse_job_id_spec(s: Seq<char>) -> Seq<char> {
    match request_token_spec(s, 0) {
        Option::None => "unknown"@,
        Option::Some((st, en)) => {
            let tok = s.subrange(st, en);
            tok.subrange(after_last_char_spec(tok, '-', tok.len() as int), tok.len() as int)
        },
    }
}

/// Extract the job identifier from the submission command's output.
pub fn parse_job_id(stdout: &String) -> (r: String)
    ensures
        r@ == parse_job_id_spec(stdout@),
{
    let s: &str = stdout.as_str();
    let m: usize = s.unicode_len();
    let mut i: usize = 0;
    let mut st: usize = skip_blanks(s, 0);
    while st < m
        invariant
            0 <= i <= m,
            m == s@.len(),
            s@ == stdout@,
            st == skip_blanks_spec(s@, i as int),
            i <= st,
            request_token_spec(s@, 0) == request_token_spec(s@, i as int),
        decreases m - i,
    {
        proof {
            lemma_skip_blanks_bounds(s@, i as int);
            lemma_token_end_bounds(s@, st as int);
        }
        let en = token_end(s, st);
        let tok = s.substring_char(st, en);
        if str_starts_with(tok, "request") {
            let alc = after_last_char(tok, '-');
            let r = substring_copy(tok, alc, en - st);
            proof {
                assert(tok@ == s@.subrange(st as int, en as int));
                assert(request_token_spec(s@, i as int) == Option::Some((st as int, en as int)));
                assert(r@ == tok@.subrange(
                    after_last_char_spec(tok@, '-', tok@.len() as int),
                    tok@.len() as int,
                ));
                assert(s@ == stdout@);
                assert(r@ =~= parse_job_id_spec(stdout@));
            }
            return r;
        }
        i = en;
        st = skip_blanks(s, en);
    }
    String::from_str("unknown")
}

/// The first printer marked as the system default, if any.
pub fn get_default_printer(printers: &Vec<PrinterInfo>) -> (r: Option<&PrinterInfo>)
    ensures
        match r {
            Option::Some(p) => exists|i: int|
                {
                    &&& 0 <= i < printers@.len()
                    &&& *p == printers@[i]
                    &&& (#[trigger] printers@[i]).is_default
                    &&& forall|j: int| 0 <= j < i ==> !printers@[j].is_default
                },
            Option::None => forall|i: int|
                0 <= i < printers@.len() ==> !(#[trigger] printers@[i]).is_default,
        },
{
    let n: usize = printers.len();
    let mut k: usize = 0;
    while k < n
        invariant
            0 <= k <= n,
            n == printers@.len(),
            forall|j: int| 0 <= j < k ==> !(#[trigger] printers@[j]).is_default,
        decreases n - k,
    {
        if printers[k].is_default {
            return Option::Some(&printers[k]);
        }
        k = k + 1;
    }
    Option::None
}

} // verus!
