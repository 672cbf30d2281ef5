//! The flashing window's state: the form, the phases of a flash, and how
//! each button and each report of the writing thread moves between them.

use vstd::prelude::*;
use crate::list::{human_text, UsbDevice};
use crate::size::{size_value, SizeError, SizeFault};
use crate::text::{
    decimal, lemma_decimal_digits, lemma_leading_digits, trim_start, chars_of, digits_value, framed, leading_digits, read_digits, trim, trim_bounds,
};
use crate::WriteParams;

verus! {

/// A byte count for people, as the window shows it: the same text as
/// `list::human_bytes`, which the command line's prompt shows.
pub fn human_bytes(bytes: u64) -> (s: String)
    ensures
        s@ == human_text(bytes as nat),
{
    crate::list::human_bytes(bytes)
}

/// The text that reports a refused block size in the window.
pub open spec fn form_fault_message(f: SizeFault) -> Seq<char> {
    match f {
        SizeFault::NoNumber(t) => "No numeric value in '"@ + t + "'"@,
        SizeFault::InvalidNumber(d) => "Cannot parse '"@ + d + "'"@,
        SizeFault::UnknownSuffix(u) => "Unknown suffix '"@ + u + "'"@,
        SizeFault::Overflow(t) => "Size overflows: "@ + t + ""@,
        SizeFault::TooLarge(t) => "Too large for this platform: "@ + t + ""@,
    }
}

/// Parses a block size the way the command line does, reporting a refusal
/// as the window shows it.
pub fn parse_size(s: &str) -> (r: Result<usize, String>)
    ensures
        match r {
            Ok(n) => size_value(s@) == Ok::<nat, SizeFault>(n as nat),
            Err(m) => size_value(s@) is Err && m@ == form_fault_message(
                size_value(s@)->Err_0,
            ),
        },
{
    match crate::size::parse_size(s) {
        Ok(n) => Ok(n),
        Err(e) => Err(
            match e {
                SizeError::NoNumber(t) => framed("No numeric value in '", t.as_str(), "'"),
                SizeError::InvalidNumber(d) => framed("Cannot parse '", d.as_str(), "'"),
                SizeError::UnknownSuffix(u) => framed("Unknown suffix '", u.as_str(), "'"),
                SizeError::Overflow(t) => framed("Size overflows: ", t.as_str(), ""),
                SizeError::TooLarge(t) => framed("Too large for this platform: ", t.as_str(), ""),
            },
        ),
    }
}

/// The byte offset written as `s`, read as `u64::from_str` reads the trimmed
/// text: an optional `+`, then one or more ASCII digits, at most `u64::MAX`.
pub open spec fn offset_value(s: Seq<char>) -> Option<nat> {
    let t = trim(s);
    let body = if t.len() > 0 && t[0] == '+' {
        t.drop_first()
    } else {
        t
    };
    if body.len() > 0 && leading_digits(body) == body.len() && digits_value(body) <= u64::MAX {
        Some(digits_value(body))
    } else {
        None
    }
}

/// Parses the offset field: plain bytes, whitespace around it ignored.
pub fn parse_offset(s: &str) -> (r: Option<u64>)
    ensures
        match r {
            Some(n) => offset_value(s@) == Some(n as nat),
            None => offset_value(s@) is None,
        },
{
    let chars = chars_of(s);
    let (start, end) = trim_bounds(&chars);
    let ghost t = chars@.subrange(start as int, end as int);
    let from = if start < end && chars[start] == '+' {
        start + 1
    } else {
        start
    };
    assert(chars@.subrange(from as int, end as int) =~= if t.len() > 0 && t[0] == '+' {
        t.drop_first()
    } else {
        t
    });
    if from == end {
        return None;
    }
    let (stop, value) = read_digits(&chars, from, end);
    if stop != end {
        return None;
    }
    assert(chars@.subrange(from as int, stop as int) =~= chars@.subrange(from as int, end as int));
    value
}

/// An offset written out in decimal, as the command line hands it to a
/// relaunch (`--offset`), reads back as the same offset.
pub proof fn lemma_offset_reads_back(n: u64)
    ensures
        offset_value(decimal(n as nat)) == Some(n as nat),
{
    let d = decimal(n as nat);
    lemma_decimal_digits(n as nat);
    assert(trim_start(d) == d);
    assert(trim(d) == d);
    lemma_leading_digits(d, d.len());
}

/// The phases of the window.
#[derive(PartialEq, Eq, Structural, Clone, Copy, Debug)]
pub enum Phase {
    Idle,
    Confirming,
    Flashing,
    Done,
    Failed,
}

/// A report polled from the writing thread.
#[derive(Debug)]
pub enum FlashEvent {
    /// Bytes written so far, out of the total.
    Update(u64, u64),
    /// The write finished; the summary of what was written and how fast.
    Done(String),
    /// The write failed with this message.
    Error(String),
    /// Nothing new has been reported.
    Empty,
    /// The writing thread went away without a final report.
    Disconnected,
}

/// The state of the flashing window.
#[derive(Debug)]
pub struct BufApp {
    /// The image to flash, if one was picked.
    pub source: Option<String>,
    /// The storage devices found.
    pub devices: Vec<UsbDevice>,
    /// The index of the chosen device in `devices`.
    pub selected: Option<usize>,
    /// The block size field.
    pub block_size: String,
    /// The offset field.
    pub offset: String,
    pub phase: Phase,
    /// The last progress report, bytes written out of a total, written at
    /// most the total; a total of zero stands for no progress.
    pub progress: (u64, u64),
    pub result_msg: String,
    pub error_msg: String,
    pub status_msg: String,
    /// Why the devices could not be listed, empty when they could.
    pub device_load_err: String,
}

/// The window's state as values: strings by their characters.
pub struct WindowState {
    pub source: Option<Seq<char>>,
    pub devices: Seq<UsbDevice>,
    pub selected: Option<usize>,
    pub block_size: Seq<char>,
    pub offset: Seq<char>,
    pub phase: Phase,
    pub progress: (u64, u64),
    pub result_msg: Seq<char>,
    pub error_msg: Seq<char>,
    pub status_msg: Seq<char>,
    pub device_load_err: Seq<char>,
}

impl View for BufApp {
    type V = WindowState;

    open spec fn view(&self) -> WindowState {
        WindowState {
            source: match self.source {
                Some(s) => Some(s@),
                None => None,
            },
            devices: self.devices@,
            selected: self.selected,
            block_size: self.block_size@,
            offset: self.offset@,
            phase: self.phase,
            progress: self.progress,
            result_msg: self.result_msg@,
            error_msg: self.error_msg@,
            status_msg: self.status_msg@,
            device_load_err: self.device_load_err@,
        }
    }
}

impl WindowState {
    /// The chosen device, when the choice points into the list.
    pub open spec fn chosen_device(self) -> Option<UsbDevice> {
        match self.selected {
            Some(i) => if i < self.devices.len() {
                Some(self.devices[i as int])
            } else {
                None
            },
            None => None,
        }
    }

    /// The form is complete and valid, and nothing else is going on.
    pub open spec fn ready(self) -> bool {
        &&& self.source is Some
        &&& self.selected is Some
        &&& self.phase == Phase::Idle
        &&& size_value(self.block_size) is Ok
        &&& offset_value(self.offset) is Some
    }

    /// The form passes every check that "Flash it" makes.
    pub open spec fn flashable(self) -> bool {
        &&& self.source is Some
        &&& self.chosen_device() is Some
        &&& size_value(self.block_size) is Ok
        &&& offset_value(self.offset) is Some
    }

    /// The state after "Flash it".
    pub open spec fn after_flash_it(self) -> WindowState {
        if self.source is None || self.chosen_device() is None {
            self
        } else if size_value(self.block_size) is Err {
            WindowState {
                phase: Phase::Failed,
                error_msg: form_fault_message(size_value(self.block_size)->Err_0),
                ..self
            }
        } else if offset_value(self.offset) is None {
            WindowState {
                phase: Phase::Failed,
                error_msg: "Offset must be a plain integer in bytes"@,
                ..self
            }
        } else {
            WindowState {
                phase: Phase::Flashing,
                status_msg: "Validating..."@,
                progress: (0, 0),
                ..self
            }
        }
    }

    /// The state after one report of the writing thread.
    pub open spec fn after_report(self, event: FlashEvent) -> WindowState {
        if self.phase != Phase::Flashing {
            self
        } else {
            match event {
                FlashEvent::Update(written, total) => if total > 0 {
                    WindowState {
                        progress: (if written <= total {
                            written
                        } else {
                            total
                        }, total),
                        ..self
                    }
                } else {
                    self
                },
                FlashEvent::Done(summary) => WindowState {
                    phase: Phase::Done,
                    result_msg: summary@,
                    progress: (1, 1),
                    ..self
                },
                FlashEvent::Error(e) => WindowState { phase: Phase::Failed, error_msg: e@, ..self },
                FlashEvent::Empty => self,
                FlashEvent::Disconnected => WindowState {
                    phase: Phase::Failed,
                    error_msg: "Flash thread disconnected unexpectedly"@,
                    ..self
                },
            }
        }
    }
}

impl BufApp {
    /// A window with an empty form.
    pub fn new() -> (app: BufApp)
        ensures
            app@ == (WindowState {
                source: None,
                devices: Seq::empty(),
                selected: None,
                block_size: "32MiB"@,
                offset: "0"@,
                phase: Phase::Idle,
                progress: (0, 0),
                result_msg: Seq::empty(),
                error_msg: Seq::empty(),
                status_msg: Seq::empty(),
                device_load_err: Seq::empty(),
            }),
    {
        BufApp {
            source: None,
            devices: Vec::new(),
            selected: None,
            block_size: String::from_str("32MiB"),
            offset: String::from_str("0"),
            phase: Phase::Idle,
            progress: (0, 0),
            result_msg: String::new(),
            error_msg: String::new(),
            status_msg: String::new(),
            device_load_err: String::new(),
        }
    }

    /// Takes in the result of listing the devices: a new list clears the
    /// choice and the error; a failure empties the list and keeps its reason.
    pub fn refresh_devices(&mut self, listed: Result<Vec<UsbDevice>, String>)
        ensures
            final(self)@ == match listed {
                Ok(devs) => WindowState {
                    devices: devs@,
                    selected: None,
                    device_load_err: Seq::empty(),
                    ..old(self)@
                },
                Err(e) => WindowState {
                    devices: Seq::empty(),
                    device_load_err: e@,
                    ..old(self)@
                },
            },
    {
        match listed {
            Ok(devs) => {
                self.devices = devs;
                self.selected = None;
                self.device_load_err = String::new();
            },
            Err(e) => {
                self.device_load_err = e;
                self.devices = Vec::new();
            },
        }
    }

    /// Chooses the `index`-th device of the list.
    pub fn select(&mut self, index: usize)
        ensures
            final(self)@ == (WindowState { selected: Some(index), ..old(self)@ }),
    {
        self.selected = Some(index);
    }

    /// The chosen device, when the choice points into the list.
    pub fn selected_device(&self) -> (d: Option<&UsbDevice>)
        ensures
            match d {
                Some(d) => self@.chosen_device() == Some(*d),
                None => self@.chosen_device() is None,
            },
    {
        match self.selected {
            Some(i) => if i < self.devices.len() {
                Some(&self.devices[i])
            } else {
                None
            },
            None => None,
        }
    }

    /// Whether the Flash button is enabled.
    pub fn can_flash(&self) -> (b: bool)
        ensures
            b == self@.ready(),
    {
        self.source.is_some() && self.selected.is_some() && self.phase == Phase::Idle
            && parse_size(self.block_size.as_str()).is_ok() && parse_offset(
            self.offset.as_str(),
        ).is_some()
    }

    /// The Flash button: asks for confirmation when the form is ready.
    pub fn start_confirm(&mut self)
        ensures
            final(self)@ == if old(self)@.ready() {
                WindowState { phase: Phase::Confirming, ..old(self)@ }
            } else {
                old(self)@
            },
    {
        if self.can_flash() {
            self.phase = Phase::Confirming;
        }
    }

    /// The Cancel button of the confirmation.
    pub fn cancel(&mut self)
        ensures
            final(self)@ == (WindowState { phase: Phase::Idle, ..old(self)@ }),
    {
        self.phase = Phase::Idle;
    }

    /// The "Flash it" button of the confirmation: checks the form once more and, when it holds
    /// up, enters the flashing phase and hands out what the write needs.
    /// Without an image or a device nothing changes; a block size or offset
    /// that does not parse fails the flash with its reason.
    pub fn do_flash(&mut self) -> (r: Option<WriteParams>)
        ensures
            final(self)@ == old(self)@.after_flash_it(),
            r is Some <==> old(self)@.flashable(),
            match r {
                Some(p) => {
                    &&& Some(p.source@) == old(self)@.source
                    &&& p.target@ == old(self)@.chosen_device()->0.path@
                    &&& size_value(old(self)@.block_size) == Ok::<nat, SizeFault>(
                        p.block_size as nat,
                    )
                    &&& offset_value(old(self)@.offset) == Some(p.offset as nat)
                },
                None => true,
            },
    {
        let source = match &self.source {
            Some(p) => p.clone(),
            None => return None,
        };
        let target = match self.selected_device() {
            Some(d) => d.path.clone(),
            None => return None,
        };
        let block_size = match parse_size(self.block_size.as_str()) {
            Ok(b) => b,
            Err(e) => {
                self.error_msg = e;
                self.phase = Phase::Failed;
                return None;
            },
        };
        let offset = match parse_offset(self.offset.as_str()) {
            Some(v) => v,
            None => {
                self.error_msg = String::from_str("Offset must be a plain integer in bytes");
                self.phase = Phase::Failed;
                return None;
            },
        };
        self.status_msg = String::from_str("Validating...");
        self.phase = Phase::Flashing;
        self.progress = (0, 0);
        Some(WriteParams { source, target, block_size, offset })
    }

    /// The image or the device was refused before writing started.
    pub fn validation_failed(&mut self, message: String)
        ensures
            final(self)@ == (WindowState {
                phase: Phase::Failed,
                error_msg: message@,
                ..old(self)@
            }),
    {
        self.error_msg = message;
        self.phase = Phase::Failed;
    }

    /// The writing thread was started.
    pub fn flash_started(&mut self)
        ensures
            final(self)@ == (WindowState { status_msg: "Writing..."@, ..old(self)@ }),
    {
        self.status_msg = String::from_str("Writing...");
    }

    /// Takes in one report of the writing thread. Reports only count while
    /// flashing. Returns whether to poll again in the same frame, which is
    /// the case after a progress update.
    pub fn poll(&mut self, event: FlashEvent) -> (again: bool)
        ensures
            final(self)@ == old(self)@.after_report(event),
            again <==> (old(self).phase == Phase::Flashing && event is Update),
    {
        if self.phase != Phase::Flashing {
            return false;
        }
        match event {
            FlashEvent::Update(written, total) => {
                if total > 0 {
                    let done = if written <= total {
                        written
                    } else {
                        total
                    };
                    self.progress = (done, total);
                }
                true
            },
            FlashEvent::Done(summary) => {
                self.result_msg = summary;
                self.progress = (1, 1);
                self.phase = Phase::Done;
                false
            },
            FlashEvent::Error(e) => {
                self.error_msg = e;
                self.phase = Phase::Failed;
                false
            },
            FlashEvent::Empty => false,
            FlashEvent::Disconnected => {
                self.error_msg = String::from_str("Flash thread disconnected unexpectedly");
                self.phase = Phase::Failed;
                false
            },
        }
    }

    /// The "Flash another" button: back to the form, result cleared.
    pub fn flash_another(&mut self)
        ensures
            final(self)@ == (WindowState {
                phase: Phase::Idle,
                result_msg: Seq::empty(),
                progress: (0, 0),
                ..old(self)@
            }),
    {
        self.phase = Phase::Idle;
        self.result_msg = String::new();
        self.progress = (0, 0);
    }

    /// The Back button after a failure: back to the form, error cleared.
    pub fn back(&mut self)
        ensures
            final(self)@ == (WindowState {
                phase: Phase::Idle,
                error_msg: Seq::empty(),
                ..old(self)@
            }),
    {
        self.phase = Phase::Idle;
        self.error_msg = String::new();
    }
}

/// A ready form whose device choice points into the list, once the Flash
/// button has asked for confirmation, passes every check of "Flash it":
/// confirming it starts a flash.
pub proof fn lemma_ready_form_flashes(w: WindowState)
    requires
        w.ready(),
        w.selected->0 < w.devices.len(),
    ensures
        (WindowState { phase: Phase::Confirming, ..w }).flashable(),
        (WindowState { phase: Phase::Confirming, ..w }).after_flash_it().phase == Phase::Flashing,
{
}

/// Progress is a fraction from 0 to 1: after any report, the bytes written
/// are at most the total, or the total is zero (no progress yet).
pub proof fn lemma_progress_stays_in_range(w: WindowState, event: FlashEvent)
    requires
        w.progress.1 == 0 || w.progress.0 <= w.progress.1,
    ensures
        w.after_report(event).progress.1 == 0 || w.after_report(event).progress.0
            <= w.after_report(event).progress.1,
{
}

/// What a report does to the phase of a flash under way: a failure report
/// or a vanished writing thread fails the flash with the reason shown, a
/// done report finishes it with its summary, and progress or silence keep
/// it flashing.
pub proof fn lemma_report_outcomes(w: WindowState, event: FlashEvent)
    requires
        w.phase == Phase::Flashing,
    ensures
        event matches FlashEvent::Error(e) ==> w.after_report(event).phase == Phase::Failed
            && w.after_report(event).error_msg == e@,
        event is Disconnected ==> w.after_report(event).phase == Phase::Failed,
        event matches FlashEvent::Done(summary) ==> w.after_report(event).phase == Phase::Done
            && w.after_report(event).result_msg == summary@,
        event is Update || event is Empty ==> w.after_report(event).phase == Phase::Flashing,
{
}

/// A window reaches the done screen only from a flash under way and a done
/// report, and the failure screen only from a flash under way and a failure
/// report or a vanished writing thread (or it was there already).
pub proof fn lemma_only_done_reports_finish(w: WindowState, event: FlashEvent)
    ensures
        w.after_report(event).phase == Phase::Done ==> w.phase == Phase::Done || (w.phase
            == Phase::Flashing && event is Done),
        w.after_report(event).phase == Phase::Failed ==> w.phase == Phase::Failed || (w.phase
            == Phase::Flashing && (event is Error || event is Disconnected)),
{
}

/// Reports of the writing thread change nothing unless a flash is under way:
/// once a flash is done or has failed, later reports leave the window as it
/// is.
pub proof fn lemma_reports_count_only_while_flashing(w: WindowState, event: FlashEvent)
    requires
        w.phase != Phase::Flashing,
    ensures
        w.after_report(event) == w,
{
}

/// Every report leaves the form alone: the image, the devices, the choice
/// and the fields are what they were.
pub proof fn lemma_reports_keep_the_form(w: WindowState, event: FlashEvent)
    ensures
        w.after_report(event).source == w.source,
        w.after_report(event).devices == w.devices,
        w.after_report(event).selected == w.selected,
        w.after_report(event).block_size == w.block_size,
        w.after_report(event).offset == w.offset,
{
}

} // verus!
