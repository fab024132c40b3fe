//! Memory use of the running process: what it is now, what it was at most and
//! how much it has grown, with texts for people.

use std::time::{Duration, Instant};
use sysinfo::{Pid, ProcessRefreshKind, ProcessesToUpdate, System};
use vstd::prelude::*;
use vstd::string::StringExecFns;

verus! {

/// `sysinfo::System`, the handle through which the process table is read.
/// Nothing is known of what it holds.
#[verifier::external_type_specification]
#[verifier::external_body]
pub struct ExSystem(System);

/// `std::time::Instant`, a reading of the monotonic clock. Nothing is known of
/// what it holds.
#[verifier::external_type_specification]
#[verifier::external_body]
pub struct ExInstant(Instant);

/// Calls `sysinfo::System::new_all`.
///
/// Trusted: nothing is claimed of the handle.
#[verifier::external_body]
fn system_new_all() -> System {
    System::new_all()
}

/// Calls `sysinfo::System::refresh_all`.
///
/// Trusted: nothing is claimed of the handle after the call.
#[verifier::external_body]
fn system_refresh_all(system: &mut System) {
    system.refresh_all();
}

/// Calls `sysinfo::System::refresh_processes_specifics` for the one process
/// `process_id`, asking for its memory figures and for its removal if it is
/// gone.
///
/// Trusted: nothing is claimed of the handle after the call.
#[verifier::external_body]
fn system_refresh_process_memory(system: &mut System, process_id: u32) {
    system.refresh_processes_specifics(
        ProcessesToUpdate::Some(&[Pid::from_u32(process_id)]),
        true,
        ProcessRefreshKind::nothing().with_memory(),
    );
}

/// Calls `sysinfo::System::process` and, on the process found,
/// `sysinfo::Process::memory`: the resident memory in bytes, or `None` where
/// the handle knows no such process.
///
/// Trusted: nothing is claimed of the figure, which is the machine's.
#[verifier::external_body]
fn system_process_memory(system: &System, process_id: u32) -> Option<u64> {
    system.process(Pid::from_u32(process_id)).map(|process| process.memory())
}

/// Calls `sysinfo::System::process` and, on the process found,
/// `sysinfo::Process::virtual_memory`: the virtual memory in bytes, or `None`
/// where the handle knows no such process.
///
/// Trusted: nothing is claimed of the figure, which is the machine's.
#[verifier::external_body]
fn system_process_virtual_memory(system: &System, process_id: u32) -> Option<u64> {
    system.process(Pid::from_u32(process_id)).map(|process| process.virtual_memory())
}

/// Calls `std::time::Instant::now`.
///
/// Trusted: nothing is claimed of the reading.
#[verifier::external_body]
fn clock_now() -> Instant {
    Instant::now()
}

/// Calls `std::time::Instant::elapsed`.
///
/// Trusted: nothing is claimed of the time that has passed.
#[verifier::external_body]
fn clock_elapsed(since: &Instant) -> Duration {
    since.elapsed()
}

/// Calls `std::time::Duration::as_nanos`.
///
/// Trusted: nothing is claimed of the number.
#[verifier::external_body]
fn duration_as_nanos(duration: &Duration) -> u128 {
    duration.as_nanos()
}

/// One reading of the process's memory, in kilobytes of 1024 bytes.
#[derive(Debug)]
pub struct MemoryStats {
    pub current_memory_kb: u64,
    pub virtual_memory_kb: u64,
    pub peak_memory_kb: u64,
    pub memory_growth_kb: u64,
}

impl Clone for MemoryStats {
    fn clone(&self) -> (copy: Self)
        ensures
            copy == *self,
    {
        MemoryStats {
            current_memory_kb: self.current_memory_kb,
            virtual_memory_kb: self.virtual_memory_kb,
            peak_memory_kb: self.peak_memory_kb,
            memory_growth_kb: self.memory_growth_kb,
        }
    }
}

/// The whole kilobytes in a memory figure. A process that the system does not
/// know counts as using none.
pub open spec fn kilobytes(bytes: Option<u64>) -> u64 {
    match bytes {
        Some(b) => b / 1024,
        None => 0,
    }
}

/// What a monitor remembers between readings: the process it watches, and
/// two figures in kilobytes.
pub struct MonitorState {
    pub process_id: u32,
    pub peak_memory: u64,
    pub initial_memory: u64,
}

impl MonitorState {
    /// The state of a monitor for the process `process_id` whose first
    /// reading was `initial_bytes`.
    pub open spec fn started(process_id: u32, initial_bytes: Option<u64>) -> MonitorState {
        MonitorState {
            process_id,
            peak_memory: kilobytes(initial_bytes),
            initial_memory: kilobytes(initial_bytes),
        }
    }

    /// The state and the answer of a periodic reading for which
    /// `elapsed_nanos` nanoseconds have passed since the last reading: once
    /// they reach `interval_nanos` the reading is taken and recorded; before
    /// that nothing changes and there are no figures.
    pub open spec fn periodic(
        self,
        elapsed_nanos: u128,
        interval_nanos: u128,
        current_bytes: Option<u64>,
        virtual_bytes: Option<u64>,
    ) -> (MonitorState, Option<MemoryStats>) {
        if elapsed_nanos >= interval_nanos {
            (
                self.record(current_bytes, virtual_bytes).0,
                Some(self.record(current_bytes, virtual_bytes).1),
            )
        } else {
            (self, None)
        }
    }

    /// The state after a reading, and the figures that the reading gives: the
    /// peak is the largest resident figure so far, the growth is what the
    /// resident figure has gained on the first reading and never negative.
    pub open spec fn record(self, current_bytes: Option<u64>, virtual_bytes: Option<u64>) -> (
        MonitorState,
        MemoryStats,
    ) {
        let current = kilobytes(current_bytes);
        let peak = if current > self.peak_memory {
            current
        } else {
            self.peak_memory
        };
        (
            MonitorState { peak_memory: peak, ..self },
            MemoryStats {
                current_memory_kb: current,
                virtual_memory_kb: kilobytes(virtual_bytes),
                peak_memory_kb: peak,
                memory_growth_kb: if current >= self.initial_memory {
                    (current - self.initial_memory) as u64
                } else {
                    0
                },
            },
        )
    }
}

/// Watches the memory of one process.
pub struct MemoryMonitor {
    system: System,
    process_id: u32,
    last_check: Instant,
    peak_memory: u64,
    initial_memory: u64,
}

impl View for MemoryMonitor {
    type V = MonitorState;

    closed spec fn view(&self) -> MonitorState {
        MonitorState {
            process_id: self.process_id,
            peak_memory: self.peak_memory,
            initial_memory: self.initial_memory,
        }
    }
}

fn to_kilobytes(bytes: Option<u64>) -> (kb: u64)
    ensures
        kb == kilobytes(bytes),
{
    match bytes {
        Some(b) => b / 1024,
        None => 0,
    }
}

impl MemoryMonitor {
    /// A monitor for the process `process_id`. Its first reading is taken now
    /// and is both the initial and the peak figure.
    pub fn new(process_id: u32) -> (monitor: Self)
        ensures
            exists|initial_bytes: Option<u64>|
                monitor@ == #[trigger] MonitorState::started(process_id, initial_bytes),
    {
        let mut system = system_new_all();
        system_refresh_all(&mut system);
        let initial_bytes = system_process_memory(&system, process_id);
        let initial_memory = to_kilobytes(initial_bytes);
        let monitor = MemoryMonitor {
            system,
            process_id,
            last_check: clock_now(),
            peak_memory: initial_memory,
            initial_memory,
        };
        assert(monitor@ == MonitorState::started(process_id, initial_bytes));
        monitor
    }

    /// The process that is watched.
    pub fn process_id(&self) -> (process_id: u32)
        ensures
            process_id == self@.process_id,
    {
        self.process_id
    }

    /// The resident memory at the first reading, in kilobytes.
    pub fn initial_memory_kb(&self) -> (kb: u64)
        ensures
            kb == self@.initial_memory,
    {
        self.initial_memory
    }

    /// The largest resident memory of all readings so far, in kilobytes.
    pub fn peak_memory_kb(&self) -> (kb: u64)
        ensures
            kb == self@.peak_memory,
    {
        self.peak_memory
    }

    /// Takes in one reading of the process's memory, in bytes, and gives the
    /// figures that follow from it.
    pub fn record_sample(&mut self, current_bytes: Option<u64>, virtual_bytes: Option<u64>) -> (stats:
        MemoryStats)
        ensures
            (final(self)@, stats) == old(self)@.record(current_bytes, virtual_bytes),
    {
        let current_memory = to_kilobytes(current_bytes);
        let virtual_memory = to_kilobytes(virtual_bytes);
        if current_memory > self.peak_memory {
            self.peak_memory = current_memory;
        }
        MemoryStats {
            current_memory_kb: current_memory,
            virtual_memory_kb: virtual_memory,
            peak_memory_kb: self.peak_memory,
            memory_growth_kb: current_memory.saturating_sub(self.initial_memory),
        }
    }

    /// Reads the process's memory now and gives the figures.
    pub fn check_memory(&mut self) -> (stats: MemoryStats)
        ensures
            exists|current_bytes: Option<u64>, virtual_bytes: Option<u64>|
                (final(self)@, stats) == #[trigger] old(self)@.record(current_bytes, virtual_bytes),
    {
        system_refresh_process_memory(&mut self.system, self.process_id);
        let current_bytes = system_process_memory(&self.system, self.process_id);
        let virtual_bytes = system_process_virtual_memory(&self.system, self.process_id);
        let stats = self.record_sample(current_bytes, virtual_bytes);
        self.last_check = clock_now();
        assert((self@, stats) == old(self)@.record(current_bytes, virtual_bytes));
        stats
    }

    /// Whether a reading is due once `elapsed_nanos` have passed since the last
    /// one and readings are `interval_nanos` apart.
    pub fn reading_due(elapsed_nanos: u128, interval_nanos: u128) -> (due: bool)
        ensures
            due == (elapsed_nanos >= interval_nanos),
    {
        elapsed_nanos >= interval_nanos
    }

    /// Reads the process's memory if the last reading is at least
    /// `interval_nanos` nanoseconds old, and gives the figures; does nothing
    /// before that. How old the last reading is, the clock says. With an
    /// interval of zero every call takes a reading.
    pub fn log_memory_periodically(&mut self, interval_nanos: u128) -> (logged: Option<MemoryStats>)
        ensures
            exists|elapsed_nanos: u128, current_bytes: Option<u64>, virtual_bytes: Option<u64>|
                (final(self)@, logged) == #[trigger] old(self)@.periodic(
                    elapsed_nanos,
                    interval_nanos,
                    current_bytes,
                    virtual_bytes,
                ),
    {
        let elapsed = clock_elapsed(&self.last_check);
        let elapsed_nanos = duration_as_nanos(&elapsed);
        if Self::reading_due(elapsed_nanos, interval_nanos) {
            let stats = self.check_memory();
            proof {
                let (current_bytes, virtual_bytes) = choose|
                    current_bytes: Option<u64>,
                    virtual_bytes: Option<u64>,
                |
                    (self@, stats) == #[trigger] old(self)@.record(current_bytes, virtual_bytes);
                assert((self@, Some(stats)) == old(self)@.periodic(
                    elapsed_nanos,
                    interval_nanos,
                    current_bytes,
                    virtual_bytes,
                ));
            }
            Some(stats)
        } else {
            assert((self@, None::<MemoryStats>) == old(self)@.periodic(
                elapsed_nanos,
                interval_nanos,
                None,
                None,
            ));
            None
        }
    }
}

/// The character that stands for the decimal digit `d`.
pub open spec fn digit(d: nat) -> char {
    if d == 0 {
        '0'
    } else if d == 1 {
        '1'
    } else if d == 2 {
        '2'
    } else if d == 3 {
        '3'
    } else if d == 4 {
        '4'
    } else if d == 5 {
        '5'
    } else if d == 6 {
        '6'
    } else if d == 7 {
        '7'
    } else if d == 8 {
        '8'
    } else {
        '9'
    }
}

/// The decimal digits of `n`, without leading zeros.
pub open spec fn decimal(n: nat) -> Seq<char>
    decreases n,
{
    if n < 10 {
        seq![digit(n)]
    } else {
        decimal(n / 10).push(digit(n % 10))
    }
}

/// The whole number nearest to `numerator / divisor`; of two that are equally
/// near, the even one.
pub open spec fn rounded_ratio(numerator: nat, divisor: nat) -> nat {
    let quotient = numerator / divisor;
    let rest = numerator % divisor;
    if 2 * rest > divisor || (2 * rest == divisor && quotient % 2 == 1) {
        quotient + 1
    } else {
        quotient
    }
}

/// The weight of the last binary digit that is kept of `n` where 53
/// significant binary digits are kept: 1 below 2 to the 53rd, and twice as
/// much with each binary digit that `n` has beyond that.
pub open spec fn last_digit_weight(n: nat) -> nat
    decreases n,
{
    if n < 0x20_0000_0000_0000 {
        1
    } else {
        2 * last_digit_weight(n / 2)
    }
}

/// `n` to 53 significant binary digits, the precision of a double-precision
/// number: the nearest number of that many digits; of two that are equally
/// near, the one whose last digit is even. Amounts are shown with this
/// precision; below 2 to the 53rd it is exact.
pub open spec fn significant(n: nat) -> nat {
    rounded_ratio(n, last_digit_weight(n)) * last_digit_weight(n)
}

/// `kb` kilobytes in megabytes, rounded to one decimal place.
pub open spec fn megabytes_text(kb: u64) -> Seq<char> {
    let tenths = rounded_ratio(significant(kb as nat) * 10, 1024);
    decimal(tenths / 10) + seq!['.', digit(tenths % 10)] + " MB"@
}

/// `kb` kilobytes in gigabytes, rounded to two decimal places.
pub open spec fn gigabytes_text(kb: u64) -> Seq<char> {
    let hundredths = rounded_ratio(significant(kb as nat) * 100, 1024 * 1024);
    decimal(hundredths / 100) + seq!['.', digit(hundredths / 10 % 10), digit(hundredths % 10)]
        + " GB"@
}

/// `kb` kilobytes in the largest unit of which there is at least one: whole
/// kilobytes below 1024, megabytes below 1024 * 1024, gigabytes from there on.
pub open spec fn human_text(kb: u64) -> Seq<char> {
    if kb >= 1024 * 1024 {
        gigabytes_text(kb)
    } else if kb >= 1024 {
        megabytes_text(kb)
    } else {
        decimal(kb as nat) + " KB"@
    }
}

fn digit_text(d: u64) -> (text: &'static str)
    requires
        d < 10,
    ensures
        text@ == seq![digit(d as nat)],
{
    proof {
        reveal_strlit("0");
        reveal_strlit("1");
        reveal_strlit("2");
        reveal_strlit("3");
        reveal_strlit("4");
        reveal_strlit("5");
        reveal_strlit("6");
        reveal_strlit("7");
        reveal_strlit("8");
        reveal_strlit("9");
    }
    let text = if d == 0 {
        "0"
    } else if d == 1 {
        "1"
    } else if d == 2 {
        "2"
    } else if d == 3 {
        "3"
    } else if d == 4 {
        "4"
    } else if d == 5 {
        "5"
    } else if d == 6 {
        "6"
    } else if d == 7 {
        "7"
    } else if d == 8 {
        "8"
    } else {
        "9"
    };
    text
}

fn append_decimal(text: &mut String, n: u64)
    ensures
        final(text)@ == old(text)@ + decimal(n as nat),
    decreases n,
{
    if n >= 10 {
        append_decimal(text, n / 10);
    }
    text.append(digit_text(n % 10));
}

fn round_ratio(numerator: u128, divisor: u128) -> (rounded: u128)
    requires
        0 < divisor <= 0x1_0000_0000,
        numerator <= 0x1_0000_0000_0000_0000 * 100,
    ensures
        rounded == rounded_ratio(numerator as nat, divisor as nat),
        rounded <= numerator / divisor + 1,
{
    let quotient = numerator / divisor;
    let rest = numerator % divisor;
    if 2 * rest > divisor || (2 * rest == divisor && quotient % 2 == 1) {
        quotient + 1
    } else {
        quotient
    }
}

fn to_significant(n: u64) -> (kept: u128)
    ensures
        kept == significant(n as nat),
        kept <= 0x1_0000_0000_0000_0000,
        n < 0x20_0000_0000_0000 ==> kept == n,
{
    let weight: u128 = if n < 0x20_0000_0000_0000 {
        1
    } else if n < 0x40_0000_0000_0000 {
        2
    } else if n < 0x80_0000_0000_0000 {
        4
    } else if n < 0x100_0000_0000_0000 {
        8
    } else if n < 0x200_0000_0000_0000 {
        16
    } else if n < 0x400_0000_0000_0000 {
        32
    } else if n < 0x800_0000_0000_0000 {
        64
    } else if n < 0x1000_0000_0000_0000 {
        128
    } else if n < 0x2000_0000_0000_0000 {
        256
    } else if n < 0x4000_0000_0000_0000 {
        512
    } else if n < 0x8000_0000_0000_0000 {
        1024
    } else {
        2048
    };
    proof {
        reveal_with_fuel(last_digit_weight, 13);
    }
    let rounded = round_ratio(n as u128, weight);
    proof {
        let whole = (n as int) / (weight as int);
        assert(rounded * weight <= 0x20_0000_0000_0000 * 2048) by (nonlinear_arith)
            requires
                0 <= rounded <= whole + 1,
                whole < 0x20_0000_0000_0000,
                0 < weight <= 2048,
        ;
    }
    rounded * weight
}

impl MemoryMonitor {
    /// `kb` kilobytes as a text in megabytes with one decimal place, such as
    /// `1.5 MB`.
    pub fn format_memory_mb(kb: u64) -> (text: String)
        ensures
            text@ == megabytes_text(kb),
    {
        let tenths = round_ratio(to_significant(kb) * 10, 1024);
        let whole = (tenths / 10) as u64;
        let mut text = String::new();
        append_decimal(&mut text, whole);
        text.append(".");
        text.append(digit_text((tenths % 10) as u64));
        text.append(" MB");
        proof {
            reveal_strlit(".");
        }
        text
    }

    /// `kb` kilobytes as a text in the unit that suits the amount, such as
    /// `512 KB`, `1.5 MB` or `2.00 GB`.
    pub fn format_memory_human(kb: u64) -> (text: String)
        ensures
            text@ == human_text(kb),
    {
        if kb >= 1024 * 1024 {
            let hundredths = round_ratio(to_significant(kb) * 100, 1024 * 1024);
            let whole = (hundredths / 100) as u64;
            let mut text = String::new();
            append_decimal(&mut text, whole);
            text.append(".");
            text.append(digit_text((hundredths / 10 % 10) as u64));
            text.append(digit_text((hundredths % 10) as u64));
            text.append(" GB");
            proof {
                reveal_strlit(".");
            }
            text
        } else if kb >= 1024 {
            Self::format_memory_mb(kb)
        } else {
            let mut text = String::new();
            append_decimal(&mut text, kb);
            text.append(" KB");
            text
        }
    }
}

} // verus!
