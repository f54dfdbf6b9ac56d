//! One polling cycle, planned as a value: from the raw input text to the
//! exact bytes each output resource receives. The binary around the
//! library reads the input, writes what a plan holds, sleeps, repeats.

use vstd::prelude::*;
use crate::duty::{spec_duty0, spec_duty1, spec_duty2, split_duties};
use crate::level::{compute_output_pct, spec_output_pct};
use crate::parse::{parse_count, spec_parse_count};
use crate::text::{dec_digits, u32_to_decimal};

verus! {

/// Milliseconds slept between two polling cycles.
pub const SLEEP_MS: u64 = 500;

/// The fixed path of the input (and single-channel output) device.
pub fn device_path() -> (p: &'static str)
    ensures
        p@ == "/dev/project"@,
{
    "/dev/project"
}

/// The fixed base directory of the three sysfs channels.
pub fn sys_class_path() -> (p: &'static str)
    ensures
        p@ == "/sys/class/project/project"@,
{
    "/sys/class/project/project"
}

/// The file name of one sysfs channel.
pub open spec fn spec_led_file(i: int) -> Seq<char> {
    if i == 0 {
        "led1_duty"@
    } else if i == 1 {
        "led2_duty"@
    } else {
        "led3_duty"@
    }
}

/// The file name of the `i`-th sysfs channel, in fill order.
pub fn led_file(i: usize) -> (name: &'static str)
    requires
        i < 3,
    ensures
        name@ == spec_led_file(i as int),
{
    match i {
        0 => "led1_duty",
        1 => "led2_duty",
        _ => "led3_duty",
    }
}

/// Join the sysfs base directory and a channel file name with a slash.
pub fn join_path(base: &str, name: &str) -> (p: String)
    ensures
        p@ == base@ + "/"@ + name@,
{
    let mut p: String = String::from_str(base);
    p.append("/");
    p.append(name);
    proof {
        assert(p@ =~= base@ + "/"@ + name@);
    }
    p
}

/// The full path of the `i`-th sysfs channel.
pub fn led_path(i: usize) -> (p: String)
    requires
        i < 3,
    ensures
        p@ == "/sys/class/project/project"@ + "/"@ + spec_led_file(i as int),
{
    join_path(sys_class_path(), led_file(i))
}

/// The text written to an output resource for one value: the value in
/// decimal followed by a newline.
pub open spec fn spec_value_line(v: u32) -> Seq<char> {
    dec_digits(v as nat) + "\n"@
}

/// Render one output value as the line written to a device or channel.
pub fn render_value_line(v: u32) -> (s: String)
    ensures
        s@ == spec_value_line(v),
{
    let mut s: String = u32_to_decimal(v);
    s.append("\n");
    s
}

/// The human-readable summary of one tri-channel write.
pub open spec fn spec_sys_summary(d0: u32, d1: u32, d2: u32) -> Seq<char> {
    "WRITE sysfs -> led1_duty="@ + dec_digits(d0 as nat) + ", led2_duty="@ + dec_digits(d1 as nat)
        + ", led3_duty="@ + dec_digits(d2 as nat) + "\n"@
}

/// Render the summary line naming all three channels and their duties.
pub fn render_sys_summary(d0: u32, d1: u32, d2: u32) -> (s: String)
    ensures
        s@ == spec_sys_summary(d0, d1, d2),
{
    let mut s: String = String::from_str("WRITE sysfs -> led1_duty=");
    s.append(u32_to_decimal(d0).as_str());
    s.append(", led2_duty=");
    s.append(u32_to_decimal(d1).as_str());
    s.append(", led3_duty=");
    s.append(u32_to_decimal(d2).as_str());
    s.append("\n");
    proof {
        assert(s@ =~= spec_sys_summary(d0, d1, d2));
    }
    s
}

/// One planned cycle of the single-channel loop: the parsed count, the
/// computed level, and the exact line to write to the device.
pub struct DevCycle {
    pub count: u32,
    pub pct: u32,
    pub line: String,
}

/// Plan one cycle of the single-channel loop from the input text.
pub fn plan_dev_cycle(input: &str) -> (c: DevCycle)
    ensures
        c.count == spec_parse_count(input@),
        c.pct == spec_output_pct(c.count),
        c.line@ == spec_value_line(c.pct),
{
    let count = parse_count(input);
    let pct = compute_output_pct(count);
    let line = render_value_line(pct);
    DevCycle { count, pct, line }
}

/// One planned cycle of the tri-channel loop: the parsed count, the
/// computed level, the three duties, the summary line, and the exact
/// line to write to each channel.
pub struct SysCycle {
    pub count: u32,
    pub pct: u32,
    pub duties: (u32, u32, u32),
    pub summary: String,
    pub line0: String,
    pub line1: String,
    pub line2: String,
}

/// Plan one cycle of the tri-channel loop from the input text.
pub fn plan_sys_cycle(input: &str) -> (c: SysCycle)
    ensures
        c.count == spec_parse_count(input@),
        c.pct == spec_output_pct(c.count),
        c.duties.0 == spec_duty0(c.pct),
        c.duties.1 == spec_duty1(c.pct),
        c.duties.2 == spec_duty2(c.pct),
        c.summary@ == spec_sys_summary(c.duties.0, c.duties.1, c.duties.2),
        c.line0@ == spec_value_line(c.duties.0),
        c.line1@ == spec_value_line(c.duties.1),
        c.line2@ == spec_value_line(c.duties.2),
{
    let count = parse_count(input);
    let pct = compute_output_pct(count);
    let duties = split_duties(pct);
    let summary = render_sys_summary(duties.0, duties.1, duties.2);
    let line0 = render_value_line(duties.0);
    let line1 = render_value_line(duties.1);
    let line2 = render_value_line(duties.2);
    SysCycle { count, pct, duties, summary, line0, line1, line2 }
}

} // verus!
