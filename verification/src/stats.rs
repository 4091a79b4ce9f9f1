//! Session counters: samples seen and the errors met on the way.
//!
//! Every counter is monotonically non-decreasing over a session; errors are
//! recorded and never interrupt acquisition.

use vstd::prelude::*;

use crate::text::{spec_dec, u64_to_dec};

verus! {

/// Counters kept over one profiling session.
#[derive(Clone, Copy, Debug)]
pub struct Stats {
    /// Samples received from the kernel and handed to the processor.
    pub total_events: u32,
    /// Events discarded because the kernel buffer was full.
    pub lost_event_errors: u32,
    /// Symbol ids that could not be found in the shared symbol map.
    pub map_reading_errors: u32,
    /// Stacks the kernel reported as incomplete.
    pub truncated_stacks: u32,
    /// Frames dropped because a symbol string was not valid UTF-8.
    pub garbled_data_errors: u32,
}

impl Default for Stats {
    /// A fresh session starts with every counter at zero.
    fn default() -> (s: Stats)
        ensures
            s.total_events == 0,
            s.lost_event_errors == 0,
            s.map_reading_errors == 0,
            s.truncated_stacks == 0,
            s.garbled_data_errors == 0,
    {
        Stats {
            total_events: 0,
            lost_event_errors: 0,
            map_reading_errors: 0,
            truncated_stacks: 0,
            garbled_data_errors: 0,
        }
    }
}

impl Stats {
    /// Sum of every error counter.
    pub fn total_errors(&self) -> (r: u32)
        requires
            self.lost_event_errors + self.map_reading_errors + self.truncated_stacks
                + self.garbled_data_errors <= u32::MAX,
        ensures
            r == self.lost_event_errors + self.map_reading_errors + self.truncated_stacks
                + self.garbled_data_errors,
    {
        self.lost_event_errors + self.map_reading_errors + self.truncated_stacks
            + self.garbled_data_errors
    }

    /// The summary shown at the end of a run, one counter per line.
    pub fn summary(&self) -> (s: String)
        requires
            self.lost_event_errors + self.map_reading_errors + self.truncated_stacks
                + self.garbled_data_errors <= u32::MAX,
        ensures
            s@ == seq!['\n'] + "total events: "@ + spec_dec(self.total_events as nat)
                + seq!['\n'] + "total errors: "@ + spec_dec(
                (self.lost_event_errors + self.map_reading_errors + self.truncated_stacks
                    + self.garbled_data_errors) as nat,
            ) + seq!['\n'] + "lost event errors: "@ + spec_dec(self.lost_event_errors as nat)
                + seq!['\n'] + "map reading errors: "@ + spec_dec(
                self.map_reading_errors as nat,
            ) + seq!['\n'] + "truncated stacks: "@ + spec_dec(self.truncated_stacks as nat)
                + seq!['\n'] + "garbled data errors: "@ + spec_dec(
                self.garbled_data_errors as nat,
            ) + seq!['\n'],
    {
        proof {
            reveal_strlit("\n");
        }
        let mut s = "\n".to_owned();
        s.append("total events: ");
        s.append(u64_to_dec(self.total_events as u64).as_str());
        s.append("\n");
        s.append("total errors: ");
        s.append(u64_to_dec(self.total_errors() as u64).as_str());
        s.append("\n");
        s.append("lost event errors: ");
        s.append(u64_to_dec(self.lost_event_errors as u64).as_str());
        s.append("\n");
        s.append("map reading errors: ");
        s.append(u64_to_dec(self.map_reading_errors as u64).as_str());
        s.append("\n");
        s.append("truncated stacks: ");
        s.append(u64_to_dec(self.truncated_stacks as u64).as_str());
        s.append("\n");
        s.append("garbled data errors: ");
        s.append(u64_to_dec(self.garbled_data_errors as u64).as_str());
        s.append("\n");
        proof {
            assert(s@ =~= seq!['\n'] + "total events: "@ + spec_dec(self.total_events as nat)
                + seq!['\n'] + "total errors: "@ + spec_dec(
                (self.lost_event_errors + self.map_reading_errors + self.truncated_stacks
                    + self.garbled_data_errors) as nat,
            ) + seq!['\n'] + "lost event errors: "@ + spec_dec(self.lost_event_errors as nat)
                + seq!['\n'] + "map reading errors: "@ + spec_dec(
                self.map_reading_errors as nat,
            ) + seq!['\n'] + "truncated stacks: "@ + spec_dec(self.truncated_stacks as nat)
                + seq!['\n'] + "garbled data errors: "@ + spec_dec(
                self.garbled_data_errors as nat,
            ) + seq!['\n']);
        }
        s
    }

    /// Sum of the error counters that concern a single stack.
    pub fn stack_errors(&self) -> (r: u32)
        requires
            self.map_reading_errors + self.truncated_stacks + self.garbled_data_errors
                <= u32::MAX,
        ensures
            r == self.map_reading_errors + self.truncated_stacks + self.garbled_data_errors,
    {
        self.map_reading_errors + self.truncated_stacks + self.garbled_data_errors
    }
}

/// Records a lost-event notification from the kernel: the count is added to
/// `lost_event_errors`.  The CPU that lost the events does not change the
/// counters; it is kept so callers can report where the loss happened.
pub fn handle_lost_events(stats: &mut Stats, cpu: i32, count: u64)
    requires
        old(stats).lost_event_errors + count <= u32::MAX,
    ensures
        final(stats).lost_event_errors == old(stats).lost_event_errors + count,
        final(stats).total_events == old(stats).total_events,
        final(stats).map_reading_errors == old(stats).map_reading_errors,
        final(stats).truncated_stacks == old(stats).truncated_stacks,
        final(stats).garbled_data_errors == old(stats).garbled_data_errors,
{
    let _ = cpu;
    stats.lost_event_errors = stats.lost_event_errors + (count as u32);
}

} // verus!
