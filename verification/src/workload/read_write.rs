//! A balanced workload: half reads, half writes.

use vstd::prelude::*;
use super::{MIX_SCALE, WorkloadConfig};

verus! {

/// Preset: 10,000 keys, 8,000 operations per worker, half reads and half
/// writes, 128-byte keys, values of 512 to 1,024 bytes, 16 workers.
pub struct ReadWrite;

impl ReadWrite {
    pub fn get_name(&self) -> (r: String)
        ensures
            r@ == "ReadWrite"@,
    {
        broadcast use vstd::string::to_string_from_display_ensures_for_str;

        "ReadWrite".to_string()
    }

    pub fn get_load_phase_insert_count(&self) -> (r: u64)
        ensures
            r == 10_000,
    {
        10_000
    }

    pub fn get_operation_count(&self) -> (r: u64)
        ensures
            r == 8_000,
    {
        8_000
    }

    /// Read share in parts per million: 50%.
    pub fn get_read_ppm(&self) -> (r: u64)
        ensures
            r == 500_000,
    {
        500_000
    }

    /// Write share: whatever the read share leaves of the whole scale.
    pub fn get_write_ppm(&self) -> (r: u64)
        ensures
            r == 500_000,
    {
        MIX_SCALE - self.get_read_ppm()
    }

    pub fn get_key_size(&self) -> (r: u64)
        ensures
            r == 128,
    {
        128
    }

    /// Half-open range of value byte lengths.
    pub fn get_value_size_range(&self) -> (r: (u64, u64))
        ensures
            r == (512u64, 1024u64),
    {
        (512, 1024)
    }

    pub fn get_thread_count(&self) -> (r: u32)
        ensures
            r == 16,
    {
        16
    }

    /// The full descriptor of this preset.
    pub fn config(&self) -> (r: WorkloadConfig)
        ensures
            r.wf(),
            r.sizes_fit(),
            r.name@ == "ReadWrite"@,
            r.load_insert_count == 10_000,
            r.operation_count == 8_000,
            r.read_ppm == 500_000,
            r.write_ppm == 500_000,
            r.key_size == 128,
            r.value_size_min == 512,
            r.value_size_max == 1024,
            r.thread_count == 16,
    {
        WorkloadConfig {
            name: self.get_name(),
            load_insert_count: self.get_load_phase_insert_count(),
            operation_count: self.get_operation_count(),
            read_ppm: self.get_read_ppm(),
            write_ppm: self.get_write_ppm(),
            key_size: self.get_key_size(),
            value_size_min: 512,
            value_size_max: 1024,
            thread_count: self.get_thread_count(),
        }
    }
}

} // verus!
