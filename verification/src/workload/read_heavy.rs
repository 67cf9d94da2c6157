//! A read-dominated workload: 95% reads, 5% writes.

use vstd::prelude::*;
use super::WorkloadConfig;

verus! {

/// Preset: 10,000 keys, 8,000 operations per worker, 95% reads, 5% writes,
/// 128-byte keys, values of 512 to 1,024 bytes, 16 workers.
pub struct ReadHeavy;

impl ReadHeavy {
    pub fn get_name(&self) -> (r: String)
        ensures
            r@ == "ReadHeavy"@,
    {
        broadcast use vstd::string::to_string_from_display_ensures_for_str;

        "ReadHeavy".to_string()
    }

    pub fn get_load_phase_insert_count(&self) -> (r: u64)
        ensures
            r == 10_000,
    {
        10_000
    }

    pub fn get_operation_count(&self) -> (r: u64)
        ensures
            r == 8_000,
    {
        8_000
    }

    /// Read share in parts per million: 95%.
    pub fn get_read_ppm(&self) -> (r: u64)
        ensures
            r == 950_000,
    {
        950_000
    }

    /// Write share in parts per million: 5%.
    pub fn get_write_ppm(&self) -> (r: u64)
        ensures
            r == 50_000,
    {
        50_000
    }

    pub fn get_key_size(&self) -> (r: u64)
        ensures
            r == 128,
    {
        128
    }

    /// Half-open range of value byte lengths.
    pub fn get_value_size_range(&self) -> (r: (u64, u64))
        ensures
            r == (512u64, 1024u64),
    {
        (512, 1024)
    }

    pub fn get_thread_count(&self) -> (r: u32)
        ensures
            r == 16,
    {
        16
    }

    /// The full descriptor of this preset.
    pub fn config(&self) -> (r: WorkloadConfig)
        ensures
            r.wf(),
            r.sizes_fit(),
            r.name@ == "ReadHeavy"@,
            r.load_insert_count == 10_000,
            r.operation_count == 8_000,
            r.read_ppm == 950_000,
            r.write_ppm == 50_000,
            r.key_size == 128,
            r.value_size_min == 512,
            r.value_size_max == 1024,
            r.thread_count == 16,
    {
        WorkloadConfig {
            name: self.get_name(),
            load_insert_count: self.get_load_phase_insert_count(),
            operation_count: self.get_operation_count(),
            read_ppm: self.get_read_ppm(),
            write_ppm: self.get_write_ppm(),
            key_size: self.get_key_size(),
            value_size_min: 512,
            value_size_max: 1024,
            thread_count: self.get_thread_count(),
        }
    }
}

} // verus!
