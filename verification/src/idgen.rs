//! The identifier generator: snowflake-style identifiers (timestamp, machine
//! and node bits, in-process sequence).

use vstd::prelude::*;

verus! {

/// rs-snowflake's generator state, opaque here.
#[verifier::external_type_specification]
#[verifier::external_body]
pub struct ExSnowflakeIdGenerator(snowflake::SnowflakeIdGenerator);

/// Relies on snowflake::SnowflakeIdGenerator::new, which counts from the
/// Unix epoch — an epoch the wall clock of any machine this runs on does not
/// precede, so neither construction nor generation can hit the crate's
/// clock-before-epoch failure.
#[verifier::external_body]
pub(crate) fn snowflake_generator(machine_id: i32, node_id: i32) -> snowflake::SnowflakeIdGenerator {
    snowflake::SnowflakeIdGenerator::new(machine_id, node_id)
}

/// Relies on snowflake::SnowflakeIdGenerator::real_time_generate: a fresh
/// identifier from the clock, the machine and node bits and an in-process
/// sequence. The value depends on the wall clock, so nothing is stated of it.
#[verifier::external_body]
pub(crate) fn next_raw_id(generator: &mut snowflake::SnowflakeIdGenerator) -> i64 {
    generator.real_time_generate()
}

} // verus!
