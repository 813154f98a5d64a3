//! What the library believes of the code it calls: a list of thermal sensors
//! of the `sysinfo` crate, and one method of std's `String`.
//!
//! Nothing here is proved. The library never asks the machine anything
//! itself: taking and refreshing a handle, and enumerating the sensors, are
//! the caller's part. What is declared here only looks at a list that the
//! caller has already made.

use crate::binary32::Binary32;
use sysinfo::{Component, Components};
use vstd::prelude::*;

verus! {

/// `sysinfo::Components`, a list of thermal sensors.
#[verifier::external_type_specification]
#[verifier::external_body]
pub struct ExComponents(Components);

/// `sysinfo::Component`, one thermal sensor of a list. No function of the
/// library names it; it is declared because a `Components` dereferences to a
/// slice of it.
#[verifier::external_type_specification]
#[verifier::external_body]
pub struct ExComponent(Component);

/// What a list of thermal sensors holds: the temperature that each sensor
/// reports, in degrees Celsius, in the order of the list.
pub uninterp spec fn sensor_readings(components: Components) -> Seq<Binary32>;

/// `String::push` appends the character to the end of the string.
pub assume_specification[ String::push ](s: &mut String, c: char)
    ensures
        final(s)@ == old(s)@.push(c),
;

/// `Components::list`: the number of sensors in the list.
#[verifier::external_body]
pub(crate) fn sensor_count(components: &Components) -> (count: usize)
    ensures
        count == sensor_readings(*components).len(),
{
    components.list().len()
}

/// `Component::temperature`, on the sensor that `Components::list` has at
/// `index`: the temperature that the sensor holds, handed over bit for bit.
/// What a sensor holds when it could not be read is the crate's choice: on
/// Linux a NaN, and zero where the crate knows no sensors at all.
#[verifier::external_body]
pub(crate) fn sensor_reading(components: &Components, index: usize) -> (celsius: Binary32)
    requires
        index < sensor_readings(*components).len(),
    ensures
        celsius == sensor_readings(*components)[index as int],
{
    Binary32 { bits: components.list()[index].temperature().to_bits() }
}

} // verus!
