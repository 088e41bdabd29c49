//! Location collection. [`LocationCollector`] abstracts the OS location fix, so that what
//! is done with one can be tried with a fake: no sensor, no service account. A collector
//! degrades gracefully: it returns an error where no fix is available.
//!
//! Coordinates are carried, never computed with, so they are held as the bits of their
//! IEEE 754 binary64 values.

use vstd::prelude::*;

verus! {

/// The bits of a quiet NaN: the accuracy of a fix whose accuracy is not known.
pub const UNKNOWN_ACCURACY: u64 = 0x7ff8_0000_0000_0000;

/// A point-in-time device location fix. This is the plaintext that gets sealed to the
/// device-admin group key.
#[derive(Clone, Copy, Debug)]
pub struct LocationFix {
    pub latitude: u64,
    pub longitude: u64,
    pub accuracy_m: u64,
}

/// The bits of a binary64 value without its sign.
pub open spec fn magnitude_of(bits: u64) -> u64 {
    if bits >= 0x8000_0000_0000_0000 {
        (bits - 0x8000_0000_0000_0000) as u64
    } else {
        bits
    }
}

/// Whether bits write no number: whatever lies above infinity.
pub open spec fn is_nan(bits: u64) -> bool {
    magnitude_of(bits) > 0x7ff0_0000_0000_0000
}

/// Whether two bit patterns write equal numbers: NaN equals nothing, and the two zeros are
/// one number.
pub open spec fn same_number(a: u64, b: u64) -> bool {
    &&& !is_nan(a)
    &&& !is_nan(b)
    &&& a == b || (magnitude_of(a) == 0 && magnitude_of(b) == 0)
}

/// The bits of a binary64 value without its sign.
fn magnitude(bits: u64) -> (m: u64)
    ensures
        m == magnitude_of(bits),
{
    if bits >= 0x8000_0000_0000_0000 {
        bits - 0x8000_0000_0000_0000
    } else {
        bits
    }
}

/// Whether two bit patterns write equal numbers.
fn equal_numbers(a: u64, b: u64) -> (equal: bool)
    ensures
        equal == same_number(a, b),
{
    let infinity: u64 = 0x7ff0_0000_0000_0000;
    magnitude(a) <= infinity && magnitude(b) <= infinity && (a == b || (magnitude(a) == 0
        && magnitude(b) == 0))
}

impl PartialEq for LocationFix {
    /// Fixes are equal where their numbers are; one of unknown accuracy equals none.
    fn eq(&self, other: &LocationFix) -> (equal: bool) {
        equal_numbers(self.latitude, other.latitude) && equal_numbers(
            self.longitude,
            other.longitude,
        ) && equal_numbers(self.accuracy_m, other.accuracy_m)
    }
}

impl vstd::std_specs::cmp::PartialEqSpecImpl for LocationFix {
    open spec fn obeys_eq_spec() -> bool {
        true
    }

    open spec fn eq_spec(&self, other: &LocationFix) -> bool {
        same_number(self.latitude, other.latitude) && same_number(self.longitude, other.longitude)
            && same_number(self.accuracy_m, other.accuracy_m)
    }
}

/// What the location service reported.
#[derive(Clone, Copy, Debug)]
pub struct Reading {
    pub latitude: u64,
    pub longitude: u64,
    /// Absent where the service gives no accuracy.
    pub accuracy_m: Option<u64>,
}

/// The calls to the location service, in the order in which they are made.
#[derive(Clone, Copy, Debug, PartialEq, Eq, Structural)]
pub enum FixStage {
    CreateLocator,
    RequestPosition,
    AwaitFix,
    Coordinate,
    Point,
    Position,
}

/// Why there is no fix.
#[derive(Debug)]
pub enum CollectError {
    /// No collector is implemented for this platform.
    Unsupported,
    /// The location service failed at this call, with this error underneath.
    Failed { stage: FixStage, cause: String },
}

/// What the collector says of a failed call.
pub open spec fn stage_text(stage: FixStage) -> Seq<char> {
    match stage {
        FixStage::CreateLocator => "create Geolocator"@,
        FixStage::RequestPosition => "GetGeopositionAsync"@,
        FixStage::AwaitFix => "awaiting a location fix (lfsvc off / no sensor?)"@,
        FixStage::Coordinate => "Coordinate"@,
        FixStage::Point => "Point"@,
        FixStage::Position => "Position"@,
    }
}

/// What the one-shot probe says of a failed call.
pub open spec fn probe_text(stage: FixStage) -> Seq<char> {
    match stage {
        FixStage::RequestPosition => "GetGeopositionAsync (call)"@,
        FixStage::AwaitFix =>
            "awaiting a fix — location off, no consent, or no sensor in this context?"@,
        _ => stage_text(stage),
    }
}

impl FixStage {
    /// What the collector says where this call failed.
    pub fn context(self) -> (text: String)
        ensures
            text@ == stage_text(self),
    {
        match self {
            FixStage::CreateLocator => "create Geolocator".to_owned(),
            FixStage::RequestPosition => "GetGeopositionAsync".to_owned(),
            FixStage::AwaitFix => "awaiting a location fix (lfsvc off / no sensor?)".to_owned(),
            FixStage::Coordinate => "Coordinate".to_owned(),
            FixStage::Point => "Point".to_owned(),
            FixStage::Position => "Position".to_owned(),
        }
    }

    /// What the one-shot probe says where this call failed.
    pub fn probe_context(self) -> (text: String)
        ensures
            text@ == probe_text(self),
    {
        match self {
            FixStage::RequestPosition => "GetGeopositionAsync (call)".to_owned(),
            FixStage::AwaitFix =>
                "awaiting a fix — location off, no consent, or no sensor in this context?".to_owned(),
            FixStage::CreateLocator => self.context(),
            FixStage::Coordinate => self.context(),
            FixStage::Point => self.context(),
            FixStage::Position => self.context(),
        }
    }
}

impl CollectError {
    /// The message of this error.
    pub fn message(&self) -> (text: String)
        ensures
            text@ == (match *self {
                CollectError::Unsupported =>
                    "location collection is only implemented on Windows"@,
                CollectError::Failed { stage, cause } => stage_text(stage),
            }),
    {
        match self {
            CollectError::Unsupported =>
                "location collection is only implemented on Windows".to_owned(),
            CollectError::Failed { stage, cause } => stage.context(),
        }
    }

    /// The text of the failed call's own error.
    pub fn cause(&self) -> (text: Option<String>)
        ensures
            crate::state::text_of(text) == (match *self {
                CollectError::Unsupported => None,
                CollectError::Failed { stage, cause } => Some(cause@),
            }),
    {
        match self {
            CollectError::Unsupported => None,
            CollectError::Failed { stage, cause } => Some(cause.clone()),
        }
    }
}

/// The fix that a reading gives; where the service reports no accuracy, it is unknown.
pub open spec fn fix_of(reading: Reading) -> LocationFix {
    LocationFix {
        latitude: reading.latitude,
        longitude: reading.longitude,
        accuracy_m: match reading.accuracy_m {
            Some(accuracy_m) => accuracy_m,
            None => UNKNOWN_ACCURACY,
        },
    }
}

/// The fix that a reading gives; where the service reports no accuracy, it is unknown.
pub fn fix_of_reading(reading: Reading) -> (fix: LocationFix)
    ensures
        fix.latitude == reading.latitude,
        fix.longitude == reading.longitude,
        reading.accuracy_m matches Some(accuracy_m) ==> fix.accuracy_m == accuracy_m,
        reading.accuracy_m is None ==> fix.accuracy_m == 0x7ff8_0000_0000_0000u64,
        fix == fix_of(reading),
{
    LocationFix {
        latitude: reading.latitude,
        longitude: reading.longitude,
        accuracy_m: match reading.accuracy_m {
            Some(accuracy_m) => accuracy_m,
            None => UNKNOWN_ACCURACY,
        },
    }
}

/// Obtains a device location fix. Implementations degrade gracefully: an error where no
/// fix is available (location service off, no sensor), never a panic.
pub trait LocationCollector: Send + Sync {
    fn collect(&self) -> Result<LocationFix, CollectError>;
}

/// A collector with a fixed fix, for use without a sensor.
pub struct FakeLocationCollector {
    pub fix: LocationFix,
}

impl LocationCollector for FakeLocationCollector {
    fn collect(&self) -> (collected: Result<LocationFix, CollectError>)
        ensures
            collected == Ok::<LocationFix, CollectError>(self.fix),
    {
        Ok(self.fix)
    }
}

/// What became of asking the platform's location service for a position.
#[derive(Debug)]
pub enum ServiceAnswer {
    /// The platform is not Windows: nothing collects locations there yet.
    NoService,
    /// Every call succeeded and gave this reading; only the accuracy may be missing.
    Read(Reading),
    /// This call is the first that failed, with this error of its own.
    Failed { stage: FixStage, cause: String },
}

/// The collector over Windows' location service, with what the service answered. On the
/// other platforms, where there is no such service, it collects nothing.
pub struct WindowsLocationCollector {
    pub answer: ServiceAnswer,
}

impl LocationCollector for WindowsLocationCollector {
    fn collect(&self) -> (collected: Result<LocationFix, CollectError>)
        ensures
            match self.answer {
                ServiceAnswer::NoService => collected == Err::<LocationFix, CollectError>(
                    CollectError::Unsupported,
                ),
                ServiceAnswer::Read(reading) => collected == Ok::<LocationFix, CollectError>(
                    fix_of(reading),
                ),
                ServiceAnswer::Failed { stage, cause } => collected == Err::<
                    LocationFix,
                    CollectError,
                >(CollectError::Failed { stage, cause }),
            },
            collected is Ok <==> self.answer is Read,
            self.answer matches ServiceAnswer::Read(reading) ==> {
                &&& collected is Ok
                &&& collected->Ok_0.latitude == reading.latitude
                &&& collected->Ok_0.longitude == reading.longitude
                &&& reading.accuracy_m matches Some(accuracy_m) ==> collected->Ok_0.accuracy_m
                    == accuracy_m
                &&& reading.accuracy_m is None ==> collected->Ok_0.accuracy_m
                    == 0x7ff8_0000_0000_0000u64
            },
    {
        match &self.answer {
            ServiceAnswer::NoService => Err(CollectError::Unsupported),
            ServiceAnswer::Read(reading) => Ok(fix_of_reading(*reading)),
            ServiceAnswer::Failed { stage, cause } => Err(
                CollectError::Failed { stage: *stage, cause: cause.clone() },
            ),
        }
    }
}

/// A fix holds a reading's numbers bit for bit, their signs among them, and its accuracy where
/// there is one; where there is none the fix's accuracy is no number.
pub proof fn law_fix_keeps_the_reading(reading: Reading)
    ensures
        fix_of(reading).latitude == reading.latitude,
        fix_of(reading).longitude == reading.longitude,
        reading.accuracy_m is Some ==> fix_of(reading).accuracy_m == reading.accuracy_m->Some_0,
        reading.accuracy_m is None ==> fix_of(reading).accuracy_m == 0x7ff8_0000_0000_0000u64,
        reading.accuracy_m is None ==> is_nan(fix_of(reading).accuracy_m),
{
}

/// Two bit patterns write equal numbers exactly where neither lies above infinity, the sign
/// bit aside, and they are the same or both a zero.
pub proof fn law_number_equality(a: u64, b: u64)
    ensures
        is_nan(a) <==> a % 0x8000_0000_0000_0000u64 > 0x7ff0_0000_0000_0000u64,
        same_number(a, b) <==> {
            &&& a % 0x8000_0000_0000_0000u64 <= 0x7ff0_0000_0000_0000u64
            &&& b % 0x8000_0000_0000_0000u64 <= 0x7ff0_0000_0000_0000u64
            &&& a == b || (a % 0x8000_0000_0000_0000u64 == 0 && b % 0x8000_0000_0000_0000u64 == 0)
        },
        same_number(a, b) == same_number(b, a),
        same_number(a, a) <==> !is_nan(a),
{
}

/// Two fixes are equal exactly where each of their three numbers is.
pub proof fn law_fix_equality(a: LocationFix, b: LocationFix)
    ensures
        vstd::std_specs::cmp::PartialEqSpec::eq_spec(&a, &b) <==> {
            &&& same_number(a.latitude, b.latitude)
            &&& same_number(a.longitude, b.longitude)
            &&& same_number(a.accuracy_m, b.accuracy_m)
        },
{
}

/// Each call of the location service has its own text, and the probe words two of them in
/// its own way.
pub proof fn law_stage_texts()
    ensures
        stage_text(FixStage::CreateLocator) == "create Geolocator"@,
        stage_text(FixStage::RequestPosition) == "GetGeopositionAsync"@,
        stage_text(FixStage::AwaitFix) == "awaiting a location fix (lfsvc off / no sensor?)"@,
        stage_text(FixStage::Coordinate) == "Coordinate"@,
        stage_text(FixStage::Point) == "Point"@,
        stage_text(FixStage::Position) == "Position"@,
        probe_text(FixStage::CreateLocator) == "create Geolocator"@,
        probe_text(FixStage::RequestPosition) == "GetGeopositionAsync (call)"@,
        probe_text(FixStage::AwaitFix)
            == "awaiting a fix — location off, no consent, or no sensor in this context?"@,
        probe_text(FixStage::Coordinate) == "Coordinate"@,
        probe_text(FixStage::Point) == "Point"@,
        probe_text(FixStage::Position) == "Position"@,
{
}

} // verus!
