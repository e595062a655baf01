use vstd::prelude::*;
use vstd::std_specs::convert::FromSpecImpl;
use vstd::std_specs::ops::{AddSpecImpl, SubSpecImpl, MulSpecImpl};
use crate::status::ArgumentRangeError;

verus! {

/// A temperature in degrees Celsius.
#[derive(Copy, Clone, Debug, PartialEq, Eq, Structural, Hash, PartialOrd, Ord)]
pub struct Celsius(pub i32);

impl Celsius {
    pub fn new(value: i32) -> (r: Self)
        ensures
            r.0 == value,
    {
        Celsius(value)
    }

    pub fn value(self) -> (r: i32)
        ensures
            r == self.0,
    {
        self.0
    }

    pub fn value_ref(&self) -> (r: &i32)
        ensures
            *r == self.0,
    {
        &self.0
    }
}

impl From<i32> for Celsius {
    fn from(v: i32) -> (r: Self) {
        Celsius(v)
    }
}

impl FromSpecImpl<i32> for Celsius {
    open spec fn obeys_from_spec() -> bool {
        true
    }

    open spec fn from_spec(v: i32) -> Self {
        Celsius(v)
    }
}

impl From<Celsius> for i32 {
    fn from(v: Celsius) -> (r: i32) {
        v.0
    }
}

impl FromSpecImpl<Celsius> for i32 {
    open spec fn obeys_from_spec() -> bool {
        true
    }

    open spec fn from_spec(v: Celsius) -> i32 {
        v.0
    }
}

/// A fan speed in revolutions per minute.
#[derive(Copy, Clone, Debug, PartialEq, Eq, Structural, Hash, PartialOrd, Ord)]
pub struct Rpm(pub u32);

impl Rpm {
    pub fn new(value: u32) -> (r: Self)
        ensures
            r.0 == value,
    {
        Rpm(value)
    }

    pub fn value(self) -> (r: u32)
        ensures
            r == self.0,
    {
        self.0
    }

    pub fn value_ref(&self) -> (r: &u32)
        ensures
            *r == self.0,
    {
        &self.0
    }
}

impl From<u32> for Rpm {
    fn from(v: u32) -> (r: Self) {
        Rpm(v)
    }
}

impl FromSpecImpl<u32> for Rpm {
    open spec fn obeys_from_spec() -> bool {
        true
    }

    open spec fn from_spec(v: u32) -> Self {
        Rpm(v)
    }
}

impl From<Rpm> for u32 {
    fn from(v: Rpm) -> (r: u32) {
        v.0
    }
}

impl FromSpecImpl<Rpm> for u32 {
    open spec fn obeys_from_spec() -> bool {
        true
    }

    open spec fn from_spec(v: Rpm) -> u32 {
        v.0
    }
}

/// A temperature in degrees Celsius shifted left by 8 bits, as NvAPI encodes some temperatures.
#[derive(Copy, Clone, Debug, PartialEq, Eq, Structural, Hash, PartialOrd, Ord)]
pub struct CelsiusShifted(pub i32);

impl CelsiusShifted {
    pub fn new(value: i32) -> (r: Self)
        ensures
            r.0 == value,
    {
        CelsiusShifted(value)
    }

    pub fn value(self) -> (r: i32)
        ensures
            r == self.0,
    {
        self.0
    }

    pub fn value_ref(&self) -> (r: &i32)
        ensures
            *r == self.0,
    {
        &self.0
    }
}

impl From<i32> for CelsiusShifted {
    fn from(v: i32) -> (r: Self) {
        CelsiusShifted(v)
    }
}

impl FromSpecImpl<i32> for CelsiusShifted {
    open spec fn obeys_from_spec() -> bool {
        true
    }

    open spec fn from_spec(v: i32) -> Self {
        CelsiusShifted(v)
    }
}

impl From<CelsiusShifted> for i32 {
    fn from(v: CelsiusShifted) -> (r: i32) {
        v.0
    }
}

impl FromSpecImpl<CelsiusShifted> for i32 {
    open spec fn obeys_from_spec() -> bool {
        true
    }

    open spec fn from_spec(v: CelsiusShifted) -> i32 {
        v.0
    }
}

/// A voltage in microvolts.
#[derive(Copy, Clone, Debug, PartialEq, Eq, Structural, Hash, PartialOrd, Ord)]
pub struct Microvolts(pub u32);

impl Microvolts {
    pub fn new(value: u32) -> (r: Self)
        ensures
            r.0 == value,
    {
        Microvolts(value)
    }

    pub fn value(self) -> (r: u32)
        ensures
            r == self.0,
    {
        self.0
    }

    pub fn value_ref(&self) -> (r: &u32)
        ensures
            *r == self.0,
    {
        &self.0
    }
}

impl From<u32> for Microvolts {
    fn from(v: u32) -> (r: Self) {
        Microvolts(v)
    }
}

impl FromSpecImpl<u32> for Microvolts {
    open spec fn obeys_from_spec() -> bool {
        true
    }

    open spec fn from_spec(v: u32) -> Self {
        Microvolts(v)
    }
}

impl From<Microvolts> for u32 {
    fn from(v: Microvolts) -> (r: u32) {
        v.0
    }
}

impl FromSpecImpl<Microvolts> for u32 {
    open spec fn obeys_from_spec() -> bool {
        true
    }

    open spec fn from_spec(v: Microvolts) -> u32 {
        v.0
    }
}

/// A voltage offset in microvolts.
#[derive(Copy, Clone, Debug, PartialEq, Eq, Structural, Hash, PartialOrd, Ord)]
pub struct MicrovoltsDelta(pub i32);

impl MicrovoltsDelta {
    pub fn new(value: i32) -> (r: Self)
        ensures
            r.0 == value,
    {
        MicrovoltsDelta(value)
    }

    pub fn value(self) -> (r: i32)
        ensures
            r == self.0,
    {
        self.0
    }

    pub fn value_ref(&self) -> (r: &i32)
        ensures
            *r == self.0,
    {
        &self.0
    }
}

impl From<i32> for MicrovoltsDelta {
    fn from(v: i32) -> (r: Self) {
        MicrovoltsDelta(v)
    }
}

impl FromSpecImpl<i32> for MicrovoltsDelta {
    open spec fn obeys_from_spec() -> bool {
        true
    }

    open spec fn from_spec(v: i32) -> Self {
        MicrovoltsDelta(v)
    }
}

impl From<MicrovoltsDelta> for i32 {
    fn from(v: MicrovoltsDelta) -> (r: i32) {
        v.0
    }
}

impl FromSpecImpl<MicrovoltsDelta> for i32 {
    open spec fn obeys_from_spec() -> bool {
        true
    }

    open spec fn from_spec(v: MicrovoltsDelta) -> i32 {
        v.0
    }
}

/// A frequency in kilohertz.
#[derive(Copy, Clone, Debug, PartialEq, Eq, Structural, Hash, PartialOrd, Ord)]
pub struct Kilohertz(pub u32);

impl Kilohertz {
    pub fn new(value: u32) -> (r: Self)
        ensures
            r.0 == value,
    {
        Kilohertz(value)
    }

    pub fn value(self) -> (r: u32)
        ensures
            r == self.0,
    {
        self.0
    }

    pub fn value_ref(&self) -> (r: &u32)
        ensures
            *r == self.0,
    {
        &self.0
    }
}

impl From<u32> for Kilohertz {
    fn from(v: u32) -> (r: Self) {
        Kilohertz(v)
    }
}

impl FromSpecImpl<u32> for Kilohertz {
    open spec fn obeys_from_spec() -> bool {
        true
    }

    open spec fn from_spec(v: u32) -> Self {
        Kilohertz(v)
    }
}

impl From<Kilohertz> for u32 {
    fn from(v: Kilohertz) -> (r: u32) {
        v.0
    }
}

impl FromSpecImpl<Kilohertz> for u32 {
    open spec fn obeys_from_spec() -> bool {
        true
    }

    open spec fn from_spec(v: Kilohertz) -> u32 {
        v.0
    }
}

/// A frequency in half kilohertz (twice the value in kilohertz).
#[derive(Copy, Clone, Debug, PartialEq, Eq, Structural, Hash, PartialOrd, Ord)]
pub struct Kilohertz2(pub u32);

impl Kilohertz2 {
    pub fn new(value: u32) -> (r: Self)
        ensures
            r.0 == value,
    {
        Kilohertz2(value)
    }

    pub fn value(self) -> (r: u32)
        ensures
            r == self.0,
    {
        self.0
    }

    pub fn value_ref(&self) -> (r: &u32)
        ensures
            *r == self.0,
    {
        &self.0
    }
}

impl From<u32> for Kilohertz2 {
    fn from(v: u32) -> (r: Self) {
        Kilohertz2(v)
    }
}

impl FromSpecImpl<u32> for Kilohertz2 {
    open spec fn obeys_from_spec() -> bool {
        true
    }

    open spec fn from_spec(v: u32) -> Self {
        Kilohertz2(v)
    }
}

impl From<Kilohertz2> for u32 {
    fn from(v: Kilohertz2) -> (r: u32) {
        v.0
    }
}

impl FromSpecImpl<Kilohertz2> for u32 {
    open spec fn obeys_from_spec() -> bool {
        true
    }

    open spec fn from_spec(v: Kilohertz2) -> u32 {
        v.0
    }
}

/// A frequency offset in kilohertz.
#[derive(Copy, Clone, Debug, PartialEq, Eq, Structural, Hash, PartialOrd, Ord)]
pub struct KilohertzDelta(pub i32);

impl KilohertzDelta {
    pub fn new(value: i32) -> (r: Self)
        ensures
            r.0 == value,
    {
        KilohertzDelta(value)
    }

    pub fn value(self) -> (r: i32)
        ensures
            r == self.0,
    {
        self.0
    }

    pub fn value_ref(&self) -> (r: &i32)
        ensures
            *r == self.0,
    {
        &self.0
    }
}

impl From<i32> for KilohertzDelta {
    fn from(v: i32) -> (r: Self) {
        KilohertzDelta(v)
    }
}

impl FromSpecImpl<i32> for KilohertzDelta {
    open spec fn obeys_from_spec() -> bool {
        true
    }

    open spec fn from_spec(v: i32) -> Self {
        KilohertzDelta(v)
    }
}

impl From<KilohertzDelta> for i32 {
    fn from(v: KilohertzDelta) -> (r: i32) {
        v.0
    }
}

impl FromSpecImpl<KilohertzDelta> for i32 {
    open spec fn obeys_from_spec() -> bool {
        true
    }

    open spec fn from_spec(v: KilohertzDelta) -> i32 {
        v.0
    }
}

/// A frequency offset in half kilohertz (twice the value in kilohertz).
#[derive(Copy, Clone, Debug, PartialEq, Eq, Structural, Hash, PartialOrd, Ord)]
pub struct Kilohertz2Delta(pub i32);

impl Kilohertz2Delta {
    pub fn new(value: i32) -> (r: Self)
        ensures
            r.0 == value,
    {
        Kilohertz2Delta(value)
    }

    pub fn value(self) -> (r: i32)
        ensures
            r == self.0,
    {
        self.0
    }

    pub fn value_ref(&self) -> (r: &i32)
        ensures
            *r == self.0,
    {
        &self.0
    }
}

impl From<i32> for Kilohertz2Delta {
    fn from(v: i32) -> (r: Self) {
        Kilohertz2Delta(v)
    }
}

impl FromSpecImpl<i32> for Kilohertz2Delta {
    open spec fn obeys_from_spec() -> bool {
        true
    }

    open spec fn from_spec(v: i32) -> Self {
        Kilohertz2Delta(v)
    }
}

impl From<Kilohertz2Delta> for i32 {
    fn from(v: Kilohertz2Delta) -> (r: i32) {
        v.0
    }
}

impl FromSpecImpl<Kilohertz2Delta> for i32 {
    open spec fn obeys_from_spec() -> bool {
        true
    }

    open spec fn from_spec(v: Kilohertz2Delta) -> i32 {
        v.0
    }
}

/// A memory size in kibibytes.
#[derive(Copy, Clone, Debug, PartialEq, Eq, Structural, Hash, PartialOrd, Ord)]
pub struct Kibibytes(pub u32);

impl Kibibytes {
    pub fn new(value: u32) -> (r: Self)
        ensures
            r.0 == value,
    {
        Kibibytes(value)
    }

    pub fn value(self) -> (r: u32)
        ensures
            r == self.0,
    {
        self.0
    }

    pub fn value_ref(&self) -> (r: &u32)
        ensures
            *r == self.0,
    {
        &self.0
    }
}

impl From<u32> for Kibibytes {
    fn from(v: u32) -> (r: Self) {
        Kibibytes(v)
    }
}

impl FromSpecImpl<u32> for Kibibytes {
    open spec fn obeys_from_spec() -> bool {
        true
    }

    open spec fn from_spec(v: u32) -> Self {
        Kibibytes(v)
    }
}

impl From<Kibibytes> for u32 {
    fn from(v: Kibibytes) -> (r: u32) {
        v.0
    }
}

impl FromSpecImpl<Kibibytes> for u32 {
    open spec fn obeys_from_spec() -> bool {
        true
    }

    open spec fn from_spec(v: Kibibytes) -> u32 {
        v.0
    }
}

/// A percentage.
#[derive(Copy, Clone, Debug, PartialEq, Eq, Structural, Hash, PartialOrd, Ord)]
pub struct Percentage(pub u32);

impl Percentage {
    pub fn new(value: u32) -> (r: Self)
        ensures
            r.0 == value,
    {
        Percentage(value)
    }

    pub fn value(self) -> (r: u32)
        ensures
            r == self.0,
    {
        self.0
    }

    pub fn value_ref(&self) -> (r: &u32)
        ensures
            *r == self.0,
    {
        &self.0
    }
}

impl From<u32> for Percentage {
    fn from(v: u32) -> (r: Self) {
        Percentage(v)
    }
}

impl FromSpecImpl<u32> for Percentage {
    open spec fn obeys_from_spec() -> bool {
        true
    }

    open spec fn from_spec(v: u32) -> Self {
        Percentage(v)
    }
}

impl From<Percentage> for u32 {
    fn from(v: Percentage) -> (r: u32) {
        v.0
    }
}

impl FromSpecImpl<Percentage> for u32 {
    open spec fn obeys_from_spec() -> bool {
        true
    }

    open spec fn from_spec(v: Percentage) -> u32 {
        v.0
    }
}

/// A percentage in thousandths of a percent.
#[derive(Copy, Clone, Debug, PartialEq, Eq, Structural, Hash, PartialOrd, Ord)]
pub struct Percentage1000(pub u32);

impl Percentage1000 {
    pub fn new(value: u32) -> (r: Self)
        ensures
            r.0 == value,
    {
        Percentage1000(value)
    }

    pub fn value(self) -> (r: u32)
        ensures
            r == self.0,
    {
        self.0
    }

    pub fn value_ref(&self) -> (r: &u32)
        ensures
            *r == self.0,
    {
        &self.0
    }
}

impl From<u32> for Percentage1000 {
    fn from(v: u32) -> (r: Self) {
        Percentage1000(v)
    }
}

impl FromSpecImpl<u32> for Percentage1000 {
    open spec fn obeys_from_spec() -> bool {
        true
    }

    open spec fn from_spec(v: u32) -> Self {
        Percentage1000(v)
    }
}

impl From<Percentage1000> for u32 {
    fn from(v: Percentage1000) -> (r: u32) {
        v.0
    }
}

impl FromSpecImpl<Percentage1000> for u32 {
    open spec fn obeys_from_spec() -> bool {
        true
    }

    open spec fn from_spec(v: Percentage1000) -> u32 {
        v.0
    }
}
impl CelsiusShifted {
    /// The temperature in whole degrees.
    pub fn get(&self) -> (r: i32)
        ensures
            r == self.0 >> 8i32,
    {
        self.0 >> 8i32
    }
}

impl From<CelsiusShifted> for Celsius {
    fn from(c: CelsiusShifted) -> (r: Self) {
        Celsius(c.get())
    }
}

impl FromSpecImpl<CelsiusShifted> for Celsius {
    open spec fn obeys_from_spec() -> bool {
        true
    }

    open spec fn from_spec(c: CelsiusShifted) -> Self {
        Celsius(c.0 >> 8i32)
    }
}

impl Kilohertz2 {
    /// The frequency in whole kilohertz.
    pub fn get(&self) -> (r: u32)
        ensures
            r == self.0 / 2,
    {
        self.0 / 2
    }
}

impl From<Kilohertz2> for Kilohertz {
    fn from(p: Kilohertz2) -> (r: Self) {
        Kilohertz(p.get())
    }
}

impl FromSpecImpl<Kilohertz2> for Kilohertz {
    open spec fn obeys_from_spec() -> bool {
        true
    }

    open spec fn from_spec(p: Kilohertz2) -> Self {
        Kilohertz(p.0 / 2)
    }
}

impl Kilohertz2Delta {
    /// The offset in whole kilohertz, rounded toward zero.
    pub fn get(&self) -> (r: i32)
        ensures
            r == (if self.0 >= 0 { self.0 / 2 } else { -((-self.0) / 2) }),
    {
        self.0 / 2
    }
}

impl From<Kilohertz2Delta> for KilohertzDelta {
    fn from(p: Kilohertz2Delta) -> (r: Self) {
        KilohertzDelta(p.get())
    }
}

impl FromSpecImpl<Kilohertz2Delta> for KilohertzDelta {
    open spec fn obeys_from_spec() -> bool {
        true
    }

    open spec fn from_spec(p: Kilohertz2Delta) -> Self {
        KilohertzDelta(if p.0 >= 0 { p.0 / 2 } else { -((-p.0) / 2) } as i32)
    }
}

impl Percentage {
    /// A percentage from a raw value, which must lie in `0..=100`.
    pub fn from_raw(v: u32) -> (r: Result<Self, ArgumentRangeError>)
        ensures
            v <= 100 ==> r == Ok::<Self, ArgumentRangeError>(Percentage(v)),
            v > 100 ==> r == Err::<Self, ArgumentRangeError>(ArgumentRangeError),
    {
        if v <= 100 {
            Ok(Percentage(v))
        } else {
            Err(ArgumentRangeError)
        }
    }
}

impl Percentage1000 {
    /// The percentage in whole percent.
    pub fn get(&self) -> (r: u32)
        ensures
            r == self.0 / 1000,
    {
        self.0 / 1000
    }
}

impl From<Percentage1000> for Percentage {
    fn from(p: Percentage1000) -> (r: Self) {
        Percentage(p.get())
    }
}

impl FromSpecImpl<Percentage1000> for Percentage {
    open spec fn obeys_from_spec() -> bool {
        true
    }

    open spec fn from_spec(p: Percentage1000) -> Self {
        Percentage(p.0 / 1000)
    }
}

impl core::ops::Sub for Kilohertz {
    type Output = KilohertzDelta;

    fn sub(self, rhs: Self) -> (r: KilohertzDelta) {
        KilohertzDelta(self.0 as i32 - rhs.0 as i32)
    }
}

impl SubSpecImpl for Kilohertz {
    open spec fn obeys_sub_spec() -> bool {
        true
    }

    open spec fn sub_req(self, rhs: Self) -> bool {
        i32::MIN <= (self.0 as i32) - (rhs.0 as i32) <= i32::MAX
    }

    open spec fn sub_spec(self, rhs: Self) -> KilohertzDelta {
        KilohertzDelta(((self.0 as i32) - (rhs.0 as i32)) as i32)
    }
}

impl core::ops::Sub<KilohertzDelta> for Kilohertz {
    type Output = Kilohertz;

    fn sub(self, rhs: KilohertzDelta) -> (r: Kilohertz) {
        Kilohertz((self.0 as i32 - rhs.0) as u32)
    }
}

impl SubSpecImpl<KilohertzDelta> for Kilohertz {
    open spec fn obeys_sub_spec() -> bool {
        true
    }

    open spec fn sub_req(self, rhs: KilohertzDelta) -> bool {
        i32::MIN <= (self.0 as i32) - rhs.0 <= i32::MAX
    }

    open spec fn sub_spec(self, rhs: KilohertzDelta) -> Kilohertz {
        Kilohertz(((self.0 as i32) - rhs.0) as u32)
    }
}

impl core::ops::Add<KilohertzDelta> for Kilohertz {
    type Output = Kilohertz;

    fn add(self, rhs: KilohertzDelta) -> (r: Kilohertz) {
        Kilohertz((self.0 as i32 + rhs.0) as u32)
    }
}

impl AddSpecImpl<KilohertzDelta> for Kilohertz {
    open spec fn obeys_add_spec() -> bool {
        true
    }

    open spec fn add_req(self, rhs: KilohertzDelta) -> bool {
        i32::MIN <= (self.0 as i32) + rhs.0 <= i32::MAX
    }

    open spec fn add_spec(self, rhs: KilohertzDelta) -> Kilohertz {
        Kilohertz(((self.0 as i32) + rhs.0) as u32)
    }
}

impl core::ops::Add for KilohertzDelta {
    type Output = KilohertzDelta;

    fn add(self, rhs: Self) -> (r: KilohertzDelta) {
        KilohertzDelta(self.0 + rhs.0)
    }
}

impl AddSpecImpl for KilohertzDelta {
    open spec fn obeys_add_spec() -> bool {
        true
    }

    open spec fn add_req(self, rhs: Self) -> bool {
        i32::MIN <= self.0 + rhs.0 <= i32::MAX
    }

    open spec fn add_spec(self, rhs: Self) -> KilohertzDelta {
        KilohertzDelta((self.0 + rhs.0) as i32)
    }
}

impl core::ops::Sub for KilohertzDelta {
    type Output = KilohertzDelta;

    fn sub(self, rhs: Self) -> (r: KilohertzDelta) {
        KilohertzDelta(self.0 - rhs.0)
    }
}

impl SubSpecImpl for KilohertzDelta {
    open spec fn obeys_sub_spec() -> bool {
        true
    }

    open spec fn sub_req(self, rhs: Self) -> bool {
        i32::MIN <= self.0 - rhs.0 <= i32::MAX
    }

    open spec fn sub_spec(self, rhs: Self) -> KilohertzDelta {
        KilohertzDelta((self.0 - rhs.0) as i32)
    }
}

impl core::ops::Mul<i32> for KilohertzDelta {
    type Output = KilohertzDelta;

    fn mul(self, rhs: i32) -> (r: KilohertzDelta) {
        KilohertzDelta(self.0 * rhs)
    }
}

impl MulSpecImpl<i32> for KilohertzDelta {
    open spec fn obeys_mul_spec() -> bool {
        true
    }

    open spec fn mul_req(self, rhs: i32) -> bool {
        i32::MIN <= self.0 * rhs <= i32::MAX
    }

    open spec fn mul_spec(self, rhs: i32) -> KilohertzDelta {
        KilohertzDelta((self.0 * rhs) as i32)
    }
}

impl From<Celsius> for CelsiusShifted {
    fn from(c: Celsius) -> (r: Self) {
        CelsiusShifted(c.0 << 8i32)
    }
}

impl FromSpecImpl<Celsius> for CelsiusShifted {
    open spec fn obeys_from_spec() -> bool {
        true
    }

    open spec fn from_spec(c: Celsius) -> Self {
        CelsiusShifted(c.0 << 8i32)
    }
}

/// Shifting a temperature in range into the encoded form and back gives it
/// unchanged.
pub proof fn lemma_celsius_shift_roundtrip(c: i32)
    requires
        -0x800000 <= c < 0x800000,
    ensures
        ((c << 8i32) >> 8i32) == c,
{
    assert(((c << 8i32) >> 8i32) == c) by (bit_vector)
        requires -0x800000i32 <= c && c < 0x800000i32;
}

impl core::ops::Sub for Kibibytes {
    type Output = Kibibytes;

    fn sub(self, rhs: Self) -> (r: Kibibytes) {
        Kibibytes(self.0 - rhs.0)
    }
}

impl SubSpecImpl for Kibibytes {
    open spec fn obeys_sub_spec() -> bool {
        true
    }

    open spec fn sub_req(self, rhs: Self) -> bool {
        rhs.0 <= self.0
    }

    open spec fn sub_spec(self, rhs: Self) -> Kibibytes {
        Kibibytes((self.0 - rhs.0) as u32)
    }
}


/// A closed range of values.
#[derive(Copy, Clone, Debug, PartialEq, Eq, Structural, Hash, PartialOrd, Ord)]
pub struct Range<T> {
    pub min: T,
    pub max: T,
}

impl<T> Range<T> {
    pub fn new(min: T, max: T) -> (r: Self)
        ensures
            r.min == min,
            r.max == max,
    {
        Range { min, max }
    }

    /// Applies `f` to both ends.
    pub fn map<O, F: Fn(T) -> O>(self, f: F) -> (r: Range<O>)
        requires
            f.requires((self.min,)),
            f.requires((self.max,)),
        ensures
            f.ensures((self.min,), r.min),
            f.ensures((self.max,), r.max),
    {
        let min = f(self.min);
        let max = f(self.max);
        Range::new(min, max)
    }

    /// Converts both ends of a range of another unit.
    pub fn range_from<U>(r: Range<U>) -> (res: Self)
        where T: From<U>,
        ensures
            call_ensures(T::from, (r.min,), res.min),
            call_ensures(T::from, (r.max,), res.max),
    {
        Range { min: T::from(r.min), max: T::from(r.max) }
    }

    /// The range holding the one value `v`.
    pub fn from_scalar(v: T) -> (r: Self)
        where T: Clone,
        ensures
            cloned(v, r.min),
            r.max == v,
    {
        Range { min: v.clone(), max: v }
    }

    /// The same range as an inclusive std range.
    pub fn range(&self) -> (r: core::ops::RangeInclusive<T>)
        where T: Clone,
        ensures
            cloned(self.min, r@.start),
            cloned(self.max, r@.end),
            !r@.exhausted,
    {
        core::ops::RangeInclusive::new(self.min.clone(), self.max.clone())
    }
}

/// Data that carries its own tag (an id from a driver enum).
pub trait TaggedData {
    type Repr: Copy;

    spec fn spec_tag(&self) -> Self::Repr;

    fn tag(&self) -> (r: Self::Repr)
        ensures
            r == self.spec_tag(),
    ;
}

impl<I: Copy, T> TaggedData for (I, T) {
    type Repr = I;

    open spec fn spec_tag(&self) -> I {
        self.0
    }

    fn tag(&self) -> (r: I) {
        self.0
    }
}

/// A value with the tag (id) it belongs to.
#[derive(Copy, Clone, Debug, PartialEq, Eq, Structural, Hash, PartialOrd, Ord)]
pub struct Tagged<I, T> {
    pub tag: I,
    pub value: T,
}

impl<I, T> Tagged<I, T> {
    pub fn new(tag: I, value: T) -> (r: Self)
        ensures
            r.tag == tag,
            r.value == value,
    {
        Tagged { tag, value }
    }

    pub fn into_tuple(self) -> (r: (I, T))
        ensures
            r == (self.tag, self.value),
    {
        (self.tag, self.value)
    }

    pub fn into_value(self) -> (r: T)
        ensures
            r == self.value,
    {
        self.value
    }
}

impl<T: TaggedData> Tagged<T::Repr, T> {
    /// Tags `value` with its own tag.
    pub fn with_value(value: T) -> (r: Self)
        ensures
            r.tag == value.spec_tag(),
            r.value == value,
    {
        Tagged { tag: value.tag(), value }
    }
}

impl<I: Copy, T> TaggedData for Tagged<I, T> {
    type Repr = I;

    open spec fn spec_tag(&self) -> I {
        self.tag
    }

    fn tag(&self) -> (r: I) {
        self.tag
    }
}

/// Conversion of a driver struct into its typed form.
pub trait RawConversion {
    type Target;
    type Error;
}

/// A list of values.
#[derive(Clone, Debug, PartialEq, Eq)]
pub struct List<T> {
    pub values: Vec<T>,
}

/// A driver struct wrapped as typed data.
#[derive(Copy, Clone, Debug, PartialEq, Eq, Structural, Hash, PartialOrd, Ord)]
pub struct NvData<T> {
    pub sys: T,
}

impl<T> NvData<T> {
    pub fn with_sys(sys: T) -> (r: Self)
        ensures
            r.sys == sys,
    {
        NvData { sys }
    }

    pub fn sys(&self) -> (r: &T)
        ensures
            *r == self.sys,
    {
        &self.sys
    }

    pub fn sys_mut(&mut self) -> (r: &mut T)
        ensures
            *r == old(self).sys,
            final(self).sys == *final(r),
    {
        &mut self.sys
    }

    pub fn into_sys(self) -> (r: T)
        ensures
            r == self.sys,
    {
        self.sys
    }
}

impl<T: TaggedData> TaggedData for NvData<T> {
    type Repr = T::Repr;

    open spec fn spec_tag(&self) -> T::Repr {
        self.sys.spec_tag()
    }

    fn tag(&self) -> (r: T::Repr) {
        self.sys.tag()
    }
}

/// Marks the types that wrap driver structs.
pub trait Sealed {
}

/// Typed data that wraps a driver struct.
pub trait IsNvData: Sealed {
    type Data;

    spec fn spec_sys(&self) -> Self::Data;

    fn sys(&self) -> (r: &Self::Data)
        ensures
            *r == self.spec_sys(),
    ;
}

impl<T> Sealed for NvData<T> {
}

impl<T> IsNvData for NvData<T> {
    type Data = T;

    open spec fn spec_sys(&self) -> T {
        self.sys
    }

    fn sys(&self) -> (r: &T) {
        &self.sys
    }
}

} // verus!
