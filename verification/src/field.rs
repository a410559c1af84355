//! A resolved cron field and the shape of its values.

use vstd::prelude::*;

verus! {

/// Each value is smaller than every later one.
pub open spec fn ascending(values: Seq<u32>) -> bool {
    forall|i: int, j: int| 0 <= i < j < values.len() ==> values[i] < values[j]
}

/// What every resolved field is: at least one value, in ascending order.
pub open spec fn well_formed(values: Seq<u32>) -> bool {
    values.len() > 0 && ascending(values)
}

/// Every value is at least 1.
pub open spec fn one_based(values: Seq<u32>) -> bool {
    forall|i: int| 0 <= i < values.len() ==> values[i] >= 1
}

/// One field of a schedule, as contracts speak of it.
pub struct FieldSpec {
    /// The values the field matches.
    pub values: Seq<u32>,
    /// Whether the field was written `*`.
    pub is_wildcard: bool,
}

impl FieldSpec {
    /// The values are well formed.
    pub open spec fn wf(self) -> bool {
        well_formed(self.values)
    }

    /// Written out, and matching at most two values.
    pub open spec fn sparse(self) -> bool {
        !self.is_wildcard && self.values.len() <= 2
    }
}

/// One field of a schedule: the values it matches, and whether it was
/// written `*`.
#[derive(Clone, Debug)]
pub struct ResolvedField {
    /// The values the field matches.
    pub values: Vec<u32>,
    /// Whether the field was written `*`.
    pub is_wildcard: bool,
}

impl View for ResolvedField {
    type V = FieldSpec;

    open spec fn view(&self) -> FieldSpec {
        FieldSpec { values: self.values@, is_wildcard: self.is_wildcard }
    }
}

/// The six fields of a schedule, as contracts speak of them.
pub struct CronFieldsSpec {
    pub seconds: FieldSpec,
    pub minutes: FieldSpec,
    pub hours: FieldSpec,
    pub days_of_month: FieldSpec,
    pub months: FieldSpec,
    pub days_of_week: FieldSpec,
}

impl CronFieldsSpec {
    /// Every field is well formed, and months and days of the week count
    /// from 1.
    pub open spec fn wf(self) -> bool {
        &&& self.seconds.wf()
        &&& self.minutes.wf()
        &&& self.hours.wf()
        &&& self.days_of_month.wf()
        &&& self.months.wf()
        &&& self.days_of_week.wf()
        &&& one_based(self.months.values)
        &&& one_based(self.days_of_week.values)
    }
}

/// The six fields of a schedule.
#[derive(Clone, Debug)]
pub struct CronFields {
    pub seconds: ResolvedField,
    pub minutes: ResolvedField,
    pub hours: ResolvedField,
    pub days_of_month: ResolvedField,
    pub months: ResolvedField,
    pub days_of_week: ResolvedField,
}

impl View for CronFields {
    type V = CronFieldsSpec;

    open spec fn view(&self) -> CronFieldsSpec {
        CronFieldsSpec {
            seconds: self.seconds@,
            minutes: self.minutes@,
            hours: self.hours@,
            days_of_month: self.days_of_month@,
            months: self.months@,
            days_of_week: self.days_of_week@,
        }
    }
}

/// The distance between the two values of a field that has exactly two;
/// `0` for every other field, evenly spaced or not.
pub open spec fn step_of(values: Seq<u32>) -> int {
    if values.len() == 2 {
        values[1] - values[0]
    } else {
        0
    }
}

/// Thirty values, two apart.
pub open spec fn every_other(step: int, values: Seq<u32>) -> bool {
    values.len() == 30 && step == 2
}

/// Two values, thirty apart.
pub open spec fn twice_per_unit(step: int, values: Seq<u32>) -> bool {
    values.len() == 2 && step == 30
}

/// The single value `0`.
pub open spec fn on_the_hour(values: Seq<u32>) -> bool {
    values.len() == 1 && values[0] == 0
}

/// More than two values with a known step.
pub open spec fn step_value(step: int, values: Seq<u32>) -> bool {
    values.len() > 2 && step > 0
}

/// The shapes a field is told apart by.
#[derive(Clone, Copy, Debug, PartialEq, Eq, Structural)]
pub enum StepPattern {
    /// The field was written `*`.
    Wildcard,
    /// Exactly the value `0`.
    SingleZero,
    /// Thirty values, two apart.
    EveryOther,
    /// Two values, thirty apart.
    TwicePerUnit,
    /// More than two values with a known step.
    Stepped,
    /// Anything else: the values are listed one by one.
    ExplicitList,
}

/// The pattern of a field; the first description that fits, in the order
/// wildcard, single zero, every other, stepped, twice per unit, list.
pub open spec fn pattern_of(values: Seq<u32>, wildcard: bool) -> StepPattern {
    let step = step_of(values);
    if wildcard {
        StepPattern::Wildcard
    } else if on_the_hour(values) {
        StepPattern::SingleZero
    } else if every_other(step, values) {
        StepPattern::EveryOther
    } else if step_value(step, values) {
        StepPattern::Stepped
    } else if twice_per_unit(step, values) {
        StepPattern::TwicePerUnit
    } else {
        StepPattern::ExplicitList
    }
}

/// Tells whether the values are well formed.
pub fn is_well_formed(numbers: &[u32]) -> (yes: bool)
    ensures
        yes == well_formed(numbers@),
{
    let n: usize = numbers.len();
    if n == 0 {
        return false;
    }
    let mut i: usize = 1;
    while i < n
        invariant
            n == numbers@.len(),
            1 <= i <= n,
            forall|a: int, b: int| 0 <= a < b < i ==> numbers@[a] < numbers@[b],
        decreases n - i,
    {
        if numbers[i - 1] >= numbers[i] {
            return false;
        }
        i += 1;
    }
    true
}

/// Tells whether every value is at least 1.
pub fn is_one_based(numbers: &[u32]) -> (yes: bool)
    ensures
        yes == one_based(numbers@),
{
    let n: usize = numbers.len();
    let mut i: usize = 0;
    while i < n
        invariant
            n == numbers@.len(),
            i <= n,
            forall|k: int| 0 <= k < i ==> numbers@[k] >= 1,
        decreases n - i,
    {
        if numbers[i] < 1 {
            return false;
        }
        i += 1;
    }
    true
}

impl ResolvedField {
    /// A field of the given values; `None` unless they are well formed.
    pub fn new(values: Vec<u32>, is_wildcard: bool) -> (field: Option<ResolvedField>)
        ensures
            field is Some <==> well_formed(values@),
            field matches Some(f) ==> f.values == values && f.is_wildcard == is_wildcard,
    {
        if is_well_formed(values.as_slice()) {
            Some(ResolvedField { values, is_wildcard })
        } else {
            None
        }
    }
}

impl CronFields {
    /// Tells whether the fields are fit to be described.
    pub fn is_valid(&self) -> (yes: bool)
        ensures
            yes == self@.wf(),
    {
        is_well_formed(self.seconds.values.as_slice())
            && is_well_formed(self.minutes.values.as_slice())
            && is_well_formed(self.hours.values.as_slice())
            && is_well_formed(self.days_of_month.values.as_slice())
            && is_well_formed(self.months.values.as_slice())
            && is_well_formed(self.days_of_week.values.as_slice())
            && is_one_based(self.months.values.as_slice())
            && is_one_based(self.days_of_week.values.as_slice())
    }
}

/// The step between the first two values of a field of exactly two values,
/// and `0` otherwise.
pub fn step_size(numbers: &[u32]) -> (step: usize)
    requires
        ascending(numbers@),
    ensures
        step == step_of(numbers@),
{
    if numbers.len() == 2 {
        (numbers[1] - numbers[0]) as usize
    } else {
        0
    }
}

/// Tells whether a field of the given step has thirty values, two apart.
pub fn is_every_other(step: usize, numbers: &[u32]) -> (yes: bool)
    ensures
        yes == every_other(step as int, numbers@),
{
    numbers.len() == 30 && step == 2
}

/// Tells whether a field of the given step has two values, thirty apart.
pub fn is_twice_per_hour(step: usize, numbers: &[u32]) -> (yes: bool)
    ensures
        yes == twice_per_unit(step as int, numbers@),
{
    numbers.len() == 2 && step == 30
}

/// Tells whether a field is exactly the value `0`.
pub fn is_on_the_hour(numbers: &[u32]) -> (yes: bool)
    ensures
        yes == on_the_hour(numbers@),
{
    numbers.len() == 1 && numbers[0] == 0
}

/// Tells whether a field of the given step has more than two values and
/// a step other than `0`.
pub fn is_step_value(step: usize, numbers: &[u32]) -> (yes: bool)
    ensures
        yes == step_value(step as int, numbers@),
{
    numbers.len() > 2 && step > 0
}

/// Classifies a field.
pub fn classify(numbers: &[u32], star: bool) -> (pattern: StepPattern)
    requires
        ascending(numbers@),
    ensures
        pattern == pattern_of(numbers@, star),
{
    if star {
        return StepPattern::Wildcard;
    }
    let step: usize = step_size(numbers);
    if is_on_the_hour(numbers) {
        StepPattern::SingleZero
    } else if is_every_other(step, numbers) {
        StepPattern::EveryOther
    } else if is_step_value(step, numbers) {
        StepPattern::Stepped
    } else if is_twice_per_hour(step, numbers) {
        StepPattern::TwicePerUnit
    } else {
        StepPattern::ExplicitList
    }
}

} // verus!
