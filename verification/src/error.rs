//! Broken rules, and the error that reports them.

use vstd::prelude::*;
use crate::constraint::{email_syntax, Constraint};
use crate::field::Field;

verus! {

/// A rule that a field's value broke.
#[derive(Clone, Copy, Debug, PartialEq, Eq, Structural)]
pub struct Violation {
    pub field: Field,
    pub constraint: Constraint,
}

/// The test that picks, among rules, those that `value` breaks.
pub open spec fn broken_by(value: Seq<char>) -> spec_fn(Constraint) -> bool {
    |rule: Constraint| !rule.holds(value)
}

/// Turns a rule into the report that `field` broke it.
pub open spec fn blame(field: Field) -> spec_fn(Constraint) -> Violation {
    |rule: Constraint| Violation { field, constraint: rule }
}

/// The report that `value` breaks `rule`, if it does: a sequence of one
/// report or of none.
pub open spec fn violation_of(field: Field, rule: Constraint, value: Seq<char>) -> Seq<Violation> {
    if rule.holds(value) {
        seq![]
    } else {
        seq![Violation { field, constraint: rule }]
    }
}

/// The rules among `rules` that `value` breaks, in their order, each reported
/// against `field`.
pub open spec fn violations_among(field: Field, rules: Seq<Constraint>, value: Seq<char>) -> Seq<
    Violation,
> {
    rules.filter(broken_by(value)).map_values(blame(field))
}

/// The rules of `field` that `value` breaks, in the order in which the field
/// lists them.
pub open spec fn violations(field: Field, value: Seq<char>) -> Seq<Violation> {
    violations_among(field, field.rules(), value)
}

/// Whether one of `reports` is against `field`.
pub open spec fn cited(reports: Seq<Violation>, field: Field) -> bool {
    exists|i: int| 0 <= i < reports.len() && (#[trigger] reports[i]).field == field
}

/// Checking one more rule appends its report if the rule is broken, and
/// nothing otherwise.
proof fn lemma_violations_among_push(
    field: Field,
    rules: Seq<Constraint>,
    rule: Constraint,
    value: Seq<char>,
)
    ensures
        violations_among(field, rules.push(rule), value) == violations_among(field, rules, value)
            + violation_of(field, rule, value),
{
    reveal(Seq::filter);
    assert(rules.push(rule).drop_last() == rules);
}

/// An element is in a concatenation exactly when it is in one of the parts.
pub(crate) proof fn lemma_concat_contains<T>(left: Seq<T>, right: Seq<T>, element: T)
    ensures
        (left + right).contains(element) <==> left.contains(element) || right.contains(element),
{
    let both = left + right;
    if left.contains(element) {
        let i = choose|i: int| 0 <= i < left.len() && left[i] == element;
        assert(both[i] == element);
    }
    if right.contains(element) {
        let i = choose|i: int| 0 <= i < right.len() && right[i] == element;
        assert(both[left.len() + i] == element);
    }
    if both.contains(element) {
        let i = choose|i: int| 0 <= i < both.len() && both[i] == element;
        if i < left.len() {
            assert(left[i] == element);
        } else {
            assert(right[i - left.len()] == element);
        }
    }
}

/// A report is among the violations of a field exactly when it names that
/// field and one of its rules, and the value breaks that rule.
pub proof fn lemma_violations_contain(field: Field, value: Seq<char>, report: Violation)
    ensures
        violations(field, value).contains(report) <==> report.field == field
            && field.rules().contains(report.constraint) && !report.constraint.holds(value),
{
    let rules = field.rules();
    let broken = rules.filter(broken_by(value));
    let reports = violations(field, value);
    if reports.contains(report) {
        let i = choose|i: int| 0 <= i < reports.len() && reports[i] == report;
        assert(broken.contains(broken[i]));
        rules.lemma_filter_pred(broken_by(value), i);
        rules.lemma_filter_contains_rev(broken_by(value), broken[i]);
    }
    if report.field == field && rules.contains(report.constraint) && !report.constraint.holds(
        value,
    ) {
        let k = choose|k: int| 0 <= k < rules.len() && rules[k] == report.constraint;
        rules.lemma_filter_contains(broken_by(value), k);
        let i = choose|i: int| 0 <= i < broken.len() && broken[i] == report.constraint;
        assert(reports[i] == report);
    }
}

/// A value breaks none of a field's rules exactly when the field accepts it.
pub proof fn lemma_no_violations(field: Field, value: Seq<char>)
    ensures
        violations(field, value).len() == 0 <==> field.accepts(value),
{
    let rules = field.rules();
    let broken = rules.filter(broken_by(value));
    if broken.len() > 0 {
        assert(broken.contains(broken[0]));
        rules.lemma_filter_pred(broken_by(value), 0);
        rules.lemma_filter_contains_rev(broken_by(value), broken[0]);
        let k = choose|k: int| 0 <= k < rules.len() && rules[k] == broken[0];
        assert(!rules[k].holds(value));
    }
    if !field.accepts(value) {
        let i = choose|i: int| 0 <= i < rules.len() && !(#[trigger] rules[i]).holds(value);
        rules.lemma_filter_contains(broken_by(value), i);
    }
}

/// Checks `value` against every rule of `field` and appends to `found` a
/// report of each rule that it breaks. What was in `found` stays.
///
/// An e-mail that passed the check of its format is known to hold an `@`.
pub fn validate_field(field: Field, value: &str, found: &mut Vec<Violation>)
    ensures
        final(found)@ == old(found)@ + violations(field, value@),
        field == Field::Email && email_syntax(value@) ==> value@.contains('@'),
{
    let rules = field.constraints();
    let mut i: usize = 0;
    assert(rules@.take(0) == Seq::<Constraint>::empty());
    assert(violations_among(field, Seq::<Constraint>::empty(), value@) == Seq::<
        Violation,
    >::empty()) by {
        reveal(Seq::filter);
    }
    while i < rules.len()
        invariant
            i <= rules.len(),
            rules@ == field.rules(),
            found@ == old(found)@ + violations_among(field, rules@.take(i as int), value@),
            forall|j: int|
                0 <= j < i && rules@[j] == Constraint::EmailFormat && email_syntax(value@)
                    ==> value@.contains('@'),
        decreases rules.len() - i,
    {
        let rule = rules[i];
        if !rule.check(value) {
            found.push(Violation { field, constraint: rule });
        }
        proof {
            lemma_violations_among_push(field, rules@.take(i as int), rule, value@);
            assert(rules@.take(i as int).push(rule) == rules@.take(i + 1));
        }
        i += 1;
    }
    assert(rules@.take(i as int) == rules@);
    assert(field == Field::Email ==> rules@[0] == Constraint::EmailFormat);
}

/// The failure of a construction: every rule that the given values broke.
///
/// It is never empty, and it lists the reports field by field, in the order
/// in which the payload declares its fields.
#[derive(Debug, PartialEq, Eq)]
pub struct ValidationError {
    violations: Vec<Violation>,
}

impl View for ValidationError {
    type V = Seq<Violation>;

    closed spec fn view(&self) -> Seq<Violation> {
        self.violations@
    }
}

impl ValidationError {
    #[verifier::type_invariant]
    spec fn is_not_empty(self) -> bool {
        self.violations@.len() > 0
    }

    /// Makes an error of the reports that a validation collected.
    pub(crate) fn from_violations(violations: Vec<Violation>) -> (error: ValidationError)
        requires
            violations@.len() > 0,
        ensures
            error@ == violations@,
    {
        ValidationError { violations }
    }

    /// The reports, in order.
    pub fn violations(&self) -> (reports: &Vec<Violation>)
        ensures
            reports@ == self@,
            reports@.len() > 0,
    {
        proof {
            use_type_invariant(self);
        }
        &self.violations
    }

    /// The number of reports. It is at least one.
    pub fn len(&self) -> (n: usize)
        ensures
            n == self@.len(),
            n > 0,
    {
        proof {
            use_type_invariant(self);
        }
        self.violations.len()
    }

    /// The first broken rule that was met.
    pub fn first(&self) -> (report: Violation)
        ensures
            self@.len() > 0,
            report == self@[0],
    {
        proof {
            use_type_invariant(self);
        }
        self.violations[0]
    }

    /// Whether one of the reports is against `field`.
    pub fn cites(&self, field: Field) -> (found: bool)
        ensures
            found == cited(self@, field),
    {
        let mut i: usize = 0;
        while i < self.violations.len()
            invariant
                i <= self.violations.len(),
                forall|j: int| 0 <= j < i ==> (#[trigger] self@[j]).field != field,
            decreases self.violations.len() - i,
        {
            if self.violations[i].field == field {
                return true;
            }
            i += 1;
        }
        false
    }

    /// Whether `report` is one of the reports.
    pub fn contains(&self, report: Violation) -> (found: bool)
        ensures
            found == self@.contains(report),
    {
        let mut i: usize = 0;
        while i < self.violations.len()
            invariant
                i <= self.violations.len(),
                forall|j: int| 0 <= j < i ==> self@[j] != report,
            decreases self.violations.len() - i,
        {
            if self.violations[i] == report {
                return true;
            }
            i += 1;
        }
        false
    }
}

} // verus!
