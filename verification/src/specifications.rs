//! Reusable business rules over backbones ("specifications") and their boolean
//! combinators. A rule may consult the clock; its verdict is therefore stated for the
//! instant at which it is evaluated.

use vstd::prelude::*;
use vstd::string::*;
use crate::backbone::{strings_view, Backbone};
use crate::text::{byte_len, str_byte_len, str_eq, trim, trim_spec};
use crate::timestamp::{BackboneTimestamp, MAX_DURATION_DAYS, MIN_SECS, MAX_SECS, SECS_PER_DAY};
use crate::value_objects::{all_name_chars, lookup, name_chars_ok, BackboneStatus};

verus! {

/// A business rule that a backbone satisfies or not.
pub trait Specification: Sized {
    /// The rule's verdict on `candidate` when the clock reads `now`; `None` when the rule
    /// cannot be evaluated.
    spec fn verdict(&self, candidate: Backbone, now: BackboneTimestamp) -> Option<bool>;

    /// Evaluate the rule as of the instant `now`.
    fn is_satisfied_at(&self, candidate: &Backbone, now: &BackboneTimestamp) -> (r: Result<
        bool,
        String,
    >)
        requires
            candidate.wf(),
            now.wf(),
        ensures
            match self.verdict(*candidate, *now) {
                Some(b) => r == Ok::<bool, String>(b),
                None => r is Err,
            },
    ;

    /// Evaluate the rule as of the current time.
    fn is_satisfied_by(&self, candidate: &Backbone) -> (r: Result<bool, String>)
        requires
            candidate.wf(),
        ensures
            exists|now: BackboneTimestamp|
                now.wf() && match #[trigger] self.verdict(*candidate, now) {
                    Some(b) => r == Ok::<bool, String>(b),
                    None => r is Err,
                },
    {
        let now = BackboneTimestamp::now();
        let r = self.is_satisfied_at(candidate, &now);
        assert(now.wf() && match self.verdict(*candidate, now) {
            Some(b) => r == Ok::<bool, String>(b),
            None => r is Err,
        });
        r
    }
}

/// Combinators available on every rule.
pub trait SpecificationOps: Sized {
    /// Both rules must hold.
    fn and<S>(self, other: S) -> (r: AndSpecification<Self, S>)
        ensures
            r.left == self,
            r.right == other,
    ;

    /// At least one rule must hold.
    fn or<S>(self, other: S) -> (r: OrSpecification<Self, S>)
        ensures
            r.left == self,
            r.right == other,
    ;

    /// The rule must not hold.
    fn not(self) -> (r: NotSpecification<Self>)
        ensures
            r.spec == self,
    ;
}

impl<T: Specification> SpecificationOps for T {
    fn and<S>(self, other: S) -> (r: AndSpecification<Self, S>) {
        AndSpecification::new(self, other)
    }

    fn or<S>(self, other: S) -> (r: OrSpecification<Self, S>) {
        OrSpecification::new(self, other)
    }

    fn not(self) -> (r: NotSpecification<Self>) {
        NotSpecification::new(self)
    }
}

/// `prefix` followed by the text of `e`.
fn prefixed(prefix: &str, e: String) -> (r: String)
    ensures
        r@ == prefix@ + e@,
{
    String::from_str(prefix).concat(e.as_str())
}

// ------------------------------------------------------------------------------------------
// Combinators
// ------------------------------------------------------------------------------------------

/// Conjunction of two rules; both are always evaluated.
#[derive(Debug, Clone)]
pub struct AndSpecification<T, U> {
    pub left: T,
    pub right: U,
}

impl<T, U> AndSpecification<T, U> {
    pub fn new(left: T, right: U) -> (r: Self)
        ensures
            r.left == left,
            r.right == right,
    {
        AndSpecification { left, right }
    }
}

impl<T: Specification, U: Specification> Specification for AndSpecification<T, U> {
    open spec fn verdict(&self, candidate: Backbone, now: BackboneTimestamp) -> Option<bool> {
        match (self.left.verdict(candidate, now), self.right.verdict(candidate, now)) {
            (Some(l), Some(r)) => Some(l && r),
            _ => None,
        }
    }

    fn is_satisfied_at(&self, candidate: &Backbone, now: &BackboneTimestamp) -> (r: Result<
        bool,
        String,
    >) {
        let l = match self.left.is_satisfied_at(candidate, now) {
            Ok(b) => b,
            Err(e) => {
                return Err(prefixed("Left specification failed: ", e));
            },
        };
        let r = match self.right.is_satisfied_at(candidate, now) {
            Ok(b) => b,
            Err(e) => {
                return Err(prefixed("Right specification failed: ", e));
            },
        };
        Ok(l && r)
    }
}

/// Disjunction of two rules; the right rule is consulted only when the left one fails.
#[derive(Debug, Clone)]
pub struct OrSpecification<T, U> {
    pub left: T,
    pub right: U,
}

impl<T, U> OrSpecification<T, U> {
    pub fn new(left: T, right: U) -> (r: Self)
        ensures
            r.left == left,
            r.right == right,
    {
        OrSpecification { left, right }
    }
}

impl<T: Specification, U: Specification> Specification for OrSpecification<T, U> {
    open spec fn verdict(&self, candidate: Backbone, now: BackboneTimestamp) -> Option<bool> {
        match self.left.verdict(candidate, now) {
            None => None,
            Some(true) => Some(true),
            Some(false) => self.right.verdict(candidate, now),
        }
    }

    fn is_satisfied_at(&self, candidate: &Backbone, now: &BackboneTimestamp) -> (r: Result<
        bool,
        String,
    >) {
        let l = match self.left.is_satisfied_at(candidate, now) {
            Ok(b) => b,
            Err(e) => {
                return Err(prefixed("Left specification failed: ", e));
            },
        };
        if l {
            return Ok(true);
        }
        match self.right.is_satisfied_at(candidate, now) {
            Ok(b) => Ok(b),
            Err(e) => Err(prefixed("Right specification failed: ", e)),
        }
    }
}

/// Negation of a rule.
#[derive(Debug, Clone)]
pub struct NotSpecification<T> {
    pub spec: T,
}

impl<T> NotSpecification<T> {
    pub fn new(spec: T) -> (r: Self)
        ensures
            r.spec == spec,
    {
        NotSpecification { spec }
    }
}

impl<T: Specification> Specification for NotSpecification<T> {
    open spec fn verdict(&self, candidate: Backbone, now: BackboneTimestamp) -> Option<bool> {
        match self.spec.verdict(candidate, now) {
            Some(b) => Some(!b),
            None => None,
        }
    }

    fn is_satisfied_at(&self, candidate: &Backbone, now: &BackboneTimestamp) -> (r: Result<
        bool,
        String,
    >) {
        match self.spec.is_satisfied_at(candidate, now) {
            Ok(b) => Ok(!b),
            Err(e) => Err(prefixed("Inner specification failed: ", e)),
        }
    }
}

// ------------------------------------------------------------------------------------------
// Simple rules
// ------------------------------------------------------------------------------------------

/// A valid name: 1..=100 bytes, allowed characters only, not blank.
pub open spec fn name_is_valid(name: Seq<char>) -> bool {
    &&& name.len() != 0
    &&& byte_len(name) <= 100
    &&& name_chars_ok(name)
    &&& trim_spec(name).len() != 0
}

/// Whether `name` is a valid backbone name.
pub fn check_name(name: &str) -> (r: bool)
    ensures
        r == name_is_valid(name@),
{
    if name.unicode_len() == 0 {
        return false;
    }
    if str_byte_len(name) > 100 {
        return false;
    }
    if !all_name_chars(name) {
        return false;
    }
    let t = trim(name);
    t.as_str().unicode_len() != 0
}

/// The backbone's name must be valid.
#[derive(Debug, Clone)]
pub struct BackboneNameMustBeValidSpecification;

impl BackboneNameMustBeValidSpecification {
    pub fn new() -> (r: Self) {
        BackboneNameMustBeValidSpecification
    }
}

impl Specification for BackboneNameMustBeValidSpecification {
    open spec fn verdict(&self, candidate: Backbone, now: BackboneTimestamp) -> Option<bool> {
        Some(name_is_valid(candidate.name.0@))
    }

    fn is_satisfied_at(&self, candidate: &Backbone, now: &BackboneTimestamp) -> (r: Result<
        bool,
        String,
    >) {
        Ok(check_name(candidate.name()))
    }
}

/// The backbone's status must be one of the defined statuses (always true).
#[derive(Debug, Clone)]
pub struct BackboneStatusMustBeValidSpecification;

impl BackboneStatusMustBeValidSpecification {
    pub fn new() -> (r: Self) {
        BackboneStatusMustBeValidSpecification
    }
}

impl Specification for BackboneStatusMustBeValidSpecification {
    open spec fn verdict(&self, candidate: Backbone, now: BackboneTimestamp) -> Option<bool> {
        Some(true)
    }

    fn is_satisfied_at(&self, candidate: &Backbone, now: &BackboneTimestamp) -> (r: Result<
        bool,
        String,
    >) {
        let ok = matches!(
            candidate.status(),
            BackboneStatus::Active | BackboneStatus::Inactive | BackboneStatus::Suspended
                | BackboneStatus::Archived
        );
        Ok(ok)
    }
}

/// Tags are pairwise distinct, each 1..=50 bytes, and there are at most 50 of them.
pub open spec fn tags_are_valid(tags: Seq<Seq<char>>) -> bool {
    &&& forall|i: int, j: int| 0 <= i < j < tags.len() ==> tags[i] != tags[j]
    &&& forall|i: int| 0 <= i < tags.len() ==> tags[i].len() != 0 && byte_len(tags[i]) <= 50
    &&& tags.len() <= 50
}

/// Whether some tag occurs twice.
pub fn has_duplicate(tags: &Vec<String>) -> (r: bool)
    ensures
        r == exists|i: int, j: int|
            0 <= i < j < tags@.len() && strings_view(tags@)[i] == strings_view(tags@)[j],
{
    let n = tags.len();
    let mut i: usize = 0;
    while i < n
        invariant
            n == tags@.len(),
            i <= n,
            forall|a: int, b: int|
                0 <= a < i && a < b < n ==> strings_view(tags@)[a] != strings_view(tags@)[b],
        decreases n - i,
    {
        let mut j: usize = i + 1;
        while j < n
            invariant
                n == tags@.len(),
                i < n,
                i + 1 <= j <= n,
                forall|a: int, b: int|
                    0 <= a < i && a < b < n ==> strings_view(tags@)[a] != strings_view(tags@)[b],
                forall|b: int| i < b < j ==> strings_view(tags@)[i as int] != strings_view(tags@)[b],
            decreases n - j,
        {
            if str_eq(tags[i].as_str(), tags[j].as_str()) {
                assert(strings_view(tags@)[i as int] == strings_view(tags@)[j as int]);
                return true;
            }
            j = j + 1;
        }
        i = i + 1;
    }
    false
}

/// Whether every tag is 1..=50 bytes long.
pub fn tag_lengths_ok(tags: &Vec<String>) -> (r: bool)
    ensures
        r == forall|i: int|
            0 <= i < tags@.len() ==> strings_view(tags@)[i].len() != 0 && byte_len(
                strings_view(tags@)[i],
            ) <= 50,
{
    let n = tags.len();
    let mut i: usize = 0;
    while i < n
        invariant
            n == tags@.len(),
            i <= n,
            forall|k: int|
                0 <= k < i ==> strings_view(tags@)[k].len() != 0 && byte_len(
                    strings_view(tags@)[k],
                ) <= 50,
        decreases n - i,
    {
        let t = tags[i].as_str();
        assert(strings_view(tags@)[i as int] == t@);
        if t.unicode_len() == 0 || str_byte_len(t) > 50 {
            return false;
        }
        i = i + 1;
    }
    true
}

/// Whether the tags are valid.
pub fn check_tags(tags: &Vec<String>) -> (r: bool)
    ensures
        r == tags_are_valid(strings_view(tags@)),
{
    if has_duplicate(tags) {
        return false;
    }
    if !tag_lengths_ok(tags) {
        return false;
    }
    tags.len() <= 50
}

/// The backbone's tags must be valid.
#[derive(Debug, Clone)]
pub struct BackboneTagsMustBeUniqueSpecification;

impl BackboneTagsMustBeUniqueSpecification {
    pub fn new() -> (r: Self) {
        BackboneTagsMustBeUniqueSpecification
    }
}

impl Specification for BackboneTagsMustBeUniqueSpecification {
    open spec fn verdict(&self, candidate: Backbone, now: BackboneTimestamp) -> Option<bool> {
        Some(tags_are_valid(candidate.tags_view()))
    }

    fn is_satisfied_at(&self, candidate: &Backbone, now: &BackboneTimestamp) -> (r: Result<
        bool,
        String,
    >) {
        Ok(check_tags(candidate.tags()))
    }
}

/// The backbone must carry some metadata.
#[derive(Debug, Clone)]
pub struct BackboneMustHaveMetadataSpecification;

impl BackboneMustHaveMetadataSpecification {
    pub fn new() -> (r: Self) {
        BackboneMustHaveMetadataSpecification
    }
}

impl Specification for BackboneMustHaveMetadataSpecification {
    open spec fn verdict(&self, candidate: Backbone, now: BackboneTimestamp) -> Option<bool> {
        Some(candidate.metadata@.len() != 0)
    }

    fn is_satisfied_at(&self, candidate: &Backbone, now: &BackboneTimestamp) -> (r: Result<
        bool,
        String,
    >) {
        Ok(!candidate.metadata().is_empty())
    }
}

// ------------------------------------------------------------------------------------------
// Lifecycle rules
// ------------------------------------------------------------------------------------------

/// The backbone is active, not deleted, and validly named.
#[derive(Debug, Clone)]
pub struct BackboneIsActiveSpecification;

impl BackboneIsActiveSpecification {
    pub fn new() -> (r: Self) {
        BackboneIsActiveSpecification
    }
}

impl Specification for BackboneIsActiveSpecification {
    open spec fn verdict(&self, candidate: Backbone, now: BackboneTimestamp) -> Option<bool> {
        Some(
            candidate.status == BackboneStatus::Active && candidate.deleted_at is None
                && name_is_valid(candidate.name.0@),
        )
    }

    fn is_satisfied_at(&self, candidate: &Backbone, now: &BackboneTimestamp) -> (r: Result<
        bool,
        String,
    >) {
        if !candidate.status().is_active() {
            return Ok(false);
        }
        if candidate.is_deleted() {
            return Ok(false);
        }
        let name_spec = BackboneNameMustBeValidSpecification::new();
        name_spec.is_satisfied_at(candidate, now)
    }
}

/// The backbone can be deactivated: it is currently active.
#[derive(Debug, Clone)]
pub struct BackboneCanDeactivateSpecification;

impl BackboneCanDeactivateSpecification {
    pub fn new() -> (r: Self) {
        BackboneCanDeactivateSpecification
    }
}

impl Specification for BackboneCanDeactivateSpecification {
    open spec fn verdict(&self, candidate: Backbone, now: BackboneTimestamp) -> Option<bool> {
        Some(candidate.status == BackboneStatus::Active)
    }

    fn is_satisfied_at(&self, candidate: &Backbone, now: &BackboneTimestamp) -> (r: Result<
        bool,
        String,
    >) {
        if !candidate.status().is_active() {
            return Ok(false);
        }
        if candidate.status().is_suspended() {
            return Ok(false);
        }
        Ok(true)
    }
}

/// The backbone can be suspended: it is active or inactive.
#[derive(Debug, Clone)]
pub struct BackboneCanSuspendSpecification;

impl BackboneCanSuspendSpecification {
    pub fn new() -> (r: Self) {
        BackboneCanSuspendSpecification
    }
}

impl Specification for BackboneCanSuspendSpecification {
    open spec fn verdict(&self, candidate: Backbone, now: BackboneTimestamp) -> Option<bool> {
        Some(
            candidate.status == BackboneStatus::Active || candidate.status
                == BackboneStatus::Inactive,
        )
    }

    fn is_satisfied_at(&self, candidate: &Backbone, now: &BackboneTimestamp) -> (r: Result<
        bool,
        String,
    >) {
        if !candidate.status().is_active() && !candidate.status().is_inactive() {
            return Ok(false);
        }
        Ok(true)
    }
}

/// `now` shifted by `days` days, when that stays representable.
pub open spec fn shifted_days(now: BackboneTimestamp, days: int) -> Option<BackboneTimestamp> {
    if -MAX_DURATION_DAYS <= days <= MAX_DURATION_DAYS && MIN_SECS <= now.secs + days
        * SECS_PER_DAY <= MAX_SECS {
        Some(BackboneTimestamp { secs: (now.secs + days * SECS_PER_DAY) as i64, nanos: now.nanos })
    } else {
        None
    }
}

/// `now` shifted back by `days` days, when representable.
fn days_before(now: &BackboneTimestamp, days: i64) -> (r: Option<BackboneTimestamp>)
    ensures
        r == shifted_days(*now, -days),
{
    if days < -MAX_DURATION_DAYS || days > MAX_DURATION_DAYS {
        return None;
    }
    let back: i64 = -days;
    now.checked_add_days(back)
}

/// The backbone can be archived: it is inactive and was last updated at least thirty days ago.
#[derive(Debug, Clone)]
pub struct BackboneCanArchiveSpecification;

impl BackboneCanArchiveSpecification {
    pub fn new() -> (r: Self) {
        BackboneCanArchiveSpecification
    }
}

impl Specification for BackboneCanArchiveSpecification {
    open spec fn verdict(&self, candidate: Backbone, now: BackboneTimestamp) -> Option<bool> {
        if candidate.status != BackboneStatus::Inactive {
            Some(false)
        } else {
            match shifted_days(now, -30) {
                Some(cutoff) => Some(candidate.updated_at.le(&cutoff)),
                None => None,
            }
        }
    }

    fn is_satisfied_at(&self, candidate: &Backbone, now: &BackboneTimestamp) -> (r: Result<
        bool,
        String,
    >) {
        if !candidate.status().is_inactive() {
            return Ok(false);
        }
        match days_before(now, 30) {
            Some(cutoff) => Ok(candidate.updated_at().is_at_or_before(&cutoff)),
            None => Err(String::from_str("cutoff instant out of range")),
        }
    }
}

/// The backbone was created within the last `days` days.
#[derive(Debug, Clone)]
pub struct BackboneMustBeRecentSpecification {
    pub days: i64,
}

impl BackboneMustBeRecentSpecification {
    pub fn new(days: i64) -> (r: Self)
        ensures
            r.days == days,
    {
        BackboneMustBeRecentSpecification { days }
    }
}

impl Specification for BackboneMustBeRecentSpecification {
    open spec fn verdict(&self, candidate: Backbone, now: BackboneTimestamp) -> Option<bool> {
        match shifted_days(now, -self.days) {
            Some(cutoff) => Some(cutoff.le(&candidate.created_at)),
            None => None,
        }
    }

    fn is_satisfied_at(&self, candidate: &Backbone, now: &BackboneTimestamp) -> (r: Result<
        bool,
        String,
    >) {
        match days_before(now, self.days) {
            Some(cutoff) => Ok(cutoff.is_at_or_before(candidate.created_at())),
            None => Err(String::from_str("cutoff instant out of range")),
        }
    }
}

/// The backbone is not older than `max_age_days` days.
#[derive(Debug, Clone)]
pub struct BackboneMustNotBeOlderThanSpecification {
    pub max_age_days: i64,
}

impl BackboneMustNotBeOlderThanSpecification {
    pub fn new(max_age_days: i64) -> (r: Self)
        ensures
            r.max_age_days == max_age_days,
    {
        BackboneMustNotBeOlderThanSpecification { max_age_days }
    }
}

impl Specification for BackboneMustNotBeOlderThanSpecification {
    open spec fn verdict(&self, candidate: Backbone, now: BackboneTimestamp) -> Option<bool> {
        match shifted_days(now, -self.max_age_days) {
            Some(cutoff) => Some(cutoff.le(&candidate.created_at)),
            None => None,
        }
    }

    fn is_satisfied_at(&self, candidate: &Backbone, now: &BackboneTimestamp) -> (r: Result<
        bool,
        String,
    >) {
        match days_before(now, self.max_age_days) {
            Some(cutoff) => Ok(cutoff.is_at_or_before(candidate.created_at())),
            None => Err(String::from_str("cutoff instant out of range")),
        }
    }
}

// ------------------------------------------------------------------------------------------
// Parameterised rules
// ------------------------------------------------------------------------------------------

/// Whether `t` occurs in `tags`.
pub fn contains_tag(tags: &Vec<String>, t: &str) -> (r: bool)
    ensures
        r == strings_view(tags@).contains(t@),
{
    let n = tags.len();
    let mut i: usize = 0;
    while i < n
        invariant
            n == tags@.len(),
            i <= n,
            forall|k: int| 0 <= k < i ==> strings_view(tags@)[k] != t@,
        decreases n - i,
    {
        if str_eq(tags[i].as_str(), t) {
            assert(strings_view(tags@)[i as int] == t@);
            return true;
        }
        i = i + 1;
    }
    false
}

/// The verdict of a tag requirement: all (or any) required tags are present; an empty
/// requirement always holds.
pub open spec fn tagged_with(required: Seq<Seq<char>>, tags: Seq<Seq<char>>, match_all: bool) -> bool {
    if required.len() == 0 {
        true
    } else if match_all {
        forall|i: int| 0 <= i < required.len() ==> tags.contains(#[trigger] required[i])
    } else {
        exists|i: int| 0 <= i < required.len() && tags.contains(#[trigger] required[i])
    }
}

/// The backbone carries all (or at least one) of the required tags.
#[derive(Debug, Clone)]
pub struct BackboneTaggedWithSpecification {
    pub required_tags: Vec<String>,
    pub match_all: bool,
}

impl BackboneTaggedWithSpecification {
    pub fn new(required_tags: Vec<String>, match_all: bool) -> (r: Self)
        ensures
            r.required_tags@ == required_tags@,
            r.match_all == match_all,
    {
        BackboneTaggedWithSpecification { required_tags, match_all }
    }
}

impl Specification for BackboneTaggedWithSpecification {
    open spec fn verdict(&self, candidate: Backbone, now: BackboneTimestamp) -> Option<bool> {
        Some(tagged_with(strings_view(self.required_tags@), candidate.tags_view(), self.match_all))
    }

    fn is_satisfied_at(&self, candidate: &Backbone, now: &BackboneTimestamp) -> (r: Result<
        bool,
        String,
    >) {
        let req = &self.required_tags;
        let n = req.len();
        if n == 0 {
            return Ok(true);
        }
        let tags = candidate.tags();
        let ghost rv = strings_view(req@);
        let mut i: usize = 0;
        while i < n
            invariant
                n == req@.len(),
                req@ == self.required_tags@,
                rv == strings_view(req@),
                tags@ == candidate.tags@,
                i <= n,
                self.match_all ==> forall|k: int| 0 <= k < i ==> candidate.tags_view().contains(
                    #[trigger] rv[k],
                ),
                !self.match_all ==> forall|k: int| 0 <= k < i ==> !candidate.tags_view().contains(
                    #[trigger] rv[k],
                ),
            decreases n - i,
        {
            let present = contains_tag(tags, req[i].as_str());
            assert(rv[i as int] == req@[i as int]@);
            assert(candidate.tags_view() == strings_view(tags@));
            if self.match_all && !present {
                assert(!candidate.tags_view().contains(rv[i as int]));
                return Ok(false);
            }
            if !self.match_all && present {
                assert(candidate.tags_view().contains(rv[i as int]));
                return Ok(true);
            }
            i = i + 1;
        }
        Ok(self.match_all)
    }
}

/// The backbone was created within a date window with configurable inclusive ends.
#[derive(Debug, Clone)]
pub struct BackboneInDateRangeSpecification {
    pub start_date: BackboneTimestamp,
    pub end_date: BackboneTimestamp,
    pub include_start: bool,
    pub include_end: bool,
}

impl BackboneInDateRangeSpecification {
    pub fn new(
        start_date: BackboneTimestamp,
        end_date: BackboneTimestamp,
        include_start: bool,
        include_end: bool,
    ) -> (r: Self)
        ensures
            r.start_date == start_date,
            r.end_date == end_date,
            r.include_start == include_start,
            r.include_end == include_end,
    {
        BackboneInDateRangeSpecification { start_date, end_date, include_start, include_end }
    }
}

impl Specification for BackboneInDateRangeSpecification {
    open spec fn verdict(&self, candidate: Backbone, now: BackboneTimestamp) -> Option<bool> {
        let c = candidate.created_at;
        let after_start = if self.include_start {
            self.start_date.le(&c)
        } else {
            self.start_date.lt(&c)
        };
        let before_end = if self.include_end {
            c.le(&self.end_date)
        } else {
            c.lt(&self.end_date)
        };
        Some(after_start && before_end)
    }

    fn is_satisfied_at(&self, candidate: &Backbone, now: &BackboneTimestamp) -> (r: Result<
        bool,
        String,
    >) {
        let c = candidate.created_at();
        let after_start = if self.include_start {
            self.start_date.is_at_or_before(c)
        } else {
            self.start_date.is_before(c)
        };
        let before_end = if self.include_end {
            c.is_at_or_before(&self.end_date)
        } else {
            c.is_before(&self.end_date)
        };
        Ok(after_start && before_end)
    }
}

/// The backbone's metadata has `key` (with exactly `value`, when given).
#[derive(Debug, Clone)]
pub struct BackboneWithMetadataKeySpecification {
    pub key: String,
    pub value: Option<String>,
}

impl BackboneWithMetadataKeySpecification {
    pub fn new(key: String, value: Option<String>) -> (r: Self)
        ensures
            r.key@ == key@,
            r.value == value,
    {
        BackboneWithMetadataKeySpecification { key, value }
    }
}

impl Specification for BackboneWithMetadataKeySpecification {
    open spec fn verdict(&self, candidate: Backbone, now: BackboneTimestamp) -> Option<bool> {
        match self.value {
            Some(expected) => Some(lookup(candidate.metadata@, self.key@) == Some(expected@)),
            None => Some(lookup(candidate.metadata@, self.key@) is Some),
        }
    }

    fn is_satisfied_at(&self, candidate: &Backbone, now: &BackboneTimestamp) -> (r: Result<
        bool,
        String,
    >) {
        let metadata = candidate.metadata();
        match &self.value {
            Some(expected) => {
                match metadata.get(self.key.as_str()) {
                    Some(v) => Ok(str_eq(v.as_str(), expected.as_str())),
                    None => Ok(false),
                }
            },
            None => Ok(metadata.contains_key(self.key.as_str())),
        }
    }
}

// ------------------------------------------------------------------------------------------
// Evaluation reports
// ------------------------------------------------------------------------------------------

/// The outcome of evaluating one rule on one backbone.
#[derive(Debug, Clone)]
pub struct SpecificationResult {
    pub satisfied: bool,
    pub specification_name: String,
    pub message: String,
    pub details: Vec<(String, String)>,
    pub evaluated_at: BackboneTimestamp,
}

impl SpecificationResult {
    /// A satisfied outcome, stamped now.
    pub fn satisfied(name: String, message: String) -> (r: Self)
        ensures
            r.satisfied,
            r.specification_name@ == name@,
            r.message@ == message@,
            r.details.len() == 0,
            r.evaluated_at.wf(),
    {
        SpecificationResult {
            satisfied: true,
            specification_name: name,
            message,
            details: Vec::new(),
            evaluated_at: BackboneTimestamp::now(),
        }
    }

    /// An unsatisfied outcome, stamped now.
    pub fn unsatisfied(name: String, message: String) -> (r: Self)
        ensures
            !r.satisfied,
            r.specification_name@ == name@,
            r.message@ == message@,
            r.details.len() == 0,
            r.evaluated_at.wf(),
    {
        SpecificationResult {
            satisfied: false,
            specification_name: name,
            message,
            details: Vec::new(),
            evaluated_at: BackboneTimestamp::now(),
        }
    }

    /// Record a detail; a detail with the same key is replaced.
    pub fn with_details(self, key: String, value: String) -> (r: Self)
        ensures
            r.satisfied == self.satisfied,
            r.specification_name == self.specification_name,
            r.message == self.message,
            r.evaluated_at == self.evaluated_at,
            detail_of(r.details@, key@) == Some(value@),
            forall|k: Seq<char>| k != key@ ==> detail_of(r.details@, k) == detail_of(self.details@, k),
    {
        let details = upsert_pair(self.details, key, value);
        SpecificationResult { details, ..self }
    }
}

/// `pairs` with `key` mapped to `value`: the first entry with that key is replaced, else the
/// pair is appended.
pub fn upsert_pair(pairs: Vec<(String, String)>, key: String, value: String) -> (r: Vec<(String, String)>)
    ensures
        detail_of(r@, key@) == Some(value@),
        forall|k: Seq<char>| k != key@ ==> detail_of(r@, k) == detail_of(pairs@, k),
{
    let mut details = pairs;
    let mut i: usize = 0;
    while i < details.len()
        invariant
            i <= details.len(),
            details@ == pairs@,
            forall|j: int| 0 <= j < i ==> (#[trigger] details@[j]).0@ != key@,
        decreases details.len() - i,
    {
        if str_eq(details[i].0.as_str(), key.as_str()) {
            let ghost before = details@;
            details.set(i, (key, value));
            proof {
                lemma_detail_set(before, i as int, details@[i as int]);
            }
            return details;
        }
        i = i + 1;
    }
    let ghost before = details@;
    details.push((key, value));
    proof {
        lemma_detail_push(before, details@.last());
    }
    details
}

/// The value recorded for `key` (the first entry with that key).
pub open spec fn detail_of(d: Seq<(String, String)>, key: Seq<char>) -> Option<Seq<char>>
    decreases d.len(),
{
    if d.len() == 0 {
        None
    } else if d[0].0@ == key {
        Some(d[0].1@)
    } else {
        detail_of(d.drop_first(), key)
    }
}

proof fn lemma_detail_set(d: Seq<(String, String)>, i: int, x: (String, String))
    requires
        0 <= i < d.len(),
        d[i].0@ == x.0@,
        forall|j: int| 0 <= j < i ==> (#[trigger] d[j]).0@ != x.0@,
    ensures
        detail_of(d.update(i, x), x.0@) == Some(x.1@),
        forall|k: Seq<char>| k != x.0@ ==> detail_of(d.update(i, x), k) == detail_of(d, k),
    decreases d.len(),
{
    if i > 0 {
        assert forall|j: int| 0 <= j < i - 1 implies (#[trigger] d.drop_first()[j]).0@ != x.0@ by {
            assert(d.drop_first()[j] == d[j + 1]);
        }
        lemma_detail_set(d.drop_first(), i - 1, x);
        assert(d.update(i, x).drop_first() =~= d.drop_first().update(i - 1, x));
        assert(d.update(i, x)[0] == d[0]);
    } else {
        assert(d.update(i, x).drop_first() =~= d.drop_first());
        assert(d.update(i, x)[0] == x);
    }
    assert forall|k: Seq<char>| k != x.0@ implies detail_of(d.update(i, x), k) == detail_of(d, k) by {
        lemma_detail_set_other(d, i, x, k);
    }
}

proof fn lemma_detail_set_other(d: Seq<(String, String)>, i: int, x: (String, String), k: Seq<char>)
    requires
        0 <= i < d.len(),
        d[i].0@ == x.0@,
        k != x.0@,
    ensures
        detail_of(d.update(i, x), k) == detail_of(d, k),
    decreases d.len(),
{
    let u = d.update(i, x);
    if i > 0 {
        assert(u[0] == d[0]);
        if d[0].0@ != k {
            lemma_detail_set_other(d.drop_first(), i - 1, x, k);
            assert(u.drop_first() =~= d.drop_first().update(i - 1, x));
        }
    } else {
        assert(u[0] == x);
        assert(u.drop_first() =~= d.drop_first());
    }
}

proof fn lemma_detail_push(d: Seq<(String, String)>, x: (String, String))
    requires
        forall|j: int| 0 <= j < d.len() ==> (#[trigger] d[j]).0@ != x.0@,
    ensures
        detail_of(d.push(x), x.0@) == Some(x.1@),
        forall|k: Seq<char>| k != x.0@ ==> detail_of(d.push(x), k) == detail_of(d, k),
    decreases d.len(),
{
    if d.len() > 0 {
        assert forall|j: int| 0 <= j < d.drop_first().len() implies (#[trigger] d.drop_first()[j]).0@ != x.0@ by {
            assert(d.drop_first()[j] == d[j + 1]);
        }
        lemma_detail_push(d.drop_first(), x);
        assert(d.push(x).drop_first() =~= d.drop_first().push(x));
        assert(d.push(x)[0] == d[0]);
        assert forall|k: Seq<char>| k != x.0@ implies detail_of(d.push(x), k) == detail_of(d, k) by {
            assert(d.push(x)[0] == d[0]);
            if d[0].0@ != k {
                assert(detail_of(d.push(x), k) == detail_of(d.push(x).drop_first(), k));
                assert(detail_of(d, k) == detail_of(d.drop_first(), k));
            }
        }
    } else {
        assert(d.push(x).drop_first() =~= Seq::<(String, String)>::empty());
        assert(d.push(x)[0] == x);
        assert forall|k: Seq<char>| k != x.0@ implies detail_of(d.push(x), k) == detail_of(d, k) by {
            assert(detail_of(d.push(x), k) == detail_of(d.push(x).drop_first(), k));
        }
    }
}

/// Where the last segment of `s` starts when it is split on `::` from the left, scanning from
/// index `i` with the current segment starting at `start`.
pub open spec fn segment_start(s: Seq<char>, i: int, start: int) -> int
    decreases s.len() - i,
{
    if i + 2 > s.len() {
        start
    } else if s[i] == ':' && s[i + 1] == ':' {
        segment_start(s, i + 2, i + 2)
    } else {
        segment_start(s, i + 1, start)
    }
}

/// The last piece of `s` split on `::` (the whole of `s` when it holds none).
pub open spec fn last_segment(s: Seq<char>) -> Seq<char> {
    s.subrange(segment_start(s, 0, 0), s.len() as int)
}

proof fn lemma_segment_start_bounds(s: Seq<char>, i: int, start: int)
    requires
        0 <= start <= i <= s.len(),
    ensures
        start <= segment_start(s, i, start) <= s.len(),
    decreases s.len() - i,
{
    if i + 2 <= s.len() {
        if s[i] == ':' && s[i + 1] == ':' {
            lemma_segment_start_bounds(s, i + 2, i + 2);
        } else {
            lemma_segment_start_bounds(s, i + 1, start);
        }
    }
}

/// The last piece of a `::`-separated path.
pub fn last_path_segment(s: &str) -> (r: String)
    ensures
        r@ == last_segment(s@),
{
    let n = s.unicode_len();
    let mut i: usize = 0;
    let mut start: usize = 0;
    while i < n && n - i >= 2
        invariant
            n == s@.len(),
            start <= i,
            i <= n,
            segment_start(s@, i as int, start as int) == segment_start(s@, 0, 0),
        decreases n - i,
    {
        if s.get_char(i) == ':' && s.get_char(i + 1) == ':' {
            i = i + 2;
            start = i;
        } else {
            i = i + 1;
        }
    }
    proof {
        lemma_segment_start_bounds(s@, 0, 0);
    }
    String::from_str(s.substring_char(start, n))
}

/// Evaluates rules and reports on them.
pub struct SpecificationEvaluator;

/// The report message for a rule named `name`.
pub open spec fn evaluation_message(name: Seq<char>, satisfied: bool) -> Seq<char> {
    if satisfied {
        "Specification '"@ + name + "' is satisfied"@
    } else {
        "Specification '"@ + name + "' is not satisfied"@
    }
}

/// `r` is what evaluating `s` on `c` gives at some representable instant.
pub open spec fn evaluated<S: Specification>(s: S, c: Backbone, r: Result<SpecificationResult, String>) -> bool {
    exists|now: BackboneTimestamp| now.wf() && match #[trigger] s.verdict(c, now) {
        Some(b) => r matches Ok(res) && res.satisfied == b,
        None => r is Err,
    }
}

impl SpecificationEvaluator {
    /// Evaluate `specification` on `candidate` now and report it under the last segment of the
    /// rule's type path (`type_path`, as `std::any::type_name` spells it).
    pub fn evaluate<S: Specification>(specification: &S, candidate: &Backbone, type_path: &str) -> (r: Result<SpecificationResult, String>)
        requires
            candidate.wf(),
        ensures
            evaluated(*specification, *candidate, r),
            r matches Ok(res) ==> res.specification_name@ == last_segment(type_path@),
            r matches Ok(res) ==> res.message@ == evaluation_message(res.specification_name@, res.satisfied),
    {
        let satisfied = match specification.is_satisfied_by(candidate) {
            Ok(b) => b,
            Err(e) => return Err(e),
        };
        let name = last_path_segment(type_path);
        let message = if satisfied {
            String::from_str("Specification '").concat(name.as_str()).concat("' is satisfied")
        } else {
            String::from_str("Specification '").concat(name.as_str()).concat("' is not satisfied")
        };
        if satisfied {
            Ok(SpecificationResult::satisfied(name, message))
        } else {
            Ok(SpecificationResult::unsatisfied(name, message))
        }
    }

    /// Evaluate `specification` on each candidate, in order.
    pub fn evaluate_batch<S: Specification>(specification: &S, candidates: &Vec<Backbone>, type_path: &str) -> (r: Vec<Result<SpecificationResult, String>>)
        requires
            forall|i: int| 0 <= i < candidates.len() ==> (#[trigger] candidates@[i]).wf(),
        ensures
            r.len() == candidates.len(),
            forall|i: int| 0 <= i < r.len() ==> evaluated(*specification, candidates@[i], #[trigger] r@[i]),
    {
        let mut out: Vec<Result<SpecificationResult, String>> = Vec::new();
        let mut i: usize = 0;
        while i < candidates.len()
            invariant
                i <= candidates.len(),
                out.len() == i,
                forall|k: int| 0 <= k < candidates.len() ==> (#[trigger] candidates@[k]).wf(),
                forall|k: int| 0 <= k < i ==> evaluated(*specification, candidates@[k], #[trigger] out@[k]),
            decreases candidates.len() - i,
        {
            proof {
                assert(candidates@[i as int].wf());
            }
            let res = Self::evaluate(specification, &candidates[i], type_path);
            out.push(res);
            proof {
                assert forall|k: int| 0 <= k < i + 1 implies evaluated(*specification, candidates@[k], #[trigger] out@[k]) by {
                    if k < i {
                        assert(out@[k] == out@.drop_last()[k]);
                    }
                }
            }
            i = i + 1;
        }
        out
    }
}

} // verus!
