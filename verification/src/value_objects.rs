//! Value objects of the backbone catalogue: identifiers, names, lifecycle status,
//! optimistic-locking versions and bounded key/value metadata.

use vstd::prelude::*;
use vstd::string::*;
use crate::text::{
    byte_len, char_is_alphanumeric, char_is_whitespace, count_char, count_occurrences,
    spec_is_alphanumeric, spec_is_whitespace, spec_to_uppercase, str_byte_len, str_eq,
    str_to_uppercase, trim, trim_spec,
};

verus! {

// ------------------------------------------------------------------------------------------
// BackboneId
// ------------------------------------------------------------------------------------------

/// Identifier of a backbone: a non-empty string made of exactly five `-`-separated parts.
#[derive(Debug, Clone, PartialEq, Eq)]
pub struct BackboneId(pub String);

/// Why a string was refused as a backbone identifier.
#[derive(Debug, Clone, Copy, PartialEq, Eq, Structural)]
pub enum BackboneIdError {
    Empty,
    InvalidFormat,
}

impl BackboneIdError {
    /// The human-readable message of this error.
    pub open spec fn text(&self) -> Seq<char> {
        match self {
            BackboneIdError::Empty => "Backbone ID cannot be empty"@,
            BackboneIdError::InvalidFormat => "Invalid Backbone ID format"@,
        }
    }

    /// The human-readable message of this error.
    pub fn message(&self) -> (r: &'static str)
        ensures
            r@ == self.text(),
    {
        match self {
            BackboneIdError::Empty => "Backbone ID cannot be empty",
            BackboneIdError::InvalidFormat => "Invalid Backbone ID format",
        }
    }
}

/// A string is an acceptable identifier when it splits on `-` into exactly five parts.
pub open spec fn id_has_five_parts(s: Seq<char>) -> bool {
    count_char(s, '-') + 1 == 5
}

/// `Uuid::new_v4()`: a fresh random (version 4) UUID, as its 128-bit value (`as_u128`) and its
/// hyphenated text (`to_string`): 36 characters of which exactly four are hyphens (8-4-4-4-12
/// lowercase hex digits).  Which UUID comes back is not stated.
#[verifier::external_body]
pub(crate) fn new_uuid_v4() -> (r: (u128, String))
    ensures
        r.1@.len() == 36,
        count_char(r.1@, '-') == 4,
{
    let u = uuid::Uuid::new_v4();
    (u.as_u128(), u.to_string())
}

/// The hyphenated text of a fresh random UUID.
pub(crate) fn new_uuid_v4_text() -> (r: String)
    ensures
        r@.len() == 36,
        count_char(r@, '-') == 4,
{
    new_uuid_v4().1
}

impl BackboneId {
    /// Validate `id` and wrap it.
    pub fn new(id: &str) -> (r: Result<BackboneId, BackboneIdError>)
        ensures
            id@.len() == 0 ==> r == Err::<BackboneId, BackboneIdError>(BackboneIdError::Empty),
            id@.len() != 0 && !id_has_five_parts(id@) ==> r == Err::<BackboneId, BackboneIdError>(
                BackboneIdError::InvalidFormat,
            ),
            id@.len() != 0 && id_has_five_parts(id@) ==> r is Ok && r->Ok_0.0@ == id@,
    {
        if id.unicode_len() == 0 {
            return Err(BackboneIdError::Empty);
        }
        let hyphens = count_occurrences(id, '-');
        if hyphens != 4 {
            return Err(BackboneIdError::InvalidFormat);
        }
        Ok(BackboneId(String::from_str(id)))
    }

    /// A freshly generated random identifier; `new` accepts it.
    pub fn generate() -> (r: BackboneId)
        ensures
            r.0@.len() == 36,
            id_has_five_parts(r.0@),
    {
        BackboneId(new_uuid_v4_text())
    }

    /// The identifier text.
    pub fn value(&self) -> (r: &str)
        ensures
            r@ == self.0@,
    {
        self.0.as_str()
    }

    /// The identifier text, by value.
    pub fn into_string(self) -> (r: String)
        ensures
            r@ == self.0@,
    {
        self.0
    }

    /// A copy of this identifier.
    pub fn clone_id(&self) -> (r: BackboneId)
        ensures
            r == *self,
    {
        BackboneId(self.0.clone())
    }

    /// Wrap any string without validation.
    pub fn from_string(s: String) -> (r: BackboneId)
        ensures
            r.0@ == s@,
    {
        BackboneId(s)
    }
}

// ------------------------------------------------------------------------------------------
// BackboneName
// ------------------------------------------------------------------------------------------

/// Name of a backbone: trimmed, 1..=100 bytes, letters, digits, whitespace, `-` and `_`.
#[derive(Debug, Clone, PartialEq, Eq)]
pub struct BackboneName(pub String);

/// Why a string was refused as a backbone name.
#[derive(Debug, Clone, Copy, PartialEq, Eq, Structural)]
pub enum BackboneNameError {
    Empty,
    TooLong,
    InvalidCharacters,
}

impl BackboneNameError {
    /// The human-readable message of this error.
    pub open spec fn text(&self) -> Seq<char> {
        match self {
            BackboneNameError::Empty => "Backbone name cannot be empty"@,
            BackboneNameError::TooLong => "Backbone name cannot exceed 100 characters"@,
            BackboneNameError::InvalidCharacters => "Backbone name contains invalid characters"@,
        }
    }

    /// The human-readable message of this error.
    pub fn message(&self) -> (r: &'static str)
        ensures
            r@ == self.text(),
    {
        match self {
            BackboneNameError::Empty => "Backbone name cannot be empty",
            BackboneNameError::TooLong => "Backbone name cannot exceed 100 characters",
            BackboneNameError::InvalidCharacters => "Backbone name contains invalid characters",
        }
    }
}

/// A character allowed in a backbone name.
pub open spec fn name_char_ok(c: char) -> bool {
    spec_is_alphanumeric(c) || spec_is_whitespace(c) || c == '-' || c == '_'
}

/// Every character of `s` is allowed in a backbone name.
pub open spec fn name_chars_ok(s: Seq<char>) -> bool {
    forall|i: int| 0 <= i < s.len() ==> #[trigger] name_char_ok(s[i])
}

/// Whether every character of `s` is allowed in a backbone name.
pub fn all_name_chars(s: &str) -> (r: bool)
    ensures
        r == name_chars_ok(s@),
{
    let n = s.unicode_len();
    let mut i: usize = 0;
    while i < n
        invariant
            n == s@.len(),
            i <= n,
            forall|k: int| 0 <= k < i ==> #[trigger] name_char_ok(s@[k]),
        decreases n - i,
    {
        let c = s.get_char(i);
        let ok = char_is_alphanumeric(c) || char_is_whitespace(c) || c == '-' || c == '_';
        if !ok {
            assert(!name_char_ok(s@[i as int]));
            return false;
        }
        i = i + 1;
    }
    true
}

/// The outcome of validating `name` as a backbone name.
pub open spec fn name_outcome(name: Seq<char>) -> Result<Seq<char>, BackboneNameError> {
    let t = trim_spec(name);
    if t.len() == 0 {
        Err(BackboneNameError::Empty)
    } else if byte_len(t) > 100 {
        Err(BackboneNameError::TooLong)
    } else if !name_chars_ok(t) {
        Err(BackboneNameError::InvalidCharacters)
    } else {
        Ok(t)
    }
}

/// A name `BackboneName::new` accepts is its input trimmed: non-empty, at most 100 bytes, and
/// already trimmed, so trimming it again changes nothing.
pub proof fn lemma_accepted_name_is_trimmed(name: Seq<char>)
    requires
        name_outcome(name) is Ok,
    ensures
        ({
            let t = name_outcome(name)->Ok_0;
            &&& t == trim_spec(name)
            &&& t.len() >= 1
            &&& 1 <= byte_len(t) <= 100
            &&& trim_spec(t) == t
        }),
{
    crate::text::lemma_trim_idempotent(name);
    crate::text::lemma_byte_len_positive(trim_spec(name));
}

impl BackboneName {
    /// Trim and validate `name`.
    pub fn new(name: &str) -> (r: Result<BackboneName, BackboneNameError>)
        ensures
            match name_outcome(name@) {
                Ok(t) => r is Ok && r->Ok_0.0@ == t,
                Err(e) => r == Err::<BackboneName, BackboneNameError>(e),
            },
    {
        let trimmed = trim(name);
        if trimmed.as_str().unicode_len() == 0 {
            return Err(BackboneNameError::Empty);
        }
        if str_byte_len(trimmed.as_str()) > 100 {
            return Err(BackboneNameError::TooLong);
        }
        if !all_name_chars(trimmed.as_str()) {
            return Err(BackboneNameError::InvalidCharacters);
        }
        Ok(BackboneName(trimmed))
    }

    /// The name text.
    pub fn value(&self) -> (r: &str)
        ensures
            r@ == self.0@,
    {
        self.0.as_str()
    }

    /// The name text, by value.
    pub fn into_string(self) -> (r: String)
        ensures
            r@ == self.0@,
    {
        self.0
    }

    /// Length of the name in bytes.
    pub fn length(&self) -> (r: usize)
        ensures
            r == byte_len(self.0@),
    {
        str_byte_len(self.0.as_str())
    }

    /// Whether the name is empty.
    pub fn is_empty(&self) -> (r: bool)
        ensures
            r == (self.0@.len() == 0),
    {
        self.0.as_str().unicode_len() == 0
    }

    /// Wrap any string without validation.
    pub fn from_string(s: String) -> (r: BackboneName)
        ensures
            r.0@ == s@,
    {
        BackboneName(s)
    }
}

// ------------------------------------------------------------------------------------------
// BackboneStatus
// ------------------------------------------------------------------------------------------

/// Lifecycle status of a backbone.
#[derive(Debug, Clone, Copy, PartialEq, Eq, Hash, Structural)]
pub enum BackboneStatus {
    Active,
    Inactive,
    Suspended,
    Archived,
}

/// The lifecycle state machine: staying put is always allowed; Active, Inactive and
/// Suspended may move to any other status; Archived may only go back to Inactive.
pub open spec fn transition_allowed(from: BackboneStatus, to: BackboneStatus) -> bool {
    from == to || match from {
        BackboneStatus::Archived => to == BackboneStatus::Inactive,
        _ => true,
    }
}

/// Upper-case text name of a status.
pub open spec fn status_text(s: BackboneStatus) -> Seq<char> {
    match s {
        BackboneStatus::Active => "ACTIVE"@,
        BackboneStatus::Inactive => "INACTIVE"@,
        BackboneStatus::Suspended => "SUSPENDED"@,
        BackboneStatus::Archived => "ARCHIVED"@,
    }
}

/// The status named by an already upper-cased text; unknown text falls back to Active.
pub open spec fn status_from_upper_spec(s: Seq<char>) -> BackboneStatus {
    if s == "ACTIVE"@ {
        BackboneStatus::Active
    } else if s == "INACTIVE"@ {
        BackboneStatus::Inactive
    } else if s == "SUSPENDED"@ {
        BackboneStatus::Suspended
    } else if s == "ARCHIVED"@ {
        BackboneStatus::Archived
    } else {
        BackboneStatus::Active
    }
}

/// Every status's text names that status again: `from_upper(s.value())` is `s`.
pub proof fn lemma_status_text_round_trip(s: BackboneStatus)
    ensures
        status_from_upper_spec(status_text(s)) == s,
{
    reveal_strlit("ACTIVE");
    reveal_strlit("INACTIVE");
    reveal_strlit("SUSPENDED");
    reveal_strlit("ARCHIVED");
    assert("ACTIVE"@.len() != "INACTIVE"@.len());
    assert("ACTIVE"@.len() != "SUSPENDED"@.len());
    assert("ACTIVE"@.len() != "ARCHIVED"@.len());
    assert("INACTIVE"@[0] != "SUSPENDED"@[0]);
    assert("INACTIVE"@[0] != "ARCHIVED"@[0]);
    assert("SUSPENDED"@.len() != "ARCHIVED"@.len());
}

impl BackboneStatus {
    /// The upper-case text of this status.
    pub fn value(&self) -> (r: &'static str)
        ensures
            r@ == status_text(*self),
    {
        match self {
            BackboneStatus::Active => "ACTIVE",
            BackboneStatus::Inactive => "INACTIVE",
            BackboneStatus::Suspended => "SUSPENDED",
            BackboneStatus::Archived => "ARCHIVED",
        }
    }

    pub fn is_active(&self) -> (r: bool)
        ensures
            r == (*self == BackboneStatus::Active),
    {
        matches!(self, BackboneStatus::Active)
    }

    pub fn is_inactive(&self) -> (r: bool)
        ensures
            r == (*self == BackboneStatus::Inactive),
    {
        matches!(self, BackboneStatus::Inactive)
    }

    pub fn is_suspended(&self) -> (r: bool)
        ensures
            r == (*self == BackboneStatus::Suspended),
    {
        matches!(self, BackboneStatus::Suspended)
    }

    pub fn is_archived(&self) -> (r: bool)
        ensures
            r == (*self == BackboneStatus::Archived),
    {
        matches!(self, BackboneStatus::Archived)
    }

    /// Whether the lifecycle allows moving from this status to `target`.
    pub fn can_transition_to(&self, target: &BackboneStatus) -> (r: bool)
        ensures
            r == transition_allowed(*self, *target),
    {
        if *self == *target {
            return true;
        }
        match self {
            BackboneStatus::Archived => matches!(target, BackboneStatus::Inactive),
            _ => true,
        }
    }

    /// The texts of all statuses, in declaration order.
    pub fn all_statuses() -> (r: Vec<&'static str>)
        ensures
            r@.len() == 4,
            r@[0]@ == "ACTIVE"@,
            r@[1]@ == "INACTIVE"@,
            r@[2]@ == "SUSPENDED"@,
            r@[3]@ == "ARCHIVED"@,
    {
        let mut v: Vec<&'static str> = Vec::new();
        v.push("ACTIVE");
        v.push("INACTIVE");
        v.push("SUSPENDED");
        v.push("ARCHIVED");
        v
    }

    /// The status named by an upper-case text; anything else is Active.
    pub fn from_upper(s: &str) -> (r: BackboneStatus)
        ensures
            r == status_from_upper_spec(s@),
    {
        if str_eq(s, "ACTIVE") {
            BackboneStatus::Active
        } else if str_eq(s, "INACTIVE") {
            BackboneStatus::Inactive
        } else if str_eq(s, "SUSPENDED") {
            BackboneStatus::Suspended
        } else if str_eq(s, "ARCHIVED") {
            BackboneStatus::Archived
        } else {
            BackboneStatus::Active
        }
    }

    /// The status named by `s` compared case-insensitively; anything else is Active.
    pub fn from_text(s: &str) -> (r: BackboneStatus)
        ensures
            r == status_from_upper_spec(spec_to_uppercase(s@)),
    {
        let up = str_to_uppercase(s);
        BackboneStatus::from_upper(up.as_str())
    }
}

impl Default for BackboneStatus {
    fn default() -> (r: BackboneStatus)
        ensures
            r == BackboneStatus::Active,
    {
        BackboneStatus::Active
    }
}

// ------------------------------------------------------------------------------------------
// BackboneVersion
// ------------------------------------------------------------------------------------------

/// Optimistic-locking version of a backbone (never negative).
#[derive(Debug, Clone, Copy, PartialEq, Eq, Structural)]
pub struct BackboneVersion(pub i64);

/// Why a number was refused as a version.
#[derive(Debug, Clone, Copy, PartialEq, Eq, Structural)]
pub enum BackboneVersionError {
    Negative,
}

impl BackboneVersion {
    /// Validate and wrap a version number.
    pub fn new(version: i64) -> (r: Result<BackboneVersion, BackboneVersionError>)
        ensures
            version < 0 ==> r == Err::<BackboneVersion, BackboneVersionError>(
                BackboneVersionError::Negative,
            ),
            version >= 0 ==> r == Ok::<BackboneVersion, BackboneVersionError>(
                BackboneVersion(version),
            ),
    {
        if version < 0 {
            return Err(BackboneVersionError::Negative);
        }
        Ok(BackboneVersion(version))
    }

    /// The first version, 1.
    pub fn initial() -> (r: BackboneVersion)
        ensures
            r.0 == 1,
    {
        BackboneVersion(1)
    }

    pub fn value(&self) -> (r: i64)
        ensures
            r == self.0,
    {
        self.0
    }

    /// The following version.
    pub fn next(&self) -> (r: BackboneVersion)
        requires
            self.0 < i64::MAX,
        ensures
            r.0 == self.0 + 1,
    {
        BackboneVersion(self.0 + 1)
    }

    pub fn is_first(&self) -> (r: bool)
        ensures
            r == (self.0 == 1),
    {
        self.0 == 1
    }

    /// Whether this version is strictly newer than `other`.
    pub fn _greater_than(&self, other: &BackboneVersion) -> (r: bool)
        ensures
            r == (self.0 > other.0),
    {
        self.0 > other.0
    }

    /// Any number, clamped at zero.
    pub fn from_i64(version: i64) -> (r: BackboneVersion)
        ensures
            r.0 == if version < 0 { 0 } else { version },
    {
        if version < 0 {
            BackboneVersion(0)
        } else {
            BackboneVersion(version)
        }
    }
}

impl Default for BackboneVersion {
    fn default() -> (r: BackboneVersion)
        ensures
            r.0 == 1,
    {
        BackboneVersion(1)
    }
}

// ------------------------------------------------------------------------------------------
// Metadata
// ------------------------------------------------------------------------------------------

/// Why a key/value pair was refused as metadata.
#[derive(Debug, Clone, Copy, PartialEq, Eq, Structural)]
pub enum MetadataError {
    Empty,
    EmptyKey,
    KeyTooLong,
    ValueTooLong,
}

impl MetadataError {
    /// The human-readable message of this error.
    pub open spec fn text(&self) -> Seq<char> {
        match self {
            MetadataError::Empty => "Metadata cannot be empty"@,
            MetadataError::EmptyKey => "Metadata key cannot be empty"@,
            MetadataError::KeyTooLong => "Metadata key cannot exceed 50 characters"@,
            MetadataError::ValueTooLong => "Metadata value cannot exceed 500 characters"@,
        }
    }

    /// The human-readable message of this error.
    pub fn message(&self) -> (r: &'static str)
        ensures
            r@ == self.text(),
    {
        match self {
            MetadataError::Empty => "Metadata cannot be empty",
            MetadataError::EmptyKey => "Metadata key cannot be empty",
            MetadataError::KeyTooLong => "Metadata key cannot exceed 50 characters",
            MetadataError::ValueTooLong => "Metadata value cannot exceed 500 characters",
        }
    }
}

/// The verdict on one metadata pair: `None` when acceptable.
pub open spec fn pair_error(key: Seq<char>, value: Seq<char>) -> Option<MetadataError> {
    if key.len() == 0 {
        Some(MetadataError::EmptyKey)
    } else if byte_len(key) > 50 {
        Some(MetadataError::KeyTooLong)
    } else if byte_len(value) > 500 {
        Some(MetadataError::ValueTooLong)
    } else {
        None
    }
}

/// The verdict on one metadata pair.
pub fn check_pair(key: &str, value: &str) -> (r: Option<MetadataError>)
    ensures
        r == pair_error(key@, value@),
{
    if key.unicode_len() == 0 {
        Some(MetadataError::EmptyKey)
    } else if str_byte_len(key) > 50 {
        Some(MetadataError::KeyTooLong)
    } else if str_byte_len(value) > 500 {
        Some(MetadataError::ValueTooLong)
    } else {
        None
    }
}

/// The text view of a list of string pairs.
pub open spec fn pairs_view(v: Seq<(String, String)>) -> Seq<(Seq<char>, Seq<char>)> {
    v.map_values(|p: (String, String)| (p.0@, p.1@))
}

/// A copy of a list of string pairs.
pub fn clone_pairs(v: &Vec<(String, String)>) -> (r: Vec<(String, String)>)
    ensures
        pairs_view(r@) == pairs_view(v@),
{
    let n = v.len();
    let mut out: Vec<(String, String)> = Vec::new();
    let mut i: usize = 0;
    while i < n
        invariant
            n == v@.len(),
            i <= n,
            out@.len() == i,
            forall|k: int|
                0 <= k < i ==> #[trigger] out@[k].0@ == v@[k].0@ && out@[k].1@ == v@[k].1@,
        decreases n - i,
    {
        let p = (v[i].0.clone(), v[i].1.clone());
        out.push(p);
        i = i + 1;
    }
    assert(pairs_view(out@) =~= pairs_view(v@));
    out
}

/// No key occurs twice.
pub open spec fn keys_distinct(s: Seq<(Seq<char>, Seq<char>)>) -> bool {
    forall|i: int, j: int| 0 <= i < j < s.len() ==> s[i].0 != s[j].0
}

/// The first error among `s`'s pairs, in order, if any.
pub open spec fn first_pair_error(s: Seq<(Seq<char>, Seq<char>)>) -> Option<MetadataError>
    decreases s.len(),
{
    if s.len() == 0 {
        None
    } else {
        match pair_error(s[0].0, s[0].1) {
            Some(e) => Some(e),
            None => first_pair_error(s.drop_first()),
        }
    }
}

/// Index of the pair with key `k` in `s`, or `s.len()` when absent.
pub open spec fn key_index(s: Seq<(Seq<char>, Seq<char>)>, k: Seq<char>) -> int
    decreases s.len(),
{
    if s.len() == 0 {
        0
    } else if s.last().0 == k {
        s.len() - 1
    } else {
        key_index(s.drop_last(), k)
    }
}

/// The value stored under `k`, if any.
pub open spec fn lookup(s: Seq<(Seq<char>, Seq<char>)>, k: Seq<char>) -> Option<Seq<char>> {
    if exists|i: int| 0 <= i < s.len() && s[i].0 == k {
        Some(s[choose|i: int| 0 <= i < s.len() && s[i].0 == k].1)
    } else {
        None
    }
}

/// Bounded string-to-string metadata; each key occurs at most once.
#[derive(Debug, Clone)]
pub struct Metadata {
    pub data: Vec<(String, String)>,
}

impl View for Metadata {
    type V = Seq<(Seq<char>, Seq<char>)>;

    open spec fn view(&self) -> Seq<(Seq<char>, Seq<char>)> {
        pairs_view(self.data@)
    }
}

impl Metadata {
    /// Each key occurs at most once.
    pub open spec fn wf(&self) -> bool {
        keys_distinct(self@)
    }

    /// Empty metadata.
    pub fn new() -> (r: Metadata)
        ensures
            r@.len() == 0,
            r.wf(),
    {
        Metadata { data: Vec::new() }
    }

    /// Empty metadata (the capacity is only a hint).
    pub fn with_capacity(capacity: usize) -> (r: Metadata)
        ensures
            r@.len() == 0,
            r.wf(),
    {
        Metadata { data: Vec::new() }
    }

    /// Build from distinct-key pairs: refused when empty or when some pair is invalid
    /// (the first invalid pair, in order, names the error).
    pub fn from_map(data: Vec<(String, String)>) -> (r: Result<Metadata, MetadataError>)
        requires
            keys_distinct(pairs_view(data@)),
        ensures
            data@.len() == 0 ==> r == Err::<Metadata, MetadataError>(MetadataError::Empty),
            data@.len() != 0 ==> match first_pair_error(pairs_view(data@)) {
                Some(e) => r == Err::<Metadata, MetadataError>(e),
                None => r is Ok && r->Ok_0@ == pairs_view(data@) && r->Ok_0.wf(),
            },
    {
        if data.len() == 0 {
            return Err(MetadataError::Empty);
        }
        let n = data.len();
        let mut i: usize = 0;
        assert(pairs_view(data@).subrange(0, n as int) =~= pairs_view(data@));
        while i < n
            invariant
                n == data@.len(),
                i <= n,
                first_pair_error(pairs_view(data@)) == first_pair_error(
                    pairs_view(data@).subrange(i as int, n as int),
                ),
            decreases n - i,
        {
            let e = check_pair(data[i].0.as_str(), data[i].1.as_str());
            proof {
                let s = pairs_view(data@).subrange(i as int, n as int);
                assert(s[0] == pairs_view(data@)[i as int]);
                assert(s.drop_first() =~= pairs_view(data@).subrange(i + 1, n as int));
            }
            match e {
                Some(err) => {
                    return Err(err);
                },
                None => {},
            }
            i = i + 1;
        }
        proof {
            assert(pairs_view(data@).subrange(n as int, n as int).len() == 0);
        }
        Ok(Metadata { data })
    }

    /// Position of `key`, or the number of entries when absent.
    fn find(&self, key: &str) -> (r: usize)
        ensures
            r <= self@.len(),
            r < self@.len() ==> self@[r as int].0 == key@,
            r == self@.len() ==> forall|i: int| 0 <= i < self@.len() ==> self@[i].0 != key@,
    {
        let n = self.data.len();
        let mut i: usize = 0;
        while i < n
            invariant
                n == self.data@.len(),
                i <= n,
                forall|k: int| 0 <= k < i ==> self@[k].0 != key@,
            decreases n - i,
        {
            if str_eq(self.data[i].0.as_str(), key) {
                return i;
            }
            i = i + 1;
        }
        n
    }

    /// Validate and store `value` under `key`, replacing a previous value.
    pub fn insert(&mut self, key: String, value: String) -> (r: Result<(), MetadataError>)
        requires
            old(self).wf(),
        ensures
            final(self).wf(),
            match pair_error(key@, value@) {
                Some(e) => r == Err::<(), MetadataError>(e) && final(self)@ == old(self)@,
                None => r is Ok && lookup(final(self)@, key@) == Some(value@) && (forall|k: Seq<
                    char,
                >| k != key@ ==> lookup(final(self)@, k) == lookup(old(self)@, k)) && final(self)@.len()
                    == old(self)@.len() + (if lookup(old(self)@, key@) is Some { 0int } else { 1int }),
            },
    {
        match check_pair(key.as_str(), value.as_str()) {
            Some(e) => {
                return Err(e);
            },
            None => {},
        }
        let ghost pre = self@;
        let idx = self.find(key.as_str());
        if idx < self.data.len() {
            self.data.set(idx, (key, value));
        } else {
            self.data.push((key, value));
        }
        proof {
            let post = self@;
            if idx < pre.len() {
                assert(pre[idx as int].0 == key@);
                assert(lookup(pre, key@) is Some);
            } else {
                assert(lookup(pre, key@) is None);
            }
            assert forall|i: int, j: int| 0 <= i < j < post.len() implies post[i].0 != post[j].0 by {
                if idx < pre.len() {
                    assert(post[i].0 == pre[i].0);
                    assert(post[j].0 == pre[j].0);
                } else {
                    if j == pre.len() {
                        assert(post[i] == pre[i]);
                    } else {
                        assert(post[i] == pre[i]);
                        assert(post[j] == pre[j]);
                    }
                }
            }
            let ii = if idx < pre.len() { idx as int } else { pre.len() as int };
            assert(post[ii].0 == key@);
            assert(post[ii].1 == value@);
            assert forall|k: Seq<char>| k != key@ implies lookup(post, k) == lookup(pre, k) by {
                if exists|i: int| 0 <= i < pre.len() && pre[i].0 == k {
                    let i = choose|i: int| 0 <= i < pre.len() && pre[i].0 == k;
                    assert(post[i] == pre[i]);
                    let c = choose|i: int| 0 <= i < post.len() && post[i].0 == k;
                    assert(post[c] == pre[c]);
                } else {
                    if exists|i: int| 0 <= i < post.len() && post[i].0 == k {
                        let c = choose|i: int| 0 <= i < post.len() && post[i].0 == k;
                        assert(post[c] == pre[c]);
                        assert(false);
                    }
                }
            }
        }
        Ok(())
    }

    /// The value stored under `key`, if any.
    pub fn get(&self, key: &str) -> (r: Option<&String>)
        requires
            self.wf(),
        ensures
            match lookup(self@, key@) {
                Some(v) => r is Some && r->0@ == v,
                None => r is None,
            },
    {
        let idx = self.find(key);
        if idx < self.data.len() {
            proof {
                let c = choose|i: int| 0 <= i < self@.len() && self@[i].0 == key@;
                assert(c == idx);
            }
            Some(&self.data[idx].1)
        } else {
            None
        }
    }

    /// Remove the entry for `key`, returning its value.
    pub fn remove(&mut self, key: &str) -> (r: Option<String>)
        requires
            old(self).wf(),
        ensures
            final(self).wf(),
            lookup(final(self)@, key@) is None,
            match lookup(old(self)@, key@) {
                Some(v) => r is Some && r->0@ == v,
                None => r is None,
            },
            forall|k: Seq<char>| k != key@ ==> lookup(final(self)@, k) == lookup(old(self)@, k),
    {
        let ghost pre = self@;
        let idx = self.find(key);
        if idx < self.data.len() {
            let (_k, v) = self.data.remove(idx);
            proof {
                let post = self@;
                assert(post =~= pre.remove(idx as int));
                let c = choose|i: int| 0 <= i < pre.len() && pre[i].0 == key@;
                assert(c == idx);
                assert forall|k: Seq<char>| k != key@ implies lookup(post, k) == lookup(pre, k) by {
                    if exists|i: int| 0 <= i < pre.len() && pre[i].0 == k {
                        let i = choose|i: int| 0 <= i < pre.len() && pre[i].0 == k;
                        let j = if i < idx { i } else { i - 1 };
                        assert(post[j] == pre[i]);
                        let c2 = choose|i: int| 0 <= i < post.len() && post[i].0 == k;
                        let c3 = if c2 < idx { c2 } else { c2 + 1 };
                        assert(post[c2] == pre[c3]);
                    } else {
                        if exists|i: int| 0 <= i < post.len() && post[i].0 == k {
                            let c2 = choose|i: int| 0 <= i < post.len() && post[i].0 == k;
                            let c3 = if c2 < idx { c2 } else { c2 + 1 };
                            assert(post[c2] == pre[c3]);
                            assert(false);
                        }
                    }
                }
                if exists|i: int| 0 <= i < post.len() && post[i].0 == key@ {
                    let c2 = choose|i: int| 0 <= i < post.len() && post[i].0 == key@;
                    let c3 = if c2 < idx { c2 } else { c2 + 1 };
                    assert(post[c2] == pre[c3]);
                    assert(false);
                }
            }
            Some(v)
        } else {
            None
        }
    }

    /// Whether `key` has an entry.
    pub fn contains_key(&self, key: &str) -> (r: bool)
        ensures
            r == (lookup(self@, key@) is Some),
    {
        self.find(key) < self.data.len()
    }

    /// The keys, in storage order.
    pub fn keys(&self) -> (r: Vec<String>)
        ensures
            r@.len() == self@.len(),
            forall|i: int| 0 <= i < r@.len() ==> #[trigger] r@[i]@ == self@[i].0,
    {
        let n = self.data.len();
        let mut out: Vec<String> = Vec::new();
        let mut i: usize = 0;
        while i < n
            invariant
                n == self.data@.len(),
                i <= n,
                out@.len() == i,
                forall|k: int| 0 <= k < i ==> #[trigger] out@[k]@ == self@[k].0,
            decreases n - i,
        {
            out.push(self.data[i].0.clone());
            i = i + 1;
        }
        out
    }

    /// The values, in storage order.
    pub fn values(&self) -> (r: Vec<String>)
        ensures
            r@.len() == self@.len(),
            forall|i: int| 0 <= i < r@.len() ==> #[trigger] r@[i]@ == self@[i].1,
    {
        let n = self.data.len();
        let mut out: Vec<String> = Vec::new();
        let mut i: usize = 0;
        while i < n
            invariant
                n == self.data@.len(),
                i <= n,
                out@.len() == i,
                forall|k: int| 0 <= k < i ==> #[trigger] out@[k]@ == self@[k].1,
            decreases n - i,
        {
            out.push(self.data[i].1.clone());
            i = i + 1;
        }
        out
    }

    /// The entries, in storage order.
    pub fn iter(&self) -> (r: Vec<(String, String)>)
        ensures
            pairs_view(r@) == self@,
    {
        self.to_map()
    }

    pub fn len(&self) -> (r: usize)
        ensures
            r == self@.len(),
    {
        self.data.len()
    }

    pub fn is_empty(&self) -> (r: bool)
        ensures
            r == (self@.len() == 0),
    {
        self.data.len() == 0
    }

    /// A copy of the entries.
    pub fn to_map(&self) -> (r: Vec<(String, String)>)
        ensures
            pairs_view(r@) == self@,
    {
        let n = self.data.len();
        let mut out: Vec<(String, String)> = Vec::new();
        let mut i: usize = 0;
        while i < n
            invariant
                n == self.data@.len(),
                i <= n,
                out@.len() == i,
                forall|k: int|
                    0 <= k < i ==> #[trigger] out@[k].0@ == self@[k].0 && out@[k].1@ == self@[k].1,
            decreases n - i,
        {
            let p = (self.data[i].0.clone(), self.data[i].1.clone());
            out.push(p);
            i = i + 1;
        }
        assert(pairs_view(out@) =~= self@);
        out
    }
}

impl Default for Metadata {
    fn default() -> (r: Metadata)
        ensures
            r@.len() == 0,
    {
        Metadata::new()
    }
}

} // verus!
