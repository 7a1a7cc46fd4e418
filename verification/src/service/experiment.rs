//! Experiments: the entity, its rules, the errors of the use cases and the
//! store that they are written against.

use crate::handler::{Claims, ClaimsView};
use crate::json::{Json, JsonView};
use crate::text::{decimal, decimal_text};
use std::collections::HashMap;
use vstd::prelude::*;
use vstd::string::StrSliceExecFns;
use vstd::string::StringExecFns;

verus! {

/// A tenant-owned experiment.
///
/// Times are milliseconds since the Unix epoch.
#[derive(Debug, Clone, PartialEq)]
pub struct Experiment {
    /// Absent until the experiment is stored.
    pub id: Option<String>,
    pub name: String,
    pub description: String,
    pub active_interval: Option<Interval>,
    pub variances: Vec<Variance>,
    pub classing: Classing,
    /// Who created the experiment, as the caller's claims described them.
    pub owner: Option<Json>,
    /// The tenant that owns the experiment: the one key that keeps tenants
    /// apart.
    pub tenant_id: String,
    pub created_at: Option<i64>,
    pub updated_at: Option<i64>,
    pub deleted_at: Option<i64>,
}

/// When an experiment is active: from the first time to the second. Either
/// end may be open, and nothing orders the two.
#[derive(Debug, Clone, Copy, PartialEq, Eq)]
pub struct Interval(pub Option<i64>, pub Option<i64>);

/// One arm of an experiment.
#[derive(Debug, Clone, PartialEq)]
pub struct Variance {
    pub group_name: String,
    pub description: String,
    /// The key of what this arm measures or controls.
    pub indicator: String,
    /// The relative share of this arm.
    pub weight: i32,
    /// The configuration of this arm.
    pub values: HashMap<String, Json>,
}

/// How callers are assigned to a variance. Kept as given.
#[derive(Debug, Clone, PartialEq, Eq)]
pub struct Classing {
    pub strategy: String,
    pub persistent_mode: String,
}

/// The mathematical value of a [`Classing`].
pub struct ClassingView {
    pub strategy: Seq<char>,
    pub persistent_mode: Seq<char>,
}

impl View for Classing {
    type V = ClassingView;

    open spec fn view(&self) -> ClassingView {
        ClassingView { strategy: self.strategy@, persistent_mode: self.persistent_mode@ }
    }
}

/// The mathematical value of a [`Variance`]: its texts as sequences of
/// characters, and its values by their names.
pub struct VarianceView {
    pub group_name: Seq<char>,
    pub description: Seq<char>,
    pub indicator: Seq<char>,
    pub weight: i32,
    pub values: Map<Seq<char>, JsonView>,
}

impl View for Variance {
    type V = VarianceView;

    open spec fn view(&self) -> VarianceView {
        VarianceView {
            group_name: self.group_name@,
            description: self.description@,
            indicator: self.indicator@,
            weight: self.weight,
            values: self.values.deep_view(),
        }
    }
}

/// The mathematical values of `variances`, in their order.
pub open spec fn variance_views(variances: Seq<Variance>) -> Seq<VarianceView> {
    Seq::new(variances.len(), |i: int| variances[i]@)
}

/// The mathematical value of an [`Experiment`].
pub struct ExperimentView {
    pub id: Option<Seq<char>>,
    pub name: Seq<char>,
    pub description: Seq<char>,
    pub active_interval: Option<Interval>,
    pub variances: Seq<VarianceView>,
    pub classing: ClassingView,
    pub owner: Option<JsonView>,
    pub tenant_id: Seq<char>,
    pub created_at: Option<i64>,
    pub updated_at: Option<i64>,
    pub deleted_at: Option<i64>,
}

impl View for Experiment {
    type V = ExperimentView;

    open spec fn view(&self) -> ExperimentView {
        ExperimentView {
            id: match self.id {
                Some(id) => Some(id@),
                None => None,
            },
            name: self.name@,
            description: self.description@,
            active_interval: self.active_interval,
            variances: variance_views(self.variances@),
            classing: self.classing@,
            owner: match self.owner {
                Some(owner) => Some(owner@),
                None => None,
            },
            tenant_id: self.tenant_id@,
            created_at: self.created_at,
            updated_at: self.updated_at,
            deleted_at: self.deleted_at,
        }
    }
}

impl Default for Classing {
    /// The classing of which nothing is said.
    fn default() -> (r: Self)
        ensures
            r.strategy@.len() == 0,
            r.persistent_mode@.len() == 0,
    {
        Classing { strategy: String::new(), persistent_mode: String::new() }
    }
}

impl Default for Experiment {
    /// The experiment of which nothing is said: no id, no owner, no times,
    /// no variances, and every text empty.
    fn default() -> (r: Self)
        ensures
            r.id is None,
            r.name@.len() == 0,
            r.description@.len() == 0,
            r.active_interval is None,
            r.variances@.len() == 0,
            r.classing.strategy@.len() == 0,
            r.classing.persistent_mode@.len() == 0,
            r.owner is None,
            r.tenant_id@.len() == 0,
            r.created_at is None,
            r.updated_at is None,
            r.deleted_at is None,
    {
        Experiment {
            id: None,
            name: String::new(),
            description: String::new(),
            active_interval: None,
            variances: Vec::new(),
            classing: Classing::default(),
            owner: None,
            tenant_id: String::new(),
            created_at: None,
            updated_at: None,
            deleted_at: None,
        }
    }
}

/// A rule that an experiment breaks, with the place at which it breaks it.
/// The number is the position of the variance among the experiment's own.
#[derive(Debug, Clone, Copy, PartialEq, Eq, Structural)]
pub enum Violation {
    Name,
    Description,
    VarianceGroupName(usize),
    VarianceDescription(usize),
    VarianceIndicator(usize),
    VarianceWeight(usize),
}

/// The fewest characters of the name of an experiment.
pub const NAME_MIN: usize = 4;

/// The most characters of the name of an experiment.
pub const NAME_MAX: usize = 100;

/// The most characters of a description, of an experiment or a variance.
pub const DESCRIPTION_MAX: usize = 500;

/// The fewest characters of the group name of a variance.
pub const GROUP_NAME_MIN: usize = 1;

/// The most characters of the group name of a variance.
pub const GROUP_NAME_MAX: usize = 100;

/// The fewest characters of the indicator of a variance.
pub const INDICATOR_MIN: usize = 1;

/// The most characters of the indicator of a variance.
pub const INDICATOR_MAX: usize = 64;

/// The least weight of a variance.
pub const WEIGHT_MIN: i32 = 0;

/// The greatest weight of a variance.
pub const WEIGHT_MAX: i32 = 100;

/// Whether `n` characters are a length between `min` and `max`.
pub open spec fn length_within(n: nat, min: usize, max: usize) -> bool {
    min <= n <= max
}

impl Violation {
    /// The field that the rule is about, as a path from the experiment.
    pub open spec fn spec_path(self) -> Seq<char> {
        match self {
            Violation::Name => "name"@,
            Violation::Description => "description"@,
            Violation::VarianceGroupName(i) => "variances["@ + decimal(i as nat) + "].group_name"@,
            Violation::VarianceDescription(i) => "variances["@ + decimal(i as nat)
                + "].description"@,
            Violation::VarianceIndicator(i) => "variances["@ + decimal(i as nat) + "].indicator"@,
            Violation::VarianceWeight(i) => "variances["@ + decimal(i as nat) + "].weight"@,
        }
    }

    /// What the rule asks for.
    pub open spec fn spec_reason(self) -> Seq<char> {
        match self {
            Violation::Name => "must have length between 4 - 100"@,
            Violation::Description => "must have length atmost 500"@,
            Violation::VarianceGroupName(_) => "must have length between 1 - 100"@,
            Violation::VarianceDescription(_) => "must have length atmost 500"@,
            Violation::VarianceIndicator(_) => "must have length between 1 - 64"@,
            Violation::VarianceWeight(_) => "value must bound between 0 - 100"@,
        }
    }

    /// The line that reports the violation: the path, a colon and the reason.
    pub open spec fn spec_line(self) -> Seq<char> {
        self.spec_path() + ": "@ + self.spec_reason()
    }

    fn variance_path(index: usize, field: &str) -> (r: String)
        ensures
            r@ == "variances["@ + decimal(index as nat) + "]."@ + field@,
    {
        let mut r = String::from_str("variances[");
        let number = decimal_text(index);
        r.append(number.as_str());
        r.append("].");
        r.append(field);
        r
    }

    /// The field that the rule is about, as a path from the experiment.
    pub fn path(&self) -> (r: String)
        ensures
            r@ == self.spec_path(),
    {
        proof {
            reveal_strlit("].");
            reveal_strlit("group_name");
            reveal_strlit("description");
            reveal_strlit("indicator");
            reveal_strlit("weight");
            reveal_strlit("].group_name");
            reveal_strlit("].description");
            reveal_strlit("].indicator");
            reveal_strlit("].weight");
        }
        match self {
            Violation::Name => String::from_str("name"),
            Violation::Description => String::from_str("description"),
            Violation::VarianceGroupName(i) => {
                let r = Self::variance_path(*i, "group_name");
                assert("]."@ + "group_name"@ =~= "].group_name"@);
                assert(r@ =~= self.spec_path());
                r
            },
            Violation::VarianceDescription(i) => {
                let r = Self::variance_path(*i, "description");
                assert("]."@ + "description"@ =~= "].description"@);
                assert(r@ =~= self.spec_path());
                r
            },
            Violation::VarianceIndicator(i) => {
                let r = Self::variance_path(*i, "indicator");
                assert("]."@ + "indicator"@ =~= "].indicator"@);
                assert(r@ =~= self.spec_path());
                r
            },
            Violation::VarianceWeight(i) => {
                let r = Self::variance_path(*i, "weight");
                assert("]."@ + "weight"@ =~= "].weight"@);
                assert(r@ =~= self.spec_path());
                r
            },
        }
    }

    /// What the rule asks for.
    pub fn reason(&self) -> (r: &'static str)
        ensures
            r@ == self.spec_reason(),
    {
        match self {
            Violation::Name => "must have length between 4 - 100",
            Violation::Description => "must have length atmost 500",
            Violation::VarianceGroupName(_) => "must have length between 1 - 100",
            Violation::VarianceDescription(_) => "must have length atmost 500",
            Violation::VarianceIndicator(_) => "must have length between 1 - 64",
            Violation::VarianceWeight(_) => "value must bound between 0 - 100",
        }
    }

    /// The line that reports the violation.
    pub fn line(&self) -> (r: String)
        ensures
            r@ == self.spec_line(),
    {
        let mut r = self.path();
        r.append(": ");
        r.append(self.reason());
        r
    }
}

/// The report of `violations`: their lines in order, one line each.
pub open spec fn report(violations: Seq<Violation>) -> Seq<char>
    decreases violations.len(),
{
    if violations.len() == 0 {
        Seq::empty()
    } else if violations.len() == 1 {
        violations[0].spec_line()
    } else {
        report(violations.drop_last()) + "\n"@ + violations.last().spec_line()
    }
}

/// The report of `violations`: their lines in order, one line each.
pub fn report_text(violations: &Vec<Violation>) -> (r: String)
    ensures
        r@ == report(violations@),
{
    let mut r = String::new();
    let mut i: usize = 0;
    while i < violations.len()
        invariant
            i <= violations.len(),
            r@ == report(violations@.subrange(0, i as int)),
        decreases violations.len() - i,
    {
        let ghost before = violations@.subrange(0, i as int);
        let ghost after = violations@.subrange(0, i + 1);
        assert(after.drop_last() =~= before);
        assert(after.last() == violations@[i as int]);
        let line = violations[i].line();
        if i > 0 {
            r.append("\n");
        }
        r.append(line.as_str());
        assert(r@ =~= report(after));
        i += 1;
    }
    assert(violations@.subrange(0, i as int) =~= violations@);
    r
}

impl VarianceView {
    /// Whether every rule on a variance holds of this one: a group name of
    /// 1 to 100 characters, a description of at most 500, an indicator of 1
    /// to 64 and a weight from 0 to 100.
    pub open spec fn valid(self) -> bool {
        &&& length_within(self.group_name.len(), GROUP_NAME_MIN, GROUP_NAME_MAX)
        &&& length_within(self.description.len(), 0, DESCRIPTION_MAX)
        &&& length_within(self.indicator.len(), INDICATOR_MIN, INDICATOR_MAX)
        &&& WEIGHT_MIN <= self.weight <= WEIGHT_MAX
    }

    /// The rules that this variance breaks, as the variance at `index`: in the
    /// order group name, description, indicator, weight.
    pub open spec fn violations_at(self, index: usize) -> Seq<Violation> {
        (if length_within(self.group_name.len(), GROUP_NAME_MIN, GROUP_NAME_MAX) {
            Seq::<Violation>::empty()
        } else {
            seq![Violation::VarianceGroupName(index)]
        }) + (if length_within(self.description.len(), 0, DESCRIPTION_MAX) {
            Seq::<Violation>::empty()
        } else {
            seq![Violation::VarianceDescription(index)]
        }) + (if length_within(self.indicator.len(), INDICATOR_MIN, INDICATOR_MAX) {
            Seq::<Violation>::empty()
        } else {
            seq![Violation::VarianceIndicator(index)]
        }) + (if WEIGHT_MIN <= self.weight <= WEIGHT_MAX {
            Seq::<Violation>::empty()
        } else {
            seq![Violation::VarianceWeight(index)]
        })
    }
}

impl Variance {
    /// The rules that this variance breaks, as the variance at `index`.
    pub fn check_at(&self, index: usize) -> (r: Vec<Violation>)
        ensures
            r@ == self@.violations_at(index),
    {
        let mut found: Vec<Violation> = Vec::new();
        if !length_is_within(self.group_name.as_str(), GROUP_NAME_MIN, GROUP_NAME_MAX) {
            found.push(Violation::VarianceGroupName(index));
        }
        if !length_is_within(self.description.as_str(), 0, DESCRIPTION_MAX) {
            found.push(Violation::VarianceDescription(index));
        }
        if !length_is_within(self.indicator.as_str(), INDICATOR_MIN, INDICATOR_MAX) {
            found.push(Violation::VarianceIndicator(index));
        }
        if !(WEIGHT_MIN <= self.weight && self.weight <= WEIGHT_MAX) {
            found.push(Violation::VarianceWeight(index));
        }
        assert(found@ =~= self@.violations_at(index));
        found
    }
}

/// The rules that the first `n` of `variances` break, variance by variance.
pub open spec fn variance_violations(variances: Seq<VarianceView>, n: nat) -> Seq<Violation>
    decreases n,
{
    if n == 0 {
        Seq::empty()
    } else {
        variance_violations(variances, (n - 1) as nat) + variances[n - 1].violations_at(
            (n - 1) as usize,
        )
    }
}

/// Whether every rule holds of an experiment with this name, description
/// and variances: the name has 4 to 100 characters, the description at most
/// 500, and each variance a group name of 1 to 100 characters, a
/// description of at most 500, an indicator of 1 to 64 and a weight from 0
/// to 100.
pub open spec fn rules_hold(name: Seq<char>, description: Seq<char>, variances: Seq<VarianceView>)
    -> bool {
    &&& length_within(name.len(), NAME_MIN, NAME_MAX)
    &&& length_within(description.len(), 0, DESCRIPTION_MAX)
    &&& forall|i: int| 0 <= i < variances.len() ==> (#[trigger] variances[i]).valid()
}

/// Every rule that an experiment with this name, description and variances
/// breaks: first of the name, then of the description, then of the
/// variances in their order.
pub open spec fn rules_broken(name: Seq<char>, description: Seq<char>, variances: Seq<VarianceView>)
    -> Seq<Violation> {
    (if length_within(name.len(), NAME_MIN, NAME_MAX) {
        Seq::<Violation>::empty()
    } else {
        seq![Violation::Name]
    }) + (if length_within(description.len(), 0, DESCRIPTION_MAX) {
        Seq::<Violation>::empty()
    } else {
        seq![Violation::Description]
    }) + variance_violations(variances, variances.len())
}

fn length_is_within(s: &str, min: usize, max: usize) -> (r: bool)
    ensures
        r == length_within(s@.len(), min, max),
{
    let n = s.unicode_len();
    min <= n && n <= max
}

impl ExperimentView {
    /// Whether every rule holds of the experiment.
    pub open spec fn valid(self) -> bool {
        rules_hold(self.name, self.description, self.variances)
    }

    /// Every rule that the experiment breaks: first its name, then its
    /// description, then its variances in their order.
    pub open spec fn violations(self) -> Seq<Violation> {
        rules_broken(self.name, self.description, self.variances)
    }
}

impl Experiment {
    /// Whether every rule holds of the experiment.
    pub open spec fn valid(&self) -> bool {
        self@.valid()
    }

    /// Every rule that the experiment breaks: first its name, then its
    /// description, then its variances in their order.
    pub open spec fn violations(&self) -> Seq<Violation> {
        self@.violations()
    }

    /// An experiment breaks no rule exactly when it is valid.
    pub proof fn lemma_no_violation_iff_valid(&self)
        ensures
            self.violations().len() == 0 <==> self.valid(),
    {
        Self::lemma_variance_violations(self@.variances, self@.variances.len());
    }

    /// The first `n` variances break no rule exactly when each of them is
    /// valid.
    pub proof fn lemma_variance_violations(variances: Seq<VarianceView>, n: nat)
        requires
            n <= variances.len(),
        ensures
            variance_violations(variances, n).len() == 0 <==> forall|i: int|
                0 <= i < n ==> (#[trigger] variances[i]).valid(),
        decreases n,
    {
        if n > 0 {
            Self::lemma_variance_violations(variances, (n - 1) as nat);
            if variance_violations(variances, n).len() == 0 {
                assert(variances[n - 1].violations_at((n - 1) as usize).len() == 0);
                assert forall|i: int| 0 <= i < n implies (#[trigger] variances[i]).valid() by {
                    if i == n - 1 {
                    }
                }
            }
            if forall|i: int| 0 <= i < n ==> (#[trigger] variances[i]).valid() {
                assert(variances[n - 1].valid());
            }
        }
    }

    /// Every rule that the experiment breaks. Checking goes on after a rule
    /// is found broken, so that one answer names them all.
    pub fn check(&self) -> (r: Vec<Violation>)
        ensures
            r@ == self.violations(),
    {
        let mut found: Vec<Violation> = Vec::new();
        if !length_is_within(self.name.as_str(), NAME_MIN, NAME_MAX) {
            found.push(Violation::Name);
        }
        if !length_is_within(self.description.as_str(), 0, DESCRIPTION_MAX) {
            found.push(Violation::Description);
        }
        let ghost head = found@;
        let mut i: usize = 0;
        while i < self.variances.len()
            invariant
                i <= self.variances.len(),
                found@ == head + variance_violations(self@.variances, i as nat),
            decreases self.variances.len() - i,
        {
            let mut more = self.variances[i].check_at(i);
            found.append(&mut more);
            assert(self@.variances[i as int] == self.variances@[i as int]@);
            assert(variance_violations(self@.variances, (i + 1) as nat) == variance_violations(
                self@.variances,
                i as nat,
            ) + self@.variances[i as int].violations_at(i));
            assert(found@ =~= head + variance_violations(self@.variances, (i + 1) as nat));
            i += 1;
        }
        assert(found@ =~= self.violations());
        found
    }

    /// Checks every rule. A valid experiment passes; any other fails with one
    /// error whose message reports every rule that it breaks.
    pub fn validate(&self) -> (r: Result<(), UserError>)
        ensures
            r is Ok <==> self.valid(),
            r matches Err(e) ==> e == (UserError::ValidationError { message: e->message })
                && e->message@ == report(self.violations()),
    {
        let found = self.check();
        proof {
            self.lemma_no_violation_iff_valid();
        }
        if found.len() == 0 {
            Ok(())
        } else {
            Err(UserError::ValidationError { message: report_text(&found) })
        }
    }
}

/// What a caller did wrong.
#[derive(Debug, Clone, PartialEq, Eq)]
pub enum UserError {
    ValidationError { message: String },
}

impl UserError {
    /// The name of the kind of error, as answers carry it.
    pub fn code(&self) -> (r: String)
        ensures
            r@ == "validation_error"@,
    {
        match self {
            UserError::ValidationError { message: _ } => String::from_str("validation_error"),
        }
    }

    /// What went wrong, in words.
    pub fn message(&self) -> (r: String)
        ensures
            r@ == self->message@,
    {
        match self {
            UserError::ValidationError { message } => message.clone(),
        }
    }
}

/// Why the store did not do what it was asked to do.
#[derive(Debug, Clone, PartialEq, Eq)]
pub enum StoreError {
    /// The store itself failed.
    InternalError { message: String },
    /// Nothing is stored under the id.
    DocumentNotfound,
    /// The id is not one that the store could have given.
    InvalidInput { message: String },
    /// What is stored under the id belongs to another tenant.
    UnauthorizedAccess,
}

impl StoreError {
    /// The name of the kind of error, as answers carry it.
    pub open spec fn spec_code(&self) -> Seq<char> {
        match self {
            StoreError::InternalError { .. } => "internal_error"@,
            StoreError::DocumentNotfound => "document_notfound"@,
            StoreError::InvalidInput { .. } => "invalid_input"@,
            StoreError::UnauthorizedAccess => "unauthorized_access"@,
        }
    }

    /// What went wrong, in words.
    pub open spec fn spec_message(&self) -> Seq<char> {
        match self {
            StoreError::InternalError { message } => message@,
            StoreError::DocumentNotfound => "document not found"@,
            StoreError::InvalidInput { message } => message@,
            StoreError::UnauthorizedAccess => "unauthorized access"@,
        }
    }

    /// The name of the kind of error, as answers carry it.
    pub fn code(&self) -> (r: String)
        ensures
            r@ == self.spec_code(),
    {
        match self {
            StoreError::InternalError { message: _ } => String::from_str("internal_error"),
            StoreError::DocumentNotfound => String::from_str("document_notfound"),
            StoreError::InvalidInput { message: _ } => String::from_str("invalid_input"),
            StoreError::UnauthorizedAccess => String::from_str("unauthorized_access"),
        }
    }

    /// What went wrong, in words.
    pub fn message(&self) -> (r: String)
        ensures
            r@ == self.spec_message(),
    {
        match self {
            StoreError::InternalError { message } => message.clone(),
            StoreError::DocumentNotfound => String::from_str("document not found"),
            StoreError::InvalidInput { message } => message.clone(),
            StoreError::UnauthorizedAccess => String::from_str("unauthorized access"),
        }
    }
}

/// Why a use case failed: for what the caller did, or for what the store
/// did.
#[derive(Debug, Clone, PartialEq, Eq)]
pub enum ServiceError {
    User(UserError),
    Store(StoreError),
}

/// Whether a save has left of `before` all but its id and the times of its
/// creation and last change, and kept a time of creation that it had.
pub open spec fn kept_by_save(before: ExperimentView, after: ExperimentView) -> bool {
    &&& after.name == before.name
    &&& after.description == before.description
    &&& after.active_interval == before.active_interval
    &&& after.variances == before.variances
    &&& after.classing == before.classing
    &&& after.owner == before.owner
    &&& after.tenant_id == before.tenant_id
    &&& after.deleted_at == before.deleted_at
    &&& before.created_at is Some ==> after.created_at == before.created_at
}

/// Where experiments are kept. Every operation is for one tenant, and none
/// returns or changes what belongs to another.
pub trait Store {
    /// Stores `data` and returns the id that it is stored under. The
    /// experiment then has that id and the times of its creation and last
    /// change. Nothing else of it changes, whether it was stored or not.
    fn save(&self, data: &mut Experiment) -> (r: Result<String, StoreError>)
        ensures
            kept_by_save(old(data)@, final(data)@),
            r matches Ok(id) ==> {
                &&& id@.len() > 0
                &&& final(data)@.id == Some(id@)
                &&& final(data)@.created_at is Some
                &&& final(data)@.updated_at is Some
            },
    ;

    /// The experiment stored under `id`, if it belongs to `tenant_id`.
    fn get(&self, id: &str, tenant_id: &str) -> (r: Result<Experiment, StoreError>)
        ensures
            r matches Ok(found) ==> found.tenant_id@ == tenant_id@,
    ;

    /// The experiments of `tenant_id` after the first `offset` of them,
    /// `limit` at most.
    fn list(&self, tenant_id: &str, offset: usize, limit: usize) -> (r: Result<
        Vec<Experiment>,
        StoreError,
    >)
        ensures
            r matches Ok(found) ==> found@.len() <= limit && forall|i: int|
                0 <= i < found@.len() ==> (#[trigger] found@[i]).tenant_id@ == tenant_id@,
    ;

    /// Removes the experiment stored under `id`, if it belongs to
    /// `tenant_id`.
    fn delete(&self, id: &str, tenant_id: &str) -> (r: Result<(), StoreError>);
}

/// The experiment `data` as the caller with the claims `claims` creates it:
/// theirs, and of their tenant, whatever `data` said of either.
pub open spec fn stamped_for(data: ExperimentView, claims: ClaimsView) -> ExperimentView {
    ExperimentView { owner: Some(claims.owner()), tenant_id: claims.tenant_id, ..data }
}

/// The experiment `data` as the caller with the claims `claims` creates it:
/// the owner and the tenant are the caller's, and nothing else changes.
pub fn stamp_for(data: Experiment, claims: &Claims) -> (r: Experiment)
    ensures
        r@ == stamped_for(data@, claims@),
{
    let mut data = data;
    data.owner = Some(claims.owner());
    data.tenant_id = claims.tenant_id.clone();
    data
}

/// What creating returns once the store has answered the save with
/// `saved`: the experiment with the id that the store gave, or the failure
/// of the store as a failure of its own kind.
pub open spec fn created(data: Experiment, saved: Result<String, StoreError>) -> Result<
    Experiment,
    ServiceError,
> {
    match saved {
        Ok(id) => Ok(Experiment { id: Some(id), ..data }),
        Err(e) => Err(ServiceError::Store(e)),
    }
}

/// The last step of creating: what it returns once the store has answered
/// the save of `data` with `saved`.
pub fn conclude_create(data: Experiment, saved: Result<String, StoreError>) -> (r: Result<
    Experiment,
    ServiceError,
>)
    ensures
        r == created(data, saved),
{
    match saved {
        Ok(id) => {
            let mut data = data;
            data.id = Some(id);
            Ok(data)
        },
        Err(e) => Err(ServiceError::Store(e)),
    }
}

/// Creates an experiment for the caller with the claims `claims`.
///
/// An experiment that breaks a rule is not stored: creating fails with a
/// validation error that reports every rule it breaks. A valid one is
/// stored as the caller's own and of the caller's tenant, whatever `data`
/// itself says of its owner and tenant. Where the store takes it, the
/// experiment comes back with its id and its times, and otherwise as it
/// was given; where the store fails, so does creating, with the failure of
/// the store.
pub fn create<S: Store>(store: &S, data: Experiment, claims: &Claims) -> (r: Result<
    Experiment,
    ServiceError,
>)
    ensures
        !data.valid() ==> (r matches Err(ServiceError::User(UserError::ValidationError { message }))
            && message@ == report(data.violations())),
        data.valid() ==> exists|m: &mut Experiment, saved: Result<String, StoreError>|
            {
                &&& mut_ref_current(m)@ == stamped_for(data@, claims@)
                &&& call_ensures(S::save, (store, m), saved)
                &&& r == created(mut_ref_future(m), saved)
            },
        data.valid() ==> match r {
            Ok(made) => {
                &&& made@ == (ExperimentView {
                    id: made@.id,
                    owner: Some(claims@.owner()),
                    tenant_id: claims@.tenant_id,
                    created_at: made@.created_at,
                    updated_at: made@.updated_at,
                    ..data@
                })
                &&& (made@.id matches Some(id) && id.len() > 0)
                &&& made@.created_at is Some
                &&& made@.updated_at is Some
                &&& data@.created_at is Some ==> made@.created_at == data@.created_at
            },
            Err(e) => e is Store,
        },
{
    match data.validate() {
        Err(e) => Err(ServiceError::User(e)),
        Ok(()) => {
            let mut data = stamp_for(data, claims);
            let saved = store.save(&mut data);
            conclude_create(data, saved)
        },
    }
}

/// The experiment stored under `id`, for the tenant `tenant_id`: what the
/// store returns, a failure of the store as a failure of its own kind. The
/// store keeps the tenants apart, so what comes back is the tenant's own.
pub fn get<S: Store>(store: &S, id: &str, tenant_id: &str) -> (r: Result<Experiment, ServiceError>)
    ensures
        exists|answer: Result<Experiment, StoreError>|
            call_ensures(S::get, (store, id, tenant_id), answer) && r == match answer {
                Ok(found) => Ok::<Experiment, ServiceError>(found),
                Err(e) => Err::<Experiment, ServiceError>(ServiceError::Store(e)),
            },
        match r {
            Ok(found) => found.tenant_id@ == tenant_id@,
            Err(e) => e is Store,
        },
{
    match store.get(id, tenant_id) {
        Ok(found) => Ok(found),
        Err(e) => Err(ServiceError::Store(e)),
    }
}

/// Where the page `page` begins when pages hold `limit` each: after
/// `(page - 1) * limit` experiments. Pages count from one, and a page
/// before the first is the first; a beginning too far to be counted is the
/// farthest that can be.
pub open spec fn page_offset(page: usize, limit: usize) -> usize {
    if page <= 1 {
        0
    } else if (page - 1) * limit > usize::MAX {
        usize::MAX
    } else {
        ((page - 1) * limit) as usize
    }
}

/// Where the page `page` begins when pages hold `limit` each.
pub fn offset_of_page(page: usize, limit: usize) -> (r: usize)
    ensures
        r == page_offset(page, limit),
{
    if page <= 1 {
        0
    } else {
        match (page - 1).checked_mul(limit) {
            Some(offset) => offset,
            None => usize::MAX,
        }
    }
}

/// The page `page` of the experiments of the tenant `tenant_id`, `limit`
/// to a page: what the store returns from where the page begins, a failure
/// of the store as a failure of its own kind. What comes back is the
/// tenant's own, and no more than `limit`.
pub fn list<S: Store>(store: &S, tenant_id: &str, page: usize, limit: usize) -> (r: Result<
    Vec<Experiment>,
    ServiceError,
>)
    ensures
        exists|answer: Result<Vec<Experiment>, StoreError>|
            call_ensures(S::list, (store, tenant_id, page_offset(page, limit), limit), answer) && r
                == match answer {
                Ok(found) => Ok::<Vec<Experiment>, ServiceError>(found),
                Err(e) => Err::<Vec<Experiment>, ServiceError>(ServiceError::Store(e)),
            },
        match r {
            Ok(found) => found@.len() <= limit && forall|i: int|
                0 <= i < found@.len() ==> (#[trigger] found@[i]).tenant_id@ == tenant_id@,
            Err(e) => e is Store,
        },
{
    match store.list(tenant_id, offset_of_page(page, limit), limit) {
        Ok(found) => Ok(found),
        Err(e) => Err(ServiceError::Store(e)),
    }
}

/// Removes the experiment stored under `id`, for the tenant `tenant_id`:
/// what the store returns, a failure of the store as a failure of its own
/// kind.
pub fn delete<S: Store>(store: &S, id: &str, tenant_id: &str) -> (r: Result<(), ServiceError>)
    ensures
        exists|answer: Result<(), StoreError>|
            call_ensures(S::delete, (store, id, tenant_id), answer) && r == match answer {
                Ok(_) => Ok::<(), ServiceError>(()),
                Err(e) => Err::<(), ServiceError>(ServiceError::Store(e)),
            },
{
    match store.delete(id, tenant_id) {
        Ok(()) => Ok(()),
        Err(e) => Err(ServiceError::Store(e)),
    }
}

} // verus!
