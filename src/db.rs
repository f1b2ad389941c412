//! The database error taxonomy: every driver failure becomes exactly one `Error`.
use vstd::prelude::*;

use sqlx::error::ErrorKind;
use sqlx::Error as DriverError;

verus! {

#[verifier::external_type_specification]
#[verifier::external_body]
pub struct ExDriverError(DriverError);

#[verifier::external_type_specification]
#[verifier::external_body]
pub struct ExMigrateError(sqlx::migrate::MigrateError);

#[verifier::external_type_specification]
#[verifier::external_body]
pub struct ExReport(color_eyre::Report);

/// The constraint code a database server attached to a failure.
#[derive(Debug, Clone, Copy, PartialEq, Eq, Structural)]
pub enum ViolationKind {
    Unique,
    ForeignKey,
    NotNull,
    Check,
    /// Any code outside the four above.
    Other,
}

/// What a driver failure is about, as far as the taxonomy cares.
#[derive(Debug, Clone, Copy, PartialEq, Eq, Structural)]
pub enum FailureKind {
    /// The server reported a failure with the given constraint code.
    Database(ViolationKind),
    /// A query matched zero rows where exactly one was expected.
    RowNotFound,
    /// The failure was raised while migrations ran.
    Migration,
    /// Connectivity, protocol, timeouts, pool exhaustion and the rest.
    Other,
}

/// The closed set of semantic error kinds.
#[derive(Debug)]
pub enum Error {
    UniqueViolation,
    ForeignKeyViolation,
    NotNullViolation,
    CheckViolation,
    RowNotFound,
    MigrateError,
    /// Anything else, with the full diagnostic report.
    Unknown(color_eyre::Report),
}

/// The semantic error a failure kind names, or `None` where it names none.
pub open spec fn semantic_of(kind: FailureKind) -> Option<Error> {
    match kind {
        FailureKind::Database(ViolationKind::Unique) => Some(Error::UniqueViolation),
        FailureKind::Database(ViolationKind::ForeignKey) => Some(Error::ForeignKeyViolation),
        FailureKind::Database(ViolationKind::NotNull) => Some(Error::NotNullViolation),
        FailureKind::Database(ViolationKind::Check) => Some(Error::CheckViolation),
        FailureKind::Database(ViolationKind::Other) => None,
        FailureKind::RowNotFound => Some(Error::RowNotFound),
        FailureKind::Migration => Some(Error::MigrateError),
        FailureKind::Other => None,
    }
}

/// The error a failure of the given kind is classified as, with its diagnostic report.
pub open spec fn classified(kind: FailureKind, report: color_eyre::Report) -> Error {
    match semantic_of(kind) {
        Some(e) => e,
        None => Error::Unknown(report),
    }
}

/// Whether `r` is a classification that a failure of kind `kind` can receive.
pub open spec fn fits(kind: FailureKind, r: Error) -> bool {
    match semantic_of(kind) {
        Some(e) => r == e,
        None => r is Unknown,
    }
}

/// The semantic error a failure kind names, or `None` where the failure stays unclassified.
pub fn semantic_error(kind: FailureKind) -> (r: Option<Error>)
    ensures
        r == semantic_of(kind),
{
    match kind {
        FailureKind::Database(v) => match v {
            ViolationKind::Unique => Some(Error::UniqueViolation),
            ViolationKind::ForeignKey => Some(Error::ForeignKeyViolation),
            ViolationKind::NotNull => Some(Error::NotNullViolation),
            ViolationKind::Check => Some(Error::CheckViolation),
            ViolationKind::Other => None,
        },
        FailureKind::RowNotFound => Some(Error::RowNotFound),
        FailureKind::Migration => Some(Error::MigrateError),
        FailureKind::Other => None,
    }
}

/// Classifies a failure of the given kind; an unclassified one keeps `report` as it is.
pub fn classify(kind: FailureKind, report: color_eyre::Report) -> (r: Error)
    ensures
        r == classified(kind, report),
{
    match semantic_error(kind) {
        Some(e) => e,
        None => Error::Unknown(report),
    }
}

/// The kind the driver reports for a failure: it depends on the failure alone.
pub uninterp spec fn driver_kind_of(e: DriverError) -> FailureKind;

/// Relies on the variants of `sqlx::Error` and on `DatabaseError::kind`: reads what the
/// driver says the failure is about.
#[verifier::external_body]
fn driver_failure_kind(e: &DriverError) -> (k: FailureKind)
    ensures
        k == driver_kind_of(*e),
{
    match e {
        DriverError::Database(d) => FailureKind::Database(match d.kind() {
            ErrorKind::UniqueViolation => ViolationKind::Unique,
            ErrorKind::ForeignKeyViolation => ViolationKind::ForeignKey,
            ErrorKind::NotNullViolation => ViolationKind::NotNull,
            ErrorKind::CheckViolation => ViolationKind::Check,
            _ => ViolationKind::Other,
        }),
        DriverError::RowNotFound => FailureKind::RowNotFound,
        DriverError::Migrate(_) => FailureKind::Migration,
        _ => FailureKind::Other,
    }
}

/// Relies on eyre's `From<E: std::error::Error>` for `Report`: wraps the driver failure,
/// keeping its message and its chain of sources.
#[verifier::external_body]
fn driver_report(e: DriverError) -> (r: color_eyre::Report) {
    color_eyre::Report::from(e)
}

/// Classifies a failure raised by the database driver, given the kind the driver reports
/// for it; an unclassified failure is wrapped whole into the report of `Unknown`.
pub fn classify_driver_error(kind: FailureKind, e: DriverError) -> (r: Error)
    ensures
        semantic_of(kind) is Some ==> r == semantic_of(kind)->Some_0,
        semantic_of(kind) is None ==> r is Unknown,
{
    match semantic_error(kind) {
        Some(c) => c,
        None => classify(kind, driver_report(e)),
    }
}

impl From<DriverError> for Error {
    /// Classifies by the kind the driver reports.
    fn from(value: DriverError) -> (r: Error)
        ensures
            fits(driver_kind_of(value), r),
    {
        let kind = driver_failure_kind(&value);
        classify_driver_error(kind, value)
    }
}

/// What the driver reports is read at run time only, so no spec function gives the result.
impl vstd::std_specs::convert::FromSpecImpl<DriverError> for Error {
    open spec fn obeys_from_spec() -> bool {
        false
    }

    open spec fn from_spec(v: DriverError) -> Error {
        Error::RowNotFound
    }
}

impl From<sqlx::migrate::MigrateError> for Error {
    fn from(value: sqlx::migrate::MigrateError) -> (r: Error)
        ensures
            r == Error::MigrateError,
    {
        Error::MigrateError
    }
}

impl vstd::std_specs::convert::FromSpecImpl<sqlx::migrate::MigrateError> for Error {
    open spec fn obeys_from_spec() -> bool {
        true
    }

    open spec fn from_spec(v: sqlx::migrate::MigrateError) -> Error {
        Error::MigrateError
    }
}

impl From<color_eyre::Report> for Error {
    fn from(value: color_eyre::Report) -> (r: Error)
        ensures
            r == Error::Unknown(value),
    {
        Error::Unknown(value)
    }
}

impl vstd::std_specs::convert::FromSpecImpl<color_eyre::Report> for Error {
    open spec fn obeys_from_spec() -> bool {
        true
    }

    open spec fn from_spec(v: color_eyre::Report) -> Error {
        Error::Unknown(v)
    }
}

/// Converts `a` into `T` through the intermediate type `C`, composing the two conversions
/// that already exist instead of writing a third.
pub fn convert_via<A, C: From<A>, T: From<C>>(a: A) -> (r: T)
    ensures
        exists|c: C| call_ensures(C::from, (a,), c) && #[trigger] call_ensures(T::from, (c,), r),
{
    let c = C::from(a);
    T::from(c)
}

/// The outcome of opening the pool: the pool, which still has to be migrated, or the
/// classified failure.
pub fn pool_opened<P>(opened: Result<P, DriverError>) -> (r: Result<P, Error>)
    ensures
        opened is Ok <==> r is Ok,
        opened is Ok ==> r == Ok::<P, Error>(opened->Ok_0),
        opened is Err ==> fits(driver_kind_of(opened->Err_0), r->Err_0),
{
    match opened {
        Ok(pool) => Ok(pool),
        Err(e) => Err(Error::from(e)),
    }
}

/// The outcome of running the migrations on an opened pool: the pool, now ready for use,
/// or `MigrateError` whatever made the migrations fail.
pub fn pool_migrated<P>(pool: P, migrated: Result<(), sqlx::migrate::MigrateError>) -> (r: Result<
    P,
    Error,
>)
    ensures
        migrated is Ok ==> r == Ok::<P, Error>(pool),
        migrated is Err ==> r == Err::<P, Error>(Error::MigrateError),
{
    match migrated {
        Ok(()) => Ok(pool),
        Err(e) => Err(Error::from(e)),
    }
}

/// A failure that carries one of the four constraint codes is classified as the matching
/// violation, never as `Unknown`.
pub proof fn lemma_constraint_codes(report: color_eyre::Report)
    ensures
        classified(FailureKind::Database(ViolationKind::Unique), report) == Error::UniqueViolation,
        classified(FailureKind::Database(ViolationKind::ForeignKey), report)
            == Error::ForeignKeyViolation,
        classified(FailureKind::Database(ViolationKind::NotNull), report)
            == Error::NotNullViolation,
        classified(FailureKind::Database(ViolationKind::Check), report) == Error::CheckViolation,
        forall|v: ViolationKind|
            v != ViolationKind::Other ==> !(#[trigger] classified(FailureKind::Database(v), report)
                is Unknown),
{
}

/// A query that matched no row where one was expected is classified as `RowNotFound`.
pub proof fn lemma_row_not_found(report: color_eyre::Report)
    ensures
        classified(FailureKind::RowNotFound, report) == Error::RowNotFound,
{
}

/// A failure raised while migrations ran is classified as `MigrateError`, whatever its cause.
pub proof fn lemma_migration_failures(report: color_eyre::Report)
    ensures
        classified(FailureKind::Migration, report) == Error::MigrateError,
        forall|m: sqlx::migrate::MigrateError|
            #[trigger] <Error as vstd::std_specs::convert::FromSpec<
                sqlx::migrate::MigrateError,
            >>::from_spec(m) == Error::MigrateError,
{
}

/// A failure that matches no known condition is classified as `Unknown`, and the report it
/// carries is the one handed in, so no diagnostic is lost.
pub proof fn lemma_unclassified_keeps_report(kind: FailureKind, report: color_eyre::Report)
    requires
        semantic_of(kind) is None,
    ensures
        classified(kind, report) == Error::Unknown(report),
{
}

/// Every failure kind has exactly one classification.
pub proof fn lemma_classification_total(kind: FailureKind, report: color_eyre::Report)
    ensures
        fits(kind, classified(kind, report)),
        forall|r: Error| #[trigger] fits(kind, r) && !(r is Unknown) ==> r == classified(kind, report),
{
}

} // verus!
