//! The service builder, the immutable service, and the two verified halves
//! of a dispatch.
//!
//! The facade is polymorphic over its five collaborators: `S` is the
//! mandatory operation dispatcher, and `H`, `A`, `C`, `R` are the four
//! optional middleware roles (host resolver, authenticator, access
//! controller, router). The facade never inspects them; it only stores
//! them and threads references to them through the execution context.

use crate::clock::{elapsed, now};
use std::time::Instant;
use vstd::prelude::*;

verus! {

/// Mutable, single-use configuration: collects the mandatory dispatcher
/// and zero or more optional roles, then is consumed, once, by [`Self::build`].
pub struct S3ServiceBuilder<S, H, A, C, R> {
    pub s3: S,
    pub host: Option<H>,
    pub auth: Option<A>,
    pub access: Option<C>,
    pub route: Option<R>,
}

impl<S, H, A, C, R> S3ServiceBuilder<S, H, A, C, R> {
    /// The builder as it stands after `set_host(host)`.
    pub open spec fn with_host(self, host: H) -> Self {
        S3ServiceBuilder { s3: self.s3, host: Some(host), auth: self.auth, access: self.access, route: self.route }
    }

    /// The builder as it stands after `set_auth(auth)`.
    pub open spec fn with_auth(self, auth: A) -> Self {
        S3ServiceBuilder { s3: self.s3, host: self.host, auth: Some(auth), access: self.access, route: self.route }
    }

    /// The builder as it stands after `set_access(access)`.
    pub open spec fn with_access(self, access: C) -> Self {
        S3ServiceBuilder { s3: self.s3, host: self.host, auth: self.auth, access: Some(access), route: self.route }
    }

    /// The builder as it stands after `set_route(route)`.
    pub open spec fn with_route(self, route: R) -> Self {
        S3ServiceBuilder { s3: self.s3, host: self.host, auth: self.auth, access: self.access, route: Some(route) }
    }

    /// The component set the builder would produce if built as it stands.
    pub open spec fn spec_build(self) -> S3Service<S, H, A, C, R> {
        S3Service { s3: self.s3, host: self.host, auth: self.auth, access: self.access, route: self.route }
    }

    /// A fresh builder: the mandatory dispatcher is set, all four optional
    /// roles are unset.
    pub fn new(s3: S) -> (b: Self)
        ensures
            b.s3 == s3,
            b.host is None,
            b.auth is None,
            b.access is None,
            b.route is None,
    {
        Self { s3, host: None, auth: None, access: None, route: None }
    }

    /// Stores a host resolver, overwriting any prior value for that role;
    /// the other slots are untouched. Total: no error condition.
    pub fn set_host(&mut self, host: H)
        ensures
            *final(self) == (*old(self)).with_host(host),
    {
        self.host = Some(host);
    }

    /// Stores an authenticator, overwriting any prior value for that role;
    /// the other slots are untouched. Total: no error condition.
    pub fn set_auth(&mut self, auth: A)
        ensures
            *final(self) == (*old(self)).with_auth(auth),
    {
        self.auth = Some(auth);
    }

    /// Stores an access controller, overwriting any prior value for that
    /// role; the other slots are untouched. Total: no error condition.
    pub fn set_access(&mut self, access: C)
        ensures
            *final(self) == (*old(self)).with_access(access),
    {
        self.access = Some(access);
    }

    /// Stores a router, overwriting any prior value for that role; the
    /// other slots are untouched. Total: no error condition.
    pub fn set_route(&mut self, route: R)
        ensures
            *final(self) == (*old(self)).with_route(route),
    {
        self.route = Some(route);
    }

    /// Consumes the builder and produces the immutable service holding
    /// exactly the collected component set. Cannot fail; the builder is
    /// gone afterwards, so the service can never be rebuilt or mutated.
    pub fn build(self) -> (s: S3Service<S, H, A, C, R>)
        ensures
            s == self.spec_build(),
    {
        S3Service { s3: self.s3, host: self.host, auth: self.auth, access: self.access, route: self.route }
    }
}

/// Setters for distinct roles commute: for any builder, setting two
/// different roles in either order leaves the same builder, and hence the
/// same component set once built.
pub proof fn lemma_distinct_role_setters_commute<S, H, A, C, R>(
    b: S3ServiceBuilder<S, H, A, C, R>,
    host: H,
    auth: A,
    access: C,
    route: R,
)
    ensures
        b.with_host(host).with_auth(auth) == b.with_auth(auth).with_host(host),
        b.with_host(host).with_access(access) == b.with_access(access).with_host(host),
        b.with_host(host).with_route(route) == b.with_route(route).with_host(host),
        b.with_auth(auth).with_access(access) == b.with_access(access).with_auth(auth),
        b.with_auth(auth).with_route(route) == b.with_route(route).with_auth(auth),
        b.with_access(access).with_route(route) == b.with_route(route).with_access(access),
        b.with_host(host).with_auth(auth).spec_build() == b.with_auth(auth).with_host(host).spec_build(),
        b.with_host(host).with_access(access).spec_build() == b.with_access(access).with_host(host).spec_build(),
        b.with_host(host).with_route(route).spec_build() == b.with_route(route).with_host(host).spec_build(),
        b.with_auth(auth).with_access(access).spec_build() == b.with_access(access).with_auth(auth).spec_build(),
        b.with_auth(auth).with_route(route).spec_build() == b.with_route(route).with_auth(auth).spec_build(),
        b.with_access(access).with_route(route).spec_build() == b.with_route(route).with_access(access).spec_build(),
{
}

/// Setting the same role twice leaves only the last value in effect: the
/// earlier value is overwritten, never accumulated.
pub proof fn lemma_same_role_setter_overwrites<S, H, A, C, R>(
    b: S3ServiceBuilder<S, H, A, C, R>,
    host1: H,
    host2: H,
    auth1: A,
    auth2: A,
    access1: C,
    access2: C,
    route1: R,
    route2: R,
)
    ensures
        b.with_host(host1).with_host(host2) == b.with_host(host2),
        b.with_auth(auth1).with_auth(auth2) == b.with_auth(auth2),
        b.with_access(access1).with_access(access2) == b.with_access(access2),
        b.with_route(route1).with_route(route2) == b.with_route(route2),
{
}

/// Immutable once built: one mandatory operation dispatcher and four
/// optional middleware roles. Read, never written, by every dispatch.
pub struct S3Service<S, H, A, C, R> {
    pub s3: S,
    pub host: Option<H>,
    pub auth: Option<A>,
    pub access: Option<C>,
    pub route: Option<R>,
}

/// The ephemeral, per-request execution context: a read-only view over the
/// service's component set, built immediately before the operation
/// dispatcher is invoked and discarded immediately after. Absent roles stay
/// absent; the dispatcher tolerates a context where they are unset.
pub struct CallContext<'a, S, H, A, C, R> {
    pub s3: &'a S,
    pub host: Option<&'a H>,
    pub auth: Option<&'a A>,
    pub access: Option<&'a C>,
    pub route: Option<&'a R>,
}

impl<S, H, A, C, R> S3Service<S, H, A, C, R> {
    /// Builds the execution context for one dispatch: a reference to the
    /// dispatcher, and a reference to each optional role exactly where the
    /// service has one configured.
    pub fn call_context<'a>(&'a self) -> (ccx: CallContext<'a, S, H, A, C, R>)
        ensures
            *ccx.s3 == self.s3,
            match self.host {
                Some(h) => ccx.host matches Some(r) && *r == h,
                None => ccx.host is None,
            },
            match self.auth {
                Some(a) => ccx.auth matches Some(r) && *r == a,
                None => ccx.auth is None,
            },
            match self.access {
                Some(c) => ccx.access matches Some(r) && *r == c,
                None => ccx.access is None,
            },
            match self.route {
                Some(t) => ccx.route matches Some(r) && *r == t,
                None => ccx.route is None,
            },
    {
        CallContext {
            s3: &self.s3,
            host: self.host.as_ref(),
            auth: self.auth.as_ref(),
            access: self.access.as_ref(),
            route: self.route.as_ref(),
        }
    }
}

/// Severity at which one dispatch outcome is reported: success at debug
/// level, failure at error level.
#[derive(Clone, Copy, Debug, PartialEq, Eq, Structural)]
pub enum LogLevel {
    Debug,
    Error,
}

/// The level at which a dispatch with this outcome is logged.
pub open spec fn outcome_log_level<T, E>(outcome: Result<T, E>) -> LogLevel {
    if outcome is Ok {
        LogLevel::Debug
    } else {
        LogLevel::Error
    }
}

/// The structured log entry one dispatch produces: its severity and the
/// elapsed time in nanoseconds (non-negative by its type). Both the
/// success and the failure path share this one instrumentation record.
pub struct LogEntry {
    pub level: LogLevel,
    pub elapsed_nanos: u128,
}

/// A dispatch in flight: the clock reading taken when it began. The value
/// is owned exclusively by that dispatch and touches no shared state, so
/// dropping it (a client disconnecting before the dispatcher answered)
/// cannot affect any other dispatch.
pub struct DispatchStarted {
    pub t0: Instant,
}

/// Everything one finished dispatch hands back to the transport: the
/// operation dispatcher's result, surfaced verbatim, and the log entry to
/// emit for it.
pub struct DispatchOutcome<T, E> {
    pub result: Result<T, E>,
    pub log: LogEntry,
}

/// Begins one dispatch: records the start of the operation. The transport
/// layer then normalizes its request, builds the execution context with
/// [`S3Service::call_context`], awaits the operation dispatcher, and hands
/// whatever came back to [`finish_dispatch`].
pub fn begin_dispatch() -> DispatchStarted {
    DispatchStarted { t0: now() }
}

/// Finishes one dispatch, whatever the dispatcher answered: the result is
/// surfaced verbatim — success unchanged, error unchanged, no retry, no
/// recovery — together with exactly one log entry, at debug level on
/// success and error level on failure, carrying the elapsed time.
pub fn finish_dispatch<T, E>(started: DispatchStarted, outcome: Result<T, E>) -> (r: DispatchOutcome<T, E>)
    ensures
        r.result == outcome,
        r.log.level == outcome_log_level(outcome),
{
    let elapsed_nanos = elapsed(started.t0);
    let level = match &outcome {
        Ok(_) => LogLevel::Debug,
        Err(_) => LogLevel::Error,
    };
    DispatchOutcome { result: outcome, log: LogEntry { level, elapsed_nanos } }
}

} // verus!
