//! Run configuration: validation of the requested body sets, the
//! integration method, and the collection of resolved NAIF IDs.
//!
//! The checks here decide whether a propagation run may start at all and
//! which typed failure it is rejected with.  Comparisons that can only be
//! made by the numeric driver (epoch ordering, the saved-fraction range)
//! are handed in as their boolean outcome and mapped to the right failure
//! here, so that the mapping itself is verified.

use vstd::prelude::*;

verus! {

/// The integration method a run is asked to use.
#[derive(Clone, Copy, Debug, PartialEq, Eq, Structural)]
pub enum SolverKind {
    /// Fixed-step forward Euler.
    Euler,
    /// Fixed-step classical Runge-Kutta 4.
    Rk4,
    /// Adaptive Dormand-Prince 5(4).
    Dopri45,
}

/// A typed reason for refusing a propagation run before any numeric work.
#[derive(Debug, PartialEq, Eq)]
pub enum ConfigError {
    /// Neither full bodies nor small bodies were requested.
    NoBodies,
    /// Full bodies and external attractors were both requested; full
    /// bodies cannot affect trajectories read from a kernel, so the two
    /// sets together would be inconsistent.
    BodiesWithAttractors,
    /// External attractors were requested without an observing body.
    CenterRequired,
    /// The requested integration method is not one of the known names.
    UnknownMethod(String),
    /// A body label could not be resolved to a NAIF ID.
    UnknownBody(String),
    /// The start epoch does not precede the final epoch.
    BadInterval,
    /// The fraction of steps to save lies outside (0, 1].
    BadFraction,
}

/// Checks the requested body sets for the three ways a run can be
/// inconsistent before any kernel is loaded.
pub fn validate_selection(
    bodies: &Option<Vec<String>>,
    small_bodies: &Option<Vec<String>>,
    attractors: &Option<Vec<String>>,
    cb_id: &Option<i32>,
) -> (r: Result<(), ConfigError>)
    ensures
        (bodies is None && small_bodies is None) ==> (r matches Err(e) && e is NoBodies),
        (!(bodies is None && small_bodies is None) && bodies is Some && attractors is Some) ==> (
        r matches Err(e) && e is BodiesWithAttractors),
        (!(bodies is None && small_bodies is None) && !(bodies is Some && attractors is Some)
            && attractors is Some && cb_id is None) ==> (r matches Err(e) && e is CenterRequired),
        (!(bodies is None && small_bodies is None) && !(bodies is Some && attractors is Some) && !(
        attractors is Some && cb_id is None)) ==> r is Ok,
{
    if bodies.is_none() && small_bodies.is_none() {
        Err(ConfigError::NoBodies)
    } else if bodies.is_some() && attractors.is_some() {
        Err(ConfigError::BodiesWithAttractors)
    } else if attractors.is_some() && cb_id.is_none() {
        Err(ConfigError::CenterRequired)
    } else {
        Ok(())
    }
}

/// The three known method names denote three different strings.
proof fn method_names_distinct()
    ensures
        "rk4"@ != "euler"@,
        "rk4"@ != "dopri45"@,
        "euler"@ != "dopri45"@,
{
    reveal_strlit("rk4");
    reveal_strlit("euler");
    reveal_strlit("dopri45");
    assert("rk4"@.len() != "euler"@.len());
    assert("rk4"@.len() != "dopri45"@.len());
    assert("euler"@.len() != "dopri45"@.len());
}

/// Maps the requested method name to the integration method.  An absent
/// name defaults to RK4.
pub fn parse_method(method: &Option<String>) -> (r: Result<SolverKind, ConfigError>)
    ensures
        method is None ==> r == Ok::<SolverKind, ConfigError>(SolverKind::Rk4),
        method matches Some(m) ==> {
            &&& m@ == "rk4"@ ==> r == Ok::<SolverKind, ConfigError>(SolverKind::Rk4)
            &&& m@ == "euler"@ ==> r == Ok::<SolverKind, ConfigError>(SolverKind::Euler)
            &&& m@ == "dopri45"@ ==> r == Ok::<SolverKind, ConfigError>(SolverKind::Dopri45)
            &&& (m@ != "rk4"@ && m@ != "euler"@ && m@ != "dopri45"@) ==> (r matches Err(e)
                && e matches ConfigError::UnknownMethod(n) && n@ == m@)
        },
{
    proof {
        method_names_distinct();
    }
    match method {
        None => Ok(SolverKind::Rk4),
        Some(m) => {
            if m.eq(&String::from_str("rk4")) {
                Ok(SolverKind::Rk4)
            } else if m.eq(&String::from_str("euler")) {
                Ok(SolverKind::Euler)
            } else if m.eq(&String::from_str("dopri45")) {
                Ok(SolverKind::Dopri45)
            } else {
                Err(ConfigError::UnknownMethod(m.clone()))
            }
        },
    }
}

/// Holds when every label was resolved to an ID.
pub open spec fn all_resolved(resolved: Seq<Option<i32>>) -> bool {
    forall|k: int| 0 <= k < resolved.len() ==> resolved[k] is Some
}

/// Collects per-label resolution outcomes into an ID list, or reports the
/// first label that did not resolve.
///
/// The lookups themselves are made against the loaded kernel pool by the
/// ephemeris driver; this function fixes what is accepted and which label
/// an `UnknownBody` failure names.
pub fn collect_resolved_ids(labels: &Vec<String>, resolved: &Vec<Option<i32>>) -> (r: Result<
    Vec<i32>,
    ConfigError,
>)
    requires
        labels@.len() == resolved@.len(),
    ensures
        r is Ok <==> all_resolved(resolved@),
        r matches Ok(ids) ==> ids@.len() == resolved@.len() && forall|k: int|
            0 <= k < resolved@.len() ==> ((#[trigger] resolved@[k]) matches Some(id) && ids@[k] == id),
        r matches Err(e) ==> e matches ConfigError::UnknownBody(lbl) && exists|k: int|
            0 <= k < resolved@.len() && resolved@[k] is None && lbl@ == labels@[k]@ && forall|
                j: int,
            | 0 <= j < k ==> resolved@[j] is Some,
{
    let mut ids: Vec<i32> = Vec::new();
    let mut i: usize = 0;
    while i < resolved.len()
        invariant
            labels@.len() == resolved@.len(),
            i <= resolved@.len(),
            ids@.len() == i,
            forall|k: int| 0 <= k < i ==> ((#[trigger] resolved@[k]) matches Some(id) && ids@[k] == id),
        decreases resolved.len() - i,
    {
        match resolved[i] {
            Some(id) => ids.push(id),
            None => {
                return Err(ConfigError::UnknownBody(labels[i].clone()));
            },
        }
        i = i + 1;
    }
    Ok(ids)
}

/// Maps the outcome of the epoch-order comparison `et0 < etfinal` to the
/// matching failure.  The epochs themselves are compared by the numeric
/// driver.
pub fn validate_interval(et0_before_etfinal: bool) -> (r: Result<(), ConfigError>)
    ensures
        et0_before_etfinal <==> r is Ok,
        !et0_before_etfinal ==> (r matches Err(e) && e is BadInterval),
{
    if et0_before_etfinal {
        Ok(())
    } else {
        Err(ConfigError::BadInterval)
    }
}

/// Maps the down-sampling stride computed from the saved fraction to
/// either that stride or a `BadFraction` failure.  The fraction check
/// `0 < fts <= 1` and the stride `floor(1 / fts)` are computed by the
/// numeric driver; a fraction in range always yields a stride of at least
/// one.
pub fn validate_stride(stride: Option<usize>) -> (r: Result<usize, ConfigError>)
    requires
        stride matches Some(s) ==> s >= 1,
    ensures
        r is Ok <==> stride is Some,
        r matches Ok(s) ==> stride == Some(s) && s >= 1,
        r matches Err(e) ==> e is BadFraction,
{
    match stride {
        Some(s) => Ok(s),
        None => Err(ConfigError::BadFraction),
    }
}

} // verus!
