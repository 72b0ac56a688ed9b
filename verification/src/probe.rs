//! Probing candidates one after another, until one of them exists.
use vstd::prelude::*;

use crate::location::{Location, LocationView};

verus! {

/// Something that goes on until it has a result.
#[derive(Debug)]
pub enum Progress<S, T> {
    /// It goes on from here.
    Pending(S),
    /// This is the result.
    Settled(T),
}

/// An unfinished attempt to find a candidate that exists.
#[derive(Debug)]
pub struct Probe {
    /// The candidate whose existence is to be checked next.
    pub candidate: Location,
    /// The candidates left after it, in order.
    pub rest: Vec<Location>,
}

/// The mathematical counterpart of [`Probe`].
pub struct ProbeView {
    pub candidate: LocationView,
    pub rest: Seq<LocationView>,
}

/// The views of a sequence of locations.
pub open spec fn locations(candidates: Seq<Location>) -> Seq<LocationView> {
    candidates.map_values(|l: Location| l@)
}

/// The view of a location that may be missing.
pub open spec fn optional_location(location: Option<Location>) -> Option<LocationView> {
    match location {
        Some(l) => Some(l@),
        None => None,
    }
}

impl View for Probe {
    type V = ProbeView;

    open spec fn view(&self) -> ProbeView {
        ProbeView { candidate: self.candidate@, rest: locations(self.rest@) }
    }
}

/// What an attempt to find a candidate has come to.
pub type ProbeProgress = Progress<Probe, Option<Location>>;

/// The mathematical counterpart of [`ProbeProgress`].
pub type ProbeProgressView = Progress<ProbeView, Option<LocationView>>;

impl View for Progress<Probe, Option<Location>> {
    type V = ProbeProgressView;

    open spec fn view(&self) -> ProbeProgressView {
        match self {
            Progress::Pending(probe) => Progress::Pending(probe@),
            Progress::Settled(found) => Progress::Settled(optional_location(*found)),
        }
    }
}

/// The first of `candidates` that is among `existing`.
pub open spec fn first_existing(
    candidates: Seq<LocationView>,
    existing: Set<LocationView>,
) -> Option<LocationView>
    decreases candidates.len(),
{
    if candidates.len() == 0 {
        None
    } else if existing.contains(candidates.first()) {
        Some(candidates.first())
    } else {
        first_existing(candidates.drop_first(), existing)
    }
}

impl ProbeView {
    /// The attempt that checks `candidates` in order.
    pub open spec fn over(candidates: Seq<LocationView>) -> ProbeProgressView {
        if candidates.len() == 0 {
            Progress::Settled(None)
        } else {
            Progress::Pending(
                ProbeView { candidate: candidates.first(), rest: candidates.drop_first() },
            )
        }
    }

    /// Where the attempt stands once it is known whether its candidate exists.
    pub open spec fn resume(self, exists: bool) -> ProbeProgressView {
        if exists {
            Progress::Settled(Some(self.candidate))
        } else {
            ProbeView::over(self.rest)
        }
    }

    /// All the candidates that are left, first to last.
    pub open spec fn candidates(self) -> Seq<LocationView> {
        seq![self.candidate] + self.rest
    }
}

/// What an attempt ends in where exactly the locations in `existing` exist.
pub open spec fn probe_result(
    progress: ProbeProgressView,
    existing: Set<LocationView>,
) -> Option<LocationView>
    decreases
            (match progress {
                Progress::Pending(probe) => 1 + probe.rest.len(),
                Progress::Settled(_) => 0,
            }),
{
    match progress {
        Progress::Pending(probe) => probe_result(
            probe.resume(existing.contains(probe.candidate)),
            existing,
        ),
        Progress::Settled(found) => found,
    }
}

impl Probe {
    /// The attempt that checks nothing.
    pub(crate) fn over_none() -> (progress: ProbeProgress)
        ensures
            progress@ == ProbeView::over(seq![]),
    {
        Progress::Settled(None)
    }

    /// The attempt that checks one candidate.
    pub(crate) fn over_one(candidate: Location) -> (progress: ProbeProgress)
        ensures
            progress@ == ProbeView::over(seq![candidate@]),
    {
        let rest: Vec<Location> = Vec::new();
        assert(locations(rest@) =~= seq![candidate@].drop_first());
        Progress::Pending(Probe { candidate, rest })
    }

    /// The attempt that checks the candidates in order.
    pub fn over(candidates: Vec<Location>) -> (progress: ProbeProgress)
        ensures
            progress@ == ProbeView::over(locations(candidates@)),
    {
        let mut rest = candidates;
        if rest.len() == 0 {
            Progress::Settled(None)
        } else {
            let candidate = rest.remove(0);
            assert(locations(rest@) =~= locations(candidates@).drop_first());
            Progress::Pending(Probe { candidate, rest })
        }
    }

    /// Goes on, once it is known whether the candidate exists.
    pub fn resume(self, exists: bool) -> (progress: ProbeProgress)
        ensures
            progress@ == self@.resume(exists),
    {
        if exists {
            Progress::Settled(Some(self.candidate))
        } else {
            Probe::over(self.rest)
        }
    }
}

} // verus!
