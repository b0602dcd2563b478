//! The choice of a free TCP port. Binding is left to the caller: this module
//! says which port to probe next and when to stop.
use vstd::prelude::*;

verus! {

/// The first port of the fallback range.
pub const FALLBACK_FIRST: u16 = 6000;

/// One past the last port of the fallback range.
pub const FALLBACK_END: u16 = 9000;

/// The ports to probe, in order: the preferred one if given, then every port
/// of the fallback range.
pub open spec fn candidates(preferred: Option<u16>) -> Seq<u16> {
    let range = Seq::new((FALLBACK_END - FALLBACK_FIRST) as nat, |k: int| (FALLBACK_FIRST + k) as u16);
    match preferred {
        Some(p) => seq![p] + range,
        None => range,
    }
}

/// What the caller does next.
#[derive(Debug, PartialEq, Eq)]
pub enum PortAction {
    /// Try to bind this port on the loopback interface and report whether
    /// that worked.
    Probe(u16),
    /// The search is over, with this port (or none).
    Done(Option<u16>),
}

/// The state of a search for a free port.
pub struct PortSearch {
    preferred: Option<u16>,
    probed: usize,
}

impl PortSearch {
    pub closed spec fn preferred(&self) -> Option<u16> {
        self.preferred
    }

    /// How many probes were asked for so far.
    pub closed spec fn probed(&self) -> int {
        self.probed as int
    }

    pub closed spec fn wf(&self) -> bool {
        1 <= self.probed <= candidates(self.preferred).len()
    }

    fn candidate(preferred: Option<u16>, k: usize) -> (r: u16)
        requires
            k < candidates(preferred).len(),
        ensures
            r == candidates(preferred)[k as int],
    {
        match preferred {
            Some(p) => if k == 0 {
                p
            } else {
                FALLBACK_FIRST + (k - 1) as u16
            },
            None => FALLBACK_FIRST + k as u16,
        }
    }

    fn count(preferred: Option<u16>) -> (r: usize)
        ensures
            r == candidates(preferred).len(),
    {
        let n = (FALLBACK_END - FALLBACK_FIRST) as usize;
        if preferred.is_some() {
            n + 1
        } else {
            n
        }
    }

    /// Starts a search that prefers `preferred`: the first action probes the
    /// first candidate.
    pub fn start(preferred: Option<u16>) -> (r: (PortSearch, PortAction))
        ensures
            r.0.wf(),
            r.0.preferred() == preferred,
            r.0.probed() == 1,
            r.1 == PortAction::Probe(candidates(preferred)[0]),
    {
        let first = PortSearch::candidate(preferred, 0);
        (PortSearch { preferred, probed: 1 }, PortAction::Probe(first))
    }

    /// Takes the outcome of the last probe: a port that could be bound ends
    /// the search with it; otherwise the next candidate is probed, or the
    /// search ends with none once all were tried.
    pub fn after_probe(&mut self, bindable: bool) -> (r: PortAction)
        requires
            old(self).wf(),
        ensures
            final(self).wf(),
            final(self).preferred() == old(self).preferred(),
            ({
                let cands = candidates(old(self).preferred());
                let k = old(self).probed();
                if bindable {
                    r == PortAction::Done(Some(cands[k - 1])) && final(self).probed() == k
                } else if k < cands.len() {
                    r == PortAction::Probe(cands[k]) && final(self).probed() == k + 1
                } else {
                    r == PortAction::Done(None) && final(self).probed() == k
                }
            }),
    {
        if bindable {
            return PortAction::Done(Some(PortSearch::candidate(self.preferred, self.probed - 1)));
        }
        if self.probed < PortSearch::count(self.preferred) {
            let port = PortSearch::candidate(self.preferred, self.probed);
            self.probed = self.probed + 1;
            PortAction::Probe(port)
        } else {
            PortAction::Done(None)
        }
    }
}

/// Once the preferred port (if any) has been tried, every port probed lies in
/// the fallback range [6000, 9000).
pub proof fn lemma_fallback_ports_in_range(preferred: Option<u16>, k: int)
    requires
        0 <= k < candidates(preferred).len(),
        preferred is Some ==> k >= 1,
    ensures
        FALLBACK_FIRST <= candidates(preferred)[k] < FALLBACK_END,
{
}

} // verus!
