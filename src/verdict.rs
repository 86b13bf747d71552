use vstd::prelude::*;
use crate::certificate::{tls_signal, tls_signal_of, CertificateRecord};
use crate::domain_age::{domain_signal, domain_signal_of};
use crate::error::{Error, ErrorCategory};
use crate::origin::{main_page_signal, main_page_signal_of};

verus! {

/// The outcome of one heuristic: it fired, it did not, or it could not be evaluated.
#[derive(Clone, Copy, Debug, PartialEq, Eq, Structural)]
pub enum SignalResult {
    Detected,
    NotDetected,
    Indeterminate(ErrorCategory),
}

impl SignalResult {
    /// The status word used on the wire.
    pub fn status(&self) -> (r: &'static str)
        ensures
            *self is Detected ==> r@ == "detected"@,
            *self is NotDetected ==> r@ == "not_detected"@,
            *self is Indeterminate ==> r@ == "indeterminate"@,
    {
        match self {
            SignalResult::Detected => "detected",
            SignalResult::NotDetected => "not_detected",
            SignalResult::Indeterminate(_) => "indeterminate",
        }
    }
}

pub open spec fn detected_weight(s: SignalResult) -> nat {
    if s is Detected { 1 } else { 0 }
}

pub open spec fn resolved_weight(s: SignalResult) -> nat {
    if s is Indeterminate { 0 } else { 1 }
}

/// The four signals of one analysis, keyed by heuristic.
#[derive(Clone, Copy, Debug, PartialEq, Eq, Structural)]
pub struct CompositeVerdict {
    pub url_structure: SignalResult,
    pub tls_data: SignalResult,
    pub domain_data: SignalResult,
    pub main_page: SignalResult,
}

impl CompositeVerdict {
    /// The signals in their fixed order.
    pub open spec fn signals(&self) -> Seq<SignalResult> {
        seq![self.url_structure, self.tls_data, self.domain_data, self.main_page]
    }

    pub open spec fn detected_spec(&self) -> nat {
        detected_weight(self.url_structure) + detected_weight(self.tls_data) + detected_weight(
            self.domain_data,
        ) + detected_weight(self.main_page)
    }

    pub open spec fn resolved_spec(&self) -> nat {
        resolved_weight(self.url_structure) + resolved_weight(self.tls_data) + resolved_weight(
            self.domain_data,
        ) + resolved_weight(self.main_page)
    }

    /// The score: detected signals as a share of the evaluated ones, in percent
    /// and rounded down; nothing when no signal could be evaluated.
    pub open spec fn percentage_spec(&self) -> Option<nat> {
        if self.resolved_spec() == 0 {
            None
        } else {
            Some(self.detected_spec() * 100 / self.resolved_spec())
        }
    }

    /// Number of signals that fired.
    pub fn detected_count(&self) -> (r: u64)
        ensures
            r == self.detected_spec(),
    {
        let mut r: u64 = 0;
        if self.url_structure.is_detected() {
            r = r + 1;
        }
        if self.tls_data.is_detected() {
            r = r + 1;
        }
        if self.domain_data.is_detected() {
            r = r + 1;
        }
        if self.main_page.is_detected() {
            r = r + 1;
        }
        r
    }

    /// Number of signals that could be evaluated.
    pub fn resolved_count(&self) -> (r: u64)
        ensures
            r == self.resolved_spec(),
    {
        let mut r: u64 = 0;
        if !self.url_structure.is_indeterminate() {
            r = r + 1;
        }
        if !self.tls_data.is_indeterminate() {
            r = r + 1;
        }
        if !self.domain_data.is_indeterminate() {
            r = r + 1;
        }
        if !self.main_page.is_indeterminate() {
            r = r + 1;
        }
        r
    }

    /// The composite score in percent, over the evaluated signals only; `None`
    /// stands for "insufficient data".
    pub fn percentage(&self) -> (r: Option<u64>)
        ensures
            match self.percentage_spec() {
                Some(p) => r == Some(p as u64),
                None => r is None,
            },
    {
        let resolved = self.resolved_count();
        if resolved == 0 {
            None
        } else {
            let detected = self.detected_count();
            Some(detected * 100 / resolved)
        }
    }
}

impl SignalResult {
    pub fn is_detected(&self) -> (r: bool)
        ensures
            r == (*self is Detected),
    {
        match self {
            SignalResult::Detected => true,
            _ => false,
        }
    }

    pub fn is_indeterminate(&self) -> (r: bool)
        ensures
            r == (*self is Indeterminate),
    {
        match self {
            SignalResult::Indeterminate(_) => true,
            _ => false,
        }
    }
}

/// The URL-structure signal: a pure check that cannot fail.
pub open spec fn url_signal_of(flagged: bool) -> SignalResult {
    if flagged {
        SignalResult::Detected
    } else {
        SignalResult::NotDetected
    }
}

/// The verdict that the four probe outcomes give, each signal from its own probe alone.
pub open spec fn verdict_of(
    url_flagged: bool,
    certificates: Result<Vec<CertificateRecord>, Error>,
    domain_age: Result<i64, Error>,
    origin_reachable: Result<bool, Error>,
) -> CompositeVerdict {
    CompositeVerdict {
        url_structure: url_signal_of(url_flagged),
        tls_data: tls_signal_of(certificates),
        domain_data: domain_signal_of(domain_age),
        main_page: main_page_signal_of(origin_reachable),
    }
}

/// Merges the outcomes of the four probes into one verdict. A failed probe
/// makes its own signal indeterminate and leaves the others as they are.
pub fn aggregate(
    url_flagged: bool,
    certificates: &Result<Vec<CertificateRecord>, Error>,
    domain_age: &Result<i64, Error>,
    origin_reachable: &Result<bool, Error>,
) -> (r: CompositeVerdict)
    ensures
        r == verdict_of(url_flagged, *certificates, *domain_age, *origin_reachable),
{
    CompositeVerdict {
        url_structure: if url_flagged {
            SignalResult::Detected
        } else {
            SignalResult::NotDetected
        },
        tls_data: tls_signal(certificates),
        domain_data: domain_signal(domain_age),
        main_page: main_page_signal(origin_reachable),
    }
}

/// One probe's failure never spoils the others: whatever the certificate probe
/// returned, the other three signals are those that their own probes give,
/// and a failed certificate probe leaves its signal indeterminate, never negative.
pub proof fn lemma_probe_isolation(
    url_flagged: bool,
    certificates: Result<Vec<CertificateRecord>, Error>,
    domain_age: Result<i64, Error>,
    origin_reachable: Result<bool, Error>,
)
    ensures
        ({
            let v = verdict_of(url_flagged, certificates, domain_age, origin_reachable);
            &&& v.url_structure == url_signal_of(url_flagged)
            &&& v.domain_data == domain_signal_of(domain_age)
            &&& v.main_page == main_page_signal_of(origin_reachable)
            &&& certificates is Err ==> v.tls_data is Indeterminate
            &&& domain_age is Err ==> v.domain_data is Indeterminate
            &&& origin_reachable is Err ==> v.main_page is Indeterminate
        }),
{
}

/// The score counts only evaluated signals: it is the detected share of those,
/// and it is absent exactly when every signal is indeterminate.
pub proof fn lemma_percentage_over_resolved(v: CompositeVerdict)
    ensures
        v.percentage_spec() is None <==> (forall|i: int|
            0 <= i < 4 ==> (#[trigger] v.signals()[i]) is Indeterminate),
        v.percentage_spec() is Some ==> v.percentage_spec()->0 <= 100,
{
    assert(v.signals()[0] == v.url_structure);
    assert(v.signals()[1] == v.tls_data);
    assert(v.signals()[2] == v.domain_data);
    assert(v.signals()[3] == v.main_page);
    if v.resolved_spec() > 0 {
        assert(v.detected_spec() <= v.resolved_spec());
        assert(v.detected_spec() * 100 <= v.resolved_spec() * 100) by (nonlinear_arith)
            requires
                v.detected_spec() <= v.resolved_spec(),
        ;
        assert(v.detected_spec() * 100 / v.resolved_spec() <= 100) by (nonlinear_arith)
            requires
                v.detected_spec() <= v.resolved_spec(),
                v.resolved_spec() > 0,
        ;
    }
}

} // verus!
