use vstd::prelude::*;
use crate::error::Error;
use crate::text::{contains, contains_text, lower_of, to_lower};
use crate::verdict::SignalResult;

verus! {

/// The layout of a certificate's not-before and not-after fields.
pub const CERT_TIME_FORMAT: &'static str = "%b %d %H:%M:%S %Y GMT";

/// The label used when the issuer name has no readable second entry.
pub const UNKNOWN_ISSUER: &'static str = "Unknown Issuer";

/// One certificate of a peer's chain, as read off the wire.
#[derive(Clone, Debug)]
pub struct RawCertificate {
    /// The second entry of the issuer name, where present and UTF-8.
    pub issuer_entry: Option<String>,
    pub not_before: String,
    pub not_after: String,
}

/// Issuer label and validity window (seconds since the Unix epoch, UTC) of one certificate.
#[derive(Clone, Debug)]
pub struct CertificateRecord {
    pub issuer_label: String,
    pub valid_from: i64,
    pub valid_until: i64,
}

pub type RawView = (Option<Seq<char>>, Seq<char>, Seq<char>);

pub type RecordView = (Seq<char>, i64, i64);

impl View for RawCertificate {
    type V = RawView;

    open spec fn view(&self) -> RawView {
        let issuer = match self.issuer_entry {
            Some(s) => Some(s@),
            None => None,
        };
        (issuer, self.not_before@, self.not_after@)
    }
}

impl View for CertificateRecord {
    type V = RecordView;

    open spec fn view(&self) -> RecordView {
        (self.issuer_label@, self.valid_from, self.valid_until)
    }
}

impl CertificateRecord {
    pub open spec fn wf(&self) -> bool {
        self.valid_from <= self.valid_until
    }

    /// Length of the validity window, in seconds.
    pub fn validity_duration(&self) -> (r: i128)
        ensures
            r == self.valid_until - self.valid_from,
    {
        self.valid_until as i128 - self.valid_from as i128
    }
}

/// What chrono's `NaiveDateTime::parse_from_str(text, fmt)` yields, as a UTC timestamp.
pub uninterp spec fn cert_time_of(text: Seq<char>, fmt: Seq<char>) -> Option<i64>;

/// Relies on chrono's `NaiveDateTime::parse_from_str` and `and_utc().timestamp()`:
/// the parsed instant, in seconds since the Unix epoch, or nothing if `text` does
/// not follow `fmt`.
#[verifier::external_body]
fn parse_cert_time(text: &str, fmt: &str) -> (r: Option<i64>)
    ensures
        r == cert_time_of(text@, fmt@),
{
    chrono::NaiveDateTime::parse_from_str(text, fmt).ok().map(|t| t.and_utc().timestamp())
}

pub open spec fn issuer_label_of(entry: Option<Seq<char>>) -> Seq<char> {
    match entry {
        Some(s) => s,
        None => UNKNOWN_ISSUER@,
    }
}

/// The record read from one certificate; nothing where a date is unreadable or
/// the window ends before it starts.
pub open spec fn record_of(raw: RawView) -> Option<RecordView> {
    match (cert_time_of(raw.1, CERT_TIME_FORMAT@), cert_time_of(raw.2, CERT_TIME_FORMAT@)) {
        (Some(from), Some(until)) => if from <= until {
            Some((issuer_label_of(raw.0), from, until))
        } else {
            None
        },
        _ => None,
    }
}

pub open spec fn chain_is_readable(chain: Seq<RawView>) -> bool {
    forall|i: int| 0 <= i < chain.len() ==> (#[trigger] record_of(chain[i])) is Some
}

/// The outcome of inspecting `chain`: no certificate is an error of its own, a
/// single unreadable certificate fails the whole chain, and otherwise there is
/// one record per certificate, in order.
pub open spec fn inspection_result(
    chain: Seq<RawView>,
    r: Result<Vec<CertificateRecord>, Error>,
) -> bool {
    if chain.len() == 0 {
        r matches Err(Error::NoCertificateChain)
    } else if chain_is_readable(chain) {
        &&& r is Ok
        &&& r->Ok_0@.len() == chain.len()
        &&& forall|i: int|
            0 <= i < chain.len() ==> (#[trigger] r->Ok_0@[i])@ == record_of(chain[i])->0
    } else {
        r matches Err(Error::CertificateDateFormat(_))
    }
}

/// Why a certificate's validity window cannot be read.
pub open spec fn date_error_of(raw: RawView) -> Seq<char> {
    if cert_time_of(raw.1, CERT_TIME_FORMAT@) is None {
        "Invalid certificate start date"@
    } else if cert_time_of(raw.2, CERT_TIME_FORMAT@) is None {
        "Invalid certificate expiry date"@
    } else {
        "Certificate expires before it starts"@
    }
}

/// Reads one certificate into a record.
pub fn read_certificate(raw: &RawCertificate) -> (r: Result<CertificateRecord, Error>)
    ensures
        match record_of(raw@) {
            Some(rec) => r is Ok && r->Ok_0@ == rec && r->Ok_0.wf(),
            None => r matches Err(Error::CertificateDateFormat(m)) && m@ == date_error_of(raw@),
        },
{
    let from = parse_cert_time(raw.not_before.as_str(), CERT_TIME_FORMAT);
    let until = parse_cert_time(raw.not_after.as_str(), CERT_TIME_FORMAT);
    match (from, until) {
        (Some(f), Some(u)) => {
            if f <= u {
                let label = match &raw.issuer_entry {
                    Some(s) => s.clone(),
                    None => String::from_str(UNKNOWN_ISSUER),
                };
                Ok(CertificateRecord { issuer_label: label, valid_from: f, valid_until: u })
            } else {
                Err(Error::CertificateDateFormat(String::from_str("Certificate expires before it starts")))
            }
        },
        (None, _) => Err(Error::CertificateDateFormat(String::from_str("Invalid certificate start date"))),
        (_, None) => Err(Error::CertificateDateFormat(String::from_str("Invalid certificate expiry date"))),
    }
}

/// Reads every certificate of a presented chain into records.
pub fn inspect_chain(chain: &Vec<RawCertificate>) -> (r: Result<Vec<CertificateRecord>, Error>)
    ensures
        inspection_result(chain@.map_values(|c: RawCertificate| c@), r),
{
    let ghost views = chain@.map_values(|c: RawCertificate| c@);
    if chain.len() == 0 {
        return Err(Error::NoCertificateChain);
    }
    let mut records: Vec<CertificateRecord> = Vec::new();
    let mut i: usize = 0;
    while i < chain.len()
        invariant
            views == chain@.map_values(|c: RawCertificate| c@),
            i <= chain@.len(),
            records@.len() == i,
            forall|k: int| 0 <= k < i ==> (#[trigger] record_of(views[k])) is Some,
            forall|k: int| 0 <= k < i ==> (#[trigger] records@[k])@ == record_of(views[k])->0,
        decreases chain@.len() - i,
    {
        match read_certificate(&chain[i]) {
            Ok(rec) => {
                records.push(rec);
            },
            Err(e) => {
                proof {
                    assert(record_of(views[i as int]) is None);
                    assert(!chain_is_readable(views));
                }
                return Err(e);
            },
        }
        i = i + 1;
    }
    Ok(records)
}

/// The issuer heuristic on an already lowercased label: it names both "let" and
/// "encrypt", a loose match for free rapid-issuance authorities.
pub open spec fn folded_label_flagged(folded: Seq<char>) -> bool {
    contains(folded, "let"@) && contains(folded, "encrypt"@)
}

pub open spec fn issuer_flagged(label: Seq<char>) -> bool {
    folded_label_flagged(lower_of(label))
}

/// The issuer heuristic on a label that is already lowercased.
pub fn folded_issuer_flagged(folded: &str) -> (r: bool)
    ensures
        r == folded_label_flagged(folded@),
{
    contains_text(folded, "let") && contains_text(folded, "encrypt")
}

/// The issuer heuristic, case-insensitive.
pub fn issuer_is_flagged(label: &str) -> (r: bool)
    ensures
        r == issuer_flagged(label@),
{
    let folded = to_lower(label);
    folded_issuer_flagged(folded.as_str())
}

pub open spec fn chain_flagged(records: Seq<CertificateRecord>) -> bool {
    exists|i: int| 0 <= i < records.len() && issuer_flagged(#[trigger] records[i].issuer_label@)
}

/// The certificate signal: detected when any issuer label is flagged, and
/// indeterminate when the chain could not be inspected.
pub open spec fn tls_signal_of(inspection: Result<Vec<CertificateRecord>, Error>) -> SignalResult {
    match inspection {
        Ok(records) => if chain_flagged(records@) {
            SignalResult::Detected
        } else {
            SignalResult::NotDetected
        },
        Err(e) => SignalResult::Indeterminate(e.category_spec()),
    }
}

/// Whether any record of a chain carries a flagged issuer label.
pub fn any_issuer_flagged(records: &Vec<CertificateRecord>) -> (r: bool)
    ensures
        r == chain_flagged(records@),
{
    let mut i: usize = 0;
    while i < records.len()
        invariant
            i <= records@.len(),
            forall|k: int| 0 <= k < i ==> !issuer_flagged(#[trigger] records@[k].issuer_label@),
        decreases records@.len() - i,
    {
        if issuer_is_flagged(records[i].issuer_label.as_str()) {
            assert(issuer_flagged(records@[i as int].issuer_label@));
            return true;
        }
        i = i + 1;
    }
    false
}

pub fn tls_signal(inspection: &Result<Vec<CertificateRecord>, Error>) -> (r: SignalResult)
    ensures
        r == tls_signal_of(*inspection),
{
    match inspection {
        Ok(records) => if any_issuer_flagged(records) {
            SignalResult::Detected
        } else {
            SignalResult::NotDetected
        },
        Err(e) => SignalResult::Indeterminate(e.category()),
    }
}

/// Inspecting a fixed chain is deterministic: any two outcomes that meet the
/// inspection contract for the same chain hold the same records and give the
/// same certificate signal.
pub proof fn lemma_inspection_deterministic(
    chain: Seq<RawView>,
    r1: Result<Vec<CertificateRecord>, Error>,
    r2: Result<Vec<CertificateRecord>, Error>,
)
    requires
        inspection_result(chain, r1),
        inspection_result(chain, r2),
    ensures
        r1 is Ok <==> r2 is Ok,
        r1 is Ok ==> r1->Ok_0@.map_values(|c: CertificateRecord| c@) == r2->Ok_0@.map_values(
            |c: CertificateRecord| c@,
        ),
        tls_signal_of(r1) == tls_signal_of(r2),
{
    if r1 is Ok {
        let v1 = r1->Ok_0@;
        let v2 = r2->Ok_0@;
        assert(v1.map_values(|c: CertificateRecord| c@) =~= v2.map_values(|c: CertificateRecord| c@));
        assert forall|i: int| 0 <= i < v1.len() implies v1[i].issuer_label@ == v2[i].issuer_label@ by {
            assert(v1[i]@ == record_of(chain[i])->0);
            assert(v2[i]@ == record_of(chain[i])->0);
        }
        if chain_flagged(v1) {
            let i = choose|i: int| 0 <= i < v1.len() && issuer_flagged(#[trigger] v1[i].issuer_label@);
            assert(issuer_flagged(v2[i].issuer_label@));
        }
        if chain_flagged(v2) {
            let i = choose|i: int| 0 <= i < v2.len() && issuer_flagged(#[trigger] v2[i].issuer_label@);
            assert(issuer_flagged(v1[i].issuer_label@));
        }
    }
}

} // verus!
