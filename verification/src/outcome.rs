use vstd::prelude::*;

verus! {

/// What one HTTP attempt produced, as handed to the core by the I/O
/// layer: either a well-formed HTTP response with its status code, or
/// a transport-level error message.
#[derive(Debug, Clone, PartialEq, Eq)]
pub enum AttemptEvent {
    Response(u16),
    TransportFailure(String),
}

impl AttemptEvent {
    /// The data model's range for a response: an HTTP status code lies
    /// in 100–599. The transport may in principle hand a code outside
    /// it (non-standard servers); such an event is outside the model.
    pub open spec fn wf(&self) -> bool {
        match self {
            AttemptEvent::Response(code) => 100 <= *code <= 599,
            AttemptEvent::TransportFailure(_) => true,
        }
    }

    /// A copy whose value verified callers can rely on being equal.
    pub fn duplicate(&self) -> (r: AttemptEvent)
        ensures
            r == *self,
    {
        match self {
            AttemptEvent::Response(code) => AttemptEvent::Response(*code),
            AttemptEvent::TransportFailure(msg) => AttemptEvent::TransportFailure(msg.clone()),
        }
    }
}

/// The final status of one checked URL: `Success` carries the HTTP
/// status code (any well-formed response counts, 4xx and 5xx included);
/// `Failure` carries the transport error message of the last attempt.
#[derive(Debug, Clone, PartialEq, Eq)]
pub enum CheckStatus {
    Success(u16),
    Failure(String),
}

impl CheckStatus {
    /// The data model's range for a settled check: a `Success` code
    /// lies in 100–599. The retry policy never invents a code, so this
    /// holds whenever the attempts' response events hold it.
    pub open spec fn wf(&self) -> bool {
        match self {
            CheckStatus::Success(code) => 100 <= *code <= 599,
            CheckStatus::Failure(_) => true,
        }
    }
}

/// The result of checking one URL: the original job value, its final
/// status, the wall-clock milliseconds from the start of the first
/// attempt to the end of the last one, and the seconds since the epoch
/// at which the first attempt started.
#[derive(Debug, Clone, PartialEq, Eq)]
pub struct CheckOutcome {
    pub url: String,
    pub status: CheckStatus,
    pub elapsed_ms: u64,
    pub timestamp_secs: u64,
}

impl CheckOutcome {
    /// An outcome that keeps the data model: its status code, if any,
    /// lies in 100–599.
    pub open spec fn wf(&self) -> bool {
        self.status.wf()
    }
}

/// The append-only collection of completed check outcomes. During the
/// concurrent phase the caller guards it with a lock and workers only
/// append; it is read once every worker has finished.
pub struct ResultSet {
    entries: Vec<CheckOutcome>,
}

impl View for ResultSet {
    type V = Seq<CheckOutcome>;

    closed spec fn view(&self) -> Seq<CheckOutcome> {
        self.entries@
    }
}

impl ResultSet {
    pub fn new() -> (r: ResultSet)
        ensures
            r@ == Seq::<CheckOutcome>::empty(),
    {
        ResultSet { entries: Vec::new() }
    }

    /// Appends one completed outcome; earlier entries are kept unchanged.
    pub fn append(&mut self, outcome: CheckOutcome)
        ensures
            final(self)@ == old(self)@.push(outcome),
    {
        self.entries.push(outcome);
    }

    pub fn len(&self) -> (n: usize)
        ensures
            n == self@.len(),
    {
        self.entries.len()
    }

    pub fn entries(&self) -> (r: &Vec<CheckOutcome>)
        ensures
            r@ == self@,
    {
        &self.entries
    }
}

} // verus!
