use vstd::prelude::*;

verus! {

/// The entries of a log, oldest first: each the time at which it was made and its message.
pub type Logs = Vec<(String, String)>;

/// The model of a log: its entries as sequences of characters.
pub open spec fn logs_view(logs: Logs) -> Seq<(Seq<char>, Seq<char>)> {
    logs@.map_values(|entry: (String, String)| (entry.0@, entry.1@))
}

/// The number of decimal places of the second with which the time of an entry is written.
pub const LOG_TIME_PRECISION: usize = 3;

/// The date and time, as `utc_dt` writes them with the given number of decimal places of
/// the second, or with none, of the instant that lies the given number of nanoseconds
/// after the Unix epoch.
pub uninterp spec fn iso_datetime(time_ns: u64, precision: Option<usize>) -> Seq<char>;

/// `utc_dt::UTCDatetime` made `from` a `Duration` since the Unix epoch, and written by its
/// `as_iso_datetime` with the given precision. What is returned depends on the number of
/// nanoseconds and the precision alone; no values of them make the call fail.
#[verifier::external_body]
fn format_iso_datetime(time_ns: u64, precision: Option<usize>) -> (datetime: String)
    ensures
        datetime@ == iso_datetime(time_ns, precision),
{
    let since_epoch = std::time::Duration::from_nanos(time_ns);
    utc_dt::UTCDatetime::from(since_epoch).as_iso_datetime(precision)
}

pub struct Logger {
    logs: Logs,
}

impl View for Logger {
    type V = Seq<(Seq<char>, Seq<char>)>;

    closed spec fn view(&self) -> Seq<(Seq<char>, Seq<char>)> {
        logs_view(self.logs)
    }
}

impl Logger {
    pub fn new() -> (logger: Self)
        ensures
            logger@ == Seq::<(Seq<char>, Seq<char>)>::empty(),
    {
        Logger { logs: Vec::new() }
    }

    /// Appends an entry with the given message, made at the given time in nanoseconds since
    /// the Unix epoch, which is written with the milliseconds.
    pub fn log(&mut self, time_ns: u64, message: &str)
        ensures
            final(self)@ == old(self)@.push(
                (iso_datetime(time_ns, Some(LOG_TIME_PRECISION)), message@),
            ),
    {
        let datetime = format_iso_datetime(time_ns, Some(LOG_TIME_PRECISION));
        self.record(datetime, message);
    }

    /// Appends an entry with the given message, made at the date and time that are given
    /// as they are to be written.
    pub fn record(&mut self, datetime: String, message: &str)
        ensures
            final(self)@ == old(self)@.push((datetime@, message@)),
    {
        self.logs.push((datetime, message.to_owned()));
    }
}

/// The entries logged so far, oldest first.
pub fn get_logs(logger: &Logger) -> (logs: Logs)
    ensures
        logs_view(logs) == logger@,
{
    let mut logs: Logs = Vec::new();
    let mut index: usize = 0;
    while index < logger.logs.len()
        invariant
            index <= logger.logs.len(),
            logs@.len() == index,
            forall|i: int| 0 <= i < index ==> (#[trigger] logs@[i]) == logger.logs@[i],
        decreases logger.logs.len() - index,
    {
        let entry = &logger.logs[index];
        logs.push((entry.0.clone(), entry.1.clone()));
        index += 1;
    }
    logs
}

/// Logs the message, as one made at the given time in nanoseconds since the Unix epoch.
pub fn log(logger: &mut Logger, time_ns: u64, message: &str)
    ensures
        final(logger)@ == old(logger)@.push(
            (iso_datetime(time_ns, Some(LOG_TIME_PRECISION)), message@),
        ),
{
    logger.log(time_ns, message);
}

} // verus!
