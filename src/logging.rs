//! Log records and the lines they are written as.
use vstd::prelude::*;

verus! {

/// Origin of a log.
#[derive(Clone, Debug, PartialEq, Eq)]
pub enum LogOrigin {
    /// From the main thread.
    MainThread,
    /// From the matrix control thread.
    MatrixControlThread,
    /// From the logging thread.
    LoggingThread,
    /// From a plugin with the given identifier.
    Plugin(String),
}

/// Urgency of a log.
#[derive(Clone, Copy, Debug, PartialEq, Eq, Structural)]
pub enum LogType {
    Normal,
    Warning,
    Error,
}

/// The decimal digit of `d`, below ten.
pub open spec fn digit_char(d: nat) -> char {
    ((d + 48) as u8) as char
}

/// The decimal digits of `n`, without leading zeros.
pub open spec fn decimal_digits(n: nat) -> Seq<char>
    decreases n,
{
    if n < 10 {
        seq![digit_char(n)]
    } else {
        decimal_digits(n / 10).push(digit_char(n % 10))
    }
}

/// Relies on u64's `to_string` (its `Display`): the decimal digits of the
/// number, without sign or leading zeros.
#[verifier::external_body]
pub(crate) fn decimal_text(n: u64) -> (r: String)
    ensures
        r@ == decimal_digits(n as nat),
{
    n.to_string()
}

/// The tag that names where a log came from.
pub open spec fn origin_tag(o: LogOrigin) -> Seq<char> {
    match o {
        LogOrigin::MainThread => "[MainThread]"@,
        LogOrigin::MatrixControlThread => "[MatrixControlThread]"@,
        LogOrigin::LoggingThread => "[LoggingThread]"@,
        LogOrigin::Plugin(id) => "[Plugin("@ + id@ + ")]"@,
    }
}

/// The prefix that marks a log's urgency.
pub open spec fn type_tag(t: LogType) -> Seq<char> {
    match t {
        LogType::Normal => ""@,
        LogType::Warning => "WARN: "@,
        LogType::Error => "ERROR: "@,
    }
}

/// The time of a log, as written: seconds since the epoch, or a note that
/// the clock could not say.
pub open spec fn time_text(since_epoch: Option<u64>) -> Seq<char> {
    match since_epoch {
        Some(s) => decimal_digits(s as nat),
        None => "Unknown time"@,
    }
}

/// A log message.
#[derive(Clone, Debug)]
pub struct Log {
    /// When the log was made, as written.
    pub time: String,
    /// The thread or plugin that made the log.
    pub log_origin: LogOrigin,
    /// The urgency of the log.
    pub log_type: LogType,
    /// The reason for the log.
    pub description: String,
}

impl Log {
    /// Assemble a log with the given origin, type and description, made
    /// `since_epoch` seconds after the epoch (`None` where the clock could
    /// not say).
    pub fn new(log_origin: LogOrigin, log_type: LogType, description: String, since_epoch: Option<u64>) -> (r: Self)
        ensures
            r.time@ == time_text(since_epoch),
            r.log_origin == log_origin,
            r.log_type == log_type,
            r.description == description,
    {
        let time = match since_epoch {
            Some(s) => decimal_text(s),
            None => "Unknown time".to_owned(),
        };
        Log { time, log_origin, log_type, description }
    }

    /// The line the log is written as: `"<time> | <origin> <type><description>"`.
    pub fn to_string(&self) -> (r: String)
        ensures
            r@ == self.time@ + " | "@ + origin_tag(self.log_origin) + " "@ + type_tag(self.log_type)
                + self.description@,
    {
        let origin = match &self.log_origin {
            LogOrigin::MainThread => "[MainThread]".to_owned(),
            LogOrigin::MatrixControlThread => "[MatrixControlThread]".to_owned(),
            LogOrigin::LoggingThread => "[LoggingThread]".to_owned(),
            LogOrigin::Plugin(id) => "[Plugin(".to_owned().concat(id.as_str()).concat(")]"),
        };
        let kind = match self.log_type {
            LogType::Normal => "",
            LogType::Warning => "WARN: ",
            LogType::Error => "ERROR: ",
        };
        self.time.clone().concat(" | ").concat(origin.as_str()).concat(" ").concat(kind).concat(
            self.description.as_str(),
        )
    }
}

/// Where the logs of one run are written: a file named after the time the
/// run began, in the log directory.
#[derive(Clone, Debug)]
pub struct LoggingThread {
    log_path: String,
}

impl LoggingThread {
    /// The log path.
    pub closed spec fn path(&self) -> Seq<char> {
        self.log_path@
    }

    /// The logs of a run that began `time_uid` seconds after the epoch go
    /// to `"<log_dir>/mtx<time_uid>.log"`.
    pub fn new(log_dir: String, time_uid: u64) -> (r: Self)
        ensures
            r.path() == log_dir@ + "/mtx"@ + decimal_digits(time_uid as nat) + ".log"@,
    {
        let uid = decimal_text(time_uid);
        LoggingThread { log_path: log_dir.concat("/mtx").concat(uid.as_str()).concat(".log") }
    }

    pub fn log_path(&self) -> (r: String)
        ensures
            r@ == self.path(),
    {
        self.log_path.clone()
    }
}

} // verus!
