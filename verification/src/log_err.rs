//! Reporting a failure through the `log` facade.
//!
//! The message is built here, by verified code. Whether a record is made at
//! all, and what becomes of it, is the facade's business: the level filters
//! and the logger are read through wrappers that promise nothing.

use vstd::prelude::*;
use vstd::string::*;

verus! {

/// `std::fmt::Arguments`, the formatted text that a `log::Record` carries.
/// Opaque here: it is only passed on.
#[verifier::external_type_specification]
#[verifier::external_body]
pub struct ExArguments<'a>(std::fmt::Arguments<'a>);

/// The process-wide logger, taken at error level: what is written into it
/// becomes the text of one record.
struct ErrorRecords;

impl ErrorRecords {
    /// Builds a record with `log::Record::builder` (text `args`, level
    /// `log::Level::Error`, this module as target and module path) and hands
    /// it to `log::Log::log` of the logger that `log::logger` returns.
    /// Nothing is claimed of the effect: a logger may drop the record, and
    /// the one that stands in before any is installed drops every record.
    #[verifier::external_body]
    fn write_fmt(&mut self, args: std::fmt::Arguments<'_>) {
        log::logger().log(
            &log::Record::builder()
                .args(args)
                .level(log::Level::Error)
                .target("error_traits::log_err")
                .module_path_static(Some("error_traits::log_err"))
                .build(),
        );
    }
}

/// Sends `message`, as it stands, to [`ErrorRecords`] with `write!`, the way
/// to make the `std::fmt::Arguments` that a `log::Record` carries. Nothing is
/// claimed of the effect.
#[verifier::external_body]
fn forward_error(message: &str) {
    write!(ErrorRecords, "{}", message)
}

/// Compares `log::Level::Error` with `log::STATIC_MAX_LEVEL`, the filter that
/// the build fixed, as `log::error!` does first. The answer depends on how
/// the `log` crate was built, so nothing is claimed of it.
#[verifier::external_body]
fn build_admits_errors() -> bool {
    PartialOrd::le(&log::Level::Error, &log::STATIC_MAX_LEVEL)
}

/// Compares `log::Level::Error` with what `log::max_level` returns, the
/// filter that the application set, as `log::error!` does next. The answer
/// depends on the state of the process, so nothing is claimed of it.
#[verifier::external_body]
fn process_admits_errors() -> bool {
    PartialOrd::le(&log::Level::Error, &log::max_level())
}

/// The text of a record: the caller's prefix, then the failure as text, with
/// nothing between them.
pub fn failure_message(log_prefix: &str, rendered: &str) -> (message: String)
    ensures
        message@ == log_prefix@ + rendered@,
{
    log_prefix.to_owned().concat(rendered)
}

/// Whether `message` is `log_prefix` followed by a text that `to_string`
/// makes of `e`.
pub open spec fn is_record_text<E: core::fmt::Display>(
    log_prefix: &str,
    e: &E,
    message: String,
) -> bool {
    exists|rendered: String| #[trigger]
        to_string_from_display_ensures::<E>(e, rendered) && message@ == log_prefix@ + rendered@
}

/// Decides what `log_err` sends for `outcome`, given whether the level
/// filters admit errors: nothing for a success, nothing where they do not,
/// and else the prefix followed by the failure as text. The failure is
/// rendered only where a record is due.
pub fn record_text<T, E: core::fmt::Display>(
    outcome: &Result<T, E>,
    log_prefix: &str,
    admitted: bool,
) -> (text: Option<String>)
    ensures
        text is Some <==> outcome is Err && admitted,
        text matches Some(message) ==> is_record_text(log_prefix, &outcome->Err_0, message),
{
    match outcome {
        Err(e) if admitted => {
            let rendered = e.to_string();
            Some(failure_message(log_prefix, rendered.as_str()))
        },
        _ => None,
    }
}

/// Logs a failure and hands the receiver back.
pub trait LogErr: Sized {
    /// Returns the receiver as it came. Where it is a failure and both level
    /// filters admit errors, the text that [`record_text`] gives goes to the
    /// process-wide logger as one record at error level. No logger need be
    /// installed: without one the record is dropped.
    fn log_err(self, log_prefix: &str) -> (outcome: Self)
        ensures
            outcome == self,
    ;
}

impl<T, E: core::fmt::Display> LogErr for Result<T, E> {
    fn log_err(self, log_prefix: &str) -> (outcome: Self) {
        let admitted = self.is_err() && build_admits_errors() && process_admits_errors();
        if let Some(message) = record_text(&self, log_prefix, admitted) {
            forward_error(message.as_str());
        }
        self
    }
}

} // verus!
