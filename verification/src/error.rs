//! The unified error model: one discriminated type that absorbs the failure
//! domains of the library (syscall failures, name-encoding failures,
//! device-enumeration failures, and a "device not found" condition), with
//! total rendering into a one-line message and a short description.

use vstd::prelude::*;

use vstd::std_specs::convert::FromSpec;

use crate::decimal::decimal_rep;
use crate::decimal::decimal_string;

verus! {

#[verifier::external_type_specification]
#[verifier::external_body]
pub struct ExErrno(nix::errno::Errno);

#[verifier::external_type_specification]
#[verifier::external_body]
pub struct ExIoError(std::io::Error);

/// The one-line message that the OS layer renders for the errno value
/// `code`: the errno's symbolic name followed by its fixed description.
pub uninterp spec fn errno_message_of(code: int) -> Seq<char>;

/// Relies on nix's `Errno::from_raw` and the `Display` impl of `Errno`:
/// the rendered text ("NAME: description") is drawn from a fixed table in
/// nix's source and depends on the errno value alone.
#[verifier::external_body]
fn errno_message(code: i32) -> (r: String)
    ensures
        r@ == errno_message_of(code as int),
{
    format!("{}", nix::errno::Errno::from_raw(code))
}

/// The raw errno value inside `e`: nix declares `Errno` as `repr(i32)`
/// with the operating system's errno values as discriminants.
pub uninterp spec fn errno_raw_of(e: nix::errno::Errno) -> int;

/// Relies on `Errno as i32`: reading the `repr(i32)` discriminant is a
/// pure function of the value and hands back the verbatim code the
/// operating system reported.
#[verifier::external_body]
fn errno_code(e: nix::errno::Errno) -> (r: i32)
    ensures
        r as int == errno_raw_of(e),
{
    e as i32
}

/// Relies on the `Display` impl of `std::io::Error`. For OS errors the
/// text comes from the C library and may depend on the process locale, so
/// nothing is stated of it.
#[verifier::external_body]
fn io_error_message(e: &std::io::Error) -> String {
    format!("{}", e)
}

/// The raw OS error code inside `e`, if `e` was made from one.
pub uninterp spec fn io_error_raw_of(e: std::io::Error) -> Option<i32>;

/// Relies on `std::io::Error::raw_os_error`: it hands back the verbatim
/// OS error code the value was constructed from, or `None` where there
/// was none, and is a pure function of the value.
#[verifier::external_body]
fn io_error_code(e: &std::io::Error) -> (r: Option<i32>)
    ensures
        r == io_error_raw_of(*e),
{
    e.raw_os_error()
}

/// A syscall-layer failure, carried as the errno value the operating system
/// reported, verbatim and never synthesized by this crate.
pub struct SysError {
    /// The raw errno value.
    pub code: i32,
}

/// A name-encoding failure: a caller-supplied device name contained an
/// embedded terminator byte before its logical end.
pub struct NulError {
    /// Byte position of the embedded terminator within the supplied name.
    pub position: usize,
}

/// A device-enumeration-subsystem failure, carried as the one-line message
/// the subsystem rendered for it, together with the underlying OS error
/// code where the subsystem reported one, for programmatic matching.
pub struct UdevError {
    /// The raw OS error code underlying the failure, if there was one.
    pub code: Option<i32>,
    /// The subsystem's own rendering of the failure.
    pub message: String,
}

/// UInput error: the single error type every fallible operation of the
/// library returns. Exactly one variant is active at a time, and each
/// payload is moved in at construction and owned exclusively afterwards.
pub enum Error {
    /// System errors.
    Nix(SysError),
    /// Errors with internal nulls in names.
    Nul(NulError),
    /// Errors coming from udev.
    Udev(UdevError),
    /// The uinput file could not be found.
    NotFound,
}

impl SysError {
    /// The one-line message for a syscall failure: the OS layer's own
    /// rendering of the errno value, unmodified.
    pub open spec fn message_spec(&self) -> Seq<char> {
        errno_message_of(self.code as int)
    }

    /// Renders the syscall failure.
    pub fn message(&self) -> (r: String)
        ensures
            r@ == self.message_spec(),
    {
        errno_message(self.code)
    }
}

impl NulError {
    /// The one-line message for a name-encoding failure: it quotes the
    /// position of the embedded terminator byte.
    pub open spec fn message_spec(&self) -> Seq<char> {
        "nul byte found in provided data at position: "@ + decimal_rep(
            self.position as nat,
        )
    }

    /// Renders the name-encoding failure.
    pub fn message(&self) -> (r: String)
        ensures
            r@ == self.message_spec(),
    {
        let mut s = String::from_str("nul byte found in provided data at position: ");
        let digits = decimal_string(self.position);
        s.append(digits.as_str());
        s
    }
}

impl UdevError {
    /// The one-line message for an enumeration failure: the message the
    /// subsystem itself rendered, unmodified.
    pub open spec fn message_spec(&self) -> Seq<char> {
        self.message@
    }

    /// Renders the enumeration failure.
    pub fn message(&self) -> (r: String)
        ensures
            r@ == self.message_spec(),
    {
        String::from_str(self.message.as_str())
    }
}

impl Error {
    /// The one-line, human-readable message of each variant: the nested
    /// payload's own rendering where there is one, a fixed literal for
    /// `NotFound`.
    pub open spec fn message_spec(&self) -> Seq<char> {
        match self {
            Error::Nix(e) => e.message_spec(),
            Error::Nul(e) => e.message_spec(),
            Error::Udev(e) => e.message_spec(),
            Error::NotFound => "Device not found."@,
        }
    }

    /// Renders the one-line message. Total: every variant has an arm and
    /// none can fail.
    pub fn message(&self) -> (r: String)
        ensures
            r@ == self.message_spec(),
    {
        match self {
            Error::Nix(e) => e.message(),
            Error::Nul(e) => e.message(),
            Error::Udev(e) => e.message(),
            Error::NotFound => String::from_str("Device not found."),
        }
    }

    /// The short, stable description of each variant.
    pub open spec fn description_spec(&self) -> Seq<char> {
        match self {
            Error::Nix(_) => "System error"@,
            Error::Nul(_) => "Null byte error"@,
            Error::Udev(_) => "Device-enumeration error"@,
            Error::NotFound => "Device not found."@,
        }
    }

    /// The short stable description: a fixed label per variant.
    pub fn description(&self) -> (r: &'static str)
        ensures
            r@ == self.description_spec(),
    {
        match self {
            Error::Nix(_) => "System error",
            Error::Nul(_) => "Null byte error",
            Error::Udev(_) => "Device-enumeration error",
            Error::NotFound => "Device not found.",
        }
    }
}

impl From<SysError> for Error {
    /// Wraps a syscall failure, moving the payload in unchanged.
    fn from(value: SysError) -> (r: Error)
        ensures
            r == Error::Nix(value),
    {
        Error::Nix(value)
    }
}

impl vstd::std_specs::convert::FromSpecImpl<SysError> for Error {
    open spec fn obeys_from_spec() -> bool {
        true
    }

    open spec fn from_spec(value: SysError) -> Error {
        Error::Nix(value)
    }
}

impl From<NulError> for Error {
    /// Wraps a name-encoding failure, moving the payload in unchanged.
    fn from(value: NulError) -> (r: Error)
        ensures
            r == Error::Nul(value),
    {
        Error::Nul(value)
    }
}

impl vstd::std_specs::convert::FromSpecImpl<NulError> for Error {
    open spec fn obeys_from_spec() -> bool {
        true
    }

    open spec fn from_spec(value: NulError) -> Error {
        Error::Nul(value)
    }
}

impl From<UdevError> for Error {
    /// Wraps a device-enumeration failure, moving the payload in unchanged.
    fn from(value: UdevError) -> (r: Error)
        ensures
            r == Error::Udev(value),
    {
        Error::Udev(value)
    }
}

impl vstd::std_specs::convert::FromSpecImpl<UdevError> for Error {
    open spec fn obeys_from_spec() -> bool {
        true
    }

    open spec fn from_spec(value: UdevError) -> Error {
        Error::Udev(value)
    }
}

/// Absorbs a syscall failure exactly as nix reports it: the payload is the
/// verbatim errno value inside `e`, so the result provably renders as the
/// very text nix would render for `e`.
pub fn from_nix(e: nix::errno::Errno) -> (r: Error)
    ensures
        (r matches Error::Nix(s) && s.code as int == errno_raw_of(e)),
{
    Error::Nix(SysError { code: errno_code(e) })
}

/// Absorbs a device-enumeration failure exactly as the subsystem reports
/// it (an OS I/O error value), keeping the verbatim underlying OS error
/// code and the subsystem's rendered message as the payload. Nothing is
/// stated of the message: it may depend on the process locale.
pub fn from_udev(e: &std::io::Error) -> (r: Error)
    ensures
        (r matches Error::Udev(u) && u.code == io_error_raw_of(*e)),
{
    Error::Udev(UdevError { code: io_error_code(e), message: io_error_message(e) })
}

/// Law: wrapping a syscall failure yields an error whose message is the OS
/// layer's own rendering of the errno value, unmodified, and whose
/// description is the fixed label "System error".
pub proof fn lemma_sys_conversion(e: SysError)
    ensures
        Error::from_spec(e).message_spec() == e.message_spec(),
        Error::from_spec(e).description_spec() == "System error"@,
{
}

/// Law: wrapping a name-encoding failure yields an error whose message is
/// the payload's own rendering, unmodified, and whose description is the
/// fixed label "Null byte error".
pub proof fn lemma_nul_conversion(e: NulError)
    ensures
        Error::from_spec(e).message_spec() == e.message_spec(),
        Error::from_spec(e).description_spec() == "Null byte error"@,
{
}

/// Law: wrapping a device-enumeration failure yields an error whose
/// message is the message the subsystem rendered, unmodified, and whose
/// description is the fixed label "Device-enumeration error".
pub proof fn lemma_udev_conversion(e: UdevError)
    ensures
        Error::from_spec(e).message_spec() == e.message@,
        Error::from_spec(e).description_spec() == "Device-enumeration error"@,
{
}

/// Law: the `NotFound` variant's message and description are both the
/// fixed literal "Device not found.", regardless of context.
pub proof fn lemma_not_found()
    ensures
        Error::NotFound.message_spec() == "Device not found."@,
        Error::NotFound.description_spec() == "Device not found."@,
{
}

/// Law: conversion is lossless. The payload moved into the unified error
/// is recovered exactly by pattern inspection, and the recovered payload
/// renders identically to the original.
pub proof fn lemma_sys_round_trip(e: SysError)
    ensures
        (Error::from_spec(e) matches Error::Nix(back) && back == e && back.message_spec()
            == e.message_spec()),
{
}

/// Law: conversion is lossless for name-encoding failures, as
/// `lemma_sys_round_trip` states it for syscall failures.
pub proof fn lemma_nul_round_trip(e: NulError)
    ensures
        (Error::from_spec(e) matches Error::Nul(back) && back == e && back.message_spec()
            == e.message_spec()),
{
}

/// Law: conversion is lossless for device-enumeration failures, as
/// `lemma_sys_round_trip` states it for syscall failures.
pub proof fn lemma_udev_round_trip(e: UdevError)
    ensures
        (Error::from_spec(e) matches Error::Udev(back) && back == e && back.message_spec()
            == e.message_spec()),
{
}

} // verus!
