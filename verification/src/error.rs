//! Error values of the switching core.

use vstd::prelude::*;

verus! {

/// The explicit error values of the decision core.
///
/// Connectivity failures towards probes or the broadcasting software are
/// never fatal: they surface as `Offline` classifications or as one of the
/// variants below, and the affected operation is retried on a later tick.
#[derive(Debug, Clone, Copy, PartialEq, Eq, Structural)]
pub enum Error {
    /// A stats page could not be reached or parsed.
    StatsPageNotAvailable,
    /// `type_to_scene` was asked to map `Previous`, which has no entry in a
    /// scene table; the switcher's own control flow never does this.
    SwitchTypeNotSupported,
    /// The broadcasting-software connection has not been established yet.
    UnableInitialConnection,
    /// No broadcasting-software connection is configured for the session.
    NoSoftwareSet,
    /// A chat toggle argument was neither "on" nor "off".
    EnabledToBoolConversionError,
    /// No chat is configured for the session.
    NoChat,
    /// A language code did not name a supported chat language.
    LangNotSupported,
    /// No telemetry has been collected from the broadcasting software yet.
    NoServerInfo,
    /// No source matched a fuzzy source lookup.
    NoSourceFound,
}

} // verus!
