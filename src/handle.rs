use vstd::prelude::*;

use crate::error::XrandrError;

verus! {

/// What a display handle holds, as plain values.
pub struct HandleView {
    pub screen: i32,
    pub version: (u32, u32),
    pub event_base: i32,
    pub error_base: i32,
}

/// The answer to the extension's version query.
#[derive(Clone, Copy, Debug, PartialEq, Eq, Structural)]
pub struct VersionReply {
    /// Nonzero when the query succeeded.
    pub status: i32,
    pub major: i32,
    pub minor: i32,
}

/// The answer to the extension's presence query.
#[derive(Clone, Copy, Debug, PartialEq, Eq, Structural)]
pub struct ExtensionReply {
    /// Nonzero when the extension is present.
    pub present: i32,
    pub event_base: i32,
    pub error_base: i32,
}

/// The answer to the screen size range query.
#[derive(Clone, Copy, Debug, PartialEq, Eq, Structural)]
pub struct SizeRangeReply {
    /// Nonzero when the query succeeded.
    pub status: i32,
    pub min_width: i32,
    pub min_height: i32,
    pub max_width: i32,
    pub max_height: i32,
}

/// An open display handle whose extension presence and version have been
/// confirmed. The only way to get one is through the three opening stages.
pub struct Xrandr {
    screen: i32,
    version_cache: (u32, u32),
    event_base: i32,
    error_base: i32,
}

/// A connection whose extension version is still to be negotiated.
pub struct PendingVersion {
    screen: i32,
}

/// A connection whose extension presence is still to be confirmed.
pub struct PendingExtension {
    screen: i32,
    version: (u32, u32),
}

impl View for Xrandr {
    type V = HandleView;

    closed spec fn view(&self) -> HandleView {
        HandleView {
            screen: self.screen,
            version: self.version_cache,
            event_base: self.event_base,
            error_base: self.error_base,
        }
    }
}

impl View for PendingVersion {
    type V = i32;

    closed spec fn view(&self) -> i32 {
        self.screen
    }
}

impl View for PendingExtension {
    type V = (i32, (u32, u32));

    closed spec fn view(&self) -> (i32, (u32, u32)) {
        (self.screen, self.version)
    }
}

/// The version that a successful version query reports.
pub open spec fn version_of(reply: VersionReply) -> (u32, u32) {
    (reply.major as u32, reply.minor as u32)
}

/// The first stage: a display was reached, on the given default screen, or
/// it was not.
pub open spec fn connect_outcome(screen: Option<i32>) -> Result<i32, XrandrError> {
    match screen {
        Some(s) => Ok(s),
        None => Err(XrandrError::ConnectionError),
    }
}

/// The second stage: `None` stands for an extension client that could not
/// be loaded, a zero status for a failed version query.
pub open spec fn negotiate_outcome(screen: i32, reply: Option<VersionReply>) -> Result<
    (i32, (u32, u32)),
    XrandrError,
> {
    match reply {
        Some(v) => if v.status != 0 {
            Ok((screen, version_of(v)))
        } else {
            Err(XrandrError::ExtensionUnavailable)
        },
        None => Err(XrandrError::ExtensionUnavailable),
    }
}

/// The last stage: the extension must be reported present.
pub open spec fn probe_outcome(pending: (i32, (u32, u32)), reply: ExtensionReply) -> Result<
    HandleView,
    XrandrError,
> {
    if reply.present != 0 {
        Ok(
            HandleView {
                screen: pending.0,
                version: pending.1,
                event_base: reply.event_base,
                error_base: reply.error_base,
            },
        )
    } else {
        Err(XrandrError::ExtensionUnavailable)
    }
}

/// The outcome of opening a handle from the replies of its three stages; a
/// stage that fails ends the sequence with its error.
pub open spec fn open_outcome(
    screen: Option<i32>,
    version: Option<VersionReply>,
    extension: ExtensionReply,
) -> Result<HandleView, XrandrError> {
    match connect_outcome(screen) {
        Err(e) => Err(e),
        Ok(s) => match negotiate_outcome(s, version) {
            Err(e) => Err(e),
            Ok(pending) => probe_outcome(pending, extension),
        },
    }
}

/// The screen size range that a reply describes: it is taken only from a
/// successful query whose bounds are ordered.
pub open spec fn size_range_outcome(reply: SizeRangeReply) -> Result<(i32, i32, i32, i32), XrandrError> {
    if reply.status != 0 && reply.min_width <= reply.max_width && reply.min_height
        <= reply.max_height {
        Ok((reply.min_width, reply.min_height, reply.max_width, reply.max_height))
    } else {
        Err(XrandrError::QueryError)
    }
}

impl Xrandr {
    /// Starts opening a handle. `screen` is the default screen of the display
    /// that was reached, or `None` when no display could be reached.
    pub fn connect(screen: Option<i32>) -> (r: Result<PendingVersion, XrandrError>)
        ensures
            match r {
                Ok(p) => connect_outcome(screen) == Ok::<i32, XrandrError>(p@),
                Err(e) => connect_outcome(screen) == Err::<i32, XrandrError>(e),
            },
    {
        match screen {
            Some(screen) => Ok(PendingVersion { screen }),
            None => Err(XrandrError::ConnectionError),
        }
    }

    /// The negotiated extension version (major, minor).
    pub fn version(&self) -> (r: (u32, u32))
        ensures
            r == self@.version,
    {
        self.version_cache
    }

    /// The display's default screen.
    pub fn screen(&self) -> (r: i32)
        ensures
            r == self@.screen,
    {
        self.screen
    }

    /// The first event code of the extension.
    pub fn event_base(&self) -> (r: i32)
        ensures
            r == self@.event_base,
    {
        self.event_base
    }

    /// The first error code of the extension.
    pub fn error_base(&self) -> (r: i32)
        ensures
            r == self@.error_base,
    {
        self.error_base
    }

    /// The screen size range (min_width, min_height, max_width, max_height)
    /// from the server's reply.
    pub fn screen_size_range(&self, reply: SizeRangeReply) -> (r: Result<
        (i32, i32, i32, i32),
        XrandrError,
    >)
        ensures
            r == size_range_outcome(reply),
            r matches Ok(range) ==> range.0 <= range.2 && range.1 <= range.3,
    {
        if reply.status != 0 && reply.min_width <= reply.max_width && reply.min_height
            <= reply.max_height {
            Ok((reply.min_width, reply.min_height, reply.max_width, reply.max_height))
        } else {
            Err(XrandrError::QueryError)
        }
    }
}

impl PendingVersion {
    /// Takes the reply to the version query; `None` when the extension's
    /// client library could not be loaded.
    pub fn negotiate(self, reply: Option<VersionReply>) -> (r: Result<PendingExtension, XrandrError>)
        ensures
            match r {
                Ok(p) => negotiate_outcome(self@, reply) == Ok::<_, XrandrError>(p@),
                Err(e) => negotiate_outcome(self@, reply) == Err::<(i32, (u32, u32)), _>(e),
            },
    {
        match reply {
            Some(v) => if v.status != 0 {
                Ok(
                    PendingExtension {
                        screen: self.screen,
                        version: (v.major as u32, v.minor as u32),
                    },
                )
            } else {
                Err(XrandrError::ExtensionUnavailable)
            },
            None => Err(XrandrError::ExtensionUnavailable),
        }
    }
}

impl PendingExtension {
    /// Takes the reply to the presence query and finishes opening the handle.
    pub fn probe(self, reply: ExtensionReply) -> (r: Result<Xrandr, XrandrError>)
        ensures
            match r {
                Ok(h) => probe_outcome(self@, reply) == Ok::<_, XrandrError>(h@),
                Err(e) => probe_outcome(self@, reply) == Err::<HandleView, _>(e),
            },
    {
        if reply.present != 0 {
            Ok(
                Xrandr {
                    screen: self.screen,
                    version_cache: self.version,
                    event_base: reply.event_base,
                    error_base: reply.error_base,
                },
            )
        } else {
            Err(XrandrError::ExtensionUnavailable)
        }
    }
}

/// Opening an unreachable display fails with a connection error, whatever
/// the later stages would have answered: no handle comes out.
pub proof fn lemma_unreachable_display_fails(version: Option<VersionReply>, extension: ExtensionReply)
    ensures
        open_outcome(None, version, extension) == Err::<HandleView, _>(XrandrError::ConnectionError),
{
}

/// The version that an opened handle reports is the one that the version
/// query returned while it was opened.
pub proof fn lemma_version_is_negotiated(
    screen: Option<i32>,
    version: Option<VersionReply>,
    extension: ExtensionReply,
)
    ensures
        open_outcome(screen, version, extension) matches Ok(h) ==> version matches Some(v)
            && h.version == version_of(v),
{
}

} // verus!
