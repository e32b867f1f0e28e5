use vstd::prelude::*;

use crate::error::XrandrError;
use crate::handle::Xrandr;
use crate::rotation::{rotation_of, Rotation};

verus! {

/// A server timestamp, in milliseconds.
#[derive(Clone, Copy, Debug, PartialEq, Eq, PartialOrd, Ord, Structural)]
pub struct Timestamp(pub u64);

/// The fields of one CRTC information record, as the server sent them.
#[derive(Clone, Copy, Debug, PartialEq, Eq, Structural)]
pub struct CrtcReply {
    pub x: i32,
    pub y: i32,
    pub width: u32,
    pub height: u32,
    /// The rotation's protocol code.
    pub rotation: u16,
}

/// A snapshot of one CRTC's geometry and rotation.
#[derive(Clone, Copy, Debug, PartialEq, Eq, Structural)]
pub struct Crtc {
    pub x: i32,
    pub y: i32,
    pub width: u32,
    pub height: u32,
    pub rotation: Rotation,
}

/// The record that an information reply describes, if its rotation code is
/// one of the defined ones.
pub open spec fn crtc_of(reply: CrtcReply) -> Option<Crtc> {
    match rotation_of(reply.rotation as i32) {
        Some(rotation) => Some(
            Crtc { x: reply.x, y: reply.y, width: reply.width, height: reply.height, rotation },
        ),
        None => None,
    }
}

/// Whether an information fetch gave a usable record.
pub open spec fn reply_usable(reply: Option<CrtcReply>) -> bool {
    reply matches Some(r) && crtc_of(r) is Some
}

/// The records that the information replies describe, one per reply.
pub open spec fn crtcs_of(replies: Seq<Option<CrtcReply>>) -> Seq<Crtc>
    recommends
        forall|i: int| 0 <= i < replies.len() ==> reply_usable(#[trigger] replies[i]),
{
    replies.map_values(|reply: Option<CrtcReply>| crtc_of(reply->0)->0)
}

/// The outcome of enumerating the CRTCs: `None` stands for screen resources
/// that could not be fetched, and each `None` inside for an information
/// fetch that failed. Any failure, or any record with an unknown rotation,
/// fails the whole enumeration.
pub open spec fn enumeration_of(resources: Option<Seq<Option<CrtcReply>>>) -> Result<
    Seq<Crtc>,
    XrandrError,
> {
    match resources {
        None => Err(XrandrError::QueryError),
        Some(replies) => if forall|i: int| 0 <= i < replies.len() ==> reply_usable(#[trigger] replies[i]) {
            Ok(crtcs_of(replies))
        } else {
            Err(XrandrError::QueryError)
        },
    }
}

/// The view of a fetch of screen resources.
pub open spec fn resources_view(resources: Option<Vec<Option<CrtcReply>>>) -> Option<Seq<Option<CrtcReply>>> {
    match resources {
        Some(v) => Some(v@),
        None => None,
    }
}

impl Xrandr {
    /// Builds the CRTC records from the replies of one enumeration, in the
    /// order in which the server listed the CRTCs.
    pub fn enumerate_crtcs(&self, resources: Option<Vec<Option<CrtcReply>>>) -> (r: Result<
        Vec<Crtc>,
        XrandrError,
    >)
        ensures
            match r {
                Ok(crtcs) => enumeration_of(resources_view(resources)) == Ok::<_, XrandrError>(
                    crtcs@,
                ),
                Err(e) => enumeration_of(resources_view(resources)) == Err::<Seq<Crtc>, _>(e),
            },
    {
        let replies = match resources {
            Some(replies) => replies,
            None => return Err(XrandrError::QueryError),
        };
        let mut crtcs: Vec<Crtc> = Vec::new();
        let mut i: usize = 0;
        while i < replies.len()
            invariant
                resources_view(resources) == Some(replies@),
                i <= replies@.len(),
                crtcs@.len() == i,
                forall|j: int| 0 <= j < i ==> reply_usable(#[trigger] replies@[j]),
                forall|j: int| 0 <= j < i ==> #[trigger] crtcs@[j] == crtc_of(replies@[j]->0)->0,
            decreases replies@.len() - i,
        {
            let reply = match replies[i] {
                Some(reply) => reply,
                None => {
                    assert(!reply_usable(replies@[i as int]));
                    return Err(XrandrError::QueryError);
                },
            };
            let rotation = match Rotation::from_code(reply.rotation as i32) {
                Some(rotation) => rotation,
                None => {
                    assert(!reply_usable(replies@[i as int]));
                    return Err(XrandrError::QueryError);
                },
            };
            crtcs.push(
                Crtc { x: reply.x, y: reply.y, width: reply.width, height: reply.height, rotation },
            );
            i = i + 1;
        }
        assert(crtcs@ =~= crtcs_of(replies@));
        Ok(crtcs)
    }
}

/// An enumeration over screen resources that list no CRTC gives an empty
/// sequence, not an error.
pub proof fn lemma_no_crtcs_is_empty()
    ensures
        enumeration_of(Some(Seq::<Option<CrtcReply>>::empty())) == Ok::<_, XrandrError>(
            Seq::<Crtc>::empty(),
        ),
{
    assert(crtcs_of(Seq::<Option<CrtcReply>>::empty()) =~= Seq::<Crtc>::empty());
}

/// Two enumerations that see the same server state, and so the same replies,
/// agree: both fail, or both give records with the same geometry, one by one.
pub proof fn lemma_enumeration_repeatable(
    first: Option<Seq<Option<CrtcReply>>>,
    second: Option<Seq<Option<CrtcReply>>>,
)
    requires
        first == second,
    ensures
        enumeration_of(first) is Ok <==> enumeration_of(second) is Ok,
        enumeration_of(first) matches Ok(a) ==> enumeration_of(second) matches Ok(b) && a.len()
            == b.len() && forall|i: int|
            0 <= i < a.len() ==> {
                &&& (#[trigger] a[i]).x == b[i].x
                &&& a[i].y == b[i].y
                &&& a[i].width == b[i].width
                &&& a[i].height == b[i].height
            },
{
}

} // verus!
