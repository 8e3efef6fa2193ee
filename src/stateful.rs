use vstd::prelude::*;
use crate::rect::Rect;
use crate::snapshot::{render_spec, Chafas, ChafaError, LineSlot, SnapshotView};
use crate::source::ImageSource;

verus! {

/// What the cache asks of the resize policy: the rectangle of the frame it
/// holds, the area now available, and whether a new frame is owed whatever
/// the geometry.
#[derive(Clone, Copy, Debug, PartialEq, Eq, Structural)]
pub struct ResizeRequest {
    pub previous: Rect,
    pub area: Rect,
    pub force: bool,
}

/// How a resize request was answered.
pub enum Resized {
    /// The policy found no new frame due.
    Keep,
    /// The policy chose a rectangle and the encoder produced its frame.
    Encoded(Chafas),
    /// The policy chose a rectangle and the encoder failed on it.
    EncoderFailed,
}

/// What a cache holds: the tracked image, the last frame, and the identity
/// of the image that frame was made from (`None` before the first frame).
pub struct CacheView<P> {
    pub source: ImageSource<P>,
    pub current: SnapshotView,
    pub last_identity: Option<u64>,
}

/// Whether the frame held is stale in content, whatever the geometry.
pub open spec fn forced<P>(v: CacheView<P>) -> bool {
    v.last_identity != Some(v.source.identity)
}

/// The request a resize pass makes for `area`; none for an area without cells.
pub open spec fn request_spec<P>(v: CacheView<P>, area: Rect) -> Option<ResizeRequest> {
    if area.is_degenerate_spec() {
        None
    } else {
        Some(ResizeRequest { previous: v.current.rect, area, force: forced(v) })
    }
}

/// What a resize pass for `area` answered by `o` reports: whether a new frame
/// was taken, or why the answer was refused.
pub open spec fn step_result<P>(v: CacheView<P>, area: Rect, o: Resized) -> Result<bool, ChafaError> {
    match request_spec(v, area) {
        None => Ok(false),
        Some(req) => match o {
            Resized::Keep => if req.force {
                Err(ChafaError::PolicyContractViolation)
            } else {
                Ok(false)
            },
            Resized::Encoded(c) => if c@.rect.is_degenerate_spec() {
                Err(ChafaError::PolicyContractViolation)
            } else {
                Ok(true)
            },
            Resized::EncoderFailed => Err(ChafaError::EncoderFailure),
        },
    }
}

/// The cache after a resize pass for `area` answered by `o`: a new frame and
/// the identity it was made from are taken together, or nothing changes.
pub open spec fn step_spec<P>(v: CacheView<P>, area: Rect, o: Resized) -> CacheView<P> {
    match o {
        Resized::Encoded(c) => if step_result(v, area, o) == Ok::<bool, ChafaError>(true) {
            CacheView { source: v.source, current: c@, last_identity: Some(v.source.identity) }
        } else {
            v
        },
        _ => v,
    }
}

/// One image on screen across redraws: the frame drawn last, kept until the
/// image or the space it is given changes.
#[derive(Clone)]
pub struct StatefulChafa<P> {
    source: ImageSource<P>,
    current: Chafas,
    last_identity: Option<u64>,
}

impl<P> View for StatefulChafa<P> {
    type V = CacheView<P>;

    closed spec fn view(&self) -> CacheView<P> {
        CacheView { source: self.source, current: self.current@, last_identity: self.last_identity }
    }
}

impl<P> StatefulChafa<P> {
    /// A cache for `source` that holds no frame yet.
    pub fn new(source: ImageSource<P>) -> (r: StatefulChafa<P>)
        ensures
            r@ == (CacheView {
                source,
                current: SnapshotView { text: Seq::empty(), rect: Rect::empty() },
                last_identity: None,
            }),
    {
        StatefulChafa { source, current: Chafas::default(), last_identity: None }
    }

    /// The image tracked.
    pub fn source(&self) -> (r: &ImageSource<P>)
        ensures
            *r == self@.source,
    {
        &self.source
    }

    /// The frame drawn last.
    pub fn current(&self) -> (r: &Chafas)
        ensures
            r@ == self@.current,
    {
        &self.current
    }

    /// The identity of the image the frame held was made from.
    pub fn last_identity(&self) -> (r: Option<u64>)
        ensures
            r == self@.last_identity,
    {
        self.last_identity
    }

    /// Tracks another image; the frame held stays until a resize pass.
    pub fn set_source(&mut self, source: ImageSource<P>)
        ensures
            final(self)@ == (CacheView { source, ..old(self)@ }),
    {
        self.source = source;
    }

    /// What to ask the resize policy to learn whether `area` calls for another
    /// size; a hint only, the content is not considered.
    pub fn needs_resize(&self, area: Rect) -> (r: ResizeRequest)
        ensures
            r == (ResizeRequest { previous: self@.current.rect, area, force: false }),
    {
        ResizeRequest { previous: self.current.rect(), area, force: false }
    }

    /// What a resize pass for `area` asks of the resize policy: `force` is
    /// set when the image changed since the frame held was made. `None` for
    /// an area without cells, where no pass is made.
    pub fn resize_request(&self, area: Rect) -> (r: Option<ResizeRequest>)
        ensures
            r == request_spec(self@, area),
    {
        if area.is_degenerate() {
            return None;
        }
        let force = match self.last_identity {
            Some(id) => id != self.source.identity,
            None => true,
        };
        Some(ResizeRequest { previous: self.current.rect(), area, force })
    }

    /// Completes a resize pass for `area` with the answer `resized`. A new
    /// frame replaces the one held, and the image's identity is recorded with
    /// it. An area without cells changes nothing; a policy that declines a
    /// forced request, or chooses a rectangle without cells, is refused; an
    /// encoder failure keeps the frame held.
    pub fn resize_encode(&mut self, area: Rect, resized: Resized) -> (r: Result<bool, ChafaError>)
        ensures
            final(self)@ == step_spec(old(self)@, area, resized),
            r == step_result(old(self)@, area, resized),
    {
        let request = match self.resize_request(area) {
            Some(req) => req,
            None => return Ok(false),
        };
        match resized {
            Resized::Keep => {
                if request.force {
                    Err(ChafaError::PolicyContractViolation)
                } else {
                    Ok(false)
                }
            },
            Resized::Encoded(frame) => {
                if frame.rect().is_degenerate() {
                    Err(ChafaError::PolicyContractViolation)
                } else {
                    self.current = frame;
                    self.last_identity = Some(self.source.identity);
                    Ok(true)
                }
            },
            Resized::EncoderFailed => Err(ChafaError::EncoderFailure),
        }
    }

    /// Where each line of the frame held goes when drawn into `area`.
    pub fn render(&self, area: Rect) -> (r: Result<Vec<LineSlot>, ChafaError>)
        ensures
            match (r, render_spec(self@.current.text, area)) {
                (Ok(v), Ok(s)) => v@ == s,
                (Err(e), Err(f)) => e == f,
                _ => false,
            },
    {
        self.current.render(area)
    }
}

/// A resize pass over an image whose identity is the one the frame held was
/// made from, for the rectangle that frame was made for, is answered by the
/// policy with no new frame; it then leaves the cache as it was, and drawing
/// the cache afterwards places the same lines in the same cells as before.
pub proof fn law_unchanged_pass_is_idempotent<P>(v: CacheView<P>, area: Rect, draw: Rect)
    requires
        v.last_identity == Some(v.source.identity),
        area == v.current.rect,
    ensures
        step_result(v, area, Resized::Keep) == Ok::<bool, ChafaError>(false),
        step_spec(v, area, Resized::Keep) == v,
        render_spec(step_spec(v, area, Resized::Keep).current.text, draw) == render_spec(v.current.text, draw),
{
}

/// When the image's identity differs from the one the frame held was made
/// from, a resize pass over an area with cells asks for a new frame whatever
/// the geometry, refuses an answer without one, and records the new identity
/// only together with a new frame.
pub proof fn law_changed_identity_forces_encode<P>(v: CacheView<P>, area: Rect)
    requires
        v.last_identity != Some(v.source.identity),
        !area.is_degenerate_spec(),
    ensures
        request_spec(v, area) == Some(ResizeRequest { previous: v.current.rect, area, force: true }),
        step_result(v, area, Resized::Keep) == Err::<bool, ChafaError>(ChafaError::PolicyContractViolation),
        step_spec(v, area, Resized::Keep) == v,
        forall|o: Resized| #[trigger] step_spec(v, area, o).last_identity == Some(v.source.identity) ==> o is Encoded,
{
}

/// Of two resize passes, where the first took a new frame and the image was
/// replaced by one of another identity before the second, the second asks for
/// a new frame whatever the area.
pub proof fn law_new_identity_after_encode_forces<P>(
    v: CacheView<P>,
    first_area: Rect,
    first: Resized,
    source: ImageSource<P>,
    second_area: Rect,
)
    requires
        step_result(v, first_area, first) == Ok::<bool, ChafaError>(true),
        source.identity != v.source.identity,
        !second_area.is_degenerate_spec(),
    ensures
        ({
            let after = CacheView { source, ..step_spec(v, first_area, first) };
            &&& request_spec(after, second_area) matches Some(req) && req.force
            &&& step_result(after, second_area, Resized::Keep) == Err::<bool, ChafaError>(
                ChafaError::PolicyContractViolation,
            )
        }),
{
}

/// A resize pass for an area without cells makes no request of the policy,
/// so the encoder is not run, and changes neither the frame held nor the
/// identity recorded with it, whatever answer it is handed.
pub proof fn law_degenerate_area_is_noop<P>(v: CacheView<P>, area: Rect, o: Resized)
    requires
        area.is_degenerate_spec(),
    ensures
        request_spec(v, area) is None,
        step_spec(v, area, o) == v,
        step_result(v, area, o) == Ok::<bool, ChafaError>(false),
{
}

} // verus!
