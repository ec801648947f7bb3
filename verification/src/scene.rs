//! Scene node synchronizer: the one render node of a video item, created on
//! the first paint pass, resized and repositioned as the item changes, and
//! marked dirty once per pass and once per frame that reaches it.
use crate::counter::{bump, next_count};
use vstd::prelude::*;

verus! {

/// A size in device pixels.
#[derive(Clone, Copy, Debug, PartialEq, Eq, Structural)]
pub struct SurfaceSize {
    pub width: u32,
    pub height: u32,
}

impl SurfaceSize {
    /// Both dimensions are set.
    pub open spec fn is_set(&self) -> bool {
        self.width != 0 && self.height != 0
    }
}

/// The size that a paint pass forwards to the decode engine: the size that
/// was asked for explicitly where both its dimensions are set, else the size
/// of the item's layout (scaled to device pixels by the host).
pub open spec fn target_size(explicit: SurfaceSize, layout: SurfaceSize) -> SurfaceSize {
    if explicit.is_set() {
        explicit
    } else {
        layout
    }
}

/// Computes [`target_size`].
pub fn resolve_target_size(explicit: SurfaceSize, layout: SurfaceSize) -> (size: SurfaceSize)
    ensures
        size == target_size(explicit, layout),
{
    if explicit.width != 0 && explicit.height != 0 {
        explicit
    } else {
        layout
    }
}

/// How far the render node has come.
#[derive(Clone, Copy, Debug, PartialEq, Eq, Structural)]
pub enum NodePhase {
    /// No paint pass has run yet; there is no node.
    Uninitialized,
    /// The node exists.
    NodeCreated,
    /// The item gave its resources up; there is no node any more and there
    /// will be none.
    Released,
}

impl NodePhase {
    /// Position of the phase in the life of a node. A node only moves to
    /// phases of a higher rank.
    pub open spec fn rank(self) -> nat {
        match self {
            NodePhase::Uninitialized => 0,
            NodePhase::NodeCreated => 1,
            NodePhase::Released => 2,
        }
    }
}

/// What the host has to do on the render thread in one paint pass, in the
/// order of the fields.
#[derive(Clone, Copy, Debug, PartialEq, Eq, Structural)]
pub struct PaintPass {
    /// Create the render node.
    pub create_node: bool,
    /// Register the callback slots with the decode engine, for the session
    /// with this number.
    pub register_session: Option<u64>,
    /// Forward this size to the decode engine's sync step.
    pub sync: Option<SurfaceSize>,
    /// Mark the content of the node dirty.
    pub mark_dirty: bool,
    /// Set the node's rectangle to the item's bounding rectangle.
    pub update_rect: bool,
}

impl PaintPass {
    /// A pass in which nothing is done.
    pub open spec fn idle() -> PaintPass {
        PaintPass {
            create_node: false,
            register_session: None,
            sync: None,
            mark_dirty: false,
            update_rect: false,
        }
    }
}

/// State of the render node of one item.
#[derive(Clone, Copy, Debug, PartialEq, Eq, Structural)]
pub struct SceneNodeSynchronizer {
    pub phase: NodePhase,
    /// The item has content to paint, so paint passes are due.
    pub has_contents: bool,
    /// The item's geometry changed since the node's rectangle was last set.
    pub geometry_changed: bool,
    /// The session for which the callback slots are registered with the
    /// decode engine, if they are.
    pub registered_session: Option<u64>,
    /// How often the content of the node was marked dirty.
    pub dirty_marks: u64,
}

impl SceneNodeSynchronizer {
    /// The state of an item that was just constructed.
    pub open spec fn initial() -> SceneNodeSynchronizer {
        SceneNodeSynchronizer {
            phase: NodePhase::Uninitialized,
            has_contents: false,
            geometry_changed: false,
            registered_session: None,
            dirty_marks: 0,
        }
    }

    /// What holds of every state that an item can reach: callback slots are
    /// registered only while the node exists, and the node exists only for
    /// an item with content, so that a pass on it does run.
    pub open spec fn wf(self) -> bool {
        &&& self.registered_session is Some ==> self.phase == NodePhase::NodeCreated
        &&& self.phase == NodePhase::NodeCreated ==> self.has_contents
    }

    /// Whether a paint pass does anything: the item has content and has not
    /// given its resources up.
    pub open spec fn paints(self) -> bool {
        self.has_contents && self.phase != NodePhase::Released
    }

    /// The state after the item gained content.
    pub open spec fn with_contents(self) -> SceneNodeSynchronizer {
        SceneNodeSynchronizer { has_contents: true, ..self }
    }

    /// The state after a notification that the item's geometry changed.
    pub open spec fn after_geometry_change(self) -> SceneNodeSynchronizer {
        SceneNodeSynchronizer { has_contents: true, geometry_changed: true, ..self }
    }

    /// What a paint pass does in this state.
    pub open spec fn pass(self, explicit: SurfaceSize, layout: SurfaceSize, session: u64)
        -> PaintPass {
        if !self.paints() {
            PaintPass::idle()
        } else {
            PaintPass {
                create_node: self.phase == NodePhase::Uninitialized,
                register_session: if self.registered_session == Some(session) {
                    None
                } else {
                    Some(session)
                },
                sync: Some(target_size(explicit, layout)),
                mark_dirty: true,
                update_rect: self.geometry_changed,
            }
        }
    }

    /// The state after a paint pass.
    pub open spec fn after_paint(self, session: u64) -> SceneNodeSynchronizer {
        if !self.paints() {
            self
        } else {
            SceneNodeSynchronizer {
                phase: NodePhase::NodeCreated,
                has_contents: true,
                geometry_changed: false,
                registered_session: Some(session),
                dirty_marks: bump(self.dirty_marks),
            }
        }
    }

    /// Whether a frame delivered for `session` reaches the node: the node
    /// exists and its callback slots are registered for that session.
    pub open spec fn receives(self, session: u64) -> bool {
        self.phase == NodePhase::NodeCreated && self.registered_session == Some(session)
    }

    /// The state after a frame reached the node.
    pub open spec fn after_frame(self) -> SceneNodeSynchronizer {
        SceneNodeSynchronizer { dirty_marks: bump(self.dirty_marks), ..self }
    }

    /// The state after the item gave its resources up.
    pub open spec fn after_release(self) -> SceneNodeSynchronizer {
        SceneNodeSynchronizer {
            phase: NodePhase::Released,
            registered_session: None,
            ..self
        }
    }

    /// The synchronizer of a new item: no node, nothing to paint.
    pub fn new() -> (node: Self)
        ensures
            node == Self::initial(),
    {
        SceneNodeSynchronizer {
            phase: NodePhase::Uninitialized,
            has_contents: false,
            geometry_changed: false,
            registered_session: None,
            dirty_marks: 0,
        }
    }

    /// Notes that the item has content to paint.
    pub fn gain_contents(&mut self)
        ensures
            *final(self) == old(self).with_contents(),
    {
        self.has_contents = true;
    }

    /// Notes that the item's geometry changed: the next paint pass sets the
    /// node's rectangle.
    pub fn geometry_changed(&mut self)
        ensures
            *final(self) == old(self).after_geometry_change(),
    {
        self.has_contents = true;
        self.geometry_changed = true;
    }

    /// Runs one paint pass with the explicit surface size, the layout size
    /// in device pixels and the number of the current session, and says
    /// what the host has to do.
    ///
    /// The node is created on the first pass and never again. The callback
    /// slots are registered when they are not registered for `session`.
    /// Every pass forwards the target size and marks the content dirty; the
    /// rectangle is set only after a geometry change, which the pass then
    /// forgets. A released item, or one without content, does nothing.
    pub fn paint(&mut self, explicit: SurfaceSize, layout: SurfaceSize, session: u64) -> (pass:
        PaintPass)
        ensures
            pass == old(self).pass(explicit, layout, session),
            *final(self) == old(self).after_paint(session),
    {
        if !self.has_contents || self.phase == NodePhase::Released {
            return PaintPass {
                create_node: false,
                register_session: None,
                sync: None,
                mark_dirty: false,
                update_rect: false,
            };
        }
        let create_node = self.phase == NodePhase::Uninitialized;
        let registered = match self.registered_session {
            Some(s) => s == session,
            None => false,
        };
        let pass = PaintPass {
            create_node,
            register_session: if registered {
                None
            } else {
                Some(session)
            },
            sync: Some(resolve_target_size(explicit, layout)),
            mark_dirty: true,
            update_rect: self.geometry_changed,
        };
        self.phase = NodePhase::NodeCreated;
        self.geometry_changed = false;
        self.registered_session = Some(session);
        self.dirty_marks = next_count(self.dirty_marks);
        pass
    }

    /// Whether a frame delivered for `session` reaches the node.
    pub fn is_receiving(&self, session: u64) -> (yes: bool)
        ensures
            yes == self.receives(session),
    {
        let registered = match self.registered_session {
            Some(s) => s == session,
            None => false,
        };
        self.phase == NodePhase::NodeCreated && registered
    }

    /// Marks the content dirty for one frame that reached the node.
    pub fn frame_delivered(&mut self)
        ensures
            *final(self) == old(self).after_frame(),
    {
        self.dirty_marks = next_count(self.dirty_marks);
    }

    /// Gives the node up for good.
    pub fn release(&mut self)
        ensures
            *final(self) == old(self).after_release(),
    {
        self.phase = NodePhase::Released;
        self.registered_session = None;
    }
}

/// The node is created once: whatever the state, a pass that follows another
/// pass does not create it, and within one session it does not register the
/// callback slots again.
pub proof fn lemma_node_created_once(
    node: SceneNodeSynchronizer,
    explicit: SurfaceSize,
    layout: SurfaceSize,
    session: u64,
)
    ensures
        !node.after_paint(session).pass(explicit, layout, session).create_node,
        node.after_paint(session).pass(explicit, layout, session).register_session is None
            || !node.paints(),
{
}

/// A geometry change waits for the next pass and is then forgotten: the
/// pass after a geometry change sets the rectangle, whatever else happened
/// in between, and the pass after that one does not.
pub proof fn lemma_geometry_change_sets_rectangle_once(
    node: SceneNodeSynchronizer,
    explicit: SurfaceSize,
    layout: SurfaceSize,
    session: u64,
)
    requires
        node.phase != NodePhase::Released,
    ensures
        node.after_geometry_change().pass(explicit, layout, session).update_rect,
        node.after_geometry_change().after_frame().pass(explicit, layout, session).update_rect,
        !node.after_geometry_change().after_paint(session).pass(
            explicit,
            layout,
            session,
        ).update_rect,
{
}

/// A frame touches the content and nothing else: it marks the content
/// dirty, and the pass that follows sets the rectangle exactly if a
/// geometry change was waiting before the frame came.
pub proof fn lemma_frame_leaves_rectangle(
    node: SceneNodeSynchronizer,
    explicit: SurfaceSize,
    layout: SurfaceSize,
    session: u64,
)
    ensures
        node.after_frame().dirty_marks != node.dirty_marks,
        node.after_frame().pass(explicit, layout, session).update_rect == node.pass(
            explicit,
            layout,
            session,
        ).update_rect,
        !node.geometry_changed ==> !node.after_frame().pass(
            explicit,
            layout,
            session,
        ).update_rect,
        node.paints() ==> node.after_frame().pass(explicit, layout, session).mark_dirty,
{
}

/// The life of a node runs one way. It starts without a node, no event takes
/// a node back to an earlier phase, only a paint pass creates it and only a
/// release ends it. Through all of it the callback slots are registered
/// only while the node exists, and the node exists only for an item with
/// content: on a node that exists, a paint pass runs and leaves the slots
/// registered for its session.
pub proof fn lemma_node_moves_forward(node: SceneNodeSynchronizer, session: u64)
    requires
        node.wf(),
    ensures
        SceneNodeSynchronizer::initial().wf(),
        SceneNodeSynchronizer::initial().phase == NodePhase::Uninitialized,
        node.with_contents().wf() && node.with_contents().phase == node.phase,
        node.after_geometry_change().wf() && node.after_geometry_change().phase == node.phase,
        node.after_frame().wf() && node.after_frame().phase == node.phase,
        node.after_paint(session).wf(),
        node.after_paint(session).phase.rank() >= node.phase.rank(),
        node.after_paint(session).phase == (if node.paints() {
            NodePhase::NodeCreated
        } else {
            node.phase
        }),
        node.after_release().wf(),
        node.after_release().phase == NodePhase::Released,
        node.phase == NodePhase::NodeCreated ==> node.paints(),
        node.phase == NodePhase::NodeCreated ==> node.after_paint(session).receives(session),
{
}

/// A released item stays released and does nothing: no pass has any effect
/// on it and no frame reaches it.
pub proof fn lemma_released_is_final(
    node: SceneNodeSynchronizer,
    explicit: SurfaceSize,
    layout: SurfaceSize,
    session: u64,
)
    ensures
        node.after_release().pass(explicit, layout, session) == PaintPass::idle(),
        node.after_release().after_paint(session) == node.after_release(),
        node.after_release().after_geometry_change().phase == NodePhase::Released,
        !node.after_release().receives(session),
{
}

} // verus!
