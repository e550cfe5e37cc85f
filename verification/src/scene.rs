//! The scene: a flat arena of transformable nodes addressed by handle. A
//! node's parent is an index into the arena rather than an owning pointer,
//! and a parent always sits at a smaller index than its children, so the
//! relation is acyclic by construction and traversal is plain handle
//! lookups.

use vstd::prelude::*;
use crate::error::EngineError;
use crate::linear::Pos2D;

verus! {

/// One entry of the scene arena: a position, the handle of the parent (or
/// none for a root), and whether the node may be moved.
#[derive(Debug, Clone, Copy, PartialEq, Eq, Structural)]
pub struct SceneNode {
    pub pos: Pos2D,
    pub parent: Option<usize>,
    pub dynamic: bool,
}

/// Whether a ripple started at `root` moves node `j`: the root always
/// moves, and any other node moves exactly when it is dynamic and its
/// parent moves.
pub open spec fn ripple_reaches(nodes: Seq<SceneNode>, root: nat, j: nat) -> bool
    decreases j,
{
    if j == root {
        true
    } else {
        match nodes[j as int].parent {
            Some(p) => p < j && nodes[j as int].dynamic && ripple_reaches(nodes, root, p as nat),
            None => false,
        }
    }
}

/// A scene of nodes in a flat arena, addressed by handle.
pub struct Scene {
    nodes: Vec<SceneNode>,
}

impl View for Scene {
    type V = Seq<SceneNode>;

    /// The nodes of the arena in handle order.
    closed spec fn view(&self) -> Seq<SceneNode> {
        self.nodes@
    }
}

impl Scene {
    /// Well-formedness: every parent handle names an earlier node, so no
    /// chain of parents can loop.
    pub open spec fn wf(&self) -> bool {
        forall|j: int|
            0 <= j < self@.len() ==> match (#[trigger] self@[j]).parent {
                Some(p) => p < j,
                None => true,
            }
    }

    /// An empty scene.
    pub fn new() -> (s: Scene)
        ensures
            s@ == Seq::<SceneNode>::empty(),
            s.wf(),
    {
        let s = Scene { nodes: Vec::new() };
        proof {
            assert(s@ =~= Seq::<SceneNode>::empty());
        }
        s
    }

    /// The number of nodes in the arena.
    pub fn len(&self) -> (n: usize)
        ensures
            n == self@.len(),
    {
        self.nodes.len()
    }

    /// Adds a node under the given parent handle and returns the new
    /// node's handle. A parent handle that names no existing node is
    /// refused and leaves the scene unchanged.
    pub fn add_node(&mut self, pos: Pos2D, parent: Option<usize>, dynamic: bool) -> (r: Result<
        usize,
        EngineError,
    >)
        requires
            old(self).wf(),
        ensures
            final(self).wf(),
            (match parent {
                Some(p) => p < old(self)@.len(),
                None => true,
            }) ==> {
                &&& r == Ok::<usize, EngineError>(old(self)@.len() as usize)
                &&& final(self)@ == old(self)@.push(SceneNode { pos, parent, dynamic })
            },
            !(match parent {
                Some(p) => p < old(self)@.len(),
                None => true,
            }) ==> {
                &&& r == Err::<usize, EngineError>(EngineError::DegenerateInput)
                &&& final(self)@ == old(self)@
            },
    {
        match parent {
            Some(p) => {
                if p >= self.nodes.len() {
                    return Err(EngineError::DegenerateInput);
                }
            },
            None => {},
        }
        let handle: usize = self.nodes.len();
        self.nodes.push(SceneNode { pos, parent, dynamic });
        proof {
            assert forall|j: int| 0 <= j < self@.len() implies match (#[trigger] self@[j]).parent {
                Some(p) => p < j,
                None => true,
            } by {
                if j < old(self)@.len() {
                    assert(self@[j] == old(self)@[j]);
                }
            }
        }
        Ok(handle)
    }

    /// Looks a node up by handle; a handle that names no node is refused.
    pub fn node(&self, handle: usize) -> (r: Result<SceneNode, EngineError>)
        ensures
            handle < self@.len() ==> r == Ok::<SceneNode, EngineError>(self@[handle as int]),
            handle >= self@.len() ==> r == Err::<SceneNode, EngineError>(
                EngineError::DegenerateInput,
            ),
    {
        if handle < self.nodes.len() {
            Ok(self.nodes[handle])
        } else {
            Err(EngineError::DegenerateInput)
        }
    }

    /// Moves one node by the given distances, leaving every other node and
    /// all relations alone. A handle that names no node is refused.
    pub fn translate_node(&mut self, handle: usize, tx: i32, ty: i32) -> (r: Result<
        (),
        EngineError,
    >)
        requires
            old(self).wf(),
            handle < old(self)@.len() ==> {
                &&& i32::MIN <= old(self)@[handle as int].pos.x + tx <= i32::MAX
                &&& i32::MIN <= old(self)@[handle as int].pos.y + ty <= i32::MAX
            },
        ensures
            final(self).wf(),
            handle < old(self)@.len() ==> {
                &&& r == Ok::<(), EngineError>(())
                &&& final(self)@ == old(self)@.update(
                    handle as int,
                    (SceneNode {
                        pos: (Pos2D {
                            x: (old(self)@[handle as int].pos.x + tx) as i32,
                            y: (old(self)@[handle as int].pos.y + ty) as i32,
                        }),
                        ..old(self)@[handle as int]
                    }),
                )
            },
            handle >= old(self)@.len() ==> {
                &&& r == Err::<(), EngineError>(EngineError::DegenerateInput)
                &&& final(self)@ == old(self)@
            },
    {
        if handle >= self.nodes.len() {
            return Err(EngineError::DegenerateInput);
        }
        let nd: SceneNode = self.nodes[handle];
        self.nodes[handle] = SceneNode {
            pos: Pos2D::new(nd.pos.x + tx, nd.pos.y + ty),
            parent: nd.parent,
            dynamic: nd.dynamic,
        };
        proof {
            assert forall|j: int| 0 <= j < self@.len() implies match (#[trigger] self@[j]).parent {
                Some(p) => p < j,
                None => true,
            } by {
                if j != handle as int {
                    assert(self@[j] == old(self)@[j]);
                }
            }
        }
        Ok(())
    }

    /// Ripples a translation down the tree: moves the named node, then
    /// every dynamic node whose chain of parents leads to it, and nothing
    /// else. A handle that names no node is refused.
    #[verifier::loop_isolation(false)]
    pub fn ripple_translate(&mut self, root: usize, tx: i32, ty: i32) -> (r: Result<
        (),
        EngineError,
    >)
        requires
            old(self).wf(),
            forall|j: int|
                0 <= j < old(self)@.len() ==> {
                    &&& i32::MIN <= (#[trigger] old(self)@[j]).pos.x + tx <= i32::MAX
                    &&& i32::MIN <= old(self)@[j].pos.y + ty <= i32::MAX
                },
        ensures
            final(self).wf(),
            final(self)@.len() == old(self)@.len(),
            root < old(self)@.len() ==> {
                &&& r == Ok::<(), EngineError>(())
                &&& forall|j: int|
                    0 <= j < old(self)@.len() ==> final(self)@[j] == (if ripple_reaches(
                        old(self)@,
                        root as nat,
                        j as nat,
                    ) {
                        SceneNode {
                            pos: (Pos2D {
                                x: (old(self)@[j].pos.x + tx) as i32,
                                y: (old(self)@[j].pos.y + ty) as i32,
                            }),
                            ..old(self)@[j]
                        }
                    } else {
                        old(self)@[j]
                    })
            },
            root >= old(self)@.len() ==> {
                &&& r == Err::<(), EngineError>(EngineError::DegenerateInput)
                &&& final(self)@ == old(self)@
            },
    {
        let n: usize = self.nodes.len();
        if root >= n {
            return Err(EngineError::DegenerateInput);
        }
        // first pass: mark, in handle order, which nodes the ripple reaches
        let mut marks: Vec<bool> = Vec::new();
        let mut j: usize = 0;
        while j < n
            invariant
                marks@.len() == j,
                j <= n,
                forall|k: int|
                    0 <= k < j ==> marks@[k] == ripple_reaches(old(self)@, root as nat, k as nat),
            decreases n - j,
        {
            let nd: SceneNode = self.nodes[j];
            let reached: bool = if j == root {
                true
            } else {
                match nd.parent {
                    Some(p) => nd.dynamic && p < j && marks[p],
                    None => false,
                }
            };
            marks.push(reached);
            j = j + 1;
        }
        // second pass: move exactly the marked nodes
        let mut j: usize = 0;
        while j < n
            invariant
                marks@.len() == n,
                self.nodes@.len() == n,
                j <= n,
                forall|k: int|
                    0 <= k < n ==> marks@[k] == ripple_reaches(old(self)@, root as nat, k as nat),
                forall|k: int| j <= k < n ==> self.nodes@[k] == old(self)@[k],
                forall|k: int|
                    0 <= k < j ==> self.nodes@[k] == (if ripple_reaches(
                        old(self)@,
                        root as nat,
                        k as nat,
                    ) {
                        SceneNode {
                            pos: (Pos2D {
                                x: (old(self)@[k].pos.x + tx) as i32,
                                y: (old(self)@[k].pos.y + ty) as i32,
                            }),
                            ..old(self)@[k]
                        }
                    } else {
                        old(self)@[k]
                    }),
            decreases n - j,
        {
            if marks[j] {
                let nd: SceneNode = self.nodes[j];
                self.nodes[j] = SceneNode {
                    pos: Pos2D::new(nd.pos.x + tx, nd.pos.y + ty),
                    parent: nd.parent,
                    dynamic: nd.dynamic,
                };
            }
            j = j + 1;
        }
        proof {
            assert forall|k: int| 0 <= k < self@.len() implies match (#[trigger] self@[k]).parent {
                Some(p) => p < k,
                None => true,
            } by {
                assert(self@[k].parent == old(self)@[k].parent);
            }
        }
        Ok(())
    }
}

} // verus!
