//! Pre-rendered sub-scenes.
//!
//! A previously built scene — an independently authored vector asset,
//! for example — can be embedded into another scene as a single
//! drawable under a supplied transform, without re-specifying its
//! contents. The embedded stream must be finished: every pushed layer
//! popped, and no further nesting of embedded streams inside it.

use vstd::prelude::*;
use crate::affine::Affine;
use crate::affine::compose_affine;
use crate::affine::lemma_budget_compose_fits;
use crate::scenes::Command;
use crate::scenes::Drawable;
use crate::scenes::Scene;
use crate::scenes::balanced;
use crate::scenes::layer_delta;
use crate::scenes::no_append;
use crate::scenes::prefix_wf;

verus! {

/// A finished command stream waiting to be embedded into other scenes
/// under a transform.
#[derive(Debug)]
pub struct PrerenderedScene<T, F> {
    pub commands: Vec<Command<T, F>>,
    pub transform: Affine,
}

/// Whether the stream is balanced with no nested embedded stream:
/// `true` exactly when it may be embedded.
#[verifier::loop_isolation(false)]
pub fn check_stream<T, F>(cmds: &Vec<Command<T, F>>) -> (ok: bool)
    ensures
        ok == (balanced(cmds@) && no_append(cmds@)),
{
    proof {
        assert(cmds@.take(0) =~= Seq::<Command<T, F>>::empty());
    }
    let mut delta: i128 = 0;
    let mut i: usize = 0;
    while i < cmds.len()
        invariant
            i <= cmds@.len(),
            delta == layer_delta(cmds@.take(i as int)),
            -(i as int) <= delta <= i as int,
            forall|j: int| 0 <= j <= i ==> layer_delta(#[trigger] cmds@.take(j)) >= 0,
            no_append(cmds@.take(i as int)),
        decreases cmds@.len() - i,
    {
        proof {
            assert(cmds@.take(i as int + 1).drop_last() =~= cmds@.take(i as int));
            assert(cmds@.take(i as int + 1).last() == cmds@[i as int]);
        }
        let step: i128 = match &cmds[i] {
            Command::PushLayer(_) => 1,
            Command::PopLayer => -1,
            Command::Append { .. } => {
                proof {
                    assert(!no_append(cmds@));
                }
                return false;
            },
            _ => 0,
        };
        let next: i128 = delta + step;
        if next < 0 {
            proof {
                assert(layer_delta(cmds@.take(i as int + 1)) < 0);
                assert(!prefix_wf(cmds@));
            }
            return false;
        }
        delta = next;
        i = i + 1;
        proof {
            assert(no_append(cmds@.take(i as int)));
        }
    }
    proof {
        assert(cmds@.take(cmds@.len() as int) =~= cmds@);
    }
    delta == 0
}

impl<T, F> PrerenderedScene<T, F> {
    /// The stream is finished: balanced, with no nested embedding.
    pub open spec fn wf(self) -> bool {
        balanced(self.commands@) && no_append(self.commands@)
    }

    /// Wrap a finished scene for embedding under `transform`. The
    /// scene must have every layer popped and hold no embedded stream
    /// of its own.
    pub fn new(scene: Scene<T, F>, transform: Affine) -> (r: PrerenderedScene<T, F>)
        requires
            scene.wf(),
            scene.layer_depth == 0,
            no_append(scene.commands@),
        ensures
            r.commands@ == scene.commands@,
            r.transform == transform,
            r.wf(),
    {
        PrerenderedScene { commands: scene.commands, transform }
    }
}

impl<T, F> Drawable<T, F> for PrerenderedScene<T, F> {
    open spec fn can_draw(self, global: Affine) -> bool {
        &&& self.transform.in_budget()
        &&& self.wf()
    }

    open spec fn emitted(self, global: Affine) -> Seq<Command<T, F>> {
        seq![
            Command::Append {
                commands: self.commands,
                transform: compose_affine(global, self.transform),
            },
        ]
    }

    fn check_can_draw(&self, global: &Affine) -> (ok: bool) {
        self.transform.in_budget_check() && check_stream(&self.commands)
    }

    fn draw(self, scene: &mut Scene<T, F>) {
        proof {
            lemma_budget_compose_fits(scene.global_transform, self.transform);
        }
        let transform = scene.global_transform.compose(self.transform);
        let PrerenderedScene { commands, transform: _ } = self;
        scene.push_plain(Command::Append { commands, transform });
        proof {
            assert(scene.commands@ =~= old(scene).commands@ + self.emitted(
                old(scene).global_transform,
            ));
        }
    }
}

} // verus!
