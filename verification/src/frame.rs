//! The cycle one rendered frame goes through.

use vstd::prelude::*;
use crate::binding::Stage;

verus! {

/// Where a frame stands.
#[derive(Clone, Copy, Debug, PartialEq, Eq, Structural)]
pub enum FrameState {
    /// Between frames.
    Idle,
    /// The resize policy is asked whether resources must be rebuilt.
    ResizeCheck,
    /// Textures and bind groups are rebuilt.
    Rebuild,
    /// The parameters are packed and written to the uniform buffer.
    Pack,
    /// The pass of a stage is encoded: a dispatch for a compute stage, the
    /// draw for the composite stage.
    Encode(Stage),
    /// The command buffer is submitted.
    Submit,
}

impl FrameState {
    /// The state that follows, given whether the resize check asked for a rebuild.
    pub open spec fn spec_next(self, rebuild: bool) -> FrameState {
        match self {
            FrameState::Idle => FrameState::ResizeCheck,
            FrameState::ResizeCheck => if rebuild {
                FrameState::Rebuild
            } else {
                FrameState::Pack
            },
            FrameState::Rebuild => FrameState::Pack,
            FrameState::Pack => FrameState::Encode(Stage::Demosaic),
            FrameState::Encode(Stage::Demosaic) => FrameState::Encode(Stage::Downsample),
            FrameState::Encode(Stage::Downsample) => FrameState::Encode(Stage::Processing),
            FrameState::Encode(Stage::Processing) => FrameState::Encode(Stage::Composite),
            FrameState::Encode(Stage::Composite) => FrameState::Submit,
            FrameState::Submit => FrameState::Idle,
        }
    }

    /// The states a frame has gone through after `steps` steps from `self`,
    /// `self` first.
    pub open spec fn spec_trace(self, rebuild: bool, steps: nat) -> Seq<FrameState>
        decreases steps,
    {
        if steps == 0 {
            seq![self]
        } else {
            seq![self] + self.spec_next(rebuild).spec_trace(rebuild, (steps - 1) as nat)
        }
    }

    /// Moves to the state that follows.
    pub fn next(self, rebuild: bool) -> (state: FrameState)
        ensures
            state == self.spec_next(rebuild),
    {
        match self {
            FrameState::Idle => FrameState::ResizeCheck,
            FrameState::ResizeCheck => if rebuild {
                FrameState::Rebuild
            } else {
                FrameState::Pack
            },
            FrameState::Rebuild => FrameState::Pack,
            FrameState::Pack => FrameState::Encode(Stage::Demosaic),
            FrameState::Encode(stage) => match stage {
                Stage::Demosaic => FrameState::Encode(Stage::Downsample),
                Stage::Downsample => FrameState::Encode(Stage::Processing),
                Stage::Processing => FrameState::Encode(Stage::Composite),
                Stage::Composite => FrameState::Submit,
            },
            FrameState::Submit => FrameState::Idle,
        }
    }
}

/// A frame without a rebuild goes from idle through the resize check, the
/// packing, the four stages in order and the submission back to idle, in
/// eight steps; a frame with a rebuild takes one step more, between the
/// resize check and the packing.
pub proof fn lemma_frame_cycle()
    ensures
        FrameState::Idle.spec_trace(false, 8) == seq![
            FrameState::Idle,
            FrameState::ResizeCheck,
            FrameState::Pack,
            FrameState::Encode(Stage::Demosaic),
            FrameState::Encode(Stage::Downsample),
            FrameState::Encode(Stage::Processing),
            FrameState::Encode(Stage::Composite),
            FrameState::Submit,
            FrameState::Idle,
        ],
        FrameState::Idle.spec_trace(true, 9) == seq![
            FrameState::Idle,
            FrameState::ResizeCheck,
            FrameState::Rebuild,
            FrameState::Pack,
            FrameState::Encode(Stage::Demosaic),
            FrameState::Encode(Stage::Downsample),
            FrameState::Encode(Stage::Processing),
            FrameState::Encode(Stage::Composite),
            FrameState::Submit,
            FrameState::Idle,
        ],
{
    reveal_with_fuel(FrameState::spec_trace, 11);
    assert(FrameState::Idle.spec_trace(false, 8) =~= seq![
        FrameState::Idle,
        FrameState::ResizeCheck,
        FrameState::Pack,
        FrameState::Encode(Stage::Demosaic),
        FrameState::Encode(Stage::Downsample),
        FrameState::Encode(Stage::Processing),
        FrameState::Encode(Stage::Composite),
        FrameState::Submit,
        FrameState::Idle,
    ]);
    assert(FrameState::Idle.spec_trace(true, 9) =~= seq![
        FrameState::Idle,
        FrameState::ResizeCheck,
        FrameState::Rebuild,
        FrameState::Pack,
        FrameState::Encode(Stage::Demosaic),
        FrameState::Encode(Stage::Downsample),
        FrameState::Encode(Stage::Processing),
        FrameState::Encode(Stage::Composite),
        FrameState::Submit,
        FrameState::Idle,
    ]);
}

/// Whatever the state, a stage is encoded only after the stage before it:
/// the pass that reads a texture follows the pass that writes it.
pub proof fn lemma_encode_follows_writer(state: FrameState, rebuild: bool)
    ensures
        state.spec_next(rebuild) matches FrameState::Encode(stage) ==> {
            ||| stage == Stage::Demosaic && state == FrameState::Pack
            ||| state matches FrameState::Encode(before) && before.spec_target() == Some(
                stage.spec_source(),
            )
        },
{
}

} // verus!
