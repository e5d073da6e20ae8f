//! What a model can do, decided before any weight is allocated.
use vstd::prelude::*;

use crate::config::ModelConfig;
use crate::text::same_text;

verus! {

/// A request that a model cannot serve.
#[derive(Clone, Copy, PartialEq, Eq, Debug)]
pub enum CapabilityError {
    /// The draft module is a decoder block of its own, not the draft head that
    /// the runtime knows.
    NextNSpeculation,
}

impl CapabilityError {
    pub open spec fn text(self) -> Seq<char> {
        match self {
            CapabilityError::NextNSpeculation => {
                "GLM-5.3-Flash NextN speculative decoding is not supported: its DSA+MoE predictor is not compatible with Atlas's MTP runtime. Re-run with --speculative disabled."@
            },
        }
    }

    pub fn message(self) -> (message: String)
        ensures
            message@ == self.text(),
    {
        let text = match self {
            CapabilityError::NextNSpeculation => {
                "GLM-5.3-Flash NextN speculative decoding is not supported: its DSA+MoE predictor is not compatible with Atlas's MTP runtime. Re-run with --speculative disabled."
            },
        };
        text.to_owned()
    }
}

/// Whether speculative decoding, if asked for, has to be refused.
pub open spec fn refuses_speculation(config: ModelConfig) -> bool {
    config.is_glm() && config.num_mtp_modules > 0
}

/// Refuse speculative decoding with the draft modules of a GLM-5 model: their
/// tensors, read as the draft head that the runtime knows, would propose
/// unverified, wrong tokens.
pub fn ensure_supported_speculation(config: &ModelConfig, use_speculative: bool) -> (result: Result<
    (),
    CapabilityError,
>)
    ensures
        result == if use_speculative && refuses_speculation(*config) {
            Err::<(), CapabilityError>(CapabilityError::NextNSpeculation)
        } else {
            Ok(())
        },
{
    if same_text(&config.model_type, "glm5_next") && use_speculative && config.num_mtp_modules > 0 {
        return Err(CapabilityError::NextNSpeculation);
    }
    Ok(())
}

} // verus!
