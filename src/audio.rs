//! Choosing the output configuration of the audio device.

use vstd::prelude::*;

verus! {

/// The sample rate the emulator produces, in hertz.
pub const TARGET_SAMPLE_RATE: u32 = 44_100;

/// The sample format of an output configuration.
#[derive(Clone, Copy, Debug, PartialEq, Eq, Structural)]
pub enum SampleKind {
    F32,
    I16,
    U16,
    Other,
}

/// A range of output configurations a device offers: one sample format and
/// channel count over a range of sample rates.
#[derive(Clone, Copy, Debug, PartialEq, Eq, Structural)]
pub struct ConfigRange {
    pub kind: SampleKind,
    pub channels: u16,
    pub min_rate: u32,
    pub max_rate: u32,
}

/// How much a configuration is preferred: floating-point samples over 16-bit
/// signed over 16-bit unsigned, and stereo over mono.
pub open spec fn config_score(c: ConfigRange) -> int {
    (match c.kind {
        SampleKind::F32 => 100int,
        SampleKind::I16 => 60int,
        SampleKind::U16 => 50int,
        SampleKind::Other => 0int,
    }) + if c.channels >= 2 { 10int } else { 0int }
}

/// Whether the range admits the emulator's sample rate.
pub open spec fn supports_target(c: ConfigRange) -> bool {
    c.min_rate <= TARGET_SAMPLE_RATE <= c.max_rate
}

/// The score of [`config_score`].
pub fn score_config(config: &ConfigRange) -> (r: i32)
    ensures
        r == config_score(*config),
{
    let mut score: i32 = match config.kind {
        SampleKind::F32 => 100,
        SampleKind::I16 => 60,
        SampleKind::U16 => 50,
        SampleKind::Other => 0,
    };
    if config.channels >= 2 {
        score = score + 10;
    }
    score
}

/// The position of the best range that admits the emulator's sample rate:
/// the first of those with the highest score. `None` when no range admits
/// that rate.
pub fn select_output_config(configs: &Vec<ConfigRange>) -> (r: Option<usize>)
    ensures
        r is None <==> forall|j: int| 0 <= j < configs@.len() ==> !supports_target(#[trigger] configs@[j]),
        r matches Some(i) ==> {
            &&& i < configs@.len()
            &&& supports_target(configs@[i as int])
            &&& forall|j: int|
                0 <= j < configs@.len() && supports_target(#[trigger] configs@[j]) ==> {
                    &&& config_score(configs@[j]) <= config_score(configs@[i as int])
                    &&& j < i ==> config_score(configs@[j]) < config_score(configs@[i as int])
                }
        },
{
    let mut best: Option<(usize, i32)> = None;
    let mut k: usize = 0;
    while k < configs.len()
        invariant
            k <= configs@.len(),
            best is None <==> forall|j: int| 0 <= j < k ==> !supports_target(#[trigger] configs@[j]),
            best matches Some((i, s)) ==> {
                &&& i < k
                &&& s == config_score(configs@[i as int])
                &&& supports_target(configs@[i as int])
                &&& forall|j: int|
                    0 <= j < k && supports_target(#[trigger] configs@[j]) ==> {
                        &&& config_score(configs@[j]) <= s
                        &&& j < i ==> config_score(configs@[j]) < s
                    }
            },
        decreases configs@.len() - k,
    {
        let config = &configs[k];
        if config.min_rate <= TARGET_SAMPLE_RATE && TARGET_SAMPLE_RATE <= config.max_rate {
            let score = score_config(config);
            let better = match best {
                Some((_, s)) => score > s,
                None => true,
            };
            if better {
                best = Some((k, score));
            }
        }
        k = k + 1;
    }
    match best {
        Some((i, _)) => Some(i),
        None => None,
    }
}

} // verus!
