//! The order in which codec and amplifier are switched, so that the speaker never hisses or pops.

use vstd::prelude::*;

verus! {

/// One step with the audio hardware.
#[derive(Clone, Copy, Debug, PartialEq, Eq, Structural)]
pub enum AudioStep {
    /// Configure the codec. It comes up unmuted.
    InitCodec,
    MuteCodec,
    UnmuteCodec,
    AmplifierOn,
    AmplifierOff,
    /// Let the codec settle for two milliseconds.
    Settle,
    /// Send the beep and wait for its end.
    Play,
}

/// Whether the amplifier runs and whether the codec is muted.
pub struct AudioState {
    pub amplifier: bool,
    pub muted: bool,
}

/// The state after a step.
pub open spec fn after_audio_step(s: AudioState, step: AudioStep) -> AudioState {
    match step {
        AudioStep::InitCodec => AudioState { muted: false, ..s },
        AudioStep::MuteCodec => AudioState { muted: true, ..s },
        AudioStep::UnmuteCodec => AudioState { muted: false, ..s },
        AudioStep::AmplifierOn => AudioState { amplifier: true, ..s },
        AudioStep::AmplifierOff => AudioState { amplifier: false, ..s },
        AudioStep::Settle => s,
        AudioStep::Play => s,
    }
}

/// The state after the first `n` of some steps.
pub open spec fn audio_state(s: AudioState, steps: Seq<AudioStep>, n: nat) -> AudioState
    decreases n,
{
    if n == 0 {
        s
    } else {
        after_audio_step(audio_state(s, steps, (n - 1) as nat), steps[n - 1])
    }
}

/// Steps at power-up.
pub open spec fn boot_sequence() -> Seq<AudioStep> {
    seq![AudioStep::AmplifierOff, AudioStep::InitCodec, AudioStep::MuteCodec]
}

/// Steps of a beep.
pub open spec fn beep_sequence() -> Seq<AudioStep> {
    seq![
        AudioStep::UnmuteCodec,
        AudioStep::Settle,
        AudioStep::AmplifierOn,
        AudioStep::Play,
        AudioStep::AmplifierOff,
        AudioStep::MuteCodec,
    ]
}

/// Brings the codec up without a sound.
pub fn boot_steps() -> (steps: Vec<AudioStep>)
    ensures
        steps@ == boot_sequence(),
{
    let steps = vec![AudioStep::AmplifierOff, AudioStep::InitCodec, AudioStep::MuteCodec];
    assert(steps@ =~= boot_sequence());
    steps
}

/// Plays a beep.
pub fn beep_steps() -> (steps: Vec<AudioStep>)
    ensures
        steps@ == beep_sequence(),
{
    let steps = vec![
        AudioStep::UnmuteCodec,
        AudioStep::Settle,
        AudioStep::AmplifierOn,
        AudioStep::Play,
        AudioStep::AmplifierOff,
        AudioStep::MuteCodec,
    ];
    assert(steps@ =~= beep_sequence());
    steps
}

/// Power-up leaves the codec muted and the amplifier off, and the amplifier runs at no point of
/// it, whatever the state before.
pub proof fn law_boot_is_silent(s: AudioState, n: nat)
    requires
        0 < n <= boot_sequence().len(),
    ensures
        !audio_state(s, boot_sequence(), n).amplifier,
        audio_state(s, boot_sequence(), 3) == (AudioState { amplifier: false, muted: true }),
{
    reveal_with_fuel(audio_state, 4);
}

/// During a beep the amplifier only ever runs while the codec is unmuted, and the beep ends in
/// the silent state that it began in.
pub proof fn law_beep_never_pops(n: nat)
    requires
        n <= beep_sequence().len(),
    ensures
        ({
            let silent = AudioState { amplifier: false, muted: true };
            let s = audio_state(silent, beep_sequence(), n);
            &&& s.amplifier ==> !s.muted
            &&& audio_state(silent, beep_sequence(), 6) == silent
        }),
{
    reveal_with_fuel(audio_state, 7);
}

} // verus!
