//! Laws of the audio steps.

use vstd::prelude::*;

use crate::audio::{beep_steps, boot_steps, AudioStep};

verus! {

/// Whether a step that switches something on was taken before step `i` and not undone since.
pub open spec fn stays_on(steps: Seq<AudioStep>, on: AudioStep, off: AudioStep, i: int) -> bool {
    exists|j: int|
        0 <= j < i && #[trigger] steps[j] == on && (forall|k: int|
            j < k < i ==> #[trigger] steps[k] != off)
}

/// Power-up switches the amplifier off before it touches the codec, configures the codec, and
/// mutes it again, since it comes up unmuted.
pub proof fn law_boot_steps(steps: Vec<AudioStep>)
    requires
        call_ensures(boot_steps, (), steps),
    ensures
        steps@.len() == 3,
        steps@[0] == AudioStep::AmplifierOff,
        steps@[1] == AudioStep::InitCodec,
        steps@[2] == AudioStep::MuteCodec,
{
}

/// A beep is sent once, with the codec unmuted and the amplifier on. The amplifier comes on once
/// the unmuted codec has settled, and goes off before the codec is muted.
pub proof fn law_beep_steps(steps: Vec<AudioStep>, i: int)
    requires
        call_ensures(beep_steps, (), steps),
        0 <= i < steps@.len(),
    ensures
        steps@.len() == 6,
        steps@[i] == AudioStep::Play <==> i == 3,
        steps@[i] == AudioStep::Play ==> stays_on(
            steps@,
            AudioStep::AmplifierOn,
            AudioStep::AmplifierOff,
            i,
        ) && stays_on(steps@, AudioStep::UnmuteCodec, AudioStep::MuteCodec, i),
        steps@[i] == AudioStep::AmplifierOn ==> i == 2 && steps@[1] == AudioStep::Settle
            && steps@[0] == AudioStep::UnmuteCodec,
        steps@[i] == AudioStep::MuteCodec ==> i == 5,
        steps@[4] == AudioStep::AmplifierOff && steps@[5] == AudioStep::MuteCodec,
{
    let s = steps@;
    assert(s[0] == AudioStep::UnmuteCodec && s[1] == AudioStep::Settle);
    assert(s[2] == AudioStep::AmplifierOn && s[3] == AudioStep::Play);
}

} // verus!
