//! A voice: the single active playback pipeline, generator through
//! envelope and output gain to the optional effects chain.
//!
//! A voice snapshots every parameter at assembly time: later changes to
//! the synthesizer configuration, including effect toggles, never alter a
//! voice that already exists — only voices assembled afterwards.

use vstd::prelude::*;
use crate::adsr_envelope::ADSREnvelope;
use crate::adsr_envelope::env_next;
use crate::effects::EffectsChain;
use crate::effects::chain_output;
use crate::effects::chain_stepped;
use crate::effects::div_micro;
use crate::effects::div_micro_spec;
use crate::effects::lemma_div_micro_bound;
use crate::envelope::control_duration_us;
use crate::envelope::control_level_micro;
use crate::envelope::duration_from_control;
use crate::envelope::level_from_control;
use crate::waveforms::Oscillator;
use crate::waveforms::Waveform;
use crate::waveforms::step_spec;

verus! {

/// The envelope output scaled to the output gain.
pub open spec fn voice_amplified(sv: i64) -> int {
    div_micro_spec(sv * 250_000)
}

/// The sample one voice step emits, given what its envelope stage emits:
/// the amplified sample, sent through the effects chain when the voice
/// was assembled with any effect enabled.
pub open spec fn voice_emit(v: Voice, sv: i64) -> int {
    if v.use_effects {
        chain_output(v.chain, voice_amplified(sv) as i64)
    } else {
        voice_amplified(sv)
    }
}

/// Output of one voice step: `None` exactly when the envelope stage has
/// ended the stream.
pub open spec fn voice_output(v: Voice) -> Option<i64> {
    match env_next(v.env).1 {
        Option::Some(sv) => Option::Some(voice_emit(v, sv) as i64),
        Option::None => Option::None,
    }
}

/// One active playback pipeline.  Exclusively owned by the audio
/// consumer once handed off; a new trigger builds a fresh voice rather
/// than mutating this one.
pub struct Voice {
    /// The enveloped generator.
    pub env: ADSREnvelope,
    /// The effects chain, snapshotted at assembly time.
    pub chain: EffectsChain,
    /// Whether any effect was enabled when the voice was assembled.
    pub use_effects: bool,
}

impl Voice {
    /// The envelope and the chain are well formed, and the chain is used
    /// exactly when one of its stages is enabled.
    pub open spec fn wf(self) -> bool {
        &&& self.env.wf()
        &&& self.chain.wf()
        &&& self.use_effects == (self.chain.delay_enabled || self.chain.reverb_enabled
            || self.chain.flanger_enabled)
    }

    /// Assembles a voice: an oscillator at the given pitch, wrapped by
    /// the ADSR envelope for the given control values, with the effects
    /// chain snapshotting the given enabled flags.
    pub fn assemble(
        waveform: Waveform,
        freq_millihz: u64,
        attack: u8,
        decay: u8,
        sustain: u8,
        release: u8,
        delay_enabled: bool,
        reverb_enabled: bool,
        flanger_enabled: bool,
        sample_rate: u32,
    ) -> (v: Voice)
        requires
            0 < freq_millihz <= 7_902_208,
            attack <= 99,
            decay <= 99,
            sustain <= 99,
            release <= 99,
            8000 <= sample_rate <= 192_000,
        ensures
            v.wf(),
            v.env.osc.waveform == waveform,
            v.env.osc.step == step_spec(freq_millihz, sample_rate),
            v.env.osc.phase == 0,
            v.env.attack_us == control_duration_us(attack),
            v.env.decay_us == control_duration_us(decay),
            v.env.sustain_level == control_level_micro(sustain),
            v.env.release_us == control_duration_us(release),
            v.env.sample_rate == sample_rate,
            v.env.samples_elapsed == 0,
            (v.env.release_start is None),
            !v.env.done,
            v.chain.delay_enabled == delay_enabled,
            v.chain.reverb_enabled == reverb_enabled,
            v.chain.flanger_enabled == flanger_enabled,
            v.use_effects == (delay_enabled || reverb_enabled || flanger_enabled),
            crate::effects::chain_fresh(v.chain, sample_rate),
    {
        let osc = Oscillator::new(waveform, freq_millihz, sample_rate);
        let env = ADSREnvelope::new(
            osc,
            duration_from_control(attack),
            duration_from_control(decay),
            level_from_control(sustain),
            duration_from_control(release),
            sample_rate,
        );
        let chain = EffectsChain::new(delay_enabled, reverb_enabled, flanger_enabled, sample_rate);
        Voice {
            env,
            chain,
            use_effects: delay_enabled || reverb_enabled || flanger_enabled,
        }
    }

    /// Signals a release to the envelope: the voice starts its fade.
    pub fn signal_release(&mut self)
        requires
            old(self).wf(),
        ensures
            final(self).wf(),
            final(self).chain == old(self).chain,
            final(self).use_effects == old(self).use_effects,
            final(self).env.release_start == match old(self).env.release_start {
                Option::Some(rs) => Option::Some(rs),
                Option::None => Option::Some(old(self).env.samples_elapsed),
            },
            final(self).env == (ADSREnvelope {
                release_start: final(self).env.release_start,
                ..old(self).env
            }),
    {
        self.env.signal_release();
    }

    /// Produces the next output sample of the pipeline, or `None` once
    /// the voice has ended and must be discarded.
    pub fn next_sample(&mut self) -> (r: Option<i64>)
        requires
            old(self).wf(),
        ensures
            final(self).wf(),
            r == voice_output(*old(self)),
            final(self).env == env_next(old(self).env).0,
            final(self).use_effects == old(self).use_effects,
            (env_next(old(self).env).1 matches Option::Some(sv) ==> (old(self).use_effects
                ==> chain_stepped(old(self).chain, final(self).chain, voice_amplified(sv) as i64))),
            ((env_next(old(self).env).1 is None) || !old(self).use_effects)
                ==> final(self).chain == old(self).chain,
            (r matches Option::Some(out) ==> -42_000_000 <= out <= 42_000_000),
    {
        match self.env.next_sample() {
            Option::None => Option::None,
            Option::Some(sv) => {
                proof {
                    lemma_div_micro_bound(sv * 250_000, 250_000);
                }
                let amplified = div_micro(sv * 250_000);
                if self.use_effects {
                    Option::Some(self.chain.process_sample(amplified))
                } else {
                    Option::Some(amplified)
                }
            }
        }
    }
}

} // verus!
