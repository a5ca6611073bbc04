//! The `asnd` module: the sound voice service.
//!
//! The service models the commanded state of the audio engine — lifecycle,
//! transport, clock and the registered tick callback — and encodes each
//! voice-start request into the engine's fixed native call signature. A
//! request is validated first, and a refusal is returned as a result that
//! tells a rejected configuration apart from an engine in the wrong
//! lifecycle state; the library itself never panics.

use vstd::prelude::*;

verus! {

/// The fixed size of the voice slot index space.
pub const MAX_VOICES: u32 = 16;

/// Format to use for a voice's PCM samples.
///
/// Each variant maps to exactly one stable non-negative wire code; the
/// plain and big-endian 16-bit variants intentionally alias to the same
/// code, a compatibility fact that must be preserved.
#[derive(Copy, Clone, PartialEq, Eq, Debug)]
pub enum VoiceFormat {
    Mono8Bit,
    Mono16Bit,
    Mono16BitBe,
    Stereo8Bit,
    Stereo16Bit,
    Stereo16BitBe,
    Mono8BitU,
    Mono16BitLE,
    Stereo8BitU,
    Stereo16BitLe,
}

/// The wire code of each sample format.
pub open spec fn format_code(f: VoiceFormat) -> i32 {
    match f {
        VoiceFormat::Mono8Bit => 0,
        VoiceFormat::Mono16Bit => 1,
        VoiceFormat::Mono16BitBe => 1,
        VoiceFormat::Stereo8Bit => 2,
        VoiceFormat::Stereo16Bit => 3,
        VoiceFormat::Stereo16BitBe => 3,
        VoiceFormat::Mono8BitU => 4,
        VoiceFormat::Mono16BitLE => 5,
        VoiceFormat::Stereo8BitU => 6,
        VoiceFormat::Stereo16BitLe => 7,
    }
}

impl VoiceFormat {
    /// The wire code of this format.
    pub fn as_i32(self) -> (r: i32)
        ensures
            r == format_code(self),
    {
        match self {
            VoiceFormat::Mono8Bit => 0,
            VoiceFormat::Mono16Bit => 1,
            VoiceFormat::Mono16BitBe => 1,
            VoiceFormat::Stereo8Bit => 2,
            VoiceFormat::Stereo16Bit => 3,
            VoiceFormat::Stereo16BitBe => 3,
            VoiceFormat::Mono8BitU => 4,
            VoiceFormat::Mono16BitLE => 5,
            VoiceFormat::Stereo8BitU => 6,
            VoiceFormat::Stereo16BitLe => 7,
        }
    }
}

/// Configuration of one voice, accumulated by the fluent setters and
/// consumed by a voice-start operation.
#[derive(Copy, Clone, PartialEq, Eq, Debug)]
pub struct VoiceOptions {
    /// Voice slot to use for this sound. Valid values are 0..MAX_VOICES.
    pub voice: u32,
    /// Format to use for this sound.
    pub format: VoiceFormat,
    /// Frequency to use, in Hz.
    pub pitch: u32,
    /// Delay to wait before playing, in milliseconds.
    pub delay: u32,
    /// Voice volume of the left channel.
    pub volume_left: u8,
    /// Voice volume of the right channel.
    pub volume_right: u8,
    /// Completion-callback slot handle, dispatched by the embedding loop
    /// when the voice finishes; carries no captured environment.
    pub callback: Option<u32>,
}

/// The documented starting point of the builder: slot 0, 16-bit stereo,
/// 48000 Hz, no delay, full volume on both channels, no callback.
pub open spec fn default_voice_options() -> VoiceOptions {
    VoiceOptions {
        voice: 0,
        format: VoiceFormat::Stereo16Bit,
        pitch: 48000,
        delay: 0,
        volume_left: 255,
        volume_right: 255,
        callback: None,
    }
}

impl VoiceOptions {
    /// The documented default configuration: slot 0, 16-bit stereo,
    /// 48000 Hz, no delay, full volume on both channels, no callback.
    pub fn new() -> (r: VoiceOptions)
        ensures
            r == default_voice_options(),
    {
        VoiceOptions {
            voice: 0,
            format: VoiceFormat::Stereo16Bit,
            pitch: 48000,
            delay: 0,
            volume_left: 255,
            volume_right: 255,
            callback: None,
        }
    }

    /// Chooses the voice slot, leaving every other choice unchanged.
    pub fn voice(self, voice: u32) -> (r: VoiceOptions)
        ensures
            r == (VoiceOptions { voice, ..self }),
    {
        VoiceOptions { voice, ..self }
    }

    /// Chooses the sample format, leaving every other choice unchanged.
    pub fn format(self, format: VoiceFormat) -> (r: VoiceOptions)
        ensures
            r == (VoiceOptions { format, ..self }),
    {
        VoiceOptions { format, ..self }
    }

    /// Chooses the frequency in Hz, leaving every other choice unchanged.
    pub fn pitch(self, pitch: u32) -> (r: VoiceOptions)
        ensures
            r == (VoiceOptions { pitch, ..self }),
    {
        VoiceOptions { pitch, ..self }
    }

    /// Chooses the start delay in milliseconds, leaving every other choice
    /// unchanged.
    pub fn delay(self, delay: u32) -> (r: VoiceOptions)
        ensures
            r == (VoiceOptions { delay, ..self }),
    {
        VoiceOptions { delay, ..self }
    }

    /// Chooses the left-channel volume, leaving every other choice
    /// unchanged.
    pub fn volume_left(self, volume_left: u8) -> (r: VoiceOptions)
        ensures
            r == (VoiceOptions { volume_left, ..self }),
    {
        VoiceOptions { volume_left, ..self }
    }

    /// Chooses the right-channel volume, leaving every other choice
    /// unchanged.
    pub fn volume_right(self, volume_right: u8) -> (r: VoiceOptions)
        ensures
            r == (VoiceOptions { volume_right, ..self }),
    {
        VoiceOptions { volume_right, ..self }
    }

    /// Registers a completion-callback slot handle, leaving every other
    /// choice unchanged.
    pub fn callback(self, callback: u32) -> (r: VoiceOptions)
        ensures
            r == (VoiceOptions { callback: Some(callback), ..self }),
    {
        VoiceOptions { callback: Some(callback), ..self }
    }
}

/// Why the sound service refused a command: an engine in the wrong
/// lifecycle state, or a configuration the engine would reject.
#[derive(Copy, Clone, PartialEq, Eq, Debug)]
pub enum SndError {
    /// The service was already ended; no command is accepted until it is
    /// initialized again.
    NotInitialized,
    /// The configuration names a slot at or beyond MAX_VOICES.
    UnsupportedSlot,
    /// The sample buffer holds no elements.
    EmptyBuffer,
    /// The sample buffer holds more elements than the engine's signed
    /// count field can carry.
    OversizedBuffer,
    /// The pitch does not fit the engine's signed frequency field.
    OversizedPitch,
    /// The delay does not fit the engine's signed delay field.
    OversizedDelay,
}

/// One fully encoded voice-start command in the engine's fixed native
/// signature: plain integer fields, with the sample count in buffer
/// elements, not bytes.
#[derive(Copy, Clone, PartialEq, Eq, Debug)]
pub struct VoiceStart {
    /// Voice slot index.
    pub voice: i32,
    /// Sample format wire code.
    pub format: i32,
    /// Frequency in Hz.
    pub pitch: i32,
    /// Start delay in milliseconds.
    pub delay: i32,
    /// Number of buffer elements, not bytes.
    pub sample_count: i32,
    /// Left-channel volume, 0 to 255.
    pub volume_left: i32,
    /// Right-channel volume, 0 to 255.
    pub volume_right: i32,
    /// Completion-callback slot handle; always absent for an infinite
    /// voice, which never completes.
    pub callback: Option<u32>,
}

/// The first reason, if any, for which a voice command is refused: the
/// lifecycle state is checked before the configuration, and the
/// configuration's fields in declaration order.
pub open spec fn voice_refusal(live: bool, options: VoiceOptions, len: nat) -> Option<SndError> {
    if !live {
        Some(SndError::NotInitialized)
    } else if options.voice >= MAX_VOICES {
        Some(SndError::UnsupportedSlot)
    } else if len == 0 {
        Some(SndError::EmptyBuffer)
    } else if len > i32::MAX {
        Some(SndError::OversizedBuffer)
    } else if options.pitch > i32::MAX {
        Some(SndError::OversizedPitch)
    } else if options.delay > i32::MAX {
        Some(SndError::OversizedDelay)
    } else {
        None
    }
}

/// The native command encoded from an accepted configuration and a buffer
/// of `len` elements, carrying the given completion callback.
pub open spec fn encoded_voice(options: VoiceOptions, len: nat, callback: Option<u32>) -> VoiceStart {
    VoiceStart {
        voice: options.voice as i32,
        format: format_code(options.format),
        pitch: options.pitch as i32,
        delay: options.delay as i32,
        sample_count: len as i32,
        volume_left: options.volume_left as i32,
        volume_right: options.volume_right as i32,
        callback,
    }
}

/// Represents the asnd service: the commanded state of the audio engine.
/// No audio control can be done until an instance of this struct is
/// created, and the engine truly is a single global resource: creating a
/// second instance before ending the first is a caller responsibility the
/// service does not police.
pub struct Asnd {
    /// Whether the engine is initialized and accepting commands.
    pub live: bool,
    /// Whether the global transport is paused.
    pub paused: bool,
    /// The global clock in milliseconds, as last commanded.
    pub time: u32,
    /// The hardware sample rate fixed at initialization, in Hz.
    pub audio_rate: i32,
    /// Handle of the registered global tick-callback slot, if any.
    pub callback: Option<u32>,
}

impl Asnd {
    /// Initializes the asnd service and fixes the hardware sample rate to
    /// 48000 Hz: live, not paused, clock at zero, no callback registered.
    pub fn init() -> (r: Asnd)
        ensures
            r == (Asnd {
                live: true,
                paused: false,
                time: 0,
                audio_rate: 48000,
                callback: None,
            }),
    {
        Asnd { live: true, paused: false, time: 0, audio_rate: 48000, callback: None }
    }

    /// De-initializes the asnd service. Afterwards the engine accepts no
    /// command and no registered callback remains to fire; the same
    /// teardown runs on every exit path of an embedding that scopes the
    /// handle.
    pub fn end(&mut self)
        ensures
            *final(self) == (Asnd { live: false, callback: None, ..*old(self) }),
    {
        self.live = false;
        self.callback = None;
    }

    /// Pauses if true and resumes if false, affecting all active voices at
    /// once.
    pub fn pause(&mut self, should_pause: bool) -> (r: Result<(), SndError>)
        ensures
            old(self).live ==> r == Ok::<(), SndError>(()) && *final(self) == (Asnd {
                paused: should_pause,
                ..*old(self)
            }),
            !old(self).live ==> r == Err::<(), SndError>(SndError::NotInitialized) && *final(self)
                == *old(self),
    {
        if self.live {
            self.paused = should_pause;
            Ok(())
        } else {
            Err(SndError::NotInitialized)
        }
    }

    /// Returns true if paused, false if not paused.
    pub fn is_paused(&self) -> (r: bool)
        ensures
            r == self.paused,
    {
        self.paused
    }

    /// Returns the global clock in milliseconds, as last commanded.
    pub fn get_time(&self) -> (r: u32)
        ensures
            r == self.time,
    {
        self.time
    }

    /// Sets the global clock, in milliseconds, re-synchronizing it without
    /// restarting voices.
    pub fn set_time(&mut self, time: u32) -> (r: Result<(), SndError>)
        ensures
            old(self).live ==> r == Ok::<(), SndError>(()) && *final(self) == (Asnd {
                time,
                ..*old(self)
            }),
            !old(self).live ==> r == Err::<(), SndError>(SndError::NotInitialized) && *final(self)
                == *old(self),
    {
        if self.live {
            self.time = time;
            Ok(())
        } else {
            Err(SndError::NotInitialized)
        }
    }

    /// Returns the current audio rate. Default is 48000 Hz.
    pub fn get_audio_rate(&self) -> (r: i32)
        ensures
            r == self.audio_rate,
    {
        self.audio_rate
    }

    /// Registers a global tick-callback slot handle. Only one callback is
    /// registered at a time: a new registration silently replaces the
    /// previous one.
    pub fn set_callback(&mut self, handle: u32) -> (r: Result<(), SndError>)
        ensures
            old(self).live ==> r == Ok::<(), SndError>(()) && *final(self) == (Asnd {
                callback: Some(handle),
                ..*old(self)
            }),
            !old(self).live ==> r == Err::<(), SndError>(SndError::NotInitialized) && *final(self)
                == *old(self),
    {
        if self.live {
            self.callback = Some(handle);
            Ok(())
        } else {
            Err(SndError::NotInitialized)
        }
    }

    /// Validates a configuration and encodes the bounded single-shot
    /// voice-start command for it: the engine receives the buffer's
    /// element count, not its byte length, and the configuration's
    /// completion callback rides along. Starting the command stops
    /// whatever was previously playing on the slot.
    pub fn set_voice(&self, options: VoiceOptions, sound_buffer: &Vec<u32>) -> (r: Result<
        VoiceStart,
        SndError,
    >)
        ensures
            match voice_refusal(self.live, options, sound_buffer@.len()) {
                Some(e) => r == Err::<VoiceStart, SndError>(e),
                None => r == Ok::<VoiceStart, SndError>(
                    encoded_voice(options, sound_buffer@.len(), options.callback),
                ),
            },
    {
        let len = self.check_voice(options, sound_buffer)?;
        Ok(VoiceStart {
            voice: options.voice as i32,
            format: options.format.as_i32(),
            pitch: options.pitch as i32,
            delay: options.delay as i32,
            sample_count: len,
            volume_left: options.volume_left as i32,
            volume_right: options.volume_right as i32,
            callback: options.callback,
        })
    }

    /// Validates a configuration and encodes the looping voice-start
    /// command for it, identical to the bounded one except that it carries
    /// no completion callback: an infinite voice never completes, so a
    /// callback in the configuration is dropped.
    pub fn set_infinite_voice(&self, options: VoiceOptions, sound_buffer: &Vec<u32>) -> (r: Result<
        VoiceStart,
        SndError,
    >)
        ensures
            match voice_refusal(self.live, options, sound_buffer@.len()) {
                Some(e) => r == Err::<VoiceStart, SndError>(e),
                None => r == Ok::<VoiceStart, SndError>(
                    encoded_voice(options, sound_buffer@.len(), None),
                ),
            },
    {
        let len = self.check_voice(options, sound_buffer)?;
        Ok(VoiceStart {
            voice: options.voice as i32,
            format: options.format.as_i32(),
            pitch: options.pitch as i32,
            delay: options.delay as i32,
            sample_count: len,
            volume_left: options.volume_left as i32,
            volume_right: options.volume_right as i32,
            callback: None,
        })
    }

    /// Finds the first reason to refuse a voice command, or the buffer's
    /// element count in the engine's signed field when there is none.
    fn check_voice(&self, options: VoiceOptions, sound_buffer: &Vec<u32>) -> (r: Result<
        i32,
        SndError,
    >)
        ensures
            match voice_refusal(self.live, options, sound_buffer@.len()) {
                Some(e) => r == Err::<i32, SndError>(e),
                None => r == Ok::<i32, SndError>(sound_buffer@.len() as i32),
            },
    {
        if !self.live {
            return Err(SndError::NotInitialized);
        }
        if options.voice >= MAX_VOICES {
            return Err(SndError::UnsupportedSlot);
        }
        let len = sound_buffer.len();
        if len == 0 {
            return Err(SndError::EmptyBuffer);
        }
        if len > i32::MAX as usize {
            return Err(SndError::OversizedBuffer);
        }
        if options.pitch > i32::MAX as u32 {
            return Err(SndError::OversizedPitch);
        }
        if options.delay > i32::MAX as u32 {
            return Err(SndError::OversizedDelay);
        }
        Ok(len as i32)
    }
}

} // verus!
