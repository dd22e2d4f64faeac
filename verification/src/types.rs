//! Plain-data records shared with the BASS library.
//!
//! Field names and meanings follow `bass.h` 2.4.  The records that hold raw
//! pointers or floating-point values live in the application layer.

use vstd::prelude::*;

verus! {

/// 8-bit unsigned value of the BASS C interface.
pub type BYTE = u8;

/// 16-bit unsigned value of the BASS C interface.
pub type WORD = u16;

/// 32-bit unsigned value of the BASS C interface.
pub type DWORD = u32;

/// 64-bit unsigned value of the BASS C interface.
pub type QWORD = u64;

/// C `BOOL` of the BASS C interface (zero is false).
pub type BOOL = i32;

/// Handle of a MOD music.
pub type HMUSIC = DWORD;

/// Handle of a sample.
pub type HSAMPLE = DWORD;

/// Handle of a sample playback channel.
pub type HCHANNEL = DWORD;

/// Handle of a stream.
pub type HSTREAM = DWORD;

/// Handle of a recording.
pub type HRECORD = DWORD;

/// Handle of a synchronizer.
pub type HSYNC = DWORD;

/// Handle of a DSP function.
pub type HDSP = DWORD;

/// Handle of an effect.
pub type HFX = DWORD;

/// Handle of a plugin.
pub type HPLUGIN = DWORD;

/// Output device info.
///
/// Matches the `BASS_INFO` layout of bass.h 2.4:
/// `flags + reserved[7] + minbuf + dsver + latency + initflags + speakers + freq`.
#[derive(Debug, Clone)]
pub struct BassInfo {
    /// DirectSound capability flags (DSCAPS_xxx).
    pub flags: DWORD,
    pub reserved: [DWORD; 7],
    /// Recommended minimum buffer length (ms).
    pub minbuf: DWORD,
    /// DirectSound version.
    pub dsver: DWORD,
    /// Average playback latency (ms).
    pub latency: DWORD,
    /// The `flags` value passed to `BASS_Init`.
    pub initflags: DWORD,
    /// Number of speakers available.
    pub speakers: DWORD,
    /// Current output sample rate.
    pub freq: DWORD,
}

impl Default for BassInfo {
    /// Every field, and every reserved word, is zero.
    fn default() -> (r: Self)
        ensures
            r.flags == 0,
            r.reserved@ == seq![0u32, 0u32, 0u32, 0u32, 0u32, 0u32, 0u32],
            r.minbuf == 0,
            r.dsver == 0,
            r.latency == 0,
            r.initflags == 0,
            r.speakers == 0,
            r.freq == 0,
    {
        let r = BassInfo {
            flags: 0,
            reserved: [0, 0, 0, 0, 0, 0, 0],
            minbuf: 0,
            dsver: 0,
            latency: 0,
            initflags: 0,
            speakers: 0,
            freq: 0,
        };
        assert(r.reserved@ =~= seq![0u32, 0u32, 0u32, 0u32, 0u32, 0u32, 0u32]);
        r
    }
}

/// Recording device info (`BASS_RECORDINFO`).
#[derive(Debug, Clone)]
pub struct BassRecordInfo {
    pub flags: DWORD,
    pub supported_formats: DWORD,
    pub number_of_inputs: DWORD,
    pub single_in: BOOL,
    pub current_frequency: DWORD,
}

impl BassRecordInfo {
    /// Builds the record from its five fields, each stored as given.
    pub fn new(
        flags: DWORD,
        supported_formats: DWORD,
        number_of_inputs: DWORD,
        single_in: BOOL,
        current_frequency: DWORD,
    ) -> (r: Self)
        ensures
            r.flags == flags,
            r.supported_formats == supported_formats,
            r.number_of_inputs == number_of_inputs,
            r.single_in == single_in,
            r.current_frequency == current_frequency,
    {
        Self { flags, supported_formats, number_of_inputs, single_in, current_frequency }
    }
}

impl Default for BassRecordInfo {
    /// Every field is zero.
    fn default() -> (r: Self)
        ensures
            r.flags == 0,
            r.supported_formats == 0,
            r.number_of_inputs == 0,
            r.single_in == 0,
            r.current_frequency == 0,
    {
        BassRecordInfo::new(0, 0, 0, 0, 0)
    }
}

/// Wave format description (`WAVEFORMATEX`).
#[derive(Debug, Clone)]
pub struct WaveFormatEx {
    pub format_tag: WORD,
    pub channels_number: WORD,
    pub samples_per_second: DWORD,
    pub average_bytes_per_second: DWORD,
    pub block_align: WORD,
    pub bits_per_sample: WORD,
    pub size: WORD,
}

impl WaveFormatEx {
    /// Builds the record from its seven fields, each stored as given.
    pub fn new(
        format_tag: WORD,
        channels_number: WORD,
        samples_per_second: DWORD,
        average_bytes_per_second: DWORD,
        block_align: WORD,
        bits_per_sample: WORD,
        size: WORD,
    ) -> (r: Self)
        ensures
            r.format_tag == format_tag,
            r.channels_number == channels_number,
            r.samples_per_second == samples_per_second,
            r.average_bytes_per_second == average_bytes_per_second,
            r.block_align == block_align,
            r.bits_per_sample == bits_per_sample,
            r.size == size,
    {
        Self {
            format_tag,
            channels_number,
            samples_per_second,
            average_bytes_per_second,
            block_align,
            bits_per_sample,
            size,
        }
    }
}

impl Default for WaveFormatEx {
    /// Every field is zero.
    fn default() -> (r: Self)
        ensures
            r.format_tag == 0,
            r.channels_number == 0,
            r.samples_per_second == 0,
            r.average_bytes_per_second == 0,
            r.block_align == 0,
            r.bits_per_sample == 0,
            r.size == 0,
    {
        WaveFormatEx::new(0, 0, 0, 0, 0, 0, 0)
    }
}

/// Parameters of the DX8 gargle effect (`BASS_DX8_GARGLE`).
#[derive(Debug, Clone)]
pub struct BassDx8Gargle {
    pub rate_hz: DWORD,
    pub wave_shape: DWORD,
}

impl BassDx8Gargle {
    /// Builds the record from its two fields, each stored as given.
    pub fn new(rate_hz: DWORD, wave_shape: DWORD) -> (r: Self)
        ensures
            r.rate_hz == rate_hz,
            r.wave_shape == wave_shape,
    {
        Self { rate_hz, wave_shape }
    }
}

impl Default for BassDx8Gargle {
    /// Both fields are zero.
    fn default() -> (r: Self)
        ensures
            r.rate_hz == 0,
            r.wave_shape == 0,
    {
        BassDx8Gargle::new(0, 0)
    }
}

} // verus!
