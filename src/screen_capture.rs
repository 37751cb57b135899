//! Capture adaptation: quality presets and the adaptive bitrate and
//! frame-rate controller, with the state of the screen and audio capturers.
//! The capture drivers themselves run outside this library; it decides what
//! they are configured with and numbers the frames they deliver.

use vstd::prelude::*;
use crate::crypto::new_uuid_v4;

verus! {

/// A display that can be captured.
#[derive(Debug, Clone)]
pub struct DisplayInfo {
    pub id: String,
    pub name: String,
    pub width: u32,
    pub height: u32,
    pub is_primary: bool,
    pub refresh_rate: u32,
}

/// Video codecs.
#[derive(Debug, Clone, Copy, PartialEq, Eq, Structural)]
pub enum VideoCodecType {
    H264,
    H265,
    VP9,
}

/// Quality presets, from lowest to highest.
#[derive(Debug, Clone, Copy, PartialEq, Eq, Structural)]
pub enum QualityPreset {
    /// 720p, 15 fps, 1000 kbps.
    Low,
    /// 1080p, 30 fps, 4000 kbps.
    Balanced,
    /// 1080p, 60 fps, 8000 kbps.
    High,
    /// Native resolution, 60 fps, 15000 kbps.
    Ultra,
}

/// Screen capture settings.
#[derive(Debug, Clone, Copy)]
pub struct CaptureOptions {
    pub frame_rate: u32,
    pub width: u32,
    pub height: u32,
    pub enable_hardware_acceleration: bool,
    pub codec: VideoCodecType,
    /// Kilobits per second.
    pub bitrate: u32,
    pub quality_preset: QualityPreset,
}

impl Default for CaptureOptions {
    fn default() -> (r: Self)
        ensures
            r.frame_rate == 30 && r.width == 1920 && r.height == 1080 && r.bitrate == 4000,
            r.enable_hardware_acceleration,
            r.codec == VideoCodecType::H264,
            r.quality_preset == QualityPreset::Balanced,
    {
        CaptureOptions {
            frame_rate: 30,
            width: 1920,
            height: 1080,
            enable_hardware_acceleration: true,
            codec: VideoCodecType::H264,
            bitrate: 4000,
            quality_preset: QualityPreset::Balanced,
        }
    }
}

/// Pixel formats of captured frames.
#[derive(Debug, Clone, Copy, PartialEq, Eq, Structural)]
pub enum FrameFormat {
    RGBA,
    BGRA,
    NV12,
    I420,
}

/// A captured video frame.
#[derive(Debug, Clone)]
pub struct VideoFrame {
    pub id: u64,
    /// Milliseconds since the Unix epoch.
    pub timestamp: u64,
    pub width: u32,
    pub height: u32,
    pub data: Vec<u8>,
    pub format: FrameFormat,
}

/// A captured audio frame.
#[derive(Debug, Clone)]
pub struct AudioFrame {
    pub id: u64,
    /// Milliseconds since the Unix epoch.
    pub timestamp: u64,
    pub sample_rate: u32,
    pub channels: u8,
    pub data: Vec<i16>,
}

/// Audio capture settings.
#[derive(Debug, Clone, Copy)]
pub struct AudioCaptureOptions {
    pub sample_rate: u32,
    pub channels: u8,
    pub enable_noise_suppression: bool,
    pub enable_echo_cancellation: bool,
}

impl Default for AudioCaptureOptions {
    fn default() -> (r: Self)
        ensures
            r.sample_rate == 48000 && r.channels == 2,
            r.enable_noise_suppression && r.enable_echo_cancellation,
    {
        AudioCaptureOptions {
            sample_rate: 48000,
            channels: 2,
            enable_noise_suppression: true,
            enable_echo_cancellation: true,
        }
    }
}

/// A network sample as the controller sees it.
#[derive(Debug, Clone, Copy)]
pub struct NetworkConditions {
    /// Kilobits per second.
    pub available_bandwidth: u32,
    /// Hundredths of a percent (`800` is 8 %).
    pub packet_loss: u32,
    /// Milliseconds.
    pub rtt: u32,
}

/// Bounds and targets of the adaptive controller.
#[derive(Debug, Clone, Copy)]
pub struct AdaptiveBitrateConfig {
    pub min_bitrate: u32,
    pub max_bitrate: u32,
    pub target_bitrate: u32,
    pub min_frame_rate: u32,
    pub max_frame_rate: u32,
    pub target_frame_rate: u32,
}

impl Default for AdaptiveBitrateConfig {
    fn default() -> (r: Self)
        ensures
            r.min_bitrate == 500 && r.max_bitrate == 8000 && r.target_bitrate == 4000,
            r.min_frame_rate == 15 && r.max_frame_rate == 60 && r.target_frame_rate == 30,
    {
        AdaptiveBitrateConfig {
            min_bitrate: 500,
            max_bitrate: 8000,
            target_bitrate: 4000,
            min_frame_rate: 15,
            max_frame_rate: 60,
            target_frame_rate: 30,
        }
    }
}

/// The bounds of a configuration are ordered.
pub open spec fn config_wf(c: AdaptiveBitrateConfig) -> bool {
    c.min_bitrate <= c.max_bitrate && c.min_frame_rate <= c.max_frame_rate
}

/// `x` clamped to `[lo, hi]`.
pub open spec fn clamp(x: int, lo: int, hi: int) -> int {
    if x < lo {
        lo
    } else if x > hi {
        hi
    } else {
        x
    }
}

/// The frame-rate factor in percent: 70 on heavy loss or long round trips,
/// 85 on moderate ones, 100 otherwise.
pub open spec fn fps_factor(c: NetworkConditions) -> int {
    if c.packet_loss > 500 || c.rtt > 150 {
        70
    } else if c.packet_loss > 200 || c.rtt > 100 {
        85
    } else {
        100
    }
}

/// The bitrate the controller aims at: 80 % of the bandwidth, within bounds.
pub open spec fn target_bitrate_for(cfg: AdaptiveBitrateConfig, c: NetworkConditions) -> int {
    clamp(c.available_bandwidth * 4 / 5, cfg.min_bitrate as int, cfg.max_bitrate as int)
}

/// The frame rate the controller sets.
pub open spec fn target_fps_for(cfg: AdaptiveBitrateConfig, c: NetworkConditions) -> int {
    clamp(cfg.target_frame_rate * fps_factor(c) / 100, cfg.min_frame_rate as int, cfg.max_frame_rate as int)
}

/// The bitrate after adaptation from `current`: the target, when it differs
/// by more than 200 kbps or `current` is out of bounds; `current` otherwise.
pub open spec fn adapted_bitrate(current: u32, cfg: AdaptiveBitrateConfig, c: NetworkConditions) -> int {
    let target = target_bitrate_for(cfg, c);
    if current < cfg.min_bitrate || current > cfg.max_bitrate || current - target > 200 || target - current > 200 {
        target
    } else {
        current as int
    }
}

/// Whatever the sample, the current bitrate and the (well-formed)
/// configuration, the adapted bitrate and frame rate lie within the
/// configured bounds.
pub proof fn lemma_adaptation_bounds(current: u32, cfg: AdaptiveBitrateConfig, c: NetworkConditions)
    requires
        config_wf(cfg),
    ensures
        cfg.min_bitrate <= adapted_bitrate(current, cfg, c) <= cfg.max_bitrate,
        cfg.min_frame_rate <= target_fps_for(cfg, c) <= cfg.max_frame_rate,
{
}

/// The settings a preset fixes, applied to `o`.
pub open spec fn with_preset(o: CaptureOptions, p: QualityPreset) -> CaptureOptions {
    match p {
        QualityPreset::Low => CaptureOptions {
            width: 1280,
            height: 720,
            frame_rate: 15,
            bitrate: 1000,
            quality_preset: p,
            ..o
        },
        QualityPreset::Balanced => CaptureOptions {
            width: 1920,
            height: 1080,
            frame_rate: 30,
            bitrate: 4000,
            quality_preset: p,
            ..o
        },
        QualityPreset::High => CaptureOptions {
            width: 1920,
            height: 1080,
            frame_rate: 60,
            bitrate: 8000,
            quality_preset: p,
            ..o
        },
        QualityPreset::Ultra => CaptureOptions { frame_rate: 60, bitrate: 15000, quality_preset: p, ..o },
    }
}

/// The rank of a preset, lowest first.
pub open spec fn preset_rank(p: QualityPreset) -> int {
    match p {
        QualityPreset::Low => 0,
        QualityPreset::Balanced => 1,
        QualityPreset::High => 2,
        QualityPreset::Ultra => 3,
    }
}

/// Every preset runs between 15 and 60 fps, and a higher preset never has a
/// lower frame rate or bitrate.
pub proof fn lemma_presets_ordered(o: CaptureOptions, p: QualityPreset, q: QualityPreset)
    ensures
        15 <= with_preset(o, p).frame_rate <= 60,
        preset_rank(p) <= preset_rank(q) ==> with_preset(o, p).frame_rate <= with_preset(o, q).frame_rate
            && with_preset(o, p).bitrate <= with_preset(o, q).bitrate,
{
}

/// Screen capturer state.
pub struct ScreenCapturer {
    id: String,
    current_display: Option<String>,
    capture_options: CaptureOptions,
    hardware_acceleration_available: bool,
    is_capturing: bool,
    frame_counter: u64,
    adaptive_config: AdaptiveBitrateConfig,
}

impl ScreenCapturer {
    /// The adaptive configuration is well formed.
    pub closed spec fn wf(&self) -> bool {
        config_wf(self.adaptive_config)
    }

    pub closed spec fn options_spec(&self) -> CaptureOptions {
        self.capture_options
    }

    pub closed spec fn config_spec(&self) -> AdaptiveBitrateConfig {
        self.adaptive_config
    }

    pub closed spec fn capturing_spec(&self) -> bool {
        self.is_capturing
    }

    pub closed spec fn counter_spec(&self) -> u64 {
        self.frame_counter
    }

    pub closed spec fn hw_spec(&self) -> bool {
        self.hardware_acceleration_available
    }

    /// A capturer with default options and configuration, not capturing.
    pub fn new() -> (r: Self)
        ensures
            r.wf(),
            !r.capturing_spec(),
            r.counter_spec() == 0,
            r.options_spec().frame_rate == 30 && r.options_spec().bitrate == 4000,
            r.options_spec().width == 1920 && r.options_spec().height == 1080,
            r.options_spec().codec == VideoCodecType::H264,
            r.options_spec().quality_preset == QualityPreset::Balanced,
            r.options_spec().enable_hardware_acceleration,
            r.config_spec().min_bitrate == 500 && r.config_spec().max_bitrate == 8000,
            r.config_spec().target_bitrate == 4000,
            r.config_spec().min_frame_rate == 15 && r.config_spec().max_frame_rate == 60,
            r.config_spec().target_frame_rate == 30,
            r.hw_spec(),
    {
        ScreenCapturer {
            id: new_uuid_v4(),
            current_display: None,
            capture_options: CaptureOptions::default(),
            hardware_acceleration_available: Self::check_hardware_acceleration(),
            is_capturing: false,
            frame_counter: 0,
            adaptive_config: AdaptiveBitrateConfig::default(),
        }
    }

    /// Hardware-accelerated encoding is available on the supported desktop
    /// platforms.
    fn check_hardware_acceleration() -> (r: bool)
        ensures
            r,
    {
        true
    }

    /// The capturer's identifier.
    pub fn id(&self) -> &String {
        &self.id
    }

    /// The displays that can be captured: the primary 1920x1080 display at
    /// 60 Hz.
    pub fn get_available_displays(&self) -> (r: Vec<DisplayInfo>)
        ensures
            r@.len() == 1,
            r@[0].is_primary && r@[0].width == 1920 && r@[0].height == 1080 && r@[0].refresh_rate == 60,
    {
        let mut v: Vec<DisplayInfo> = Vec::new();
        v.push(
            DisplayInfo {
                id: "display_0".to_string(),
                name: "Primary Display".to_string(),
                width: 1920,
                height: 1080,
                is_primary: true,
                refresh_rate: 60,
            },
        );
        v
    }

    /// Starts capturing `display_id` with `options`.
    pub fn start_capture(&mut self, display_id: String, options: CaptureOptions)
        requires
            old(self).wf(),
        ensures
            final(self).wf(),
            final(self).capturing_spec(),
            final(self).options_spec() == options,
            final(self).counter_spec() == old(self).counter_spec(),
            final(self).config_spec() == old(self).config_spec(),
    {
        self.current_display = Some(display_id);
        self.capture_options = options;
        self.is_capturing = true;
    }

    /// Milliseconds between frames at the current frame rate (a frame rate
    /// of zero counts as one frame per second).
    pub fn frame_interval_ms(&self) -> (r: u64)
        ensures
            self.options_spec().frame_rate > 0 ==> r == 1000int / (self.options_spec().frame_rate as int),
            self.options_spec().frame_rate == 0 ==> r == 1000,
    {
        let fps = self.capture_options.frame_rate;
        if fps == 0 {
            1000
        } else {
            1000 / fps as u64
        }
    }

    /// The next frame while capturing: numbered one past the previous
    /// frame, stamped `timestamp`, 1920x1080 RGBA. `None` when not capturing
    /// or when the counter is exhausted.
    pub fn next_frame(&mut self, timestamp: u64, data: Vec<u8>) -> (r: Option<VideoFrame>)
        requires
            old(self).wf(),
        ensures
            final(self).wf(),
            r is Some <==> (old(self).capturing_spec() && old(self).counter_spec() < u64::MAX),
            r matches Some(f) ==> f.id == old(self).counter_spec() + 1 && final(self).counter_spec() == f.id
                && f.timestamp == timestamp && f.data@ == data@,
            r is None ==> final(self).counter_spec() == old(self).counter_spec(),
            final(self).capturing_spec() == old(self).capturing_spec(),
            final(self).options_spec() == old(self).options_spec(),
    {
        if !self.is_capturing || self.frame_counter == u64::MAX {
            return None;
        }
        self.frame_counter = self.frame_counter + 1;
        Some(VideoFrame { id: self.frame_counter, timestamp, width: 1920, height: 1080, data, format: FrameFormat::RGBA })
    }

    /// Stops capturing.
    pub fn stop_capture(&mut self)
        requires
            old(self).wf(),
        ensures
            final(self).wf(),
            !final(self).capturing_spec(),
            final(self).options_spec() == old(self).options_spec(),
            final(self).counter_spec() == old(self).counter_spec(),
    {
        self.is_capturing = false;
        self.current_display = None;
    }

    /// Sets the codec.
    pub fn set_video_codec(&mut self, codec: VideoCodecType)
        requires
            old(self).wf(),
        ensures
            final(self).wf(),
            final(self).options_spec() == (CaptureOptions { codec, ..old(self).options_spec() }),
            final(self).config_spec() == old(self).config_spec(),
    {
        self.capture_options.codec = codec;
    }

    /// Sets the frame rate, clamped to [15, 60].
    pub fn set_frame_rate(&mut self, fps: u32)
        requires
            old(self).wf(),
        ensures
            final(self).wf(),
            final(self).options_spec() == (CaptureOptions {
                frame_rate: clamp(fps as int, 15, 60) as u32,
                ..old(self).options_spec()
            }),
            15 <= final(self).options_spec().frame_rate <= 60,
            final(self).config_spec() == old(self).config_spec(),
    {
        self.capture_options.frame_rate = if fps < 15 {
            15
        } else if fps > 60 {
            60
        } else {
            fps
        };
    }

    /// Sets the resolution.
    pub fn set_resolution(&mut self, width: u32, height: u32)
        requires
            old(self).wf(),
        ensures
            final(self).wf(),
            final(self).options_spec() == (CaptureOptions { width, height, ..old(self).options_spec() }),
            final(self).config_spec() == old(self).config_spec(),
    {
        self.capture_options.width = width;
        self.capture_options.height = height;
    }

    /// Sets the bitrate.
    pub fn set_bitrate(&mut self, bitrate: u32)
        requires
            old(self).wf(),
        ensures
            final(self).wf(),
            final(self).options_spec() == (CaptureOptions { bitrate, ..old(self).options_spec() }),
            final(self).config_spec() == old(self).config_spec(),
    {
        self.capture_options.bitrate = bitrate;
    }

    /// Whether hardware acceleration is available.
    pub fn is_hardware_acceleration_available(&self) -> (r: bool)
        ensures
            r == self.hw_spec(),
    {
        self.hardware_acceleration_available
    }

    /// Turns hardware acceleration on, where available, or off.
    pub fn enable_hardware_acceleration(&mut self, enable: bool)
        requires
            old(self).wf(),
        ensures
            final(self).wf(),
            final(self).options_spec() == (CaptureOptions {
                enable_hardware_acceleration: enable && old(self).hw_spec(),
                ..old(self).options_spec()
            }),
            final(self).config_spec() == old(self).config_spec(),
    {
        self.capture_options.enable_hardware_acceleration = enable && self.hardware_acceleration_available;
    }

    /// The current options.
    pub fn get_current_options(&self) -> (r: CaptureOptions)
        ensures
            r == self.options_spec(),
    {
        self.capture_options
    }

    /// Applies a preset.
    pub fn apply_quality_preset(&mut self, preset: QualityPreset)
        requires
            old(self).wf(),
        ensures
            final(self).wf(),
            final(self).options_spec() == with_preset(old(self).options_spec(), preset),
            final(self).config_spec() == old(self).config_spec(),
    {
        self.capture_options.quality_preset = preset;
        match preset {
            QualityPreset::Low => {
                self.capture_options.width = 1280;
                self.capture_options.height = 720;
                self.capture_options.frame_rate = 15;
                self.capture_options.bitrate = 1000;
            },
            QualityPreset::Balanced => {
                self.capture_options.width = 1920;
                self.capture_options.height = 1080;
                self.capture_options.frame_rate = 30;
                self.capture_options.bitrate = 4000;
            },
            QualityPreset::High => {
                self.capture_options.width = 1920;
                self.capture_options.height = 1080;
                self.capture_options.frame_rate = 60;
                self.capture_options.bitrate = 8000;
            },
            QualityPreset::Ultra => {
                self.capture_options.frame_rate = 60;
                self.capture_options.bitrate = 15000;
            },
        }
    }

    /// Adapts bitrate and frame rate to a network sample (see
    /// `adapted_bitrate` and `target_fps_for`).
    pub fn adapt_to_network_conditions(&mut self, conditions: NetworkConditions)
        requires
            old(self).wf(),
        ensures
            final(self).wf(),
            final(self).options_spec().bitrate == adapted_bitrate(
                old(self).options_spec().bitrate,
                old(self).config_spec(),
                conditions,
            ),
            final(self).options_spec().frame_rate == target_fps_for(old(self).config_spec(), conditions),
            final(self).options_spec().width == old(self).options_spec().width,
            final(self).options_spec().height == old(self).options_spec().height,
            final(self).config_spec() == old(self).config_spec(),
    {
        let cfg = self.adaptive_config;
        let wanted: u64 = conditions.available_bandwidth as u64 * 4 / 5;
        let new_bitrate: u32 = if wanted < cfg.min_bitrate as u64 {
            cfg.min_bitrate
        } else if wanted > cfg.max_bitrate as u64 {
            cfg.max_bitrate
        } else {
            wanted as u32
        };
        let factor: u64 = if conditions.packet_loss > 500 || conditions.rtt > 150 {
            70
        } else if conditions.packet_loss > 200 || conditions.rtt > 100 {
            85
        } else {
            100
        };
        let fps: u64 = cfg.target_frame_rate as u64 * factor / 100;
        let new_fps: u32 = if fps < cfg.min_frame_rate as u64 {
            cfg.min_frame_rate
        } else if fps > cfg.max_frame_rate as u64 {
            cfg.max_frame_rate
        } else {
            fps as u32
        };
        let current = self.capture_options.bitrate;
        let out_of_bounds = current < cfg.min_bitrate || current > cfg.max_bitrate;
        let far = if current > new_bitrate {
            current - new_bitrate > 200
        } else {
            new_bitrate - current > 200
        };
        if out_of_bounds || far {
            self.capture_options.bitrate = new_bitrate;
        }
        if self.capture_options.frame_rate != new_fps {
            self.capture_options.frame_rate = new_fps;
        }
    }

    /// Replaces the adaptive configuration; its bounds must be ordered.
    pub fn set_adaptive_config(&mut self, config: AdaptiveBitrateConfig)
        requires
            old(self).wf(),
            config_wf(config),
        ensures
            final(self).wf(),
            final(self).config_spec() == config,
            final(self).options_spec() == old(self).options_spec(),
    {
        self.adaptive_config = config;
    }

    /// Whether capture is running.
    pub fn is_capturing(&self) -> (r: bool)
        ensures
            r == self.capturing_spec(),
    {
        self.is_capturing
    }
}

/// Audio capturer state.
pub struct AudioCapturer {
    id: String,
    capture_options: AudioCaptureOptions,
    is_capturing: bool,
    frame_counter: u64,
}

impl AudioCapturer {
    pub closed spec fn options_spec(&self) -> AudioCaptureOptions {
        self.capture_options
    }

    pub closed spec fn capturing_spec(&self) -> bool {
        self.is_capturing
    }

    pub closed spec fn counter_spec(&self) -> u64 {
        self.frame_counter
    }

    /// A capturer with default options, not capturing.
    pub fn new() -> (r: Self)
        ensures
            !r.capturing_spec(),
            r.counter_spec() == 0,
            r.options_spec().sample_rate == 48000 && r.options_spec().channels == 2,
    {
        AudioCapturer {
            id: new_uuid_v4(),
            capture_options: AudioCaptureOptions::default(),
            is_capturing: false,
            frame_counter: 0,
        }
    }

    /// Starts capturing with `options`.
    pub fn start_capture(&mut self, options: AudioCaptureOptions)
        ensures
            final(self).capturing_spec(),
            final(self).options_spec() == options,
            final(self).counter_spec() == old(self).counter_spec(),
    {
        self.capture_options = options;
        self.is_capturing = true;
    }

    /// The next 20 ms frame while capturing, numbered one past the previous
    /// one; `None` when not capturing or when the counter is exhausted.
    pub fn next_frame(&mut self, timestamp: u64, data: Vec<i16>) -> (r: Option<AudioFrame>)
        ensures
            r is Some <==> (old(self).capturing_spec() && old(self).counter_spec() < u64::MAX),
            r matches Some(f) ==> f.id == old(self).counter_spec() + 1 && final(self).counter_spec() == f.id
                && f.sample_rate == old(self).options_spec().sample_rate && f.channels == old(self).options_spec().channels,
            r is None ==> final(self).counter_spec() == old(self).counter_spec(),
            final(self).capturing_spec() == old(self).capturing_spec(),
            final(self).options_spec() == old(self).options_spec(),
    {
        if !self.is_capturing || self.frame_counter == u64::MAX {
            return None;
        }
        self.frame_counter = self.frame_counter + 1;
        Some(
            AudioFrame {
                id: self.frame_counter,
                timestamp,
                sample_rate: self.capture_options.sample_rate,
                channels: self.capture_options.channels,
                data,
            },
        )
    }

    /// Stops capturing.
    pub fn stop_capture(&mut self)
        ensures
            !final(self).capturing_spec(),
            final(self).options_spec() == old(self).options_spec(),
    {
        self.is_capturing = false;
    }

    /// Sets the sample rate.
    pub fn set_sample_rate(&mut self, sample_rate: u32)
        ensures
            final(self).options_spec() == (AudioCaptureOptions { sample_rate, ..old(self).options_spec() }),
            final(self).capturing_spec() == old(self).capturing_spec(),
    {
        self.capture_options.sample_rate = sample_rate;
    }

    /// Turns noise suppression on or off.
    pub fn enable_noise_suppression(&mut self, enable: bool)
        ensures
            final(self).options_spec() == (AudioCaptureOptions {
                enable_noise_suppression: enable,
                ..old(self).options_spec()
            }),
            final(self).capturing_spec() == old(self).capturing_spec(),
    {
        self.capture_options.enable_noise_suppression = enable;
    }

    /// Turns echo cancellation on or off.
    pub fn enable_echo_cancellation(&mut self, enable: bool)
        ensures
            final(self).options_spec() == (AudioCaptureOptions {
                enable_echo_cancellation: enable,
                ..old(self).options_spec()
            }),
            final(self).capturing_spec() == old(self).capturing_spec(),
    {
        self.capture_options.enable_echo_cancellation = enable;
    }

    /// The current options.
    pub fn get_current_options(&self) -> (r: AudioCaptureOptions)
        ensures
            r == self.options_spec(),
    {
        self.capture_options
    }

    /// Whether capture is running.
    pub fn is_capturing(&self) -> (r: bool)
        ensures
            r == self.capturing_spec(),
    {
        self.is_capturing
    }

    /// The capturer's identifier.
    pub fn id(&self) -> &String {
        &self.id
    }
}

} // verus!
