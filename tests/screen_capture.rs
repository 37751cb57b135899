use remote_desktop_core::screen_capture::{
    AdaptiveBitrateConfig, AudioCapturer, CaptureOptions, NetworkConditions, QualityPreset, ScreenCapturer,
};

#[test]
fn test_screen_capturer_creation() {
    let capturer = ScreenCapturer::new();
    assert!(!capturer.is_capturing());
}

#[test]
fn test_quality_preset_application() {
    let mut capturer = ScreenCapturer::new();
    capturer.apply_quality_preset(QualityPreset::Low);
    let options = capturer.get_current_options();
    assert_eq!(options.width, 1280);
    assert_eq!(options.height, 720);
    assert_eq!(options.frame_rate, 15);
    capturer.apply_quality_preset(QualityPreset::High);
    let options = capturer.get_current_options();
    assert_eq!(options.width, 1920);
    assert_eq!(options.height, 1080);
    assert_eq!(options.frame_rate, 60);
}

#[test]
fn test_adaptive_bitrate() {
    let mut capturer = ScreenCapturer::new();
    capturer.adapt_to_network_conditions(NetworkConditions { available_bandwidth: 10000, packet_loss: 50, rtt: 50 });
    capturer.adapt_to_network_conditions(NetworkConditions { available_bandwidth: 2000, packet_loss: 800, rtt: 200 });
    let options = capturer.get_current_options();
    assert!(options.bitrate <= 2000);
}

#[test]
fn test_audio_capturer_creation() {
    let capturer = AudioCapturer::new();
    assert!(!capturer.is_capturing());
}

#[test]
fn test_extreme_network_conditions() {
    let mut capturer = ScreenCapturer::new();
    capturer.adapt_to_network_conditions(NetworkConditions { available_bandwidth: 100, packet_loss: 1500, rtt: 400 });
    let options = capturer.get_current_options();
    assert!(options.bitrate >= 500);
}

#[test]
fn test_excellent_network_conditions() {
    let mut capturer = ScreenCapturer::new();
    capturer.adapt_to_network_conditions(NetworkConditions { available_bandwidth: 50000, packet_loss: 0, rtt: 10 });
    let options = capturer.get_current_options();
    assert!(options.bitrate <= 8000);
}

#[test]
fn test_quality_preset_frame_rates() {
    let mut capturer = ScreenCapturer::new();
    capturer.apply_quality_preset(QualityPreset::Low);
    assert_eq!(capturer.get_current_options().frame_rate, 15);
    capturer.apply_quality_preset(QualityPreset::Balanced);
    assert_eq!(capturer.get_current_options().frame_rate, 30);
    capturer.apply_quality_preset(QualityPreset::High);
    assert_eq!(capturer.get_current_options().frame_rate, 60);
    capturer.apply_quality_preset(QualityPreset::Ultra);
    assert_eq!(capturer.get_current_options().frame_rate, 60);
}

// Scenario: poor network reduces fps by 0.7 and moves bitrate to 0.8 of bandwidth.
#[test]
fn poor_network_adaptation() {
    let mut capturer = ScreenCapturer::new();
    capturer.adapt_to_network_conditions(NetworkConditions { available_bandwidth: 3000, packet_loss: 800, rtt: 250 });
    let o = capturer.get_current_options();
    assert_eq!(o.frame_rate, 21);
    assert_eq!(o.bitrate, 2400);
}

#[test]
fn moderate_network_adaptation() {
    let mut capturer = ScreenCapturer::new();
    capturer.adapt_to_network_conditions(NetworkConditions { available_bandwidth: 5100, packet_loss: 250, rtt: 20 });
    let o = capturer.get_current_options();
    assert_eq!(o.frame_rate, 25);
    // 0.8 * 5100 = 4080 is within 200 kbps of 4000: unchanged.
    assert_eq!(o.bitrate, 4000);
}

#[test]
fn out_of_bounds_bitrate_is_corrected() {
    let mut capturer = ScreenCapturer::new();
    capturer.set_bitrate(8100);
    capturer.adapt_to_network_conditions(NetworkConditions { available_bandwidth: 50000, packet_loss: 0, rtt: 10 });
    assert_eq!(capturer.get_current_options().bitrate, 8000);
}

#[test]
fn manual_frame_rate_is_clamped() {
    let mut capturer = ScreenCapturer::new();
    capturer.set_frame_rate(5);
    assert_eq!(capturer.get_current_options().frame_rate, 15);
    capturer.set_frame_rate(144);
    assert_eq!(capturer.get_current_options().frame_rate, 60);
    capturer.set_frame_rate(24);
    assert_eq!(capturer.get_current_options().frame_rate, 24);
}

#[test]
fn custom_config_bounds() {
    let mut capturer = ScreenCapturer::new();
    capturer.set_adaptive_config(AdaptiveBitrateConfig {
        min_bitrate: 1000,
        max_bitrate: 1200,
        target_bitrate: 1100,
        min_frame_rate: 20,
        max_frame_rate: 25,
        target_frame_rate: 30,
    });
    capturer.adapt_to_network_conditions(NetworkConditions { available_bandwidth: 100, packet_loss: 0, rtt: 0 });
    let o = capturer.get_current_options();
    assert_eq!(o.bitrate, 1000);
    assert_eq!(o.frame_rate, 25);
}

#[test]
fn frames_are_numbered() {
    let mut capturer = ScreenCapturer::new();
    assert!(capturer.next_frame(1, vec![]).is_none());
    capturer.start_capture("display_0".to_string(), CaptureOptions::default());
    assert_eq!(capturer.next_frame(1, vec![]).unwrap().id, 1);
    assert_eq!(capturer.next_frame(2, vec![]).unwrap().id, 2);
    assert_eq!(capturer.frame_interval_ms(), 33);
    capturer.stop_capture();
    assert!(!capturer.is_capturing());
}
