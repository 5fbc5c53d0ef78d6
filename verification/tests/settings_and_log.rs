use sbsp::log_line::{
    assemble, colored_level, format_record, max_level, LogLevel, TIMESTAMP_LIMIT,
};
use sbsp::settings::{BackendAudioSettings, BackendSettings};

fn audio() -> BackendAudioSettings {
    BackendAudioSettings {
        device_id: Some("hw:0".to_string()),
        channel_count: Some(2),
        sample_rate: Some(48_000),
        buffer_size: Some(512),
    }
}

#[test]
fn default_settings_ask_for_nothing() {
    let settings = BackendSettings::default();
    assert!(!settings.advance_cursor_when_go);
    assert!(!settings.copy_assets_when_add);
    assert!(settings.audio == BackendAudioSettings::default());
    assert!(settings.audio.device_id.is_none());
    assert!(settings.audio.channel_count.is_none());
    assert!(settings.audio.sample_rate.is_none());
    assert!(settings.audio.buffer_size.is_none());
}

#[test]
fn cloned_audio_settings_are_equal() {
    let a = audio();
    let b = a.clone();
    assert!(a == b);
    assert_eq!(b.device_id.as_deref(), Some("hw:0"));
    assert!(BackendAudioSettings::default() == BackendAudioSettings::default().clone());
}

#[test]
fn every_field_tells_audio_settings_apart() {
    let a = audio();
    assert!(a != BackendAudioSettings { device_id: None, ..audio() });
    assert!(a != BackendAudioSettings { device_id: Some("hw:1".to_string()), ..audio() });
    assert!(a != BackendAudioSettings { channel_count: None, ..audio() });
    assert!(a != BackendAudioSettings { sample_rate: Some(44_100), ..audio() });
    assert!(a != BackendAudioSettings { buffer_size: Some(256), ..audio() });
}

#[test]
fn debug_records_are_for_debug_builds() {
    assert_eq!(max_level(true), LogLevel::Debug);
    assert_eq!(max_level(false), LogLevel::Info);
}

#[test]
fn levels_have_their_colors() {
    assert_eq!(colored_level(LogLevel::Error), "\x1B[31mERROR\x1B[0m");
    assert_eq!(colored_level(LogLevel::Warn), "\x1B[33mWARN\x1B[0m");
    assert_eq!(colored_level(LogLevel::Info), "\x1B[32mINFO\x1B[0m");
    assert_eq!(colored_level(LogLevel::Debug), "\x1B[37mDEBUG\x1B[0m");
    assert_eq!(colored_level(LogLevel::Trace), "\x1B[90mTRACE\x1B[0m");
}

#[test]
fn levels_are_colored_as_the_logger_colors_them() {
    let colors = fern::colors::ColoredLevelConfig::new()
        .error(fern::colors::Color::Red)
        .warn(fern::colors::Color::Yellow)
        .info(fern::colors::Color::Green)
        .debug(fern::colors::Color::White)
        .trace(fern::colors::Color::BrightBlack);
    for (ours, theirs) in [
        (LogLevel::Error, log::Level::Error),
        (LogLevel::Warn, log::Level::Warn),
        (LogLevel::Info, log::Level::Info),
        (LogLevel::Debug, log::Level::Debug),
        (LogLevel::Trace, log::Level::Trace),
    ] {
        assert_eq!(colored_level(ours), colors.color(theirs).to_string());
    }
}

#[test]
fn line_puts_its_parts_in_brackets() {
    assert_eq!(assemble("T", "L", "target", "a message"), "[T][L][target] a message");
    assert_eq!(assemble("", "", "", ""), "[][][] ");
}

#[test]
fn record_has_time_level_target_and_message() {
    assert_eq!(
        format_record(1_518_568_087, LogLevel::Info, "sbsp", "started"),
        "[2018-02-14T00:28:07Z][\x1B[32mINFO\x1B[0m][sbsp] started"
    );
    assert_eq!(
        format_record(0, LogLevel::Error, "a::b", ""),
        "[1970-01-01T00:00:00Z][\x1B[31mERROR\x1B[0m][a::b] "
    );
}

#[test]
fn last_timestamp_can_be_written() {
    assert_eq!(
        format_record(TIMESTAMP_LIMIT - 1, LogLevel::Warn, "t", "m"),
        "[9999-12-31T23:59:59Z][\x1B[33mWARN\x1B[0m][t] m"
    );
}
